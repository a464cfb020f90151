//! Properties of the registry, stated over the models that the operations'
//! contracts use.
use vstd::prelude::*;

use crate::commander::{dispatch_result, lists, names_of, process_result, vector_result};
use crate::error::CommanderError;

verus! {

/// Registering `a` and then `b` under the same name leaves one entry for that
/// name, holding `b`: the table is the one that registering `b` alone gives,
/// and dispatching the name succeeds.
pub proof fn register_replace<A>(table: Map<Seq<char>, A>, name: Seq<char>, a: A, b: A)
    ensures
        table.insert(name, a).insert(name, b) == table.insert(name, b),
        table.insert(name, a).insert(name, b)[name] == b,
        table.insert(name, a).insert(name, b).dom() == table.dom().insert(name),
        dispatch_result(table.insert(name, a).insert(name, b), name) == Ok::<
            (),
            CommanderError,
        >(()),
{
    assert(table.insert(name, a).insert(name, b) =~= table.insert(name, b));
}

/// A name with no entry is reported as not found.
pub proof fn unknown_lookup<A>(table: Map<Seq<char>, A>, name: Seq<char>)
    requires
        !table.contains_key(name),
    ensures
        dispatch_result(table, name) == Err::<(), CommanderError>(CommanderError::NotFound),
{
}

/// An empty argument vector is reported as empty input, never as an unknown
/// name.
pub proof fn empty_vector<A>(table: Map<Seq<char>, A>)
    ensures
        vector_result(table, Seq::<String>::empty()) == Err::<(), CommanderError>(
            CommanderError::EmptyInput,
        ),
{
}

/// Two listings of the same table hold the same names, and as many of them.
pub proof fn listing_idempotent<A>(table: Map<Seq<char>, A>, r1: Seq<String>, r2: Seq<String>)
    requires
        lists(table, r1),
        lists(table, r2),
    ensures
        names_of(r1) == names_of(r2),
        r1.len() == r2.len(),
{
    r1.map_values(|s: String| s@).unique_seq_to_set();
    r2.map_values(|s: String| s@).unique_seq_to_set();
}

/// Dispatching a process's argument vector is dispatching the vector without
/// its first element, the program's name.
pub proof fn process_drops_program_name<A>(table: Map<Seq<char>, A>, argv: Seq<String>)
    requires
        argv.len() >= 1,
    ensures
        process_result(table, argv) == vector_result(table, argv.drop_first()),
{
}

} // verus!
