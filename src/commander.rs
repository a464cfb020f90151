use vstd::prelude::*;

use crate::error::CommanderError;

verus! {

/// A table from command name to action.
///
/// Names are kept in `names`, the action of `names[i]` in `actions[i]`; the
/// ghost `table` is the mapping both vectors stand for.
pub struct Commander<A> {
    names: Vec<String>,
    actions: Vec<A>,
    table: Ghost<Map<Seq<char>, A>>,
}

/// What a dispatch of `name` against `table` returns: success exactly when
/// an action is registered under it.
pub open spec fn dispatch_result<A>(table: Map<Seq<char>, A>, name: Seq<char>) -> Result<
    (),
    CommanderError,
> {
    if table.contains_key(name) {
        Ok(())
    } else {
        Err(CommanderError::NotFound)
    }
}

/// The names that a sequence of strings holds.
pub open spec fn names_of(r: Seq<String>) -> Set<Seq<char>> {
    r.map_values(|s: String| s@).to_set()
}

/// `r` lists every name of `table` exactly once, in some order.
pub open spec fn lists<A>(table: Map<Seq<char>, A>, r: Seq<String>) -> bool {
    &&& names_of(r) == table.dom()
    &&& r.map_values(|s: String| s@).no_duplicates()
}

/// What a dispatch from the argument vector `argv` returns: its first element
/// is the name, and an empty vector names nothing.
pub open spec fn vector_result<A>(table: Map<Seq<char>, A>, argv: Seq<String>) -> Result<
    (),
    CommanderError,
> {
    if argv.len() == 0 {
        Err(CommanderError::EmptyInput)
    } else {
        dispatch_result(table, argv[0]@)
    }
}

/// What a dispatch from a process's argument vector `argv` returns: its
/// first element is the program's own name and is skipped.
pub open spec fn process_result<A>(table: Map<Seq<char>, A>, argv: Seq<String>) -> Result<
    (),
    CommanderError,
> {
    if argv.len() < 2 {
        Err(CommanderError::EmptyInput)
    } else {
        dispatch_result(table, argv[1]@)
    }
}

/// The action under `name` in `table` ran on an argument list that holds
/// exactly `args`.
pub open spec fn ran_with<A: Fn(Vec<String>)>(
    table: Map<Seq<char>, A>,
    name: Seq<char>,
    args: Seq<String>,
) -> bool {
    exists|v: Vec<String>| v@ == args && #[trigger] table[name].ensures((v,), ())
}

impl<A: Fn(Vec<String>)> Commander<A> {
    /// The mapping from command name to its action.
    pub closed spec fn view(&self) -> Map<Seq<char>, A> {
        self.table@
    }

    /// The two vectors hold the mapping, one entry per name, and every
    /// stored action accepts any argument list.
    pub closed spec fn wf(&self) -> bool {
        &&& self.names.len() == self.actions.len()
        &&& forall|i: int, j: int|
            0 <= i < j < self.names.len() ==> self.names[i]@ != self.names[j]@
        &&& forall|i: int|
            0 <= i < self.names.len() ==> {
                &&& self.table@.contains_key(#[trigger] self.names[i]@)
                &&& self.table@[self.names[i]@] == self.actions[i]
            }
        &&& forall|k: Seq<char>|
            #[trigger] self.table@.contains_key(k) ==> exists|i: int|
                0 <= i < self.names.len() && self.names[i]@ == k
        &&& forall|k: Seq<char>, args: Vec<String>|
            self.table@.contains_key(k) ==> #[trigger] self.table@[k].requires((args,))
    }

    /// Creates a registry with no commands.
    pub fn new() -> (r: Commander<A>)
        ensures
            r.wf(),
            r@ == Map::<Seq<char>, A>::empty(),
    {
        Commander { names: Vec::new(), actions: Vec::new(), table: Ghost(Map::empty()) }
    }

    /// The position of `name` among the registered names, if it is there.
    fn find(&self, name: &String) -> (r: Option<usize>)
        requires
            self.wf(),
        ensures
            match r {
                Some(i) => i < self.names.len() && self.names[i as int]@ == name@,
                None => !self@.contains_key(name@),
            },
    {
        let mut i: usize = 0;
        while i < self.names.len()
            invariant
                self.wf(),
                i <= self.names.len(),
                forall|j: int| 0 <= j < i ==> self.names[j]@ != name@,
            decreases self.names.len() - i,
        {
            if self.names[i] == *name {
                return Some(i);
            }
            i = i + 1;
        }
        None
    }

    /// Registers `action` under `name`, replacing any action already there.
    pub fn command(&mut self, name: &str, action: A)
        requires
            old(self).wf(),
            forall|args: Vec<String>| #[trigger] action.requires((args,)),
        ensures
            final(self).wf(),
            final(self)@ == old(self)@.insert(name@, action),
    {
        let key = name.to_owned();
        let ghost old_names = self.names@;
        let ghost old_table = self.table@;
        let ghost pos: int;
        match self.find(&key) {
            Some(i) => {
                self.actions.set(i, action);
                proof {
                    pos = i as int;
                }
            },
            None => {
                self.names.push(key);
                self.actions.push(action);
                proof {
                    pos = old_names.len() as int;
                }
            },
        }
        self.table = Ghost(self.table@.insert(name@, action));
        assert forall|k: Seq<char>| #[trigger] self.table@.contains_key(k) implies exists|i: int|
            0 <= i < self.names.len() && self.names[i]@ == k by {
            if k == name@ {
                assert(self.names[pos]@ == k);
            } else {
                assert(old_table.contains_key(k));
                let j = choose|j: int| 0 <= j < old_names.len() && old_names[j]@ == k;
                assert(self.names[j]@ == k);
            }
        }
    }

    /// Runs the action registered under `name` with `args`.
    pub fn run_command(&mut self, name: String, args: Vec<String>) -> (r: Result<(), CommanderError>)
        requires
            old(self).wf(),
        ensures
            *final(self) == *old(self),
            r == dispatch_result(old(self)@, name@),
            r is Ok ==> old(self)@[name@].ensures((args,), ()),
    {
        match self.find(&name) {
            Some(i) => {
                let action = &self.actions[i];
                action(args);
                Ok(())
            },
            None => Err(CommanderError::NotFound),
        }
    }

    /// Every registered name, each once, in no promised order.
    pub fn commands(&self) -> (r: Vec<String>)
        requires
            self.wf(),
        ensures
            lists(self@, r@),
    {
        let mut r: Vec<String> = Vec::new();
        let mut i: usize = 0;
        while i < self.names.len()
            invariant
                self.wf(),
                i <= self.names.len(),
                r@ == self.names@.subrange(0, i as int),
            decreases self.names.len() - i,
        {
            r.push(self.names[i].clone());
            i = i + 1;
        }
        assert(r@ == self.names@);
        let ghost views = r@.map_values(|s: String| s@);
        assert forall|k: Seq<char>| names_of(r@).contains(k) <==> self@.contains_key(k) by {
            if self@.contains_key(k) {
                let j = choose|j: int| 0 <= j < self.names.len() && self.names[j]@ == k;
                assert(views[j] == k);
            }
            if names_of(r@).contains(k) {
                let j = choose|j: int| 0 <= j < views.len() && views[j] == k;
                assert(self.names[j]@ == k);
            }
        }
        assert(names_of(r@) == self@.dom());
        r
    }

    /// Runs the command that `args` names: its first element is the name and
    /// the rest is handed to the action.
    pub fn run_with_args(&mut self, args: Vec<String>) -> (r: Result<(), CommanderError>)
        requires
            old(self).wf(),
        ensures
            *final(self) == *old(self),
            r == vector_result(old(self)@, args@),
            r is Ok ==> ran_with(old(self)@, args@[0]@, args@.drop_first()),
    {
        if args.len() == 0 {
            return Err(CommanderError::EmptyInput);
        }
        let mut argv = args;
        let name = argv.remove(0);
        let ghost rest = argv;
        let r = self.run_command(name, argv);
        assert(rest@ == args@.drop_first());
        r
    }

    /// Runs the command that a process's argument vector names: its first
    /// element, the program's own name, is dropped, and the rest is
    /// dispatched as by `run_with_args`.
    pub fn run(&mut self, argv: Vec<String>) -> (r: Result<(), CommanderError>)
        requires
            old(self).wf(),
        ensures
            *final(self) == *old(self),
            r == process_result(old(self)@, argv@),
            r is Ok ==> ran_with(old(self)@, argv@[1]@, argv@.subrange(2, argv@.len() as int)),
    {
        if argv.len() == 0 {
            return Err(CommanderError::EmptyInput);
        }
        let mut args = argv;
        args.remove(0);
        let ghost rest = args;
        let r = self.run_with_args(args);
        proof {
            if argv@.len() >= 2 {
                assert(rest@.drop_first() =~= argv@.subrange(2, argv@.len() as int));
            }
        }
        r
    }
}

} // verus!
