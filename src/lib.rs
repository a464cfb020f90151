//! A single-level command registry: named actions are registered against
//! string keys and later dispatched by name, with an argument list, or from
//! a whole argument vector.
pub mod commander;
pub mod error;
pub mod laws;

pub use commander::Commander;
pub use error::CommanderError;
