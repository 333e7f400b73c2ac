//! The service's endpoints.
use vstd::prelude::*;

pub mod health;
pub mod notes;
pub mod token;
pub mod users;
pub mod validation;
pub mod wah;

verus! {

/// How the database answered an insert: done, or refused, with the name of the
/// violated constraint when there is one.
pub enum InsertOutcome {
    Inserted,
    Failed { constraint: Option<String> },
}

} // verus!
