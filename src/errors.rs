use vstd::prelude::*;

verus! {

/// The two ways a store operation can fail.
///
/// `ItemDoesNotExist`: the requested key has no entry in the store.
/// `UnableToObtainLock`: the store's lock could not be acquired, because an
/// earlier holder panicked while holding it.
#[derive(Debug, Clone, Copy, PartialEq, Eq, Structural)]
pub enum Error {
    ItemDoesNotExist,
    UnableToObtainLock,
}

/// The human-readable rendering of each error.
pub open spec fn error_text(e: Error) -> Seq<char> {
    match e {
        Error::ItemDoesNotExist => "Error: Item does not exist"@,
        Error::UnableToObtainLock => "Error: Unable to obtain lock"@,
    }
}

impl Error {
    /// The text shown to a user for this error.
    pub fn message(&self) -> (r: &'static str)
        ensures
            r@ == error_text(*self),
    {
        match self {
            Error::ItemDoesNotExist => "Error: Item does not exist",
            Error::UnableToObtainLock => "Error: Unable to obtain lock",
        }
    }
}

} // verus!
