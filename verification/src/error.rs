//! What can go wrong inside the library.

use vstd::prelude::*;
use vstd::string::*;
use crate::key::key_text;
use crate::key::Key;

verus! {

/// A key that could not be handled.  The caller shows it as a message.
#[derive(Clone, Copy, Debug, PartialEq, Eq, Structural)]
pub enum KeyError {
    /// The key has no meaning where it was pressed.
    Unknown(Key),
}

/// The message that tells of the error.
pub open spec fn error_text(error: KeyError) -> Seq<char> {
    match error {
        KeyError::Unknown(key) => "Unknown key: "@ + key_text(key),
    }
}

impl KeyError {
    /// The message that tells of the error.
    pub fn message(&self) -> (s: String)
        ensures
            s@ == error_text(*self),
    {
        match self {
            KeyError::Unknown(key) => {
                let mut s = "Unknown key: ".to_string();
                s.append(key.describe().as_str());
                s
            },
        }
    }
}

} // verus!
