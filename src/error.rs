use vstd::prelude::*;

verus! {

/// Why (de)serialising a value failed.
#[derive(Debug, Clone, PartialEq, Eq)]
pub enum SerdeError {
    Serialize(String),
    Deserialize(String),
}

/// Why a session failed: the terminal or a file could not be used, or a
/// value could not be (de)serialised.
#[derive(Debug, Clone, PartialEq, Eq)]
pub enum Error {
    Io(String),
    Serde(SerdeError),
}

/// The message that an error carries.
pub open spec fn error_message(error: Error) -> Seq<char> {
    match error {
        Error::Io(m) => m@,
        Error::Serde(SerdeError::Serialize(m)) => m@,
        Error::Serde(SerdeError::Deserialize(m)) => m@,
    }
}

impl Error {
    /// The error's message.
    pub fn describe(&self) -> (r: String)
        ensures
            r@ == error_message(*self),
    {
        match self {
            Error::Io(m) => m.clone(),
            Error::Serde(SerdeError::Serialize(m)) => m.clone(),
            Error::Serde(SerdeError::Deserialize(m)) => m.clone(),
        }
    }
}

} // verus!
