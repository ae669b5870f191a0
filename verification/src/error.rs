//! Error type of the library.

use vstd::prelude::*;

verus! {

/// Errors raised by the game's rules.
#[derive(Debug)]
pub enum ParishError {
    /// Invalid or incomplete provider configuration.
    Config(String),
    /// An inference request failed.
    Inference(String),
    /// Local model-server setup failed.
    Setup(String),
    /// The requested model could not be obtained.
    ModelNotAvailable(String),
}

impl ParishError {
    /// The message the error carries.
    pub open spec fn message(self) -> Seq<char> {
        match self {
            ParishError::Config(m) => m@,
            ParishError::Inference(m) => m@,
            ParishError::Setup(m) => m@,
            ParishError::ModelNotAvailable(m) => m@,
        }
    }

    /// The message the error carries.
    pub fn as_str(&self) -> (r: &str)
        ensures
            r@ == self.message(),
    {
        match self {
            ParishError::Config(m) => m.as_str(),
            ParishError::Inference(m) => m.as_str(),
            ParishError::Setup(m) => m.as_str(),
            ParishError::ModelNotAvailable(m) => m.as_str(),
        }
    }
}

} // verus!
