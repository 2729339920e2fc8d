//! Configuration validation errors.

use vstd::prelude::*;

verus! {

/// An invalid-input error raised while validating configuration.
#[derive(Debug)]
pub struct ConfigError {
    /// What was wrong, in the words the embedding program surfaces.
    pub message: String,
}

impl ConfigError {
    /// An error carrying exactly `text`.
    pub fn new(text: &str) -> (r: ConfigError)
        ensures
            r.message@ == text@,
    {
        ConfigError { message: String::from_str(text) }
    }
}

} // verus!
