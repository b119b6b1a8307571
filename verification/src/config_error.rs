//! The error that configuration loading reports.

use vstd::prelude::*;

verus! {

/// A configuration problem, described by one human-readable message.
#[derive(Clone, Debug, PartialEq, Eq)]
pub struct ConfigError(pub String);

impl ConfigError {
    /// An error carrying `message`.
    pub fn new(message: String) -> (error: ConfigError)
        ensures
            error.0@ == message@,
    {
        ConfigError(message)
    }

    /// An error carrying the characters `message`.
    pub fn from_chars(message: &Vec<char>) -> (error: ConfigError)
        ensures
            error.0@ == message@,
    {
        ConfigError(crate::text::string_of(message))
    }

    /// An error carrying the literal `message`.
    pub fn from_str(message: &str) -> (error: ConfigError)
        ensures
            error.0@ == message@,
    {
        ConfigError(crate::text::owned(message))
    }

    /// The message, as the error displays it.
    pub fn to_string(&self) -> (s: String)
        ensures
            s@ == self.0@,
    {
        self.0.clone()
    }

    /// The message's characters.
    pub fn message_chars(&self) -> (v: Vec<char>)
        ensures
            v@ == self.0@,
    {
        crate::text::chars_of(self.0.as_str())
    }
}

} // verus!
