//! The conditions that end a generation run.

use vstd::prelude::*;
use vstd::string::*;

verus! {

/// Why no module was produced. Each variant carries the offending name.
#[derive(Clone, Debug, PartialEq, Eq)]
pub enum GenerateError {
    /// The service declares a protocol that no backend serves.
    UnknownProtocol(String),
    /// A list, a map or a member refers to a shape that the service lacks.
    UnresolvedShape(String),
    /// A list or map shape contains itself through lists and maps alone, so
    /// no finite type expression stands for it.
    UnboundedType(String),
}

impl GenerateError {
    /// The name that the error is about.
    pub open spec fn subject(self) -> Seq<char> {
        match self {
            GenerateError::UnknownProtocol(name) => name@,
            GenerateError::UnresolvedShape(name) => name@,
            GenerateError::UnboundedType(name) => name@,
        }
    }

    /// The text of the message for an error about `subject`.
    pub open spec fn message_text(self) -> Seq<char> {
        match self {
            GenerateError::UnknownProtocol(name) => "Unknown protocol "@ + name@,
            GenerateError::UnresolvedShape(name) => "Unknown shape "@ + name@,
            GenerateError::UnboundedType(name) => "Unbounded type "@ + name@,
        }
    }

    /// A message that names what the run failed on.
    pub fn message(&self) -> (r: String)
        ensures
            r@ == self.message_text(),
    {
        match self {
            GenerateError::UnknownProtocol(name) => "Unknown protocol ".to_owned().concat(
                name.as_str(),
            ),
            GenerateError::UnresolvedShape(name) => "Unknown shape ".to_owned().concat(
                name.as_str(),
            ),
            GenerateError::UnboundedType(name) => "Unbounded type ".to_owned().concat(
                name.as_str(),
            ),
        }
    }
}

} // verus!
