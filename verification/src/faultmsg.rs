//! The closed set of diagnostics a generator can report, and their
//! human-readable rendering.

use vstd::prelude::*;
use vstd::string::*;

verus! {

/// The kind of non-record declaration a generator was fed.
#[derive(Debug, Clone, Copy, PartialEq, Eq, Structural)]
pub enum StructIs {
    Enum,
    Union,
}

impl StructIs {
    /// The words naming this kind inside a diagnostic message.
    pub open spec fn message_spec(self) -> Seq<char> {
        match self {
            StructIs::Enum => "an enum"@,
            StructIs::Union => "a union"@,
        }
    }

    /// Renders the kind for interpolation into a diagnostic message.
    pub fn message(&self) -> (r: String)
        ensures
            r@ == self.message_spec(),
    {
        match self {
            StructIs::Enum => "an enum".to_owned(),
            StructIs::Union => "a union".to_owned(),
        }
    }
}

/// Every way a generator can fail.  A failure aborts the whole generation
/// for the declaration: no partial output is ever produced.
#[derive(Debug, Clone, Copy, PartialEq, Eq, Structural)]
pub enum Problem {
    /// The declaration is not a record at all; the payload names what it is.
    NotNamedStruct(StructIs),
    /// The declaration is a record, but a field (or all of them) has no name.
    UnnamedField,
    /// Tokens trail a recognized `skip` directive.
    TokensFollowSkip,
    /// Tokens trail the string literal of a `rename` directive.
    TokensFollowNewName,
    /// The directive keyword or its payload is malformed.
    InvalidAttribute,
}

impl Problem {
    /// The full diagnostic message for this failure.
    pub open spec fn message_spec(self) -> Seq<char> {
        match self {
            Problem::NotNamedStruct(is) => "type must be a named struct, not "@ + is.message_spec(),
            Problem::UnnamedField => "struct fields must be named"@,
            Problem::TokensFollowSkip => "tokens are not meant to follow skip attribute"@,
            Problem::TokensFollowNewName => "no further tokens must follow new name"@,
            Problem::InvalidAttribute => "invalid attribute"@,
        }
    }

    /// Renders the diagnostic message.
    pub fn message(&self) -> (r: String)
        ensures
            r@ == self.message_spec(),
    {
        match self {
            Problem::NotNamedStruct(is) => {
                let mut s = "type must be a named struct, not ".to_owned();
                let kind = is.message();
                s.append(kind.as_str());
                s
            },
            Problem::UnnamedField => "struct fields must be named".to_owned(),
            Problem::TokensFollowSkip => "tokens are not meant to follow skip attribute".to_owned(),
            Problem::TokensFollowNewName => "no further tokens must follow new name".to_owned(),
            Problem::InvalidAttribute => "invalid attribute".to_owned(),
        }
    }
}

} // verus!
