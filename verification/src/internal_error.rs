//! The closed set of failures that the binding reports.

use vstd::prelude::*;
use vstd::string::*;

verus! {

pub type VLCResult<I> = Result<I, VLCError>;

/// Every failure that an operation of this library can report.
#[derive(Debug, Clone, PartialEq, Eq)]
pub enum VLCError {
    /// The native layer handed back no handle. The text names the operation
    /// that asked for one.
    NullPointer(String),
    /// A string holds a zero byte and cannot be laid out for the native layer.
    StrFFI,
    /// A path is not text, or holds a zero byte.
    PathFFI,
    /// An index lies beyond the end of a native list.
    IndexOutOfRange,
    /// The native layer refused a parse request at once.
    ParseRequest,
    /// A native failure that has no variant of its own.
    Unknown,
}

impl VLCError {
    /// The text of the failure, as a sequence of characters.
    pub open spec fn spec_message(self) -> Seq<char> {
        match self {
            VLCError::NullPointer(what) => what@ + " returned a null pointer"@,
            VLCError::StrFFI => "Failed to marshal string to FFI string"@,
            VLCError::PathFFI => "Failed to marshal path to FFI path"@,
            VLCError::IndexOutOfRange => "Index out of range"@,
            VLCError::ParseRequest => "Parse request failed"@,
            VLCError::Unknown => "Unknown libvlc error"@,
        }
    }

    /// The text of the failure, for a person to read.
    pub fn message(&self) -> (text: String)
        ensures
            text@ == self.spec_message(),
    {
        match self {
            VLCError::NullPointer(what) => what.clone().concat(" returned a null pointer"),
            VLCError::StrFFI => String::from_str("Failed to marshal string to FFI string"),
            VLCError::PathFFI => String::from_str("Failed to marshal path to FFI path"),
            VLCError::IndexOutOfRange => String::from_str("Index out of range"),
            VLCError::ParseRequest => String::from_str("Parse request failed"),
            VLCError::Unknown => String::from_str("Unknown libvlc error"),
        }
    }
}

} // verus!
