use vstd::prelude::*;

verus! {

/// Why a tag could not be read, written or parsed.
#[derive(Clone, Copy, Debug, PartialEq, Eq, Structural)]
pub enum TagError {
    /// The path is invalid or not a regular file.
    NotATrackFile,
    /// The tag container could not be read or written.
    CodecError,
    /// A numeric field's text is not an integer of the expected type.
    ParseError,
}

} // verus!
