use vstd::prelude::*;

verus! {

/// Why a unit record could not be decoded. Every error ends the decode.
#[derive(Debug, Clone, Copy, PartialEq, Eq)]
pub enum FormatError {
    /// The leading category byte is none of the known category codes.
    InvalidCategoryTag(u8),
    /// A read needed more bytes than the stream holds.
    UnexpectedEndOfStream,
    /// The name bytes are not valid UTF-8.
    InvalidStringEncoding,
}

} // verus!
