use vstd::prelude::*;

verus! {

/// Why a trailer's bytes failed to decode as a CBOR map of metadata fields.
#[derive(Clone, Copy, Debug, PartialEq, Eq, Structural)]
pub enum CborError {
    /// An item needs more bytes than the input holds.
    Truncated,
    /// A header byte carries reserved additional information, an
    /// indefinite length, or a stray break code.
    InvalidHeader,
    /// Containers nest deeper than the fixed bound.
    TooDeep,
    /// The top-level item is not a map.
    NotAMap,
    /// A recognized key holds a value of the wrong shape.
    WrongShape,
    /// A recognized key occurs more than once.
    DuplicateKey,
    /// Bytes follow the top-level item.
    TrailingData,
}

/// Why a buffer holds no decodable metadata trailer.
#[derive(Clone, Copy, Debug, PartialEq, Eq, Structural)]
pub enum MetadataError {
    /// The buffer is too short to hold even the trailing length field.
    InsufficientData,
    /// The declared trailer length exceeds what the buffer can hold.
    TrailerOverrun,
    /// The trailer bytes are not a well-formed CBOR map of fields.
    MalformedStructuredData(CborError),
    /// The compiler-version field is present but not exactly three bytes.
    InvalidVersionLength,
}

} // verus!
