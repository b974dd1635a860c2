//! Decoder for the metadata trailer that Solidity compilers append to
//! contract bytecode: it locates the trailer by its trailing length field,
//! decodes it as a CBOR map, normalizes the redundant digest fields into
//! one canonical digest, and parses the embedded compiler version.

pub mod address;
pub mod cbor;
pub mod encode;
pub mod errors;
pub mod laws;
pub mod metadata;
pub mod rpc;
pub mod trailer;

pub use address::ethereum_address;
pub use cbor::{decode_fields, DecodedFields};
pub use errors::{CborError, MetadataError};
pub use metadata::{normalize_digest, Digest, Metadata, SolidityVersion};
pub use rpc::request;
pub use trailer::{locate_trailer, RawTrailerView};
