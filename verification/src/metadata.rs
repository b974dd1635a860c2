use vstd::prelude::*;
use vstd::slice::slice_subrange;
use vstd::string::StringExecFns;

use crate::cbor::{decode_fields, spec_decode_fields, DecodedFields, SpecFields};
use crate::encode::{base58_encode, base58_of, hex_encode, spec_hex_of};
use crate::errors::MetadataError;
use crate::trailer::{locate_trailer, spec_trailer_len};

verus! {

/// A version of the Solidity reference compiler.
#[derive(Clone, Copy, Debug, PartialEq, Eq, Structural)]
pub struct SolidityVersion {
    pub major: u8,
    pub minor: u8,
    pub patch: u8,
}

/// What parsing a compiler-version field must yield: exactly three
/// bytes, in the order major, minor, patch.
pub open spec fn spec_version_of(b: Seq<u8>) -> Result<SolidityVersion, MetadataError> {
    if b.len() == 3 {
        Ok(SolidityVersion { major: b[0], minor: b[1], patch: b[2] })
    } else {
        Err(MetadataError::InvalidVersionLength)
    }
}

impl SolidityVersion {
    /// Parses a compiler-version field.
    pub fn try_from(bytes: &[u8]) -> (r: Result<SolidityVersion, MetadataError>)
        ensures
            r == spec_version_of(bytes@),
    {
        if bytes.len() == 3 {
            Ok(SolidityVersion { major: bytes[0], minor: bytes[1], patch: bytes[2] })
        } else {
            Err(MetadataError::InvalidVersionLength)
        }
    }
}

/// The one canonical digest of the metadata document, despite the
/// possibility of several digest fields being present in the trailer.
#[derive(Clone, Debug)]
pub enum Digest {
    Ipfs(String),
    Swarm(String),
}

/// The mathematical value of a `Digest`: which network it addresses and
/// the characters of its canonical encoding.
pub enum SpecDigest {
    Ipfs(Seq<char>),
    Swarm(Seq<char>),
}

impl View for Digest {
    type V = SpecDigest;

    open spec fn view(&self) -> SpecDigest {
        match self {
            Digest::Ipfs(s) => SpecDigest::Ipfs(s@),
            Digest::Swarm(s) => SpecDigest::Swarm(s@),
        }
    }
}

/// The canonical textual rendering of a digest: `ipfs://` or `bzz://`
/// before the encoded digest.
pub open spec fn spec_digest_text(d: SpecDigest) -> Seq<char> {
    match d {
        SpecDigest::Ipfs(s) => "ipfs://"@ + s,
        SpecDigest::Swarm(s) => "bzz://"@ + s,
    }
}

impl Digest {
    /// Renders the digest in its canonical textual form.
    pub fn display_string(&self) -> (r: String)
        ensures
            r@ == spec_digest_text(self@),
    {
        match self {
            Digest::Ipfs(s) => String::from_str("ipfs://").concat(s.as_str()),
            Digest::Swarm(s) => String::from_str("bzz://").concat(s.as_str()),
        }
    }
}

/// The high-level view of contract metadata.
#[derive(Clone, Debug)]
pub struct Metadata {
    /// Digest that can be used to retrieve the standard metadata file
    /// from a distributed filesystem.
    pub digest: Option<Digest>,
    /// Was this bytecode produced with experimental compiler features?
    pub experimental: bool,
    /// Version of the compiler that produced this contract.
    pub solidity_version: Option<SolidityVersion>,
}

/// The mathematical value of a `Metadata`.
pub struct SpecMetadata {
    pub digest: Option<SpecDigest>,
    pub experimental: bool,
    pub solidity_version: Option<SolidityVersion>,
}

impl View for Metadata {
    type V = SpecMetadata;

    open spec fn view(&self) -> SpecMetadata {
        SpecMetadata {
            digest: match self.digest {
                Some(d) => Some(d@),
                None => None,
            },
            experimental: self.experimental,
            solidity_version: self.solidity_version,
        }
    }
}

/// The canonical digest of decoded fields: an IPFS digest wins over any
/// Swarm digest, and the Swarm v1 digest wins over the v0 one.
pub open spec fn spec_digest_of(f: SpecFields) -> Option<SpecDigest> {
    match f.ipfs {
        Some(b) => Some(SpecDigest::Ipfs(base58_of(b))),
        None => match f.bzzr1 {
            Some(b) => Some(SpecDigest::Swarm(spec_hex_of(b))),
            None => match f.bzzr0 {
                Some(b) => Some(SpecDigest::Swarm(spec_hex_of(b))),
                None => None,
            },
        },
    }
}

/// The experimental flag defaults to false when absent.
pub open spec fn spec_experimental_of(f: SpecFields) -> bool {
    match f.experimental {
        Some(b) => b,
        None => false,
    }
}

/// Normalizing decoded fields into the final metadata value: the digest
/// fields collapse to at most one canonical digest, and the version
/// field must be exactly three bytes when present.
pub open spec fn spec_assemble(f: SpecFields) -> Result<SpecMetadata, MetadataError> {
    match f.solc {
        Some(b) => match spec_version_of(b) {
            Ok(v) => Ok(
                SpecMetadata {
                    digest: spec_digest_of(f),
                    experimental: spec_experimental_of(f),
                    solidity_version: Some(v),
                },
            ),
            Err(e) => Err(e),
        },
        None => Ok(
            SpecMetadata {
                digest: spec_digest_of(f),
                experimental: spec_experimental_of(f),
                solidity_version: None,
            },
        ),
    }
}

/// The whole pipeline over a raw buffer: locate the trailer by its
/// trailing length field, decode it as a CBOR map, then normalize the
/// digest and parse the version. Locator errors take precedence over
/// decoder errors, which take precedence over version errors.
pub open spec fn spec_decode(s: Seq<u8>) -> Result<SpecMetadata, MetadataError> {
    if s.len() < 2 {
        Err(MetadataError::InsufficientData)
    } else if spec_trailer_len(s) + 2 > s.len() {
        Err(MetadataError::TrailerOverrun)
    } else {
        let t = s.subrange(s.len() - 2 - spec_trailer_len(s), s.len() - 2);
        match spec_decode_fields(t) {
            Err(c) => Err(MetadataError::MalformedStructuredData(c)),
            Ok(f) => spec_assemble(f),
        }
    }
}

/// Resolves the canonical digest from the optional digest fields.
pub fn normalize_digest(fields: &DecodedFields) -> (r: Option<Digest>)
    ensures
        match (r, spec_digest_of(fields@)) {
            (Some(d), Some(sd)) => d@ == sd,
            (None, None) => true,
            _ => false,
        },
{
    match &fields.ipfs {
        Some(b) => Some(Digest::Ipfs(base58_encode(b.as_slice()))),
        None => match &fields.bzzr1 {
            Some(b) => Some(Digest::Swarm(hex_encode(b.as_slice()))),
            None => match &fields.bzzr0 {
                Some(b) => Some(Digest::Swarm(hex_encode(b.as_slice()))),
                None => None,
            },
        },
    }
}

impl Metadata {
    /// Normalizes decoded trailer fields into the final metadata value.
    pub fn from_fields(fields: DecodedFields) -> (r: Result<Metadata, MetadataError>)
        ensures
            match r {
                Ok(m) => spec_assemble(fields@) == Ok::<SpecMetadata, MetadataError>(m@),
                Err(e) => spec_assemble(fields@) == Err::<SpecMetadata, MetadataError>(e),
            },
    {
        let solidity_version = match &fields.solc {
            Some(b) => match SolidityVersion::try_from(b.as_slice()) {
                Ok(v) => Some(v),
                Err(e) => {
                    return Err(e);
                },
            },
            None => None,
        };
        let digest = normalize_digest(&fields);
        let experimental = match fields.experimental {
            Some(b) => b,
            None => false,
        };
        Ok(Metadata { digest, experimental, solidity_version })
    }

    /// Decodes the metadata trailer embedded at the end of `bytes`.
    pub fn try_from(bytes: &[u8]) -> (r: Result<Metadata, MetadataError>)
        ensures
            match r {
                Ok(m) => spec_decode(bytes@) == Ok::<SpecMetadata, MetadataError>(m@),
                Err(e) => spec_decode(bytes@) == Err::<SpecMetadata, MetadataError>(e),
            },
    {
        let view = match locate_trailer(bytes) {
            Ok(t) => t,
            Err(e) => {
                return Err(e);
            },
        };
        let trailer = slice_subrange(bytes, view.start, view.end);
        let fields = match decode_fields(trailer) {
            Ok(f) => f,
            Err(c) => {
                return Err(MetadataError::MalformedStructuredData(c));
            },
        };
        Metadata::from_fields(fields)
    }
}

} // verus!
