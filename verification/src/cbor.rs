use vstd::prelude::*;
use vstd::slice::{slice_subrange, slice_to_vec};

use crate::errors::CborError;

verus! {

/// Containers (arrays, maps, tags) may nest at most this deep.
pub const MAX_NESTING_DEPTH: u32 = 128;

/// A decoded CBOR item, classified no further than the decoder needs:
/// byte strings and booleans can be field values, text strings can be
/// keys, and every other well-formed item is only skipped over.
pub enum SpecItem {
    Bytes(Seq<u8>),
    Text(Seq<u8>),
    Bool(bool),
    Other,
}

/// The header of the item at `pos`: its major type, its argument (a
/// length, an entry count, or an inline value) and the position right
/// after the header. Reserved additional-information values and
/// indefinite lengths are refused.
pub open spec fn spec_header(s: Seq<u8>, pos: int) -> Result<(int, nat, int), CborError> {
    if pos < 0 || pos >= s.len() {
        Err(CborError::Truncated)
    } else {
        let major = s[pos] / 32;
        let ai = s[pos] % 32;
        if ai < 24 {
            Ok((major as int, ai as nat, pos + 1))
        } else if ai == 24 {
            if pos + 2 <= s.len() {
                Ok((major as int, s[pos + 1] as nat, pos + 2))
            } else {
                Err(CborError::Truncated)
            }
        } else if ai == 25 {
            if pos + 3 <= s.len() {
                Ok((major as int, ((s[pos + 1] as nat) * 256 + s[pos + 2] as nat), pos + 3))
            } else {
                Err(CborError::Truncated)
            }
        } else if ai == 26 {
            if pos + 5 <= s.len() {
                Ok(
                    (
                        major as int,
                        ((((s[pos + 1] as nat) * 256 + s[pos + 2] as nat) * 256 + s[pos
                            + 3] as nat) * 256 + s[pos + 4] as nat),
                        pos + 5,
                    ),
                )
            } else {
                Err(CborError::Truncated)
            }
        } else if ai == 27 {
            if pos + 9 <= s.len() {
                Ok(
                    (
                        major as int,
                        ((((((((s[pos + 1] as nat) * 256 + s[pos + 2] as nat) * 256 + s[pos
                            + 3] as nat) * 256 + s[pos + 4] as nat) * 256 + s[pos + 5] as nat)
                            * 256 + s[pos + 6] as nat) * 256 + s[pos + 7] as nat) * 256 + s[pos
                            + 8] as nat),
                        pos + 9,
                    ),
                )
            } else {
                Err(CborError::Truncated)
            }
        } else {
            Err(CborError::InvalidHeader)
        }
    }
}

/// The item that starts at `pos`, and the position right after it.
/// `depth` bounds how deep containers below this item may still nest.
pub open spec fn spec_value(s: Seq<u8>, pos: int, depth: nat) -> Result<
    (SpecItem, int),
    CborError,
>
    decreases s.len() - pos, 0nat, 1nat,
{
    match spec_header(s, pos) {
        Err(e) => Err(e),
        Ok((major, arg, p)) => {
            if major == 0 || major == 1 {
                // an unsigned or negative integer: its value is the argument
                Ok((SpecItem::Other, p))
            } else if major == 2 {
                if p + arg <= s.len() {
                    Ok((SpecItem::Bytes(s.subrange(p, p + arg)), p + arg))
                } else {
                    Err(CborError::Truncated)
                }
            } else if major == 3 {
                if p + arg <= s.len() {
                    Ok((SpecItem::Text(s.subrange(p, p + arg)), p + arg))
                } else {
                    Err(CborError::Truncated)
                }
            } else if major == 4 {
                if depth == 0 {
                    Err(CborError::TooDeep)
                } else {
                    match spec_skip(s, p, arg, (depth - 1) as nat) {
                        Ok(end) => Ok((SpecItem::Other, end)),
                        Err(e) => Err(e),
                    }
                }
            } else if major == 5 {
                if depth == 0 {
                    Err(CborError::TooDeep)
                } else {
                    // a map holds a key item and a value item per entry
                    match spec_skip(s, p, arg * 2, (depth - 1) as nat) {
                        Ok(end) => Ok((SpecItem::Other, end)),
                        Err(e) => Err(e),
                    }
                }
            } else if major == 6 {
                if depth == 0 {
                    Err(CborError::TooDeep)
                } else {
                    // a tag wraps exactly one item
                    match spec_skip(s, p, 1, (depth - 1) as nat) {
                        Ok(end) => Ok((SpecItem::Other, end)),
                        Err(e) => Err(e),
                    }
                }
            } else {
                // major type 7: simple values and floating-point values;
                // the header already consumed any trailing payload bytes
                let ai = s[pos] % 32;
                if ai == 20 {
                    Ok((SpecItem::Bool(false), p))
                } else if ai == 21 {
                    Ok((SpecItem::Bool(true), p))
                } else {
                    Ok((SpecItem::Other, p))
                }
            }
        },
    }
}

/// The position right after the `n` items that start at `pos`. The
/// bound checks on `end` restate what every decoded item satisfies, so
/// that the recursion is visibly well founded.
pub open spec fn spec_skip(s: Seq<u8>, pos: int, n: nat, depth: nat) -> Result<int, CborError>
    decreases s.len() - pos, n, 2nat,
{
    if n == 0 {
        Ok(pos)
    } else {
        match spec_value(s, pos, depth) {
            Err(e) => Err(e),
            Ok((item, end)) => if pos < end && end <= s.len() {
                spec_skip(s, end, (n - 1) as nat, depth)
            } else {
                Err(CborError::Truncated)
            },
        }
    }
}

/// Which recognized key, if any, a text key is. Keys are matched on
/// their UTF-8 bytes.
#[derive(Clone, Copy, Debug, PartialEq, Eq, Structural)]
pub enum KeyKind {
    Ipfs,
    Bzzr0,
    Bzzr1,
    Experimental,
    Solc,
    Other,
}

/// Classifies a key's bytes: `ipfs`, `bzzr0`, `bzzr1`, `experimental`
/// and `solc` are recognized; everything else is ignored.
pub open spec fn spec_key_kind(k: Seq<u8>) -> KeyKind {
    if k.len() == 4 && k[0] == 105 && k[1] == 112 && k[2] == 102 && k[3] == 115 {
        KeyKind::Ipfs  // "ipfs"

    } else if k.len() == 5 && k[0] == 98 && k[1] == 122 && k[2] == 122 && k[3] == 114 && k[4]
        == 48 {
        KeyKind::Bzzr0  // "bzzr0"

    } else if k.len() == 5 && k[0] == 98 && k[1] == 122 && k[2] == 122 && k[3] == 114 && k[4]
        == 49 {
        KeyKind::Bzzr1  // "bzzr1"

    } else if k.len() == 12 && k[0] == 101 && k[1] == 120 && k[2] == 112 && k[3] == 101 && k[4]
        == 114 && k[5] == 105 && k[6] == 109 && k[7] == 101 && k[8] == 110 && k[9] == 116 && k[10]
        == 97 && k[11] == 108 {
        KeyKind::Experimental  // "experimental"

    } else if k.len() == 4 && k[0] == 115 && k[1] == 111 && k[2] == 108 && k[3] == 99 {
        KeyKind::Solc  // "solc"

    } else {
        KeyKind::Other
    }
}

/// The recognized fields of a trailer map, each present or absent
/// independently.
pub struct SpecFields {
    pub ipfs: Option<Seq<u8>>,
    pub bzzr0: Option<Seq<u8>>,
    pub bzzr1: Option<Seq<u8>>,
    pub experimental: Option<bool>,
    pub solc: Option<Seq<u8>>,
}

/// No field decoded yet.
pub open spec fn spec_fields_empty() -> SpecFields {
    SpecFields { ipfs: None, bzzr0: None, bzzr1: None, experimental: None, solc: None }
}

/// Folds one map entry into the fields decoded so far. A recognized key
/// must carry a value of the right shape and may occur only once; any
/// other entry is ignored.
pub open spec fn spec_apply_entry(acc: SpecFields, key: SpecItem, val: SpecItem) -> Result<
    SpecFields,
    CborError,
> {
    match key {
        SpecItem::Text(k) => match spec_key_kind(k) {
            KeyKind::Ipfs => match val {
                SpecItem::Bytes(b) => if acc.ipfs is Some {
                    Err(CborError::DuplicateKey)
                } else {
                    Ok(SpecFields { ipfs: Some(b), ..acc })
                },
                _ => Err(CborError::WrongShape),
            },
            KeyKind::Bzzr0 => match val {
                SpecItem::Bytes(b) => if acc.bzzr0 is Some {
                    Err(CborError::DuplicateKey)
                } else {
                    Ok(SpecFields { bzzr0: Some(b), ..acc })
                },
                _ => Err(CborError::WrongShape),
            },
            KeyKind::Bzzr1 => match val {
                SpecItem::Bytes(b) => if acc.bzzr1 is Some {
                    Err(CborError::DuplicateKey)
                } else {
                    Ok(SpecFields { bzzr1: Some(b), ..acc })
                },
                _ => Err(CborError::WrongShape),
            },
            KeyKind::Experimental => match val {
                SpecItem::Bool(b) => if acc.experimental is Some {
                    Err(CborError::DuplicateKey)
                } else {
                    Ok(SpecFields { experimental: Some(b), ..acc })
                },
                _ => Err(CborError::WrongShape),
            },
            KeyKind::Solc => match val {
                SpecItem::Bytes(b) => if acc.solc is Some {
                    Err(CborError::DuplicateKey)
                } else {
                    Ok(SpecFields { solc: Some(b), ..acc })
                },
                _ => Err(CborError::WrongShape),
            },
            KeyKind::Other => Ok(acc),
        },
        // an entry whose key is not a text string is ignored
        _ => Ok(acc),
    }
}

/// Folds the `n` map entries that start at `pos` into `acc`, and gives
/// the position right after them.
pub open spec fn spec_entries(s: Seq<u8>, pos: int, n: nat, depth: nat, acc: SpecFields) -> Result<
    (SpecFields, int),
    CborError,
>
    decreases s.len() - pos, n, 2nat,
{
    if n == 0 {
        Ok((acc, pos))
    } else {
        match spec_value(s, pos, depth) {
            Err(e) => Err(e),
            Ok((key, kend)) => if pos < kend && kend <= s.len() {
                match spec_value(s, kend, depth) {
                    Err(e) => Err(e),
                    Ok((val, vend)) => if kend < vend && vend <= s.len() {
                        match spec_apply_entry(acc, key, val) {
                            Err(e) => Err(e),
                            Ok(acc2) => spec_entries(s, vend, (n - 1) as nat, depth, acc2),
                        }
                    } else {
                        Err(CborError::Truncated)
                    },
                }
            } else {
                Err(CborError::Truncated)
            },
        }
    }
}

/// Decoding a whole trailer: the top-level item must be a definite-
/// length map, its recognized entries are collected, all others are
/// skipped, and nothing may follow it.
pub open spec fn spec_decode_fields(s: Seq<u8>) -> Result<SpecFields, CborError> {
    match spec_header(s, 0) {
        Err(e) => Err(e),
        Ok((major, n, p)) => if major == 5 {
            match spec_entries(s, p, n, (MAX_NESTING_DEPTH - 1) as nat, spec_fields_empty()) {
                Err(e) => Err(e),
                Ok((f, end)) => if end == s.len() {
                    Ok(f)
                } else {
                    Err(CborError::TrailingData)
                },
            }
        } else {
            Err(CborError::NotAMap)
        },
    }
}

/// A decoded CBOR item held by executable code.
pub enum Item {
    Bytes(Vec<u8>),
    Text(Vec<u8>),
    Bool(bool),
    Other,
}

impl View for Item {
    type V = SpecItem;

    open spec fn view(&self) -> SpecItem {
        match self {
            Item::Bytes(v) => SpecItem::Bytes(v@),
            Item::Text(v) => SpecItem::Text(v@),
            Item::Bool(b) => SpecItem::Bool(*b),
            Item::Other => SpecItem::Other,
        }
    }
}

/// Reads the header of the item at `pos`.
fn read_header(s: &[u8], pos: usize) -> (r: Result<(u8, u64, usize), CborError>)
    ensures
        match (r, spec_header(s@, pos as int)) {
            (Ok((m, a, p)), Ok((sm, sa, sp))) => m as int == sm && a as nat == sa && p as int == sp
                && pos < p <= s@.len() && pos < s@.len(),
            (Err(e), Err(se)) => e == se,
            _ => false,
        },
{
    if pos >= s.len() {
        return Err(CborError::Truncated);
    }
    let b = s[pos];
    let major = b / 32;
    let ai = b % 32;
    let rem = s.len() - pos;
    if ai < 24 {
        Ok((major, ai as u64, pos + 1))
    } else if ai == 24 {
        if rem >= 2 {
            Ok((major, s[pos + 1] as u64, pos + 2))
        } else {
            Err(CborError::Truncated)
        }
    } else if ai == 25 {
        if rem >= 3 {
            Ok((major, (s[pos + 1] as u64) * 256 + s[pos + 2] as u64, pos + 3))
        } else {
            Err(CborError::Truncated)
        }
    } else if ai == 26 {
        if rem >= 5 {
            Ok(
                (
                    major,
                    (((s[pos + 1] as u64) * 256 + s[pos + 2] as u64) * 256 + s[pos + 3] as u64)
                        * 256 + s[pos + 4] as u64,
                    pos + 5,
                ),
            )
        } else {
            Err(CborError::Truncated)
        }
    } else if ai == 27 {
        if rem >= 9 {
            Ok(
                (
                    major,
                    (((((((s[pos + 1] as u64) * 256 + s[pos + 2] as u64) * 256 + s[pos
                        + 3] as u64) * 256 + s[pos + 4] as u64) * 256 + s[pos + 5] as u64) * 256
                        + s[pos + 6] as u64) * 256 + s[pos + 7] as u64) * 256 + s[pos + 8] as u64,
                    pos + 9,
                ),
            )
        } else {
            Err(CborError::Truncated)
        }
    } else {
        Err(CborError::InvalidHeader)
    }
}

/// Decodes the item at `pos`, copying out byte and text strings.
#[verifier::loop_isolation(false)]
fn parse_value(s: &[u8], pos: usize, depth: u32) -> (r: Result<(Item, usize), CborError>)
    ensures
        match (r, spec_value(s@, pos as int, depth as nat)) {
            (Ok((item, end)), Ok((sitem, send))) => item@ == sitem && end as int == send && pos
                < end <= s@.len(),
            (Err(e), Err(se)) => e == se,
            _ => false,
        },
    decreases s@.len() - pos,
{
    let (major, arg, p) = match read_header(s, pos) {
        Ok(h) => h,
        Err(e) => {
            return Err(e);
        },
    };
    if major <= 1 {
        Ok((Item::Other, p))
    } else if major == 2 || major == 3 {
        if arg <= (s.len() - p) as u64 {
            let end = p + arg as usize;
            let v = slice_to_vec(slice_subrange(s, p, end));
            if major == 2 {
                Ok((Item::Bytes(v), end))
            } else {
                Ok((Item::Text(v), end))
            }
        } else {
            Err(CborError::Truncated)
        }
    } else if major == 4 || major == 5 || major == 6 {
        if depth == 0 {
            return Err(CborError::TooDeep);
        }
        let n: u128 = if major == 4 {
            arg as u128
        } else if major == 5 {
            (arg as u128) * 2
        } else {
            1
        };
        let ghost sn: nat = n as nat;
        let mut cur: usize = p;
        let mut i: u128 = 0;
        loop
            invariant
                sn == n as nat,
                i <= n,
                pos < cur <= s@.len(),
                pos < s@.len(),
                depth >= 1,
                spec_skip(s@, p as int, sn, (depth - 1) as nat) == spec_skip(
                    s@,
                    cur as int,
                    (sn - i) as nat,
                    (depth - 1) as nat,
                ),
            decreases n - i,
        {
            if i >= n {
                break ;
            }
            match parse_value(s, cur, depth - 1) {
                Ok((_, end)) => {
                    proof {
                        assert(spec_skip(s@, cur as int, (sn - i) as nat, (depth - 1) as nat)
                            == spec_skip(s@, end as int, (sn - i - 1) as nat, (depth - 1) as nat));
                    }
                    cur = end;
                    i = i + 1;
                },
                Err(e) => {
                    proof {
                        assert(spec_skip(s@, cur as int, (sn - i) as nat, (depth - 1) as nat)
                            == Err::<int, CborError>(e));
                    }
                    return Err(e);
                },
            }
        }
        proof {
            assert(spec_skip(s@, cur as int, 0nat, (depth - 1) as nat) == Ok::<int, CborError>(
                cur as int,
            ));
        }
        Ok((Item::Other, cur))
    } else {
        let ai = s[pos] % 32;
        if ai == 20 {
            Ok((Item::Bool(false), p))
        } else if ai == 21 {
            Ok((Item::Bool(true), p))
        } else {
            Ok((Item::Other, p))
        }
    }
}

/// The recognized fields decoded from a trailer map, each present or
/// absent independently.
#[derive(Debug, Clone)]
pub struct DecodedFields {
    pub ipfs: Option<Vec<u8>>,
    pub bzzr0: Option<Vec<u8>>,
    pub bzzr1: Option<Vec<u8>>,
    pub experimental: Option<bool>,
    pub solc: Option<Vec<u8>>,
}

impl View for DecodedFields {
    type V = SpecFields;

    open spec fn view(&self) -> SpecFields {
        SpecFields {
            ipfs: match self.ipfs {
                Some(v) => Some(v@),
                None => None,
            },
            bzzr0: match self.bzzr0 {
                Some(v) => Some(v@),
                None => None,
            },
            bzzr1: match self.bzzr1 {
                Some(v) => Some(v@),
                None => None,
            },
            experimental: self.experimental,
            solc: match self.solc {
                Some(v) => Some(v@),
                None => None,
            },
        }
    }
}

/// Classifies a decoded key.
fn key_kind(k: &Vec<u8>) -> (r: KeyKind)
    ensures
        r == spec_key_kind(k@),
{
    if k.len() == 4 && k[0] == 105 && k[1] == 112 && k[2] == 102 && k[3] == 115 {
        KeyKind::Ipfs
    } else if k.len() == 5 && k[0] == 98 && k[1] == 122 && k[2] == 122 && k[3] == 114 && k[4]
        == 48 {
        KeyKind::Bzzr0
    } else if k.len() == 5 && k[0] == 98 && k[1] == 122 && k[2] == 122 && k[3] == 114 && k[4]
        == 49 {
        KeyKind::Bzzr1
    } else if k.len() == 12 && k[0] == 101 && k[1] == 120 && k[2] == 112 && k[3] == 101 && k[4]
        == 114 && k[5] == 105 && k[6] == 109 && k[7] == 101 && k[8] == 110 && k[9] == 116 && k[10]
        == 97 && k[11] == 108 {
        KeyKind::Experimental
    } else if k.len() == 4 && k[0] == 115 && k[1] == 111 && k[2] == 108 && k[3] == 99 {
        KeyKind::Solc
    } else {
        KeyKind::Other
    }
}

/// Folds one decoded map entry into the fields decoded so far.
fn apply_entry(acc: DecodedFields, key: Item, val: Item) -> (r: Result<DecodedFields, CborError>)
    ensures
        match (r, spec_apply_entry(acc@, key@, val@)) {
            (Ok(f), Ok(sf)) => f@ == sf,
            (Err(e), Err(se)) => e == se,
            _ => false,
        },
{
    match key {
        Item::Text(k) => match key_kind(&k) {
            KeyKind::Ipfs => match val {
                Item::Bytes(b) => if acc.ipfs.is_some() {
                    Err(CborError::DuplicateKey)
                } else {
                    Ok(DecodedFields { ipfs: Some(b), ..acc })
                },
                _ => Err(CborError::WrongShape),
            },
            KeyKind::Bzzr0 => match val {
                Item::Bytes(b) => if acc.bzzr0.is_some() {
                    Err(CborError::DuplicateKey)
                } else {
                    Ok(DecodedFields { bzzr0: Some(b), ..acc })
                },
                _ => Err(CborError::WrongShape),
            },
            KeyKind::Bzzr1 => match val {
                Item::Bytes(b) => if acc.bzzr1.is_some() {
                    Err(CborError::DuplicateKey)
                } else {
                    Ok(DecodedFields { bzzr1: Some(b), ..acc })
                },
                _ => Err(CborError::WrongShape),
            },
            KeyKind::Experimental => match val {
                Item::Bool(b) => if acc.experimental.is_some() {
                    Err(CborError::DuplicateKey)
                } else {
                    Ok(DecodedFields { experimental: Some(b), ..acc })
                },
                _ => Err(CborError::WrongShape),
            },
            KeyKind::Solc => match val {
                Item::Bytes(b) => if acc.solc.is_some() {
                    Err(CborError::DuplicateKey)
                } else {
                    Ok(DecodedFields { solc: Some(b), ..acc })
                },
                _ => Err(CborError::WrongShape),
            },
            KeyKind::Other => Ok(acc),
        },
        _ => Ok(acc),
    }
}

/// Decodes a trailer's bytes as a CBOR map and extracts the recognized
/// fields, ignoring every unrecognized entry.
#[verifier::loop_isolation(false)]
pub fn decode_fields(s: &[u8]) -> (r: Result<DecodedFields, CborError>)
    ensures
        match (r, spec_decode_fields(s@)) {
            (Ok(f), Ok(sf)) => f@ == sf,
            (Err(e), Err(se)) => e == se,
            _ => false,
        },
{
    let (major, n, p) = match read_header(s, 0) {
        Ok(h) => h,
        Err(e) => {
            return Err(e);
        },
    };
    if major != 5 {
        return Err(CborError::NotAMap);
    }
    let ghost d: nat = (MAX_NESTING_DEPTH - 1) as nat;
    let mut acc = DecodedFields {
        ipfs: None,
        bzzr0: None,
        bzzr1: None,
        experimental: None,
        solc: None,
    };
    let mut cur: usize = p;
    let mut i: u64 = 0;
    loop
        invariant
            d == (MAX_NESTING_DEPTH - 1) as nat,
            i <= n,
            0 < cur <= s@.len(),
            spec_entries(s@, p as int, n as nat, d, spec_fields_empty()) == spec_entries(
                s@,
                cur as int,
                (n - i) as nat,
                d,
                acc@,
            ),
        decreases n - i,
    {
        if i >= n {
            break ;
        }
        let (key, kend) = match parse_value(s, cur, MAX_NESTING_DEPTH - 1) {
            Ok(kv) => kv,
            Err(e) => {
                return Err(e);
            },
        };
        let (val, vend) = match parse_value(s, kend, MAX_NESTING_DEPTH - 1) {
            Ok(kv) => kv,
            Err(e) => {
                return Err(e);
            },
        };
        let ghost old_acc = acc@;
        acc = match apply_entry(acc, key, val) {
            Ok(a) => a,
            Err(e) => {
                return Err(e);
            },
        };
        proof {
            assert(spec_entries(s@, cur as int, (n - i) as nat, d, old_acc) == spec_entries(
                s@,
                vend as int,
                (n - i - 1) as nat,
                d,
                acc@,
            ));
        }
        cur = vend;
        i = i + 1;
    }
    proof {
        assert(spec_entries(s@, cur as int, 0nat, d, acc@) == Ok::<(SpecFields, int), CborError>(
            (acc@, cur as int),
        ));
    }
    if cur == s.len() {
        Ok(acc)
    } else {
        Err(CborError::TrailingData)
    }
}

} // verus!
