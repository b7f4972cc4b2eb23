//! The transcoder core: the raw 32-byte key that both text encodings carry,
//! the two envelope layouts, and the decode / encode / convert operations.
//!
//! The checksummed (Helium) envelope is
//! `[version byte][key type byte][32 key bytes][4 checksum bytes]`, base58
//! encoded; the checksum is the first four bytes of the double SHA-256 digest
//! of everything before it. The plain (Solana) envelope is the 32 key bytes
//! base58 encoded directly.

use vstd::prelude::*;

use crate::base58::{base58_decode, base58_encode, base58_of};
use crate::digest::sha256_of;

verus! {

/// Number of bytes of Ed25519 public-key material carried by every address.
pub const KEY_LEN: usize = 32;

/// Number of checksum bytes at the end of a checksummed envelope.
pub const CHECKSUM_LEN: usize = 4;

/// Least decoded length of a checksummed envelope: version byte, key type
/// byte, 32 key bytes, 4 checksum bytes.
pub const CHECKED_MIN_LEN: usize = 38;

/// First byte of a checksummed envelope: the network version.
pub const VERSION_BYTE: u8 = 0;

/// Second byte of a checksummed envelope: the Ed25519 key type.
pub const KEY_TYPE_ED25519: u8 = 1;

/// The two native address encodings the transcoder understands.
#[derive(Clone, Copy, Debug, PartialEq, Eq, Structural)]
pub enum Encoding {
    /// Checksummed, version-prefixed envelope, base58 encoded.
    Helium,
    /// The 32 key bytes base58 encoded directly, no prefix, no checksum.
    Solana,
}

/// Why a string failed to decode under a given encoding.
#[derive(Clone, Copy, Debug, PartialEq, Eq, Structural)]
pub enum DecodeError {
    /// The trailing four checksum bytes do not match the recomputed checksum.
    ChecksumInvalid,
    /// The two-byte type prefix does not identify an Ed25519 key.
    UnsupportedKeyType,
    /// Not valid base58, or the decoded length does not fit the envelope.
    MalformedAddress,
}

/// Exactly 32 bytes of Ed25519 public-key material: the pivot value between
/// the two encodings. No structure beyond the length is assumed; in
/// particular, no curve membership is checked, on purpose.
pub struct RawKey {
    pub bytes: Vec<u8>,
}

impl View for RawKey {
    type V = Seq<u8>;

    open spec fn view(&self) -> Seq<u8> {
        self.bytes@
    }
}

impl RawKey {
    /// A raw key is well formed exactly when it holds 32 bytes.
    pub open spec fn wf(&self) -> bool {
        self.bytes@.len() == KEY_LEN
    }

    /// Wraps a byte vector as a raw key when it has exactly 32 bytes.
    pub fn from_bytes(bytes: Vec<u8>) -> (r: Option<RawKey>)
        ensures
            bytes@.len() == KEY_LEN ==> (r matches Some(k) && k@ == bytes@ && k.wf()),
            bytes@.len() != KEY_LEN ==> r is None,
    {
        if bytes.len() == KEY_LEN {
            Some(RawKey { bytes })
        } else {
            None
        }
    }
}

/// The four checksum bytes of a byte string: the first four bytes of the
/// double SHA-256 digest.
pub open spec fn spec_checksum(data: Seq<u8>) -> Seq<u8> {
    let h = sha256_of(sha256_of(data));
    seq![h[0], h[1], h[2], h[3]]
}

/// The decoded byte layout that a 32-byte key takes under an encoding, before
/// base58: the checksummed envelope, or the bare key bytes.
pub open spec fn spec_envelope(k: Seq<u8>, e: Encoding) -> Seq<u8>
    recommends
        k.len() == KEY_LEN,
{
    match e {
        Encoding::Helium => {
            let body = seq![VERSION_BYTE, KEY_TYPE_ED25519] + k;
            body + spec_checksum(body)
        },
        Encoding::Solana => k,
    }
}

/// What parsing a decoded byte string under an encoding yields: the 32 key
/// bytes, or the first error in checking order (length, then checksum, then
/// type prefix).
pub open spec fn spec_parse(d: Seq<u8>, e: Encoding) -> Result<Seq<u8>, DecodeError> {
    match e {
        Encoding::Helium => {
            if d.len() < CHECKED_MIN_LEN {
                Err(DecodeError::MalformedAddress)
            } else if d.subrange(d.len() - CHECKSUM_LEN, d.len() as int) != spec_checksum(
                d.subrange(0, d.len() - CHECKSUM_LEN),
            ) {
                Err(DecodeError::ChecksumInvalid)
            } else if d[0] != VERSION_BYTE || d[1] != KEY_TYPE_ED25519 {
                Err(DecodeError::UnsupportedKeyType)
            } else {
                Ok(d.subrange(2, 2 + KEY_LEN))
            }
        },
        Encoding::Solana => {
            if d.len() == KEY_LEN {
                Ok(d)
            } else {
                Err(DecodeError::MalformedAddress)
            }
        },
    }
}

/// The encoding a string must be decoded under when the caller asks for the
/// other one: the transcoder knows exactly two encodings.
pub open spec fn spec_opposite(e: Encoding) -> Encoding {
    match e {
        Encoding::Helium => Encoding::Solana,
        Encoding::Solana => Encoding::Helium,
    }
}

/// What converting a decoded byte string into a target encoding yields:
/// parse it under the opposite encoding, then wrap the key for the target.
pub open spec fn spec_convert(d: Seq<u8>, target: Encoding) -> Option<Seq<u8>> {
    match spec_parse(d, spec_opposite(target)) {
        Ok(k) => Some(spec_envelope(k, target)),
        Err(_) => None,
    }
}

/// How a decode result relates to the parse of the decoded bytes.
pub open spec fn parse_matches(r: Result<RawKey, DecodeError>, m: Result<Seq<u8>, DecodeError>) -> bool {
    match (r, m) {
        (Ok(k), Ok(s)) => k@ == s,
        (Err(e1), Err(e2)) => e1 == e2,
        _ => false,
    }
}

/// How a convert result relates to the conversion of the decoded bytes.
pub open spec fn convert_matches(r: Option<String>, m: Option<Seq<u8>>) -> bool {
    match (r, m) {
        (Some(s), Some(p)) => s@ == base58_of(p),
        (None, None) => true,
        _ => false,
    }
}

/// Appends `src[start..end]` to `dst`.
fn push_range(dst: &mut Vec<u8>, src: &Vec<u8>, start: usize, end: usize)
    requires
        start <= end,
        end <= src@.len(),
    ensures
        final(dst)@ == old(dst)@ + src@.subrange(start as int, end as int),
{
    proof {
        assert(dst@ =~= dst@ + src@.subrange(start as int, start as int));
    }
    let mut i: usize = start;
    while i < end
        invariant
            start <= i <= end,
            end <= src@.len(),
            dst@ == old(dst)@ + src@.subrange(start as int, i as int),
        decreases end - i,
    {
        dst.push(src[i]);
        proof {
            assert(src@.subrange(start as int, i + 1) =~= src@.subrange(start as int, i as int)
                + seq![src@[i as int]]);
            assert(dst@ =~= old(dst)@ + src@.subrange(start as int, i + 1));
        }
        i += 1;
    }
}

/// The four checksum bytes of `data`: double SHA-256, truncated to four bytes.
fn checksum4(data: &Vec<u8>) -> (r: Vec<u8>)
    ensures
        r@ == spec_checksum(data@),
        r@.len() == CHECKSUM_LEN,
{
    let h1 = crate::digest::sha256(data);
    let h2 = crate::digest::sha256(&h1);
    let mut out: Vec<u8> = Vec::new();
    out.push(h2[0]);
    out.push(h2[1]);
    out.push(h2[2]);
    out.push(h2[3]);
    proof {
        assert(out@ =~= spec_checksum(data@));
    }
    out
}

/// Serializes a raw key under the requested encoding. Total: every 32-byte
/// key has an address in either encoding.
pub fn encode(key: &RawKey, to: Encoding) -> (r: String)
    requires
        key.wf(),
    ensures
        r@ == base58_of(spec_envelope(key@, to)),
{
    match to {
        Encoding::Solana => base58_encode(&key.bytes),
        Encoding::Helium => {
            let mut data: Vec<u8> = Vec::new();
            data.push(VERSION_BYTE);
            data.push(KEY_TYPE_ED25519);
            push_range(&mut data, &key.bytes, 0, key.bytes.len());
            proof {
                assert(data@ =~= seq![VERSION_BYTE, KEY_TYPE_ED25519] + key@);
            }
            let chk = checksum4(&data);
            push_range(&mut data, &chk, 0, chk.len());
            proof {
                assert(chk@.subrange(0, chk@.len() as int) =~= chk@);
                assert(data@ =~= spec_envelope(key@, Encoding::Helium));
            }
            base58_encode(&data)
        },
    }
}

/// Parses already base58-decoded bytes under an encoding.
fn parse_payload(d: Vec<u8>, from: Encoding) -> (r: Result<RawKey, DecodeError>)
    ensures
        parse_matches(r, spec_parse(d@, from)),
        r matches Ok(k) ==> k.wf(),
{
    match from {
        Encoding::Solana => {
            if d.len() == KEY_LEN {
                Ok(RawKey { bytes: d })
            } else {
                Err(DecodeError::MalformedAddress)
            }
        },
        Encoding::Helium => {
            let n = d.len();
            if n < CHECKED_MIN_LEN {
                Err(DecodeError::MalformedAddress)
            } else {
                let mut prefix: Vec<u8> = Vec::new();
                push_range(&mut prefix, &d, 0, n - CHECKSUM_LEN);
                proof {
                    assert(prefix@ =~= d@.subrange(0, n - CHECKSUM_LEN));
                }
                let chk = checksum4(&prefix);
                let checksum_ok = chk[0] == d[n - 4] && chk[1] == d[n - 3] && chk[2] == d[n - 2]
                    && chk[3] == d[n - 1];
                proof {
                    let tail = d@.subrange(n - CHECKSUM_LEN, n as int);
                    assert(tail[0] == d@[n - 4] && tail[1] == d@[n - 3] && tail[2] == d@[n - 2]
                        && tail[3] == d@[n - 1]);
                    if checksum_ok {
                        assert(tail =~= chk@);
                    } else {
                        assert(tail != chk@) by {
                            if tail == chk@ {
                                assert(tail[0] == chk@[0] && tail[1] == chk@[1] && tail[2] == chk@[2]
                                    && tail[3] == chk@[3]);
                            }
                        }
                    }
                }
                if !checksum_ok {
                    Err(DecodeError::ChecksumInvalid)
                } else if !(d[0] == VERSION_BYTE && d[1] == KEY_TYPE_ED25519) {
                    Err(DecodeError::UnsupportedKeyType)
                } else {
                    let mut key: Vec<u8> = Vec::new();
                    push_range(&mut key, &d, 2, 2 + KEY_LEN);
                    proof {
                        assert(key@ =~= d@.subrange(2, 2 + KEY_LEN));
                    }
                    Ok(RawKey { bytes: key })
                }
            }
        },
    }
}

/// Recognizes a string under the given encoding and extracts the raw 32-byte
/// key. The first clause pins the result down whenever the string is base58
/// at all; the second says that a string that is no base58 text is malformed.
pub fn decode(input: &str, from: Encoding) -> (r: Result<RawKey, DecodeError>)
    ensures
        forall|d: Seq<u8>| input@ == #[trigger] base58_of(d) ==> parse_matches(r, spec_parse(d, from)),
        (forall|d: Seq<u8>| input@ != base58_of(d)) ==> r == Err::<RawKey, DecodeError>(
            DecodeError::MalformedAddress,
        ),
        r matches Ok(k) ==> k.wf(),
{
    match base58_decode(input) {
        None => Err(DecodeError::MalformedAddress),
        Some(d) => parse_payload(d, from),
    }
}

/// Converts an address into the target encoding: decodes it under the
/// opposite encoding and, on success, re-encodes the raw key. Any decode
/// failure collapses to `None`.
pub fn convert(address: &str, target: Encoding) -> (r: Option<String>)
    ensures
        forall|d: Seq<u8>| address@ == #[trigger] base58_of(d) ==> convert_matches(r, spec_convert(d, target)),
        (forall|d: Seq<u8>| address@ != base58_of(d)) ==> r is None,
{
    let source = opposite(target);
    match decode(address, source) {
        Err(_) => None,
        Ok(k) => Some(encode(&k, target)),
    }
}

/// The encoding opposite to the given one.
pub fn opposite(e: Encoding) -> (r: Encoding)
    ensures
        r == spec_opposite(e),
{
    match e {
        Encoding::Helium => Encoding::Solana,
        Encoding::Solana => Encoding::Helium,
    }
}

/// Converts a Solana address to its Helium form, or nothing when the input
/// does not decode to exactly 32 bytes.
pub fn maybe_convert_to_helium(address: String) -> (r: Option<String>)
    ensures
        forall|d: Seq<u8>| address@ == #[trigger] base58_of(d) ==> convert_matches(r, spec_convert(d, Encoding::Helium)),
        (forall|d: Seq<u8>| address@ != base58_of(d)) ==> r is None,
{
    convert(address.as_str(), Encoding::Helium)
}

/// Converts a Helium address to its Solana form, or nothing when the input
/// fails the checksum, carries a non-Ed25519 key, or is malformed.
pub fn maybe_convert_to_solana(address: String) -> (r: Option<String>)
    ensures
        forall|d: Seq<u8>| address@ == #[trigger] base58_of(d) ==> convert_matches(r, spec_convert(d, Encoding::Solana)),
        (forall|d: Seq<u8>| address@ != base58_of(d)) ==> r is None,
{
    convert(address.as_str(), Encoding::Solana)
}

/// Round trip through the pivot: the envelope of a 32-byte key under either
/// encoding parses back, under the same encoding, to exactly that key.
pub proof fn lemma_round_trip_via_pivot(k: Seq<u8>, e: Encoding)
    requires
        k.len() == KEY_LEN,
    ensures
        spec_parse(spec_envelope(k, e), e) == Ok::<Seq<u8>, DecodeError>(k),
{
    match e {
        Encoding::Solana => {
        },
        Encoding::Helium => {
            let body = seq![VERSION_BYTE, KEY_TYPE_ED25519] + k;
            let d = body + spec_checksum(body);
            assert(d.len() == CHECKED_MIN_LEN);
            assert(d.subrange(0, d.len() - CHECKSUM_LEN) =~= body);
            assert(d.subrange(d.len() - CHECKSUM_LEN, d.len() as int) =~= spec_checksum(body));
            assert(d[0] == VERSION_BYTE && d[1] == KEY_TYPE_ED25519);
            assert(d.subrange(2, 2 + KEY_LEN) =~= k);
        },
    }
}

/// Cross-encoding round trip: converting the envelope of a key from the
/// opposite encoding into `target` yields the target envelope of the same
/// key, and that envelope parses back to the key.
pub proof fn lemma_cross_round_trip(k: Seq<u8>, target: Encoding)
    requires
        k.len() == KEY_LEN,
    ensures
        spec_convert(spec_envelope(k, spec_opposite(target)), target) == Some(
            spec_envelope(k, target),
        ),
        spec_parse(spec_envelope(k, target), target) == Ok::<Seq<u8>, DecodeError>(k),
{
    lemma_round_trip_via_pivot(k, spec_opposite(target));
    lemma_round_trip_via_pivot(k, target);
}

/// Checksum sensitivity: changing any one of the four checksum bytes of a
/// payload whose checksum was valid makes parsing fail with `ChecksumInvalid`.
pub proof fn lemma_checksum_sensitivity(d: Seq<u8>, d2: Seq<u8>, i: int)
    requires
        d.len() >= CHECKED_MIN_LEN,
        d2.len() == d.len(),
        d.subrange(d.len() - CHECKSUM_LEN, d.len() as int) == spec_checksum(
            d.subrange(0, d.len() - CHECKSUM_LEN),
        ),
        d.len() - CHECKSUM_LEN <= i < d.len(),
        d2[i] != d[i],
        forall|j: int| 0 <= j < d.len() && j != i ==> d2[j] == d[j],
    ensures
        spec_parse(d2, Encoding::Helium) == Err::<Seq<u8>, DecodeError>(
            DecodeError::ChecksumInvalid,
        ),
{
    let n = d.len() as int;
    assert(d2.subrange(0, n - CHECKSUM_LEN) =~= d.subrange(0, n - CHECKSUM_LEN));
    assert(d2.subrange(n - CHECKSUM_LEN, n)[i - (n - CHECKSUM_LEN)] == d2[i]);
    assert(d.subrange(n - CHECKSUM_LEN, n)[i - (n - CHECKSUM_LEN)] == d[i]);
    assert(d2.subrange(n - CHECKSUM_LEN, n) != spec_checksum(d2.subrange(0, n - CHECKSUM_LEN)));
}

/// Length rejection: under the plain encoding, any decoded payload that is
/// not exactly 32 bytes is malformed.
pub proof fn lemma_length_rejection(d: Seq<u8>)
    requires
        d.len() != KEY_LEN,
    ensures
        spec_parse(d, Encoding::Solana) == Err::<Seq<u8>, DecodeError>(
            DecodeError::MalformedAddress,
        ),
{
}

/// Type-prefix rejection: a checksummed payload whose checksum is valid but
/// whose two-byte prefix is not the Ed25519 one is rejected as an unsupported
/// key type, never silently accepted.
pub proof fn lemma_type_prefix_rejection(d: Seq<u8>)
    requires
        d.len() >= CHECKED_MIN_LEN,
        d.subrange(d.len() - CHECKSUM_LEN, d.len() as int) == spec_checksum(
            d.subrange(0, d.len() - CHECKSUM_LEN),
        ),
        d[0] != VERSION_BYTE || d[1] != KEY_TYPE_ED25519,
    ensures
        spec_parse(d, Encoding::Helium) == Err::<Seq<u8>, DecodeError>(
            DecodeError::UnsupportedKeyType,
        ),
{
}

} // verus!
