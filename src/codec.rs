//! Canonical text form of an author's x-only public key: the bech32 `npub`
//! string of NIP-19.

use vstd::prelude::*;
use nostr_sdk::prelude::{ToBech32, XOnlyPublicKey};

verus! {

/// Whether `b` is the x coordinate of a point on secp256k1, as libsecp256k1's
/// x-only key parser judges it.
pub uninterp spec fn is_curve_point(b: Seq<u8>) -> bool;

/// The checksum characters that bech32 writes after the data part of the
/// `npub` string of the key bytes `b`.
pub uninterp spec fn npub_checksum(b: Seq<u8>) -> Seq<char>;

/// A raw author key that canonicalizes: 32 bytes naming a curve point.
pub open spec fn valid_key(b: Seq<u8>) -> bool {
    b.len() == 32 && is_curve_point(b)
}

pub open spec fn byte_or_zero(b: Seq<u8>, i: int) -> u8 {
    if 0 <= i < b.len() {
        b[i]
    } else {
        0
    }
}

/// Five bits taken from the 16-bit big-endian word `hi:lo`, starting `shift`
/// bits above its least significant bit.
pub open spec fn window(hi: u8, lo: u8, shift: u16) -> u16 {
    ((((hi as u16) << 8u16) | (lo as u16)) >> shift) & 31u16
}

/// The `j`-th 5-bit group of the big-endian bit string of `b`, the bits past
/// its end read as zero.
pub open spec fn group(b: Seq<u8>, j: int) -> u16 {
    let q = (5 * j) / 8;
    let o = (5 * j) % 8;
    window(byte_or_zero(b, q), byte_or_zero(b, q + 1), (11 - o) as u16)
}

/// Number of 5-bit groups that hold `n` bytes, the last one zero-padded.
pub open spec fn group_count(n: nat) -> nat {
    (8 * n + 4) / 5
}

/// The bech32 alphabet: the character that writes the 5-bit value `v`.
pub open spec fn bech32_char(v: u16) -> char {
    match v {
        0 => 'q', 1 => 'p', 2 => 'z', 3 => 'r', 4 => 'y', 5 => '9', 6 => 'x', 7 => '8',
        8 => 'g', 9 => 'f', 10 => '2', 11 => 't', 12 => 'v', 13 => 'd', 14 => 'w', 15 => '0',
        16 => 's', 17 => '3', 18 => 'j', 19 => 'n', 20 => '5', 21 => '4', 22 => 'k', 23 => 'h',
        24 => 'c', 25 => 'e', 26 => '6', 27 => 'm', 28 => 'u', 29 => 'a', 30 => '7', _ => 'l',
    }
}

/// The data part of a bech32 string: the bytes regrouped into 5-bit values,
/// each written as a character of the alphabet.
pub open spec fn bech32_data(b: Seq<u8>) -> Seq<char> {
    Seq::new(group_count(b.len()), |j: int| bech32_char(group(b, j)))
}

/// The human-readable part of a public key string and the separator.
pub open spec fn npub_prefix() -> Seq<char> {
    seq!['n', 'p', 'u', 'b', '1']
}

/// The canonical identifier of the key bytes `b`.
pub open spec fn npub_text(b: Seq<u8>) -> Seq<char> {
    npub_prefix() + bech32_data(b) + npub_checksum(b)
}

/// A raw author key that is not 32 bytes or names no curve point.
#[derive(Debug, Clone, Copy, PartialEq, Eq, Structural)]
pub struct InvalidKey;

/// Relies on secp256k1's `XOnlyPublicKey::from_slice`, which accepts exactly
/// the 32-byte x coordinates of curve points, and on nostr's
/// `ToBech32::to_bech32` for such a key, which hands the key's 32 bytes
/// regrouped into 5-bit values to `bech32::encode` under the prefix "npub":
/// that writes the prefix, '1', one alphabet character per value and the
/// checksum, and fails only on a malformed prefix.
#[verifier::external_body]
fn encode_npub(raw: &[u8]) -> (r: Option<String>)
    ensures
        r.is_some() == (raw@.len() == 32 && is_curve_point(raw@)),
        r matches Some(s) ==> s@ == npub_prefix() + bech32_data(raw@) + npub_checksum(raw@),
{
    match XOnlyPublicKey::from_slice(raw) {
        Ok(key) => key.to_bech32().ok(),
        Err(_) => None,
    }
}

/// The canonical identifier of a raw author key, or `InvalidKey` where the
/// bytes are not a key.
pub fn canonicalize(raw: &[u8]) -> (r: Result<String, InvalidKey>)
    ensures
        r is Ok <==> valid_key(raw@),
        r matches Ok(s) ==> s@ == npub_text(raw@),
{
    match encode_npub(raw) {
        Some(s) => Ok(s),
        None => Err(InvalidKey),
    }
}

proof fn lemma_bech32_char_injective(v: u16, w: u16)
    requires
        v < 32,
        w < 32,
        bech32_char(v) == bech32_char(w),
    ensures
        v == w,
{
}

proof fn lemma_window_bound(hi: u8, lo: u8, shift: u16)
    ensures
        window(hi, lo, shift) < 32,
{
    assert((((((hi as u16) << 8u16) | (lo as u16)) >> shift) & 31u16) < 32u16) by (bit_vector);
}

proof fn lemma_block_bits(x0: u8, x1: u8, x2: u8, x3: u8, x4: u8, x5: u8, y0: u8, y1: u8, y2: u8, y3: u8, y4: u8, y5: u8)
    requires
        window(x0, x1, 11) == window(y0, y1, 11),
        window(x0, x1, 6) == window(y0, y1, 6),
        window(x1, x2, 9) == window(y1, y2, 9),
        window(x1, x2, 4) == window(y1, y2, 4),
        window(x2, x3, 7) == window(y2, y3, 7),
        window(x3, x4, 10) == window(y3, y4, 10),
        window(x3, x4, 5) == window(y3, y4, 5),
        window(x4, x5, 8) == window(y4, y5, 8),
    ensures
        x0 == y0 && x1 == y1 && x2 == y2 && x3 == y3 && x4 == y4,
{
    assert(x0 == y0 && x1 == y1 && x2 == y2 && x3 == y3 && x4 == y4) by (bit_vector)
        requires
            (((((x0 as u16) << 8u16) | (x1 as u16)) >> 11u16) & 31u16) == (((((y0 as u16) << 8u16) | (y1 as u16)) >> 11u16) & 31u16),
            (((((x0 as u16) << 8u16) | (x1 as u16)) >> 6u16) & 31u16) == (((((y0 as u16) << 8u16) | (y1 as u16)) >> 6u16) & 31u16),
            (((((x1 as u16) << 8u16) | (x2 as u16)) >> 9u16) & 31u16) == (((((y1 as u16) << 8u16) | (y2 as u16)) >> 9u16) & 31u16),
            (((((x1 as u16) << 8u16) | (x2 as u16)) >> 4u16) & 31u16) == (((((y1 as u16) << 8u16) | (y2 as u16)) >> 4u16) & 31u16),
            (((((x2 as u16) << 8u16) | (x3 as u16)) >> 7u16) & 31u16) == (((((y2 as u16) << 8u16) | (y3 as u16)) >> 7u16) & 31u16),
            (((((x3 as u16) << 8u16) | (x4 as u16)) >> 10u16) & 31u16) == (((((y3 as u16) << 8u16) | (y4 as u16)) >> 10u16) & 31u16),
            (((((x3 as u16) << 8u16) | (x4 as u16)) >> 5u16) & 31u16) == (((((y3 as u16) << 8u16) | (y4 as u16)) >> 5u16) & 31u16),
            (((((x4 as u16) << 8u16) | (x5 as u16)) >> 8u16) & 31u16) == (((((y4 as u16) << 8u16) | (y5 as u16)) >> 8u16) & 31u16),
    ;
}

proof fn lemma_tail_bits(x0: u8, x1: u8, y0: u8, y1: u8)
    requires
        window(x0, x1, 11) == window(y0, y1, 11),
        window(x0, x1, 6) == window(y0, y1, 6),
        window(x1, 0, 9) == window(y1, 0, 9),
        window(x1, 0, 4) == window(y1, 0, 4),
    ensures
        x0 == y0 && x1 == y1,
{
    assert(x0 == y0 && x1 == y1) by (bit_vector)
        requires
            (((((x0 as u16) << 8u16) | (x1 as u16)) >> 11u16) & 31u16) == (((((y0 as u16) << 8u16) | (y1 as u16)) >> 11u16) & 31u16),
            (((((x0 as u16) << 8u16) | (x1 as u16)) >> 6u16) & 31u16) == (((((y0 as u16) << 8u16) | (y1 as u16)) >> 6u16) & 31u16),
            (((((x1 as u16) << 8u16) | (0u8 as u16)) >> 9u16) & 31u16) == (((((y1 as u16) << 8u16) | (0u8 as u16)) >> 9u16) & 31u16),
            (((((x1 as u16) << 8u16) | (0u8 as u16)) >> 4u16) & 31u16) == (((((y1 as u16) << 8u16) | (0u8 as u16)) >> 4u16) & 31u16),
    ;
}

/// Eight consecutive groups starting at group `8 * k` fix the five bytes
/// starting at byte `5 * k`.
proof fn lemma_block(a: Seq<u8>, b: Seq<u8>, k: int)
    requires
        0 <= k,
        forall|j: int| 8 * k <= j < 8 * k + 8 ==> group(a, j) == group(b, j),
    ensures
        forall|i: int| 5 * k <= i < 5 * k + 5 ==> byte_or_zero(a, i) == byte_or_zero(b, i),
{
    let j = 8 * k;
    assert(group(a, j) == group(b, j));
    assert(group(a, j + 1) == group(b, j + 1));
    assert(group(a, j + 2) == group(b, j + 2));
    assert(group(a, j + 3) == group(b, j + 3));
    assert(group(a, j + 4) == group(b, j + 4));
    assert(group(a, j + 5) == group(b, j + 5));
    assert(group(a, j + 6) == group(b, j + 6));
    assert(group(a, j + 7) == group(b, j + 7));
    lemma_block_bits(
        byte_or_zero(a, 5 * k), byte_or_zero(a, 5 * k + 1), byte_or_zero(a, 5 * k + 2),
        byte_or_zero(a, 5 * k + 3), byte_or_zero(a, 5 * k + 4), byte_or_zero(a, 5 * k + 5),
        byte_or_zero(b, 5 * k), byte_or_zero(b, 5 * k + 1), byte_or_zero(b, 5 * k + 2),
        byte_or_zero(b, 5 * k + 3), byte_or_zero(b, 5 * k + 4), byte_or_zero(b, 5 * k + 5),
    );
}

/// Two 32-byte strings with the same `npub` text are equal.
proof fn lemma_npub_text_determines_key(a: Seq<u8>, b: Seq<u8>)
    requires
        a.len() == 32,
        b.len() == 32,
        npub_text(a) == npub_text(b),
    ensures
        a == b,
{
    let da = bech32_data(a);
    let db = bech32_data(b);
    assert(npub_text(a).subrange(5, 57) =~= da);
    assert(npub_text(b).subrange(5, 57) =~= db);
    assert forall|j: int| 0 <= j < 52 implies group(a, j) == group(b, j) by {
        assert(da[j] == db[j]);
        lemma_window_bound(byte_or_zero(a, (5 * j) / 8), byte_or_zero(a, (5 * j) / 8 + 1), (11 - (5 * j) % 8) as u16);
        lemma_window_bound(byte_or_zero(b, (5 * j) / 8), byte_or_zero(b, (5 * j) / 8 + 1), (11 - (5 * j) % 8) as u16);
        lemma_bech32_char_injective(group(a, j), group(b, j));
    }
    assert(group(a, 48) == group(b, 48));
    assert(group(a, 49) == group(b, 49));
    assert(group(a, 50) == group(b, 50));
    assert(group(a, 51) == group(b, 51));
    lemma_tail_bits(a[30], a[31], b[30], b[31]);
    assert forall|i: int| 0 <= i < 30 implies a[i] == b[i] by {
        lemma_block(a, b, i / 5);
        assert(byte_or_zero(a, i) == byte_or_zero(b, i));
    }
    assert(a =~= b);
}

/// Canonicalization is deterministic and injective on valid keys: two valid
/// keys have the same canonical identifier exactly when they are equal.
pub proof fn lemma_canonical_id_injective(a: Seq<u8>, b: Seq<u8>)
    requires
        valid_key(a),
        valid_key(b),
    ensures
        (npub_text(a) == npub_text(b)) == (a == b),
{
    if npub_text(a) == npub_text(b) {
        lemma_npub_text_determines_key(a, b);
    }
}

} // verus!
