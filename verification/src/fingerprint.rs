//! The fingerprint of a diagnostic text: its 64-bit digest, written as eight
//! big-endian bytes and encoded in unpadded URL-safe base64.

use base64::engine::general_purpose::URL_SAFE_NO_PAD;
use base64::Engine;
use std::collections::hash_map::DefaultHasher;
use std::hash::Hash;
use std::hash::Hasher;
use vstd::prelude::*;
use vstd::std_specs::hash::DefaultHasherAdditionalSpecFns;

verus! {

/// The writes that a hasher has received once a string was fed to it, given
/// the writes it had received before.
pub uninterp spec fn str_hash_writes(before: Seq<Seq<u8>>, text: Seq<char>) -> Seq<Seq<u8>>;

/// The 64-bit digest of a text: what a fresh default hasher yields after the
/// text alone was fed to it.
pub open spec fn digest_of(text: Seq<char>) -> u64 {
    DefaultHasher::spec_finish(str_hash_writes(Seq::<Seq<u8>>::empty(), text))
}

/// The eight bytes of a 64-bit value, most significant first.
pub open spec fn be_bytes_of(h: u64) -> Seq<u8> {
    seq![
        (h / 0x100_0000_0000_0000) as u8,
        (h / 0x1_0000_0000_0000 % 256) as u8,
        (h / 0x100_0000_0000 % 256) as u8,
        (h / 0x1_0000_0000 % 256) as u8,
        (h / 0x100_0000 % 256) as u8,
        (h / 0x1_0000 % 256) as u8,
        (h / 0x100 % 256) as u8,
        (h % 256) as u8,
    ]
}

/// The byte at position `i`, or zero past the end: the bit stream of a
/// base64 input is padded with zero bits.
pub open spec fn byte_or_zero(bytes: Seq<u8>, i: int) -> int {
    if 0 <= i < bytes.len() {
        bytes[i] as int
    } else {
        0
    }
}

/// The `k`-th group of six bits of the bytes' bit stream, as a number below 64.
pub open spec fn sextet(bytes: Seq<u8>, k: int) -> int {
    let i = (6 * k) / 8;
    let skipped = (6 * k) % 8;
    let window = byte_or_zero(bytes, i) * 256 + byte_or_zero(bytes, i + 1);
    let scale: int = if skipped == 0 {
        1024
    } else if skipped == 2 {
        256
    } else if skipped == 4 {
        64
    } else {
        16
    };
    (window / scale) % 64
}

/// The symbol that the URL-safe alphabet gives to a six-bit value.
pub open spec fn url_safe_symbol(v: int) -> char {
    "ABCDEFGHIJKLMNOPQRSTUVWXYZabcdefghijklmnopqrstuvwxyz0123456789-_"@[v]
}

/// The unpadded URL-safe base64 text of a byte sequence: one symbol for each
/// started group of six bits.
pub open spec fn base64_url_no_pad(bytes: Seq<u8>) -> Seq<char> {
    Seq::new(((bytes.len() * 4 + 2) / 3) as nat, |k: int| url_safe_symbol(sextet(bytes, k)))
}

/// The fingerprint that belongs to a 64-bit digest.
pub open spec fn fingerprint_of_digest(h: u64) -> Seq<char> {
    base64_url_no_pad(be_bytes_of(h))
}

/// The fingerprint of a text.
pub open spec fn fingerprint_of(text: Seq<char>) -> Seq<char> {
    fingerprint_of_digest(digest_of(text))
}

/// Feeds a string to a hasher through `<str as Hash>::hash`. The writes that
/// the hasher has received afterwards depend on the earlier writes and on the
/// string alone; which writes these are is left unstated.
#[verifier::external_body]
fn hash_str(text: &str, state: &mut DefaultHasher)
    ensures
        final(state)@ == str_hash_writes(old(state)@, text@),
{
    text.hash(state);
}

/// Encodes eight bytes with `base64`'s `URL_SAFE_NO_PAD` engine
/// (`Engine::encode`): RFC 4648's URL-safe alphabet, six bits to a symbol,
/// most significant bit first, no padding characters.
#[verifier::external_body]
fn encode_url_safe_no_pad(bytes: &[u8; 8]) -> (text: String)
    ensures
        text@ == base64_url_no_pad(bytes@),
{
    URL_SAFE_NO_PAD.encode(bytes)
}

/// Computes the 64-bit digest of a text with a fresh default hasher.
pub fn digest(text: &str) -> (h: u64)
    ensures
        h == digest_of(text@),
{
    let mut hasher = DefaultHasher::new();
    hash_str(text, &mut hasher);
    hasher.finish()
}

/// Splits a 64-bit value into its eight bytes, most significant first.
pub fn be_bytes(h: u64) -> (bytes: [u8; 8])
    ensures
        bytes@ == be_bytes_of(h),
{
    assert((h >> 56) & 0xff == h / 0x100_0000_0000_0000) by (bit_vector);
    assert((h >> 48) & 0xff == h / 0x1_0000_0000_0000 % 256) by (bit_vector);
    assert((h >> 40) & 0xff == h / 0x100_0000_0000 % 256) by (bit_vector);
    assert((h >> 32) & 0xff == h / 0x1_0000_0000 % 256) by (bit_vector);
    assert((h >> 24) & 0xff == h / 0x100_0000 % 256) by (bit_vector);
    assert((h >> 16) & 0xff == h / 0x1_0000 % 256) by (bit_vector);
    assert((h >> 8) & 0xff == h / 0x100 % 256) by (bit_vector);
    assert(h & 0xff == h % 256) by (bit_vector);
    let bytes: [u8; 8] = [
        ((h >> 56) & 0xff) as u8,
        ((h >> 48) & 0xff) as u8,
        ((h >> 40) & 0xff) as u8,
        ((h >> 32) & 0xff) as u8,
        ((h >> 24) & 0xff) as u8,
        ((h >> 16) & 0xff) as u8,
        ((h >> 8) & 0xff) as u8,
        (h & 0xff) as u8,
    ];
    assert(bytes@ =~= be_bytes_of(h));
    bytes
}

/// Writes a digest as its fingerprint: eleven URL-safe symbols.
pub fn fingerprint_from_digest(h: u64) -> (text: String)
    ensures
        text@ == fingerprint_of_digest(h),
        text@.len() == 11,
{
    let bytes = be_bytes(h);
    encode_url_safe_no_pad(&bytes)
}

/// Computes the fingerprint of a diagnostic text.
pub fn fingerprint(text: &str) -> (mark: String)
    ensures
        mark@ == fingerprint_of(text@),
        mark@.len() == 11,
{
    fingerprint_from_digest(digest(text))
}

} // verus!
