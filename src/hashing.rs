//! Content hashes of file bytes, written as lowercase hexadecimal text.
use crate::paths::push_char;
use sha2::{Digest, Sha256};
use vstd::prelude::*;

verus! {

/// What `xxhash_rust::xxh3::xxh3_64` returns for a byte sequence.
pub uninterp spec fn xxh3_of(data: Seq<u8>) -> u64;

/// What `sha2::Sha256::digest` returns for a byte sequence.
pub uninterp spec fn sha256_of(data: Seq<u8>) -> Seq<u8>;

/// Relies on `xxhash_rust::xxh3::xxh3_64`: a 64-bit hash of the bytes alone.
#[verifier::external_body]
fn xxh3_64(data: &Vec<u8>) -> (r: u64)
    ensures
        r == xxh3_of(data@),
{
    xxhash_rust::xxh3::xxh3_64(data)
}

/// Relies on `sha2::Sha256::digest`: the 32-byte SHA-256 digest of the bytes.
#[verifier::external_body]
fn sha256(data: &Vec<u8>) -> (r: Vec<u8>)
    ensures
        r@ == sha256_of(data@),
        r@.len() == 32,
{
    Sha256::digest(data).to_vec()
}

/// The lowercase hexadecimal digit of a value below 16.
pub open spec fn hex_digit(d: nat) -> char {
    if d == 0 { '0' } else if d == 1 { '1' } else if d == 2 { '2' } else if d == 3 { '3' }
    else if d == 4 { '4' } else if d == 5 { '5' } else if d == 6 { '6' } else if d == 7 { '7' }
    else if d == 8 { '8' } else if d == 9 { '9' } else if d == 10 { 'a' } else if d == 11 { 'b' }
    else if d == 12 { 'c' } else if d == 13 { 'd' } else if d == 14 { 'e' } else { 'f' }
}

/// The last `width` hexadecimal digits of `x`, most significant first,
/// padded with zeros.
pub open spec fn hex_fixed(x: nat, width: nat) -> Seq<char>
    decreases width,
{
    if width == 0 {
        Seq::empty()
    } else {
        hex_fixed(x / 16, (width - 1) as nat).push(hex_digit(x % 16))
    }
}

/// Two hexadecimal digits per byte, in order.
pub open spec fn hex_bytes(b: Seq<u8>) -> Seq<char>
    decreases b.len(),
{
    if b.len() == 0 {
        Seq::empty()
    } else {
        hex_bytes(b.drop_last()) + hex_fixed(b.last() as nat, 2)
    }
}

/// The content hash of a file: its 64-bit xxh3 hash as 16 lowercase hex digits.
pub open spec fn content_hash_of(data: Seq<u8>) -> Seq<char> {
    hex_fixed(xxh3_of(data) as nat, 16)
}

fn hex_digit_exec(d: u64) -> (c: char)
    requires
        d < 16,
    ensures
        c == hex_digit(d as nat),
{
    if d == 0 { '0' } else if d == 1 { '1' } else if d == 2 { '2' } else if d == 3 { '3' }
    else if d == 4 { '4' } else if d == 5 { '5' } else if d == 6 { '6' } else if d == 7 { '7' }
    else if d == 8 { '8' } else if d == 9 { '9' } else if d == 10 { 'a' } else if d == 11 { 'b' }
    else if d == 12 { 'c' } else if d == 13 { 'd' } else if d == 14 { 'e' } else { 'f' }
}

/// Appends the last `width` hexadecimal digits of `x` to `s`.
fn push_hex(s: &mut String, x: u64, width: usize)
    ensures
        final(s)@ == old(s)@ + hex_fixed(x as nat, width as nat),
    decreases width,
{
    if width > 0 {
        push_hex(s, x / 16, width - 1);
        push_char(s, hex_digit_exec(x % 16));
    }
}

/// Formats `x` as exactly 16 lowercase hexadecimal digits.
pub fn hex_u64(x: u64) -> (r: String)
    ensures
        r@ == hex_fixed(x as nat, 16),
        r@.len() == 16,
{
    let mut s = String::new();
    push_hex(&mut s, x, 16);
    proof { lemma_hex_fixed_len(x as nat, 16); }
    s
}

/// Formats each byte as two lowercase hexadecimal digits.
pub fn hex_of_bytes(b: &Vec<u8>) -> (r: String)
    ensures
        r@ == hex_bytes(b@),
        r@.len() == 2 * b@.len(),
{
    let mut s = String::new();
    let mut i: usize = 0;
    while i < b.len()
        invariant
            i <= b@.len(),
            s@ == hex_bytes(b@.subrange(0, i as int)),
        decreases b@.len() - i,
    {
        assert(b@.subrange(0, i + 1).drop_last() =~= b@.subrange(0, i as int));
        push_hex(&mut s, b[i] as u64, 2);
        i = i + 1;
    }
    assert(b@.subrange(0, b@.len() as int) =~= b@);
    proof { lemma_hex_bytes_len(b@); }
    s
}

/// The content hash of a byte buffer (see `content_hash_of`).
pub fn content_hash(data: &Vec<u8>) -> (r: String)
    ensures
        r@ == content_hash_of(data@),
{
    hex_u64(xxh3_64(data))
}

/// The SHA-256 digest of a byte buffer as 64 lowercase hexadecimal digits.
pub fn sha256_hex(data: &Vec<u8>) -> (r: String)
    ensures
        r@ == hex_bytes(sha256_of(data@)),
        r@.len() == 64,
{
    let d = sha256(data);
    hex_of_bytes(&d)
}

/// `hex_fixed` yields exactly `width` digits.
pub proof fn lemma_hex_fixed_len(x: nat, width: nat)
    ensures
        hex_fixed(x, width).len() == width,
    decreases width,
{
    if width > 0 {
        lemma_hex_fixed_len(x / 16, (width - 1) as nat);
    }
}

/// `hex_bytes` yields two digits per byte.
pub proof fn lemma_hex_bytes_len(b: Seq<u8>)
    ensures
        hex_bytes(b).len() == 2 * b.len(),
    decreases b.len(),
{
    if b.len() > 0 {
        lemma_hex_bytes_len(b.drop_last());
        lemma_hex_fixed_len(b.last() as nat, 2);
    }
}

} // verus!
