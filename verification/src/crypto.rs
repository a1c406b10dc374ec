//! Viewing-key material: hashing, deterministic key derivation and the
//! full-hash comparison used to validate a supplied key.
//!
//! The hash itself is an external primitive; everything around it — the
//! byte encoding of the inputs, the hex rendering of the digest and the
//! comparison — is verified.

use vstd::prelude::*;
use vstd::string::{StrSliceExecFns, StringExecFns};

use crate::types::clone_bytes;

verus! {

/// The SHA-256 digest of a byte sequence; the digest is a function of the
/// bytes alone.
pub uninterp spec fn sha256_of(data: Seq<u8>) -> Seq<u8>;

/// Relies on `secret_toolkit::crypto::sha_256`: the SHA-256 digest of the
/// input, 32 bytes, depending on the input bytes alone.
#[verifier::external_body]
pub fn sha256(data: &Vec<u8>) -> (r: Vec<u8>)
    ensures
        r@ == sha256_of(data@),
        r@.len() == 32,
{
    secret_toolkit::crypto::sha_256(data.as_slice()).to_vec()
}

/// Big-endian bytes of a 64-bit timestamp.
pub open spec fn spec_u64_be_bytes(x: u64) -> Seq<u8> {
    seq![
        ((x >> 56) & 0xff) as u8,
        ((x >> 48) & 0xff) as u8,
        ((x >> 40) & 0xff) as u8,
        ((x >> 32) & 0xff) as u8,
        ((x >> 24) & 0xff) as u8,
        ((x >> 16) & 0xff) as u8,
        ((x >> 8) & 0xff) as u8,
        (x & 0xff) as u8,
    ]
}

/// Big-endian bytes of one character's code point.
pub open spec fn spec_char_bytes(c: char) -> Seq<u8> {
    seq![
        (((c as u32) >> 24) & 0xff) as u8,
        (((c as u32) >> 16) & 0xff) as u8,
        (((c as u32) >> 8) & 0xff) as u8,
        ((c as u32) & 0xff) as u8,
    ]
}

/// Big-endian code-point bytes of a whole string.
pub open spec fn spec_chars_bytes(s: Seq<char>) -> Seq<u8>
    decreases s.len(),
{
    if s.len() == 0 {
        Seq::empty()
    } else {
        spec_chars_bytes(s.drop_last()) + spec_char_bytes(s.last())
    }
}

proof fn lemma_chars_bytes_take(s: Seq<char>, i: int)
    requires
        0 <= i < s.len(),
    ensures
        spec_chars_bytes(s.take(i + 1)) == spec_chars_bytes(s.take(i)) + spec_char_bytes(s[i]),
{
    assert(s.take(i + 1).drop_last() =~= s.take(i));
    assert(s.take(i + 1).last() == s[i]);
}

/// Appends the code-point bytes of `s` to `out`.
fn append_chars_bytes(out: &mut Vec<u8>, s: &str)
    ensures
        final(out)@ == old(out)@ + spec_chars_bytes(s@),
{
    let n = s.unicode_len();
    for i in 0..n
        invariant
            n == s@.len(),
            out@ == old(out)@ + spec_chars_bytes(s@.take(i as int)),
    {
        let c = s.get_char(i);
        let code = c as u32;
        out.push(((code >> 24) & 0xff) as u8);
        out.push(((code >> 16) & 0xff) as u8);
        out.push(((code >> 8) & 0xff) as u8);
        out.push((code & 0xff) as u8);
        proof {
            lemma_chars_bytes_take(s@, i as int);
            assert(out@ =~= old(out)@ + spec_chars_bytes(s@.take(i + 1)));
        }
    }
    proof {
        assert(s@.take(n as int) =~= s@);
    }
}

/// Appends the big-endian bytes of `x` to `out`.
fn append_u64_be_bytes(out: &mut Vec<u8>, x: u64)
    ensures
        final(out)@ == old(out)@ + spec_u64_be_bytes(x),
{
    out.push(((x >> 56) & 0xff) as u8);
    out.push(((x >> 48) & 0xff) as u8);
    out.push(((x >> 40) & 0xff) as u8);
    out.push(((x >> 32) & 0xff) as u8);
    out.push(((x >> 24) & 0xff) as u8);
    out.push(((x >> 16) & 0xff) as u8);
    out.push(((x >> 8) & 0xff) as u8);
    out.push((x & 0xff) as u8);
    proof {
        assert(out@ =~= old(out)@ + spec_u64_be_bytes(x));
    }
}

/// One lower-case hexadecimal digit.
pub open spec fn spec_hex_digit(n: u8) -> char {
    if n == 0 {
        '0'
    } else if n == 1 {
        '1'
    } else if n == 2 {
        '2'
    } else if n == 3 {
        '3'
    } else if n == 4 {
        '4'
    } else if n == 5 {
        '5'
    } else if n == 6 {
        '6'
    } else if n == 7 {
        '7'
    } else if n == 8 {
        '8'
    } else if n == 9 {
        '9'
    } else if n == 10 {
        'a'
    } else if n == 11 {
        'b'
    } else if n == 12 {
        'c'
    } else if n == 13 {
        'd'
    } else if n == 14 {
        'e'
    } else {
        'f'
    }
}

/// Lower-case hexadecimal rendering of a byte sequence, two digits a byte.
pub open spec fn spec_hex(data: Seq<u8>) -> Seq<char> {
    Seq::new(
        data.len() * 2,
        |i: int|
            if i % 2 == 0 {
                spec_hex_digit(data[i / 2] / 16)
            } else {
                spec_hex_digit(data[i / 2] % 16)
            },
    )
}

fn hex_digit_str(n: u8) -> (r: &'static str)
    requires
        n < 16,
    ensures
        r@ =~= seq![spec_hex_digit(n)],
{
    proof {
        reveal_strlit("0");
        reveal_strlit("1");
        reveal_strlit("2");
        reveal_strlit("3");
        reveal_strlit("4");
        reveal_strlit("5");
        reveal_strlit("6");
        reveal_strlit("7");
        reveal_strlit("8");
        reveal_strlit("9");
        reveal_strlit("a");
        reveal_strlit("b");
        reveal_strlit("c");
        reveal_strlit("d");
        reveal_strlit("e");
        reveal_strlit("f");
    }
    if n == 0 {
        "0"
    } else if n == 1 {
        "1"
    } else if n == 2 {
        "2"
    } else if n == 3 {
        "3"
    } else if n == 4 {
        "4"
    } else if n == 5 {
        "5"
    } else if n == 6 {
        "6"
    } else if n == 7 {
        "7"
    } else if n == 8 {
        "8"
    } else if n == 9 {
        "9"
    } else if n == 10 {
        "a"
    } else if n == 11 {
        "b"
    } else if n == 12 {
        "c"
    } else if n == 13 {
        "d"
    } else if n == 14 {
        "e"
    } else {
        "f"
    }
}

/// Renders bytes as lower-case hexadecimal.
pub fn hex_encode(data: &Vec<u8>) -> (r: String)
    ensures
        r@ == spec_hex(data@),
{
    let mut s = String::new();
    let n = data.len();
    for i in 0..n
        invariant
            n == data@.len(),
            s@.len() == 2 * i,
            forall|k: int| 0 <= k < 2 * i ==> s@[k] == spec_hex(data@)[k],
    {
        let b = data[i];
        s.append(hex_digit_str(b / 16));
        s.append(hex_digit_str(b % 16));
    }
    proof {
        assert(s@ =~= spec_hex(data@));
    }
    s
}

/// The material a viewing key is derived from: the configured seed, the
/// clock, the caller's identity and the caller-supplied entropy.
pub open spec fn spec_key_material(
    seed: Seq<u8>,
    time: u64,
    sender: Seq<char>,
    entropy: Seq<char>,
) -> Seq<u8> {
    seed + spec_u64_be_bytes(time) + spec_chars_bytes(sender) + spec_chars_bytes(entropy)
}

/// The viewing key derived for one caller at one instant.
pub open spec fn spec_derived_key(
    seed: Seq<u8>,
    time: u64,
    sender: Seq<char>,
    entropy: Seq<char>,
) -> Seq<char> {
    spec_hex(sha256_of(spec_key_material(seed, time, sender, entropy)))
}

/// Derives a fresh viewing key deterministically from the seed, the clock,
/// the caller and the supplied entropy.
pub fn derive_viewing_key(seed: &Vec<u8>, time: u64, sender: &str, entropy: &str) -> (r: String)
    ensures
        r@ == spec_derived_key(seed@, time, sender@, entropy@),
{
    let mut material: Vec<u8> = clone_bytes(seed);
    append_u64_be_bytes(&mut material, time);
    append_chars_bytes(&mut material, sender);
    append_chars_bytes(&mut material, entropy);
    proof {
        assert(material@ =~= spec_key_material(seed@, time, sender@, entropy@));
    }
    let digest = sha256(&material);
    hex_encode(&digest)
}

/// Byte-for-byte comparison of two digests (the full hash, never a prefix).
pub fn bytes_equal(a: &Vec<u8>, b: &Vec<u8>) -> (r: bool)
    ensures
        r == (a@ == b@),
{
    if a.len() != b.len() {
        proof {
            assert(a@ != b@);
        }
        return false;
    }
    let n = a.len();
    for i in 0..n
        invariant
            n == a@.len(),
            n == b@.len(),
            forall|j: int| 0 <= j < i ==> a@[j] == b@[j],
    {
        if a[i] != b[i] {
            return false;
        }
    }
    proof {
        assert(a@ =~= b@);
    }
    true
}

/// Whether a supplied key matches a stored key: the hashed form of the one
/// equals the hashed form of the other.
pub open spec fn spec_key_matches(supplied: Seq<char>, stored: Seq<char>) -> bool {
    sha256_of(spec_chars_bytes(supplied)) == sha256_of(spec_chars_bytes(stored))
}

/// Compares the hashed forms of a supplied and a stored viewing key.
pub fn check_viewing_key(supplied: &str, stored: &str) -> (r: bool)
    ensures
        r == spec_key_matches(supplied@, stored@),
{
    let mut sup: Vec<u8> = Vec::new();
    append_chars_bytes(&mut sup, supplied);
    let mut sto: Vec<u8> = Vec::new();
    append_chars_bytes(&mut sto, stored);
    proof {
        assert(sup@ =~= spec_chars_bytes(supplied@));
        assert(sto@ =~= spec_chars_bytes(stored@));
    }
    let hsup = sha256(&sup);
    let hsto = sha256(&sto);
    bytes_equal(&hsup, &hsto)
}

} // verus!
