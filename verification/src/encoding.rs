//! Canonical byte encodings and the digests taken of them.
use vstd::prelude::*;
use vstd::string::*;
use vstd::utf8::encode_utf8;

use sha2::{Digest, Sha256};

verus! {

/// The eight bytes of `v`, most significant first.
pub open spec fn be64(v: u64) -> Seq<u8> {
    seq![
        (v >> 56) as u8,
        ((v >> 48) & 0xff) as u8,
        ((v >> 40) & 0xff) as u8,
        ((v >> 32) & 0xff) as u8,
        ((v >> 24) & 0xff) as u8,
        ((v >> 16) & 0xff) as u8,
        ((v >> 8) & 0xff) as u8,
        (v & 0xff) as u8,
    ]
}

/// The two's complement of `v` as eight bytes, most significant first.
pub open spec fn be_i64(v: i64) -> Seq<u8> {
    be64(v as u64)
}

/// A text as its byte length followed by its UTF-8 bytes.
pub open spec fn text_bytes(s: Seq<char>) -> Seq<u8> {
    be64(encode_utf8(s).len() as u64) + encode_utf8(s)
}

/// An optional text: a presence byte, then the text.
pub open spec fn optional_text_bytes(s: Option<Seq<char>>) -> Seq<u8> {
    match s {
        Some(s) => seq![1u8] + text_bytes(s),
        None => seq![0u8],
    }
}

/// An optional offset: a presence byte, then the offset.
pub open spec fn optional_u64_bytes(v: Option<u64>) -> Seq<u8> {
    match v {
        Some(v) => seq![1u8] + be64(v),
        None => seq![0u8],
    }
}

/// An optional signed number: a presence byte, then the number.
pub open spec fn optional_i64_bytes(v: Option<i64>) -> Seq<u8> {
    match v {
        Some(v) => seq![1u8] + be_i64(v),
        None => seq![0u8],
    }
}

pub open spec fn hex_digit(n: int) -> char {
    if n < 10 {
        ('0' as u32 + n) as char
    } else {
        ('a' as u32 + (n - 10)) as char
    }
}

/// Lower-case hexadecimal, two digits for each byte.
pub open spec fn hex_lower(bytes: Seq<u8>) -> Seq<char> {
    Seq::new(
        2 * bytes.len(),
        |i: int|
            if i % 2 == 0 {
                hex_digit(bytes[i / 2] as int / 16)
            } else {
                hex_digit(bytes[i / 2] as int % 16)
            },
    )
}

pub open spec fn is_hex_lower(c: char) -> bool {
    '0' <= c <= '9' || 'a' <= c <= 'f'
}

/// Bytes are written with two digits each, and with nothing else.
pub proof fn lemma_hex_lower(bytes: Seq<u8>)
    ensures
        hex_lower(bytes).len() == 2 * bytes.len(),
        forall|i: int| 0 <= i < 2 * bytes.len() ==> is_hex_lower(#[trigger] hex_lower(bytes)[i]),
{
}

/// The 32 byte BLAKE3 digest of a byte string.
pub uninterp spec fn blake3_digest(bytes: Seq<u8>) -> Seq<u8>;

/// `blake3::hash`: the digest is a function of the bytes alone and is 32 bytes long.
#[verifier::external_body]
pub(crate) fn blake3_of(bytes: &[u8]) -> (digest: [u8; 32])
    ensures
        digest@ == blake3_digest(bytes@),
{
    *blake3::hash(bytes).as_bytes()
}

/// `blake3::Hash::to_hex`: the digest written as lower-case hexadecimal.
#[verifier::external_body]
pub(crate) fn blake3_hex(bytes: &[u8]) -> (hex: String)
    ensures
        hex@ == hex_lower(blake3_digest(bytes@)),
        hex@.len() == 64,
{
    blake3::hash(bytes).to_hex().to_string()
}

/// The 32 byte SHA-256 digest of a byte string.
pub uninterp spec fn sha256_digest(bytes: Seq<u8>) -> Seq<u8>;

/// `sha2::Sha256::digest`: the digest is a function of the bytes alone and is 32 bytes long.
#[verifier::external_body]
pub(crate) fn sha256_of(bytes: &[u8]) -> (digest: [u8; 32])
    ensures
        digest@ == sha256_digest(bytes@),
{
    Sha256::digest(bytes).into()
}

fn hex_char(n: u8) -> (r: char)
    requires
        n < 16,
    ensures
        r == hex_digit(n as int),
{
    match n {
        0 => '0',
        1 => '1',
        2 => '2',
        3 => '3',
        4 => '4',
        5 => '5',
        6 => '6',
        7 => '7',
        8 => '8',
        9 => '9',
        10 => 'a',
        11 => 'b',
        12 => 'c',
        13 => 'd',
        14 => 'e',
        _ => 'f',
    }
}

/// Lower-case hexadecimal.
pub fn to_hex(bytes: &[u8]) -> (r: String)
    ensures
        r@ == hex_lower(bytes@),
{
    let mut hex: String = String::new();
    let mut i: usize = 0;
    assert(hex@ =~= hex_lower(bytes@.take(0)));
    while i < bytes.len()
        invariant
            i <= bytes.len(),
            hex@ == hex_lower(bytes@.take(i as int)),
        decreases bytes.len() - i,
    {
        let byte: u8 = bytes[i];
        let ghost before = hex@;
        hex.push(hex_char(byte / 16));
        hex.push(hex_char(byte % 16));
        proof {
            let shorter = bytes@.take(i as int);
            let longer = bytes@.take(i + 1);
            assert forall|k: int| 0 <= k < hex_lower(longer).len() implies hex@[k] == hex_lower(
                longer,
            )[k] by {
                if k < 2 * i {
                    assert(before[k] == hex_lower(shorter)[k]);
                    assert(shorter[k / 2] == longer[k / 2]);
                } else {
                    assert(longer[k / 2] == byte);
                }
            }
            assert(hex@ =~= hex_lower(longer));
        }
        i = i + 1;
    }
    assert(bytes@.take(i as int) =~= bytes@);
    hex
}

pub fn push_bytes(out: &mut Vec<u8>, bytes: &[u8])
    ensures
        final(out)@ == old(out)@ + bytes@,
{
    let ghost before = out@;
    let mut i: usize = 0;
    while i < bytes.len()
        invariant
            i <= bytes.len(),
            out@ == before + bytes@.take(i as int),
        decreases bytes.len() - i,
    {
        assert(bytes@.take(i as int).push(bytes@[i as int]) =~= bytes@.take(i + 1));
        out.push(bytes[i]);
        i = i + 1;
    }
    assert(bytes@.take(bytes@.len() as int) =~= bytes@);
}

pub fn push_u64(out: &mut Vec<u8>, v: u64)
    ensures
        final(out)@ == old(out)@ + be64(v),
{
    assert((v >> 56) <= 0xff && ((v >> 48) & 0xff) <= 0xff && ((v >> 40) & 0xff) <= 0xff && ((v
        >> 32) & 0xff) <= 0xff && ((v >> 24) & 0xff) <= 0xff && ((v >> 16) & 0xff) <= 0xff && ((v
        >> 8) & 0xff) <= 0xff && (v & 0xff) <= 0xff) by (bit_vector);
    out.push((v >> 56) as u8);
    out.push(((v >> 48) & 0xff) as u8);
    out.push(((v >> 40) & 0xff) as u8);
    out.push(((v >> 32) & 0xff) as u8);
    out.push(((v >> 24) & 0xff) as u8);
    out.push(((v >> 16) & 0xff) as u8);
    out.push(((v >> 8) & 0xff) as u8);
    out.push((v & 0xff) as u8);
    assert(out@ =~= old(out)@ + be64(v));
}

pub fn push_i64(out: &mut Vec<u8>, v: i64)
    ensures
        final(out)@ == old(out)@ + be_i64(v),
{
    push_u64(out, #[verifier::truncate] (v as u64));
}

pub fn push_byte(out: &mut Vec<u8>, v: u8)
    ensures
        final(out)@ == old(out)@ + seq![v],
{
    out.push(v);
    assert(out@ =~= old(out)@ + seq![v]);
}

pub fn push_text(out: &mut Vec<u8>, s: &str)
    ensures
        final(out)@ == old(out)@ + text_bytes(s@),
{
    let bytes: &[u8] = s.as_bytes();
    push_u64(out, bytes.len() as u64);
    push_bytes(out, bytes);
    assert(out@ =~= old(out)@ + text_bytes(s@));
}

pub fn push_optional_text(out: &mut Vec<u8>, s: &Option<String>)
    ensures
        final(out)@ == old(out)@ + optional_text_bytes(s.deep_view()),
{
    match s {
        Some(s) => {
            push_byte(out, 1);
            push_text(out, s.as_str());
            assert(out@ =~= old(out)@ + optional_text_bytes(Some(s@)));
        },
        None => {
            push_byte(out, 0);
        },
    }
}

pub fn push_optional_u64(out: &mut Vec<u8>, v: Option<u64>)
    ensures
        final(out)@ == old(out)@ + optional_u64_bytes(v),
{
    match v {
        Some(v) => {
            push_byte(out, 1);
            push_u64(out, v);
            assert(out@ =~= old(out)@ + optional_u64_bytes(Some(v)));
        },
        None => {
            push_byte(out, 0);
        },
    }
}

pub fn push_optional_i64(out: &mut Vec<u8>, v: Option<i64>)
    ensures
        final(out)@ == old(out)@ + optional_i64_bytes(v),
{
    match v {
        Some(v) => {
            push_byte(out, 1);
            push_i64(out, v);
            assert(out@ =~= old(out)@ + optional_i64_bytes(Some(v)));
        },
        None => {
            push_byte(out, 0);
        },
    }
}

/// Two numbers with the same eight bytes are the same number.
pub proof fn lemma_be64_injective(a: u64, b: u64)
    requires
        be64(a) == be64(b),
    ensures
        a == b,
{
    let x: Seq<u8> = be64(a);
    let y: Seq<u8> = be64(b);
    assert(x[0] == y[0] && x[1] == y[1] && x[2] == y[2] && x[3] == y[3]);
    assert(x[4] == y[4] && x[5] == y[5] && x[6] == y[6] && x[7] == y[7]);
    assert(a == b) by (bit_vector)
        requires
            (a >> 56) as u8 == (b >> 56) as u8,
            ((a >> 48) & 0xff) as u8 == ((b >> 48) & 0xff) as u8,
            ((a >> 40) & 0xff) as u8 == ((b >> 40) & 0xff) as u8,
            ((a >> 32) & 0xff) as u8 == ((b >> 32) & 0xff) as u8,
            ((a >> 24) & 0xff) as u8 == ((b >> 24) & 0xff) as u8,
            ((a >> 16) & 0xff) as u8 == ((b >> 16) & 0xff) as u8,
            ((a >> 8) & 0xff) as u8 == ((b >> 8) & 0xff) as u8,
            (a & 0xff) as u8 == (b & 0xff) as u8,
    ;
}

} // verus!
