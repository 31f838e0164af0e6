//! Hashes and the texts they are taken of.
//!
//! A hash is the lower-case hex text of the SHA-256 digest of a text's
//! UTF-8 bytes. Records are framed before hashing: a number is its decimal
//! digits and `;`, a text is its length in characters, `:` and the text.

use vstd::prelude::*;
use vstd::string::*;
use vstd::utf8::encode_utf8;

verus! {

/// The SHA-256 digest of the bytes, as `sp_core::hashing::sha2_256`
/// computes it.
pub uninterp spec fn sha2_256(data: Seq<u8>) -> Seq<u8>;

/// Calls `sp_core::hashing::sha2_256`. The digest is named; its length of
/// 32 bytes is in the type.
#[verifier::external_body]
fn sha2_256_digest(data: &[u8]) -> (r: [u8; 32])
    ensures
        r@ == sha2_256(data@),
{
    sp_core::hashing::sha2_256(data)
}

/// `String::push` appends one character.
pub assume_specification[ String::push ](s: &mut String, c: char)
    ensures
        final(s)@ == old(s)@.push(c),
;

/// The hex digit of a value below sixteen.
pub open spec fn hex_digit(n: int) -> char {
    if n == 0 {
        '0'
    } else if n == 1 {
        '1'
    } else if n == 2 {
        '2'
    } else if n == 3 {
        '3'
    } else if n == 4 {
        '4'
    } else if n == 5 {
        '5'
    } else if n == 6 {
        '6'
    } else if n == 7 {
        '7'
    } else if n == 8 {
        '8'
    } else if n == 9 {
        '9'
    } else if n == 10 {
        'a'
    } else if n == 11 {
        'b'
    } else if n == 12 {
        'c'
    } else if n == 13 {
        'd'
    } else if n == 14 {
        'e'
    } else {
        'f'
    }
}

/// Two hex digits per byte, high nibble first.
pub open spec fn hex_text(bytes: Seq<u8>) -> Seq<char> {
    Seq::new(
        2 * bytes.len(),
        |i: int|
            if i % 2 == 0 {
                hex_digit(bytes[i / 2] as int / 16)
            } else {
                hex_digit(bytes[i / 2] as int % 16)
            },
    )
}

/// The decimal digits of a number, most significant first.
pub open spec fn digits(n: nat) -> Seq<char>
    decreases n,
{
    if n < 10 {
        seq![hex_digit(n as int)]
    } else {
        digits(n / 10).push(hex_digit((n % 10) as int))
    }
}

/// A number as a record field.
pub open spec fn number_field(n: nat) -> Seq<char> {
    digits(n).push(';')
}

/// A text as a record field.
pub open spec fn text_field(s: Seq<char>) -> Seq<char> {
    digits(s.len()).push(':') + s
}

/// The hash of a text.
pub open spec fn hash_of(text: Seq<char>) -> Seq<char> {
    hex_text(sha2_256(encode_utf8(text)))
}

fn hex_char(n: u8) -> (c: char)
    requires
        n < 16,
    ensures
        c == hex_digit(n as int),
{
    match n {
        0 => '0',
        1 => '1',
        2 => '2',
        3 => '3',
        4 => '4',
        5 => '5',
        6 => '6',
        7 => '7',
        8 => '8',
        9 => '9',
        10 => 'a',
        11 => 'b',
        12 => 'c',
        13 => 'd',
        14 => 'e',
        _ => 'f',
    }
}

/// Appends the hex text of the bytes.
pub fn write_hex(out: &mut String, bytes: &[u8])
    ensures
        final(out)@ == old(out)@ + hex_text(bytes@),
{
    let mut i: usize = 0;
    while i < bytes.len()
        invariant
            i <= bytes.len(),
            out@ == old(out)@ + hex_text(bytes@.take(i as int)),
        decreases bytes.len() - i,
    {
        let b = bytes[i];
        out.push(hex_char(b / 16));
        out.push(hex_char(b % 16));
        assert(hex_text(bytes@.take(i + 1)) =~= hex_text(bytes@.take(i as int)).push(
            hex_digit(b as int / 16),
        ).push(hex_digit(b as int % 16)));
        i += 1;
    }
    assert(bytes@.take(i as int) =~= bytes@);
}

/// Appends the decimal digits of a number.
pub fn write_digits(out: &mut String, n: u64)
    ensures
        final(out)@ == old(out)@ + digits(n as nat),
    decreases n,
{
    if n >= 10 {
        write_digits(out, n / 10);
    }
    out.push(hex_char((n % 10) as u8));
    assert(out@ =~= old(out)@ + digits(n as nat));
}

/// Appends a number as a record field.
pub fn write_number(out: &mut String, n: u64)
    ensures
        final(out)@ == old(out)@ + number_field(n as nat),
{
    write_digits(out, n);
    out.push(';');
    assert(out@ =~= old(out)@ + number_field(n as nat));
}

/// Appends a text as a record field.
pub fn write_text(out: &mut String, s: &str)
    ensures
        final(out)@ == old(out)@ + text_field(s@),
{
    let n = s.unicode_len();
    write_digits(out, n as u64);
    out.push(':');
    out.append(s);
    assert(out@ =~= old(out)@ + text_field(s@));
}

/// Makes hashes.
pub struct HashMaker;

impl HashMaker {
    /// The hash of a text: the hex text of the SHA-256 digest of its bytes.
    pub fn generate(data: &String) -> (r: String)
        ensures
            r@ == hash_of(data@),
    {
        let digest = sha2_256_digest(data.as_str().as_bytes());
        let mut r = String::new();
        write_hex(&mut r, digest.as_slice());
        r
    }
}

} // verus!
