//! Text building blocks: numbers in decimal and hexadecimal, byte strings as
//! hexadecimal, and byte strings as text.

use vstd::prelude::*;
use vstd::string::*;
use vstd::utf8::*;

verus! {

/// The digit character for a value below sixteen, letters in lower case.
pub open spec fn digit(d: int) -> char {
    "0123456789abcdef"@[d]
}

/// The number `n` in decimal, most significant digit first, with zeros in front
/// until it has at least `width` digits. Zero is written as one digit.
pub open spec fn dec_text(n: nat, width: nat) -> Seq<char>
    decreases n, width,
{
    if n < 10 && width <= 1 {
        seq![digit(n as int)]
    } else {
        dec_text(n / 10, if width > 0 { (width - 1) as nat } else { 0 }).push(
            digit((n % 10) as int),
        )
    }
}

/// The number `n` in lower-case hexadecimal, most significant digit first, with
/// zeros in front until it has at least `width` digits.
pub open spec fn hex_text(n: nat, width: nat) -> Seq<char>
    decreases n, width,
{
    if n < 16 && width <= 1 {
        seq![digit(n as int)]
    } else {
        hex_text(n / 16, if width > 0 { (width - 1) as nat } else { 0 }).push(
            digit((n % 16) as int),
        )
    }
}

/// A byte sequence in lower-case hexadecimal: two digits for each byte, the high
/// half first.
pub open spec fn hex_bytes(b: Seq<u8>) -> Seq<char>
    decreases b.len(),
{
    if b.len() == 0 {
        Seq::empty()
    } else {
        hex_bytes(b.drop_last()).push(digit(b.last() as int / 16)).push(
            digit(b.last() as int % 16),
        )
    }
}

/// What the standard `Debug` formatting of a string slice writes for the text
/// `s`: the text between double quotes, with the characters that formatting
/// escapes written as their escapes.
pub uninterp spec fn debug_text(s: Seq<char>) -> Seq<char>;

/// The one-character text of a digit.
pub fn digit_str(d: u32) -> (r: &'static str)
    requires
        d < 16,
    ensures
        r@ == seq![digit(d as int)],
{
    let digits: &'static str = "0123456789abcdef";
    proof {
        reveal_strlit("0123456789abcdef");
    }
    let r = digits.substring_ascii(d as usize, d as usize + 1);
    assert(r@ =~= seq![digit(d as int)]);
    r
}

/// Appends `n` in decimal with at least `width` digits to `out`.
pub fn push_dec(out: &mut String, n: u32, width: u32)
    ensures
        final(out)@ == old(out)@ + dec_text(n as nat, width as nat),
    decreases n, width,
{
    if n < 10 && width <= 1 {
        out.append(digit_str(n));
    } else {
        let rest: u32 = if width > 0 { width - 1 } else { 0 };
        push_dec(out, n / 10, rest);
        out.append(digit_str(n % 10));
    }
    assert(final(out)@ =~= old(out)@ + dec_text(n as nat, width as nat));
}

/// Appends `n` in lower-case hexadecimal with at least `width` digits to `out`.
pub fn push_hex(out: &mut String, n: u32, width: u32)
    ensures
        final(out)@ == old(out)@ + hex_text(n as nat, width as nat),
    decreases n, width,
{
    if n < 16 && width <= 1 {
        out.append(digit_str(n));
    } else {
        let rest: u32 = if width > 0 { width - 1 } else { 0 };
        push_hex(out, n / 16, rest);
        out.append(digit_str(n % 16));
    }
    assert(final(out)@ =~= old(out)@ + hex_text(n as nat, width as nat));
}

/// The characters of a string slice.
pub fn chars_of(s: &str) -> (v: Vec<char>)
    ensures
        v@ == s@,
{
    broadcast use vstd::string::group_string_axioms;

    let mut v: Vec<char> = Vec::new();
    for c in it: s.chars()
        invariant
            it.seq() == s@,
            v@ == it.seq().take(it.index() as int),
    {
        v.push(c);
        assert(v@ =~= it.seq().take(it.index() + 1));
    }
    assert(v@ =~= s@);
    v
}

/// Calls `hex::encode`, which writes each byte as two lower-case hexadecimal
/// digits, the high half first, in the order of the bytes.
#[verifier::external_body]
pub(crate) fn hex_encode(data: &[u8]) -> (r: String)
    ensures
        r@ == hex_bytes(data@),
{
    hex::encode(data)
}

/// Calls `std::str::from_utf8`, which succeeds exactly on well-formed UTF-8 and
/// then gives those same bytes back as a string slice.
#[verifier::external_body]
fn from_utf8(bytes: &[u8]) -> (r: Option<&str>)
    ensures
        r is Some <==> valid_utf8(bytes@),
        r is Some ==> r.unwrap().spec_bytes() == bytes@,
{
    std::str::from_utf8(bytes).ok()
}

/// The text that the bytes encode, where they are well-formed UTF-8.
pub fn utf8_text(bytes: &[u8]) -> (r: Option<&str>)
    ensures
        r is Some <==> valid_utf8(bytes@),
        r is Some ==> r.unwrap()@ == decode_utf8(bytes@),
{
    broadcast use vstd::utf8::encode_utf8_decode_utf8;

    from_utf8(bytes)
}

/// Formats a string slice with the standard `{:?}`. The result is a function of
/// the text alone; it is named here, not spelled out.
#[verifier::external_body]
pub(crate) fn debug_quote(s: &str) -> (r: String)
    ensures
        r@ == debug_text(s@),
{
    format!("{:?}", s)
}

} // verus!
