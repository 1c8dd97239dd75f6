//! Building blocks for rendering values as JSON text: decimal printing of
//! integers, fixed-point printing of milli-unit quantities, and string
//! escaping. Each executable function appends to a `String` and is proved
//! to append exactly the character sequence its spec function describes.

use vstd::prelude::*;

verus! {

/// The decimal digit character for one digit value.
pub open spec fn digit_char(d: nat) -> char {
    ((0x30 + d) as u8) as char
}

/// The hexadecimal digit character (lower case) for one digit value.
pub open spec fn hex_char(d: nat) -> char {
    if d < 10 {
        ((0x30 + d) as u8) as char
    } else {
        ((0x61 + (d - 10)) as u8) as char
    }
}

/// The decimal digits of a natural number, most significant first.
pub open spec fn dec_digits(n: nat) -> Seq<char>
    decreases n,
{
    if n < 10 {
        seq![digit_char(n)]
    } else {
        dec_digits(n / 10) + seq![digit_char(n % 10)]
    }
}

/// The decimal rendering of an integer: a minus sign for negatives, then
/// the digits of the magnitude.
pub open spec fn dec_int(n: int) -> Seq<char> {
    if n < 0 {
        seq!['-'] + dec_digits((-n) as nat)
    } else {
        dec_digits(n as nat)
    }
}

/// A milli-unit magnitude rendered as a fixed-point decimal with three
/// fractional digits: `4500` becomes `4.500`.
pub open spec fn dec_milli_mag(a: nat) -> Seq<char> {
    dec_digits(a / 1000) + seq![
        '.',
        digit_char((a / 100) % 10),
        digit_char((a / 10) % 10),
        digit_char(a % 10),
    ]
}

/// A signed milli-unit quantity rendered as a fixed-point decimal.
pub open spec fn dec_milli(m: int) -> Seq<char> {
    if m < 0 {
        seq!['-'] + dec_milli_mag((-m) as nat)
    } else {
        dec_milli_mag(m as nat)
    }
}

/// The JSON escape of one character: the two-character escapes for the
/// quote, backslash and the common control characters, a `\u00..` escape
/// for the remaining control characters, and the character itself
/// otherwise.
pub open spec fn esc_char(c: char) -> Seq<char> {
    if c == '"' {
        seq!['\\', '"']
    } else if c == '\\' {
        seq!['\\', '\\']
    } else if c == '\n' {
        seq!['\\', 'n']
    } else if c == '\r' {
        seq!['\\', 'r']
    } else if c == '\t' {
        seq!['\\', 't']
    } else if (c as u32) < 0x20 {
        seq!['\\', 'u', '0', '0', hex_char((c as u32 / 16) as nat), hex_char((c as u32 % 16) as nat)]
    } else {
        seq![c]
    }
}

/// The JSON escape of a whole character sequence.
pub open spec fn json_escaped(s: Seq<char>) -> Seq<char>
    decreases s.len(),
{
    if s.len() == 0 {
        Seq::empty()
    } else {
        json_escaped(s.drop_last()) + esc_char(s.last())
    }
}

/// A JSON string literal: the escaped contents between double quotes.
pub open spec fn json_string(s: Seq<char>) -> Seq<char> {
    seq!['"'] + json_escaped(s) + seq!['"']
}

/// The JSON `null` literal.
pub open spec fn null_seq() -> Seq<char> {
    seq!['n', 'u', 'l', 'l']
}

/// Relies on `String::push`: appends one character to the end of the string.
#[verifier::external_body]
pub fn push_char(out: &mut String, c: char)
    ensures
        final(out)@ == old(out)@.push(c),
{
    out.push(c);
}

/// Appends the character for one decimal digit.
fn push_digit(out: &mut String, d: u64)
    requires
        d < 10,
    ensures
        final(out)@ == old(out)@ + seq![digit_char(d as nat)],
{
    push_char(out, (0x30u8 + d as u8) as char);
    proof {
        assert(out@ =~= old(out)@ + seq![digit_char(d as nat)]);
    }
}

/// Appends the decimal digits of a natural number.
pub fn push_dec_u64(out: &mut String, n: u64)
    ensures
        final(out)@ == old(out)@ + dec_digits(n as nat),
    decreases n,
{
    if n < 10 {
        push_digit(out, n);
    } else {
        push_dec_u64(out, n / 10);
        push_digit(out, n % 10);
        proof {
            assert(out@ =~= old(out)@ + dec_digits(n as nat));
        }
    }
}

/// The magnitude of a negative signed integer, computed without overflow.
fn neg_magnitude(n: i64) -> (m: u64)
    requires
        n < 0,
    ensures
        m == -(n as int),
{
    ((-(n + 1)) as u64) + 1
}

/// Appends the decimal rendering of a signed integer.
pub fn push_dec_i64(out: &mut String, n: i64)
    ensures
        final(out)@ == old(out)@ + dec_int(n as int),
{
    if n >= 0 {
        push_dec_u64(out, n as u64);
    } else {
        push_char(out, '-');
        let m = neg_magnitude(n);
        push_dec_u64(out, m);
        proof {
            assert(out@ =~= old(out)@ + dec_int(n as int));
        }
    }
}

/// Appends the fixed-point rendering of a milli-unit magnitude.
pub fn push_milli_mag(out: &mut String, a: u64)
    ensures
        final(out)@ == old(out)@ + dec_milli_mag(a as nat),
{
    push_dec_u64(out, a / 1000);
    push_char(out, '.');
    push_digit(out, (a / 100) % 10);
    push_digit(out, (a / 10) % 10);
    push_digit(out, a % 10);
    proof {
        assert(out@ =~= old(out)@ + dec_milli_mag(a as nat));
    }
}

/// Appends the fixed-point rendering of a signed milli-unit quantity.
pub fn push_milli(out: &mut String, m: i64)
    ensures
        final(out)@ == old(out)@ + dec_milli(m as int),
{
    if m >= 0 {
        push_milli_mag(out, m as u64);
    } else {
        push_char(out, '-');
        let a = neg_magnitude(m);
        push_milli_mag(out, a);
        proof {
            assert(out@ =~= old(out)@ + dec_milli(m as int));
        }
    }
}

/// Appends the JSON `null` literal.
pub fn push_null(out: &mut String)
    ensures
        final(out)@ == old(out)@ + null_seq(),
{
    push_char(out, 'n');
    push_char(out, 'u');
    push_char(out, 'l');
    push_char(out, 'l');
    proof {
        assert(out@ =~= old(out)@ + null_seq());
    }
}

/// Appends the character for one hexadecimal digit.
fn push_hex_digit(out: &mut String, d: u32)
    requires
        d < 16,
    ensures
        final(out)@ == old(out)@ + seq![hex_char(d as nat)],
{
    let c: char = if d < 10 {
        (0x30u8 + d as u8) as char
    } else {
        (0x61u8 + (d as u8 - 10)) as char
    };
    push_char(out, c);
    proof {
        assert(out@ =~= old(out)@ + seq![hex_char(d as nat)]);
    }
}

/// Appends the JSON escape of one character.
fn push_esc_char(out: &mut String, c: char)
    ensures
        final(out)@ == old(out)@ + esc_char(c),
{
    if c == '"' {
        push_char(out, '\\');
        push_char(out, '"');
    } else if c == '\\' {
        push_char(out, '\\');
        push_char(out, '\\');
    } else if c == '\n' {
        push_char(out, '\\');
        push_char(out, 'n');
    } else if c == '\r' {
        push_char(out, '\\');
        push_char(out, 'r');
    } else if c == '\t' {
        push_char(out, '\\');
        push_char(out, 't');
    } else if (c as u32) < 0x20 {
        push_char(out, '\\');
        push_char(out, 'u');
        push_char(out, '0');
        push_char(out, '0');
        push_hex_digit(out, (c as u32) / 16);
        push_hex_digit(out, (c as u32) % 16);
    } else {
        push_char(out, c);
    }
    proof {
        assert(out@ =~= old(out)@ + esc_char(c));
    }
}

/// Appends the JSON escape of a whole string.
pub fn push_json_escaped(out: &mut String, s: &str)
    ensures
        final(out)@ == old(out)@ + json_escaped(s@),
{
    let n = s.unicode_len();
    let mut i: usize = 0;
    while i < n
        invariant
            n == s@.len(),
            i <= n,
            out@ == old(out)@ + json_escaped(s@.subrange(0, i as int)),
        decreases n - i,
    {
        let c = s.get_char(i);
        push_esc_char(out, c);
        proof {
            let pre = s@.subrange(0, i as int);
            let cur = s@.subrange(0, i + 1 as int);
            assert(cur.drop_last() =~= pre);
            assert(cur.last() == s@[i as int]);
            assert(out@ =~= old(out)@ + json_escaped(cur));
        }
        i = i + 1;
    }
    proof {
        assert(s@.subrange(0, n as int) =~= s@);
    }
}

/// Appends a JSON string literal: quote, escaped contents, quote.
pub fn push_json_string(out: &mut String, s: &str)
    ensures
        final(out)@ == old(out)@ + json_string(s@),
{
    push_char(out, '"');
    push_json_escaped(out, s);
    push_char(out, '"');
    proof {
        assert(out@ =~= old(out)@ + json_string(s@));
    }
}

} // verus!
