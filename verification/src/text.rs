//! Rendering of numbers and digests as text, for messages.

use vstd::prelude::*;
use vstd::string::StringExecFns;

verus! {

/// The character of a digit below 16, in lower case.
pub open spec fn spec_digit(d: int) -> char
    recommends
        0 <= d < 16,
{
    if d == 0 {
        '0'
    } else if d == 1 {
        '1'
    } else if d == 2 {
        '2'
    } else if d == 3 {
        '3'
    } else if d == 4 {
        '4'
    } else if d == 5 {
        '5'
    } else if d == 6 {
        '6'
    } else if d == 7 {
        '7'
    } else if d == 8 {
        '8'
    } else if d == 9 {
        '9'
    } else if d == 10 {
        'a'
    } else if d == 11 {
        'b'
    } else if d == 12 {
        'c'
    } else if d == 13 {
        'd'
    } else if d == 14 {
        'e'
    } else {
        'f'
    }
}

/// The one-character text of a digit below 16.
fn digit(d: u8) -> (s: &'static str)
    requires
        d < 16,
    ensures
        s@ == seq![spec_digit(d as int)],
{
    proof {
        reveal_strlit("0");
        reveal_strlit("1");
        reveal_strlit("2");
        reveal_strlit("3");
        reveal_strlit("4");
        reveal_strlit("5");
        reveal_strlit("6");
        reveal_strlit("7");
        reveal_strlit("8");
        reveal_strlit("9");
        reveal_strlit("a");
        reveal_strlit("b");
        reveal_strlit("c");
        reveal_strlit("d");
        reveal_strlit("e");
        reveal_strlit("f");
    }
    let s = if d == 0 {
        "0"
    } else if d == 1 {
        "1"
    } else if d == 2 {
        "2"
    } else if d == 3 {
        "3"
    } else if d == 4 {
        "4"
    } else if d == 5 {
        "5"
    } else if d == 6 {
        "6"
    } else if d == 7 {
        "7"
    } else if d == 8 {
        "8"
    } else if d == 9 {
        "9"
    } else if d == 10 {
        "a"
    } else if d == 11 {
        "b"
    } else if d == 12 {
        "c"
    } else if d == 13 {
        "d"
    } else if d == 14 {
        "e"
    } else {
        "f"
    };
    assert(s@ =~= seq![spec_digit(d as int)]);
    s
}

/// The decimal digits of a number, without leading zeros.
pub open spec fn spec_decimal(n: nat) -> Seq<char>
    decreases n,
{
    if n < 10 {
        seq![spec_digit(n as int)]
    } else {
        spec_decimal(n / 10) + seq![spec_digit((n % 10) as int)]
    }
}

/// Renders a number in decimal.
pub fn decimal(n: u32) -> (s: String)
    ensures
        s@ == spec_decimal(n as nat),
    decreases n,
{
    if n < 10 {
        String::from_str(digit(n as u8))
    } else {
        let mut s = decimal(n / 10);
        s.append(digit((n % 10) as u8));
        s
    }
}

/// The hexadecimal digits of a byte sequence, two to a byte, in lower case.
pub open spec fn spec_hex(bytes: Seq<u8>) -> Seq<char>
    decreases bytes.len(),
{
    if bytes.len() == 0 {
        Seq::empty()
    } else {
        spec_hex(bytes.drop_last()) + seq![spec_digit(bytes.last() as int / 16)] + seq![
            spec_digit(bytes.last() as int % 16),
        ]
    }
}

/// Renders a digest in hexadecimal.
pub fn hex(digest: &[u8; 20]) -> (s: String)
    ensures
        s@ == spec_hex(digest@),
{
    let mut s = String::new();
    let mut i: usize = 0;
    assert(digest@.take(0) =~= Seq::<u8>::empty());
    while i < 20
        invariant
            i <= 20,
            s@ == spec_hex(digest@.take(i as int)),
        decreases 20 - i,
    {
        let b: u8 = digest[i];
        proof {
            let upto = digest@.take(i + 1);
            assert(upto.drop_last() =~= digest@.take(i as int));
            assert(upto.last() == b);
        }
        s.append(digit(b / 16));
        s.append(digit(b % 16));
        i += 1;
    }
    assert(digest@.take(20) =~= digest@);
    s
}

/// Appends a character to a text with `String::push`.
///
/// Trusted: the text is then what it was, followed by the character.
#[verifier::external_body]
fn push_char(text: &mut String, c: char)
    ensures
        final(text)@ == old(text)@.push(c),
{
    text.push(c)
}

/// Whether the character with the code `b` is shown by its code: a control
/// character, a space that is not the plain one, or the soft hyphen.
pub open spec fn shown_by_code(b: u8) -> bool {
    b < 0x20 || (0x7f <= b <= 0xa0) || b == 0xad
}

/// The hexadecimal digits of a byte, without a leading zero.
pub open spec fn spec_code(b: u8) -> Seq<char> {
    if b < 16 {
        seq![spec_digit(b as int)]
    } else {
        seq![spec_digit(b as int / 16), spec_digit(b as int % 16)]
    }
}

/// How the character with the code `b` stands inside quotes: a short escape for
/// zero, tab, line feed, carriage return, the single quote and the backslash;
/// its code in `\u{..}` where it is shown by its code; the character itself
/// otherwise.
pub open spec fn spec_escaped(b: u8) -> Seq<char> {
    if b == 0 {
        "\\0"@
    } else if b == 0x09 {
        "\\t"@
    } else if b == 0x0a {
        "\\n"@
    } else if b == 0x0d {
        "\\r"@
    } else if b == 0x27 {
        "\\'"@
    } else if b == 0x5c {
        "\\\\"@
    } else if shown_by_code(b) {
        "\\u{"@ + spec_code(b) + "}"@
    } else {
        seq![b as char]
    }
}

/// A byte as a quoted character: the character with the byte as its code, as
/// the debug form of a character shows it, between single quotes.
pub open spec fn spec_quoted(b: u8) -> Seq<char> {
    "'"@ + spec_escaped(b) + "'"@
}

/// Appends to `text` how the character with the code `b` stands inside quotes.
fn append_escaped(text: &mut String, b: u8)
    ensures
        final(text)@ == old(text)@ + spec_escaped(b),
{
    if b == 0 {
        text.append("\\0");
    } else if b == 0x09 {
        text.append("\\t");
    } else if b == 0x0a {
        text.append("\\n");
    } else if b == 0x0d {
        text.append("\\r");
    } else if b == 0x27 {
        text.append("\\'");
    } else if b == 0x5c {
        text.append("\\\\");
    } else if b < 0x20 || (0x7f <= b && b <= 0xa0) || b == 0xad {
        let ghost before = text@;
        text.append("\\u{");
        if b >= 16 {
            text.append(digit(b / 16));
        }
        text.append(digit(b % 16));
        text.append("}");
        assert(text@ =~= before + ("\\u{"@ + spec_code(b) + "}"@));
    } else {
        let ghost before = text@;
        push_char(text, b as char);
        assert(text@ =~= before + seq![b as char]);
    }
}

/// Appends a byte to `text` as a quoted character.
pub fn append_quoted(text: &mut String, b: u8)
    ensures
        final(text)@ == old(text)@ + spec_quoted(b),
{
    let ghost before = text@;
    text.append("'");
    append_escaped(text, b);
    text.append("'");
    assert(text@ =~= before + spec_quoted(b));
}

} // verus!
