//! Text building blocks shared by diagnostics.

use vstd::prelude::*;

verus! {

/// The decimal digit character for `d`.
pub open spec fn digit_char(d: nat) -> char {
    if d == 0 {
        '0'
    } else if d == 1 {
        '1'
    } else if d == 2 {
        '2'
    } else if d == 3 {
        '3'
    } else if d == 4 {
        '4'
    } else if d == 5 {
        '5'
    } else if d == 6 {
        '6'
    } else if d == 7 {
        '7'
    } else if d == 8 {
        '8'
    } else {
        '9'
    }
}

/// The decimal text of `n`, without leading zeros.
pub open spec fn decimal(n: nat) -> Seq<char>
    decreases n,
{
    if n < 10 {
        seq![digit_char(n)]
    } else {
        decimal(n / 10).push(digit_char(n % 10))
    }
}

fn digit_text(d: u64) -> (text: &'static str)
    requires
        d < 10,
    ensures
        text@ == seq![digit_char(d as nat)],
{
    proof {
        reveal_strlit("0");
        reveal_strlit("1");
        reveal_strlit("2");
        reveal_strlit("3");
        reveal_strlit("4");
        reveal_strlit("5");
        reveal_strlit("6");
        reveal_strlit("7");
        reveal_strlit("8");
        reveal_strlit("9");
    }
    if d == 0 {
        "0"
    } else if d == 1 {
        "1"
    } else if d == 2 {
        "2"
    } else if d == 3 {
        "3"
    } else if d == 4 {
        "4"
    } else if d == 5 {
        "5"
    } else if d == 6 {
        "6"
    } else if d == 7 {
        "7"
    } else if d == 8 {
        "8"
    } else {
        "9"
    }
}

/// Appends the decimal text of `n`.
pub fn push_decimal(text: &mut String, n: u64)
    ensures
        final(text)@ == old(text)@ + decimal(n as nat),
    decreases n,
{
    if n >= 10 {
        push_decimal(text, n / 10);
        let d: u64 = n % 10;
        let piece = digit_text(d);
        text.append(piece);
        assert(decimal(n as nat) == decimal((n / 10) as nat).push(digit_char(d as nat)));
        assert(old(text)@ + decimal(n as nat) =~= old(text)@ + decimal((n / 10) as nat) + piece@);
    } else {
        let piece = digit_text(n);
        text.append(piece);
    }
}


/// The lower-case hexadecimal digit text for `d`.
pub open spec fn hex_digit_text(d: nat) -> Seq<char> {
    if d < 10 {
        seq![digit_char(d)]
    } else if d == 10 {
        "a"@
    } else if d == 11 {
        "b"@
    } else if d == 12 {
        "c"@
    } else if d == 13 {
        "d"@
    } else if d == 14 {
        "e"@
    } else {
        "f"@
    }
}

/// The lower-case hexadecimal text of a code below 256, without leading zeros.
pub open spec fn small_hex(code: nat) -> Seq<char> {
    if code < 16 {
        hex_digit_text(code)
    } else {
        hex_digit_text(code / 16) + hex_digit_text(code % 16)
    }
}

/// How a string's debug form writes the character `c`: quotes, backslashes
/// and control characters are escaped, every other character stands as it is.
pub open spec fn escaped_char(c: char) -> Seq<char> {
    if c == '"' {
        "\\\""@
    } else if c == '\\' {
        "\\\\"@
    } else if c == '\n' {
        "\\n"@
    } else if c == '\r' {
        "\\r"@
    } else if c == '\t' {
        "\\t"@
    } else if c == '\0' {
        "\\0"@
    } else if (c as u32) < 32 || (c as u32) == 127 {
        "\\u{"@ + small_hex(c as u32 as nat) + "}"@
    } else {
        seq![c]
    }
}

/// The text between the quotes of a string's debug form.
pub open spec fn escaped(text: Seq<char>) -> Seq<char>
    decreases text.len(),
{
    if text.len() == 0 {
        Seq::empty()
    } else {
        escaped(text.drop_last()) + escaped_char(text.last())
    }
}

fn hex_digit(d: u32) -> (text: &'static str)
    requires
        d < 16,
    ensures
        text@ == hex_digit_text(d as nat),
{
    if d < 10 {
        digit_text(d as u64)
    } else if d == 10 {
        "a"
    } else if d == 11 {
        "b"
    } else if d == 12 {
        "c"
    } else if d == 13 {
        "d"
    } else if d == 14 {
        "e"
    } else {
        "f"
    }
}

/// Appends how a string's debug form writes the character at `index` of `source`.
fn push_escaped_char(text: &mut String, source: &str, index: usize)
    requires
        index < source@.len() <= usize::MAX,
    ensures
        final(text)@ == old(text)@ + escaped_char(source@[index as int]),
{
    let c = source.get_char(index);
    let code: u32 = c as u32;
    if c == '"' {
        text.append("\\\"");
    } else if c == '\\' {
        text.append("\\\\");
    } else if c == '\n' {
        text.append("\\n");
    } else if c == '\r' {
        text.append("\\r");
    } else if c == '\t' {
        text.append("\\t");
    } else if c == '\0' {
        text.append("\\0");
    } else if code < 32 || code == 127 {
        text.append("\\u{");
        if code >= 16 {
            text.append(hex_digit(code / 16));
            text.append(hex_digit(code % 16));
        } else {
            text.append(hex_digit(code));
        }
        text.append("}");
        assert(final(text)@ =~= old(text)@ + escaped_char(c));
    } else {
        let piece = source.substring_char(index, index + 1);
        text.append(piece);
        assert(piece@ =~= seq![c]);
    }
}

/// Returns the text between the quotes of `source`'s debug form.
pub fn escape(source: &str) -> (text: String)
    ensures
        text@ == escaped(source@),
{
    let n = source.unicode_len();
    let mut text = String::new();
    let mut i: usize = 0;
    assert(source@.subrange(0, 0) =~= Seq::<char>::empty());
    while i < n
        invariant
            i <= n,
            n == source@.len(),
            text@ == escaped(source@.subrange(0, i as int)),
        decreases n - i,
    {
        push_escaped_char(&mut text, source, i);
        assert(source@.subrange(0, i + 1).drop_last() =~= source@.subrange(0, i as int));
        i = i + 1;
    }
    assert(source@.subrange(0, n as int) =~= source@);
    text
}

} // verus!
