//! The characters that make up rendered output: decimal numbers and the
//! terminal control sequences for colour and cursor movement.

use vstd::prelude::*;

verus! {

/// `String::push` of the standard library appends one character to the end
/// of the string and leaves the characters before it as they were.
pub assume_specification[ String::push ](text: &mut String, c: char)
    ensures
        final(text)@ == old(text)@.push(c),
;

/// The character for a single decimal digit.
pub open spec fn digit_glyph(d: int) -> char
    recommends
        0 <= d < 10,
{
    ((48 + d) as u8) as char
}

/// A number written in decimal, without leading zeros.
pub open spec fn decimal_text(n: nat) -> Seq<char>
    decreases n,
{
    if n < 10 {
        seq![digit_glyph(n as int)]
    } else {
        decimal_text(n / 10).push(digit_glyph((n % 10) as int))
    }
}

/// The sequence that sets the foreground to a 24-bit colour:
/// `ESC [ 3 8 ; 2 ; r ; g ; b m`.
pub open spec fn color_escape(r: u8, g: u8, b: u8) -> Seq<char> {
    seq!['\u{1b}', '[', '3', '8', ';', '2', ';'] + decimal_text(r as nat) + seq![';']
        + decimal_text(g as nat) + seq![';'] + decimal_text(b as nat) + seq!['m']
}

/// The sequence that puts colours back to the terminal's own: `ESC [ 0 m`.
pub open spec fn reset_escape() -> Seq<char> {
    seq!['\u{1b}', '[', '0', 'm']
}

/// The sequence that moves the cursor to the top left: `ESC [ H`.
pub open spec fn home_escape() -> Seq<char> {
    seq!['\u{1b}', '[', 'H']
}

/// The sequence that clears the screen and then moves the cursor to the
/// top left: `ESC [ 2 J ESC [ H`.
pub open spec fn clear_escape() -> Seq<char> {
    seq!['\u{1b}', '[', '2', 'J'] + home_escape()
}

fn digit_char(d: u8) -> (c: char)
    requires
        d < 10,
    ensures
        c == digit_glyph(d as int),
{
    (48 + d) as char
}

/// Appends `n` in decimal.
pub fn push_decimal(out: &mut String, n: u8)
    ensures
        final(out)@ == old(out)@ + decimal_text(n as nat),
{
    proof {
        reveal_with_fuel(decimal_text, 3);
    }
    if n >= 100 {
        out.push(digit_char(n / 100));
    }
    if n >= 10 {
        out.push(digit_char((n / 10) % 10));
    }
    out.push(digit_char(n % 10));
    assert(out@ =~= old(out)@ + decimal_text(n as nat));
}

/// Appends the sequence that sets the foreground colour to `(r, g, b)`.
pub fn push_color_escape(out: &mut String, r: u8, g: u8, b: u8)
    ensures
        final(out)@ == old(out)@ + color_escape(r, g, b),
{
    out.push('\u{1b}');
    out.push('[');
    out.push('3');
    out.push('8');
    out.push(';');
    out.push('2');
    out.push(';');
    push_decimal(out, r);
    out.push(';');
    push_decimal(out, g);
    out.push(';');
    push_decimal(out, b);
    out.push('m');
    assert(out@ =~= old(out)@ + color_escape(r, g, b));
}

/// Appends the sequence that puts colours back to the terminal's own.
pub fn push_reset_escape(out: &mut String)
    ensures
        final(out)@ == old(out)@ + reset_escape(),
{
    out.push('\u{1b}');
    out.push('[');
    out.push('0');
    out.push('m');
    assert(out@ =~= old(out)@ + reset_escape());
}

/// The text that moves the cursor to the top left without clearing.
pub fn home_code() -> (code: String)
    ensures
        code@ == home_escape(),
{
    let mut code = String::new();
    code.push('\u{1b}');
    code.push('[');
    code.push('H');
    assert(code@ =~= home_escape());
    code
}

/// The text that clears the screen and moves the cursor to the top left.
pub fn clear_code() -> (code: String)
    ensures
        code@ == clear_escape(),
{
    let mut code = String::new();
    code.push('\u{1b}');
    code.push('[');
    code.push('2');
    code.push('J');
    code.push('\u{1b}');
    code.push('[');
    code.push('H');
    assert(code@ =~= clear_escape());
    code
}

} // verus!
