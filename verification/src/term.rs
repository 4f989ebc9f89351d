//! The terminal control surface: cursor save/restore, absolute
//! positioning, line clearing, cursor show, and the fixed highlight
//! palette.  Each escape sequence comes from the terminal crates through
//! one trusted wrapper whose contract states the exact bytes, so the
//! renderer's output is pinned down to the byte.

use vstd::prelude::*;

verus! {

/// The decimal digits of `n`, most significant first, as the standard
/// formatter writes them.
pub open spec fn dec_digits(n: int) -> Seq<char>
    decreases n,
{
    if n < 0 {
        Seq::empty()
    } else if n < 10 {
        seq![dec_digit(n)]
    } else {
        dec_digits(n / 10).push(dec_digit(n % 10))
    }
}

/// One decimal digit as a character.
pub open spec fn dec_digit(d: int) -> char {
    if d == 0 {
        '0'
    } else if d == 1 {
        '1'
    } else if d == 2 {
        '2'
    } else if d == 3 {
        '3'
    } else if d == 4 {
        '4'
    } else if d == 5 {
        '5'
    } else if d == 6 {
        '6'
    } else if d == 7 {
        '7'
    } else if d == 8 {
        '8'
    } else {
        '9'
    }
}

/// The absolute cursor-positioning sequence for column `x`, row `y`, both
/// one-based.
pub open spec fn esc_goto(x: u16, y: u16) -> Seq<char> {
    "\u{1b}["@ + dec_digits(y as int) + ";"@ + dec_digits(x as int) + "H"@
}

/// Relies on `termion::cursor::Goto`'s `Display`: writes `ESC [ y ; x H`.
/// The coordinates are one-based; `Goto(0, 0)` is rejected there.
#[verifier::external_body]
pub(crate) fn goto(x: u16, y: u16) -> (r: String)
    requires
        !(x == 0 && y == 0),
    ensures
        r@ == esc_goto(x, y),
{
    format!("{}", termion::cursor::Goto(x, y))
}

/// Relies on `termion::clear::CurrentLine`'s `Display`: writes `ESC [ 2K`.
#[verifier::external_body]
pub(crate) fn clear_line() -> (r: String)
    ensures
        r@ == "\u{1b}[2K"@,
{
    format!("{}", termion::clear::CurrentLine)
}

/// Relies on `termion::cursor::Save`'s `Display`: writes `ESC [ s`.
#[verifier::external_body]
pub(crate) fn cursor_save() -> (r: String)
    ensures
        r@ == "\u{1b}[s"@,
{
    format!("{}", termion::cursor::Save)
}

/// Relies on `termion::cursor::Restore`'s `Display`: writes `ESC [ u`.
#[verifier::external_body]
pub(crate) fn cursor_restore() -> (r: String)
    ensures
        r@ == "\u{1b}[u"@,
{
    format!("{}", termion::cursor::Restore)
}

/// Relies on `termion::cursor::Show`'s `Display`: writes `ESC [ ?25h`.
#[verifier::external_body]
pub(crate) fn cursor_show() -> (r: String)
    ensures
        r@ == "\u{1b}[?25h"@,
{
    format!("{}", termion::cursor::Show)
}

/// Relies on `termion::cursor::Left`'s `Display`: writes `ESC [ n D`.
/// Used with the largest step the renderer needs, to reach column one.
#[verifier::external_body]
pub(crate) fn cursor_far_left() -> (r: String)
    ensures
        r@ == "\u{1b}[1000D"@,
{
    format!("{}", termion::cursor::Left(1000))
}

/// Relies on `pastel_colours::DARK_GREY_BG` (termion `Bg<Rgb>` with
/// components 50, 50, 50) and termion's `Rgb::bg_string`, which builds
/// `ESC [ 48;2;50;50;50 m` unconditionally.
#[verifier::external_body]
pub(crate) fn bg_dark_grey() -> (r: String)
    ensures
        r@ == "\u{1b}[48;2;50;50;50m"@,
{
    pastel_colours::DARK_GREY_BG.0.bg_string()
}

/// Relies on `pastel_colours::DARK_BLUE_BG` (termion `Bg<Rgb>` with
/// components 13, 88, 138) and termion's `Rgb::bg_string`, which builds
/// `ESC [ 48;2;13;88;138 m` unconditionally.
#[verifier::external_body]
pub(crate) fn bg_dark_blue() -> (r: String)
    ensures
        r@ == "\u{1b}[48;2;13;88;138m"@,
{
    pastel_colours::DARK_BLUE_BG.0.bg_string()
}

/// Relies on `pastel_colours::RESET_BG` (termion `Bg<Reset>`; `Reset`
/// writes unconditionally): writes `ESC [ 49 m`.
#[verifier::external_body]
pub(crate) fn bg_reset() -> (r: String)
    ensures
        r@ == "\u{1b}[49m"@,
{
    format!("{}", pastel_colours::RESET_BG)
}

/// Relies on `pastel_colours::BLUE_FG` (termion `Fg<Rgb>` with components
/// 113, 190, 242) and termion's `Rgb::fg_string`, which builds
/// `ESC [ 38;2;113;190;242 m` unconditionally.
#[verifier::external_body]
pub(crate) fn fg_blue() -> (r: String)
    ensures
        r@ == "\u{1b}[38;2;113;190;242m"@,
{
    pastel_colours::BLUE_FG.0.fg_string()
}

/// Relies on `pastel_colours::DARK_GREY_FG` (termion `Fg<Rgb>` with
/// components 50, 50, 50) and termion's `Rgb::fg_string`, which builds
/// `ESC [ 38;2;50;50;50 m` unconditionally.
#[verifier::external_body]
pub(crate) fn fg_dark_grey() -> (r: String)
    ensures
        r@ == "\u{1b}[38;2;50;50;50m"@,
{
    pastel_colours::DARK_GREY_FG.0.fg_string()
}

/// Relies on `pastel_colours::GREEN_FG` (termion `Fg<Rgb>` with components
/// 168, 204, 140) and termion's `Rgb::fg_string`, which builds
/// `ESC [ 38;2;168;204;140 m` unconditionally.
#[verifier::external_body]
pub(crate) fn fg_green() -> (r: String)
    ensures
        r@ == "\u{1b}[38;2;168;204;140m"@,
{
    pastel_colours::GREEN_FG.0.fg_string()
}

/// Relies on `pastel_colours::RESET_FG` (termion `Fg<Reset>`; `Reset`
/// writes unconditionally): writes `ESC [ 39 m`.
#[verifier::external_body]
pub(crate) fn fg_reset() -> (r: String)
    ensures
        r@ == "\u{1b}[39m"@,
{
    format!("{}", pastel_colours::RESET_FG)
}

} // verus!
