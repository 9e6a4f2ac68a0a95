//! Terminal color tiers and the escape sequences that each tier uses.

use vstd::prelude::*;
use rand::Rng;
use crate::text::{chars_contain, chars_equal, chars_of, decimal, occurs_in, push_decimal};

verus! {

/// How many colors the output terminal can render.
#[derive(Clone, Copy, Debug, PartialEq, Eq, Structural)]
pub enum ColorSupportLevel {
    NoColor,
    BasicColor,
    Color256,
    Color16,
    TrueColor,
}

/// The value that `TERM` is taken to have when it is unset.
pub open spec fn term_or_dumb(term: Option<&str>) -> Seq<char> {
    match term {
        Some(t) => t@,
        None => "dumb"@,
    }
}

/// `COLORTERM` announces 24-bit color.
pub open spec fn announces_truecolor(colorterm: Option<&str>) -> bool {
    match colorterm {
        Some(c) => c@ == "truecolor"@ || c@ == "24bit"@,
        None => false,
    }
}

/// The tier of a terminal whose `TERM` and `COLORTERM` settings are `term`
/// and `colorterm`; the most capable tier that applies wins.
pub open spec fn support_level_of(term: Option<&str>, colorterm: Option<&str>) -> ColorSupportLevel {
    let t = term_or_dumb(term);
    if announces_truecolor(colorterm) {
        ColorSupportLevel::TrueColor
    } else if occurs_in("256color"@, t) {
        ColorSupportLevel::Color256
    } else if occurs_in("16color"@, t) {
        ColorSupportLevel::Color16
    } else if t != "dumb"@ && (occurs_in("color"@, t) || colorterm is Some) {
        ColorSupportLevel::BasicColor
    } else {
        ColorSupportLevel::NoColor
    }
}

/// The `TERM` setting, with an unset one read as `dumb`.
fn term_chars(term: Option<&str>) -> (r: Vec<char>)
    ensures
        r@ == term_or_dumb(term),
{
    match term {
        Some(t) => chars_of(t),
        None => chars_of("dumb"),
    }
}

/// Whether the terminal renders color at all: `TERM` is not `dumb`, and it
/// mentions color or `COLORTERM` is set.
fn supports_colors(term: Option<&str>, colorterm: Option<&str>) -> (r: bool)
    ensures
        r == (term_or_dumb(term) != "dumb"@ && (occurs_in("color"@, term_or_dumb(term))
            || colorterm is Some)),
{
    let t = term_chars(term);
    !chars_equal(&t, &chars_of("dumb")) && (chars_contain(&t, &chars_of("color")) || colorterm.is_some())
}

/// Whether `TERM` announces the 256-color palette.
fn supports_256_colors(term: Option<&str>) -> (r: bool)
    ensures
        r == occurs_in("256color"@, term_or_dumb(term)),
{
    chars_contain(&term_chars(term), &chars_of("256color"))
}

/// Whether `TERM` announces 16 colors.
fn supports_16_colors(term: Option<&str>) -> (r: bool)
    ensures
        r == occurs_in("16color"@, term_or_dumb(term)),
{
    chars_contain(&term_chars(term), &chars_of("16color"))
}

/// Whether `COLORTERM` announces 24-bit color.
fn supports_24bit_colors(colorterm: Option<&str>) -> (r: bool)
    ensures
        r == announces_truecolor(colorterm),
{
    match colorterm {
        Some(c) => {
            let cs = chars_of(c);
            chars_equal(&cs, &chars_of("truecolor")) || chars_equal(&cs, &chars_of("24bit"))
        },
        None => false,
    }
}

/// Classifies the terminal from its `TERM` and `COLORTERM` settings
/// (`None` for an unset variable).
pub fn get_color_support_level(term: Option<&str>, colorterm: Option<&str>) -> (r: ColorSupportLevel)
    ensures
        r == support_level_of(term, colorterm),
{
    if supports_24bit_colors(colorterm) {
        ColorSupportLevel::TrueColor
    } else if supports_256_colors(term) {
        ColorSupportLevel::Color256
    } else if supports_16_colors(term) {
        ColorSupportLevel::Color16
    } else if supports_colors(term, colorterm) {
        ColorSupportLevel::BasicColor
    } else {
        ColorSupportLevel::NoColor
    }
}

/// The draws `a`, `b`, `c` are in the ranges that `level` draws from:
/// three channels in 0..=255 for 24-bit color, two factors in 1..=16 for the
/// 256-color palette, one basic color in 1..=7 otherwise.
pub open spec fn draws_fit(level: ColorSupportLevel, a: u32, b: u32, c: u32) -> bool {
    match level {
        ColorSupportLevel::TrueColor => a <= 255 && b <= 255 && c <= 255,
        ColorSupportLevel::Color256 => 1 <= a <= 16 && 1 <= b <= 16,
        ColorSupportLevel::Color16 | ColorSupportLevel::BasicColor => 1 <= a <= 7,
        ColorSupportLevel::NoColor => true,
    }
}

/// The foreground escape sequence that `level` encodes from the draws.
pub open spec fn color_text(level: ColorSupportLevel, a: u32, b: u32, c: u32) -> Seq<char> {
    match level {
        ColorSupportLevel::TrueColor => "\x1b[38;2;"@ + decimal(a as nat) + ";"@ + decimal(b as nat)
            + ";"@ + decimal(c as nat) + "m"@,
        ColorSupportLevel::Color256 => "\x1b[38;5;"@ + decimal((a * b) as nat) + "m"@,
        ColorSupportLevel::Color16 | ColorSupportLevel::BasicColor => "\x1b[3"@ + decimal(a as nat)
            + "m"@,
        ColorSupportLevel::NoColor => Seq::<char>::empty(),
    }
}

/// `s` is a color that `level` can assign.
pub open spec fn is_color_for(level: ColorSupportLevel, s: Seq<char>) -> bool {
    exists|a: u32, b: u32, c: u32| draws_fit(level, a, b, c) && s == #[trigger] color_text(level, a, b, c)
}

/// Relies on rand's `thread_rng().gen_range(low..=high)`: a value of the
/// inclusive range; it panics on an empty range, which `requires` leaves out.
#[verifier::external_body]
fn random_between(low: u32, high: u32) -> (r: u32)
    requires
        low <= high,
    ensures
        low <= r <= high,
{
    rand::thread_rng().gen_range(low..=high)
}

/// Encodes the escape sequence of `level` from the draws `a`, `b`, `c`.
pub fn color_sequence(level: ColorSupportLevel, a: u32, b: u32, c: u32) -> (r: String)
    ensures
        r@ == color_text(level, a, b, c),
{
    match level {
        ColorSupportLevel::TrueColor => {
            let mut s = String::from_str("\x1b[38;2;");
            push_decimal(&mut s, a as u128);
            s.append(";");
            push_decimal(&mut s, b as u128);
            s.append(";");
            push_decimal(&mut s, c as u128);
            s.append("m");
            s
        },
        ColorSupportLevel::Color256 => {
            let mut s = String::from_str("\x1b[38;5;");
            proof {
                assert((a as u64) * (b as u64) <= 0xffff_ffffu64 * 0xffff_ffffu64) by (nonlinear_arith)
                    requires
                        a <= 0xffff_ffffu32,
                        b <= 0xffff_ffffu32,
                ;
            }
            push_decimal(&mut s, (a as u64 * b as u64) as u128);
            s.append("m");
            s
        },
        ColorSupportLevel::Color16 | ColorSupportLevel::BasicColor => {
            let mut s = String::from_str("\x1b[3");
            push_decimal(&mut s, a as u128);
            s.append("m");
            s
        },
        ColorSupportLevel::NoColor => String::new(),
    }
}

/// Picks a random color of the tier `level`.
pub fn get_ansi_color_sequence(level: ColorSupportLevel) -> (r: String)
    ensures
        is_color_for(level, r@),
{
    let (a, b, c) = match level {
        ColorSupportLevel::TrueColor => (
            random_between(0, 255),
            random_between(0, 255),
            random_between(0, 255),
        ),
        ColorSupportLevel::Color256 => (random_between(1, 16), random_between(1, 16), 0),
        ColorSupportLevel::Color16 | ColorSupportLevel::BasicColor => (random_between(1, 7), 0, 0),
        ColorSupportLevel::NoColor => (0, 0, 0),
    };
    let r = color_sequence(level, a, b, c);
    assert(draws_fit(level, a, b, c));
    r
}

} // verus!
