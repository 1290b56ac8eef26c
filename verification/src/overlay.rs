//! What the overlay window is made with: its extended window style, with or
//! without click-through, and its class name as a NUL-terminated UTF-16
//! string.

use vstd::prelude::*;

verus! {

/// Extended window style bit of a layered window.
pub const WS_EX_LAYERED: u32 = 0x0008_0000;

/// Extended window style bit of a window that stays above all others.
pub const WS_EX_TOPMOST: u32 = 0x0000_0008;

/// Extended window style bit of a window that never becomes the foreground
/// window when clicked.
pub const WS_EX_NOACTIVATE: u32 = 0x0800_0000;

/// Extended window style bit of a window that mouse input passes through.
pub const WS_EX_TRANSPARENT: u32 = 0x0000_0020;

/// The extended style the overlay window is created with: layered, topmost,
/// never activated, and transparent to the mouse when `click_through`.
pub open spec fn overlay_style(click_through: bool) -> u32 {
    if click_through {
        WS_EX_LAYERED | WS_EX_TOPMOST | WS_EX_NOACTIVATE | WS_EX_TRANSPARENT
    } else {
        WS_EX_LAYERED | WS_EX_TOPMOST | WS_EX_NOACTIVATE
    }
}

/// The extended style the overlay window is created with.
pub fn overlay_ex_style(click_through: bool) -> (style: u32)
    ensures
        style == overlay_style(click_through),
{
    let mut ex_style = WS_EX_LAYERED | WS_EX_TOPMOST | WS_EX_NOACTIVATE;
    if click_through {
        ex_style = ex_style | WS_EX_TRANSPARENT;
    }
    ex_style
}

/// An extended window style `style` with mouse input passing through the
/// window (`enabled`) or not.
pub open spec fn with_click_through(style: u32, enabled: bool) -> u32 {
    if enabled {
        style | WS_EX_TRANSPARENT
    } else {
        style & !WS_EX_TRANSPARENT
    }
}

/// The extended style of a window whose style is `style`, once mouse input
/// passes through it (`enabled`) or no longer does.
pub fn click_through_style(style: u32, enabled: bool) -> (new_style: u32)
    ensures
        new_style == with_click_through(style, enabled),
{
    if enabled {
        style | WS_EX_TRANSPARENT
    } else {
        style & !WS_EX_TRANSPARENT
    }
}

/// Switching click-through changes the transparent bit of a window style and
/// no other bit.
pub proof fn law_click_through_changes_one_bit(style: u32, enabled: bool)
    ensures
        (with_click_through(style, enabled) & WS_EX_TRANSPARENT != 0) == enabled,
        with_click_through(style, enabled) & !WS_EX_TRANSPARENT == style & !WS_EX_TRANSPARENT,
{
    let t = WS_EX_TRANSPARENT;
    assert(t == 0x20u32);
    assert(((style | t) & t != 0) && ((style & !t) & t == 0)) by (bit_vector)
        requires
            t == 0x20u32,
    ;
    assert(((style | t) & !t == style & !t) && ((style & !t) & !t == style & !t)) by (bit_vector);
}

/// Switching click-through on a window made with or without it gives the
/// style the window would have been made with in the new setting.
pub proof fn law_click_through_matches_creation(created_with: bool, enabled: bool)
    ensures
        with_click_through(overlay_style(created_with), enabled) == overlay_style(enabled),
{
    assert(with_click_through(overlay_style(true), true) == overlay_style(true)) by (bit_vector);
    assert(with_click_through(overlay_style(true), false) == overlay_style(false)) by (bit_vector);
    assert(with_click_through(overlay_style(false), true) == overlay_style(true)) by (bit_vector);
    assert(with_click_through(overlay_style(false), false) == overlay_style(false)) by (bit_vector);
}

/// The UTF-16 code units of a character.
pub open spec fn utf16_units(c: char) -> Seq<u16> {
    let v = c as u32;
    if v < 0x10000 {
        seq![v as u16]
    } else {
        let u = (v - 0x10000) as u32;
        seq![(0xD800u32 + (u >> 10u32)) as u16, (0xDC00u32 + (u & 0x3FFu32)) as u16]
    }
}

/// The UTF-16 encoding of a sequence of characters.
pub open spec fn utf16_of(s: Seq<char>) -> Seq<u16>
    decreases s.len(),
{
    if s.len() == 0 {
        Seq::empty()
    } else {
        utf16_of(s.drop_last()) + utf16_units(s.last())
    }
}

/// A string as UTF-16 code units followed by a terminating NUL, the form
/// that wide-character system calls take.
pub fn to_wide(value: &str) -> (wide: Vec<u16>)
    ensures
        wide@ == utf16_of(value@).push(0u16),
{
    broadcast use vstd::string::group_string_axioms;

    let mut wide: Vec<u16> = Vec::new();
    let ghost chars = value@;
    for c in it: value.chars()
        invariant
            it.seq() == chars,
            wide@ == utf16_of(chars.take(it.index() as int)),
    {
        let ghost k = it.index() as int;
        let v = c as u32;
        proof {
            vstd::utf8::char_is_scalar(c);
        }
        if v < 0x10000 {
            wide.push(v as u16);
        } else {
            let u = v - 0x10000;
            assert((u >> 10u32) < 0x400u32 && (u & 0x3FFu32) < 0x400u32) by (bit_vector)
                requires
                    u < 0x10_0000u32,
            ;
            wide.push((0xD800u32 + (u >> 10u32)) as u16);
            wide.push((0xDC00u32 + (u & 0x3FFu32)) as u16);
        }
        assert(chars.take(k + 1).drop_last() =~= chars.take(k));
        assert(wide@ =~= utf16_of(chars.take(k + 1)));
    }
    assert(chars.take(chars.len() as int) =~= chars);
    wide.push(0);
    wide
}

} // verus!
