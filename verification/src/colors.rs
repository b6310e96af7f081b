//! Accent and theme colours.
//!
//! Colour strings in the configuration use CSS colour syntax and are parsed
//! by the `color` crate; the launcher only keeps the resulting 8-bit sRGB
//! triple. The optional theme text colour is forgiving: when it fails to
//! parse, the default theme stands.

use vstd::prelude::*;

verus! {

/// What the CSS colour parser yields for a given string: the 8-bit sRGB
/// triple, or nothing when the string is not a colour. The result depends
/// on the string alone.
pub uninterp spec fn css_color(s: Seq<char>) -> Option<(u8, u8, u8)>;

/// Relies on `color::parse_color` and `DynamicColor::to_alpha_color::<Srgb>`
/// with `AlphaColor::to_rgba8`: parsing a CSS colour string and converting
/// it to 8-bit sRGB is a function of the string alone.
#[verifier::external_body]
pub(crate) fn parse_css_color(s: &str) -> (r: Option<(u8, u8, u8)>)
    ensures
        r == css_color(s@),
{
    match color::parse_color(s) {
        Ok(c) => {
            let rgba = c.to_alpha_color::<color::Srgb>().to_rgba8();
            Some((rgba.r, rgba.g, rgba.b))
        },
        Err(_) => None,
    }
}

/// The theme override for the text colour: the parsed triple when a colour
/// string is configured and parses, and `None` — keep the default theme —
/// when none is configured or it fails to parse.
pub fn theme_color(text_color: &Option<String>) -> (r: Option<(u8, u8, u8)>)
    ensures
        r == match *text_color {
            Option::None => Option::<(u8, u8, u8)>::None,
            Option::Some(s) => css_color(s@),
        },
{
    match text_color {
        None => None,
        Some(s) => parse_css_color(s.as_str()),
    }
}

} // verus!
