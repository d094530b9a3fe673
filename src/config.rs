//! Settings read at start-up: the access token and the highlight colour.
use vstd::prelude::*;

use crate::text::{
    label_parts, lemma_label_parts_nonempty, parse_unsigned, parsed_unsigned, split_labels,
    texts_view,
};

verus! {

/// A colour the interface draws with.
#[derive(Clone, Copy, Debug, PartialEq, Eq, Structural)]
pub enum Color {
    White,
    Rgb(u8, u8, u8),
}

/// The settings as they are written: the colour is text such as `210, 39, 48`.
#[derive(Clone, Debug, PartialEq, Eq)]
pub struct RawConfig {
    pub token: String,
    pub color: String,
}

#[derive(Clone, Debug, PartialEq, Eq)]
pub struct Config {
    pub token: String,
    pub color: Color,
}

/// One colour channel: an unsigned number of at most 255.
pub open spec fn channel_of(part: Seq<char>) -> Option<u8> {
    match parsed_unsigned(part) {
        Some(v) => if v <= 255 {
            Some(v as u8)
        } else {
            None
        },
        None => None,
    }
}

/// The colour written as comma-separated red, green and blue channels
/// (spaces ignored, parts after the third ignored), if the text is one.
pub open spec fn color_of(text: Seq<char>) -> Option<Color> {
    let parts = label_parts(text);
    if parts.len() >= 3 && channel_of(parts[0]) is Some && channel_of(parts[1]) is Some
        && channel_of(parts[2]) is Some {
        Some(
            Color::Rgb(
                channel_of(parts[0]).unwrap(),
                channel_of(parts[1]).unwrap(),
                channel_of(parts[2]).unwrap(),
            ),
        )
    } else {
        None
    }
}

fn parse_channel(part: &String) -> (r: Option<u8>)
    ensures
        r == channel_of(part@),
{
    match parse_unsigned(part.as_str()) {
        Some(v) => if v <= 255 {
            Some(v as u8)
        } else {
            None
        },
        None => None,
    }
}

/// Reads a colour written as `red, green, blue`.
pub fn parse_color(text: &str) -> (r: Option<Color>)
    ensures
        r == color_of(text@),
{
    let parts = split_labels(text);
    proof {
        lemma_label_parts_nonempty(text@);
        assert(texts_view(parts@)[0] == parts@[0]@);
        if parts@.len() >= 3 {
            assert(texts_view(parts@)[1] == parts@[1]@);
            assert(texts_view(parts@)[2] == parts@[2]@);
        }
    }
    if parts.len() < 3 {
        return None;
    }
    let red = parse_channel(&parts[0]);
    let green = parse_channel(&parts[1]);
    let blue = parse_channel(&parts[2]);
    match (red, green, blue) {
        (Some(r), Some(g), Some(b)) => Some(Color::Rgb(r, g, b)),
        _ => None,
    }
}

impl Config {
    /// The settings with their colour read; the colour text must be one.
    pub fn new(config: RawConfig) -> (r: Config)
        requires
            color_of(config.color@) is Some,
        ensures
            r.token == config.token,
            Some(r.color) == color_of(config.color@),
    {
        let color = match parse_color(config.color.as_str()) {
            Some(c) => c,
            None => vstd::pervasive::unreached(),
        };
        Config { token: config.token, color }
    }
}

} // verus!
