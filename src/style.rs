//! Paint of a path: an optional fill and an optional stroke.
use vstd::prelude::*;
use vstd::string::*;
use crate::markup::{hex_byte, decimal, push_hex_byte, push_decimal};

verus! {

/// An RGBA color, one byte per channel.
#[derive(Debug, Clone, Copy, PartialEq, Eq, Structural)]
pub struct Color {
    pub r: u8,
    pub g: u8,
    pub b: u8,
    pub a: u8,
}

/// The outline paint of a path and its width in document units.
#[derive(Debug, Clone, Copy, PartialEq, Eq, Structural)]
pub struct Stroke {
    pub color: Color,
    pub width: u32,
}

/// How a primitive is painted.
#[derive(Debug, Clone, Copy, PartialEq, Eq, Structural)]
pub struct PathStyle {
    pub stroke: Option<Stroke>,
    pub fill: Option<Color>,
}

/// `#rrggbbaa`.
pub open spec fn color_text(c: Color) -> Seq<char> {
    seq!['#'] + hex_byte(c.r) + hex_byte(c.g) + hex_byte(c.b) + hex_byte(c.a)
}

/// The SVG attributes of a style, each preceded by a space.
pub open spec fn style_attributes(s: PathStyle) -> Seq<char> {
    let fill = match s.fill {
        Some(c) => " fill=\""@ + color_text(c) + "\""@,
        None => " fill=\"none\""@,
    };
    let stroke = match s.stroke {
        Some(st) => " stroke=\""@ + color_text(st.color) + "\" stroke-width=\""@ + decimal(
            st.width as nat,
        ) + "\""@,
        None => Seq::empty(),
    };
    fill + stroke
}

impl Color {
    pub fn new(r: u8, g: u8, b: u8, a: u8) -> (c: Color)
        ensures
            c == (Color { r, g, b, a }),
    {
        Color { r, g, b, a }
    }

    /// Appends `#rrggbbaa`.
    pub fn render_on(&self, s: &mut String)
        ensures
            final(s)@ == old(s)@ + color_text(*self),
    {
        s.append("#");
        push_hex_byte(s, self.r);
        push_hex_byte(s, self.g);
        push_hex_byte(s, self.b);
        push_hex_byte(s, self.a);
        proof { reveal_strlit("#"); }
        assert(final(s)@ =~= old(s)@ + color_text(*self));
    }
}

impl PathStyle {
    pub fn new(stroke: Option<Stroke>, fill: Option<Color>) -> (r: PathStyle)
        ensures
            r == (PathStyle { stroke, fill }),
    {
        PathStyle { stroke, fill }
    }

    /// Appends the style's SVG attributes.
    pub fn render_on(&self, s: &mut String)
        ensures
            final(s)@ == old(s)@ + style_attributes(*self),
    {
        let ghost s0 = s@;
        match self.fill {
            Some(c) => {
                s.append(" fill=\"");
                c.render_on(s);
                s.append("\"");
            },
            None => {
                s.append(" fill=\"none\"");
            },
        }
        let ghost s1 = s@;
        match self.stroke {
            Some(st) => {
                s.append(" stroke=\"");
                st.color.render_on(s);
                s.append("\" stroke-width=\"");
                push_decimal(s, st.width);
                s.append("\"");
            },
            None => {},
        }
        assert(final(s)@ =~= old(s)@ + style_attributes(*self));
    }
}

} // verus!
