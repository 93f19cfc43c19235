use vstd::prelude::*;

verus! {

/// The compositing modes a layer can be drawn with.
#[derive(Debug, Clone, Copy, PartialEq, Eq, Structural)]
pub enum BlendMode {
    Normal,
    Multiply,
    Darken,
    ColorBurn,
    Screen,
    Lighten,
    ColorDodge,
    Overlay,
    SoftLight,
    HardLight,
    Difference,
    Exclusion,
    Hue,
    Saturation,
    Color,
    Luminosity,
}

/// The CSS `mix-blend-mode` keyword of each mode.
pub open spec fn blend_keyword(m: BlendMode) -> Seq<char> {
    match m {
        BlendMode::Normal => "normal"@,
        BlendMode::Multiply => "multiply"@,
        BlendMode::Darken => "darken"@,
        BlendMode::ColorBurn => "color-burn"@,
        BlendMode::Screen => "screen"@,
        BlendMode::Lighten => "lighten"@,
        BlendMode::ColorDodge => "color-dodge"@,
        BlendMode::Overlay => "overlay"@,
        BlendMode::SoftLight => "soft-light"@,
        BlendMode::HardLight => "hard-light"@,
        BlendMode::Difference => "difference"@,
        BlendMode::Exclusion => "exclusion"@,
        BlendMode::Hue => "hue"@,
        BlendMode::Saturation => "saturation"@,
        BlendMode::Color => "color"@,
        BlendMode::Luminosity => "luminosity"@,
    }
}

impl BlendMode {
    /// The keyword under which SVG/CSS knows this compositing mode.
    pub fn to_svg_style_name(&self) -> (r: &'static str)
        ensures
            r@ == blend_keyword(*self),
    {
        match self {
            BlendMode::Normal => "normal",
            BlendMode::Multiply => "multiply",
            BlendMode::Darken => "darken",
            BlendMode::ColorBurn => "color-burn",
            BlendMode::Screen => "screen",
            BlendMode::Lighten => "lighten",
            BlendMode::ColorDodge => "color-dodge",
            BlendMode::Overlay => "overlay",
            BlendMode::SoftLight => "soft-light",
            BlendMode::HardLight => "hard-light",
            BlendMode::Difference => "difference",
            BlendMode::Exclusion => "exclusion",
            BlendMode::Hue => "hue",
            BlendMode::Saturation => "saturation",
            BlendMode::Color => "color",
            BlendMode::Luminosity => "luminosity",
        }
    }
}

} // verus!
