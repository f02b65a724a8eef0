//! The colour palette of a theme, decoded from packed colour codes.
use vstd::prelude::*;
use crate::color::{hex, lemma_hex_of_pack, spec_hex, Rgba8};

verus! {

// The packed `0xRRGGBBAA` codes of the violet dark palette.
pub const VIOLET_BG: u32 = 0x0D0B14FF;
pub const VIOLET_SURFACE: u32 = 0x16132AFF;
pub const VIOLET_SURFACE_RAISED: u32 = 0x1F1B38FF;
pub const VIOLET_PRIMARY: u32 = 0x7C3AEDFF;
pub const VIOLET_PRIMARY_HOVER: u32 = 0x6D28D9FF;
pub const VIOLET_PRIMARY_PRESS: u32 = 0x5B21B6FF;
pub const VIOLET_TEXT: u32 = 0xF3F0FFFF;
pub const VIOLET_TEXT_MUTED: u32 = 0x9D8FC2FF;
pub const VIOLET_BORDER: u32 = 0x3B2F6EFF;

/// The role a colour plays in a theme; widgets name a role and the theme
/// supplies the colour.
#[derive(Clone, Copy, Debug, PartialEq, Eq, Structural)]
pub enum ColorRole {
    Bg,
    Surface,
    SurfaceRaised,
    Primary,
    PrimaryHover,
    PrimaryPress,
    Text,
    TextMuted,
    Border,
}

/// Which of a theme's two font sizes a text uses.
#[derive(Clone, Copy, Debug, PartialEq, Eq, Structural)]
pub enum FontRole {
    /// The body size.
    Normal,
    /// The smaller size.
    Small,
}

/// The colours of a theme, one for each [`ColorRole`].
#[derive(Clone, Copy, Debug, PartialEq, Eq, Structural)]
pub struct Palette {
    pub bg: Rgba8,
    pub surface: Rgba8,
    pub surface_raised: Rgba8,
    pub primary: Rgba8,
    pub primary_hover: Rgba8,
    pub primary_press: Rgba8,
    pub text: Rgba8,
    pub text_muted: Rgba8,
    pub border: Rgba8,
}

/// The packed code of each role in the violet dark palette.
pub open spec fn violet_code(role: ColorRole) -> u32 {
    match role {
        ColorRole::Bg => VIOLET_BG,
        ColorRole::Surface => VIOLET_SURFACE,
        ColorRole::SurfaceRaised => VIOLET_SURFACE_RAISED,
        ColorRole::Primary => VIOLET_PRIMARY,
        ColorRole::PrimaryHover => VIOLET_PRIMARY_HOVER,
        ColorRole::PrimaryPress => VIOLET_PRIMARY_PRESS,
        ColorRole::Text => VIOLET_TEXT,
        ColorRole::TextMuted => VIOLET_TEXT_MUTED,
        ColorRole::Border => VIOLET_BORDER,
    }
}

impl Palette {
    /// The colour that the palette gives a role.
    pub open spec fn spec_color(self, role: ColorRole) -> Rgba8 {
        match role {
            ColorRole::Bg => self.bg,
            ColorRole::Surface => self.surface,
            ColorRole::SurfaceRaised => self.surface_raised,
            ColorRole::Primary => self.primary,
            ColorRole::PrimaryHover => self.primary_hover,
            ColorRole::PrimaryPress => self.primary_press,
            ColorRole::Text => self.text,
            ColorRole::TextMuted => self.text_muted,
            ColorRole::Border => self.border,
        }
    }

    /// The violet dark palette, the default look of the toolkit.
    pub fn violet_dark() -> (p: Palette)
        ensures
            forall|role: ColorRole| #[trigger] p.spec_color(role) == spec_hex(violet_code(role)),
    {
        Palette {
            bg: hex(VIOLET_BG),
            surface: hex(VIOLET_SURFACE),
            surface_raised: hex(VIOLET_SURFACE_RAISED),
            primary: hex(VIOLET_PRIMARY),
            primary_hover: hex(VIOLET_PRIMARY_HOVER),
            primary_press: hex(VIOLET_PRIMARY_PRESS),
            text: hex(VIOLET_TEXT),
            text_muted: hex(VIOLET_TEXT_MUTED),
            border: hex(VIOLET_BORDER),
        }
    }

    /// The colour that the palette gives a role.
    pub fn color(&self, role: ColorRole) -> (c: Rgba8)
        ensures
            c == self.spec_color(role),
    {
        match role {
            ColorRole::Bg => self.bg,
            ColorRole::Surface => self.surface,
            ColorRole::SurfaceRaised => self.surface_raised,
            ColorRole::Primary => self.primary,
            ColorRole::PrimaryHover => self.primary_hover,
            ColorRole::PrimaryPress => self.primary_press,
            ColorRole::Text => self.text,
            ColorRole::TextMuted => self.text_muted,
            ColorRole::Border => self.border,
        }
    }
}

/// The colour a palette gives a role is that role's field, all four channels
/// as they are, for any palette.
pub proof fn lemma_color_is_field(p: Palette)
    ensures
        p.spec_color(ColorRole::Bg) == p.bg,
        p.spec_color(ColorRole::Surface) == p.surface,
        p.spec_color(ColorRole::SurfaceRaised) == p.surface_raised,
        p.spec_color(ColorRole::Primary) == p.primary,
        p.spec_color(ColorRole::PrimaryHover) == p.primary_hover,
        p.spec_color(ColorRole::PrimaryPress) == p.primary_press,
        p.spec_color(ColorRole::Text) == p.text,
        p.spec_color(ColorRole::TextMuted) == p.text_muted,
        p.spec_color(ColorRole::Border) == p.border,
{
}

/// The channels of the violet dark palette, role by role; every colour of it
/// is opaque.
pub proof fn lemma_violet_dark_channels()
    ensures
        spec_hex(violet_code(ColorRole::Bg)) == (Rgba8 { r: 0x0D, g: 0x0B, b: 0x14, a: 0xFF }),
        spec_hex(violet_code(ColorRole::Surface)) == (Rgba8 { r: 0x16, g: 0x13, b: 0x2A, a: 0xFF }),
        spec_hex(violet_code(ColorRole::SurfaceRaised)) == (Rgba8 {
            r: 0x1F,
            g: 0x1B,
            b: 0x38,
            a: 0xFF,
        }),
        spec_hex(violet_code(ColorRole::Primary)) == (Rgba8 { r: 0x7C, g: 0x3A, b: 0xED, a: 0xFF }),
        spec_hex(violet_code(ColorRole::PrimaryHover)) == (Rgba8 {
            r: 0x6D,
            g: 0x28,
            b: 0xD9,
            a: 0xFF,
        }),
        spec_hex(violet_code(ColorRole::PrimaryPress)) == (Rgba8 {
            r: 0x5B,
            g: 0x21,
            b: 0xB6,
            a: 0xFF,
        }),
        spec_hex(violet_code(ColorRole::Text)) == (Rgba8 { r: 0xF3, g: 0xF0, b: 0xFF, a: 0xFF }),
        spec_hex(violet_code(ColorRole::TextMuted)) == (Rgba8 {
            r: 0x9D,
            g: 0x8F,
            b: 0xC2,
            a: 0xFF,
        }),
        spec_hex(violet_code(ColorRole::Border)) == (Rgba8 { r: 0x3B, g: 0x2F, b: 0x6E, a: 0xFF }),
{
    lemma_hex_of_pack(Rgba8 { r: 0x0D, g: 0x0B, b: 0x14, a: 0xFF });
    lemma_hex_of_pack(Rgba8 { r: 0x16, g: 0x13, b: 0x2A, a: 0xFF });
    lemma_hex_of_pack(Rgba8 { r: 0x1F, g: 0x1B, b: 0x38, a: 0xFF });
    lemma_hex_of_pack(Rgba8 { r: 0x7C, g: 0x3A, b: 0xED, a: 0xFF });
    lemma_hex_of_pack(Rgba8 { r: 0x6D, g: 0x28, b: 0xD9, a: 0xFF });
    lemma_hex_of_pack(Rgba8 { r: 0x5B, g: 0x21, b: 0xB6, a: 0xFF });
    lemma_hex_of_pack(Rgba8 { r: 0xF3, g: 0xF0, b: 0xFF, a: 0xFF });
    lemma_hex_of_pack(Rgba8 { r: 0x9D, g: 0x8F, b: 0xC2, a: 0xFF });
    lemma_hex_of_pack(Rgba8 { r: 0x3B, g: 0x2F, b: 0x6E, a: 0xFF });
}

impl Default for Palette {
    /// The default palette is the violet dark one.
    fn default() -> (p: Palette)
        ensures
            forall|role: ColorRole| #[trigger] p.spec_color(role) == spec_hex(violet_code(role)),
    {
        Palette::violet_dark()
    }
}

} // verus!
