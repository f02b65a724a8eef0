use cosg::color::{hex, pack, Rgba8};
use cosg::theme::{ColorRole, Palette, VIOLET_PRIMARY};

#[test]
fn hex_splits_channels() {
    assert_eq!(hex(0x7C3AEDFF), Rgba8 { r: 0x7C, g: 0x3A, b: 0xED, a: 0xFF });
    assert_eq!(hex(0x0D0B14FF), Rgba8 { r: 13, g: 11, b: 20, a: 255 });
    assert_eq!(hex(0), Rgba8 { r: 0, g: 0, b: 0, a: 0 });
    assert_eq!(hex(0xFFFFFFFF), Rgba8 { r: 255, g: 255, b: 255, a: 255 });
    assert_eq!(hex(0x01020304), Rgba8 { r: 1, g: 2, b: 3, a: 4 });
}

#[test]
fn pack_joins_channels() {
    assert_eq!(pack(Rgba8 { r: 0x12, g: 0x34, b: 0x56, a: 0x78 }), 0x12345678);
    assert_eq!(pack(Rgba8 { r: 255, g: 0, b: 0, a: 0 }), 0xFF000000);
}

#[test]
fn hex_and_pack_round_trip() {
    for code in [0u32, 1, 0xFF, 0x100, 0xDEADBEEF, 0x3B2F6EFF, u32::MAX] {
        assert_eq!(pack(hex(code)), code);
    }
    let c = Rgba8 { r: 9, g: 200, b: 77, a: 128 };
    assert_eq!(hex(pack(c)), c);
}

#[test]
fn violet_dark_palette() {
    let p = Palette::violet_dark();
    assert_eq!(p.bg, Rgba8 { r: 0x0D, g: 0x0B, b: 0x14, a: 0xFF });
    assert_eq!(p.surface, Rgba8 { r: 0x16, g: 0x13, b: 0x2A, a: 0xFF });
    assert_eq!(p.surface_raised, Rgba8 { r: 0x1F, g: 0x1B, b: 0x38, a: 0xFF });
    assert_eq!(p.primary, Rgba8 { r: 0x7C, g: 0x3A, b: 0xED, a: 0xFF });
    assert_eq!(p.primary_hover, Rgba8 { r: 0x6D, g: 0x28, b: 0xD9, a: 0xFF });
    assert_eq!(p.primary_press, Rgba8 { r: 0x5B, g: 0x21, b: 0xB6, a: 0xFF });
    assert_eq!(p.text, Rgba8 { r: 0xF3, g: 0xF0, b: 0xFF, a: 0xFF });
    assert_eq!(p.text_muted, Rgba8 { r: 0x9D, g: 0x8F, b: 0xC2, a: 0xFF });
    assert_eq!(p.border, Rgba8 { r: 0x3B, g: 0x2F, b: 0x6E, a: 0xFF });
    assert_eq!(p.color(ColorRole::Primary), hex(VIOLET_PRIMARY));
    assert_eq!(p.color(ColorRole::Border), p.border);
}

#[test]
fn default_palette_is_violet_dark() {
    assert_eq!(Palette::default(), Palette::violet_dark());
}
