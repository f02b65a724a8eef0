//! Packed `0xRRGGBBAA` colour codes and their four 8-bit channels.
use vstd::prelude::*;

verus! {

/// One colour as four 8-bit channels: red, green, blue and alpha.
#[derive(Clone, Copy, Debug, PartialEq, Eq, Structural)]
pub struct Rgba8 {
    pub r: u8,
    pub g: u8,
    pub b: u8,
    pub a: u8,
}

/// The channel that sits `shift` bits above the lowest bit of a packed code.
pub open spec fn channel_of(code: u32, shift: u32) -> u8 {
    ((code >> shift) & 0xff) as u8
}

/// The channels of a packed `0xRRGGBBAA` code, red in the highest byte.
pub open spec fn spec_hex(code: u32) -> Rgba8 {
    Rgba8 {
        r: channel_of(code, 24),
        g: channel_of(code, 16),
        b: channel_of(code, 8),
        a: channel_of(code, 0),
    }
}

/// The packed `0xRRGGBBAA` code of four channels, as a number.
pub open spec fn spec_pack(c: Rgba8) -> int {
    c.r * 0x1000000 + c.g * 0x10000 + c.b * 0x100 + c.a
}

/// Splits a packed `0xRRGGBBAA` code into its four channels.
pub fn hex(code: u32) -> (c: Rgba8)
    ensures
        c == spec_hex(code),
        c.r == code / 0x1000000,
        c.g == (code / 0x10000) % 0x100,
        c.b == (code / 0x100) % 0x100,
        c.a == code % 0x100,
{
    let r = ((code >> 24u32) & 0xffu32) as u8;
    let g = ((code >> 16u32) & 0xffu32) as u8;
    let b = ((code >> 8u32) & 0xffu32) as u8;
    let a = (code & 0xffu32) as u8;
    assert(r == code / 0x1000000 && g == (code / 0x10000) % 0x100 && b == (code / 0x100) % 0x100
        && a == code % 0x100) by (bit_vector)
        requires
            r == ((code >> 24u32) & 0xffu32) as u8,
            g == ((code >> 16u32) & 0xffu32) as u8,
            b == ((code >> 8u32) & 0xffu32) as u8,
            a == (code & 0xffu32) as u8,
    ;
    assert(a == ((code >> 0u32) & 0xffu32) as u8) by (bit_vector)
        requires
            a == (code & 0xffu32) as u8,
    ;
    Rgba8 { r, g, b, a }
}

/// Packs four channels into one `0xRRGGBBAA` code.
pub fn pack(c: Rgba8) -> (code: u32)
    ensures
        code == spec_pack(c),
{
    let code = ((c.r as u32) << 24u32) | ((c.g as u32) << 16u32) | ((c.b as u32) << 8u32)
        | (c.a as u32);
    let (r, g, b, a) = (c.r, c.g, c.b, c.a);
    assert(code == r * 0x1000000 + g * 0x10000 + b * 0x100 + a) by (bit_vector)
        requires
            code == ((r as u32) << 24u32) | ((g as u32) << 16u32) | ((b as u32) << 8u32)
                | (a as u32),
    ;
    code
}

/// Splitting a code into channels and packing them again gives the code back.
pub proof fn lemma_pack_of_hex(code: u32)
    ensures
        spec_pack(spec_hex(code)) == code,
{
    let c = spec_hex(code);
    let (r, g, b, a) = (c.r, c.g, c.b, c.a);
    assert(r * 0x1000000 + g * 0x10000 + b * 0x100 + a == code) by (bit_vector)
        requires
            r == ((code >> 24u32) & 0xffu32) as u8,
            g == ((code >> 16u32) & 0xffu32) as u8,
            b == ((code >> 8u32) & 0xffu32) as u8,
            a == ((code >> 0u32) & 0xffu32) as u8,
    ;
}

/// Packing four channels and splitting the code again gives the channels back.
pub proof fn lemma_hex_of_pack(c: Rgba8)
    ensures
        0 <= spec_pack(c) <= u32::MAX,
        spec_hex(spec_pack(c) as u32) == c,
{
    let (r, g, b, a) = (c.r, c.g, c.b, c.a);
    let code: u32 = (r * 0x1000000 + g * 0x10000 + b * 0x100 + a) as u32;
    assert(r * 0x1000000 + g * 0x10000 + b * 0x100 + a <= u32::MAX) by (nonlinear_arith)
        requires
            r <= 255,
            g <= 255,
            b <= 255,
            a <= 255,
    ;
    assert(r == ((code >> 24u32) & 0xffu32) as u8 && g == ((code >> 16u32) & 0xffu32) as u8
        && b == ((code >> 8u32) & 0xffu32) as u8 && a == ((code >> 0u32) & 0xffu32) as u8)
        by (bit_vector)
        requires
            code == r * 0x1000000 + g * 0x10000 + b * 0x100 + a,
    ;
}

} // verus!
