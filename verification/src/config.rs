//! Immutable configuration for the previewer and the color arithmetic that
//! prepares configured colors for the display protocol: scaling 8-bit
//! channels to the protocol's 16-bit channel width, and premultiplying
//! text colors by their alpha for the offscreen buffer's pixel format.
use vstd::prelude::*;

verus! {

/// A protocol color with 16-bit channels.
#[derive(Clone, Copy, Debug, PartialEq, Eq)]
pub struct Color {
    pub red: u16,
    pub green: u16,
    pub blue: u16,
    pub alpha: u16,
}

/// Process-lifetime configuration, fixed after startup.
#[derive(Clone, Copy, Debug)]
pub struct Config {
    /// Overlay window width in pixels.
    pub width: u16,
    /// Overlay window height in pixels.
    pub height: u16,
    /// Overlay opacity, written to the opacity property of each overlay.
    pub opacity: u32,
    /// Thickness of the focus border in pixels.
    pub border_size: u16,
    /// Color of the focus border.
    pub border_color: Color,
    /// Horizontal position of the display name inside the overlay.
    pub text_x: i16,
    /// Vertical position of the display name inside the overlay.
    pub text_y: i16,
    /// Premultiplied ARGB text foreground.
    pub text_foreground: u32,
    /// Premultiplied ARGB text background.
    pub text_background: u32,
    /// Hide every thumbnail while no source window is focused or minimized.
    pub hide_when_no_focus: bool,
}

impl Config {
    /// The overlay dimensions are positive, fit protocol coordinates, and
    /// leave room for the border inset on both sides.
    pub open spec fn wf(self) -> bool {
        &&& 0 < self.width <= 0x7FFF
        &&& 0 < self.height <= 0x7FFF
        &&& 2 * self.border_size <= self.width
        &&& 2 * self.border_size <= self.height
    }

    /// The built-in configuration, used for every setting the environment
    /// does not override: a 240 by 135 overlay at three-quarter opacity, a
    /// five-pixel half-transparent red border, white-on-translucent-black
    /// text near the lower left corner, and hide-mode off.
    pub fn defaults() -> (r: Config)
        ensures
            r == (Config {
                width: 240u16,
                height: 135u16,
                opacity: 0xC000_0000u32,
                border_size: 5u16,
                border_color: (Color { red: 0xFFFFu16, green: 0u16, blue: 0u16, alpha: 0x7F00u16 }),
                text_x: 10i16,
                text_y: 125i16,
                text_foreground: premultiplied(0xFFFF_FFFF),
                text_background: premultiplied(0x7F00_0000),
                hide_when_no_focus: false,
            }),
            r.wf(),
    {
        Config {
            width: 240,
            height: 135,
            opacity: 0xC000_0000,
            border_size: 5,
            border_color: Color { red: 0xFFFF, green: 0, blue: 0, alpha: 0x7F00 },
            text_x: 10,
            text_y: 125,
            text_foreground: premultiply_argb32(0xFFFF_FFFF),
            text_background: premultiply_argb32(0x7F00_0000),
            hide_when_no_focus: false,
        }
    }
}

/// The 8-bit channel of `argb` that starts at bit `shift`.
pub open spec fn channel(argb: u32, shift: u32) -> u32
    recommends shift < 32,
{
    (argb >> shift) & 0xFF
}

/// One channel premultiplied by alpha: scaled by `a / 255` with integer
/// truncation, the encoding the offscreen buffer's pixel format stores.
pub open spec fn premul_channel(c: u32, a: u32) -> int {
    c * a / 255
}

/// A packed ARGB value with each color channel premultiplied by its alpha;
/// the alpha channel itself is kept.
pub open spec fn premultiplied(argb: u32) -> u32 {
    ((channel(argb, 24) << 24) as u32)
        | (((premul_channel(channel(argb, 16), channel(argb, 24)) as u32) << 16) as u32)
        | (((premul_channel(channel(argb, 8), channel(argb, 24)) as u32) << 8) as u32)
        | (premul_channel(channel(argb, 0), channel(argb, 24)) as u32)
}

/// An 8-bit channel scaled onto the protocol's 16-bit channel range, so
/// that 0xFF maps to 0xFFFF and 0 to 0.
pub open spec fn scaled16(v: u32) -> int {
    v * 257
}

proof fn lemma_channel_bound(argb: u32, shift: u32)
    requires shift < 32,
    ensures channel(argb, shift) <= 255,
{
    assert((argb >> shift) & 0xFF <= 255) by (bit_vector);
}

proof fn lemma_premul_bound(c: u32, a: u32)
    requires c <= 255, a <= 255,
    ensures
        c * a <= 65025,
        0 <= premul_channel(c, a) <= 255,
{
    assert(c * a <= 255 * 255 && c * a / 255 <= 255) by (nonlinear_arith)
        requires c <= 255 && a <= 255;
}

/// Premultiplies the three color channels of a packed `0xAARRGGBB` value by
/// its alpha channel, leaving the alpha channel itself in place.
pub fn premultiply_argb32(argb: u32) -> (r: u32)
    ensures r == premultiplied(argb),
{
    let a: u32 = (argb >> 24) & 0xFF;
    let red: u32 = (argb >> 16) & 0xFF;
    let g: u32 = (argb >> 8) & 0xFF;
    let b: u32 = argb & 0xFF;
    proof {
        lemma_channel_bound(argb, 24);
        lemma_channel_bound(argb, 16);
        lemma_channel_bound(argb, 8);
        assert(argb & 0xFF == (argb >> 0) & 0xFF) by (bit_vector);
        lemma_channel_bound(argb, 0);
        lemma_premul_bound(red, a);
        lemma_premul_bound(g, a);
        lemma_premul_bound(b, a);
    }
    let r_p: u32 = red * a / 255;
    let g_p: u32 = g * a / 255;
    let b_p: u32 = b * a / 255;
    (a << 24u32) | (r_p << 16u32) | (g_p << 8u32) | b_p
}

/// Premultiplication keeps a fully opaque color's RGB channels unchanged:
/// with alpha 255 the packed value is returned as it came.
pub proof fn lemma_premultiply_opaque(argb: u32)
    requires channel(argb, 24) == 255,
    ensures premultiplied(argb) == argb,
{
    lemma_channel_bound(argb, 16);
    lemma_channel_bound(argb, 8);
    lemma_channel_bound(argb, 0);
    assert(channel(argb, 16) * 255 / 255 == channel(argb, 16)) by (nonlinear_arith);
    assert(channel(argb, 8) * 255 / 255 == channel(argb, 8)) by (nonlinear_arith);
    assert(channel(argb, 0) * 255 / 255 == channel(argb, 0)) by (nonlinear_arith);
    let r = channel(argb, 16);
    let g = channel(argb, 8);
    let b = channel(argb, 0);
    assert(((argb >> 24) & 0xFF == 255 && (argb >> 16) & 0xFF == r && (argb >> 8) & 0xFF == g
        && (argb >> 0) & 0xFF == b) ==> ((255u32 << 24) | (r << 16) | (g << 8) | b) == argb)
        by (bit_vector);
}

/// Premultiplication by alpha 0 clears every channel: the packed result is 0
/// whatever the input RGB channels held.
pub proof fn lemma_premultiply_transparent(argb: u32)
    requires channel(argb, 24) == 0,
    ensures premultiplied(argb) == 0,
{
    lemma_channel_bound(argb, 16);
    lemma_channel_bound(argb, 8);
    lemma_channel_bound(argb, 0);
    assert(channel(argb, 16) * 0 / 255 == 0) by (nonlinear_arith);
    assert(channel(argb, 8) * 0 / 255 == 0) by (nonlinear_arith);
    assert(channel(argb, 0) * 0 / 255 == 0) by (nonlinear_arith);
    assert((0u32 << 24) | (0u32 << 16) | (0u32 << 8) | 0u32 == 0) by (bit_vector);
}

/// Unpacks a `0xAARRGGBB` value into a protocol color, scaling each 8-bit
/// channel onto the 16-bit protocol channel range.
pub fn parse_color(raw: u32) -> (r: Color)
    ensures
        r.red == scaled16(channel(raw, 16)),
        r.green == scaled16(channel(raw, 8)),
        r.blue == scaled16(channel(raw, 0)),
        r.alpha == scaled16(channel(raw, 24)),
{
    let a: u32 = (raw >> 24) & 0xFF;
    let red: u32 = (raw >> 16) & 0xFF;
    let g: u32 = (raw >> 8) & 0xFF;
    let b: u32 = raw & 0xFF;
    proof {
        lemma_channel_bound(raw, 24);
        lemma_channel_bound(raw, 16);
        lemma_channel_bound(raw, 8);
        assert(raw & 0xFF == (raw >> 0) & 0xFF) by (bit_vector);
        lemma_channel_bound(raw, 0);
    }
    Color {
        red: (red * 257) as u16,
        green: (g * 257) as u16,
        blue: (b * 257) as u16,
        alpha: (a * 257) as u16,
    }
}

} // verus!
