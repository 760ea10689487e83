use vstd::prelude::*;

verus! {

/// Color depth the engine is configured for: 16-bit RGB565 pixels.
pub const LV_COLOR_DEPTH: u32 = 16;

pub type LvResult<T> = Result<T, LvError>;

/// Errors surfaced by the recoverable entry points of the binding layer.
#[derive(Copy, Clone, Eq, PartialEq, Structural, Debug)]
pub enum LvError {
    InvalidReference,
    Uninitialized,
    LvOOMemory,
    AlreadyInUse,
}

/// Packs 8-bit red, green and blue channels into one RGB565 pixel:
/// the top five bits of red, six of green and five of blue.
pub open spec fn spec_rgb565_pack(r: u8, g: u8, b: u8) -> u16 {
    ((((r >> 3) as u16) << 11) | (((g >> 2) as u16) << 5)) | ((b >> 3) as u16)
}

/// One pixel in the engine's configured color format (RGB565).
#[derive(Copy, Clone, Eq, PartialEq, Structural, Debug)]
pub struct Color {
    pub raw: u16,
}

impl Color {
    /// Builds a pixel from 8-bit channels, truncating each channel to the
    /// width RGB565 keeps for it.
    pub fn from_rgb(rgb: (u8, u8, u8)) -> (c: Color)
        ensures
            c.raw == spec_rgb565_pack(rgb.0, rgb.1, rgb.2),
    {
        let (r, g, b): (u8, u8, u8) = rgb;
        Color { raw: ((((r >> 3) as u16) << 11) | (((g >> 2) as u16) << 5)) | ((b >> 3) as u16) }
    }

    /// Wraps an already-packed native pixel value.
    pub fn from_raw(raw: u16) -> (c: Color)
        ensures
            c.raw == raw,
    {
        Color { raw }
    }

    /// The stored five-bit red channel.
    pub fn r(&self) -> (r: u8)
        ensures
            r == (self.raw >> 11) as u8,
    {
        (self.raw >> 11) as u8
    }

    /// The stored six-bit green channel.
    pub fn g(&self) -> (g: u8)
        ensures
            g == ((self.raw >> 5) & 0x3f) as u8,
    {
        ((self.raw >> 5) & 0x3f) as u8
    }

    /// The stored five-bit blue channel.
    pub fn b(&self) -> (b: u8)
        ensures
            b == (self.raw & 0x1f) as u8,
    {
        (self.raw & 0x1f) as u8
    }

    /// The pixel as the outside RGB565 color type, channel for channel.
    pub fn to_rgb565(&self) -> embedded_graphics_core::pixelcolor::Rgb565 {
        rgb565_from_components(self.r(), self.g(), self.b())
    }

    /// The pixel's channels in the outside RGB888 color type. The channels
    /// keep their stored widths, exactly as the native engine hands them
    /// out at this color depth.
    pub fn to_rgb888(&self) -> embedded_graphics_core::pixelcolor::Rgb888 {
        rgb888_from_components(self.r(), self.g(), self.b())
    }
}

#[verifier::external_type_specification]
#[verifier::external_body]
pub struct ExRgb565(embedded_graphics_core::pixelcolor::Rgb565);

#[verifier::external_type_specification]
#[verifier::external_body]
pub struct ExRgb888(embedded_graphics_core::pixelcolor::Rgb888);

/// Relies on Rgb565::new of embedded-graphics-core: stores the given
/// channels, masked to five, six and five bits, as one RGB565 color value.
#[verifier::external_body]
fn rgb565_from_components(r: u8, g: u8, b: u8) -> embedded_graphics_core::pixelcolor::Rgb565 {
    embedded_graphics_core::pixelcolor::Rgb565::new(r, g, b)
}

/// Relies on Rgb888::new of embedded-graphics-core: stores the given
/// channels, each masked to eight bits, as one RGB888 color value.
#[verifier::external_body]
fn rgb888_from_components(r: u8, g: u8, b: u8) -> embedded_graphics_core::pixelcolor::Rgb888 {
    embedded_graphics_core::pixelcolor::Rgb888::new(r, g, b)
}

} // verus!
