//! Font instances, glyph keys and the rasterizer's output.

use crate::types::{
    ColorU, FontInstanceFlags, FontInstanceKey, FontKey, FontRenderMode, FontSize,
    SUBPIXEL_POSITION,
};
use vstd::prelude::*;

verus! {

/// Scale and skew of a font instance, each kept as the bit pattern of its
/// single-precision value.
#[derive(Clone, Copy, Debug, PartialEq, Eq, Structural, Hash)]
pub struct FontTransform {
    pub scale_x: u32,
    pub skew_x: u32,
    pub skew_y: u32,
    pub scale_y: u32,
}

/// Bit pattern of the single-precision value one.
pub const ONE_BITS: u32 = 0x3F80_0000;

impl FontTransform {
    pub fn new(scale_x: u32, skew_x: u32, skew_y: u32, scale_y: u32) -> (t: FontTransform)
        ensures
            t == (FontTransform { scale_x, skew_x, skew_y, scale_y }),
    {
        FontTransform { scale_x, skew_x, skew_y, scale_y }
    }

    /// The transform that leaves every point where it is.
    pub open spec fn spec_identity() -> FontTransform {
        FontTransform { scale_x: ONE_BITS, skew_x: 0, skew_y: 0, scale_y: ONE_BITS }
    }

    #[verifier::when_used_as_spec(spec_identity)]
    pub fn identity() -> (t: FontTransform)
        ensures
            t == FontTransform::spec_identity(),
    {
        FontTransform { scale_x: ONE_BITS, skew_x: 0, skew_y: 0, scale_y: ONE_BITS }
    }
}

/// A fractional pixel offset, quantized to quarters.
#[derive(Clone, Copy, Debug, PartialEq, Eq, Structural, Hash)]
pub enum SubpixelOffset {
    Zero,
    Quarter,
    Half,
    ThreeQuarters,
}

impl SubpixelOffset {
    /// The offset in quarters of a pixel.
    pub open spec fn spec_quarters(self) -> u8 {
        match self {
            SubpixelOffset::Zero => 0,
            SubpixelOffset::Quarter => 1,
            SubpixelOffset::Half => 2,
            SubpixelOffset::ThreeQuarters => 3,
        }
    }

    #[verifier::when_used_as_spec(spec_quarters)]
    pub fn quarters(self) -> (q: u8)
        ensures
            q == self.spec_quarters(),
            q < 4,
    {
        match self {
            SubpixelOffset::Zero => 0,
            SubpixelOffset::Quarter => 1,
            SubpixelOffset::Half => 2,
            SubpixelOffset::ThreeQuarters => 3,
        }
    }
}

/// One renderable glyph of an instance: its index in the face and its
/// quantized sub-pixel offset.
#[derive(Clone, Copy, Debug, PartialEq, Eq, Structural, Hash)]
pub struct GlyphKey {
    pub index: u32,
    pub offset_x: SubpixelOffset,
    pub offset_y: SubpixelOffset,
}

impl GlyphKey {
    pub fn new(index: u32, dx: SubpixelOffset, dy: SubpixelOffset) -> (k: GlyphKey)
        ensures
            k == (GlyphKey { index, offset_x: dx, offset_y: dy }),
    {
        GlyphKey { index, offset_x: dx, offset_y: dy }
    }

    pub open spec fn spec_index(&self) -> u32 {
        self.index
    }

    #[verifier::when_used_as_spec(spec_index)]
    pub fn index(&self) -> (i: u32)
        ensures
            i == self.index,
    {
        self.index
    }

    pub open spec fn spec_subpixel_offset(&self) -> (SubpixelOffset, SubpixelOffset) {
        (self.offset_x, self.offset_y)
    }

    #[verifier::when_used_as_spec(spec_subpixel_offset)]
    pub fn subpixel_offset(&self) -> (o: (SubpixelOffset, SubpixelOffset))
        ensures
            o == self.spec_subpixel_offset(),
    {
        (self.offset_x, self.offset_y)
    }
}

/// A font identity together with the parameters it is rendered with.
/// Two instances are the same for caching exactly when every field agrees.
#[derive(Clone, Copy, Debug, PartialEq, Eq, Structural, Hash)]
pub struct FontInstance {
    pub instance_key: FontInstanceKey,
    pub font_key: FontKey,
    pub size: FontSize,
    pub transform: FontTransform,
    pub render_mode: FontRenderMode,
    pub flags: FontInstanceFlags,
    pub color: ColorU,
}

impl FontInstance {
    /// Clears the flag that asks for fractional glyph positions.
    pub fn disable_subpixel_position(&mut self)
        ensures
            final(self).flags.bits == old(self).flags.bits & !SUBPIXEL_POSITION,
            !final(self).flags.has(SUBPIXEL_POSITION),
            final(self).instance_key == old(self).instance_key,
            final(self).font_key == old(self).font_key,
            final(self).size == old(self).size,
            final(self).transform == old(self).transform,
            final(self).render_mode == old(self).render_mode,
            final(self).color == old(self).color,
    {
        let bits: u32 = self.flags.bits;
        self.flags.remove(SUBPIXEL_POSITION);
        assert((bits & !0x80u32) & 0x80u32 != 0x80u32) by (bit_vector);
    }

    /// The instance as it is handed to a rasterizer: the color is opaque
    /// white, since blending happens later, and a monochrome instance asks
    /// for no fractional positions.
    pub open spec fn prepared(self) -> FontInstance {
        FontInstance {
            color: ColorU::white(),
            flags: if self.render_mode == FontRenderMode::Mono {
                FontInstanceFlags { bits: self.flags.bits & !SUBPIXEL_POSITION }
            } else {
                self.flags
            },
            ..self
        }
    }

    /// Fractional positions are honored: the flag is set and the mode is not
    /// monochrome.
    pub open spec fn spec_use_subpixel_position(&self) -> bool {
        self.flags.has(SUBPIXEL_POSITION) && self.render_mode != FontRenderMode::Mono
    }

    #[verifier::when_used_as_spec(spec_use_subpixel_position)]
    pub fn use_subpixel_position(&self) -> (r: bool)
        ensures
            r == self.spec_use_subpixel_position(),
    {
        self.flags.contains(SUBPIXEL_POSITION) && self.render_mode != FontRenderMode::Mono
    }

    /// The offset a glyph is rendered at: the key's where fractional
    /// positions are honored, none otherwise.
    pub open spec fn spec_subpx_offset(&self, glyph: &GlyphKey) -> (SubpixelOffset, SubpixelOffset) {
        if self.spec_use_subpixel_position() {
            glyph.spec_subpixel_offset()
        } else {
            (SubpixelOffset::Zero, SubpixelOffset::Zero)
        }
    }

    #[verifier::when_used_as_spec(spec_subpx_offset)]
    pub fn get_subpx_offset(&self, glyph: &GlyphKey) -> (o: (SubpixelOffset, SubpixelOffset))
        ensures
            o == self.spec_subpx_offset(glyph),
    {
        if self.use_subpixel_position() {
            glyph.subpixel_offset()
        } else {
            (SubpixelOffset::Zero, SubpixelOffset::Zero)
        }
    }
}

/// Preparing an instance twice is preparing it once, and a prepared
/// monochrome instance asks for no fractional positions.
pub proof fn lemma_prepared_idempotent(font: FontInstance)
    ensures
        font.prepared().prepared() == font.prepared(),
        font.prepared().color == ColorU::white(),
        font.render_mode == FontRenderMode::Mono ==> !font.prepared().flags.has(SUBPIXEL_POSITION),
        !font.prepared().spec_use_subpixel_position() || font.spec_use_subpixel_position(),
{
    let bits = font.flags.bits;
    assert((bits & !0x80u32) & !0x80u32 == bits & !0x80u32) by (bit_vector);
    assert((bits & !0x80u32) & 0x80u32 != 0x80u32) by (bit_vector);
}

/// What kind of pixels a rasterized glyph holds.
#[derive(Clone, Copy, Debug, PartialEq, Eq, Structural, Hash)]
pub enum GlyphFormat {
    /// Monochrome coverage mask.
    Mono,
    /// Grayscale coverage mask.
    Alpha,
    /// Per-channel coverage mask.
    Subpixel,
    /// Full-color image.
    ColorBitmap,
}

/// Factor from the rendered image to device pixels.
#[derive(Clone, Copy, Debug, PartialEq, Eq, Structural, Hash)]
pub enum GlyphScale {
    /// One: the image was rendered at the requested size.
    Unit,
    /// The requested size divided by the larger side of the image.
    Ratio { size: FontSize, extent: u32 },
}

/// Why a glyph could not be rasterized.
#[derive(Clone, Copy, Debug, PartialEq, Eq, Structural, Hash)]
pub enum GlyphRasterError {
    LoadFailed,
}

/// A rasterized glyph: placement, extent and four bytes per pixel.
#[derive(Clone, Debug, PartialEq, Eq)]
pub struct RasterizedGlyph {
    pub top: i64,
    pub left: i64,
    pub width: i32,
    pub height: i32,
    pub scale: GlyphScale,
    pub format: GlyphFormat,
    pub bytes: Vec<u8>,
}

/// A rasterized glyph as a value: its placement, its extent and its bytes.
pub struct GlyphView {
    pub top: int,
    pub left: int,
    pub width: int,
    pub height: int,
    pub scale: GlyphScale,
    pub format: GlyphFormat,
    pub bytes: Seq<u8>,
}

impl GlyphView {
    /// The extent is positive and there are four bytes for each pixel.
    pub open spec fn well_formed(self) -> bool {
        &&& self.width > 0
        &&& self.height > 0
        &&& self.bytes.len() == 4 * (self.width * self.height)
    }
}

impl View for RasterizedGlyph {
    type V = GlyphView;

    open spec fn view(&self) -> GlyphView {
        GlyphView {
            top: self.top as int,
            left: self.left as int,
            width: self.width as int,
            height: self.height as int,
            scale: self.scale,
            format: self.format,
            bytes: self.bytes@,
        }
    }
}

pub type GlyphRasterResult = Result<RasterizedGlyph, GlyphRasterError>;

/// A rasterization result as a value.
pub open spec fn outcome(r: GlyphRasterResult) -> Result<GlyphView, GlyphRasterError> {
    match r {
        Ok(glyph) => Ok(glyph@),
        Err(e) => Err(e),
    }
}

} // verus!
