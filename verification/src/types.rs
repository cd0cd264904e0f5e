//! Value types shared by every rasterization back end: font identities,
//! render modes, instance flags, colors and glyph dimensions.

use std::sync::Arc;
use vstd::prelude::*;

verus! {

/// Namespace a resource identity was allocated in.
#[derive(Clone, Copy, Debug, PartialEq, Eq, Structural, Hash)]
pub struct IdNamespace(pub u32);

/// Identity of a logical font resource, independent of size.
#[derive(Clone, Copy, Debug, PartialEq, Eq, Structural, Hash)]
pub struct FontKey(pub IdNamespace, pub u32);

impl FontKey {
    pub fn new(namespace: IdNamespace, key: u32) -> (r: FontKey)
        ensures
            r == FontKey(namespace, key),
    {
        FontKey(namespace, key)
    }

    /// The identity as one number: the namespace in the high half.
    pub open spec fn packed(self) -> u64 {
        (self.0.0 as u64 * 0x1_0000_0000 + self.1 as u64) as u64
    }

    /// Computes [`FontKey::packed`].
    pub fn pack(&self) -> (r: u64)
        ensures
            r == self.packed(),
    {
        let high: u64 = self.0.0 as u64;
        let low: u64 = self.1 as u64;
        high * 0x1_0000_0000 + low
    }
}

/// Two identities pack to the same number only when they are equal.
pub proof fn lemma_packed_injective(a: FontKey, b: FontKey)
    ensures
        a.packed() == b.packed() <==> a == b,
{
    if a.packed() == b.packed() {
        assert(a.0.0 == b.0.0);
        assert(a.1 == b.1);
    }
}

/// A table kept under packed identities, read by the identities themselves.
pub open spec fn keyed<V>(table: Map<u64, V>) -> Map<FontKey, V> {
    Map::new(|k: FontKey| table.contains_key(k.packed()), |k: FontKey| table[k.packed()])
}

/// Writing under a packed identity writes under the identity.
pub proof fn lemma_keyed_insert<V>(table: Map<u64, V>, key: FontKey, value: V)
    ensures
        keyed(table.insert(key.packed(), value)) == keyed(table).insert(key, value),
{
    assert forall|k: FontKey| k.packed() == key.packed() implies k == key by {
        lemma_packed_injective(k, key);
    }
    assert(keyed(table.insert(key.packed(), value)) =~= keyed(table).insert(key, value));
}

/// Removing a packed identity removes the identity.
pub proof fn lemma_keyed_remove<V>(table: Map<u64, V>, key: FontKey)
    ensures
        keyed(table.remove(key.packed())) == keyed(table).remove(key),
{
    assert forall|k: FontKey| k.packed() == key.packed() implies k == key by {
        lemma_packed_injective(k, key);
    }
    assert(keyed(table.remove(key.packed())) =~= keyed(table).remove(key));
}

/// Identity of one font instance.
#[derive(Clone, Copy, Debug, PartialEq, Eq, Structural, Hash)]
pub struct FontInstanceKey(pub IdNamespace, pub u32);

/// Platform font handle, already resolved by the caller.
#[derive(Clone, Copy, Debug, PartialEq, Eq, Structural, Hash)]
pub struct NativeFontHandle(pub u32);

/// Anti-aliasing strategy of a font instance.
#[derive(Clone, Copy, Debug, PartialEq, Eq, Structural, Hash)]
pub enum FontRenderMode {
    Mono,
    Alpha,
    Subpixel,
}

/// An 8-bit RGBA color.
#[derive(Clone, Copy, Debug, PartialEq, Eq, Structural, Hash)]
pub struct ColorU {
    pub r: u8,
    pub g: u8,
    pub b: u8,
    pub a: u8,
}

impl ColorU {
    pub fn new(r: u8, g: u8, b: u8, a: u8) -> (c: ColorU)
        ensures
            c == (ColorU { r, g, b, a }),
    {
        ColorU { r, g, b, a }
    }

    /// Opaque white.
    pub open spec fn white() -> ColorU {
        ColorU { r: 0xFF, g: 0xFF, b: 0xFF, a: 0xFF }
    }
}

/// A pixel size, kept as the bit pattern of its single-precision value so
/// that two sizes are equal exactly when their patterns are.
#[derive(Clone, Copy, Debug, PartialEq, Eq, Structural, Hash)]
pub struct FontSize {
    pub bits: u32,
}

impl FontSize {
    pub fn from_bits(bits: u32) -> (s: FontSize)
        ensures
            s.bits == bits,
    {
        FontSize { bits }
    }

    pub fn to_bits(&self) -> (bits: u32)
        ensures
            bits == self.bits,
    {
        self.bits
    }

    /// The size is zero: every bit but the sign is clear.
    pub open spec fn spec_is_zero(&self) -> bool {
        self.bits & 0x7FFF_FFFF == 0
    }

    #[verifier::when_used_as_spec(spec_is_zero)]
    pub fn is_zero(&self) -> (r: bool)
        ensures
            r == self.spec_is_zero(),
    {
        self.bits & 0x7FFF_FFFF == 0
    }
}

/// Flag set of a font instance.
#[derive(Clone, Copy, Debug, PartialEq, Eq, Structural, Hash)]
pub struct FontInstanceFlags {
    pub bits: u32,
}

pub const SYNTHETIC_BOLD: u32 = 0x2;

pub const EMBEDDED_BITMAPS: u32 = 0x4;

pub const SUBPIXEL_BGR: u32 = 0x8;

pub const TRANSPOSE: u32 = 0x10;

pub const FLIP_X: u32 = 0x20;

pub const FLIP_Y: u32 = 0x40;

pub const SUBPIXEL_POSITION: u32 = 0x80;

impl FontInstanceFlags {
    pub fn empty() -> (f: FontInstanceFlags)
        ensures
            f.bits == 0,
    {
        FontInstanceFlags { bits: 0 }
    }

    pub fn from_bits(bits: u32) -> (f: FontInstanceFlags)
        ensures
            f.bits == bits,
    {
        FontInstanceFlags { bits }
    }

    /// Every bit of `mask` is set.
    pub open spec fn has(self, mask: u32) -> bool {
        self.bits & mask == mask
    }

    /// Computes [`FontInstanceFlags::has`].
    pub fn contains(&self, mask: u32) -> (r: bool)
        ensures
            r == self.has(mask),
    {
        self.bits & mask == mask
    }

    /// Sets every bit of `mask`.
    pub fn insert(&mut self, mask: u32)
        ensures
            final(self).bits == old(self).bits | mask,
    {
        self.bits = self.bits | mask;
    }

    /// Clears every bit of `mask`.
    pub fn remove(&mut self, mask: u32)
        ensures
            final(self).bits == old(self).bits & !mask,
    {
        self.bits = self.bits & !mask;
    }
}

/// Placement and advance of one glyph at one size.
#[derive(Clone, Copy, Debug, PartialEq, Eq, Structural, Hash)]
pub struct GlyphDimensions {
    pub left: i32,
    pub top: i32,
    pub width: i32,
    pub height: i32,
    /// Bit pattern of the single-precision advance.
    pub advance: u32,
}

/// Where a font's data comes from.
#[derive(Clone, Debug)]
pub enum FontTemplate {
    /// Font file bytes and the index of the face in a collection.
    Raw(Arc<Vec<u8>>, u32),
    /// A platform font handle.
    Native(NativeFontHandle),
}

} // verus!
