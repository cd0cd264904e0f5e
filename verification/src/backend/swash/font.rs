//! The per-thread font context of this back end and its cache of rendered
//! glyph images.

use crate::backend::swash::face::{face_glyph_ids, load_font, loaded_glyph_ids, map_char};
use crate::pixels::{
    color_pixels, color_to_bgra, mask_pixels, mask_to_bgra, subpixel_mask_pixels,
    subpixel_mask_to_bgra,
};
use crate::rasterizer::{
    outcome, FontInstance, FontTransform, GlyphFormat, GlyphKey, GlyphRasterError,
    GlyphRasterResult, GlyphScale, GlyphView, RasterizedGlyph, SubpixelOffset,
};
use crate::types::{
    keyed, lemma_keyed_insert, lemma_keyed_remove, ColorU, FontInstanceKey, FontKey,
    FontRenderMode, FontSize, GlyphDimensions, EMBEDDED_BITMAPS, SUBPIXEL_BGR,
};
use std::collections::HashMap;
use std::sync::Arc;
use vstd::prelude::*;

verus! {

broadcast use vstd::std_specs::hash::group_hash_axioms;

/// Whether the instance is marked as one whose glyphs are embedded bitmaps.
pub open spec fn spec_is_bitmap_font(font: &FontInstance) -> bool {
    font.flags.has(EMBEDDED_BITMAPS)
}

#[verifier::when_used_as_spec(spec_is_bitmap_font)]
pub fn is_bitmap_font(font: &FontInstance) -> (r: bool)
    ensures
        r == spec_is_bitmap_font(font),
{
    font.flags.contains(EMBEDDED_BITMAPS)
}

/// Where a rendered image lies relative to the glyph's origin, and its
/// extent in pixels.
#[derive(Clone, Copy, Debug, PartialEq, Eq, Structural)]
pub struct Placement {
    pub left: i32,
    pub top: i32,
    pub width: u32,
    pub height: u32,
}

/// What the bytes of a rendered image hold.
#[derive(Clone, Copy, Debug, PartialEq, Eq, Structural)]
pub enum Content {
    /// One coverage value for each pixel.
    Mask,
    /// Four bytes for each pixel: coverage of red, green and blue, and a
    /// fourth byte.
    SubpixelMask,
    /// Four bytes for each pixel: red, green, blue, alpha.
    Color,
}

/// A rendered glyph image as the scaler hands it out.
#[derive(Debug)]
pub struct GlyphImage {
    pub content: Content,
    pub placement: Placement,
    pub data: Vec<u8>,
}

/// One cached image with the instance and the glyph it was rendered for.
pub struct CacheEntry {
    pub instance: FontInstance,
    pub key: GlyphKey,
    pub image: Arc<GlyphImage>,
}

/// What the scaler is to render for one glyph.
#[derive(Clone, Copy, Debug, PartialEq, Eq, Structural)]
pub struct RenderRequest {
    /// Index of the glyph in the face.
    pub glyph: u16,
    /// Size of the instance, before its transform scales it.
    pub size: FontSize,
    pub transform: FontTransform,
    /// Sub-pixel coverage rather than a plain mask.
    pub subpixel: bool,
    /// Fractional offset to render at, in each direction.
    pub offset_x: SubpixelOffset,
    pub offset_y: SubpixelOffset,
    /// Color for outlines that name none.
    pub color: ColorU,
}

/// What is dropped from the cache.
#[derive(Clone, Copy, Debug, PartialEq, Eq, Structural)]
pub enum Evicted {
    /// Every image of a font.
    Font(FontKey),
    /// Every image of an instance.
    Instance(FontInstanceKey),
}

impl Evicted {
    /// Whether the images of `instance` are among those dropped.
    pub open spec fn spec_covers(self, instance: &FontInstance) -> bool {
        match self {
            Evicted::Font(font_key) => instance.font_key == font_key,
            Evicted::Instance(instance_key) => instance.instance_key == instance_key,
        }
    }

    #[verifier::when_used_as_spec(spec_covers)]
    pub fn covers(self, instance: &FontInstance) -> (r: bool)
        ensures
            r == self.spec_covers(instance),
    {
        match self {
            Evicted::Font(font_key) => instance.font_key == font_key,
            Evicted::Instance(instance_key) => instance.instance_key == instance_key,
        }
    }
}

/// The cache as a table: each instance and glyph with the image of the first
/// entry made for them.
pub open spec fn cache_of(entries: Seq<CacheEntry>) -> Map<(FontInstance, GlyphKey), GlyphImage>
    decreases entries.len(),
{
    if entries.len() == 0 {
        Map::empty()
    } else {
        let rest = cache_of(entries.drop_last());
        let last = entries.last();
        if rest.contains_key((last.instance, last.key)) {
            rest
        } else {
            rest.insert((last.instance, last.key), *last.image)
        }
    }
}

/// A table without the images that `which` covers.
pub open spec fn without(table: Map<(FontInstance, GlyphKey), GlyphImage>, which: Evicted) -> Map<
    (FontInstance, GlyphKey),
    GlyphImage,
> {
    Map::new(
        |k: (FontInstance, GlyphKey)| table.contains_key(k) && !which.spec_covers(&k.0),
        |k: (FontInstance, GlyphKey)| table[k],
    )
}

/// A table holds nothing for an instance and glyph that no entry names.
pub proof fn lemma_cache_absent(entries: Seq<CacheEntry>, instance: FontInstance, key: GlyphKey)
    requires
        forall|j: int|
            0 <= j < entries.len() ==> !(entries[j].instance == instance && entries[j].key == key),
    ensures
        !cache_of(entries).contains_key((instance, key)),
    decreases entries.len(),
{
    if entries.len() > 0 {
        lemma_cache_absent(entries.drop_last(), instance, key);
    }
}

/// A table holds, for an instance and glyph, the image of the first entry
/// that names them.
pub proof fn lemma_cache_first(entries: Seq<CacheEntry>, i: int)
    requires
        0 <= i < entries.len(),
        forall|j: int|
            0 <= j < i ==> !(entries[j].instance == entries[i].instance && entries[j].key
                == entries[i].key),
    ensures
        cache_of(entries).contains_key((entries[i].instance, entries[i].key)),
        cache_of(entries)[(entries[i].instance, entries[i].key)] == *entries[i].image,
    decreases entries.len(),
{
    let rest = entries.drop_last();
    if i == entries.len() - 1 {
        lemma_cache_absent(rest, entries[i].instance, entries[i].key);
    } else {
        lemma_cache_first(rest, i);
    }
}

/// No instance and glyph has two entries.
pub open spec fn distinct(entries: Seq<CacheEntry>) -> bool {
    forall|i: int, j: int|
        #![trigger entries[i], entries[j]]
        0 <= i < j < entries.len() ==> !(entries[i].instance == entries[j].instance
            && entries[i].key == entries[j].key)
}

/// Why font data could not be loaded.
#[derive(Clone, Copy, Debug, PartialEq, Eq, Structural)]
pub enum LoadError {
    /// The data holds no face of the given index.
    NoFace,
}

/// The fonts of a context before and after it loaded font data under `key`.
/// A known identity keeps its font. Otherwise the context holds the font
/// loaded from the data.
pub open spec fn loaded_under(
    fonts: Map<FontKey, font_index::Font>,
    fonts_after: Map<FontKey, font_index::Font>,
    key: FontKey,
    data: Seq<u8>,
    index: u32,
) -> bool {
    if fonts.contains_key(key) {
        fonts_after == fonts
    } else {
        &&& fonts_after == fonts.insert(key, fonts_after[key])
        &&& loaded_glyph_ids(data, index) == Some(face_glyph_ids(fonts_after[key]))
    }
}

/// The fonts that one rendering thread holds, and the images rendered from
/// them.
pub struct FontContext {
    pub fonts: HashMap<u64, font_index::Font>,
    pub cache: Vec<CacheEntry>,
}

impl FontContext {
    /// The fonts by identity.
    pub open spec fn fonts_view(&self) -> Map<FontKey, font_index::Font> {
        keyed(self.fonts@)
    }

    /// The cached images by instance and glyph.
    pub open spec fn cache_view(&self) -> Map<(FontInstance, GlyphKey), GlyphImage> {
        cache_of(self.cache@)
    }

    /// Contexts share nothing, so work may be spread over threads.
    pub fn distribute_across_threads() -> (r: bool)
        ensures
            r,
    {
        true
    }

    pub fn new() -> (context: FontContext)
        ensures
            context.fonts_view() == Map::<FontKey, font_index::Font>::empty(),
            context.cache_view() == Map::<(FontInstance, GlyphKey), GlyphImage>::empty(),
            distinct(context.cache@),
    {
        let context = FontContext { fonts: HashMap::new(), cache: Vec::new() };
        assert(context.fonts_view() =~= Map::<FontKey, font_index::Font>::empty());
        context
    }

    /// Whether font data can be loaded under `font_key`: the identity is
    /// known, or the data holds the face.
    pub open spec fn loads(&self, font_key: FontKey, data: Seq<u8>, index: u32) -> bool {
        self.fonts_view().contains_key(font_key) || loaded_glyph_ids(data, index) is Some
    }

    /// Loads font data under `font_key`. A known identity keeps its font.
    /// Data that holds no such face is reported and changes nothing.
    pub fn try_add_raw_font(&mut self, font_key: &FontKey, data: Arc<Vec<u8>>, index: u32) -> (r:
        Result<(), LoadError>)
        ensures
            final(self).cache == old(self).cache,
            r is Ok == old(self).loads(*font_key, data@, index),
            r is Err ==> final(self).fonts_view() == old(self).fonts_view(),
            r is Ok ==> loaded_under(
                old(self).fonts_view(),
                final(self).fonts_view(),
                *font_key,
                data@,
                index,
            ),
    {
        if self.fonts.contains_key(&font_key.pack()) {
            return Ok(());
        }
        match load_font(&data, index) {
            Some(font) => {
                self.add_native_font(font_key, Some(font));
                Ok(())
            },
            None => Err(LoadError::NoFace),
        }
    }

    /// [`FontContext::try_add_raw_font`] for font data that can be loaded.
    pub fn add_raw_font(&mut self, font_key: &FontKey, data: Arc<Vec<u8>>, index: u32)
        requires
            old(self).loads(*font_key, data@, index),
        ensures
            final(self).cache == old(self).cache,
            loaded_under(
                old(self).fonts_view(),
                final(self).fonts_view(),
                *font_key,
                data@,
                index,
            ),
    {
        match self.try_add_raw_font(font_key, data, index) {
            Ok(()) => {},
            Err(_) => vstd::pervasive::unreached(),
        }
    }

    /// Takes up a platform font that the caller resolved. A known identity
    /// keeps its font; without a font nothing is added.
    pub fn add_native_font(&mut self, font_key: &FontKey, font: Option<font_index::Font>)
        ensures
            final(self).cache == old(self).cache,
            final(self).fonts_view() == if font is Some && !old(self).fonts_view().contains_key(
                *font_key,
            ) {
                old(self).fonts_view().insert(*font_key, font->0)
            } else {
                old(self).fonts_view()
            },
    {
        if self.fonts.contains_key(&font_key.pack()) {
            return ;
        }
        match font {
            Some(f) => {
                proof {
                    lemma_keyed_insert(self.fonts@, *font_key, f);
                }
                self.fonts.insert(font_key.pack(), f);
            },
            None => {},
        }
    }

    /// Drops from the cache every image that `which` covers. What stays,
    /// stays in its order.
    pub fn evict(&mut self, which: Evicted)
        ensures
            final(self).fonts == old(self).fonts,
            final(self).cache_view() == without(old(self).cache_view(), which),
            distinct(old(self).cache@) ==> distinct(final(self).cache@),
    {
        let mut kept: Vec<CacheEntry> = Vec::new();
        let mut i: usize = 0;
        let ghost mut origin: Seq<int> = Seq::empty();
        assert(self.cache@.take(0) =~= Seq::<CacheEntry>::empty());
        assert(cache_of(kept@) =~= without(cache_of(self.cache@.take(0)), which));
        while i < self.cache.len()
            invariant
                i <= self.cache.len(),
                self.cache == old(self).cache,
                self.fonts == old(self).fonts,
                cache_of(kept@) == without(cache_of(self.cache@.take(i as int)), which),
                origin.len() == kept@.len(),
                forall|a: int|
                    0 <= a < kept@.len() ==> 0 <= #[trigger] origin[a] < i && kept@[a].instance
                        == self.cache@[origin[a]].instance && kept@[a].key
                        == self.cache@[origin[a]].key,
                forall|a: int, b: int|
                    #![trigger origin[a], origin[b]]
                    0 <= a < b < kept@.len() ==> origin[a] < origin[b],
            decreases self.cache.len() - i,
        {
            let entry = &self.cache[i];
            proof {
                let next = self.cache@.take(i as int + 1);
                assert(next.drop_last() =~= self.cache@.take(i as int));
                assert(next.last() == self.cache@[i as int]);
            }
            if !which.covers(&entry.instance) {
                let copy = CacheEntry {
                    instance: entry.instance,
                    key: entry.key,
                    image: entry.image.clone(),
                };
                proof {
                    let grown = kept@.push(copy);
                    assert(grown.drop_last() =~= kept@);
                    assert(grown.last() == copy);
                    assert(cache_of(grown) =~= without(
                        cache_of(self.cache@.take(i as int + 1)),
                        which,
                    ));
                    origin = origin.push(i as int);
                }
                kept.push(copy);
            } else {
                assert(cache_of(kept@) =~= without(
                    cache_of(self.cache@.take(i as int + 1)),
                    which,
                ));
            }
            i = i + 1;
        }
        assert(self.cache@.take(i as int) =~= self.cache@);
        proof {
            if distinct(self.cache@) {
                assert forall|a: int, b: int|
                    #![trigger kept@[a], kept@[b]]
                    0 <= a < b < kept@.len() implies !(kept@[a].instance == kept@[b].instance
                    && kept@[a].key == kept@[b].key) by {
                    assert(origin[a] < origin[b]);
                    let x = self.cache@[origin[a]];
                    let y = self.cache@[origin[b]];
                    assert(!(x.instance == y.instance && x.key == y.key));
                }
            }
        }
        self.cache = kept;
    }

    /// Lets go of the font under `font_key` and, where it was held, of every
    /// image rendered from it.
    pub fn delete_font(&mut self, font_key: &FontKey)
        ensures
            final(self).fonts_view() == old(self).fonts_view().remove(*font_key),
            final(self).cache_view() == if old(self).fonts_view().contains_key(*font_key) {
                without(old(self).cache_view(), Evicted::Font(*font_key))
            } else {
                old(self).cache_view()
            },
            distinct(old(self).cache@) ==> distinct(final(self).cache@),
    {
        proof {
            lemma_keyed_remove(self.fonts@, *font_key);
        }
        match self.fonts.remove(&font_key.pack()) {
            Some(_) => {
                self.evict(Evicted::Font(*font_key));
            },
            None => {},
        }
    }

    /// Drops every image rendered for `instance`; its font stays.
    pub fn delete_font_instance(&mut self, instance: &FontInstance)
        ensures
            final(self).fonts_view() == old(self).fonts_view(),
            final(self).cache_view() == without(
                old(self).cache_view(),
                Evicted::Instance(instance.instance_key),
            ),
            distinct(old(self).cache@) ==> distinct(final(self).cache@),
    {
        self.evict(Evicted::Instance(instance.instance_key));
    }

    /// The glyph that the font under `font_key` maps `ch` to: none where the
    /// font is unknown or maps `ch` to the missing glyph.
    pub open spec fn glyph_index_of(&self, font_key: FontKey, ch: char) -> Option<u32> {
        if !self.fonts_view().contains_key(font_key) {
            None
        } else if !face_glyph_ids(self.fonts_view()[font_key]).contains_key(ch) {
            None
        } else {
            Some(face_glyph_ids(self.fonts_view()[font_key])[ch] as u32)
        }
    }

    /// Computes [`FontContext::glyph_index_of`].
    pub fn get_glyph_index(&mut self, font_key: FontKey, ch: char) -> (r: Option<u32>)
        ensures
            *final(self) == *old(self),
            r == old(self).glyph_index_of(font_key, ch),
            r matches Some(index) ==> index != 0,
    {
        match self.fonts.get(&font_key.pack()) {
            None => None,
            Some(font) => {
                let index: u16 = map_char(font, ch);
                if index == 0 {
                    None
                } else {
                    Some(index as u32)
                }
            },
        }
    }

    /// Index of the first entry made for `instance` and `key`.
    pub fn find(&self, instance: &FontInstance, key: &GlyphKey) -> (r: Option<usize>)
        ensures
            r matches Some(i) ==> i < self.cache.len() && self.cache[i as int].instance
                == *instance && self.cache[i as int].key == *key && self.cache_view().contains_key(
                (*instance, *key),
            ) && self.cache_view()[(*instance, *key)] == *self.cache[i as int].image,
            r is None ==> !self.cache_view().contains_key((*instance, *key)),
            r is None ==> forall|j: int|
                0 <= j < self.cache.len() ==> !(self.cache[j].instance == *instance
                    && self.cache[j].key == *key),
    {
        let mut i: usize = 0;
        while i < self.cache.len()
            invariant
                i <= self.cache.len(),
                forall|j: int|
                    0 <= j < i ==> !(self.cache[j].instance == *instance && self.cache[j].key
                        == *key),
            decreases self.cache.len() - i,
        {
            if self.cache[i].instance == *instance && self.cache[i].key == *key {
                proof {
                    lemma_cache_first(self.cache@, i as int);
                }
                return Some(i);
            }
            i = i + 1;
        }
        proof {
            lemma_cache_absent(self.cache@, *instance, *key);
        }
        None
    }

    /// The image cached for `instance` and `key`, if there is one.
    pub fn cached_image(&self, instance: &FontInstance, key: &GlyphKey) -> (r: Option<
        Arc<GlyphImage>,
    >)
        ensures
            r is Some == self.cache_view().contains_key((*instance, *key)),
            r matches Some(image) ==> *image == self.cache_view()[(*instance, *key)],
    {
        match self.find(instance, key) {
            Some(i) => Some(self.cache[i].image.clone()),
            None => None,
        }
    }

    /// What the scaler has to render before the glyph of `key` can be had:
    /// nothing where the image is cached or the font is unknown. A bitmap
    /// font is rendered at no fractional offset, any other at the offset
    /// that the instance honors.
    pub open spec fn request_for(&self, instance: FontInstance, key: GlyphKey) -> Option<
        RenderRequest,
    > {
        if self.cache_view().contains_key((instance, key)) || !self.fonts_view().contains_key(
            instance.font_key,
        ) {
            None
        } else {
            Some(
                RenderRequest {
                    glyph: (key.index & 0xFFFF) as u16,
                    size: instance.size,
                    transform: instance.transform,
                    subpixel: instance.render_mode == FontRenderMode::Subpixel,
                    offset_x: if spec_is_bitmap_font(&instance) {
                        SubpixelOffset::Zero
                    } else {
                        instance.spec_subpx_offset(&key).0
                    },
                    offset_y: if spec_is_bitmap_font(&instance) {
                        SubpixelOffset::Zero
                    } else {
                        instance.spec_subpx_offset(&key).1
                    },
                    color: instance.color,
                },
            )
        }
    }

    /// Computes [`FontContext::request_for`].
    pub fn render_request(&self, instance: &FontInstance, key: &GlyphKey) -> (r: Option<
        RenderRequest,
    >)
        ensures
            r == self.request_for(*instance, *key),
    {
        if self.find(instance, key).is_some() || !self.fonts.contains_key(
            &instance.font_key.pack(),
        ) {
            return None;
        }
        let (offset_x, offset_y) = if is_bitmap_font(instance) {
            (SubpixelOffset::Zero, SubpixelOffset::Zero)
        } else {
            instance.get_subpx_offset(key)
        };
        Some(
            RenderRequest {
                glyph: (key.index() & 0xFFFF) as u16,
                size: instance.size,
                transform: instance.transform,
                subpixel: instance.render_mode == FontRenderMode::Subpixel,
                offset_x,
                offset_y,
                color: instance.color,
            },
        )
    }

    /// The image that a glyph is made from: the cached one where there is
    /// one, else none for an unknown font, else what was rendered.
    pub open spec fn image_for(
        &self,
        instance: FontInstance,
        key: GlyphKey,
        rendered: Option<GlyphImage>,
    ) -> Option<GlyphImage> {
        if self.cache_view().contains_key((instance, key)) {
            Some(self.cache_view()[(instance, key)])
        } else if !self.fonts_view().contains_key(instance.font_key) {
            None
        } else {
            rendered
        }
    }

    /// The cache once the glyph's image was asked for: a rendered image of a
    /// known font is kept where none was cached.
    pub open spec fn cache_after(
        &self,
        instance: FontInstance,
        key: GlyphKey,
        rendered: Option<GlyphImage>,
    ) -> Map<(FontInstance, GlyphKey), GlyphImage> {
        if !self.cache_view().contains_key((instance, key)) && self.fonts_view().contains_key(
            instance.font_key,
        ) && rendered is Some {
            self.cache_view().insert((instance, key), rendered->0)
        } else {
            self.cache_view()
        }
    }

    /// Hands out the image of a glyph, keeping what was rendered for it.
    /// `rendered` is what the scaler made of
    /// [`FontContext::render_request`]; it is not looked at where the image
    /// is cached or the font is unknown.
    pub fn get_or_create_cache(
        &mut self,
        instance: &FontInstance,
        glyph_key: &GlyphKey,
        rendered: Option<GlyphImage>,
    ) -> (r: Option<Arc<GlyphImage>>)
        ensures
            final(self).fonts == old(self).fonts,
            final(self).cache_view() == old(self).cache_after(*instance, *glyph_key, rendered),
            r is Some == old(self).image_for(*instance, *glyph_key, rendered) is Some,
            r matches Some(image) ==> Some(*image) == old(self).image_for(
                *instance,
                *glyph_key,
                rendered,
            ),
            distinct(old(self).cache@) ==> distinct(final(self).cache@),
    {
        match self.find(instance, glyph_key) {
            Some(i) => Some(self.cache[i].image.clone()),
            None => {
                if !self.fonts.contains_key(&instance.font_key.pack()) {
                    return None;
                }
                match rendered {
                    Some(image) => {
                        let shared = Arc::new(image);
                        let entry = CacheEntry {
                            instance: *instance,
                            key: *glyph_key,
                            image: shared.clone(),
                        };
                        proof {
                            let grown = self.cache@.push(entry);
                            assert(grown.drop_last() =~= self.cache@);
                            assert(grown.last() == entry);
                        }
                        self.cache.push(entry);
                        Some(shared)
                    },
                    None => None,
                }
            },
        }
    }
    /// The dimensions that an image gives a glyph: none where the extent is
    /// empty or exceeds what the dimensions can hold.
    pub open spec fn dimensions_of(placement: Placement, advance: u32) -> Option<GlyphDimensions> {
        if placement.width == 0 || placement.height == 0 || placement.width > i32::MAX
            || placement.height > i32::MAX {
            None
        } else {
            Some(
                GlyphDimensions {
                    left: placement.left,
                    top: placement.top,
                    width: placement.width as i32,
                    height: placement.height as i32,
                    advance,
                },
            )
        }
    }

    /// The dimensions of the glyph of `key`, taken from its image as
    /// [`FontContext::get_or_create_cache`] hands it out. `advance` is the
    /// advance width that the font's metrics give the glyph at the
    /// instance's size. None where the font is unknown, where the key asks
    /// for the missing glyph, index 0, where the size is zero, where there is
    /// no image, or where the image gives none.
    pub fn get_glyph_dimensions(
        &mut self,
        instance: &FontInstance,
        key: &GlyphKey,
        rendered: Option<GlyphImage>,
        advance: u32,
    ) -> (r: Option<GlyphDimensions>)
        ensures
            final(self).fonts == old(self).fonts,
            final(self).cache_view() == old(self).cache_after(*instance, *key, rendered),
            r == match old(self).image_for(*instance, *key, rendered) {
                Some(image) if old(self).fonts_view().contains_key(instance.font_key)
                    && !instance.size.spec_is_zero() && key.index & 0xFFFF != 0
                    => FontContext::dimensions_of(
                    image.placement,
                    advance,
                ),
                _ => None,
            },
            r matches Some(d) ==> d.width > 0 && d.height > 0,
            distinct(old(self).cache@) ==> distinct(final(self).cache@),
    {
        let image = match self.get_or_create_cache(instance, key, rendered) {
            Some(image) => image,
            None => {
                return None;
            },
        };
        if !self.fonts.contains_key(&instance.font_key.pack()) || instance.size.is_zero()
            || key.index() & 0xFFFF == 0 {
            return None;
        }
        let placement = image.placement;
        if placement.width == 0 || placement.height == 0 || placement.width > 0x7FFF_FFFF
            || placement.height > 0x7FFF_FFFF {
            None
        } else {
            Some(
                GlyphDimensions {
                    left: placement.left,
                    top: placement.top,
                    width: placement.width as i32,
                    height: placement.height as i32,
                    advance,
                },
            )
        }
    }

    /// Makes an instance ready for rasterization, as
    /// [`FontInstance::prepared`] says.
    pub fn prepare_font(font: &mut FontInstance)
        ensures
            *final(font) == old(font).prepared(),
    {
        match font.render_mode {
            FontRenderMode::Mono => {
                font.color = ColorU::new(0xFF, 0xFF, 0xFF, 0xFF);
                font.disable_subpixel_position();
            },
            FontRenderMode::Alpha | FontRenderMode::Subpixel => {
                font.color = ColorU::new(0xFF, 0xFF, 0xFF, 0xFF);
            },
        }
    }

    pub fn begin_rasterize(font: &FontInstance) {
    }

    pub fn end_rasterize(font: &FontInstance) {
    }

    /// Rasterizes the glyph of `glyph_key` from its image, as
    /// [`FontContext::get_or_create_cache`] hands it out: the glyph fails
    /// without an image, and is [`glyph_of_image`] otherwise.
    pub fn rasterize_glyph(
        &mut self,
        instance: &FontInstance,
        glyph_key: &GlyphKey,
        rendered: Option<GlyphImage>,
    ) -> (r: GlyphRasterResult)
        ensures
            final(self).fonts == old(self).fonts,
            final(self).cache_view() == old(self).cache_after(*instance, *glyph_key, rendered),
            outcome(r) == match old(self).image_for(*instance, *glyph_key, rendered) {
                Some(image) => glyph_of_image(*instance, image),
                None => Err(GlyphRasterError::LoadFailed),
            },
            r matches Ok(glyph) ==> glyph@.well_formed(),
            distinct(old(self).cache@) ==> distinct(final(self).cache@),
    {
        match self.get_or_create_cache(instance, glyph_key, rendered) {
            Some(image) => image_glyph(instance, &image),
            None => Err(GlyphRasterError::LoadFailed),
        }
    }
}

/// A context that loaded new font data answers for every character what the
/// character map of that data holds: its glyph for a mapped character,
/// nothing for any other, each time it is asked.
pub proof fn lemma_loaded_font_answers_by_its_data(
    after: FontContext,
    key: FontKey,
    bytes: Seq<u8>,
    index: u32,
    ch: char,
)
    requires
        after.fonts_view().contains_key(key),
        loaded_glyph_ids(bytes, index) == Some(face_glyph_ids(after.fonts_view()[key])),
    ensures
        loaded_glyph_ids(bytes, index) matches Some(ids) && after.glyph_index_of(key, ch) == if
            ids.contains_key(ch) {
            Some(ids[ch] as u32)
        } else {
            None
        },
{
}

/// The format of a glyph made from an image: a mask is monochrome or
/// grayscale as the instance's mode says.
pub open spec fn image_format(mode: FontRenderMode, content: Content) -> GlyphFormat {
    match content {
        Content::Mask => if mode == FontRenderMode::Mono {
            GlyphFormat::Mono
        } else {
            GlyphFormat::Alpha
        },
        Content::SubpixelMask => GlyphFormat::Subpixel,
        Content::Color => GlyphFormat::ColorBitmap,
    }
}

/// The glyph made from a rendered image. The image is refused where it is
/// empty, where a side exceeds what the glyph's extent can hold, or where
/// its bytes do not fill the extent: one for each pixel of a mask, four
/// otherwise. A mask's values fill their pixels. A sub-pixel mask has its
/// three coverage values reordered, honoring the reversed channel order, and
/// their largest as alpha. A color image has its channels reordered in the
/// same way and keeps its alpha. The placement is the image's and the scale
/// is one.
pub open spec fn glyph_of_image(instance: FontInstance, image: GlyphImage) -> Result<
    GlyphView,
    GlyphRasterError,
> {
    let placement = image.placement;
    let area = placement.width * placement.height;
    let per_pixel: int = if image.content == Content::Mask {
        1
    } else {
        4
    };
    if placement.width == 0 || placement.height == 0 || placement.width > i32::MAX
        || placement.height > i32::MAX || image.data@.len() != per_pixel * area {
        Err(GlyphRasterError::LoadFailed)
    } else {
        Ok(
            GlyphView {
                top: placement.top as int,
                left: placement.left as int,
                width: placement.width as int,
                height: placement.height as int,
                scale: GlyphScale::Unit,
                format: image_format(instance.render_mode, image.content),
                bytes: match image.content {
                    Content::Mask => mask_pixels(image.data@),
                    Content::SubpixelMask => subpixel_mask_pixels(
                        image.data@,
                        instance.flags.has(SUBPIXEL_BGR),
                    ),
                    Content::Color => color_pixels(image.data@, instance.flags.has(SUBPIXEL_BGR)),
                },
            },
        )
    }
}

/// Every glyph made from an image has a positive extent and four bytes for
/// each of its pixels.
pub proof fn lemma_image_glyph_well_formed(instance: FontInstance, image: &GlyphImage)
    ensures
        glyph_of_image(instance, *image) matches Ok(g) ==> g.well_formed(),
{
    if glyph_of_image(instance, *image) is Ok {
        let area = image.placement.width * image.placement.height;
        assert((4 * area) / 4 == area);
    }
}

/// Builds the glyph of a rendered image, as [`glyph_of_image`] says.
pub fn image_glyph(instance: &FontInstance, image: &GlyphImage) -> (r: GlyphRasterResult)
    ensures
        outcome(r) == glyph_of_image(*instance, *image),
        r matches Ok(glyph) ==> glyph@.well_formed(),
{
    proof {
        lemma_image_glyph_well_formed(*instance, image);
    }
    let placement = image.placement;
    if placement.width == 0 || placement.height == 0 || placement.width > 0x7FFF_FFFF
        || placement.height > 0x7FFF_FFFF {
        return Err(GlyphRasterError::LoadFailed);
    }
    assert(placement.width * placement.height <= 0x7FFF_FFFF * 0x7FFF_FFFF) by (nonlinear_arith)
        requires
            placement.width <= 0x7FFF_FFFF,
            placement.height <= 0x7FFF_FFFF,
    ;
    let area: u64 = (placement.width as u64) * (placement.height as u64);
    let (bytes, format) = match image.content {
        Content::Mask => {
            if (image.data.len() as u64) != area {
                return Err(GlyphRasterError::LoadFailed);
            }
            let format = if instance.render_mode == FontRenderMode::Mono {
                GlyphFormat::Mono
            } else {
                GlyphFormat::Alpha
            };
            (mask_to_bgra(&image.data), format)
        },
        Content::SubpixelMask => {
            if (image.data.len() as u64) != 4 * area {
                return Err(GlyphRasterError::LoadFailed);
            }
            (
                subpixel_mask_to_bgra(&image.data, instance.flags.contains(SUBPIXEL_BGR)),
                GlyphFormat::Subpixel,
            )
        },
        Content::Color => {
            if (image.data.len() as u64) != 4 * area {
                return Err(GlyphRasterError::LoadFailed);
            }
            (
                color_to_bgra(&image.data, instance.flags.contains(SUBPIXEL_BGR)),
                GlyphFormat::ColorBitmap,
            )
        },
    };
    Ok(
        RasterizedGlyph {
            top: placement.top as i64,
            left: placement.left as i64,
            width: placement.width as i32,
            height: placement.height as i32,
            scale: GlyphScale::Unit,
            format,
            bytes,
        },
    )
}

/// Once a glyph has an image, asking again gives the same image and leaves
/// the cache as it is, whatever is rendered in between: rasterizing twice
/// gives the same glyph.
pub proof fn lemma_image_is_kept(
    context: FontContext,
    after: FontContext,
    instance: FontInstance,
    key: GlyphKey,
    first: Option<GlyphImage>,
    second: Option<GlyphImage>,
)
    requires
        after.fonts == context.fonts,
        after.cache_view() == context.cache_after(instance, key, first),
        context.image_for(instance, key, first) is Some,
    ensures
        after.image_for(instance, key, second) == context.image_for(instance, key, first),
        after.cache_after(instance, key, second) == after.cache_view(),
{
}

/// After the images of an instance are dropped, none remains for any glyph
/// of an instance with that identity, so the next request is answered with
/// what is rendered then; images of other instances are as they were.
pub proof fn lemma_deleted_instance_is_rendered_anew(
    context: FontContext,
    after: FontContext,
    deleted: FontInstance,
    instance: FontInstance,
    key: GlyphKey,
    rendered: Option<GlyphImage>,
)
    requires
        after.fonts == context.fonts,
        after.cache_view() == without(
            context.cache_view(),
            Evicted::Instance(deleted.instance_key),
        ),
    ensures
        instance.instance_key == deleted.instance_key ==> !after.cache_view().contains_key(
            (instance, key),
        ) && after.image_for(instance, key, rendered) == if after.fonts_view().contains_key(
            instance.font_key,
        ) {
            rendered
        } else {
            None
        },
        instance.instance_key != deleted.instance_key ==> after.image_for(instance, key, rendered)
            == context.image_for(instance, key, rendered),
{
}

/// After a font is deleted no image of it remains, and no glyph of it is
/// served until it is added again.
pub proof fn lemma_deleted_font_serves_nothing(
    context: FontContext,
    after: FontContext,
    font_key: FontKey,
    instance: FontInstance,
    key: GlyphKey,
    rendered: Option<GlyphImage>,
)
    requires
        context.fonts_view().contains_key(font_key),
        after.fonts_view() == context.fonts_view().remove(font_key),
        after.cache_view() == without(context.cache_view(), Evicted::Font(font_key)),
    ensures
        instance.font_key == font_key ==> after.image_for(instance, key, rendered) is None
            && after.cache_after(instance, key, rendered) == after.cache_view(),
        instance.font_key != font_key ==> after.image_for(instance, key, rendered)
            == context.image_for(instance, key, rendered),
{
}

} // verus!
