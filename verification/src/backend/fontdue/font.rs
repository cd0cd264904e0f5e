//! The shared font store and the per-thread font context of this back end.

use crate::backend::fontdue::face::{
    decode_png, embedded_raster, embedded_raster_image, embedded_svg, embedded_svg_image,
    font_glyph_count, font_glyph_ids, glyph_count, lookup_glyph_index, new_pixmap, parse_font,
    parse_svg, parsed_glyph_ids, pixmap_image, png_image, render_svg, strong_count, svg_drawing,
    svg_size, tree_extent, tree_painting, EmbeddedImage,
};
use crate::pixels::{
    color_pixels, color_to_bgra, mask_pixels, mask_to_bgra, subpixel_pixels, subpixel_to_bgra,
};
use crate::rasterizer::{
    outcome, FontInstance, GlyphFormat, GlyphKey, GlyphRasterError, GlyphRasterResult, GlyphScale,
    GlyphView, RasterizedGlyph,
};
use crate::types::{
    keyed, lemma_keyed_insert, lemma_keyed_remove, ColorU, FontKey, FontRenderMode, FontSize,
    FontTemplate, GlyphDimensions, NativeFontHandle, SUBPIXEL_BGR,
};
use std::collections::HashMap;
use std::sync::Arc;
use vstd::prelude::*;

verus! {

broadcast use vstd::std_specs::hash::group_hash_axioms;

/// A parsed font with the identity and the data it was made from.
pub struct CachedFont {
    pub hash: FontKey,
    pub data: (Arc<Vec<u8>>, u32),
    pub font: ::fontdue::Font,
}

/// Why a template could not be registered.
#[derive(Clone, Copy, Debug)]
pub enum RegisterError {
    /// The font data could not be parsed; the parser's message.
    Parse(&'static str),
    /// Platform font handles are not served by this back end.
    Native,
}

/// `cached` is the font parsed from face `index` of `bytes`, made for `key`.
pub open spec fn parsed_for(cached: Arc<CachedFont>, key: FontKey, bytes: Arc<Vec<u8>>, index: u32)
    -> bool {
    &&& cached.hash == key
    &&& cached.data == (bytes, index)
    &&& parsed_glyph_ids(bytes@, index) == Some(font_glyph_ids(cached.font))
}

/// `cached` is the font parsed from the font data of `template`, made for
/// `key`.
pub open spec fn parsed_from(cached: Arc<CachedFont>, key: FontKey, template: FontTemplate) -> bool {
    match template {
        FontTemplate::Raw(bytes, index) => parsed_for(cached, key, bytes, index),
        FontTemplate::Native(_) => false,
    }
}

/// A store after the font under `key` was asked for: a font that is there
/// stays, and `cached` is filed otherwise.
pub open spec fn registered(
    fonts: Map<FontKey, Arc<CachedFont>>,
    key: FontKey,
    cached: Arc<CachedFont>,
) -> Map<FontKey, Arc<CachedFont>> {
    if fonts.contains_key(key) {
        fonts
    } else {
        fonts.insert(key, cached)
    }
}

/// Every font is filed under its own identity.
pub open spec fn store_valid(fonts: Map<FontKey, Arc<CachedFont>>) -> bool {
    forall|k: FontKey| #[trigger] fonts.contains_key(k) ==> fonts[k].hash == k
}

/// Whether a release evicts: the handles that exist are the store's and the
/// releasing context's and no other.
pub open spec fn spec_last_holder(owners: usize) -> bool {
    owners <= 2
}

/// Computes [`spec_last_holder`].
#[verifier::when_used_as_spec(spec_last_holder)]
pub fn last_holder(owners: usize) -> (r: bool)
    ensures
        r == spec_last_holder(owners),
{
    owners <= 2
}

/// A store after a context let go of the font under `key`, `owners` being
/// the handles to the font that existed then: the store's, the releasing
/// context's and one for each other context that holds the font.
pub open spec fn released(fonts: Map<FontKey, Arc<CachedFont>>, key: FontKey, owners: usize) -> Map<
    FontKey,
    Arc<CachedFont>,
> {
    if spec_last_holder(owners) {
        fonts.remove(key)
    } else {
        fonts
    }
}

/// A font that another context holds stays in the store, as it was, when one
/// context lets go of it; the release by the last context that holds it
/// removes it. No release touches another identity.
pub proof fn lemma_release_keeps_shared_font(
    fonts: Map<FontKey, Arc<CachedFont>>,
    key: FontKey,
    owners: usize,
    others: nat,
)
    requires
        owners == 2 + others,
    ensures
        others >= 1 ==> released(fonts, key, owners) == fonts,
        others == 0 ==> !released(fonts, key, owners).contains_key(key),
        forall|other: FontKey|
            other != key ==> released(fonts, key, owners).contains_key(other) == fonts.contains_key(
                other,
            ) && (fonts.contains_key(other) ==> released(fonts, key, owners)[other]
                == fonts[other]),
        store_valid(fonts) ==> store_valid(released(fonts, key, owners)),
{
}

/// Registering an identity that the store knows changes nothing in the
/// store, whatever the template held.
pub proof fn lemma_known_identity_keeps_font(
    fonts: Map<FontKey, Arc<CachedFont>>,
    key: FontKey,
    cached: Arc<CachedFont>,
)
    requires
        fonts.contains_key(key),
    ensures
        registered(fonts, key, cached) == fonts,
{
}

/// The store of parsed fonts that every context shares.
pub struct FontCache {
    pub fonts: HashMap<u64, Arc<CachedFont>>,
}

impl View for FontCache {
    type V = Map<FontKey, Arc<CachedFont>>;

    open spec fn view(&self) -> Map<FontKey, Arc<CachedFont>> {
        keyed(self.fonts@)
    }
}

/// `template` is font data that parses.
pub open spec fn template_parses(template: FontTemplate) -> bool {
    match template {
        FontTemplate::Raw(bytes, index) => parsed_glyph_ids(bytes@, index) is Some,
        FontTemplate::Native(_) => false,
    }
}

impl FontCache {
    pub fn new() -> (store: FontCache)
        ensures
            store@ == Map::<FontKey, Arc<CachedFont>>::empty(),
            store_valid(store@),
    {
        let store = FontCache { fonts: HashMap::new() };
        assert(store@ =~= Map::<FontKey, Arc<CachedFont>>::empty());
        store
    }

    /// Whether `template` can be registered under `font_key`: the identity
    /// is known already, or the template is font data that parses.
    pub open spec fn accepts(&self, font_key: FontKey, template: FontTemplate) -> bool {
        self@.contains_key(font_key) || template_parses(template)
    }

    /// Files a parsed font under a new identity.
    pub fn insert_parsed(
        &mut self,
        font_key: FontKey,
        bytes: Arc<Vec<u8>>,
        index: u32,
        font: ::fontdue::Font,
    ) -> (cached: Arc<CachedFont>)
        requires
            !old(self)@.contains_key(font_key),
        ensures
            *cached == (CachedFont { hash: font_key, data: (bytes, index), font }),
            final(self)@ == old(self)@.insert(font_key, cached),
            store_valid(old(self)@) ==> store_valid(final(self)@),
    {
        let cached = Arc::new(CachedFont { hash: font_key, data: (bytes, index), font });
        proof {
            lemma_keyed_insert(self.fonts@, font_key, cached);
        }
        self.fonts.insert(font_key.pack(), cached.clone());
        cached
    }

    /// Hands out the font registered under `font_key`, parsing `template`
    /// first where the identity is new. A known identity keeps its font,
    /// whatever the template holds. A template that cannot be registered
    /// leaves the store as it is and is reported: font data with the
    /// parser's message, a platform handle as such.
    pub fn try_with_font(&mut self, font_key: FontKey, font_template: FontTemplate) -> (r: Result<
        Arc<CachedFont>,
        RegisterError,
    >)
        ensures
            r is Ok == old(self).accepts(font_key, font_template),
            r is Err ==> final(self)@ == old(self)@,
            r is Err ==> (r->Err_0 is Native <==> font_template is Native),
            r matches Ok(cached) ==> {
                &&& final(self)@ == registered(old(self)@, font_key, cached)
                &&& cached == final(self)@[font_key]
                &&& !old(self)@.contains_key(font_key) ==> parsed_from(
                    cached,
                    font_key,
                    font_template,
                )
                &&& store_valid(old(self)@) ==> cached.hash == font_key
            },
            store_valid(old(self)@) ==> store_valid(final(self)@),
    {
        match self.fonts.get(&font_key.pack()) {
            Some(cached) => {
                return Ok(cached.clone());
            },
            None => {},
        }
        match font_template {
            FontTemplate::Raw(bytes, index) => {
                match parse_font(&bytes, index) {
                    Ok(font) => Ok(self.insert_parsed(font_key, bytes, index, font)),
                    Err(message) => Err(RegisterError::Parse(message)),
                }
            },
            FontTemplate::Native(_) => Err(RegisterError::Native),
        }
    }

    /// [`FontCache::try_with_font`] for a template that can be registered.
    pub fn with_font(&mut self, font_key: FontKey, font_template: FontTemplate) -> (cached: Arc<
        CachedFont,
    >)
        requires
            old(self).accepts(font_key, font_template),
        ensures
            final(self)@ == registered(old(self)@, font_key, cached),
            cached == final(self)@[font_key],
            !old(self)@.contains_key(font_key) ==> parsed_from(cached, font_key, font_template),
            store_valid(old(self)@) ==> store_valid(final(self)@) && cached.hash == font_key,
    {
        match self.try_with_font(font_key, font_template) {
            Ok(cached) => cached,
            Err(_) => vstd::pervasive::unreached(),
        }
    }

    /// Drops the font that `cached` was registered as.
    pub fn delete_font(&mut self, cached: Arc<CachedFont>)
        ensures
            final(self)@ == old(self)@.remove(cached.hash),
            store_valid(old(self)@) ==> store_valid(final(self)@),
    {
        proof {
            lemma_keyed_remove(self.fonts@, cached.hash);
        }
        self.fonts.remove(&cached.hash.pack());
    }

    /// Settles the release of `cached` by a context, given the handles to
    /// the font that exist: the font is dropped where they are the store's
    /// and the releasing context's alone, and stays where another context
    /// holds it too.
    pub fn release(&mut self, cached: Arc<CachedFont>, owners: usize)
        ensures
            final(self)@ == released(old(self)@, cached.hash, owners),
            store_valid(old(self)@) ==> store_valid(final(self)@),
    {
        if last_holder(owners) {
            self.delete_font(cached);
        }
    }
}

/// Placement of one glyph at one size, as the outline rasterizer measures it.
#[derive(Clone, Copy, Debug, PartialEq, Eq, Structural)]
pub struct GlyphMetrics {
    pub xmin: i32,
    pub ymin: i32,
    pub width: usize,
    pub height: usize,
    /// Bit pattern of the single-precision advance.
    pub advance_width: u32,
}

/// What the outline rasterizer made of one glyph: its metrics and its
/// coverage, one value for each pixel, or three where it rendered sub-pixels.
#[derive(Debug)]
pub struct OutlineImage {
    pub metrics: GlyphMetrics,
    pub coverage: Vec<u8>,
}

/// The glyph that an outline rasterization is owed for: the font to take it
/// from, its index there, the size and whether sub-pixels are rendered.
pub struct RasterRequest {
    pub font: Arc<CachedFont>,
    pub glyph: u16,
    pub size: FontSize,
    pub subpixel: bool,
}

/// A font that a context holds: the store's, shared with other contexts, or
/// one of its own, parsed while the store was not to be had.
pub struct HeldFont {
    pub cached: Arc<CachedFont>,
    pub shared: bool,
}

/// Every font of a context is filed under its own identity.
pub open spec fn context_valid(fonts: Map<FontKey, HeldFont>) -> bool {
    forall|k: FontKey| #[trigger] fonts.contains_key(k) ==> fonts[k].cached.hash == k
}

/// A context and the store before and after the context took up font data
/// under `key` with the store at hand. An identity that the context held
/// changes nothing. Otherwise the context shares the font that the store
/// then has under `key`: the font that was there, or else the font parsed
/// from the data.
pub open spec fn took_shared(
    held: Map<FontKey, HeldFont>,
    held_after: Map<FontKey, HeldFont>,
    store: Map<FontKey, Arc<CachedFont>>,
    store_after: Map<FontKey, Arc<CachedFont>>,
    key: FontKey,
    bytes: Arc<Vec<u8>>,
    index: u32,
) -> bool {
    if held.contains_key(key) {
        held_after == held && store_after == store
    } else {
        let cached = store_after[key];
        &&& held_after == held.insert(key, HeldFont { cached, shared: true })
        &&& store_after == registered(store, key, cached)
        &&& !store.contains_key(key) ==> parsed_for(cached, key, bytes, index)
    }
}

/// A context before and after it took up font data under `key` without the
/// store. An identity that the context held changes nothing. Otherwise the
/// context holds a font of its own, parsed from the data.
pub open spec fn took_own(
    held: Map<FontKey, HeldFont>,
    held_after: Map<FontKey, HeldFont>,
    key: FontKey,
    bytes: Arc<Vec<u8>>,
    index: u32,
) -> bool {
    if held.contains_key(key) {
        held_after == held
    } else {
        let own = held_after[key];
        &&& held_after == held.insert(key, own)
        &&& !own.shared
        &&& parsed_for(own.cached, key, bytes, index)
    }
}

/// The fonts that one rendering thread holds.
pub struct FontContext {
    pub fonts: HashMap<u64, HeldFont>,
}

impl View for FontContext {
    type V = Map<FontKey, HeldFont>;

    open spec fn view(&self) -> Map<FontKey, HeldFont> {
        keyed(self.fonts@)
    }
}

impl FontContext {
    /// Contexts share nothing but the store, so work may be spread over
    /// threads.
    pub fn distribute_across_threads() -> (r: bool)
        ensures
            r,
    {
        true
    }

    pub fn new() -> (context: FontContext)
        ensures
            context@ == Map::<FontKey, HeldFont>::empty(),
            context_valid(context@),
    {
        let context = FontContext { fonts: HashMap::new() };
        assert(context@ =~= Map::<FontKey, HeldFont>::empty());
        context
    }

    /// Whether font data can be taken up under `font_key`: the context or
    /// the store at hand knows the identity, or the data parses.
    pub open spec fn takes(
        &self,
        store: Option<Map<FontKey, Arc<CachedFont>>>,
        font_key: FontKey,
        bytes: Arc<Vec<u8>>,
        index: u32,
    ) -> bool {
        ||| self@.contains_key(font_key)
        ||| store matches Some(fonts) && fonts.contains_key(font_key)
        ||| parsed_glyph_ids(bytes@, index) is Some
    }

    /// Registers font data under `font_key`. `store` is the shared store
    /// where the caller could lock it. An identity that this context holds
    /// changes nothing. With the store the context shares the store's font,
    /// which is parsed from the data where the identity is new there.
    /// Without the store the context parses a font of its own, so that no
    /// thread waits for another. Data that does not parse is reported and
    /// changes nothing.
    pub fn try_add_raw_font(
        &mut self,
        store: Option<&mut FontCache>,
        font_key: &FontKey,
        bytes: Arc<Vec<u8>>,
        index: u32,
    ) -> (r: Result<(), RegisterError>)
        ensures
            store matches Some(s) ==> r is Ok == old(self).takes(
                Some(s@),
                *font_key,
                bytes,
                index,
            ),
            store is None ==> r is Ok == old(self).takes(None, *font_key, bytes, index),
            r is Err ==> r->Err_0 is Parse && final(self)@ == old(self)@ && (store matches Some(s)
                ==> final(s)@ == s@),
            r is Ok ==> {
                &&& store matches Some(s) ==> took_shared(
                    old(self)@,
                    final(self)@,
                    s@,
                    final(s)@,
                    *font_key,
                    bytes,
                    index,
                )
                &&& store is None ==> took_own(old(self)@, final(self)@, *font_key, bytes, index)
            },
            store matches Some(s) ==> (store_valid(s@) ==> store_valid(final(s)@)),
            context_valid(old(self)@) && (store matches Some(s) ==> store_valid(s@))
                ==> context_valid(final(self)@),
    {
        if self.fonts.contains_key(&font_key.pack()) {
            return Ok(());
        }
        let held = match store {
            Some(s) => {
                match s.try_with_font(*font_key, FontTemplate::Raw(bytes, index)) {
                    Ok(cached) => HeldFont { cached, shared: true },
                    Err(e) => {
                        return Err(e);
                    },
                }
            },
            None => {
                match parse_font(&bytes, index) {
                    Ok(font) => HeldFont {
                        cached: Arc::new(
                            CachedFont { hash: *font_key, data: (bytes, index), font },
                        ),
                        shared: false,
                    },
                    Err(message) => {
                        return Err(RegisterError::Parse(message));
                    },
                }
            },
        };
        proof {
            lemma_keyed_insert(self.fonts@, *font_key, held);
        }
        self.fonts.insert(font_key.pack(), held);
        Ok(())
    }

    /// [`FontContext::try_add_raw_font`] for font data that can be taken up.
    pub fn add_raw_font(
        &mut self,
        store: Option<&mut FontCache>,
        font_key: &FontKey,
        bytes: Arc<Vec<u8>>,
        index: u32,
    )
        requires
            store matches Some(s) ==> old(self).takes(Some(s@), *font_key, bytes, index),
            store is None ==> old(self).takes(None, *font_key, bytes, index),
        ensures
            store matches Some(s) ==> took_shared(
                old(self)@,
                final(self)@,
                s@,
                final(s)@,
                *font_key,
                bytes,
                index,
            ),
            store is None ==> took_own(old(self)@, final(self)@, *font_key, bytes, index),
            store matches Some(s) ==> (store_valid(s@) ==> store_valid(final(s)@)),
            context_valid(old(self)@) && (store matches Some(s) ==> store_valid(s@))
                ==> context_valid(final(self)@),
    {
        match self.try_add_raw_font(store, font_key, bytes, index) {
            Ok(()) => {},
            Err(_) => vstd::pervasive::unreached(),
        }
    }

    /// Takes up the font that the store holds under `font_key`. This back
    /// end resolves no platform handles: an identity that neither the
    /// context nor the store at hand knows is reported and changes nothing.
    /// Without the store nothing changes either.
    pub fn try_add_native_font(
        &mut self,
        store: Option<&mut FontCache>,
        font_key: &FontKey,
        native_font_handle: NativeFontHandle,
    ) -> (r: Result<(), RegisterError>)
        ensures
            r is Err <==> (store matches Some(s) && !old(self)@.contains_key(*font_key)
                && !s@.contains_key(*font_key)),
            r is Err ==> r->Err_0 is Native && final(self)@ == old(self)@,
            store matches Some(s) ==> final(s)@ == s@,
            store is None || old(self)@.contains_key(*font_key) ==> final(self)@ == old(self)@,
            r is Ok && !old(self)@.contains_key(*font_key) ==> (store matches Some(s)
                ==> final(self)@ == old(self)@.insert(
                *font_key,
                HeldFont { cached: s@[*font_key], shared: true },
            )),
            context_valid(old(self)@) && (store matches Some(s) ==> store_valid(s@))
                ==> context_valid(final(self)@),
    {
        if self.fonts.contains_key(&font_key.pack()) {
            return Ok(());
        }
        match store {
            None => Ok(()),
            Some(s) => {
                if !s.fonts.contains_key(&font_key.pack()) {
                    return Err(RegisterError::Native);
                }
                let cached = s.with_font(*font_key, FontTemplate::Native(native_font_handle));
                let held = HeldFont { cached, shared: true };
                proof {
                    lemma_keyed_insert(self.fonts@, *font_key, held);
                }
                self.fonts.insert(font_key.pack(), held);
                Ok(())
            },
        }
    }

    /// [`FontContext::try_add_native_font`] for an identity that is known.
    pub fn add_native_font(
        &mut self,
        store: Option<&mut FontCache>,
        font_key: &FontKey,
        native_font_handle: NativeFontHandle,
    )
        requires
            store matches Some(s) ==> old(self)@.contains_key(*font_key) || s@.contains_key(
                *font_key,
            ),
        ensures
            store matches Some(s) ==> final(s)@ == s@,
            store is None || old(self)@.contains_key(*font_key) ==> final(self)@ == old(self)@,
            !old(self)@.contains_key(*font_key) ==> (store matches Some(s) ==> final(self)@
                == old(self)@.insert(*font_key, HeldFont { cached: s@[*font_key], shared: true })),
            context_valid(old(self)@) && (store matches Some(s) ==> store_valid(s@))
                ==> context_valid(final(self)@),
    {
        match self.try_add_native_font(store, font_key, native_font_handle) {
            Ok(()) => {},
            Err(_) => vstd::pervasive::unreached(),
        }
    }

    /// Lets go of the font held under `font_key`; glyphs made from it stay
    /// valid. A font of the context's own is gone with that. A shared font
    /// is released at the store where the store is at hand: it leaves the
    /// store when no other context holds it, as [`FontCache::release`] says
    /// of the handles found to exist.
    pub fn delete_font(&mut self, store: Option<&mut FontCache>, font_key: &FontKey)
        ensures
            final(self)@ == old(self)@.remove(*font_key),
            store matches Some(s) ==> {
                if old(self)@.contains_key(*font_key) && old(self)@[*font_key].shared {
                    exists|owners: usize|
                        owners >= 1 && #[trigger] released(
                            s@,
                            old(self)@[*font_key].cached.hash,
                            owners,
                        ) == final(s)@
                } else {
                    final(s)@ == s@
                }
            },
            store matches Some(s) ==> (store_valid(s@) ==> store_valid(final(s)@)),
            context_valid(old(self)@) ==> context_valid(final(self)@),
    {
        proof {
            lemma_keyed_remove(self.fonts@, *font_key);
        }
        match self.fonts.remove(&font_key.pack()) {
            Some(held) => {
                if held.shared {
                    match store {
                        Some(s) => {
                            let owners = strong_count(&held.cached);
                            s.release(held.cached, owners);
                        },
                        None => {},
                    }
                }
            },
            None => {},
        }
    }

    /// This back end keeps nothing for an instance.
    pub fn delete_font_instance(&mut self, instance: &FontInstance)
        ensures
            final(self)@ == old(self)@,
    {
    }

    /// The glyph that the font under `font_key` maps `ch` to: none where the
    /// font is unknown or its character map does not hold `ch`.
    pub open spec fn glyph_index_of(&self, font_key: FontKey, ch: char) -> Option<u32> {
        if !self@.contains_key(font_key) {
            None
        } else if !font_glyph_ids(self@[font_key].cached.font).contains_key(ch) {
            None
        } else {
            Some(font_glyph_ids(self@[font_key].cached.font)[ch] as u32)
        }
    }

    /// Computes [`FontContext::glyph_index_of`].
    pub fn get_glyph_index(&self, font_key: FontKey, ch: char) -> (r: Option<u32>)
        ensures
            r == self.glyph_index_of(font_key, ch),
            r matches Some(index) ==> index != 0,
    {
        match self.fonts.get(&font_key.pack()) {
            None => None,
            Some(held) => {
                let index: u16 = lookup_glyph_index(&held.cached.font, ch);
                if index == 0 {
                    None
                } else {
                    Some(index as u32)
                }
            },
        }
    }

    /// The instance's font is held and has the glyph that the key asks for.
    pub open spec fn serves(&self, font: FontInstance, key: GlyphKey) -> bool {
        self@.contains_key(font.font_key) && glyph_id(key) < font_glyph_count(
            self@[font.font_key].cached.font,
        )
    }

    /// What the outline rasterizer is to render for `key`: none where
    /// [`FontContext::serves`] fails.
    pub fn raster_request(&self, font: &FontInstance, key: &GlyphKey) -> (r: Option<RasterRequest>)
        ensures
            r is Some == self.serves(*font, *key),
            r matches Some(request) ==> {
                &&& request.font == self@[font.font_key].cached
                &&& request.glyph == glyph_id(*key)
                &&& request.size == font.size
                &&& request.subpixel == (font.render_mode == FontRenderMode::Subpixel)
            },
    {
        match self.fonts.get(&font.font_key.pack()) {
            None => None,
            Some(held) => {
                let glyph: u16 = (key.index() & 0xFFFF) as u16;
                if glyph < glyph_count(&held.cached.font) {
                    Some(
                        RasterRequest {
                            font: held.cached.clone(),
                            glyph,
                            size: font.size,
                            subpixel: font.render_mode == FontRenderMode::Subpixel,
                        },
                    )
                } else {
                    None
                }
            },
        }
    }

    /// The dimensions that `metrics` give a glyph: none where the extent is
    /// empty or exceeds what the dimensions can hold.
    pub open spec fn dimensions_of(metrics: GlyphMetrics) -> Option<GlyphDimensions> {
        if metrics.width == 0 || metrics.height == 0 || metrics.width > i32::MAX || metrics.height
            > i32::MAX {
            None
        } else {
            Some(
                GlyphDimensions {
                    left: metrics.xmin,
                    top: metrics.ymin,
                    width: metrics.width as i32,
                    height: metrics.height as i32,
                    advance: metrics.advance_width,
                },
            )
        }
    }

    /// The dimensions of the glyph of `key`, given the metrics that the
    /// outline rasterizer measured for [`FontContext::raster_request`]: none
    /// where the font or the glyph is unknown, where the key asks for the
    /// missing glyph, index 0, where the size is zero, or where the metrics
    /// give none.
    pub fn get_glyph_dimensions(
        &mut self,
        font: &FontInstance,
        key: &GlyphKey,
        metrics: &GlyphMetrics,
    ) -> (r: Option<GlyphDimensions>)
        ensures
            final(self)@ == old(self)@,
            r == if old(self).serves(*font, *key) && !font.size.spec_is_zero() && glyph_id(*key)
                != 0 {
                FontContext::dimensions_of(*metrics)
            } else {
                None
            },
            r matches Some(d) ==> d.width > 0 && d.height > 0,
    {
        let request = match self.raster_request(font, key) {
            Some(request) => request,
            None => {
                return None;
            },
        };
        if font.size.is_zero() || request.glyph == 0 {
            return None;
        }
        if metrics.width == 0 || metrics.height == 0 || metrics.width > 0x7FFF_FFFF
            || metrics.height > 0x7FFF_FFFF {
            None
        } else {
            Some(
                GlyphDimensions {
                    left: metrics.xmin,
                    top: metrics.ymin,
                    width: metrics.width as i32,
                    height: metrics.height as i32,
                    advance: metrics.advance_width,
                },
            )
        }
    }

    /// Makes an instance ready for rasterization, as
    /// [`FontInstance::prepared`] says.
    pub fn prepare_font(font: &mut FontInstance)
        ensures
            *final(font) == old(font).prepared(),
    {
        match font.render_mode {
            FontRenderMode::Mono => {
                font.color = ColorU::new(0xFF, 0xFF, 0xFF, 0xFF);
                font.disable_subpixel_position();
            },
            FontRenderMode::Alpha | FontRenderMode::Subpixel => {
                font.color = ColorU::new(0xFF, 0xFF, 0xFF, 0xFF);
            },
        }
    }

    pub fn begin_rasterize(font: &FontInstance) {
    }

    pub fn end_rasterize(font: &FontInstance) {
    }

    /// The glyph of `key`, given what the outline rasterizer made of it. An
    /// unknown font or glyph fails. An outline image with an extent becomes
    /// the glyph. An empty one sends the search to the images embedded in
    /// the font data: the glyph is made from the drawing, else from the
    /// bitmap strike near `ppem` pixels per em, and fails where neither
    /// serves.
    pub open spec fn glyph_of(
        &self,
        font: FontInstance,
        key: GlyphKey,
        metrics: GlyphMetrics,
        coverage: Seq<u8>,
        ppem: u16,
    ) -> Result<GlyphView, GlyphRasterError> {
        if !self.serves(font, key) {
            Err(GlyphRasterError::LoadFailed)
        } else if !outline_is_empty(metrics) {
            outline_glyph_of(font, metrics, coverage)
        } else {
            embedded_glyph_of(
                font.size,
                self@[font.font_key].cached.data.0@,
                self@[font.font_key].cached.data.1,
                glyph_id(key),
                ppem,
            )
        }
    }

    /// Rasterizes the glyph of `key`, given the image that the outline
    /// rasterizer made for [`FontContext::raster_request`] and the size in
    /// whole pixels per em: the result is [`FontContext::glyph_of`], and the
    /// context stays as it is.
    pub fn rasterize_glyph(
        &mut self,
        font: &FontInstance,
        key: &GlyphKey,
        outline: &OutlineImage,
        ppem: u16,
    ) -> (r: GlyphRasterResult)
        ensures
            final(self)@ == old(self)@,
            outcome(r) == old(self).glyph_of(*font, *key, outline.metrics, outline.coverage@, ppem),
            r matches Ok(glyph) ==> glyph@.well_formed(),
    {
        let request = match self.raster_request(font, key) {
            Some(request) => request,
            None => {
                return Err(GlyphRasterError::LoadFailed);
            },
        };
        if outline.metrics.width == 0 || outline.metrics.height == 0 {
            match glyph_using_svg_or_raster(&request.font.data, request.glyph, ppem) {
                Some((image, x, y)) => color_glyph(font.size, &image, x, y),
                None => Err(GlyphRasterError::LoadFailed),
            }
        } else {
            outline_glyph(font, outline)
        }
    }
}

/// A context that registered new font data answers for every character what
/// the character map parsed from that data holds: its glyph for a mapped
/// character, nothing for any other, each time it is asked. That is so with
/// the store, whose font it then shares, and without it.
pub proof fn lemma_registered_font_answers_by_its_data(
    before: FontContext,
    after: FontContext,
    store: Option<Map<FontKey, Arc<CachedFont>>>,
    store_after: Map<FontKey, Arc<CachedFont>>,
    key: FontKey,
    bytes: Arc<Vec<u8>>,
    index: u32,
    ch: char,
)
    requires
        !before@.contains_key(key),
        store matches Some(fonts) ==> !fonts.contains_key(key) && took_shared(
            before@,
            after@,
            fonts,
            store_after,
            key,
            bytes,
            index,
        ),
        store is None ==> took_own(before@, after@, key, bytes, index),
    ensures
        parsed_glyph_ids(bytes@, index) matches Some(ids) && after.glyph_index_of(key, ch) == if
            ids.contains_key(ch) {
            Some(ids[ch] as u32)
        } else {
            None
        },
{
}

/// Rasterizing leaves the context as it is and gives what
/// [`FontContext::glyph_of`] names, so two contexts that hold the same fonts
/// give the same glyph for the same instance, key and outline image: asking
/// twice gives the same bytes.
pub proof fn lemma_rasterize_is_repeatable(
    first: FontContext,
    second: FontContext,
    font: FontInstance,
    key: GlyphKey,
    metrics: GlyphMetrics,
    coverage: Seq<u8>,
    ppem: u16,
)
    requires
        second@ == first@,
    ensures
        second.glyph_of(font, key, metrics, coverage, ppem) == first.glyph_of(
            font,
            key,
            metrics,
            coverage,
            ppem,
        ),
{
}

/// An outline image without an extent.
pub open spec fn outline_is_empty(metrics: GlyphMetrics) -> bool {
    metrics.width == 0 || metrics.height == 0
}

/// The format of a glyph rendered from its outline.
pub open spec fn outline_format(mode: FontRenderMode) -> GlyphFormat {
    match mode {
        FontRenderMode::Mono => GlyphFormat::Mono,
        FontRenderMode::Alpha => GlyphFormat::Alpha,
        FontRenderMode::Subpixel => GlyphFormat::Subpixel,
    }
}

/// Coverage values that an outline image holds for each pixel.
pub open spec fn channels(mode: FontRenderMode) -> int {
    if mode == FontRenderMode::Subpixel {
        3
    } else {
        1
    }
}

/// The index in the face that a glyph key asks for: its low sixteen bits.
pub open spec fn glyph_id(key: GlyphKey) -> u16 {
    (key.index & 0xFFFF) as u16
}

/// The glyph made from an outline image. The image is refused where it is
/// empty, where a side exceeds what the glyph's extent can hold, or where
/// the coverage does not fill the extent. Otherwise the coverage becomes
/// pixels, the top edge lies `height + ymin` above the baseline, and the
/// scale is one.
pub open spec fn outline_glyph_of(font: FontInstance, metrics: GlyphMetrics, coverage: Seq<u8>)
    -> Result<GlyphView, GlyphRasterError> {
    if metrics.width == 0 || metrics.height == 0 || metrics.width > i32::MAX || metrics.height
        > i32::MAX || coverage.len() != channels(font.render_mode) * (metrics.width
        * metrics.height) {
        Err(GlyphRasterError::LoadFailed)
    } else {
        Ok(
            GlyphView {
                top: metrics.height + metrics.ymin,
                left: metrics.xmin as int,
                width: metrics.width as int,
                height: metrics.height as int,
                scale: GlyphScale::Unit,
                format: outline_format(font.render_mode),
                bytes: if font.render_mode == FontRenderMode::Subpixel {
                    subpixel_pixels(coverage, font.flags.has(SUBPIXEL_BGR))
                } else {
                    mask_pixels(coverage)
                },
            },
        )
    }
}

/// The larger of two sides.
pub open spec fn larger(a: u32, b: u32) -> u32 {
    if a >= b {
        a
    } else {
        b
    }
}

/// The glyph made from an embedded color image placed at `(x, y)`. The
/// image is refused where it is empty, where a side exceeds what the glyph's
/// extent can hold, or where its bytes are not four for each pixel.
/// Otherwise its channels are reordered, the top edge lies `height + y`
/// above the baseline, and the scale is the size over the larger side.
pub open spec fn color_glyph_of(
    size: FontSize,
    width: u32,
    height: u32,
    pixels: Seq<u8>,
    x: i16,
    y: i16,
) -> Result<GlyphView, GlyphRasterError> {
    if width == 0 || height == 0 || width > i32::MAX || height > i32::MAX || pixels.len() != 4 * (
    width * height) {
        Err(GlyphRasterError::LoadFailed)
    } else {
        Ok(
            GlyphView {
                top: height + y,
                left: x as int,
                width: width as int,
                height: height as int,
                scale: GlyphScale::Ratio { size, extent: larger(width, height) },
                format: GlyphFormat::ColorBitmap,
                bytes: color_pixels(pixels, false),
            },
        )
    }
}

/// Every glyph made from an outline image has a positive extent and four
/// bytes for each of its pixels.
pub proof fn lemma_outline_glyph_well_formed(
    font: FontInstance,
    metrics: GlyphMetrics,
    coverage: Seq<u8>,
)
    ensures
        outline_glyph_of(font, metrics, coverage) matches Ok(g) ==> g.well_formed(),
{
    if outline_glyph_of(font, metrics, coverage) is Ok {
        let area = metrics.width * metrics.height;
        assert(area > 0) by (nonlinear_arith)
            requires
                area == metrics.width * metrics.height,
                metrics.width > 0,
                metrics.height > 0,
        ;
        if font.render_mode == FontRenderMode::Subpixel {
            assert((3 * area) / 3 == area);
        }
    }
}

/// Every glyph made from an embedded image has a positive extent and four
/// bytes for each of its pixels.
pub proof fn lemma_color_glyph_well_formed(
    size: FontSize,
    width: u32,
    height: u32,
    pixels: Seq<u8>,
    x: i16,
    y: i16,
)
    ensures
        color_glyph_of(size, width, height, pixels, x, y) matches Ok(g) ==> g.well_formed(),
{
    if color_glyph_of(size, width, height, pixels, x, y) is Ok {
        let area = width * height;
        assert((4 * area) / 4 == area);
    }
}

/// Builds the glyph of an outline image, as [`outline_glyph_of`] says.
pub fn outline_glyph(font: &FontInstance, outline: &OutlineImage) -> (r: GlyphRasterResult)
    ensures
        outcome(r) == outline_glyph_of(*font, outline.metrics, outline.coverage@),
        r matches Ok(glyph) ==> glyph@.well_formed(),
{
    proof {
        lemma_outline_glyph_well_formed(*font, outline.metrics, outline.coverage@);
    }
    let metrics = outline.metrics;
    if metrics.width == 0 || metrics.height == 0 || metrics.width > 0x7FFF_FFFF || metrics.height
        > 0x7FFF_FFFF {
        return Err(GlyphRasterError::LoadFailed);
    }
    let subpixel = font.render_mode == FontRenderMode::Subpixel;
    let per_pixel: u64 = if subpixel { 3 } else { 1 };
    assert(metrics.width * metrics.height <= 0x7FFF_FFFF * 0x7FFF_FFFF) by (nonlinear_arith)
        requires
            metrics.width <= 0x7FFF_FFFF,
            metrics.height <= 0x7FFF_FFFF,
    ;
    let area: u64 = (metrics.width as u64) * (metrics.height as u64);
    if (outline.coverage.len() as u64) != per_pixel * area {
        return Err(GlyphRasterError::LoadFailed);
    }
    let bytes = if subpixel {
        subpixel_to_bgra(&outline.coverage, font.flags.contains(SUBPIXEL_BGR))
    } else {
        mask_to_bgra(&outline.coverage)
    };
    Ok(
        RasterizedGlyph {
            top: metrics.height as i64 + metrics.ymin as i64,
            left: metrics.xmin as i64,
            width: metrics.width as i32,
            height: metrics.height as i32,
            scale: GlyphScale::Unit,
            format: match font.render_mode {
                FontRenderMode::Mono => GlyphFormat::Mono,
                FontRenderMode::Alpha => GlyphFormat::Alpha,
                FontRenderMode::Subpixel => GlyphFormat::Subpixel,
            },
            bytes,
        },
    )
}

/// Builds the glyph of an embedded color image, as [`color_glyph_of`] says.
pub fn color_glyph(size: FontSize, image: &EmbeddedImage, x: i16, y: i16) -> (r: GlyphRasterResult)
    ensures
        outcome(r) == color_glyph_of(size, image.width, image.height, image.pixels@, x, y),
        r matches Ok(glyph) ==> glyph@.well_formed(),
{
    proof {
        lemma_color_glyph_well_formed(size, image.width, image.height, image.pixels@, x, y);
    }
    if image.width == 0 || image.height == 0 || image.width > 0x7FFF_FFFF || image.height
        > 0x7FFF_FFFF {
        return Err(GlyphRasterError::LoadFailed);
    }
    assert(image.width * image.height <= 0x7FFF_FFFF * 0x7FFF_FFFF) by (nonlinear_arith)
        requires
            image.width <= 0x7FFF_FFFF,
            image.height <= 0x7FFF_FFFF,
    ;
    let area: u64 = (image.width as u64) * (image.height as u64);
    if (image.pixels.len() as u64) != 4 * area {
        return Err(GlyphRasterError::LoadFailed);
    }
    let extent: u32 = if image.width >= image.height {
        image.width
    } else {
        image.height
    };
    Ok(
        RasterizedGlyph {
            top: image.height as i64 + y as i64,
            left: x as i64,
            width: image.width as i32,
            height: image.height as i32,
            scale: GlyphScale::Ratio { size, extent },
            format: GlyphFormat::ColorBitmap,
            bytes: color_to_bgra(&image.pixels, false),
        },
    )
}

/// An extent gives a canvas: its sides are at least one pixel, a row takes
/// no more bytes than `i32` counts, and the whole no more than a vector
/// holds.
pub open spec fn fits_canvas(width: u32, height: u32) -> bool {
    &&& width >= 1
    &&& height >= 1
    &&& 4 * width <= i32::MAX
    &&& 4 * (width * height) <= isize::MAX
}

/// An image is a canvas: its extent gives one, and there are four bytes for
/// each pixel.
pub open spec fn is_canvas(image: EmbeddedImage) -> bool {
    &&& fits_canvas(image.width, image.height)
    &&& image.pixels@.len() == 4 * (image.width * image.height)
}

/// `r` is the image of the given extent and bytes, or none where there is
/// none.
pub open spec fn is_image(r: Option<EmbeddedImage>, image: Option<(u32, u32, Seq<u8>)>) -> bool {
    match image {
        Some((width, height, pixels)) => r matches Some(found) && found.width == width
            && found.height == height && found.pixels@ == pixels,
        None => r is None,
    }
}

/// `r` is the image of the given extent and bytes at the given place, or
/// none where there is none.
pub open spec fn is_placed(
    r: Option<(EmbeddedImage, i16, i16)>,
    image: Option<(u32, u32, Seq<u8>, i16, i16)>,
) -> bool {
    match image {
        Some((width, height, pixels, x, y)) => r matches Some((found, rx, ry)) && found.width
            == width && found.height == height && found.pixels@ == pixels && rx == x && ry == y,
        None => r is None,
    }
}

/// `r` is what the strike decodes to, placed at the strike's offsets.
pub open spec fn found_strike(
    r: Option<(EmbeddedImage, i16, i16)>,
    strike: Option<(i16, i16, Seq<u8>)>,
) -> bool {
    is_placed(r, strike_image(strike))
}

/// The image that a bitmap strike decodes to, at the strike's offsets.
pub open spec fn strike_image(strike: Option<(i16, i16, Seq<u8>)>) -> Option<
    (u32, u32, Seq<u8>, i16, i16),
> {
    match strike {
        Some((x, y, data)) => match png_image(data) {
            Some((width, height, pixels)) => Some((width, height, pixels, x, y)),
            None => None,
        },
        None => None,
    }
}

/// The image that a document renders to: what it draws, where it parses and
/// its extent gives a canvas.
pub open spec fn document_image(document: Seq<u8>) -> Option<(u32, u32, Seq<u8>)> {
    match svg_drawing(document) {
        Some((width, height, pixels)) => if fits_canvas(width, height) {
            Some((width, height, pixels))
        } else {
            None
        },
        None => None,
    }
}

/// The image embedded for `glyph` in face `index` of `bytes`: the drawing
/// rendered at its natural size and placed at the origin where the face
/// holds one that renders, else the bitmap strike near `ppem` pixels per em,
/// decoded and placed at its own offsets.
pub open spec fn embedded_image_of(bytes: Seq<u8>, index: u32, glyph: u16, ppem: u16) -> Option<
    (u32, u32, Seq<u8>, i16, i16),
> {
    let drawing = match embedded_svg(bytes, index, glyph) {
        Some(document) => document_image(document),
        None => None,
    };
    match drawing {
        Some((width, height, pixels)) => Some((width, height, pixels, 0i16, 0i16)),
        None => strike_image(embedded_raster(bytes, index, glyph, ppem)),
    }
}

/// The glyph made from the image embedded for `glyph`, or a failure where
/// there is none.
pub open spec fn embedded_glyph_of(size: FontSize, bytes: Seq<u8>, index: u32, glyph: u16, ppem: u16)
    -> Result<GlyphView, GlyphRasterError> {
    match embedded_image_of(bytes, index, glyph, ppem) {
        Some((width, height, pixels, x, y)) => color_glyph_of(size, width, height, pixels, x, y),
        None => Err(GlyphRasterError::LoadFailed),
    }
}

/// Paints a parsed document onto a fresh canvas of the given extent and
/// hands the canvas out as an image: there is one exactly where the extent
/// gives a canvas, and at the document's own extent it holds what the
/// document draws.
pub fn render_tree(tree: &usvg::Tree, width: u32, height: u32) -> (r: Option<EmbeddedImage>)
    ensures
        r is Some == fits_canvas(width, height),
        r matches Some(image) ==> is_canvas(image) && image.width == width && image.height
            == height,
        r matches Some(image) ==> (tree_extent(*tree) == (width, height) ==> image.pixels@
            == tree_painting(*tree)),
{
    assert(width * height <= 0xFFFF_FFFF * 0xFFFF_FFFF) by (nonlinear_arith)
        requires
            width <= 0xFFFF_FFFF,
            height <= 0xFFFF_FFFF,
    ;
    let area: u64 = (width as u64) * (height as u64);
    if area > (isize::MAX as u64) / 4 {
        return None;
    }
    let mut pixmap = match new_pixmap(width, height) {
        Some(pixmap) => pixmap,
        None => {
            return None;
        },
    };
    render_svg(tree, &mut pixmap);
    Some(pixmap_image(&pixmap))
}

/// Renders an SVG document at its natural size: the image is
/// [`document_image`], none where the document does not parse or its size
/// gives no canvas.
pub fn render_document(document: &Vec<u8>) -> (r: Option<EmbeddedImage>)
    ensures
        is_image(r, document_image(document@)),
        r matches Some(image) ==> is_canvas(image),
{
    match parse_svg(document) {
        Some(tree) => {
            let (width, height) = svg_size(&tree);
            render_tree(&tree, width, height)
        },
        None => None,
    }
}

/// Settles the search for an embedded image once the drawing is rendered: a
/// drawing is the image, placed at the origin; without one the image is
/// what the bitmap strike near `ppem` pixels per em decodes to, at the
/// strike's offsets, and there is none where that fails too.
pub fn embedded_image_given(
    drawing: Option<EmbeddedImage>,
    data: &(Arc<Vec<u8>>, u32),
    glyph: u16,
    ppem: u16,
) -> (r: Option<(EmbeddedImage, i16, i16)>)
    ensures
        drawing matches Some(image) ==> r == Some((image, 0i16, 0i16)),
        drawing is None ==> found_strike(r, embedded_raster(data.0@, data.1, glyph, ppem)),
{
    match drawing {
        Some(image) => Some((image, 0, 0)),
        None => match embedded_raster_image(&data.0, data.1, glyph, ppem) {
            Some(strike) => match decode_png(&strike.data) {
                Some(image) => Some((image, strike.x, strike.y)),
                None => None,
            },
            None => None,
        },
    }
}

/// Looks for the image of `glyph` embedded in the font data, as
/// [`embedded_image_of`] says: the drawing comes first, and the bitmap
/// strike is tried where there is no drawing or it does not render.
pub fn glyph_using_svg_or_raster(data: &(Arc<Vec<u8>>, u32), glyph: u16, ppem: u16) -> (r: Option<
    (EmbeddedImage, i16, i16),
>)
    ensures
        is_placed(r, embedded_image_of(data.0@, data.1, glyph, ppem)),
{
    let drawing = match embedded_svg_image(&data.0, data.1, glyph) {
        Some(document) => render_document(&document),
        None => None,
    };
    embedded_image_given(drawing, data, glyph, ppem)
}

} // verus!
