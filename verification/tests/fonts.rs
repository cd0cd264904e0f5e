use std::sync::Arc;
use wr_glyph_rasterizer::backend::fontdue::font::{
    color_glyph, embedded_image_given, glyph_using_svg_or_raster, last_holder, outline_glyph,
    render_document, CachedFont, FontCache, FontContext, GlyphMetrics, OutlineImage,
    RegisterError,
};
use wr_glyph_rasterizer::backend::fontdue::face::EmbeddedImage;
use wr_glyph_rasterizer::backend::swash::font::{
    image_glyph, Content, Evicted, FontContext as ScalerContext, GlyphImage, LoadError, Placement,
};
use wr_glyph_rasterizer::rasterizer::{
    FontInstance, FontTransform, GlyphFormat, GlyphKey, GlyphRasterError, GlyphScale,
    SubpixelOffset,
};
use wr_glyph_rasterizer::types::{
    ColorU, FontInstanceFlags, FontInstanceKey, FontKey, FontRenderMode, FontSize, FontTemplate,
    GlyphDimensions, IdNamespace, NativeFontHandle, EMBEDDED_BITMAPS, SUBPIXEL_BGR,
    SUBPIXEL_POSITION,
};

fn put16(out: &mut Vec<u8>, v: u16) {
    out.extend_from_slice(&v.to_be_bytes());
}

fn put32(out: &mut Vec<u8>, v: u32) {
    out.extend_from_slice(&v.to_be_bytes());
}

fn words(values: &[u16]) -> Vec<u8> {
    let mut out = Vec::new();
    for v in values {
        put16(&mut out, *v);
    }
    out
}

/// A TrueType file of the given tables.
fn sfnt(mut tables: Vec<([u8; 4], Vec<u8>)>) -> Vec<u8> {
    tables.sort_by(|a, b| a.0.cmp(&b.0));
    let count = tables.len() as u16;
    let mut selector = 0u16;
    while (2u16 << selector) <= count {
        selector += 1;
    }
    let range = (1u16 << selector) * 16;
    let mut out = Vec::new();
    put32(&mut out, 0x0001_0000);
    put16(&mut out, count);
    put16(&mut out, range);
    put16(&mut out, selector);
    put16(&mut out, count * 16 - range);
    let mut offset = 12 + 16 * tables.len();
    for (tag, data) in &tables {
        out.extend_from_slice(tag);
        put32(&mut out, 0);
        put32(&mut out, offset as u32);
        put32(&mut out, data.len() as u32);
        offset += (data.len() + 3) / 4 * 4;
    }
    for (_, data) in &tables {
        out.extend_from_slice(data);
        while out.len() % 4 != 0 {
            out.push(0);
        }
    }
    out
}

/// Four glyphs at 1000 units per em: an empty missing glyph, a box from
/// (100, 0) to (500, 700) for `A`, a glyph without outline for `B`, and a
/// box from (50, -100) to (550, 400) for `C`.
fn base_tables() -> Vec<([u8; 4], Vec<u8>)> {
    let mut head = Vec::new();
    put32(&mut head, 0x0001_0000);
    put32(&mut head, 0x0001_0000);
    put32(&mut head, 0);
    put32(&mut head, 0x5F0F_3CF5);
    put16(&mut head, 0);
    put16(&mut head, 1000);
    head.extend_from_slice(&[0; 16]);
    head.extend_from_slice(&words(&[0, 0, 500, 700, 0, 8, 2, 0, 0]));

    let mut hhea = Vec::new();
    put32(&mut hhea, 0x0001_0000);
    hhea.extend_from_slice(&words(&[800, 0xFF38, 0, 600, 0, 0, 600, 1, 0, 0, 0, 0, 0, 0, 0, 4]));

    let mut maxp = Vec::new();
    put32(&mut maxp, 0x0001_0000);
    maxp.extend_from_slice(&words(&[4, 4, 1, 0, 0, 1, 0, 0, 0, 0, 0, 0, 0, 0]));

    let hmtx = words(&[600, 0, 600, 100, 600, 0, 700, 50]);

    let cmap = words(&[
        0, 1, 0, 3, 0, 12, // header and one record, subtable at 12
        4, 32, 0, 4, 4, 1, 0, // format 4, two segments
        0x43, 0xFFFF, 0, 0x41, 0xFFFF, // end codes, pad, start codes
        0xFFC0, 1, 0, 0, // deltas and range offsets
    ]);

    let mut glyf = words(&[1, 100, 0, 500, 700, 3, 0]);
    glyf.extend_from_slice(&[1, 1, 1, 1]);
    glyf.extend_from_slice(&words(&[100, 0, 400, 0]));
    glyf.extend_from_slice(&words(&[0, 700, 0, 0xFD44]));
    let first = (glyf.len() / 2) as u16;
    glyf.extend_from_slice(&words(&[1, 50, 0xFF9C, 550, 400, 3, 0]));
    glyf.extend_from_slice(&[1, 1, 1, 1]);
    glyf.extend_from_slice(&words(&[50, 0, 500, 0]));
    glyf.extend_from_slice(&words(&[0xFF9C, 500, 0, 0xFE0C]));
    let loca = words(&[0, 0, first, first, (glyf.len() / 2) as u16]);

    vec![
        (*b"head", head),
        (*b"hhea", hhea),
        (*b"maxp", maxp),
        (*b"hmtx", hmtx),
        (*b"cmap", cmap),
        (*b"glyf", glyf),
        (*b"loca", loca),
    ]
}

fn plain_font() -> Vec<u8> {
    sfnt(base_tables())
}

/// The plain font with one bitmap strike at 16 pixels per em that holds
/// `image` for glyph 2 at the offset (3, -4).
fn strike_font(image: &[u8]) -> Vec<u8> {
    let mut tables = base_tables();
    tables.push((*b"sbix", sbix_table(image)));
    sfnt(tables)
}

fn sbix_table(image: &[u8]) -> Vec<u8> {
    let mut sbix = Vec::new();
    put16(&mut sbix, 1);
    put16(&mut sbix, 1);
    put32(&mut sbix, 1);
    put32(&mut sbix, 12);
    put16(&mut sbix, 16);
    put16(&mut sbix, 72);
    let first = 4 + 4 * 5;
    let end = first + 8 + image.len();
    for offset in [first, first, first, end, end] {
        put32(&mut sbix, offset as u32);
    }
    put16(&mut sbix, 3);
    put16(&mut sbix, 0xFFFC);
    sbix.extend_from_slice(b"png ");
    sbix.extend_from_slice(image);
    sbix
}

/// The plain font with an SVG document for glyph 2.
fn svg_font(document: &[u8]) -> Vec<u8> {
    let mut tables = base_tables();
    tables.push((*b"SVG ", svg_table(document)));
    sfnt(tables)
}

fn svg_table(document: &[u8]) -> Vec<u8> {
    let mut svg = Vec::new();
    put16(&mut svg, 0);
    put32(&mut svg, 10);
    put32(&mut svg, 0);
    put16(&mut svg, 1);
    put16(&mut svg, 2);
    put16(&mut svg, 2);
    put32(&mut svg, 14);
    put32(&mut svg, document.len() as u32);
    svg.extend_from_slice(document);
    svg
}

/// The plain font with both a drawing and a bitmap strike for glyph 2.
fn svg_and_strike_font(document: &[u8], image: &[u8]) -> Vec<u8> {
    let mut tables = base_tables();
    tables.push((*b"SVG ", svg_table(document)));
    tables.push((*b"sbix", sbix_table(image)));
    sfnt(tables)
}

const RED_SQUARE: &str = "<svg xmlns=\"http://www.w3.org/2000/svg\" width=\"2\" height=\"2\">\
<rect width=\"2\" height=\"2\" fill=\"#ff0000\"/></svg>";

/// A PNG of two pixels in a row.
fn two_pixel_png() -> Vec<u8> {
    let mut pixmap = tiny_skia::Pixmap::new(2, 1).unwrap();
    pixmap.data_mut().copy_from_slice(&[10, 20, 30, 255, 40, 50, 60, 255]);
    pixmap.encode_png().unwrap()
}

fn key() -> FontKey {
    FontKey::new(IdNamespace(1), 7)
}

fn sixteen() -> FontSize {
    FontSize::from_bits(16.0f32.to_bits())
}

fn instance(mode: FontRenderMode, bits: u32) -> FontInstance {
    FontInstance {
        instance_key: FontInstanceKey(IdNamespace(1), 100),
        font_key: key(),
        size: sixteen(),
        transform: FontTransform::identity(),
        render_mode: mode,
        flags: FontInstanceFlags::from_bits(bits),
        color: ColorU::new(255, 255, 255, 255),
    }
}

fn glyph(index: u32) -> GlyphKey {
    GlyphKey::new(index, SubpixelOffset::Zero, SubpixelOffset::Zero)
}

fn in_store(store: &FontCache, key: FontKey) -> bool {
    store.fonts.contains_key(&key.pack())
}

fn held(context: &FontContext, key: FontKey) -> Arc<CachedFont> {
    context.fonts.get(&key.pack()).unwrap().cached.clone()
}

/// A context that holds `bytes` under the usual identity.
fn context_with(bytes: Vec<u8>) -> FontContext {
    let mut store = FontCache::new();
    let mut context = FontContext::new();
    context.try_add_raw_font(Some(&mut store), &key(), Arc::new(bytes), 0).unwrap();
    context
}

/// What the outline rasterizer makes of the request, as a caller hands it on.
fn outline_for(context: &FontContext, font: &FontInstance, key: &GlyphKey) -> OutlineImage {
    let request = context.raster_request(font, key).unwrap();
    let px = f32::from_bits(request.size.to_bits());
    let (metrics, coverage) = if request.subpixel {
        request.font.font.rasterize_indexed_subpixel(request.glyph, px)
    } else {
        request.font.font.rasterize_indexed(request.glyph, px)
    };
    OutlineImage {
        metrics: GlyphMetrics {
            xmin: metrics.xmin,
            ymin: metrics.ymin,
            width: metrics.width,
            height: metrics.height,
            advance_width: metrics.advance_width.to_bits(),
        },
        coverage,
    }
}

fn empty_outline() -> OutlineImage {
    OutlineImage {
        metrics: GlyphMetrics { xmin: 0, ymin: 0, width: 0, height: 0, advance_width: 0 },
        coverage: Vec::new(),
    }
}

#[test]
fn new_store_and_context_are_empty() {
    assert!(FontCache::new().fonts.is_empty());
    assert!(FontContext::new().fonts.is_empty());
    let scaler = ScalerContext::new();
    assert!(scaler.fonts.is_empty());
    assert!(scaler.cache.is_empty());
}

#[test]
fn registering_font_data_files_it() {
    let mut store = FontCache::new();
    let bytes = Arc::new(plain_font());
    let cached = store.try_with_font(key(), FontTemplate::Raw(bytes.clone(), 0)).unwrap();
    assert_eq!(cached.hash, key());
    assert_eq!(*cached.data.0, *bytes);
    assert_eq!(cached.data.1, 0);
    assert_eq!(cached.font.glyph_count(), 4);
    assert_eq!(store.fonts.len(), 1);
    assert!(Arc::ptr_eq(&cached, store.fonts.get(&key().pack()).unwrap()));
}

#[test]
fn data_that_is_no_font_is_reported_and_not_filed() {
    let mut store = FontCache::new();
    let result = store.try_with_font(key(), FontTemplate::Raw(Arc::new(vec![1, 2, 3, 4]), 0));
    assert!(matches!(result, Err(RegisterError::Parse(_))));
    assert!(store.fonts.is_empty());
    let result = store.try_with_font(key(), FontTemplate::Raw(Arc::new(Vec::new()), 0));
    assert!(matches!(result, Err(RegisterError::Parse(_))));
    assert!(store.fonts.is_empty());
}

#[test]
fn platform_handle_is_reported_unless_the_identity_is_known() {
    let mut store = FontCache::new();
    let result = store.try_with_font(key(), FontTemplate::Native(NativeFontHandle(5)));
    assert!(matches!(result, Err(RegisterError::Native)));
    assert!(store.fonts.is_empty());
    let first = store.with_font(key(), FontTemplate::Raw(Arc::new(plain_font()), 0));
    let again = store.try_with_font(key(), FontTemplate::Native(NativeFontHandle(5))).unwrap();
    assert!(Arc::ptr_eq(&first, &again));
    let third = store.with_font(key(), FontTemplate::Native(NativeFontHandle(5)));
    assert!(Arc::ptr_eq(&first, &third));
}

#[test]
fn known_identity_keeps_its_font_whatever_is_registered() {
    let mut store = FontCache::new();
    let first = store.with_font(key(), FontTemplate::Raw(Arc::new(plain_font()), 0));
    let second = store.try_with_font(key(), FontTemplate::Raw(Arc::new(vec![9, 9]), 3)).unwrap();
    assert!(Arc::ptr_eq(&first, &second));
    assert_eq!(second.data.1, 0);
    assert_eq!(store.fonts.len(), 1);
    let third = store.with_font(key(), FontTemplate::Raw(Arc::new(plain_font()), 0));
    assert!(Arc::ptr_eq(&first, &third));
    assert_eq!(store.fonts.len(), 1);
}

#[test]
fn release_goes_by_the_handles_that_exist() {
    assert!(last_holder(0) && last_holder(1) && last_holder(2));
    assert!(!last_holder(3) && !last_holder(usize::MAX));
    let mut store = FontCache::new();
    let other = FontKey::new(IdNamespace(1), 8);
    let a = store.with_font(key(), FontTemplate::Raw(Arc::new(plain_font()), 0));
    store.with_font(other, FontTemplate::Raw(Arc::new(plain_font()), 0));
    store.release(a.clone(), 3);
    assert!(in_store(&store, key()));
    store.release(a.clone(), 7);
    assert!(in_store(&store, key()));
    store.release(a.clone(), 2);
    assert!(!in_store(&store, key()));
    assert!(in_store(&store, other));
    store.release(a, 2);
    assert_eq!(store.fonts.len(), 1);
}

#[test]
fn store_deletes_the_font_it_is_handed() {
    let mut store = FontCache::new();
    let other = FontKey::new(IdNamespace(1), 8);
    let a = store.with_font(key(), FontTemplate::Raw(Arc::new(plain_font()), 0));
    let c = store.with_font(other, FontTemplate::Raw(Arc::new(plain_font()), 0));
    store.delete_font(a.clone());
    assert!(!in_store(&store, key()));
    assert!(in_store(&store, other));
    store.delete_font(a);
    assert_eq!(store.fonts.len(), 1);
    store.delete_font(c);
    assert!(store.fonts.is_empty());
}

#[test]
fn two_contexts_share_one_font_until_the_last_lets_go() {
    let mut store = FontCache::new();
    let mut first = FontContext::new();
    let mut second = FontContext::new();
    let bytes = Arc::new(plain_font());
    first.add_raw_font(Some(&mut store), &key(), bytes.clone(), 0);
    second.add_raw_font(Some(&mut store), &key(), bytes.clone(), 0);
    assert!(Arc::ptr_eq(&held(&first, key()), &held(&second, key())));
    assert!(first.fonts.get(&key().pack()).unwrap().shared);
    assert_eq!(first.get_glyph_index(key(), 'A'), Some(1));
    assert_eq!(second.get_glyph_index(key(), 'A'), Some(1));

    first.delete_font(Some(&mut store), &key());
    assert!(first.fonts.is_empty());
    assert!(in_store(&store, key()));
    assert!(Arc::ptr_eq(store.fonts.get(&key().pack()).unwrap(), &held(&second, key())));
    assert_eq!(second.get_glyph_index(key(), 'A'), Some(1));

    second.delete_font(Some(&mut store), &key());
    assert!(second.fonts.is_empty());
    assert!(store.fonts.is_empty());
}

#[test]
fn last_context_evicts_after_another_let_go_without_the_store() {
    let mut store = FontCache::new();
    let mut first = FontContext::new();
    let mut second = FontContext::new();
    let bytes = Arc::new(plain_font());
    first.add_raw_font(Some(&mut store), &key(), bytes.clone(), 0);
    second.add_raw_font(Some(&mut store), &key(), bytes.clone(), 0);
    first.delete_font(None, &key());
    assert!(first.fonts.is_empty());
    assert!(in_store(&store, key()));
    second.delete_font(Some(&mut store), &key());
    assert!(second.fonts.is_empty());
    assert!(store.fonts.is_empty());
}

#[test]
fn adding_a_known_identity_changes_nothing() {
    let mut store = FontCache::new();
    let mut context = FontContext::new();
    context.add_raw_font(Some(&mut store), &key(), Arc::new(plain_font()), 0);
    let first = held(&context, key());
    context.add_raw_font(Some(&mut store), &key(), Arc::new(strike_font(&two_pixel_png())), 0);
    assert!(context.try_add_raw_font(Some(&mut store), &key(), Arc::new(vec![0]), 0).is_ok());
    assert!(context.try_add_raw_font(None, &key(), Arc::new(vec![0]), 0).is_ok());
    context.add_native_font(Some(&mut store), &key(), NativeFontHandle(1));
    assert_eq!(context.fonts.len(), 1);
    assert!(Arc::ptr_eq(&first, &held(&context, key())));
    assert_eq!(store.fonts.len(), 1);
    assert_eq!(Arc::strong_count(&first), 3);
}

#[test]
fn without_the_store_a_context_parses_a_font_of_its_own() {
    let mut store = FontCache::new();
    let mut sharing = FontContext::new();
    sharing.add_raw_font(Some(&mut store), &key(), Arc::new(plain_font()), 0);

    let mut alone = FontContext::new();
    alone.add_raw_font(None, &key(), Arc::new(plain_font()), 0);
    assert_eq!(alone.fonts.len(), 1);
    assert!(!alone.fonts.get(&key().pack()).unwrap().shared);
    let own = held(&alone, key());
    assert_eq!(own.hash, key());
    assert_eq!(own.data.1, 0);
    assert!(!Arc::ptr_eq(&own, &held(&sharing, key())));
    assert_eq!(alone.get_glyph_index(key(), 'A'), Some(1));
    assert_eq!(alone.get_glyph_index(key(), 'D'), None);
    assert!(alone.raster_request(&instance(FontRenderMode::Alpha, 0), &glyph(1)).is_some());
    assert_eq!(store.fonts.len(), 1);

    alone.delete_font(Some(&mut store), &key());
    assert!(alone.fonts.is_empty());
    assert!(in_store(&store, key()));
    assert!(Arc::ptr_eq(store.fonts.get(&key().pack()).unwrap(), &held(&sharing, key())));
    assert_eq!(sharing.get_glyph_index(key(), 'A'), Some(1));
}

#[test]
fn without_the_store_data_that_is_no_font_is_reported() {
    let mut context = FontContext::new();
    let result = context.try_add_raw_font(None, &key(), Arc::new(vec![1]), 0);
    assert!(matches!(result, Err(RegisterError::Parse(_))));
    assert!(context.fonts.is_empty());
    assert_eq!(context.get_glyph_index(key(), 'A'), None);
}

#[test]
fn adding_data_that_is_no_font_is_reported() {
    let mut store = FontCache::new();
    let mut context = FontContext::new();
    let result = context.try_add_raw_font(Some(&mut store), &key(), Arc::new(vec![7; 64]), 0);
    assert!(matches!(result, Err(RegisterError::Parse(_))));
    assert!(context.fonts.is_empty());
    assert!(store.fonts.is_empty());
}

#[test]
fn native_font_is_taken_from_the_store() {
    let mut store = FontCache::new();
    let mut first = FontContext::new();
    let mut second = FontContext::new();
    first.add_raw_font(Some(&mut store), &key(), Arc::new(plain_font()), 0);
    second.add_native_font(Some(&mut store), &key(), NativeFontHandle(1));
    assert!(Arc::ptr_eq(&held(&first, key()), &held(&second, key())));
    assert!(second.fonts.get(&key().pack()).unwrap().shared);
    assert_eq!(second.get_glyph_index(key(), 'A'), Some(1));
}

#[test]
fn unknown_platform_handle_is_reported() {
    let mut store = FontCache::new();
    let mut context = FontContext::new();
    let result = context.try_add_native_font(Some(&mut store), &key(), NativeFontHandle(1));
    assert!(matches!(result, Err(RegisterError::Native)));
    assert!(context.fonts.is_empty());
    assert!(store.fonts.is_empty());
    assert!(context.try_add_native_font(None, &key(), NativeFontHandle(1)).is_ok());
    context.add_native_font(None, &key(), NativeFontHandle(1));
    assert!(context.fonts.is_empty());
}

#[test]
fn deleting_without_the_store_leaves_the_store() {
    let mut store = FontCache::new();
    let mut context = FontContext::new();
    context.add_raw_font(Some(&mut store), &key(), Arc::new(plain_font()), 0);
    context.delete_font(None, &key());
    assert!(context.fonts.is_empty());
    assert!(in_store(&store, key()));
    assert_eq!(Arc::strong_count(store.fonts.get(&key().pack()).unwrap()), 1);
    context.delete_font(Some(&mut store), &key());
    assert!(in_store(&store, key()));
}

#[test]
fn deleting_an_instance_keeps_the_font() {
    let mut context = context_with(plain_font());
    context.delete_font_instance(&instance(FontRenderMode::Alpha, 0));
    assert_eq!(context.get_glyph_index(key(), 'A'), Some(1));
}

#[test]
fn glyph_index_is_none_for_unmapped_characters_and_stable_for_mapped() {
    let context = context_with(plain_font());
    assert_eq!(context.get_glyph_index(key(), 'A'), Some(1));
    assert_eq!(context.get_glyph_index(key(), 'B'), Some(2));
    assert_eq!(context.get_glyph_index(key(), 'C'), Some(3));
    assert_eq!(context.get_glyph_index(key(), 'D'), None);
    assert_eq!(context.get_glyph_index(key(), '@'), None);
    assert_eq!(context.get_glyph_index(key(), '\u{0}'), None);
    assert_eq!(context.get_glyph_index(key(), '\u{1F600}'), None);
    for _ in 0..3 {
        assert_eq!(context.get_glyph_index(key(), 'A'), Some(1));
        assert_eq!(context.get_glyph_index(key(), 'D'), None);
    }
    assert_eq!(context.get_glyph_index(FontKey::new(IdNamespace(1), 8), 'A'), None);
    assert_eq!(context.get_glyph_index(FontKey::new(IdNamespace(7), 1), 'A'), None);
}

#[test]
fn raster_request_names_font_glyph_size_and_mode() {
    let context = context_with(plain_font());
    let request = context.raster_request(&instance(FontRenderMode::Subpixel, 0), &glyph(1)).unwrap();
    assert_eq!(request.glyph, 1);
    assert_eq!(request.size, sixteen());
    assert!(request.subpixel);
    assert!(Arc::ptr_eq(&request.font, &held(&context, key())));
    let request = context.raster_request(&instance(FontRenderMode::Mono, 0), &glyph(0x1_0002)).unwrap();
    assert_eq!(request.glyph, 2);
    assert!(!request.subpixel);
}

#[test]
fn raster_request_refuses_unknown_fonts_and_glyphs() {
    let context = context_with(plain_font());
    assert!(context.raster_request(&instance(FontRenderMode::Alpha, 0), &glyph(3)).is_some());
    assert!(context.raster_request(&instance(FontRenderMode::Alpha, 0), &glyph(4)).is_none());
    assert!(context.raster_request(&instance(FontRenderMode::Alpha, 0), &glyph(0xFFFF)).is_none());
    let mut other = instance(FontRenderMode::Alpha, 0);
    other.font_key = FontKey::new(IdNamespace(1), 8);
    assert!(context.raster_request(&other, &glyph(1)).is_none());
}

#[test]
fn alpha_glyph_replicates_coverage() {
    let mut context = context_with(plain_font());
    let font = instance(FontRenderMode::Alpha, 0);
    let outline = outline_for(&context, &font, &glyph(1));
    assert!(outline.metrics.width > 0 && outline.metrics.height > 0);
    let result = context.rasterize_glyph(&font, &glyph(1), &outline, 16).unwrap();
    assert_eq!(result.width as usize, outline.metrics.width);
    assert_eq!(result.height as usize, outline.metrics.height);
    assert_eq!(result.bytes.len(), 4 * outline.metrics.width * outline.metrics.height);
    assert_eq!(result.left, outline.metrics.xmin as i64);
    assert_eq!(result.top, outline.metrics.height as i64 + outline.metrics.ymin as i64);
    assert_eq!(result.scale, GlyphScale::Unit);
    assert_eq!(result.format, GlyphFormat::Alpha);
    for (pixel, coverage) in outline.coverage.iter().enumerate() {
        assert_eq!(&result.bytes[4 * pixel..4 * pixel + 4], &[*coverage; 4]);
    }
    assert!(outline.coverage.iter().any(|c| *c == 255));
}

#[test]
fn box_glyph_has_the_extent_of_its_outline() {
    let context = context_with(plain_font());
    let outline = outline_for(&context, &instance(FontRenderMode::Alpha, 0), &glyph(1));
    assert_eq!(outline.metrics.xmin, 1);
    assert_eq!(outline.metrics.ymin, 0);
    assert_eq!(outline.metrics.width, 7);
    assert_eq!(outline.metrics.height, 12);
    assert_eq!(f32::from_bits(outline.metrics.advance_width), 16.0 * 600.0 / 1000.0);
}

#[test]
fn glyph_below_the_baseline_has_its_top_at_height_plus_ymin() {
    let mut context = context_with(plain_font());
    let font = instance(FontRenderMode::Alpha, 0);
    let outline = outline_for(&context, &font, &glyph(3));
    assert_eq!((outline.metrics.xmin, outline.metrics.ymin), (0, -2));
    assert_eq!((outline.metrics.width, outline.metrics.height), (9, 9));
    let result = context.rasterize_glyph(&font, &glyph(3), &outline, 16).unwrap();
    assert_eq!((result.left, result.top, result.width, result.height), (0, 7, 9, 9));
}

#[test]
fn mono_glyph_is_tagged_mono() {
    let mut context = context_with(plain_font());
    let font = instance(FontRenderMode::Mono, 0);
    let outline = outline_for(&context, &font, &glyph(1));
    let result = context.rasterize_glyph(&font, &glyph(1), &outline, 16).unwrap();
    assert_eq!(result.format, GlyphFormat::Mono);
    assert_eq!(result.bytes.len(), 4 * outline.coverage.len());
}

#[test]
fn subpixel_glyph_honors_the_reversed_order_and_is_repeatable() {
    let mut context = context_with(plain_font());
    let reversed = instance(FontRenderMode::Subpixel, SUBPIXEL_BGR);
    let plain = instance(FontRenderMode::Subpixel, 0);
    let key3 = glyph(3);
    let outline = outline_for(&context, &reversed, &key3);
    let first = context.rasterize_glyph(&reversed, &key3, &outline, 16).unwrap();
    let again = outline_for(&context, &reversed, &key3);
    let second = context.rasterize_glyph(&reversed, &key3, &again, 16).unwrap();
    assert_eq!(first, second);
    assert_eq!(first.format, GlyphFormat::Subpixel);
    let pixels = outline.metrics.width * outline.metrics.height;
    assert_eq!(outline.coverage.len(), 3 * pixels);
    assert_eq!(first.bytes.len(), 4 * pixels);

    let unswapped = context.rasterize_glyph(&plain, &key3, &outline_for(&context, &plain, &key3), 16).unwrap();
    let mut differs = false;
    for pixel in 0..pixels {
        let (r, g, b) = (outline.coverage[3 * pixel], outline.coverage[3 * pixel + 1], outline.coverage[3 * pixel + 2]);
        assert_eq!(&unswapped.bytes[4 * pixel..4 * pixel + 4], &[b, g, r, r.max(g).max(b)]);
        assert_eq!(&first.bytes[4 * pixel..4 * pixel + 4], &[r, g, b, r.max(g).max(b)]);
        assert_eq!(first.bytes[4 * pixel], unswapped.bytes[4 * pixel + 2]);
        assert_eq!(first.bytes[4 * pixel + 2], unswapped.bytes[4 * pixel]);
        differs = differs || r != b;
    }
    assert!(differs);
}

#[test]
fn every_glyph_has_an_extent_and_four_bytes_for_each_pixel() {
    let mut context = context_with(strike_font(&two_pixel_png()));
    let mut glyphs = Vec::new();
    for mode in [FontRenderMode::Mono, FontRenderMode::Alpha, FontRenderMode::Subpixel] {
        for flags in [0, SUBPIXEL_BGR] {
            for index in 0..5 {
                let font = instance(mode, flags);
                let outline = match context.raster_request(&font, &glyph(index)) {
                    Some(_) => outline_for(&context, &font, &glyph(index)),
                    None => empty_outline(),
                };
                glyphs.push(context.rasterize_glyph(&font, &glyph(index), &outline, 16));
            }
        }
    }
    let mut scaler = scaler_with_font();
    let font = instance(FontRenderMode::Alpha, 0);
    glyphs.push(scaler.rasterize_glyph(&font, &glyph(1), Some(mask(0, 0, 3, 2, vec![1; 6]))));
    glyphs.push(scaler.rasterize_glyph(&font, &glyph(2), Some(mask(0, 0, 0, 0, Vec::new()))));
    glyphs.push(scaler.rasterize_glyph(&font, &glyph(3), None));
    let made: Vec<_> = glyphs.into_iter().filter_map(|r| r.ok()).collect();
    assert_eq!(made.len(), 3 * 2 * 3 + 1);
    for made in made {
        assert!(made.width > 0 && made.height > 0);
        assert_eq!(made.bytes.len(), 4 * made.width as usize * made.height as usize);
    }
}

#[test]
fn unknown_font_fails_to_rasterize() {
    let mut context = FontContext::new();
    let font = instance(FontRenderMode::Alpha, 0);
    let outline = OutlineImage {
        metrics: GlyphMetrics { xmin: 0, ymin: 0, width: 1, height: 1, advance_width: 0 },
        coverage: vec![255],
    };
    assert_eq!(context.rasterize_glyph(&font, &glyph(1), &outline, 16), Err(GlyphRasterError::LoadFailed));
    assert_eq!(context.get_glyph_dimensions(&font, &glyph(1), &outline.metrics), None);
}

#[test]
fn unknown_glyph_fails_to_rasterize() {
    let mut context = context_with(plain_font());
    let font = instance(FontRenderMode::Alpha, 0);
    let outline = OutlineImage {
        metrics: GlyphMetrics { xmin: 0, ymin: 0, width: 1, height: 1, advance_width: 0 },
        coverage: vec![255],
    };
    assert_eq!(context.rasterize_glyph(&font, &glyph(4), &outline, 16), Err(GlyphRasterError::LoadFailed));
    assert_eq!(context.get_glyph_dimensions(&font, &glyph(4), &outline.metrics), None);
    assert!(context.rasterize_glyph(&font, &glyph(1), &outline, 16).is_ok());
}

#[test]
fn dimensions_follow_the_metrics() {
    let mut context = context_with(plain_font());
    let font = instance(FontRenderMode::Alpha, 0);
    let metrics = GlyphMetrics { xmin: -2, ymin: -5, width: 7, height: 12, advance_width: 9.6f32.to_bits() };
    assert_eq!(
        context.get_glyph_dimensions(&font, &glyph(1), &metrics),
        Some(GlyphDimensions { left: -2, top: -5, width: 7, height: 12, advance: 9.6f32.to_bits() })
    );
    let measured = outline_for(&context, &font, &glyph(1)).metrics;
    let dimensions = context.get_glyph_dimensions(&font, &glyph(1), &measured).unwrap();
    assert_eq!((dimensions.width, dimensions.height), (7, 12));
}

#[test]
fn degenerate_extent_gives_no_dimensions() {
    let mut context = context_with(plain_font());
    let mut font = instance(FontRenderMode::Alpha, 0);
    for (width, height) in [(0, 0), (0, 5), (5, 0), (0x8000_0000usize, 1), (1, 0x8000_0000usize)] {
        let metrics = GlyphMetrics { xmin: 0, ymin: 0, width, height, advance_width: 0 };
        assert_eq!(context.get_glyph_dimensions(&font, &glyph(1), &metrics), None);
    }
    font.size = FontSize::from_bits(0.0f32.to_bits());
    let request = context.raster_request(&font, &glyph(1)).unwrap();
    let at_zero = request.font.font.metrics_indexed(request.glyph, 0.0);
    let metrics = GlyphMetrics {
        xmin: at_zero.xmin,
        ymin: at_zero.ymin,
        width: at_zero.width,
        height: at_zero.height,
        advance_width: at_zero.advance_width.to_bits(),
    };
    assert_eq!((metrics.width, metrics.height), (0, 0));
    assert_eq!(context.get_glyph_dimensions(&font, &glyph(1), &metrics), None);
    let full = GlyphMetrics { xmin: 0, ymin: 0, width: 7, height: 12, advance_width: 0 };
    assert_eq!(context.get_glyph_dimensions(&font, &glyph(1), &full), None);
    font.size = FontSize::from_bits((-0.0f32).to_bits());
    assert_eq!(context.get_glyph_dimensions(&font, &glyph(1), &full), None);
    font.size = sixteen();
    assert!(context.get_glyph_dimensions(&font, &glyph(1), &full).is_some());
    assert_eq!(context.get_glyph_dimensions(&font, &glyph(0), &full), None);
    assert_eq!(context.get_glyph_dimensions(&font, &glyph(0x3_0000), &full), None);
    let missing = outline_for(&context, &font, &glyph(0)).metrics;
    assert_eq!(context.get_glyph_dimensions(&font, &glyph(0), &missing), None);
}

#[test]
fn outline_that_does_not_fill_its_extent_is_refused() {
    let font = instance(FontRenderMode::Alpha, 0);
    let metrics = GlyphMetrics { xmin: 0, ymin: 0, width: 2, height: 2, advance_width: 0 };
    assert!(outline_glyph(&font, &OutlineImage { metrics, coverage: vec![1, 2, 3, 4] }).is_ok());
    for coverage in [vec![], vec![1, 2, 3], vec![1, 2, 3, 4, 5], vec![0; 12]] {
        assert_eq!(outline_glyph(&font, &OutlineImage { metrics, coverage }), Err(GlyphRasterError::LoadFailed));
    }
    let subpixel = instance(FontRenderMode::Subpixel, 0);
    assert!(outline_glyph(&subpixel, &OutlineImage { metrics, coverage: vec![0; 12] }).is_ok());
    assert_eq!(
        outline_glyph(&subpixel, &OutlineImage { metrics, coverage: vec![0; 4] }),
        Err(GlyphRasterError::LoadFailed)
    );
    assert_eq!(outline_glyph(&font, &empty_outline()), Err(GlyphRasterError::LoadFailed));
}

#[test]
fn outline_glyph_places_the_top_above_the_baseline() {
    let font = instance(FontRenderMode::Alpha, 0);
    let metrics = GlyphMetrics { xmin: -3, ymin: -4, width: 2, height: 1, advance_width: 0 };
    let result = outline_glyph(&font, &OutlineImage { metrics, coverage: vec![5, 6] }).unwrap();
    assert_eq!((result.left, result.top, result.width, result.height), (-3, -3, 2, 1));
    assert_eq!(result.bytes, vec![5, 5, 5, 5, 6, 6, 6, 6]);
}

#[test]
fn color_glyph_reorders_and_scales_by_the_larger_side() {
    let image = EmbeddedImage { width: 1, height: 2, pixels: vec![1, 2, 3, 4, 5, 6, 7, 8] };
    let result = color_glyph(sixteen(), &image, 3, -4).unwrap();
    assert_eq!(result.bytes, vec![3, 2, 1, 4, 7, 6, 5, 8]);
    assert_eq!((result.left, result.top, result.width, result.height), (3, -2, 1, 2));
    assert_eq!(result.scale, GlyphScale::Ratio { size: sixteen(), extent: 2 });
    assert_eq!(result.format, GlyphFormat::ColorBitmap);
}

#[test]
fn color_image_that_does_not_fill_its_extent_is_refused() {
    for (width, height, len) in [(0, 1, 0), (1, 0, 0), (1, 1, 3), (1, 1, 5), (2, 2, 4), (0x8000_0000u32, 1, 4)] {
        let image = EmbeddedImage { width, height, pixels: vec![0; len] };
        assert_eq!(color_glyph(sixteen(), &image, 0, 0), Err(GlyphRasterError::LoadFailed));
    }
}

#[test]
fn empty_outline_without_embedded_image_fails() {
    let mut context = context_with(plain_font());
    let font = instance(FontRenderMode::Alpha, 0);
    let outline = outline_for(&context, &font, &glyph(2));
    assert_eq!((outline.metrics.width, outline.metrics.height), (0, 0));
    assert_eq!(context.rasterize_glyph(&font, &glyph(2), &outline, 16), Err(GlyphRasterError::LoadFailed));
    assert_eq!(context.rasterize_glyph(&font, &glyph(0), &empty_outline(), 16), Err(GlyphRasterError::LoadFailed));
}

#[test]
fn empty_outline_falls_back_to_the_bitmap_strike() {
    let mut context = context_with(strike_font(&two_pixel_png()));
    let font = instance(FontRenderMode::Alpha, 0);
    let result = context.rasterize_glyph(&font, &glyph(2), &empty_outline(), 16).unwrap();
    assert_eq!(result.format, GlyphFormat::ColorBitmap);
    assert_eq!((result.width, result.height), (2, 1));
    assert_eq!(result.bytes, vec![30, 20, 10, 255, 60, 50, 40, 255]);
    assert_eq!(result.left, 3);
    assert_eq!(result.top, 1 - 4);
    assert_eq!(result.scale, GlyphScale::Ratio { size: sixteen(), extent: 2 });
    assert_eq!(context.rasterize_glyph(&font, &glyph(2), &empty_outline(), 16).unwrap(), result);
    assert_eq!(context.rasterize_glyph(&font, &glyph(0), &empty_outline(), 16), Err(GlyphRasterError::LoadFailed));
}

#[test]
fn strike_that_is_no_png_fails() {
    let mut context = context_with(strike_font(&[1, 2, 3, 4, 5, 6, 7, 8, 9, 10, 11, 12, 13, 14, 15, 16, 17, 18, 19, 20, 21, 22, 23, 24, 25, 26]));
    let font = instance(FontRenderMode::Alpha, 0);
    assert_eq!(context.rasterize_glyph(&font, &glyph(2), &empty_outline(), 16), Err(GlyphRasterError::LoadFailed));
}

#[test]
fn empty_outline_falls_back_to_the_vector_drawing() {
    let mut context = context_with(svg_font(RED_SQUARE.as_bytes()));
    let font = instance(FontRenderMode::Alpha, 0);
    let result = context.rasterize_glyph(&font, &glyph(2), &empty_outline(), 16).unwrap();
    assert_eq!(result.format, GlyphFormat::ColorBitmap);
    assert_eq!((result.width, result.height), (2, 2));
    assert_eq!(result.bytes, vec![0, 0, 255, 255, 0, 0, 255, 255, 0, 0, 255, 255, 0, 0, 255, 255]);
    assert_eq!((result.left, result.top), (0, 2));
    assert_eq!(result.scale, GlyphScale::Ratio { size: sixteen(), extent: 2 });
    assert_eq!(context.rasterize_glyph(&font, &glyph(1), &empty_outline(), 16), Err(GlyphRasterError::LoadFailed));
}

#[test]
fn drawing_that_does_not_parse_fails() {
    let mut context = context_with(svg_font(b"<svg"));
    let font = instance(FontRenderMode::Alpha, 0);
    assert_eq!(context.rasterize_glyph(&font, &glyph(2), &empty_outline(), 16), Err(GlyphRasterError::LoadFailed));
}

#[test]
fn embedded_image_search_prefers_the_drawing_and_places_it_at_the_origin() {
    let data = (Arc::new(svg_font(RED_SQUARE.as_bytes())), 0u32);
    let (image, x, y) = glyph_using_svg_or_raster(&data, 2, 16).unwrap();
    assert_eq!((image.width, image.height, x, y), (2, 2, 0, 0));
    assert_eq!(&image.pixels[0..4], &[255, 0, 0, 255]);
    assert!(glyph_using_svg_or_raster(&data, 1, 16).is_none());

    let data = (Arc::new(strike_font(&two_pixel_png())), 0u32);
    let (image, x, y) = glyph_using_svg_or_raster(&data, 2, 16).unwrap();
    assert_eq!((image.width, image.height, x, y), (2, 1, 3, -4));
    assert_eq!(image.pixels, vec![10, 20, 30, 255, 40, 50, 60, 255]);
    assert!(glyph_using_svg_or_raster(&data, 1, 16).is_none());
    assert!(glyph_using_svg_or_raster(&data, 9, 16).is_none());

    assert!(glyph_using_svg_or_raster(&(Arc::new(vec![1, 2, 3]), 0), 2, 16).is_none());
    assert!(glyph_using_svg_or_raster(&(Arc::new(plain_font()), 0), 2, 16).is_none());
    assert!(glyph_using_svg_or_raster(&(Arc::new(plain_font()), 1), 2, 16).is_none());
}

#[test]
fn a_rendered_drawing_comes_before_the_strike() {
    let data = (Arc::new(strike_font(&two_pixel_png())), 0u32);
    let drawing = EmbeddedImage { width: 1, height: 1, pixels: vec![9, 8, 7, 6] };
    let (image, x, y) = embedded_image_given(Some(drawing), &data, 2, 16).unwrap();
    assert_eq!((image.width, image.height, x, y), (1, 1, 0, 0));
    assert_eq!(image.pixels, vec![9, 8, 7, 6]);
    let (image, x, y) = embedded_image_given(None, &data, 2, 16).unwrap();
    assert_eq!((image.width, image.height, x, y), (2, 1, 3, -4));
    assert!(embedded_image_given(None, &data, 1, 16).is_none());
}

#[test]
fn font_with_drawing_and_strike_gives_the_drawing_or_else_the_strike() {
    let both = (Arc::new(svg_and_strike_font(RED_SQUARE.as_bytes(), &two_pixel_png())), 0u32);
    let (image, x, y) = glyph_using_svg_or_raster(&both, 2, 16).unwrap();
    assert_eq!((image.width, image.height, x, y), (2, 2, 0, 0));
    assert_eq!(image.pixels, vec![255, 0, 0, 255].repeat(4));

    let broken = (Arc::new(svg_and_strike_font(b"<svg", &two_pixel_png())), 0u32);
    let (image, x, y) = glyph_using_svg_or_raster(&broken, 2, 16).unwrap();
    assert_eq!((image.width, image.height, x, y), (2, 1, 3, -4));
    assert_eq!(image.pixels, vec![10, 20, 30, 255, 40, 50, 60, 255]);

    let mut context = context_with(svg_and_strike_font(b"<svg", &two_pixel_png()));
    let font = instance(FontRenderMode::Alpha, 0);
    let result = context.rasterize_glyph(&font, &glyph(2), &empty_outline(), 16).unwrap();
    assert_eq!((result.width, result.height, result.left, result.top), (2, 1, 3, -3));
}

#[test]
fn drawing_does_not_read_the_files_it_names() {
    let naming = "<svg xmlns=\"http://www.w3.org/2000/svg\" \
xmlns:xlink=\"http://www.w3.org/1999/xlink\" width=\"2\" height=\"1\">\
<image width=\"2\" height=\"1\" xlink:href=\"/nowhere/picture.png\"/></svg>";
    let image = render_document(&naming.as_bytes().to_vec()).unwrap();
    assert_eq!((image.width, image.height), (2, 1));
    assert_eq!(image.pixels, vec![0; 8]);
}

#[test]
fn document_is_rendered_at_its_natural_size() {
    let image = render_document(&RED_SQUARE.as_bytes().to_vec()).unwrap();
    assert_eq!((image.width, image.height), (2, 2));
    assert_eq!(image.pixels.len(), 16);
    assert_eq!(image.pixels, vec![255, 0, 0, 255].repeat(4));
    assert!(render_document(&b"no drawing".to_vec()).is_none());
}

#[test]
fn rendered_document_fills_its_canvas() {
    let empty = "<svg xmlns=\"http://www.w3.org/2000/svg\" width=\"3\" height=\"2\"/>";
    let image = render_document(&empty.as_bytes().to_vec()).unwrap();
    assert_eq!((image.width, image.height), (3, 2));
    assert_eq!(image.pixels, vec![0; 4 * 3 * 2]);

    let half = "<svg xmlns=\"http://www.w3.org/2000/svg\" width=\"2\" height=\"1\">\
<rect width=\"1\" height=\"1\" fill=\"#0000ff\"/></svg>";
    let image = render_document(&half.as_bytes().to_vec()).unwrap();
    assert_eq!((image.width, image.height), (2, 1));
    assert_eq!(image.pixels, vec![0, 0, 255, 255, 0, 0, 0, 0]);
}

#[test]
fn document_too_wide_for_a_canvas_gives_no_image() {
    let wide = "<svg xmlns=\"http://www.w3.org/2000/svg\" width=\"600000000\" height=\"1\"/>";
    assert!(render_document(&wide.as_bytes().to_vec()).is_none());
}

fn mask(left: i32, top: i32, width: u32, height: u32, data: Vec<u8>) -> GlyphImage {
    GlyphImage { content: Content::Mask, placement: Placement { left, top, width, height }, data }
}

fn loaded() -> font_index::Font {
    font_index::Font::from_data(plain_font(), 0).unwrap()
}

fn scaler_with_font() -> ScalerContext {
    let mut context = ScalerContext::new();
    context.add_raw_font(&key(), Arc::new(plain_font()), 0);
    context
}

#[test]
fn scaler_loads_font_data_once() {
    let mut context = ScalerContext::new();
    assert_eq!(context.try_add_raw_font(&key(), Arc::new(vec![1, 2, 3]), 0), Err(LoadError::NoFace));
    assert!(context.fonts.is_empty());
    assert_eq!(context.try_add_raw_font(&key(), Arc::new(plain_font()), 5), Err(LoadError::NoFace));
    assert!(context.fonts.is_empty());
    assert_eq!(context.try_add_raw_font(&key(), Arc::new(plain_font()), 0), Ok(()));
    assert_eq!(context.try_add_raw_font(&key(), Arc::new(vec![1, 2, 3]), 0), Ok(()));
    assert_eq!(context.fonts.len(), 1);
    let held = context.fonts.get(&key().pack()).unwrap().cache_key();
    context.add_raw_font(&key(), Arc::new(plain_font()), 0);
    context.add_native_font(&key(), Some(loaded()));
    assert_eq!(context.fonts.len(), 1);
    assert_eq!(context.fonts.get(&key().pack()).unwrap().cache_key(), held);
}

#[test]
fn scaler_takes_a_resolved_platform_font() {
    let mut context = ScalerContext::new();
    context.add_native_font(&key(), None);
    assert!(context.fonts.is_empty());
    context.add_native_font(&key(), Some(loaded()));
    assert_eq!(context.get_glyph_index(key(), 'A'), Some(1));
}

#[test]
fn scaler_glyph_index_is_none_for_the_missing_glyph() {
    let mut context = scaler_with_font();
    assert_eq!(context.get_glyph_index(key(), 'A'), Some(1));
    assert_eq!(context.get_glyph_index(key(), 'B'), Some(2));
    assert_eq!(context.get_glyph_index(key(), 'C'), Some(3));
    assert_eq!(context.get_glyph_index(key(), 'D'), None);
    assert_eq!(context.get_glyph_index(key(), 'A'), Some(1));
    assert_eq!(context.get_glyph_index(FontKey::new(IdNamespace(2), 7), 'A'), None);
}

#[test]
fn scaler_asks_for_a_render_only_when_it_is_needed() {
    let mut context = scaler_with_font();
    let font = instance(FontRenderMode::Subpixel, SUBPIXEL_POSITION);
    let key1 = GlyphKey::new(0x2_0001, SubpixelOffset::Half, SubpixelOffset::Quarter);
    let request = context.render_request(&font, &key1).unwrap();
    assert_eq!(request.glyph, 1);
    assert_eq!(request.size, sixteen());
    assert_eq!(request.transform, FontTransform::identity());
    assert!(request.subpixel);
    assert_eq!((request.offset_x, request.offset_y), (SubpixelOffset::Half, SubpixelOffset::Quarter));
    assert_eq!(request.color, ColorU::new(255, 255, 255, 255));

    let bitmap = instance(FontRenderMode::Alpha, SUBPIXEL_POSITION | EMBEDDED_BITMAPS);
    let request = context.render_request(&bitmap, &key1).unwrap();
    assert!(!request.subpixel);
    assert_eq!((request.offset_x, request.offset_y), (SubpixelOffset::Zero, SubpixelOffset::Zero));

    let mono = instance(FontRenderMode::Mono, SUBPIXEL_POSITION);
    let request = context.render_request(&mono, &key1).unwrap();
    assert_eq!((request.offset_x, request.offset_y), (SubpixelOffset::Zero, SubpixelOffset::Zero));

    let mut unknown = font;
    unknown.font_key = FontKey::new(IdNamespace(1), 8);
    assert_eq!(context.render_request(&unknown, &key1), None);

    assert!(context.get_or_create_cache(&font, &key1, Some(mask(0, 0, 1, 1, vec![1]))).is_some());
    assert_eq!(context.render_request(&font, &key1), None);
    assert!(context.render_request(&font, &glyph(1)).is_some());
}

#[test]
fn scaler_keeps_the_first_image_of_a_glyph() {
    let mut context = scaler_with_font();
    let font = instance(FontRenderMode::Alpha, 0);
    assert!(context.cached_image(&font, &glyph(1)).is_none());
    let first = context.rasterize_glyph(&font, &glyph(1), Some(mask(1, 2, 2, 1, vec![7, 9]))).unwrap();
    assert_eq!(first.bytes, vec![7, 7, 7, 7, 9, 9, 9, 9]);
    assert_eq!((first.left, first.top, first.width, first.height), (1, 2, 2, 1));
    assert_eq!(first.scale, GlyphScale::Unit);
    assert_eq!(first.format, GlyphFormat::Alpha);
    assert_eq!(context.cache.len(), 1);
    assert_eq!(context.cached_image(&font, &glyph(1)).unwrap().data, vec![7, 9]);

    let second = context.rasterize_glyph(&font, &glyph(1), Some(mask(0, 0, 1, 1, vec![200]))).unwrap();
    assert_eq!(second, first);
    let third = context.rasterize_glyph(&font, &glyph(1), None).unwrap();
    assert_eq!(third, first);
    assert_eq!(context.cache.len(), 1);

    let other = context.rasterize_glyph(&font, &glyph(2), Some(mask(0, 0, 1, 1, vec![200]))).unwrap();
    assert_eq!(other.bytes, vec![200; 4]);
    assert_eq!(context.cache.len(), 2);
}

#[test]
fn scaler_fails_without_font_or_image() {
    let mut context = ScalerContext::new();
    let font = instance(FontRenderMode::Alpha, 0);
    assert_eq!(
        context.rasterize_glyph(&font, &glyph(1), Some(mask(0, 0, 1, 1, vec![1]))),
        Err(GlyphRasterError::LoadFailed)
    );
    assert!(context.cache.is_empty());
    let mut context = scaler_with_font();
    assert_eq!(context.rasterize_glyph(&font, &glyph(1), None), Err(GlyphRasterError::LoadFailed));
    assert!(context.cache.is_empty());
    assert_eq!(context.get_glyph_dimensions(&font, &glyph(1), None, 0), None);
}

#[test]
fn scaler_refuses_images_without_extent() {
    let mut context = scaler_with_font();
    let font = instance(FontRenderMode::Alpha, 0);
    assert_eq!(
        context.rasterize_glyph(&font, &glyph(1), Some(mask(0, 0, 0, 0, Vec::new()))),
        Err(GlyphRasterError::LoadFailed)
    );
    assert_eq!(
        context.rasterize_glyph(&font, &glyph(2), Some(mask(0, 0, 3, 0, Vec::new()))),
        Err(GlyphRasterError::LoadFailed)
    );
    for (width, height, len) in [(1, 1, 0), (1, 1, 2), (2, 2, 3), (0x8000_0000u32, 1, 1)] {
        assert_eq!(image_glyph(&font, &mask(0, 0, width, height, vec![0; len])), Err(GlyphRasterError::LoadFailed));
    }
    let color = GlyphImage {
        content: Content::Color,
        placement: Placement { left: 0, top: 0, width: 1, height: 1 },
        data: vec![1, 2, 3],
    };
    assert_eq!(image_glyph(&font, &color), Err(GlyphRasterError::LoadFailed));
}

#[test]
fn scaler_converts_each_kind_of_image() {
    let plain = instance(FontRenderMode::Subpixel, 0);
    let reversed = instance(FontRenderMode::Subpixel, SUBPIXEL_BGR);
    let placement = Placement { left: -1, top: 5, width: 2, height: 1 };
    let data = vec![1, 2, 3, 4, 5, 6, 7, 8];
    let subpixel = GlyphImage { content: Content::SubpixelMask, placement, data: data.clone() };
    let color = GlyphImage { content: Content::Color, placement, data: data.clone() };

    let result = image_glyph(&plain, &subpixel).unwrap();
    assert_eq!(result.bytes, vec![3, 2, 1, 3, 7, 6, 5, 7]);
    assert_eq!(result.format, GlyphFormat::Subpixel);
    assert_eq!((result.left, result.top, result.width, result.height), (-1, 5, 2, 1));
    let result = image_glyph(&reversed, &subpixel).unwrap();
    assert_eq!(result.bytes, vec![1, 2, 3, 3, 5, 6, 7, 7]);
    let result = image_glyph(&reversed, &color).unwrap();
    assert_eq!(result.bytes, data);
    let result = image_glyph(&plain, &color).unwrap();
    assert_eq!(result.bytes, vec![3, 2, 1, 4, 7, 6, 5, 8]);
    assert_eq!(result.format, GlyphFormat::ColorBitmap);

    let result = image_glyph(&plain, &mask(0, 0, 2, 1, vec![9, 8])).unwrap();
    assert_eq!(result.format, GlyphFormat::Alpha);
    assert_eq!(result.bytes, vec![9, 9, 9, 9, 8, 8, 8, 8]);
    let result = image_glyph(&instance(FontRenderMode::Mono, 0), &mask(0, 0, 2, 1, vec![9, 8])).unwrap();
    assert_eq!(result.format, GlyphFormat::Mono);
}

#[test]
fn deleting_an_instance_drops_its_images_and_renders_anew() {
    let mut context = scaler_with_font();
    let white = instance(FontRenderMode::Alpha, 0);
    let mut other = instance(FontRenderMode::Alpha, 0);
    other.instance_key = FontInstanceKey(IdNamespace(1), 101);
    context.rasterize_glyph(&white, &glyph(1), Some(mask(0, 0, 1, 1, vec![10]))).unwrap();
    context.rasterize_glyph(&white, &glyph(2), Some(mask(0, 0, 1, 1, vec![20]))).unwrap();
    context.rasterize_glyph(&other, &glyph(1), Some(mask(0, 0, 1, 1, vec![30]))).unwrap();
    assert_eq!(context.cache.len(), 3);

    context.delete_font_instance(&white);
    assert_eq!(context.cache.len(), 1);
    assert!(context.cached_image(&white, &glyph(1)).is_none());
    assert!(context.cached_image(&white, &glyph(2)).is_none());
    assert_eq!(context.cached_image(&other, &glyph(1)).unwrap().data, vec![30]);
    assert_eq!(context.fonts.len(), 1);

    let mut recolored = white;
    recolored.color = ColorU::new(255, 0, 0, 255);
    let fresh = context.rasterize_glyph(&recolored, &glyph(1), Some(mask(0, 0, 1, 1, vec![99]))).unwrap();
    assert_eq!(fresh.bytes, vec![99; 4]);
    let same = context.rasterize_glyph(&white, &glyph(1), Some(mask(0, 0, 1, 1, vec![55]))).unwrap();
    assert_eq!(same.bytes, vec![55; 4]);
    let kept = context.rasterize_glyph(&other, &glyph(1), Some(mask(0, 0, 1, 1, vec![1]))).unwrap();
    assert_eq!(kept.bytes, vec![30; 4]);
}

#[test]
fn deleting_a_font_drops_its_images() {
    let mut context = scaler_with_font();
    let second_key = FontKey::new(IdNamespace(1), 8);
    context.add_raw_font(&second_key, Arc::new(plain_font()), 0);
    let first = instance(FontRenderMode::Alpha, 0);
    let mut second = instance(FontRenderMode::Alpha, 0);
    second.font_key = second_key;
    context.rasterize_glyph(&first, &glyph(1), Some(mask(0, 0, 1, 1, vec![10]))).unwrap();
    context.rasterize_glyph(&second, &glyph(1), Some(mask(0, 0, 1, 1, vec![20]))).unwrap();

    context.delete_font(&FontKey::new(IdNamespace(9), 9));
    assert_eq!(context.cache.len(), 2);
    context.delete_font(&key());
    assert_eq!(context.fonts.len(), 1);
    assert_eq!(context.cache.len(), 1);
    assert!(context.cached_image(&first, &glyph(1)).is_none());
    assert_eq!(context.cached_image(&second, &glyph(1)).unwrap().data, vec![20]);
    assert_eq!(
        context.rasterize_glyph(&first, &glyph(1), Some(mask(0, 0, 1, 1, vec![10]))),
        Err(GlyphRasterError::LoadFailed)
    );
    assert_eq!(context.get_glyph_index(key(), 'A'), None);
}

#[test]
fn evicting_keeps_the_order_of_what_stays() {
    let mut context = scaler_with_font();
    let a = instance(FontRenderMode::Alpha, 0);
    let mut b = a;
    b.instance_key = FontInstanceKey(IdNamespace(1), 101);
    for (font, index, value) in [(a, 1, 1), (b, 1, 2), (a, 2, 3), (b, 2, 4)] {
        context.get_or_create_cache(&font, &glyph(index), Some(mask(0, 0, 1, 1, vec![value])));
    }
    context.evict(Evicted::Instance(a.instance_key));
    let left: Vec<u8> = context.cache.iter().map(|entry| entry.image.data[0]).collect();
    assert_eq!(left, vec![2, 4]);
    context.evict(Evicted::Font(FontKey::new(IdNamespace(3), 3)));
    assert_eq!(context.cache.len(), 2);
    context.evict(Evicted::Font(key()));
    assert!(context.cache.is_empty());
}

#[test]
fn scaler_dimensions_come_from_the_image() {
    let mut context = scaler_with_font();
    let font = instance(FontRenderMode::Alpha, 0);
    let advance = 9.6f32.to_bits();
    assert_eq!(
        context.get_glyph_dimensions(&font, &glyph(1), Some(mask(-1, 11, 7, 12, vec![0; 84])), advance),
        Some(GlyphDimensions { left: -1, top: 11, width: 7, height: 12, advance })
    );
    assert_eq!(context.cache.len(), 1);
    assert_eq!(
        context.get_glyph_dimensions(&font, &glyph(1), None, 0),
        Some(GlyphDimensions { left: -1, top: 11, width: 7, height: 12, advance: 0 })
    );
}

#[test]
fn scaler_gives_no_dimensions_for_a_degenerate_image() {
    let mut context = scaler_with_font();
    let font = instance(FontRenderMode::Alpha, 0);
    assert_eq!(context.get_glyph_dimensions(&font, &glyph(0), Some(mask(0, 0, 0, 0, Vec::new())), 0), None);
    assert_eq!(context.get_glyph_dimensions(&font, &glyph(1), Some(mask(0, 0, 0, 4, Vec::new())), 0), None);
    assert_eq!(context.get_glyph_dimensions(&font, &glyph(2), Some(mask(0, 0, 4, 0, Vec::new())), 0), None);
    let mut unknown = font;
    unknown.font_key = FontKey::new(IdNamespace(1), 8);
    assert_eq!(context.get_glyph_dimensions(&unknown, &glyph(1), Some(mask(0, 0, 1, 1, vec![1])), 0), None);
    let mut at_zero = font;
    at_zero.size = FontSize::from_bits(0);
    assert_eq!(context.get_glyph_dimensions(&at_zero, &glyph(1), Some(mask(0, 0, 1, 1, vec![1])), 0), None);
    assert_eq!(context.get_glyph_dimensions(&font, &glyph(0), Some(mask(0, 0, 5, 7, vec![1; 35])), 0), None);
    assert_eq!(context.get_glyph_dimensions(&font, &glyph(3), Some(mask(0, 0, 5, 7, vec![1; 35])), 0).map(|d| (d.width, d.height)), Some((5, 7)));
}
