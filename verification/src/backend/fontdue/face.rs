//! What this back end takes from the font parser, the SVG renderer and the
//! PNG decoder. Nothing here is proved: each contract records what the
//! called function is relied on to do.

use std::sync::Arc;
use vstd::prelude::*;

verus! {

/// A parsed font: immutable once made.
#[verifier::external_type_specification]
#[verifier::external_body]
pub struct ExFont(::fontdue::Font);

/// A parsed SVG document.
#[verifier::external_type_specification]
#[verifier::external_body]
pub struct ExTree(usvg::Tree);

/// A premultiplied RGBA canvas.
#[verifier::external_type_specification]
#[verifier::external_body]
pub struct ExPixmap(tiny_skia::Pixmap);

/// An image stored in a font or decoded from one: its extent in pixels and
/// its bytes, four for each pixel in the order red, green, blue, alpha.
#[derive(Clone, Debug)]
pub struct EmbeddedImage {
    pub width: u32,
    pub height: u32,
    pub pixels: Vec<u8>,
}

/// An encoded bitmap strike of one glyph with its offset from the origin.
#[derive(Clone, Debug)]
pub struct StrikeImage {
    pub x: i16,
    pub y: i16,
    pub data: Vec<u8>,
}

/// The character map of the font that `fontdue::Font::from_bytes` makes of
/// face `index` of `bytes`, or none where it makes no font of them.
pub uninterp spec fn parsed_glyph_ids(bytes: Seq<u8>, index: u32) -> Option<Map<char, u16>>;

/// The character map of a parsed font: each mapped character with the index
/// of its glyph.
pub uninterp spec fn font_glyph_ids(font: ::fontdue::Font) -> Map<char, u16>;

/// The number of glyphs of a parsed font.
pub uninterp spec fn font_glyph_count(font: ::fontdue::Font) -> u16;

/// The SVG document that face `index` of `bytes` holds for `glyph`, if the
/// face parses and holds one.
pub uninterp spec fn embedded_svg(bytes: Seq<u8>, index: u32, glyph: u16) -> Option<Seq<u8>>;

/// The bitmap strike that face `index` of `bytes` holds for `glyph` nearest
/// to `ppem` pixels per em, if the face parses and holds one: its horizontal
/// and vertical offset and its encoded data.
pub uninterp spec fn embedded_raster(bytes: Seq<u8>, index: u32, glyph: u16, ppem: u16) -> Option<
    (i16, i16, Seq<u8>),
>;

/// The image that `data` decodes to as a PNG, if it does: width, height and
/// RGBA bytes.
pub uninterp spec fn png_image(data: Seq<u8>) -> Option<(u32, u32, Seq<u8>)>;

/// What a document draws, where `usvg::Tree::from_data_nested` with default
/// options parses it: the width and height of the drawing in whole pixels,
/// and the bytes that rendering it leaves on a transparent canvas of that
/// extent. Files that a document names are not read.
pub uninterp spec fn svg_drawing(data: Seq<u8>) -> Option<(u32, u32, Seq<u8>)>;

/// The width and height of a parsed document in whole pixels.
pub uninterp spec fn tree_extent(tree: usvg::Tree) -> (u32, u32);

/// The bytes that rendering a parsed document leaves on a transparent canvas
/// of the document's extent.
pub uninterp spec fn tree_painting(tree: usvg::Tree) -> Seq<u8>;

/// A parsed document is what `drawing` says.
pub open spec fn draws(tree: usvg::Tree, drawing: Option<(u32, u32, Seq<u8>)>) -> bool {
    drawing == Some((tree_extent(tree).0, tree_extent(tree).1, tree_painting(tree)))
}

/// Every byte is zero.
pub open spec fn blank(pixels: Seq<u8>) -> bool {
    forall|i: int| 0 <= i < pixels.len() ==> pixels[i] == 0
}

/// The width and height of a canvas in pixels.
pub uninterp spec fn pixmap_extent(pixmap: tiny_skia::Pixmap) -> (u32, u32);

/// The bytes of a canvas, four for each pixel in the order red, green, blue,
/// alpha, row after row.
pub uninterp spec fn pixmap_pixels(pixmap: tiny_skia::Pixmap) -> Seq<u8>;

/// `Arc::strong_count`: how many handles to the font exist at the moment,
/// this one among them. Other threads take and drop handles, so nothing more
/// is said of the number.
#[verifier::external_body]
pub(crate) fn strong_count(cached: &Arc<crate::backend::fontdue::font::CachedFont>) -> (owners:
    usize)
    ensures
        owners >= 1,
{
    Arc::strong_count(cached)
}

/// `fontdue::Font::from_bytes` with default settings but for the collection
/// index. It yields a font exactly where [`parsed_glyph_ids`] names a
/// character map, which is then the font's, and the parser's message
/// otherwise.
#[verifier::external_body]
pub(crate) fn parse_font(bytes: &Vec<u8>, index: u32) -> (r: Result<::fontdue::Font, &'static str>)
    ensures
        r is Ok == parsed_glyph_ids(bytes@, index) is Some,
        r matches Ok(font) ==> parsed_glyph_ids(bytes@, index) == Some(font_glyph_ids(font)),
{
    let settings =
        ::fontdue::FontSettings { collection_index: index, ..::fontdue::FontSettings::default() };
    ::fontdue::Font::from_bytes(bytes.as_slice(), settings)
}

/// `fontdue::Font::lookup_glyph_index`: the glyph that the font's character
/// map gives for `ch`, and 0 where it gives none. The map never holds 0.
#[verifier::external_body]
pub(crate) fn lookup_glyph_index(font: &::fontdue::Font, ch: char) -> (glyph: u16)
    ensures
        font_glyph_ids(*font).contains_key(ch) ==> glyph == font_glyph_ids(*font)[ch] && glyph
            != 0,
        !font_glyph_ids(*font).contains_key(ch) ==> glyph == 0,
{
    font.lookup_glyph_index(ch)
}

/// `fontdue::Font::glyph_count`.
#[verifier::external_body]
pub(crate) fn glyph_count(font: &::fontdue::Font) -> (count: u16)
    ensures
        count == font_glyph_count(*font),
{
    font.glyph_count()
}

/// `ttf_parser::Face::parse` followed by `Face::glyph_svg_image`: a copy of
/// the document's data, as [`embedded_svg`] names it.
#[verifier::external_body]
pub(crate) fn embedded_svg_image(bytes: &Vec<u8>, index: u32, glyph: u16) -> (r: Option<Vec<u8>>)
    ensures
        r is Some == embedded_svg(bytes@, index, glyph) is Some,
        r is Some ==> embedded_svg(bytes@, index, glyph) == Some(r->0@),
{
    let face = ttf_parser::Face::parse(bytes.as_slice(), index).ok()?;
    let document = face.glyph_svg_image(ttf_parser::GlyphId(glyph))?;
    Some(document.data.to_vec())
}

/// `ttf_parser::Face::parse` followed by `Face::glyph_raster_image`: the
/// strike's offsets and a copy of its data, as [`embedded_raster`] names them.
#[verifier::external_body]
pub(crate) fn embedded_raster_image(bytes: &Vec<u8>, index: u32, glyph: u16, ppem: u16) -> (r:
    Option<StrikeImage>)
    ensures
        r is Some == embedded_raster(bytes@, index, glyph, ppem) is Some,
        r is Some ==> embedded_raster(bytes@, index, glyph, ppem) == Some(
            (r->0.x, r->0.y, r->0.data@),
        ),
{
    let face = ttf_parser::Face::parse(bytes.as_slice(), index).ok()?;
    let image = face.glyph_raster_image(ttf_parser::GlyphId(glyph), ppem)?;
    Some(StrikeImage { x: image.x, y: image.y, data: image.data.to_vec() })
}

/// `usvg::Tree::from_data_nested` with default options: the document parsed
/// without reading any file it names, exactly where [`svg_drawing`] names a
/// drawing, which is then what the parsed document draws.
#[verifier::external_body]
pub(crate) fn parse_svg(data: &Vec<u8>) -> (r: Option<usvg::Tree>)
    ensures
        r is Some == svg_drawing(data@) is Some,
        r is Some ==> draws(r->0, svg_drawing(data@)),
{
    usvg::Tree::from_data_nested(data.as_slice(), &usvg::Options::default()).ok()
}

/// `usvg::Tree::size` rounded by `Size::to_int_size`: width and height in
/// whole pixels, each at least one.
#[verifier::external_body]
pub(crate) fn svg_size(tree: &usvg::Tree) -> (r: (u32, u32))
    ensures
        r == tree_extent(*tree),
        r.0 >= 1 && r.1 >= 1,
{
    let size = tree.size().to_int_size();
    (size.width(), size.height())
}

/// `tiny_skia::Pixmap::new`: a canvas of the given extent with every byte
/// zero, which is transparent black. There is none where a side is zero or
/// a row takes more bytes than `i32` counts. The bytes of the whole canvas
/// have to be within what a vector holds.
#[verifier::external_body]
pub(crate) fn new_pixmap(width: u32, height: u32) -> (r: Option<tiny_skia::Pixmap>)
    requires
        4 * (width * height) <= isize::MAX,
    ensures
        r is Some == (width >= 1 && height >= 1 && 4 * width <= i32::MAX),
        r is Some ==> pixmap_extent(r->0) == (width, height),
        r is Some ==> pixmap_pixels(r->0).len() == 4 * (width * height),
        r is Some ==> blank(pixmap_pixels(r->0)),
{
    tiny_skia::Pixmap::new(width, height)
}

/// `resvg::render` with the identity transform. It paints onto the canvas
/// and leaves its extent and the number of its bytes as they are. On a
/// transparent canvas of the document's extent it leaves what
/// [`tree_painting`] names: the renderer gives the same bytes for the same
/// document wherever it runs.
#[verifier::external_body]
pub(crate) fn render_svg(tree: &usvg::Tree, pixmap: &mut tiny_skia::Pixmap)
    ensures
        pixmap_extent(*final(pixmap)) == pixmap_extent(*old(pixmap)),
        pixmap_pixels(*final(pixmap)).len() == pixmap_pixels(*old(pixmap)).len(),
        pixmap_extent(*old(pixmap)) == tree_extent(*tree) && blank(pixmap_pixels(*old(pixmap)))
            ==> pixmap_pixels(*final(pixmap)) == tree_painting(*tree),
{
    resvg::render(tree, tiny_skia::Transform::default(), &mut pixmap.as_mut());
}

/// `Pixmap::width`, `Pixmap::height` and a copy of `Pixmap::data`: the
/// canvas as an image.
#[verifier::external_body]
pub(crate) fn pixmap_image(pixmap: &tiny_skia::Pixmap) -> (r: EmbeddedImage)
    ensures
        pixmap_extent(*pixmap) == (r.width, r.height),
        r.pixels@ == pixmap_pixels(*pixmap),
{
    EmbeddedImage { width: pixmap.width(), height: pixmap.height(), pixels: pixmap.data().to_vec() }
}

/// `tiny_skia::Pixmap::decode_png`: the decoded image as [`png_image`] names
/// it.
#[verifier::external_body]
pub(crate) fn decode_png(data: &Vec<u8>) -> (r: Option<EmbeddedImage>)
    ensures
        r is Some == png_image(data@) is Some,
        r is Some ==> png_image(data@) == Some((r->0.width, r->0.height, r->0.pixels@)),
{
    let pixmap = tiny_skia::Pixmap::decode_png(data.as_slice()).ok()?;
    Some(EmbeddedImage { width: pixmap.width(), height: pixmap.height(), pixels: pixmap.data().to_vec() })
}

} // verus!
