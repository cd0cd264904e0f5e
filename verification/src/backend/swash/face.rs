//! What this back end takes from the font loader. Nothing here is proved:
//! each contract records what the called function is relied on to do.

use vstd::prelude::*;

verus! {

/// A shared reference to loaded font data.
#[verifier::external_type_specification]
#[verifier::external_body]
pub struct ExFont(font_index::Font);

/// The character map of the font that `font_index::Font::from_data` makes
/// of face `index` of `bytes`, or none where it finds no such face.
pub uninterp spec fn loaded_glyph_ids(bytes: Seq<u8>, index: u32) -> Option<Map<char, u16>>;

/// The character map of a loaded font: each character that it maps to a
/// glyph other than the missing glyph, with that glyph's index.
pub uninterp spec fn face_glyph_ids(font: font_index::Font) -> Map<char, u16>;

/// `font_index::Font::from_data` on a copy of `bytes`: a font exactly where
/// [`loaded_glyph_ids`] names a character map, which is then the font's.
#[verifier::external_body]
pub(crate) fn load_font(bytes: &Vec<u8>, index: u32) -> (r: Option<font_index::Font>)
    ensures
        r is Some == loaded_glyph_ids(bytes@, index) is Some,
        r matches Some(font) ==> loaded_glyph_ids(bytes@, index) == Some(face_glyph_ids(font)),
{
    font_index::Font::from_data(bytes.to_vec(), index as usize)
}

/// `swash::Charmap::map` on the font's character map: the nominal glyph of
/// `ch`, and 0, the missing glyph, where the map holds none.
#[verifier::external_body]
pub(crate) fn map_char(font: &font_index::Font, ch: char) -> (glyph: u16)
    ensures
        face_glyph_ids(*font).contains_key(ch) ==> glyph == face_glyph_ids(*font)[ch] && glyph
            != 0,
        !face_glyph_ids(*font).contains_key(ch) ==> glyph == 0,
{
    font.charmap().map(ch)
}

} // verus!
