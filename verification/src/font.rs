//! Glyph rasters of the mono font.
//!
//! The font crate pre-rasterizes every character it covers at a fixed weight
//! and height; a raster is a rectangle of per-pixel intensities, one byte
//! each. The raster of a character is a function of the character alone, so
//! it carries an uninterpreted name, `glyph_raster`, that the renderer's
//! contracts speak of. A character outside the font's coverage falls back to
//! the replacement character's raster.

use vstd::prelude::*;
use crate::writer::RASTER_HEIGHT;
use crate::writer::RASTER_WIDTH;

verus! {

/// Glyph rendered in place of characters the font does not cover.
pub const REPLACEMENT_CHAR: char = '\u{FFFD}';

/// The raster the font holds for a character at regular weight and raster
/// height 16: rows of per-pixel intensities, top row first; `None` when the
/// font does not cover the character.
pub uninterp spec fn glyph_raster(c: char) -> Option<Seq<Seq<u8>>>;

/// A raster has exactly the font's fixed dimensions.
pub open spec fn glyph_dims(g: Seq<Seq<u8>>) -> bool {
    &&& g.len() == RASTER_HEIGHT
    &&& forall|i: int| 0 <= i < g.len() ==> (#[trigger] g[i]).len() == RASTER_WIDTH
}

/// Relies on noto_sans_mono_bitmap::get_raster at regular weight and raster
/// height 16: the result depends on the character alone; it is `Some` exactly
/// for the characters the font covers, among them the replacement character;
/// every raster is 16 rows of 7 intensity bytes, as the crate guarantees for
/// one weight and height of this mono font.
#[verifier::external_body]
fn raster_of(c: char) -> (r: Option<Vec<Vec<u8>>>)
    ensures
        r is Some <==> glyph_raster(c) is Some,
        r is Some ==> r->Some_0.deep_view() == glyph_raster(c)->Some_0,
        r is Some ==> glyph_dims(r->Some_0.deep_view()),
        r is None ==> glyph_raster(REPLACEMENT_CHAR) is Some,
{
    let rendered = noto_sans_mono_bitmap::get_raster(
        c,
        noto_sans_mono_bitmap::FontWeight::Regular,
        noto_sans_mono_bitmap::RasterHeight::Size16,
    )?;
    let mut rows: Vec<Vec<u8>> = Vec::new();
    for row in rendered.raster() {
        rows.push(row.to_vec());
    }
    Some(rows)
}

/// The raster a character is rendered with: its own, or the replacement
/// character's where the font lacks it.
pub open spec fn spec_char_raster(c: char) -> Seq<Seq<u8>> {
    if glyph_raster(c) is Some {
        glyph_raster(c)->Some_0
    } else {
        glyph_raster(REPLACEMENT_CHAR)->Some_0
    }
}

/// Fetch the raster a character is rendered with, falling back to the
/// replacement character's raster for characters outside the font.
pub fn char_raster(c: char) -> (g: Vec<Vec<u8>>)
    ensures
        g.deep_view() == spec_char_raster(c),
        glyph_dims(g.deep_view()),
{
    match raster_of(c) {
        Some(g) => g,
        None => {
            let fallback = raster_of(REPLACEMENT_CHAR);
            match fallback {
                Some(g) => g,
                None => {
                    proof {
                        assert(false);
                    }
                    vstd::pervasive::unreached()
                },
            }
        },
    }
}

} // verus!
