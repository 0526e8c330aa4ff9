//! Reading the rendered glyphs of the ASCII characters out of a FreeType
//! face.
//!
//! Each glyph is loaded through `GlyphSource`, whose model records what was
//! asked of FreeType and what the glyph slot held afterwards; the glyphs read
//! here are exactly what the slot held.
use vstd::prelude::*;

use crate::glyph_source::{bitmap_size, bitmap_size_known, GlyphSource, LoadAttempt, SlotModel};

verus! {

/// A glyph as FreeType rendered it.
pub struct RawGlyph {
    /// The character whose glyph this is.
    pub code: u8,
    /// Pixels per row of the bitmap.
    pub width: i32,
    /// Rows of the bitmap.
    pub rows: i32,
    /// Bytes from one row of the bitmap to the next.
    pub pitch: i32,
    /// Left bearing in pixels.
    pub left: i32,
    /// Top bearing in pixels.
    pub top: i32,
    /// Horizontal advance in 1/64 pixel.
    pub advance_x: i64,
    /// The bitmap, row after row.
    pub bitmap: Vec<u8>,
}

/// Why a glyph could not be read.
#[derive(Debug, Clone, Copy, PartialEq, Eq, Structural)]
pub enum LoadFailure {
    /// FreeType could not load or render the glyph.
    NotLoaded,
    /// The bitmap is larger than `i32::MAX` bytes.
    BitmapTooLarge,
}

/// The glyph of a character could not be read.
#[derive(Debug, Clone, Copy, PartialEq, Eq, Structural)]
pub struct GlyphLoadError {
    pub code: u8,
    pub reason: LoadFailure,
}

/// `g` holds exactly what the glyph slot held.
pub open spec fn matches_slot(g: RawGlyph, m: SlotModel) -> bool {
    &&& g.code == m.code
    &&& g.width == m.width
    &&& g.rows == m.rows
    &&& g.pitch == m.pitch
    &&& g.left == m.left
    &&& g.top == m.top
    &&& g.advance_x == m.advance_x
    &&& g.bitmap@ == m.bitmap
}

/// The load succeeded and left a bitmap of `i32` size.
pub open spec fn readable(a: LoadAttempt) -> bool {
    &&& a.slot is Some
    &&& bitmap_size_known(a.slot->0.pitch, a.slot->0.rows)
}

/// What `read_glyph` reports of a load `a` of `code`.
pub open spec fn read_outcome(a: LoadAttempt, r: Result<RawGlyph, GlyphLoadError>) -> bool {
    match r {
        Ok(g) => readable(a) && matches_slot(g, a.slot->0) && g.bitmap@.len() == bitmap_size(
            g.pitch,
            g.rows,
        ),
        Err(e) => {
            &&& e.code == a.code
            &&& !readable(a)
            &&& (e.reason == LoadFailure::NotLoaded <==> a.slot is None)
        },
    }
}

/// Asks FreeType to render the glyph of `code` and reads it out of the glyph
/// slot: width, rows, pitch, bearings, advance and the bitmap bytes, each as
/// the slot holds it. Fails when FreeType cannot load the glyph, or when its
/// bitmap is larger than `i32::MAX` bytes.
pub fn read_glyph(source: &mut GlyphSource, code: u8) -> (r: Result<RawGlyph, GlyphLoadError>)
    ensures
        final(source).attempts() == old(source).attempts().push(
            LoadAttempt { code, slot: final(source).slot() },
        ),
        final(source).slot() is Some ==> final(source).slot()->0.code == code,
        read_outcome(LoadAttempt { code, slot: final(source).slot() }, r),
{
    match source.render_char(code) {
        Err(_) => Err(GlyphLoadError { code, reason: LoadFailure::NotLoaded }),
        Ok(()) => {
            let rows = source.slot_rows();
            let pitch = source.slot_pitch();
            if rows < 0 || pitch == i32::MIN {
                return Err(GlyphLoadError { code, reason: LoadFailure::BitmapTooLarge });
            }
            let p: i64 = if pitch < 0 {
                -(pitch as i64)
            } else {
                pitch as i64
            };
            assert(0 <= p <= 0x8000_0000 && 0 <= rows <= 0x7fff_ffff);
            assert(p * (rows as i64) <= 0x8000_0000 * 0x7fff_ffff) by (nonlinear_arith)
                requires
                    0 <= p <= 0x8000_0000,
                    0 <= rows <= 0x7fff_ffff,
            ;
            if p * (rows as i64) > 0x7fff_ffff {
                return Err(GlyphLoadError { code, reason: LoadFailure::BitmapTooLarge });
            }
            let bitmap = source.slot_bitmap();
            Ok(
                RawGlyph {
                    code,
                    width: source.slot_width(),
                    rows,
                    pitch,
                    left: source.slot_left(),
                    top: source.slot_top(),
                    advance_x: source.slot_advance_x(),
                    bitmap,
                },
            )
        },
    }
}

/// Reads the glyphs of the 128 ASCII characters, asking FreeType for them in
/// order and stopping at the first that cannot be read. On success glyph `i`
/// is what the slot held after character `i` was loaded; a failure names the
/// first character that could not be read, every earlier one having been
/// read.
pub fn read_ascii_glyphs(source: &mut GlyphSource) -> (r: Result<Vec<RawGlyph>, GlyphLoadError>)
    ensures
        final(source).attempts().subrange(0, old(source).attempts().len() as int)
            == old(source).attempts(),
        r matches Ok(glyphs) ==> {
            &&& glyphs@.len() == 128
            &&& final(source).attempts().len() == old(source).attempts().len() + 128
            &&& forall|i: int|
                0 <= i < 128 ==> {
                    let a = #[trigger] final(source).attempts()[old(source).attempts().len() + i];
                    &&& a.code == i
                    &&& read_outcome(a, Ok(glyphs@[i]))
                }
        },
        r matches Err(e) ==> {
            &&& e.code < 128
            &&& final(source).attempts().len() == old(source).attempts().len() + e.code + 1
            &&& forall|i: int|
                0 <= i <= e.code ==> (#[trigger] final(source).attempts()[old(source).attempts().len()
                    + i]).code == i
            &&& forall|i: int|
                0 <= i < e.code ==> readable(
                    #[trigger] final(source).attempts()[old(source).attempts().len() + i],
                )
            &&& read_outcome(final(source).attempts().last(), Err(e))
        },
{
    let ghost base = source.attempts();
    let ghost n = base.len();
    let mut glyphs: Vec<RawGlyph> = Vec::new();
    for c in 0..128u8
        invariant
            base == old(source).attempts(),
            n == base.len(),
            glyphs@.len() == c,
            source.attempts().len() == n + c,
            source.attempts().subrange(0, n as int) == base,
            forall|i: int|
                0 <= i < c ==> {
                    let a = #[trigger] source.attempts()[n + i];
                    &&& a.code == i
                    &&& read_outcome(a, Ok(glyphs@[i]))
                },
    {
        let ghost before = source.attempts();
        let r = read_glyph(source, c);
        proof {
            assert(source.attempts().subrange(0, n as int) =~= before.subrange(0, n as int));
            assert forall|i: int| 0 <= i < c implies #[trigger] source.attempts()[n + i] == before[n + i] by {
            }
        }
        match r {
            Ok(g) => {
                glyphs.push(g);
            },
            Err(e) => {
                proof {
                    assert(source.attempts().last() == source.attempts()[n + c]);
                    assert forall|i: int| 0 <= i < c implies readable(
                        #[trigger] source.attempts()[n + i],
                    ) by {
                        assert(read_outcome(source.attempts()[n + i], Ok(glyphs@[i])));
                    }
                }
                return Err(e);
            },
        }
    }
    Ok(glyphs)
}

} // verus!
