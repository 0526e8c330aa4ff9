//! A FreeType face and a model of its glyph slot.
//!
//! FreeType renders a character into the glyph slot of the face and the
//! slot keeps that glyph until the next load. The model records what the
//! slot holds and every load asked of FreeType; only the calls that load a
//! glyph change it, and every read of the slot gives back what the model
//! holds. The values themselves come from the font, so nothing is claimed
//! of them beyond that.
use vstd::prelude::*;

verus! {

#[verifier::external_type_specification]
#[verifier::external_body]
#[verifier::reject_recursive_types(BYTES)]
pub struct ExFace<BYTES>(freetype::Face<BYTES>);

#[verifier::external_type_specification]
#[verifier::external_body]
pub struct ExFtError(freetype::Error);

/// What the glyph slot holds after the glyph of `code` was rendered.
pub struct SlotModel {
    /// The character loaded.
    pub code: u8,
    /// Pixels per row of the bitmap.
    pub width: i32,
    /// Rows of the bitmap.
    pub rows: i32,
    /// Bytes from one row of the bitmap to the next.
    pub pitch: i32,
    /// Left bearing in pixels.
    pub left: i32,
    /// Top bearing in pixels.
    pub top: i32,
    /// Horizontal advance in 1/64 pixel.
    pub advance_x: i64,
    /// The bytes of the bitmap.
    pub bitmap: Seq<u8>,
}

/// One load asked of FreeType: the character, and what the slot held
/// afterwards (`None` when the load failed).
pub struct LoadAttempt {
    pub code: u8,
    pub slot: Option<SlotModel>,
}

/// `|pitch| * rows` is the size of a bitmap with `rows` rows `pitch` bytes
/// apart, and it is an `i32`.
pub open spec fn bitmap_size_known(pitch: i32, rows: i32) -> bool {
    &&& 0 <= rows
    &&& pitch != i32::MIN
    &&& bitmap_size(pitch, rows) <= i32::MAX
}

/// `|pitch| * rows`.
pub open spec fn bitmap_size(pitch: i32, rows: i32) -> int {
    (if pitch < 0 {
        -pitch
    } else {
        pitch as int
    }) * rows
}

/// A FreeType face, the glyph its slot holds and the loads asked of it.
pub struct GlyphSource {
    face: freetype::Face,
    slot: Ghost<Option<SlotModel>>,
    attempts: Ghost<Seq<LoadAttempt>>,
}

impl GlyphSource {
    /// What the glyph slot holds, if a load succeeded last.
    pub closed spec fn slot(&self) -> Option<SlotModel> {
        self.slot@
    }

    /// The loads asked of FreeType, in order.
    pub closed spec fn attempts(&self) -> Seq<LoadAttempt> {
        self.attempts@
    }

    /// A face sized as the caller wants it, with no load asked of it yet.
    pub fn new(face: freetype::Face) -> (source: GlyphSource)
        ensures
            source.slot() is None,
            source.attempts() == Seq::<LoadAttempt>::empty(),
    {
        GlyphSource { face, slot: Ghost(None), attempts: Ghost(Seq::empty()) }
    }

    /// Calls `freetype::Face::load_char` with `LoadFlag::RENDER`: loads and
    /// renders the glyph of `code` into the slot. Whether it succeeds depends
    /// on the font and is not claimed. Claimed: the load is recorded; after a
    /// success the slot holds the glyph of `code`, after a failure nothing is
    /// known of what it holds.
    #[verifier::external_body]
    pub(crate) fn render_char(&mut self, code: u8) -> (r: Result<(), freetype::Error>)
        ensures
            r is Ok ==> final(self).slot() is Some && final(self).slot()->0.code == code,
            r is Err ==> final(self).slot() is None,
            final(self).attempts() == old(self).attempts().push(
                LoadAttempt { code, slot: final(self).slot() },
            ),
    {
        self.face.load_char(code as usize, freetype::face::LoadFlag::RENDER)
    }

    /// Reads `freetype::Bitmap::width` of the slot's bitmap (through
    /// `Face::glyph` and `GlyphSlot::bitmap`): the width the slot holds.
    #[verifier::external_body]
    pub(crate) fn slot_width(&self) -> (w: i32)
        requires
            self.slot() is Some,
        ensures
            w == self.slot()->0.width,
    {
        self.face.glyph().bitmap().width()
    }

    /// Reads `freetype::Bitmap::rows` of the slot's bitmap (through
    /// `Face::glyph` and `GlyphSlot::bitmap`): the rows the slot holds.
    #[verifier::external_body]
    pub(crate) fn slot_rows(&self) -> (rows: i32)
        requires
            self.slot() is Some,
        ensures
            rows == self.slot()->0.rows,
    {
        self.face.glyph().bitmap().rows()
    }

    /// Reads `freetype::Bitmap::pitch` of the slot's bitmap (through
    /// `Face::glyph` and `GlyphSlot::bitmap`): the pitch the slot holds.
    #[verifier::external_body]
    pub(crate) fn slot_pitch(&self) -> (pitch: i32)
        requires
            self.slot() is Some,
        ensures
            pitch == self.slot()->0.pitch,
    {
        self.face.glyph().bitmap().pitch()
    }

    /// Reads `freetype::GlyphSlot::bitmap_left` (through `Face::glyph`): the
    /// left bearing the slot holds.
    #[verifier::external_body]
    pub(crate) fn slot_left(&self) -> (left: i32)
        requires
            self.slot() is Some,
        ensures
            left == self.slot()->0.left,
    {
        self.face.glyph().bitmap_left()
    }

    /// Reads `freetype::GlyphSlot::bitmap_top` (through `Face::glyph`): the
    /// top bearing the slot holds.
    #[verifier::external_body]
    pub(crate) fn slot_top(&self) -> (top: i32)
        requires
            self.slot() is Some,
        ensures
            top == self.slot()->0.top,
    {
        self.face.glyph().bitmap_top()
    }

    /// Reads the `x` coordinate of `freetype::GlyphSlot::advance` (through
    /// `Face::glyph`): the horizontal advance the slot holds.
    #[verifier::external_body]
    pub(crate) fn slot_advance_x(&self) -> (advance_x: i64)
        requires
            self.slot() is Some,
        ensures
            advance_x == self.slot()->0.advance_x,
    {
        self.face.glyph().advance().x as i64
    }

    /// Copies `freetype::Bitmap::buffer` of the slot's bitmap (through
    /// `Face::glyph` and `GlyphSlot::bitmap`). `buffer` computes
    /// `|pitch| * rows` in `i32`, so it is only called where that is an
    /// `i32`; it then holds that many bytes (none when the product is 0).
    #[verifier::external_body]
    pub(crate) fn slot_bitmap(&self) -> (bytes: Vec<u8>)
        requires
            self.slot() is Some,
            bitmap_size_known(self.slot()->0.pitch, self.slot()->0.rows),
        ensures
            bytes@ == self.slot()->0.bitmap,
            bytes@.len() == bitmap_size(self.slot()->0.pitch, self.slot()->0.rows),
    {
        self.face.glyph().bitmap().buffer().to_vec()
    }
}

} // verus!
