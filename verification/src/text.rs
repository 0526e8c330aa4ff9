//! Glyphs of the ASCII characters and the layout of a line of text.
//!
//! Metrics are kept in whole pixels, as the font rasteriser gives them; the
//! pen position is the sum of the advances of the characters before, and
//! the caller scales all of it to the size it draws at.
use vstd::prelude::*;

use crate::font::RawGlyph;

verus! {

/// Number of characters that have a glyph: the ASCII characters.
pub const GLYPH_COUNT: usize = 128;

/// The glyph of one character: its texture, the size of its bitmap, where
/// the bitmap sits relative to the pen (left and top bearing), and how far
/// the pen moves after it, in 1/64 pixel.
#[derive(Debug, Clone, Copy, PartialEq, Eq, Structural)]
pub struct Character {
    pub texture_id: u32,
    pub size: Point,
    pub bearing: Point,
    pub advance: u32,
}

/// A pair of whole-pixel coordinates.
#[derive(Debug, Clone, Copy, PartialEq, Eq, Structural)]
pub struct Point {
    pub x: i32,
    pub y: i32,
}

/// Where one character of a line is drawn, in unscaled pixels relative to
/// the start of the line on the baseline.
#[derive(Debug, Clone, Copy, PartialEq, Eq, Structural)]
pub struct GlyphQuad {
    pub texture_id: u32,
    /// Pen position: the whole-pixel advances of the characters before.
    pub pen: u128,
    /// Left edge of the bitmap relative to the pen.
    pub left: i32,
    /// How far the bottom edge of the bitmap lies below the baseline.
    pub drop: i32,
    pub width: i32,
    pub height: i32,
}

/// The glyphs of the ASCII characters, each one present or not.
pub struct GlyphTable {
    glyphs: Vec<Option<Character>>,
}

/// Whether `v` is a value of `i32`.
pub open spec fn fits_i32(v: int) -> bool {
    i32::MIN <= v <= i32::MAX
}

/// How far, in whole pixels, the pen moves after `c`.
pub open spec fn step_of(c: Character) -> nat {
    (c.advance / 64) as nat
}

/// The quad of a character drawn with the pen at `pen`.
pub open spec fn quad_of(c: Character, pen: int) -> GlyphQuad {
    GlyphQuad {
        texture_id: c.texture_id,
        pen: pen as u128,
        left: c.bearing.x,
        drop: (c.size.y - c.bearing.y) as i32,
        width: c.size.x,
        height: c.size.y,
    }
}

impl View for GlyphTable {
    type V = Seq<Option<Character>>;

    closed spec fn view(&self) -> Seq<Option<Character>> {
        self.glyphs@
    }
}

impl GlyphTable {
    /// The table holds one entry per ASCII character.
    pub open spec fn wf(&self) -> bool {
        self@.len() == 128
    }

    /// The glyph of `c`: characters beyond ASCII have none.
    pub open spec fn glyph_of(&self, c: char) -> Option<Character> {
        if (c as int) < 128 {
            self@[c as int]
        } else {
            None
        }
    }

    /// Every character of `text` has a glyph, and the bottom of each bitmap
    /// lies a distance below the baseline that an `i32` can hold.
    pub open spec fn can_lay_out(&self, text: Seq<char>) -> bool {
        forall|i: int|
            0 <= i < text.len() ==> (#[trigger] self.glyph_of(text[i])) is Some && fits_i32(
                self.glyph_of(text[i])->0.size.y - self.glyph_of(text[i])->0.bearing.y,
            )
    }

    /// The whole-pixel advances of the first `n` characters of `text`.
    pub open spec fn pen_before(&self, text: Seq<char>, n: int) -> nat
        decreases n,
    {
        if n <= 0 {
            0
        } else {
            self.pen_before(text, n - 1) + step_of(self.glyph_of(text[n - 1])->0)
        }
    }

    /// An empty table.
    pub fn new() -> (table: GlyphTable)
        ensures
            table.wf(),
            table@ == Seq::new(128, |i: int| None::<Character>),
    {
        let mut glyphs: Vec<Option<Character>> = Vec::new();
        for i in 0..GLYPH_COUNT
            invariant
                glyphs@ == Seq::new(i as nat, |j: int| None::<Character>),
        {
            glyphs.push(None);
        }
        GlyphTable { glyphs }
    }

    /// The table of the glyphs of the 128 ASCII characters: the entry of
    /// character `i` is built from `glyphs[i]` and the texture `textures[i]`.
    pub fn from_glyphs(glyphs: &Vec<RawGlyph>, textures: &Vec<u32>) -> (table: GlyphTable)
        requires
            glyphs@.len() == 128,
            textures@.len() == 128,
        ensures
            table.wf(),
            forall|i: int|
                0 <= i < 128 ==> #[trigger] table@[i] == Some(
                    glyph_character(glyphs@[i], textures@[i]),
                ),
    {
        let mut table = GlyphTable::new();
        for c in 0..128u8
            invariant
                glyphs@.len() == 128,
                textures@.len() == 128,
                table.wf(),
                forall|i: int|
                    0 <= i < c ==> #[trigger] table@[i] == Some(
                        glyph_character(glyphs@[i], textures@[i]),
                    ),
                forall|i: int| c <= i < 128 ==> #[trigger] table@[i] is None,
        {
            let g = &glyphs[c as usize];
            let character = Character::from_metrics(
                textures[c as usize],
                g.width,
                g.rows,
                g.left,
                g.top,
                g.advance_x,
            );
            table.insert(c, character);
        }
        table
    }

    /// Stores the glyph of the ASCII character `code`.
    pub fn insert(&mut self, code: u8, glyph: Character)
        requires
            old(self).wf(),
            code < 128,
        ensures
            final(self).wf(),
            final(self)@ == old(self)@.update(code as int, Some(glyph)),
    {
        self.glyphs.set(code as usize, Some(glyph));
    }

    /// The glyph of `c`, if it has one.
    pub fn get(&self, c: char) -> (glyph: Option<Character>)
        requires
            self.wf(),
        ensures
            glyph == self.glyph_of(c),
    {
        let code = c as u32;
        if code < 128 {
            self.glyphs[code as usize]
        } else {
            None
        }
    }

    /// Whether `text` can be laid out: every character has a glyph whose
    /// bitmap bottom lies an `i32` distance below the baseline.
    pub fn can_layout(&self, text: &str) -> (b: bool)
        requires
            self.wf(),
        ensures
            b == self.can_lay_out(text@),
    {
        let n = text.unicode_len();
        for i in 0..n
            invariant
                self.wf(),
                n == text@.len(),
                forall|j: int|
                    0 <= j < i ==> (#[trigger] self.glyph_of(text@[j])) is Some && fits_i32(
                        self.glyph_of(text@[j])->0.size.y - self.glyph_of(text@[j])->0.bearing.y,
                    ),
        {
            let c = text.get_char(i);
            match self.get(c) {
                None => {
                    return false;
                },
                Some(ch) => {
                    let drop = ch.size.y as i64 - ch.bearing.y as i64;
                    if drop < i32::MIN as i64 || drop > i32::MAX as i64 {
                        return false;
                    }
                },
            }
        }
        true
    }

    /// Lays out `text` on one line: one quad per character, in order, the
    /// pen moving by the whole-pixel advance of each character.
    pub fn layout(&self, text: &str) -> (quads: Vec<GlyphQuad>)
        requires
            self.wf(),
            self.can_lay_out(text@),
        ensures
            quads@.len() == text@.len(),
            forall|i: int|
                0 <= i < text@.len() ==> #[trigger] quads@[i] == quad_of(
                    self.glyph_of(text@[i])->0,
                    self.pen_before(text@, i) as int,
                ),
    {
        let n = text.unicode_len();
        let mut quads: Vec<GlyphQuad> = Vec::new();
        let mut pen: u128 = 0;
        for i in 0..n
            invariant
                self.wf(),
                self.can_lay_out(text@),
                n == text@.len(),
                quads@.len() == i,
                pen == self.pen_before(text@, i as int),
                pen <= i * 67108864,
                forall|j: int|
                    0 <= j < i ==> #[trigger] quads@[j] == quad_of(
                        self.glyph_of(text@[j])->0,
                        self.pen_before(text@, j) as int,
                    ),
        {
            let c = text.get_char(i);
            assert(self.glyph_of(text@[i as int]) is Some);
            let ch = match self.get(c) {
                Some(ch) => ch,
                None => {
                    return quads;
                },
            };
            quads.push(
                GlyphQuad {
                    texture_id: ch.texture_id,
                    pen,
                    left: ch.bearing.x,
                    drop: ch.size.y - ch.bearing.y,
                    width: ch.size.x,
                    height: ch.size.y,
                },
            );
            let step = ch.advance / 64;
            assert(step <= 67108864);
            pen = pen + step as u128;
        }
        quads
    }
}

/// The glyph entry built from a rendered glyph and its texture.
pub open spec fn glyph_character(g: RawGlyph, texture_id: u32) -> Character {
    Character {
        texture_id,
        size: Point { x: g.width, y: g.rows },
        bearing: Point { x: g.left, y: g.top },
        advance: g.advance_x as u32,
    }
}

impl Character {
    /// The glyph read from the rasteriser: the size and bearings of its
    /// bitmap and the horizontal advance, kept modulo 2^32 as the pen
    /// advance of the glyph.
    pub fn from_metrics(texture_id: u32, width: i32, rows: i32, left: i32, top: i32, advance_x: i64) -> (c: Character)
        ensures
            c == (Character {
                texture_id,
                size: Point { x: width, y: rows },
                bearing: Point { x: left, y: top },
                advance: advance_x as u32,
            }),
    {
        Character {
            texture_id,
            size: Point { x: width, y: rows },
            bearing: Point { x: left, y: top },
            advance: advance_x as u32,
        }
    }
}

/// After the glyph of `code` is stored, reading the table gives that glyph
/// for the character `code` and what it gave before for every other one.
pub proof fn lemma_get_after_insert(before: GlyphTable, after: GlyphTable, code: u8, glyph: Character, c: char)
    requires
        before.wf(),
        code < 128,
        after@ == before@.update(code as int, Some(glyph)),
    ensures
        after.glyph_of(c) == if c as int == code as int {
            Some(glyph)
        } else {
            before.glyph_of(c)
        },
{
}

/// The pen never moves backwards along a line.
pub proof fn lemma_pen_monotone(table: GlyphTable, text: Seq<char>, i: int, j: int)
    requires
        0 <= i <= j,
    ensures
        table.pen_before(text, i) <= table.pen_before(text, j),
    decreases j,
{
    if i < j {
        lemma_pen_monotone(table, text, i, j - 1);
    }
}

proof fn lemma_pen_prefix(table: GlyphTable, a: Seq<char>, b: Seq<char>, m: int)
    requires
        0 <= m <= a.len(),
    ensures
        table.pen_before(a + b, m) == table.pen_before(a, m),
    decreases m,
{
    if m > 0 {
        lemma_pen_prefix(table, a, b, m - 1);
        assert((a + b)[m - 1] == a[m - 1]);
    }
}

/// Laying out two pieces of text one after the other puts every character
/// of the second piece where laying out the whole text puts it: the pen
/// inside the whole text is the pen at the end of the first piece plus the
/// pen inside the second.
pub proof fn lemma_pen_concat(table: GlyphTable, a: Seq<char>, b: Seq<char>, k: int)
    requires
        0 <= k <= b.len(),
    ensures
        table.pen_before(a + b, a.len() + k) == table.pen_before(a, a.len() as int)
            + table.pen_before(b, k),
    decreases k,
{
    if k == 0 {
        lemma_pen_prefix(table, a, b, a.len() as int);
    } else {
        lemma_pen_concat(table, a, b, k - 1);
        assert((a + b)[a.len() + k - 1] == b[k - 1]);
    }
}

/// Each character moves the pen by its whole-pixel advance, `advance / 64`,
/// whatever the size of its bitmap: a glyph with an empty bitmap, such as a
/// space, still moves the pen by its advance.
pub proof fn lemma_pen_step(table: GlyphTable, text: Seq<char>, i: int)
    requires
        0 <= i < text.len(),
    ensures
        table.pen_before(text, i + 1) == table.pen_before(text, i) + (table.glyph_of(
            text[i],
        )->0.advance / 64) as int,
{
}

/// The quad of a character sits at the pen position it is given and carries
/// the glyph's texture, left bearing and bitmap size; its bottom lies
/// `rows - top` pixels below the baseline.
pub proof fn lemma_quad_fields(c: Character, pen: int)
    requires
        0 <= pen <= u128::MAX,
        fits_i32(c.size.y - c.bearing.y),
    ensures
        quad_of(c, pen).pen == pen,
        quad_of(c, pen).texture_id == c.texture_id,
        quad_of(c, pen).left == c.bearing.x,
        quad_of(c, pen).drop == c.size.y - c.bearing.y,
        quad_of(c, pen).width == c.size.x,
        quad_of(c, pen).height == c.size.y,
{
}

} // verus!
