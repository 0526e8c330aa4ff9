use chess_gui::font::RawGlyph;
use chess_gui::text::{Character, GlyphQuad, GlyphTable, Point};

fn glyph(texture_id: u32, width: i32, rows: i32, left: i32, top: i32, advance: u32) -> Character {
    Character {
        texture_id,
        size: Point { x: width, y: rows },
        bearing: Point { x: left, y: top },
        advance,
    }
}

#[test]
fn empty_table_has_no_glyph() {
    let table = GlyphTable::new();
    assert_eq!(table.get('a'), None);
    assert_eq!(table.get('\u{e9}'), None);
    assert!(!table.can_layout("a"));
    assert!(table.can_layout(""));
}

#[test]
fn insert_then_get_reads_back() {
    let mut table = GlyphTable::new();
    let a = glyph(1, 10, 12, 1, 11, 704);
    let b = glyph(2, 9, 14, 0, 10, 640);
    table.insert(b'a', a);
    table.insert(b'b', b);
    assert_eq!(table.get('a'), Some(a));
    assert_eq!(table.get('b'), Some(b));
    assert_eq!(table.get('c'), None);
    let a2 = glyph(3, 1, 1, 1, 1, 64);
    table.insert(b'a', a2);
    assert_eq!(table.get('a'), Some(a2));
    assert_eq!(table.get('b'), Some(b));
}

#[test]
fn layout_needs_every_character() {
    let mut table = GlyphTable::new();
    table.insert(b'h', glyph(1, 1, 1, 0, 0, 64));
    table.insert(b'i', glyph(2, 1, 1, 0, 0, 64));
    assert!(table.can_layout("hi"));
    assert!(table.can_layout("hhi"));
    assert!(!table.can_layout("hit"));
    assert!(!table.can_layout("h\u{e9}"));
}

#[test]
fn layout_moves_pen_by_whole_pixel_advances() {
    let mut table = GlyphTable::new();
    table.insert(b'A', glyph(7, 20, 24, 2, 22, 1472));
    table.insert(b'g', glyph(8, 14, 20, 1, 14, 1000));
    let quads = table.layout("Agg");
    assert_eq!(quads.len(), 3);
    assert_eq!(
        quads[0],
        GlyphQuad { texture_id: 7, pen: 0, left: 2, drop: 2, width: 20, height: 24 }
    );
    assert_eq!(
        quads[1],
        GlyphQuad { texture_id: 8, pen: 23, left: 1, drop: 6, width: 14, height: 20 }
    );
    assert_eq!(quads[2].pen, 23 + 15);
    assert!(table.layout("").is_empty());
}

#[test]
fn layout_of_concatenation_shifts_second_part() {
    let mut table = GlyphTable::new();
    table.insert(b'x', glyph(1, 5, 5, 0, 5, 320));
    table.insert(b'y', glyph(2, 6, 7, 1, 5, 448));
    let first = table.layout("xy");
    let second = table.layout("yx");
    let whole = table.layout("xyyx");
    let end_of_first = first[1].pen + 7;
    assert_eq!(whole[2].pen, end_of_first + second[0].pen);
    assert_eq!(whole[3].pen, end_of_first + second[1].pen);
}

#[test]
fn metrics_keep_advance_modulo_two_to_the_32() {
    let c = Character::from_metrics(4, 10, 11, -1, 9, (1i64 << 32) + 640);
    assert_eq!(c, glyph(4, 10, 11, -1, 9, 640));
    let d = Character::from_metrics(5, 0, 0, 0, 0, -64);
    assert_eq!(d.advance, 4294967232);
    assert_eq!(d.size, Point { x: 0, y: 0 });
}

#[test]
fn layout_refuses_drop_beyond_i32() {
    let mut table = GlyphTable::new();
    table.insert(b'q', glyph(1, 1, i32::MAX, 0, -1, 0));
    table.insert(b'p', glyph(2, 1, i32::MAX, 0, 0, 0));
    assert!(!table.can_layout("q"));
    assert!(!table.can_layout("pq"));
    assert!(table.can_layout("p"));
    assert_eq!(table.layout("p")[0].drop, i32::MAX);
}

#[test]
fn from_glyphs_fills_every_ascii_entry() {
    let glyphs: Vec<RawGlyph> = (0..128u8)
        .map(|c| RawGlyph {
            code: c,
            width: c as i32,
            rows: 2,
            pitch: c as i32,
            left: -1,
            top: 1,
            advance_x: 64 * c as i64,
            bitmap: vec![0; 2 * c as usize],
        })
        .collect();
    let textures: Vec<u32> = (0..128u32).collect();
    let table = GlyphTable::from_glyphs(&glyphs, &textures);
    for c in 0..128u8 {
        assert_eq!(table.get(c as char), Some(glyph(c as u32, c as i32, 2, -1, 1, 64 * c as u32)));
    }
    assert_eq!(table.get('\u{80}'), None);
}
