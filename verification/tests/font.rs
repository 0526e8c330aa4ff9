use chess_gui::font::{read_ascii_glyphs, read_glyph};
use chess_gui::glyph_source::GlyphSource;
use chess_gui::text::{Character, GlyphTable};

const FONT: &str = "/usr/share/fonts/truetype/dejavu/DejaVuSans.ttf";

fn source() -> GlyphSource {
    let library = freetype::Library::init().unwrap();
    let face = library.new_face(FONT, 0).unwrap();
    face.set_pixel_sizes(0, 48).unwrap();
    GlyphSource::new(face)
}

#[test]
fn read_glyph_renders_ascii_letters() {
    let mut source = source();
    let a = read_glyph(&mut source, b'A').ok().unwrap();
    assert_eq!(a.code, b'A');
    assert!(a.width > 0);
    assert!(a.rows > 0);
    assert!(a.advance_x > 0);
    assert_eq!(a.bitmap.len(), (a.pitch.abs() as usize) * (a.rows as usize));
    let space = read_glyph(&mut source, b' ').ok().unwrap();
    assert_eq!(space.code, b' ');
    assert_eq!(space.bitmap.len(), 0);
    assert!(space.advance_x > 0);
    let mut table = GlyphTable::new();
    table.insert(b'A', Character::from_metrics(1, a.width, a.rows, a.left, a.top, a.advance_x));
    let quads = table.layout("AA");
    assert_eq!(quads[1].pen, (a.advance_x as u128) / 64);
}

#[test]
fn different_characters_give_different_glyphs() {
    let mut source = source();
    let i = read_glyph(&mut source, b'i').ok().unwrap();
    let w = read_glyph(&mut source, b'W').ok().unwrap();
    assert!(w.width > i.width);
    assert!(w.advance_x > i.advance_x);
}

#[test]
fn ascii_glyphs_build_the_table() {
    let mut source = source();
    let glyphs = read_ascii_glyphs(&mut source).ok().unwrap();
    assert_eq!(glyphs.len(), 128);
    for (i, g) in glyphs.iter().enumerate() {
        assert_eq!(g.code as usize, i);
        assert_eq!(g.bitmap.len(), (g.pitch.abs() as usize) * (g.rows as usize));
    }
    let textures: Vec<u32> = (0..128u32).map(|t| t + 100).collect();
    let table = GlyphTable::from_glyphs(&glyphs, &textures);
    let a = table.get('A').unwrap();
    assert_eq!(a.texture_id, 100 + 65);
    assert_eq!(a.size.x, glyphs[65].width);
    assert_eq!(a.advance, glyphs[65].advance_x as u32);
    assert!(table.can_layout("White wins!"));
    assert!(!table.can_layout("\u{e9}"));
}
