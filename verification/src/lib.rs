//! The logic of a chess board screen: the checkerboard and the highlights of
//! a picked piece (`board`), the decisions taken on each input and at the end
//! of each frame (`game`), the glyph table and the layout of a line of text
//! (`text`), and the reading of rendered glyphs out of a FreeType face
//! (`font`).
pub mod board;
pub mod font;
pub mod game;
pub mod glyph_source;
pub mod text;
