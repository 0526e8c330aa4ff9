# chess_gui

The logic of a windowed chess board: a checkerboard of 64 squares, the
highlights shown when a piece is picked, the decisions taken on each key
press, click and frame (picking, restarting an ended game, choosing the
piece of a promotion), the glyph table of the ASCII characters and the
layout of a line of text, all verified with Verus.

- `src/board.rs`: square colours, square indices, pick highlights.
- `src/game.rs`: the screen's state machine and the lines of text it shows.
- `src/text.rs`: glyph table and whole-pixel text layout.
- `src/font.rs`: reading rendered glyphs out of a FreeType face.
- `app/`: the window, OpenGL drawing, image and font loading, the chess
  engine calls, and everything computed in floating point.
