//! The 8x8 board: which squares are light and dark, how a square is found
//! from its column and row, and which squares are highlighted after a pick.
use vstd::prelude::*;

verus! {

/// The colour of a square.
#[derive(Debug, Clone, Copy, PartialEq, Eq, Structural)]
pub enum Shade {
    Light,
    Dark,
}

/// One square of the board as it is drawn: its colour, whether it is the
/// selected square, and how many legal moves of the selected piece land on it.
#[derive(Debug, Clone, Copy, PartialEq, Eq, Structural)]
pub struct Tile {
    pub shade: Shade,
    pub selected: bool,
    pub move_marks: usize,
}

/// Index of the square in column `x`, row `y` (row 0 is the bottom rank).
pub open spec fn square_index(x: int, y: int) -> int {
    8 * y + x
}

/// Light squares are those whose column and row add up to an even number.
pub open spec fn shade_at(x: int, y: int) -> Shade {
    if (x + y) % 2 == 0 {
        Shade::Light
    } else {
        Shade::Dark
    }
}

/// Every square of `tiles` carries the colour of the checkerboard.
pub open spec fn is_board_layout(tiles: Seq<Tile>) -> bool {
    &&& tiles.len() == 64
    &&& forall|x: int, y: int|
        0 <= x < 8 && 0 <= y < 8 ==> #[trigger] tiles[square_index(x, y)].shade == shade_at(x, y)
}

/// No square of `tiles` is highlighted.
pub open spec fn is_cleared(tiles: Seq<Tile>) -> bool {
    forall|i: int| 0 <= i < tiles.len() ==> !(#[trigger] tiles[i]).selected && tiles[i].move_marks == 0
}

/// The squares of `tiles` keep the colours of the squares of `other`.
pub open spec fn same_shades(tiles: Seq<Tile>, other: Seq<Tile>) -> bool {
    &&& tiles.len() == other.len()
    &&& forall|i: int| 0 <= i < tiles.len() ==> (#[trigger] tiles[i]).shade == other[i].shade
}

/// The index of the board square named by a move target.
pub open spec fn target_index(target: (u8, u8)) -> int {
    square_index(target.0 as int, target.1 as int)
}

/// How many of `moves` land on the square with index `i`.
pub open spec fn marks_on(moves: Seq<(u8, u8)>, i: int) -> nat
    decreases moves.len(),
{
    if moves.len() == 0 {
        0
    } else {
        marks_on(moves.drop_last(), i) + if target_index(moves.last()) == i {
            1nat
        } else {
            0nat
        }
    }
}

/// Every move of `moves` names a square of the board.
pub open spec fn targets_on_board(moves: Seq<(u8, u8)>) -> bool {
    forall|j: int| 0 <= j < moves.len() ==> 0 <= #[trigger] target_index(moves[j]) < 64
}

/// The highlights after a piece on square `sel` was picked and `moves` are
/// its legal moves: the picked square is selected and each square carries
/// one mark per move landing on it.
pub open spec fn is_pick_highlight(tiles: Seq<Tile>, sel: int, moves: Seq<(u8, u8)>) -> bool {
    forall|i: int|
        0 <= i < tiles.len() ==> (#[trigger] tiles[i]).selected == (i == sel) && tiles[i].move_marks
            == marks_on(moves, i)
}

/// Colour of the square in column `x`, row `y`: rows alternate starting
/// with a light square in the bottom-left corner.
pub fn shade_of(x: usize, y: usize) -> (shade: Shade)
    requires
        x < 8,
        y < 8,
    ensures
        shade == shade_at(x as int, y as int),
{
    if y % 2 == 0 {
        if x % 2 == 0 {
            Shade::Light
        } else {
            Shade::Dark
        }
    } else {
        if (x + 1) % 2 == 0 {
            Shade::Light
        } else {
            Shade::Dark
        }
    }
}

/// Index of the square in column `x`, row `y`, or `None` when that index
/// falls outside the 64 squares.
pub fn index_of(x: usize, y: usize) -> (index: Option<usize>)
    ensures
        match index {
            Some(i) => i == square_index(x as int, y as int) && i < 64,
            None => square_index(x as int, y as int) >= 64,
        },
{
    if y >= 8 || x >= 64 {
        None
    } else if 8 * y + x < 64 {
        Some(8 * y + x)
    } else {
        None
    }
}

/// The squares of a fresh board, bottom rank first, none highlighted.
pub fn new_board() -> (tiles: Vec<Tile>)
    ensures
        is_board_layout(tiles@),
        is_cleared(tiles@),
{
    let mut tiles: Vec<Tile> = Vec::new();
    for y in 0..8usize
        invariant
            tiles@.len() == 8 * y,
            forall|x: int, yy: int|
                0 <= x < 8 && 0 <= yy < y ==> #[trigger] tiles@[square_index(x, yy)].shade
                    == shade_at(x, yy),
            is_cleared(tiles@),
    {
        for x in 0..8usize
            invariant
                y < 8,
                tiles@.len() == 8 * y + x,
                forall|xx: int, yy: int|
                    0 <= xx < 8 && 0 <= yy < y ==> #[trigger] tiles@[square_index(xx, yy)].shade
                        == shade_at(xx, yy),
                forall|xx: int|
                    0 <= xx < x ==> #[trigger] tiles@[square_index(xx, y as int)].shade == shade_at(
                        xx,
                        y as int,
                    ),
                is_cleared(tiles@),
        {
            let shade = shade_of(x, y);
            tiles.push(Tile { shade, selected: false, move_marks: 0 });
        }
    }
    tiles
}

/// Removes every highlight, keeping the colours.
pub fn clear_highlights(tiles: &mut Vec<Tile>)
    ensures
        same_shades(final(tiles)@, old(tiles)@),
        is_cleared(final(tiles)@),
{
    let n = tiles.len();
    for i in 0..n
        invariant
            n == old(tiles)@.len(),
            same_shades(tiles@, old(tiles)@),
            forall|j: int| 0 <= j < i ==> !(#[trigger] tiles@[j]).selected && tiles@[j].move_marks == 0,
    {
        let shade = tiles[i].shade;
        tiles.set(i, Tile { shade, selected: false, move_marks: 0 });
    }
}

/// Highlights the picked square `sel` and marks every target of `moves`
/// on a board that has no highlight yet.
pub fn mark_pick(tiles: &mut Vec<Tile>, sel: usize, moves: &Vec<(u8, u8)>)
    requires
        old(tiles)@.len() == 64,
        is_cleared(old(tiles)@),
        sel < 64,
        targets_on_board(moves@),
    ensures
        same_shades(final(tiles)@, old(tiles)@),
        is_pick_highlight(final(tiles)@, sel as int, moves@),
{
    let shade = tiles[sel].shade;
    tiles.set(sel, Tile { shade, selected: true, move_marks: 0 });
    let n = moves.len();
    for j in 0..n
        invariant
            n == moves@.len(),
            tiles@.len() == 64,
            targets_on_board(moves@),
            same_shades(tiles@, old(tiles)@),
            forall|i: int| 0 <= i < 64 ==> (#[trigger] tiles@[i]).selected == (i == sel),
            forall|i: int|
                0 <= i < 64 ==> (#[trigger] tiles@[i]).move_marks == marks_on(moves@.take(j as int), i),
            forall|i: int| 0 <= i < 64 ==> (#[trigger] tiles@[i]).move_marks <= j,
    {
        let (a, b) = moves[j];
        assert(0 <= target_index(moves@[j as int]) < 64);
        let t = 8 * (b as usize) + (a as usize);
        let old_tile = tiles[t];
        tiles.set(t, Tile { move_marks: old_tile.move_marks + 1, ..old_tile });
        proof {
            let prefix = moves@.take(j + 1);
            assert(prefix.drop_last() =~= moves@.take(j as int));
            assert(prefix.last() == moves@[j as int]);
        }
    }
    assert(moves@.take(n as int) =~= moves@);
}

/// Keeping every colour keeps the checkerboard.
pub proof fn lemma_same_shades_keep_layout(tiles: Seq<Tile>, before: Seq<Tile>)
    requires
        is_board_layout(before),
        same_shades(tiles, before),
    ensures
        is_board_layout(tiles),
{
    assert forall|x: int, y: int| 0 <= x < 8 && 0 <= y < 8 implies #[trigger] tiles[square_index(x, y)].shade
        == shade_at(x, y) by {
        assert(before[square_index(x, y)].shade == shade_at(x, y));
    }
}

/// Clearing a board that was just cleared changes nothing.
pub proof fn lemma_clearing_idempotent(before: Seq<Tile>, once: Seq<Tile>, twice: Seq<Tile>)
    requires
        is_cleared(once),
        same_shades(once, before),
        is_cleared(twice),
        same_shades(twice, once),
    ensures
        twice == once,
{
    assert(twice =~= once);
}

/// Squares next to each other, in a row or in a column, differ in colour,
/// and squares diagonally next to each other share it.
pub proof fn lemma_checkerboard(x: int, y: int)
    ensures
        shade_at(x, y) != shade_at(x + 1, y),
        shade_at(x, y) != shade_at(x, y + 1),
        shade_at(x, y) == shade_at(x + 1, y + 1),
{
}

/// Distinct squares have distinct indices, and the 64 squares fill the
/// indices `0..64`.
pub proof fn lemma_square_index_bijective(x1: int, y1: int, x2: int, y2: int)
    requires
        0 <= x1 < 8,
        0 <= y1 < 8,
        0 <= x2 < 8,
        0 <= y2 < 8,
    ensures
        0 <= square_index(x1, y1) < 64,
        square_index(x1, y1) == square_index(x2, y2) ==> x1 == x2 && y1 == y2,
{
}

/// The marks of the first `n` squares of `moves`, added up.
pub open spec fn total_marks(moves: Seq<(u8, u8)>, n: int) -> nat
    decreases n,
{
    if n <= 0 {
        0
    } else {
        total_marks(moves, n - 1) + marks_on(moves, n - 1)
    }
}

/// The marks that the first `n` tiles carry, added up.
pub open spec fn tile_marks(tiles: Seq<Tile>, n: int) -> nat
    decreases n,
{
    if n <= 0 {
        0
    } else {
        tile_marks(tiles, n - 1) + tiles[n - 1].move_marks as nat
    }
}

proof fn lemma_total_marks_push(moves: Seq<(u8, u8)>, n: int)
    requires
        moves.len() > 0,
        n >= 0,
    ensures
        total_marks(moves, n) == total_marks(moves.drop_last(), n) + if 0 <= target_index(
            moves.last(),
        ) < n {
            1nat
        } else {
            0nat
        },
    decreases n,
{
    if n > 0 {
        lemma_total_marks_push(moves, n - 1);
    }
}

proof fn lemma_total_marks_count(moves: Seq<(u8, u8)>)
    requires
        targets_on_board(moves),
    ensures
        total_marks(moves, 64) == moves.len(),
    decreases moves.len(),
{
    if moves.len() == 0 {
        assert forall|n: int| n >= 0 implies total_marks(moves, n) == 0 by {
            lemma_total_marks_empty(moves, n);
        }
    } else {
        let rest = moves.drop_last();
        assert(targets_on_board(rest)) by {
            assert forall|j: int| 0 <= j < rest.len() implies 0 <= #[trigger] target_index(rest[j]) < 64 by {
                assert(rest[j] == moves[j]);
            }
        }
        assert(0 <= target_index(moves[moves.len() - 1]) < 64);
        lemma_total_marks_count(rest);
        lemma_total_marks_push(moves, 64);
    }
}

proof fn lemma_total_marks_empty(moves: Seq<(u8, u8)>, n: int)
    requires
        moves.len() == 0,
        n >= 0,
    ensures
        total_marks(moves, n) == 0,
    decreases n,
{
    if n > 0 {
        lemma_total_marks_empty(moves, n - 1);
    }
}

proof fn lemma_tile_marks_match(tiles: Seq<Tile>, sel: int, moves: Seq<(u8, u8)>, n: int)
    requires
        is_pick_highlight(tiles, sel, moves),
        0 <= n <= tiles.len(),
    ensures
        tile_marks(tiles, n) == total_marks(moves, n),
    decreases n,
{
    if n > 0 {
        lemma_tile_marks_match(tiles, sel, moves, n - 1);
        assert(tiles[n - 1].move_marks == marks_on(moves, n - 1));
    }
}

/// After a pick, every legal move of the picked piece is shown exactly once:
/// the marks on the board add up to the number of moves.
pub proof fn lemma_every_move_shown_once(tiles: Seq<Tile>, sel: int, moves: Seq<(u8, u8)>)
    requires
        tiles.len() == 64,
        targets_on_board(moves),
        is_pick_highlight(tiles, sel, moves),
    ensures
        tile_marks(tiles, 64) == moves.len(),
{
    lemma_tile_marks_match(tiles, sel, moves, 64);
    lemma_total_marks_count(moves);
}

} // verus!
