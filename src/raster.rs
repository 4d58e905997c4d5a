//! The drawing of one tile, as a list of primitive draw commands.
//!
//! A tile is painted from its index and the surface width alone: grid lines
//! across the tile and, in every cell, the number of the cell's row. A
//! drawing backend replays the commands onto a canvas and snapshots the
//! result into the tile's image.

use crate::geometry::{CELL_HEIGHT, CELL_WIDTH, NUM_COLS, ROWS_PER_TILE, TILE_HEIGHT};
use vstd::prelude::*;

verus! {

/// Horizontal distance from a cell's left edge to its label.
pub const TEXT_INSET_X: i32 = 20;

/// Vertical distance from a cell's top edge to its label's baseline.
pub const TEXT_INSET_Y: i32 = 40;

/// One primitive paint operation, in tile coordinates.
#[derive(Clone, Debug, PartialEq, Eq)]
pub enum DrawCommand {
    /// A straight separator line from `(x0, y0)` to `(x1, y1)`.
    Line { x0: i32, y0: i32, x1: i32, y1: i32 },
    /// A text label whose origin is `(x, y)`.
    Text { text: String, x: i32, y: i32 },
}

/// Mathematical model of a [`DrawCommand`].
pub ghost enum DrawOp {
    Line { x0: int, y0: int, x1: int, y1: int },
    Text { text: Seq<char>, x: int, y: int },
}

impl View for DrawCommand {
    type V = DrawOp;

    open spec fn view(&self) -> DrawOp {
        match self {
            DrawCommand::Line { x0, y0, x1, y1 } => DrawOp::Line {
                x0: *x0 as int,
                y0: *y0 as int,
                x1: *x1 as int,
                y1: *y1 as int,
            },
            DrawCommand::Text { text, x, y } => DrawOp::Text { text: text@, x: *x as int, y: *y as int },
        }
    }
}

/// The models of a sequence of draw commands.
pub open spec fn ops_of(cmds: Seq<DrawCommand>) -> Seq<DrawOp> {
    cmds.map_values(|c: DrawCommand| c@)
}

/// The character of a decimal digit.
pub open spec fn digit_char(d: int) -> char {
    if d == 0 {
        '0'
    } else if d == 1 {
        '1'
    } else if d == 2 {
        '2'
    } else if d == 3 {
        '3'
    } else if d == 4 {
        '4'
    } else if d == 5 {
        '5'
    } else if d == 6 {
        '6'
    } else if d == 7 {
        '7'
    } else if d == 8 {
        '8'
    } else {
        '9'
    }
}

/// The decimal digits of a natural number, most significant first, without
/// leading zeros.
pub open spec fn decimal_digits(n: nat) -> Seq<char>
    decreases n,
{
    if n < 10 {
        seq![digit_char(n as int)]
    } else {
        decimal_digits((n / 10) as nat).push(digit_char((n % 10) as int))
    }
}

/// The decimal text of an integer, with a leading `-` when it is negative.
pub open spec fn decimal_text(n: int) -> Seq<char> {
    if n < 0 {
        seq!['-'] + decimal_digits((-n) as nat)
    } else {
        decimal_digits(n as nat)
    }
}

/// Relies on `ToString` for `i64`, which goes through its `Display`: the
/// decimal digits of the value, with a leading `-` when it is negative.
#[verifier::external_body]
fn decimal_label(n: i64) -> (r: String)
    ensures
        r@ == decimal_text(n as int),
{
    n.to_string()
}

/// The `k`-th horizontal separator: the top edge of the tile's `k`-th row.
pub open spec fn horizontal_line_op(k: int, width: int) -> DrawOp {
    DrawOp::Line { x0: 0, y0: (CELL_HEIGHT as int) * k, x1: width, y1: (CELL_HEIGHT as int) * k }
}

/// The `c`-th vertical separator: the left edge of column `c`.
pub open spec fn vertical_line_op(c: int) -> DrawOp {
    DrawOp::Line { x0: (CELL_WIDTH as int) * c, y0: 0, x1: (CELL_WIDTH as int) * c, y1: TILE_HEIGHT as int }
}

/// The label of the `k`-th cell of tile `index`, cells counted row by row:
/// the number of the cell's grid row, at the cell's top-left corner moved by
/// the text inset.
pub open spec fn label_op(index: int, k: int) -> DrawOp {
    let row = k / (NUM_COLS as int);
    let col = k % (NUM_COLS as int);
    DrawOp::Text {
        text: decimal_text(index * (ROWS_PER_TILE as int) + row),
        x: (CELL_WIDTH as int) * col + TEXT_INSET_X,
        y: (CELL_HEIGHT as int) * row + TEXT_INSET_Y,
    }
}

/// The drawing of tile `index` at surface width `width`: one horizontal
/// separator per row boundary (both outer edges included), then one vertical
/// separator per column boundary, then the label of every cell, row by row.
pub open spec fn tile_ops(index: int, width: int) -> Seq<DrawOp> {
    Seq::new((ROWS_PER_TILE + 1) as nat, |k: int| horizontal_line_op(k, width))
        + Seq::new((NUM_COLS + 1) as nat, |c: int| vertical_line_op(c))
        + Seq::new((ROWS_PER_TILE * NUM_COLS) as nat, |k: int| label_op(index, k))
}

/// Paints tile `tile_offset` for a surface `tile_width` pixels wide.
pub fn paint_tile(tile_offset: i32, tile_width: i32) -> (cmds: Vec<DrawCommand>)
    ensures
        ops_of(cmds@) == tile_ops(tile_offset as int, tile_width as int),
{
    let ghost ops = tile_ops(tile_offset as int, tile_width as int);
    let n_rows = ROWS_PER_TILE as usize;
    let n_cols = NUM_COLS as usize;
    let mut cmds: Vec<DrawCommand> = Vec::new();
    let mut k: usize = 0;
    while k <= n_rows
        invariant
            n_rows == 10,
            n_cols == 7,
            ops == tile_ops(tile_offset as int, tile_width as int),
            k <= n_rows + 1,
            cmds@.len() == k,
            forall|j: int| 0 <= j < k ==> #[trigger] cmds@[j]@ == ops[j],
        decreases n_rows + 1 - k,
    {
        let y = CELL_HEIGHT * (k as i32);
        cmds.push(DrawCommand::Line { x0: 0, y0: y, x1: tile_width, y1: y });
        k = k + 1;
    }
    let mut c: usize = 0;
    while c <= n_cols
        invariant
            n_rows == 10,
            n_cols == 7,
            ops == tile_ops(tile_offset as int, tile_width as int),
            c <= n_cols + 1,
            cmds@.len() == n_rows + 1 + c,
            forall|j: int| 0 <= j < n_rows + 1 + c ==> #[trigger] cmds@[j]@ == ops[j],
        decreases n_cols + 1 - c,
    {
        let x = CELL_WIDTH * (c as i32);
        cmds.push(DrawCommand::Line { x0: x, y0: 0, x1: x, y1: TILE_HEIGHT });
        c = c + 1;
    }
    let base: usize = n_rows + n_cols + 2;
    let mut k: usize = 0;
    while k < n_rows * n_cols
        invariant
            n_rows == 10,
            n_cols == 7,
            base == 19,
            ops == tile_ops(tile_offset as int, tile_width as int),
            k <= n_rows * n_cols,
            cmds@.len() == base + k,
            forall|j: int| 0 <= j < base + k ==> #[trigger] cmds@[j]@ == ops[j],
        decreases n_rows * n_cols - k,
    {
        let row = k / n_cols;
        let col = k % n_cols;
        let text = decimal_label(tile_offset as i64 * (ROWS_PER_TILE as i64) + row as i64);
        let x = CELL_WIDTH * (col as i32) + TEXT_INSET_X;
        let y = CELL_HEIGHT * (row as i32) + TEXT_INSET_Y;
        cmds.push(DrawCommand::Text { text, x, y });
        k = k + 1;
    }
    assert(ops_of(cmds@) =~= ops);
    cmds
}

} // verus!

verus! {

/// Painting a tile is deterministic: two drawings of the same tile at the
/// same width are the same list of commands.
pub proof fn lemma_paint_tile_deterministic(
    tile_offset: i32,
    tile_width: i32,
    first: Seq<DrawCommand>,
    second: Seq<DrawCommand>,
)
    requires
        ops_of(first) == tile_ops(tile_offset as int, tile_width as int),
        ops_of(second) == tile_ops(tile_offset as int, tile_width as int),
    ensures
        ops_of(first) == ops_of(second),
{
}

} // verus!
