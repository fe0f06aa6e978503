use vstd::prelude::*;

use crate::geometry::{fits_i32, Position};
use crate::tools::Tool;

verus! {

/// The primary brush mode chosen in the toolbar.
#[derive(Debug, Clone, Copy, PartialEq, Eq, Structural)]
pub enum BrushPrimaryMode {
    Char,
    HalfBlock,
    Shading,
    Replace,
    Blink,
    Colorize,
}

/// What one stamp of the brush does to a cell.
#[derive(Debug, Clone, Copy, PartialEq, Eq, Structural)]
pub enum BrushMode {
    /// Put this character
    Char(char),
    /// Paint a half block
    HalfBlock,
    /// Shade one step up
    Shade,
    /// Shade one step down
    ShadeDown,
    /// Replace the character by this one
    Replace(char),
    /// Set (true) or clear (false) blinking
    Blink(bool),
    /// Recolor only
    Colorize,
}

/// Which colors a stamp applies.
#[derive(Debug, Clone, Copy, PartialEq, Eq, Structural)]
pub enum ColorMode {
    Both,
    Foreground,
    Background,
    Neither,
}

/// The brush mode of a stamp; a right-button stroke (`swap`) shades down and
/// clears blinking.
pub open spec fn spec_brush_mode(primary: BrushPrimaryMode, paint_char: char, swap: bool) -> BrushMode {
    match primary {
        BrushPrimaryMode::Char => BrushMode::Char(paint_char),
        BrushPrimaryMode::HalfBlock => BrushMode::HalfBlock,
        BrushPrimaryMode::Shading => if swap {
            BrushMode::ShadeDown
        } else {
            BrushMode::Shade
        },
        BrushPrimaryMode::Replace => BrushMode::Replace(paint_char),
        BrushPrimaryMode::Blink => BrushMode::Blink(!swap),
        BrushPrimaryMode::Colorize => BrushMode::Colorize,
    }
}

/// The brush mode of a stamp.
pub fn brush_mode(primary: BrushPrimaryMode, paint_char: char, swap: bool) -> (r: BrushMode)
    ensures
        r == spec_brush_mode(primary, paint_char, swap),
        primary == BrushPrimaryMode::Blink ==> r == BrushMode::Blink(!swap),
        primary == BrushPrimaryMode::Shading ==> (r == BrushMode::ShadeDown) == swap,
{
    match primary {
        BrushPrimaryMode::Char => BrushMode::Char(paint_char),
        BrushPrimaryMode::HalfBlock => BrushMode::HalfBlock,
        BrushPrimaryMode::Shading => {
            if swap {
                BrushMode::ShadeDown
            } else {
                BrushMode::Shade
            }
        },
        BrushPrimaryMode::Replace => BrushMode::Replace(paint_char),
        BrushPrimaryMode::Blink => BrushMode::Blink(!swap),
        BrushPrimaryMode::Colorize => BrushMode::Colorize,
    }
}

/// The colors a stamp applies: only Colorize restricts them, to the chosen
/// channels.
pub fn color_mode(primary: BrushPrimaryMode, colorize_fg: bool, colorize_bg: bool) -> (r: ColorMode)
    ensures
        primary != BrushPrimaryMode::Colorize ==> r == ColorMode::Both,
        primary == BrushPrimaryMode::Colorize ==> r == if colorize_fg && colorize_bg {
            ColorMode::Both
        } else if colorize_fg {
            ColorMode::Foreground
        } else if colorize_bg {
            ColorMode::Background
        } else {
            ColorMode::Neither
        },
{
    if primary == BrushPrimaryMode::Colorize {
        if colorize_fg && colorize_bg {
            ColorMode::Both
        } else if colorize_fg {
            ColorMode::Foreground
        } else if colorize_bg {
            ColorMode::Background
        } else {
            ColorMode::Neither
        }
    } else {
        ColorMode::Both
    }
}

/// The (foreground, background) a stamp paints with: a right-button stroke
/// swaps the caret's colors, except when shading.
pub fn stamp_colors(fg: u32, bg: u32, swap: bool, primary: BrushPrimaryMode) -> (r: (u32, u32))
    ensures
        r == if swap && primary != BrushPrimaryMode::Shading {
            (bg, fg)
        } else {
            (fg, bg)
        },
{
    if swap && primary != BrushPrimaryMode::Shading {
        (bg, fg)
    } else {
        (fg, bg)
    }
}

/// The side length of a stamp: one cell for the pencil, otherwise the brush
/// size, at least one.
pub open spec fn spec_stamp_size(tool: Tool, brush_size: u32) -> int {
    if tool == Tool::Pencil {
        1
    } else if brush_size < 1 {
        1
    } else {
        brush_size as int
    }
}

/// The `k`-th cell of a stamp of side `size` centered on `center`, row by row.
pub open spec fn stamp_cell(center: Position, size: int, k: int) -> (int, int) {
    (center.x + k % size - size / 2, center.y + k / size - size / 2)
}

/// Whether a cell lies on a layer of the given size.
pub open spec fn on_layer(c: (int, int), layer_w: int, layer_h: int) -> bool {
    0 <= c.0 < layer_w && 0 <= c.1 < layer_h
}

/// The cells of a stamp, row by row, that lie on the layer, as integers.
pub open spec fn spec_stamp_cells(center: Position, size: int, layer_w: int, layer_h: int) -> Seq<(int, int)> {
    Seq::new((size * size) as nat, |k: int| stamp_cell(center, size, k)).filter(
        |c: (int, int)| on_layer(c, layer_w, layer_h),
    )
}

/// A cell position as a pair of integers.
pub open spec fn pos_ints(p: Position) -> (int, int) {
    (p.x as int, p.y as int)
}

/// The layer cells a paint stamp at `doc_pos` covers: a square of cells
/// around the stamp position (taken relative to the layer `offset`), row by
/// row, keeping those that lie on the layer.
pub fn paint_stamp_cells(
    doc_pos: Position,
    offset: Position,
    layer_w: i32,
    layer_h: i32,
    tool: Tool,
    brush_size: u32,
) -> (cells: Vec<Position>)
    requires
        brush_size <= i32::MAX,
        fits_i32(doc_pos.x - offset.x),
        fits_i32(doc_pos.y - offset.y),
        fits_i32(doc_pos.x - offset.x - spec_stamp_size(tool, brush_size) / 2),
        fits_i32(doc_pos.y - offset.y - spec_stamp_size(tool, brush_size) / 2),
        fits_i32(doc_pos.x - offset.x + spec_stamp_size(tool, brush_size)),
        fits_i32(doc_pos.y - offset.y + spec_stamp_size(tool, brush_size)),
    ensures
        cells@.map_values(|p: Position| pos_ints(p)) == spec_stamp_cells(
            Position { x: (doc_pos.x - offset.x) as i32, y: (doc_pos.y - offset.y) as i32 },
            spec_stamp_size(tool, brush_size),
            layer_w as int,
            layer_h as int,
        ),
{
    let size: i32 = if tool == Tool::Pencil {
        1
    } else if brush_size < 1 {
        1
    } else {
        brush_size as i32
    };
    let center = Position::new(doc_pos.x - offset.x, doc_pos.y - offset.y);
    let half = size / 2;
    let ghost sz = size as int;
    let ghost all = Seq::new((sz * sz) as nat, |k: int| stamp_cell(center, sz, k));
    let ghost pred = |c: (int, int)| on_layer(c, layer_w as int, layer_h as int);
    let mut cells: Vec<Position> = Vec::new();
    let mut dy: i32 = 0;
    assert(all.take(0) =~= Seq::<(int, int)>::empty());
    assert(Seq::<(int, int)>::empty().filter(pred) =~= Seq::<(int, int)>::empty()) by {
        reveal(Seq::filter);
    }
    while dy < size
        invariant
            size == sz,
            sz >= 1,
            half == sz / 2,
            0 <= dy <= size,
            center.x == doc_pos.x - offset.x,
            center.y == doc_pos.y - offset.y,
            fits_i32(center.x - sz / 2),
            fits_i32(center.y - sz / 2),
            fits_i32(center.x + sz),
            fits_i32(center.y + sz),
            all == Seq::new((sz * sz) as nat, |k: int| stamp_cell(center, sz, k)),
            pred == (|c: (int, int)| on_layer(c, layer_w as int, layer_h as int)),
            cells@.map_values(|p: Position| pos_ints(p)) == all.take(dy * sz).filter(pred),
        decreases size - dy,
    {
        let mut dx: i32 = 0;
        while dx < size
            invariant
                size == sz,
                sz >= 1,
                half == sz / 2,
                0 <= dy < size,
                0 <= dx <= size,
                fits_i32(center.x - sz / 2),
                fits_i32(center.y - sz / 2),
                fits_i32(center.x + sz),
                fits_i32(center.y + sz),
                all == Seq::new((sz * sz) as nat, |k: int| stamp_cell(center, sz, k)),
                pred == (|c: (int, int)| on_layer(c, layer_w as int, layer_h as int)),
                cells@.map_values(|p: Position| pos_ints(p)) == all.take(dy * sz + dx).filter(pred),
            decreases size - dx,
        {
            let ghost k = dy * sz + dx;
            proof {
                assert(0 <= k < sz * sz) by (nonlinear_arith)
                    requires
                        k == dy * sz + dx,
                        0 <= dy < sz,
                        0 <= dx < sz,
                ;
                vstd::arithmetic::div_mod::lemma_fundamental_div_mod_converse(k, sz, dy as int, dx as int);
                assert(all.take(k + 1) =~= all.take(k).push(all[k]));
                all.take(k).lemma_filter_push(all[k], pred);
            }
            let x = center.x + dx - half;
            let y = center.y + dy - half;
            let p = Position::new(x, y);
            assert(pos_ints(p) == all[k]);
            if x >= 0 && y >= 0 && x < layer_w && y < layer_h {
                let ghost before = cells@;
                cells.push(p);
                assert(cells@.map_values(|p: Position| pos_ints(p)) =~= before.map_values(
                    |p: Position| pos_ints(p),
                ).push(pos_ints(p)));
            }
            dx = dx + 1;
        }
        assert(dy * sz + sz == (dy + 1) * sz) by (nonlinear_arith);
        dy = dy + 1;
    }
    assert(all.take(sz * sz) =~= all);
    cells
}


/// In Blink mode a stroke with the primary button sets blinking and one with
/// the other button clears it; in Shading mode the other button shades down.
/// The two buttons never stamp alike in these modes.
pub proof fn lemma_swapped_stroke_undoes(paint_char: char, swap: bool)
    ensures
        spec_brush_mode(BrushPrimaryMode::Blink, paint_char, swap) == BrushMode::Blink(!swap),
        spec_brush_mode(BrushPrimaryMode::Blink, paint_char, false) != spec_brush_mode(
            BrushPrimaryMode::Blink,
            paint_char,
            true,
        ),
        spec_brush_mode(BrushPrimaryMode::Shading, paint_char, swap) == if swap {
            BrushMode::ShadeDown
        } else {
            BrushMode::Shade
        },
{
}

} // verus!
