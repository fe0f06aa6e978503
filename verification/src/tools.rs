use vstd::prelude::*;

verus! {

/// The editing tools.
#[derive(Debug, Clone, Copy, PartialEq, Eq, Structural)]
pub enum Tool {
    Click,
    Select,
    Pencil,
    Line,
    Brush,
    Erase,
    RectangleOutline,
    RectangleFilled,
    EllipseOutline,
    EllipseFilled,
    Fill,
    Pipette,
    Shifter,
    Font,
    Tag,
}

/// The tools in the order of their icons in the icon atlas.
pub open spec fn spec_tool_icon_order() -> Seq<Tool> {
    seq![
        Tool::Click,
        Tool::Select,
        Tool::Pencil,
        Tool::Line,
        Tool::Brush,
        Tool::Erase,
        Tool::RectangleOutline,
        Tool::RectangleFilled,
        Tool::EllipseOutline,
        Tool::EllipseFilled,
        Tool::Fill,
        Tool::Pipette,
        Tool::Shifter,
        Tool::Font,
        Tool::Tag,
    ]
}

/// The tools in the order of their icons in the icon atlas.
pub fn tool_icon_order() -> (r: Vec<Tool>)
    ensures
        r@ == spec_tool_icon_order(),
{
    vec![
        Tool::Click,
        Tool::Select,
        Tool::Pencil,
        Tool::Line,
        Tool::Brush,
        Tool::Erase,
        Tool::RectangleOutline,
        Tool::RectangleFilled,
        Tool::EllipseOutline,
        Tool::EllipseFilled,
        Tool::Fill,
        Tool::Pipette,
        Tool::Shifter,
        Tool::Font,
        Tool::Tag,
    ]
}

/// The index of a tool's icon in the icon atlas.
pub fn tool_to_index(tool: Tool) -> (r: usize)
    ensures
        r < spec_tool_icon_order().len(),
        spec_tool_icon_order()[r as int] == tool,
        forall|j: int| 0 <= j < r ==> spec_tool_icon_order()[j] != tool,
{
    let order = tool_icon_order();
    let mut i: usize = 0;
    while i < order.len()
        invariant
            order@ == spec_tool_icon_order(),
            0 <= i <= order.len(),
            forall|j: int| 0 <= j < i ==> order@[j] != tool,
        decreases order.len() - i,
    {
        if order[i] == tool {
            return i;
        }
        i = i + 1;
    }
    // every tool has an icon, so the search always succeeds
    assert(order@[tool_index_witness(tool)] == tool);
    0
}

/// Where a tool stands in the icon order (every tool stands there once).
pub open spec fn tool_index_witness(tool: Tool) -> int {
    match tool {
        Tool::Click => 0,
        Tool::Select => 1,
        Tool::Pencil => 2,
        Tool::Line => 3,
        Tool::Brush => 4,
        Tool::Erase => 5,
        Tool::RectangleOutline => 6,
        Tool::RectangleFilled => 7,
        Tool::EllipseOutline => 8,
        Tool::EllipseFilled => 9,
        Tool::Fill => 10,
        Tool::Pipette => 11,
        Tool::Shifter => 12,
        Tool::Font => 13,
        Tool::Tag => 14,
    }
}

/// Tools that type text at the caret (the caret is shown only for them).
pub open spec fn spec_is_text_tool(tool: Tool) -> bool {
    tool == Tool::Click || tool == Tool::Font
}

/// Tools that paint cell by cell while the mouse is dragged.
pub open spec fn spec_is_paint_tool(tool: Tool) -> bool {
    tool == Tool::Pencil || tool == Tool::Brush || tool == Tool::Erase
}

/// Tools whose mouse release commits a drawn shape.
pub open spec fn spec_is_shape_commit_tool(tool: Tool) -> bool {
    ||| tool == Tool::Pencil
    ||| tool == Tool::Brush
    ||| tool == Tool::Line
    ||| tool == Tool::RectangleOutline
    ||| tool == Tool::RectangleFilled
    ||| tool == Tool::EllipseOutline
    ||| tool == Tool::EllipseFilled
}

/// Whether the caret is visible while `tool` is active.
pub fn caret_visible_for(tool: Tool) -> (r: bool)
    ensures
        r == spec_is_text_tool(tool),
{
    match tool {
        Tool::Click | Tool::Font => true,
        _ => false,
    }
}

/// Whether `tool` paints cell by cell while the mouse is dragged.
pub fn is_paint_tool(tool: Tool) -> (r: bool)
    ensures
        r == spec_is_paint_tool(tool),
{
    match tool {
        Tool::Pencil | Tool::Brush | Tool::Erase => true,
        _ => false,
    }
}

/// Whether releasing the mouse with `tool` commits a drawn shape.
pub fn is_shape_commit_tool(tool: Tool) -> (r: bool)
    ensures
        r == spec_is_shape_commit_tool(tool),
{
    match tool {
        Tool::Pencil | Tool::Brush | Tool::Line | Tool::RectangleOutline | Tool::RectangleFilled
        | Tool::EllipseOutline | Tool::EllipseFilled => true,
        _ => false,
    }
}

/// Size of a tool icon in logical pixels.
pub const TOOL_ICON_SIZE: i64 = 42;
/// Padding between tool icons.
pub const TOOL_ICON_PADDING: i64 = 3;
/// Maximum number of tool buttons.
pub const MAX_TOOL_BUTTONS: usize = 9;

/// Columns of the tool grid that fit into a panel `width_floor` pixels wide
/// (the width rounded down): as many icons with their padding as fit, at
/// least one and at most the number of buttons there can be.
pub open spec fn spec_tool_grid_cols(width_floor: int) -> int {
    let fit = if width_floor - TOOL_ICON_PADDING < 0 {
        0
    } else {
        (width_floor - TOOL_ICON_PADDING) / (TOOL_ICON_SIZE + TOOL_ICON_PADDING)
    };
    if fit < 1 {
        1
    } else if fit > MAX_TOOL_BUTTONS {
        MAX_TOOL_BUTTONS as int
    } else {
        fit
    }
}

/// The tool grid's columns and rows for `num_buttons` buttons in a panel
/// `width_floor` pixels wide: rows are the buttons divided by the columns,
/// rounded up.
pub fn tool_grid_dimensions(width_floor: i64, num_buttons: usize) -> (r: (usize, usize))
    requires
        num_buttons + MAX_TOOL_BUTTONS <= usize::MAX,
    ensures
        r.0 == spec_tool_grid_cols(width_floor as int),
        1 <= r.0 <= MAX_TOOL_BUTTONS,
        r.1 == (num_buttons + r.0 - 1) / (r.0 as int),
        r.1 * r.0 >= num_buttons,
{
    let fit: i64 = if width_floor < TOOL_ICON_PADDING {
        0
    } else {
        (width_floor - TOOL_ICON_PADDING) / (TOOL_ICON_SIZE + TOOL_ICON_PADDING)
    };
    let cols: usize = if fit < 1 {
        1
    } else if fit > MAX_TOOL_BUTTONS as i64 {
        MAX_TOOL_BUTTONS
    } else {
        fit as usize
    };
    let rows = (num_buttons + cols - 1) / cols;
    proof {
        let n = num_buttons as int;
        let c = cols as int;
        vstd::arithmetic::div_mod::lemma_fundamental_div_mod(n + c - 1, c);
        assert(rows * c >= n) by (nonlinear_arith)
            requires
                rows == (n + c - 1) / c,
                (n + c - 1) == c * ((n + c - 1) / c) + (n + c - 1) % c,
                0 <= (n + c - 1) % c < c,
                c >= 1,
        ;
    }
    (cols, rows)
}

// ---------------------------------------------------------------------------
// The simple tool panel
// ---------------------------------------------------------------------------

/// Size of each icon of the simple tool panel.
pub const PANEL_ICON_SIZE: i64 = 24;
/// Padding between the panel's icons.
pub const PANEL_ICON_PADDING: i64 = 2;
/// Columns of the panel.
pub const PANEL_COLS: usize = 3;
/// Rows of the panel.
pub const PANEL_ROWS: usize = 3;

/// The column (or row) of the panel under a pointer coordinate: the offset
/// past the first padding in whole icon steps; the first padding itself
/// counts to the first icon.
pub open spec fn spec_panel_cell(v: int) -> int {
    if v < PANEL_ICON_PADDING {
        0
    } else {
        (v - PANEL_ICON_PADDING) / (PANEL_ICON_SIZE + PANEL_ICON_PADDING)
    }
}

/// The panel slot under the pointer at widget-local pixel `(x, y)` (rounded
/// down), if there is one among `slot_count` slots.
pub fn tool_panel_slot_at(x: i64, y: i64, slot_count: usize) -> (r: Option<usize>)
    ensures
        ({
            let col = spec_panel_cell(x as int);
            let row = spec_panel_cell(y as int);
            if col < PANEL_COLS && row < PANEL_ROWS && row * PANEL_COLS + col < slot_count {
                r == Some((row * PANEL_COLS + col) as usize)
            } else {
                r is None
            }
        }),
{
    let col: i64 = if x < PANEL_ICON_PADDING {
        0
    } else {
        (x - PANEL_ICON_PADDING) / (PANEL_ICON_SIZE + PANEL_ICON_PADDING)
    };
    let row: i64 = if y < PANEL_ICON_PADDING {
        0
    } else {
        (y - PANEL_ICON_PADDING) / (PANEL_ICON_SIZE + PANEL_ICON_PADDING)
    };
    if col < PANEL_COLS as i64 && row < PANEL_ROWS as i64 {
        let slot = (row as usize) * PANEL_COLS + (col as usize);
        if slot < slot_count {
            return Some(slot);
        }
    }
    None
}

/// Tool panel state: the selected tool.
#[derive(Debug, Clone, Copy, PartialEq, Eq, Structural)]
pub struct ToolPanel {
    pub current_tool: Tool,
}

impl ToolPanel {
    /// The panel starts with the Click tool.
    pub fn new() -> (r: ToolPanel)
        ensures
            r.current_tool == Tool::Click,
    {
        ToolPanel { current_tool: Tool::Click }
    }

    /// The selected tool.
    pub fn current_tool(&self) -> (r: Tool)
        ensures
            r == self.current_tool,
    {
        self.current_tool
    }

    /// Select a tool.
    pub fn set_tool(&mut self, tool: Tool)
        ensures
            final(self).current_tool == tool,
    {
        self.current_tool = tool;
    }
}

} // verus!
