use vstd::prelude::*;

use crate::geometry::{fits_i32, Position, Rectangle};
use crate::tools::{is_paint_tool, is_shape_commit_tool, spec_is_paint_tool, spec_is_shape_commit_tool, Tool};

verus! {

/// Which part of a selection a drag grabbed.
#[derive(Debug, Clone, Copy, PartialEq, Eq, Structural)]
pub enum SelectionDrag {
    /// No drag in progress
    NoDrag,
    /// Create a new selection
    Create,
    /// Move the existing selection
    Move,
    /// Resize from an edge or a corner
    Left,
    Right,
    Top,
    Bottom,
    TopLeft,
    TopRight,
    BottomLeft,
    BottomRight,
}

impl Default for SelectionDrag {
    fn default() -> (r: SelectionDrag)
        ensures
            r == SelectionDrag::NoDrag,
    {
        SelectionDrag::NoDrag
    }
}

/// How a new selection combines with the selection mask.
#[derive(Debug, Clone, Copy, PartialEq, Eq, Structural)]
pub enum AddType {
    Default,
    Add,
    Subtract,
}

/// The selection drag grabbed when the mouse goes down on `pos`: nothing
/// outside the selection; a corner or an edge within two cells of it (corners
/// first); the whole selection inside.
pub open spec fn spec_selection_drag_at(selection: Option<Rectangle>, pos: Position) -> SelectionDrag {
    match selection {
        None => SelectionDrag::NoDrag,
        Some(rect) => {
            if !rect.spec_contains(pos) {
                SelectionDrag::NoDrag
            } else {
                let left = pos.x - rect.x < 2;
                let top = pos.y - rect.y < 2;
                let right = rect.spec_right() - pos.x < 2;
                let bottom = rect.spec_bottom() - pos.y < 2;
                if left && top {
                    SelectionDrag::TopLeft
                } else if right && top {
                    SelectionDrag::TopRight
                } else if left && bottom {
                    SelectionDrag::BottomLeft
                } else if right && bottom {
                    SelectionDrag::BottomRight
                } else if left {
                    SelectionDrag::Left
                } else if right {
                    SelectionDrag::Right
                } else if top {
                    SelectionDrag::Top
                } else if bottom {
                    SelectionDrag::Bottom
                } else {
                    SelectionDrag::Move
                }
            }
        },
    }
}

/// What kind of selection drag would start at `pos`.
pub fn selection_drag_at(selection: Option<Rectangle>, pos: Position) -> (r: SelectionDrag)
    ensures
        r == spec_selection_drag_at(selection, pos),
{
    match selection {
        None => SelectionDrag::NoDrag,
        Some(rect) => {
            if !rect.contains_pt(pos) {
                return SelectionDrag::NoDrag;
            }
            let px = pos.x as i64;
            let py = pos.y as i64;
            let left = px - (rect.x as i64) < 2;
            let top = py - (rect.y as i64) < 2;
            let right = (rect.x as i64 + rect.width as i64) - px < 2;
            let bottom = (rect.y as i64 + rect.height as i64) - py < 2;
            if left && top {
                SelectionDrag::TopLeft
            } else if right && top {
                SelectionDrag::TopRight
            } else if left && bottom {
                SelectionDrag::BottomLeft
            } else if right && bottom {
                SelectionDrag::BottomRight
            } else if left {
                SelectionDrag::Left
            } else if right {
                SelectionDrag::Right
            } else if top {
                SelectionDrag::Top
            } else if bottom {
                SelectionDrag::Bottom
            } else {
                SelectionDrag::Move
            }
        },
    }
}

// ---------------------------------------------------------------------------
// Moving and resizing a selection by a drag from `start` to `cur`
// ---------------------------------------------------------------------------

/// The selection moved by the drag vector.
pub open spec fn spec_moved(r: Rectangle, start: Position, cur: Position) -> (int, int, int, int) {
    (r.x + (cur.x - start.x), r.y + (cur.y - start.y), r.width as int, r.height as int)
}

/// The selection with its left edge dragged; the right edge stays where it
/// was, and a left edge dragged past it becomes the new right edge.
pub open spec fn spec_resized_left(r: Rectangle, start: Position, cur: Position) -> (int, int, int, int) {
    let delta = start.x - cur.x;
    let new_left = r.x - delta;
    let new_width = r.width + delta;
    if new_width < 0 {
        (r.spec_right(), r.y as int, new_left - r.spec_right(), r.height as int)
    } else {
        (new_left, r.y as int, new_width, r.height as int)
    }
}

/// The selection with its right edge dragged; the left edge stays where it
/// was, and a right edge dragged past it becomes the new left edge.
pub open spec fn spec_resized_right(r: Rectangle, start: Position, cur: Position) -> (int, int, int, int) {
    let new_width = r.width - start.x + cur.x;
    if new_width < 0 {
        (r.x + new_width, r.y as int, -new_width, r.height as int)
    } else {
        (r.x as int, r.y as int, new_width, r.height as int)
    }
}

/// The selection with its top edge dragged; the bottom edge stays put.
pub open spec fn spec_resized_top(r: Rectangle, start: Position, cur: Position) -> (int, int, int, int) {
    let delta = start.y - cur.y;
    let new_top = r.y - delta;
    let new_height = r.height + delta;
    if new_height < 0 {
        (r.x as int, r.spec_bottom(), r.width as int, new_top - r.spec_bottom())
    } else {
        (r.x as int, new_top, r.width as int, new_height)
    }
}

/// The selection with its bottom edge dragged; the top edge stays put.
pub open spec fn spec_resized_bottom(r: Rectangle, start: Position, cur: Position) -> (int, int, int, int) {
    let new_height = r.height - start.y + cur.y;
    if new_height < 0 {
        (r.x as int, r.y + new_height, r.width as int, -new_height)
    } else {
        (r.x as int, r.y as int, r.width as int, new_height)
    }
}

/// Whether all four parts of a rectangle given as integers fit in `i32`.
pub open spec fn rect_fits(t: (int, int, int, int)) -> bool {
    fits_i32(t.0) && fits_i32(t.1) && fits_i32(t.2) && fits_i32(t.3)
}

/// The rectangle with the given integer parts.
pub open spec fn rect_of(t: (int, int, int, int)) -> Rectangle {
    Rectangle { x: t.0 as i32, y: t.1 as i32, width: t.2 as i32, height: t.3 as i32 }
}

/// The `i32` arithmetic of moving the selection stays in range.
pub open spec fn move_in_range(r: Rectangle, start: Position, cur: Position) -> bool {
    &&& fits_i32(cur.x - start.x)
    &&& fits_i32(cur.y - start.y)
    &&& rect_fits(spec_moved(r, start, cur))
}

/// The `i32` arithmetic of dragging the left edge stays in range.
pub open spec fn resize_left_in_range(r: Rectangle, start: Position, cur: Position) -> bool {
    &&& fits_i32(start.x - cur.x)
    &&& fits_i32(r.x - (start.x - cur.x))
    &&& fits_i32(r.width + (start.x - cur.x))
    &&& (r.width + (start.x - cur.x) < 0 ==> fits_i32(r.spec_right()) && rect_fits(
        spec_resized_left(r, start, cur),
    ))
}

/// The `i32` arithmetic of dragging the right edge stays in range.
pub open spec fn resize_right_in_range(r: Rectangle, start: Position, cur: Position) -> bool {
    &&& fits_i32(r.width - start.x)
    &&& fits_i32(r.width - start.x + cur.x)
    &&& rect_fits(spec_resized_right(r, start, cur))
}

/// The `i32` arithmetic of dragging the top edge stays in range.
pub open spec fn resize_top_in_range(r: Rectangle, start: Position, cur: Position) -> bool {
    &&& fits_i32(start.y - cur.y)
    &&& fits_i32(r.y - (start.y - cur.y))
    &&& fits_i32(r.height + (start.y - cur.y))
    &&& (r.height + (start.y - cur.y) < 0 ==> fits_i32(r.spec_bottom()) && rect_fits(
        spec_resized_top(r, start, cur),
    ))
}

/// The `i32` arithmetic of dragging the bottom edge stays in range.
pub open spec fn resize_bottom_in_range(r: Rectangle, start: Position, cur: Position) -> bool {
    &&& fits_i32(r.height - start.y)
    &&& fits_i32(r.height - start.y + cur.y)
    &&& rect_fits(spec_resized_bottom(r, start, cur))
}

/// Move the selection `r` by the drag from `start` to `cur`.
pub fn move_selection(r: Rectangle, start: Position, cur: Position) -> (res: Rectangle)
    requires
        move_in_range(r, start, cur),
    ensures
        res == rect_of(spec_moved(r, start, cur)),
{
    let delta_x = cur.x - start.x;
    let delta_y = cur.y - start.y;
    Rectangle::from(r.x + delta_x, r.y + delta_y, r.width, r.height)
}

/// Drag the left edge of the selection `r` from `start` to `cur`.
pub fn resize_selection_left(r: Rectangle, start: Position, cur: Position) -> (res: Rectangle)
    requires
        resize_left_in_range(r, start, cur),
    ensures
        res == rect_of(spec_resized_left(r, start, cur)),
{
    let delta = start.x - cur.x;
    let mut new_left = r.x - delta;
    let mut new_width = r.width + delta;
    if new_width < 0 {
        let right = r.x + r.width;
        new_width = new_left - right;
        new_left = right;
    }
    Rectangle::from(new_left, r.y, new_width, r.height)
}

/// Drag the right edge of the selection `r` from `start` to `cur`.
pub fn resize_selection_right(r: Rectangle, start: Position, cur: Position) -> (res: Rectangle)
    requires
        resize_right_in_range(r, start, cur),
    ensures
        res == rect_of(spec_resized_right(r, start, cur)),
{
    let mut new_width = r.width - start.x + cur.x;
    let mut new_left = r.x;
    if new_width < 0 {
        new_left = r.x + new_width;
        new_width = r.x - new_left;
    }
    Rectangle::from(new_left, r.y, new_width, r.height)
}

/// Drag the top edge of the selection `r` from `start` to `cur`.
pub fn resize_selection_top(r: Rectangle, start: Position, cur: Position) -> (res: Rectangle)
    requires
        resize_top_in_range(r, start, cur),
    ensures
        res == rect_of(spec_resized_top(r, start, cur)),
{
    let delta = start.y - cur.y;
    let mut new_top = r.y - delta;
    let mut new_height = r.height + delta;
    if new_height < 0 {
        let bottom = r.y + r.height;
        new_height = new_top - bottom;
        new_top = bottom;
    }
    Rectangle::from(r.x, new_top, r.width, new_height)
}

/// Drag the bottom edge of the selection `r` from `start` to `cur`.
pub fn resize_selection_bottom(r: Rectangle, start: Position, cur: Position) -> (res: Rectangle)
    requires
        resize_bottom_in_range(r, start, cur),
    ensures
        res == rect_of(spec_resized_bottom(r, start, cur)),
{
    let mut new_height = r.height - start.y + cur.y;
    let mut new_top = r.y;
    if new_height < 0 {
        new_top = r.y + new_height;
        new_height = r.y - new_top;
    }
    Rectangle::from(r.x, new_top, r.width, new_height)
}


// ---------------------------------------------------------------------------
// What a resize keeps
// ---------------------------------------------------------------------------

/// The smaller of two integers.
pub open spec fn min_int(a: int, b: int) -> int {
    if a <= b {
        a
    } else {
        b
    }
}

/// The larger of two integers.
pub open spec fn max_int(a: int, b: int) -> int {
    if a <= b {
        b
    } else {
        a
    }
}

/// Dragging the left edge: the selection spans from the dragged edge to the
/// right edge it had (whichever lies left), its size is never negative, and
/// its rows are kept.
pub proof fn lemma_resize_left_spans(r: Rectangle, start: Position, cur: Position)
    ensures
        ({
            let t = spec_resized_left(r, start, cur);
            let dragged = r.x - (start.x - cur.x);
            &&& t.0 == min_int(dragged, r.spec_right())
            &&& t.0 + t.2 == max_int(dragged, r.spec_right())
            &&& t.2 >= 0
            &&& t.1 == r.y && t.3 == r.height
        }),
{
}

/// Dragging the right edge: the selection spans from the left edge it had
/// to the dragged edge (whichever lies left), with a size never negative.
pub proof fn lemma_resize_right_spans(r: Rectangle, start: Position, cur: Position)
    ensures
        ({
            let t = spec_resized_right(r, start, cur);
            let dragged = r.spec_right() + (cur.x - start.x);
            &&& t.0 == min_int(r.x as int, dragged)
            &&& t.0 + t.2 == max_int(r.x as int, dragged)
            &&& t.2 >= 0
            &&& t.1 == r.y && t.3 == r.height
        }),
{
}

/// Dragging the top edge: the selection spans from the dragged edge to the
/// bottom edge it had, with a height never negative; its columns are kept.
pub proof fn lemma_resize_top_spans(r: Rectangle, start: Position, cur: Position)
    ensures
        ({
            let t = spec_resized_top(r, start, cur);
            let dragged = r.y - (start.y - cur.y);
            &&& t.1 == min_int(dragged, r.spec_bottom())
            &&& t.1 + t.3 == max_int(dragged, r.spec_bottom())
            &&& t.3 >= 0
            &&& t.0 == r.x && t.2 == r.width
        }),
{
}

/// Dragging the bottom edge: the selection spans from the top edge it had
/// to the dragged edge, with a height never negative.
pub proof fn lemma_resize_bottom_spans(r: Rectangle, start: Position, cur: Position)
    ensures
        ({
            let t = spec_resized_bottom(r, start, cur);
            let dragged = r.spec_bottom() + (cur.y - start.y);
            &&& t.1 == min_int(r.y as int, dragged)
            &&& t.1 + t.3 == max_int(r.y as int, dragged)
            &&& t.3 >= 0
            &&& t.0 == r.x && t.2 == r.width
        }),
{
}

/// Moving keeps the selection's size and shifts it by the drag.
pub proof fn lemma_move_keeps_size(r: Rectangle, start: Position, cur: Position)
    ensures
        ({
            let t = spec_moved(r, start, cur);
            &&& t.2 == r.width && t.3 == r.height
            &&& t.0 - r.x == cur.x - start.x
            &&& t.1 - r.y == cur.y - start.y
        }),
{
}

// ---------------------------------------------------------------------------
// Drag tracking
// ---------------------------------------------------------------------------

/// Drag positions for mouse operations, in buffer coordinates.
#[derive(Debug, Clone, Copy, PartialEq, Eq, Structural)]
pub struct DragPos {
    /// Start position
    pub start: Position,
    /// Current position
    pub cur: Position,
    /// Start position, absolute (including scroll offset)
    pub start_abs: Position,
    /// Current position, absolute (including scroll offset)
    pub cur_abs: Position,
}

impl DragPos {
    /// All four positions at `pos`.
    pub fn at(pos: Position) -> (r: DragPos)
        ensures
            r.start == pos && r.cur == pos && r.start_abs == pos && r.cur_abs == pos,
    {
        DragPos { start: pos, cur: pos, start_abs: pos, cur_abs: pos }
    }
}

impl Default for DragPos {
    fn default() -> (r: DragPos)
        ensures
            r == DragPos::spec_at(Position { x: 0, y: 0 }),
    {
        DragPos::at(Position { x: 0, y: 0 })
    }
}

impl DragPos {
    pub open spec fn spec_at(pos: Position) -> DragPos {
        DragPos { start: pos, cur: pos, start_abs: pos, cur_abs: pos }
    }
}

/// How a click with the Select tool combines with what is selected.
#[derive(Debug, Clone, Copy, PartialEq, Eq, Structural)]
pub enum SelectionModifier {
    Replace,
    Add,
    Remove,
}

/// The selection modifier for a mouse press: Shift adds, otherwise Ctrl or
/// Command removes, otherwise the selection is replaced.
pub fn selection_modifier(shift: bool, ctrl_or_command: bool) -> (r: SelectionModifier)
    ensures
        shift ==> r == SelectionModifier::Add,
        !shift && ctrl_or_command ==> r == SelectionModifier::Remove,
        !shift && !ctrl_or_command ==> r == SelectionModifier::Replace,
{
    if shift {
        SelectionModifier::Add
    } else if ctrl_or_command {
        SelectionModifier::Remove
    } else {
        SelectionModifier::Replace
    }
}

/// The color family the active selection is drawn in.
#[derive(Debug, Clone, Copy, PartialEq, Eq, Structural)]
pub enum SelectionColor {
    Default,
    Add,
    Subtract,
}

/// The color of the active selection, by its add type (no selection: the
/// default color).
pub fn selection_color(add_type: Option<AddType>) -> (r: SelectionColor)
    ensures
        r == match add_type {
            Some(AddType::Add) => SelectionColor::Add,
            Some(AddType::Subtract) => SelectionColor::Subtract,
            _ => SelectionColor::Default,
        },
{
    match add_type {
        Some(AddType::Add) => SelectionColor::Add,
        Some(AddType::Subtract) => SelectionColor::Subtract,
        _ => SelectionColor::Default,
    }
}

/// The add type of the selection being drawn: only the Select tool draws
/// anything but plain selections; with it Ctrl or Command subtracts, otherwise
/// Shift adds.
pub open spec fn spec_select_add_type(tool: Tool, ctrl_or_command: bool, shift: bool) -> AddType {
    if tool != Tool::Select {
        AddType::Default
    } else if ctrl_or_command {
        AddType::Subtract
    } else if shift {
        AddType::Add
    } else {
        AddType::Default
    }
}

/// The add type of the selection being drawn with `tool`.
pub fn current_select_add_type(tool: Tool, ctrl_or_command: bool, shift: bool) -> (r: AddType)
    ensures
        r == spec_select_add_type(tool, ctrl_or_command, shift),
{
    if tool != Tool::Select {
        return AddType::Default;
    }
    if ctrl_or_command {
        AddType::Subtract
    } else if shift {
        AddType::Add
    } else {
        AddType::Default
    }
}

/// What a drag does to the active selection.
#[derive(Debug, Clone, Copy, PartialEq, Eq, Structural)]
pub enum SelectionChange {
    /// The selection stays as it is
    Unchanged,
    /// The selection becomes the rectangle spanned by two corner cells
    Span { anchor: Position, lead: Position },
    /// The selection becomes this rectangle
    Area(Rectangle),
}

/// What the selection looks like after a mouse press with the Select tool.
#[derive(Debug, Clone, Copy, PartialEq, Eq, Structural)]
pub enum SelectPress {
    /// The active selection goes into the mask and is deselected; a new one starts
    CommitAndStartNew,
    /// The mask is cleared; the active selection is grabbed for moving or resizing
    ClearMaskAndGrab,
    /// The mask and the selection are cleared; a new selection starts
    ClearAllAndStartNew,
}

/// What happens to the selection when a selection drag ends.
#[derive(Debug, Clone, Copy, PartialEq, Eq, Structural)]
pub enum SelectionFinish {
    /// A click without movement with the Select tool: deselect, keep the mask
    Deselect,
    /// A click without movement with another tool: clear the selection
    ClearSelection,
    /// An Add or Subtract selection goes into the mask and is deselected
    CommitToMask,
    /// The selection stays active
    Keep,
}

/// What a mouse release ends.
#[derive(Debug, Clone, Copy, PartialEq, Eq, Structural)]
pub enum ReleaseOutcome {
    /// A selection drag ended
    SelectionDone(SelectionFinish),
    /// A paint stroke ended and is committed as one undo step
    StrokeDone,
    /// A shape tool commits what it drew
    ShapeDone,
    /// Nothing to do
    Nothing,
}

/// What a mouse move does.
#[derive(Debug, Clone, Copy, PartialEq, Eq, Structural)]
pub enum MoveOutcome {
    /// No drag is going on
    Ignored,
    /// The selection follows the drag
    UpdateSelection,
    /// Paint along the line from the last painted cell
    PaintLine,
    /// The shape preview is redrawn
    Redraw,
}

/// The selection drag state of the editor.
#[derive(Debug, Clone, Copy, PartialEq, Eq, Structural)]
pub struct SelectionDragState {
    /// Current drag positions
    pub drag_pos: DragPos,
    /// Whether the mouse is dragging
    pub is_dragging: bool,
    /// Which part of the selection is dragged
    pub selection_drag: SelectionDrag,
    /// The selection when the drag started (for moving and resizing)
    pub start_selection: Option<Rectangle>,
}

/// The selection the drag state leads to.
pub open spec fn spec_drag_selection(s: SelectionDragState) -> SelectionChange {
    let start = s.drag_pos.start_abs;
    let cur = s.drag_pos.cur_abs;
    match s.selection_drag {
        SelectionDrag::NoDrag => SelectionChange::Unchanged,
        SelectionDrag::Create => SelectionChange::Span { anchor: start, lead: cur },
        _ => match s.start_selection {
            None => SelectionChange::Unchanged,
            Some(r) => SelectionChange::Area(
                rect_of(
                    match s.selection_drag {
                        SelectionDrag::Move => spec_moved(r, start, cur),
                        SelectionDrag::Left => spec_resized_left(r, start, cur),
                        SelectionDrag::Right => spec_resized_right(r, start, cur),
                        SelectionDrag::Top | SelectionDrag::TopLeft | SelectionDrag::TopRight => spec_resized_top(r, start, cur),
                        _ => spec_resized_bottom(r, start, cur),
                    },
                ),
            ),
        },
    }
}

/// The `i32` arithmetic of the current drag stays in range.
pub open spec fn drag_in_range(s: SelectionDragState) -> bool {
    let start = s.drag_pos.start_abs;
    let cur = s.drag_pos.cur_abs;
    match s.start_selection {
        None => true,
        Some(r) => match s.selection_drag {
            SelectionDrag::Move => move_in_range(r, start, cur),
            SelectionDrag::Left => resize_left_in_range(r, start, cur),
            SelectionDrag::Right => resize_right_in_range(r, start, cur),
            SelectionDrag::Top => resize_top_in_range(r, start, cur),
            SelectionDrag::Bottom => resize_bottom_in_range(r, start, cur),
            SelectionDrag::TopLeft => resize_left_in_range(r, start, cur) && resize_top_in_range(r, start, cur),
            SelectionDrag::TopRight => resize_right_in_range(r, start, cur) && resize_top_in_range(r, start, cur),
            SelectionDrag::BottomLeft => resize_left_in_range(r, start, cur) && resize_bottom_in_range(r, start, cur),
            SelectionDrag::BottomRight => resize_right_in_range(r, start, cur) && resize_bottom_in_range(r, start, cur),
            _ => true,
        },
    }
}

impl SelectionDragState {
    /// The state started by a drag at `pos`.
    pub open spec fn spec_begun(pos: Position, drag: SelectionDrag, start_selection: Option<Rectangle>) -> SelectionDragState {
        SelectionDragState { drag_pos: DragPos::spec_at(pos), is_dragging: true, selection_drag: drag, start_selection }
    }

    /// No drag in progress.
    pub fn new() -> (r: SelectionDragState)
        ensures
            r.drag_pos == DragPos::spec_at(Position { x: 0, y: 0 }),
            !r.is_dragging,
            r.selection_drag == SelectionDrag::NoDrag,
            r.start_selection.is_none(),
    {
        SelectionDragState {
            drag_pos: DragPos::at(Position { x: 0, y: 0 }),
            is_dragging: false,
            selection_drag: SelectionDrag::NoDrag,
            start_selection: None,
        }
    }

    fn begin(&mut self, pos: Position, drag: SelectionDrag, start_selection: Option<Rectangle>)
        ensures
            *final(self) == Self::spec_begun(pos, drag, start_selection),
    {
        self.selection_drag = drag;
        self.is_dragging = true;
        self.drag_pos = DragPos::at(pos);
        self.start_selection = start_selection;
    }

    /// Mouse press with a text tool (Click or Font) on `pos`, `selection`
    /// being the active selection. A press on the selection grabs it; any
    /// other press clears the selection, moves the caret there (the result
    /// is true) and starts a new selection.
    pub fn press_text_tool(&mut self, pos: Position, selection: Option<Rectangle>) -> (cleared: bool)
        ensures
            cleared == (spec_selection_drag_at(selection, pos) == SelectionDrag::NoDrag),
            !cleared ==> *final(self) == Self::spec_begun(pos, spec_selection_drag_at(selection, pos), selection),
            cleared ==> *final(self) == Self::spec_begun(pos, SelectionDrag::Create, None),
    {
        let drag = selection_drag_at(selection, pos);
        if drag != SelectionDrag::NoDrag {
            self.begin(pos, drag, selection);
            false
        } else {
            self.begin(pos, SelectionDrag::Create, None);
            true
        }
    }

    /// Mouse press with the Select tool in its normal (rectangle) mode.
    /// Adding or removing always starts a new rectangle; replacing grabs the
    /// active selection when the press is on it and starts a new one
    /// otherwise.
    pub fn press_select_tool(&mut self, pos: Position, modifier: SelectionModifier, selection: Option<Rectangle>) -> (r: SelectPress)
        ensures
            modifier != SelectionModifier::Replace ==> r == SelectPress::CommitAndStartNew && *final(self)
                == Self::spec_begun(pos, SelectionDrag::Create, None),
            modifier == SelectionModifier::Replace && spec_selection_drag_at(selection, pos) != SelectionDrag::NoDrag
                ==> r == SelectPress::ClearMaskAndGrab && *final(self) == Self::spec_begun(
                pos,
                spec_selection_drag_at(selection, pos),
                selection,
            ),
            modifier == SelectionModifier::Replace && spec_selection_drag_at(selection, pos) == SelectionDrag::NoDrag
                ==> r == SelectPress::ClearAllAndStartNew && *final(self) == Self::spec_begun(
                pos,
                SelectionDrag::Create,
                None,
            ),
    {
        if modifier != SelectionModifier::Replace {
            self.begin(pos, SelectionDrag::Create, None);
            SelectPress::CommitAndStartNew
        } else {
            let drag = selection_drag_at(selection, pos);
            if drag != SelectionDrag::NoDrag {
                self.begin(pos, drag, selection);
                SelectPress::ClearMaskAndGrab
            } else {
                self.begin(pos, SelectionDrag::Create, None);
                SelectPress::ClearAllAndStartNew
            }
        }
    }

    /// Mouse press with a paint tool: a stroke starts at `pos`; the absolute
    /// positions and the start selection are left as they were.
    pub fn press_paint_tool(&mut self, pos: Position)
        ensures
            final(self).selection_drag == SelectionDrag::NoDrag,
            final(self).is_dragging,
            final(self).drag_pos.start == pos,
            final(self).drag_pos.cur == pos,
            final(self).drag_pos.start_abs == old(self).drag_pos.start_abs,
            final(self).drag_pos.cur_abs == old(self).drag_pos.cur_abs,
            final(self).start_selection == old(self).start_selection,
    {
        self.selection_drag = SelectionDrag::NoDrag;
        self.is_dragging = true;
        self.drag_pos.start = pos;
        self.drag_pos.cur = pos;
    }

    /// Mouse move to `pos` with `tool` active.
    pub fn move_to(&mut self, pos: Position, tool: Tool) -> (r: MoveOutcome)
        ensures
            !old(self).is_dragging ==> r == MoveOutcome::Ignored && *final(self) == *old(self),
            old(self).is_dragging ==> {
                &&& final(self).drag_pos == (DragPos { cur: pos, cur_abs: pos, ..old(self).drag_pos })
                &&& final(self).is_dragging
                &&& final(self).selection_drag == old(self).selection_drag
                &&& final(self).start_selection == old(self).start_selection
                &&& r == if tool == Tool::Click || tool == Tool::Font || tool == Tool::Select {
                    MoveOutcome::UpdateSelection
                } else if spec_is_paint_tool(tool) {
                    MoveOutcome::PaintLine
                } else if tool == Tool::Line || tool == Tool::RectangleOutline || tool == Tool::RectangleFilled
                    || tool == Tool::EllipseOutline || tool == Tool::EllipseFilled {
                    MoveOutcome::Redraw
                } else {
                    MoveOutcome::Ignored
                }
            },
    {
        if !self.is_dragging {
            return MoveOutcome::Ignored;
        }
        self.drag_pos.cur = pos;
        self.drag_pos.cur_abs = pos;
        match tool {
            Tool::Click | Tool::Font | Tool::Select => MoveOutcome::UpdateSelection,
            Tool::Pencil | Tool::Brush | Tool::Erase => MoveOutcome::PaintLine,
            Tool::Line | Tool::RectangleOutline | Tool::RectangleFilled | Tool::EllipseOutline | Tool::EllipseFilled => {
                MoveOutcome::Redraw
            },
            _ => MoveOutcome::Ignored,
        }
    }

    /// The selection the current drag leads to. Dragging a corner resizes
    /// from the start selection twice, horizontally and then vertically, and
    /// the vertical resize, made last, is what stays.
    pub fn drag_selection(&self) -> (r: SelectionChange)
        requires
            drag_in_range(*self),
        ensures
            r == spec_drag_selection(*self),
            self.selection_drag != SelectionDrag::NoDrag && self.selection_drag != SelectionDrag::Create
                && self.start_selection is Some ==> r is Area,
            self.selection_drag == SelectionDrag::Left && self.start_selection is Some ==> r == SelectionChange::Area(
                rect_of(spec_resized_left(self.start_selection->0, self.drag_pos.start_abs, self.drag_pos.cur_abs)),
            ),
    {
        let start = self.drag_pos.start_abs;
        let cur = self.drag_pos.cur_abs;
        match self.selection_drag {
            SelectionDrag::NoDrag => SelectionChange::Unchanged,
            SelectionDrag::Create => SelectionChange::Span { anchor: start, lead: cur },
            _ => match self.start_selection {
                None => SelectionChange::Unchanged,
                Some(r) => {
                    let rect = match self.selection_drag {
                        SelectionDrag::Move => move_selection(r, start, cur),
                        SelectionDrag::Left => resize_selection_left(r, start, cur),
                        SelectionDrag::Right => resize_selection_right(r, start, cur),
                        SelectionDrag::Top => resize_selection_top(r, start, cur),
                        SelectionDrag::Bottom => resize_selection_bottom(r, start, cur),
                        SelectionDrag::TopLeft => {
                            let _ = resize_selection_left(r, start, cur);
                            resize_selection_top(r, start, cur)
                        },
                        SelectionDrag::TopRight => {
                            let _ = resize_selection_right(r, start, cur);
                            resize_selection_top(r, start, cur)
                        },
                        SelectionDrag::BottomLeft => {
                            let _ = resize_selection_left(r, start, cur);
                            resize_selection_bottom(r, start, cur)
                        },
                        _ => {
                            let _ = resize_selection_right(r, start, cur);
                            resize_selection_bottom(r, start, cur)
                        },
                    };
                    SelectionChange::Area(rect)
                },
            },
        }
    }

    /// Mouse release with `tool` active; `add_type` is the add type of the
    /// active selection, if there is one.
    pub fn release(&mut self, tool: Tool, add_type: Option<AddType>) -> (r: ReleaseOutcome)
        ensures
            old(self).is_dragging && old(self).selection_drag != SelectionDrag::NoDrag ==> {
                &&& *final(self) == (SelectionDragState {
                    is_dragging: false,
                    selection_drag: SelectionDrag::NoDrag,
                    start_selection: None,
                    ..*old(self)
                })
                &&& r == ReleaseOutcome::SelectionDone(
                    if old(self).selection_drag != SelectionDrag::Create {
                        SelectionFinish::Keep
                    } else if old(self).drag_pos.start == old(self).drag_pos.cur {
                        if tool == Tool::Select {
                            SelectionFinish::Deselect
                        } else {
                            SelectionFinish::ClearSelection
                        }
                    } else if tool == Tool::Select && (add_type == Some(AddType::Add) || add_type == Some(
                        AddType::Subtract,
                    )) {
                        SelectionFinish::CommitToMask
                    } else {
                        SelectionFinish::Keep
                    },
                )
            },
            old(self).is_dragging && old(self).selection_drag == SelectionDrag::NoDrag && spec_is_paint_tool(tool)
                ==> r == ReleaseOutcome::StrokeDone && *final(self) == (SelectionDragState {
                is_dragging: false,
                ..*old(self)
            }),
            !(old(self).is_dragging && old(self).selection_drag != SelectionDrag::NoDrag) && !(old(self).is_dragging
                && spec_is_paint_tool(tool)) ==> *final(self) == *old(self) && r == if spec_is_shape_commit_tool(
                tool,
            ) {
                ReleaseOutcome::ShapeDone
            } else {
                ReleaseOutcome::Nothing
            },
    {
        if self.is_dragging && self.selection_drag != SelectionDrag::NoDrag {
            self.is_dragging = false;
            let finish = if self.selection_drag == SelectionDrag::Create {
                if self.drag_pos.start == self.drag_pos.cur {
                    if tool == Tool::Select {
                        SelectionFinish::Deselect
                    } else {
                        SelectionFinish::ClearSelection
                    }
                } else if tool == Tool::Select {
                    match add_type {
                        Some(AddType::Add) | Some(AddType::Subtract) => SelectionFinish::CommitToMask,
                        _ => SelectionFinish::Keep,
                    }
                } else {
                    SelectionFinish::Keep
                }
            } else {
                SelectionFinish::Keep
            };
            self.selection_drag = SelectionDrag::NoDrag;
            self.start_selection = None;
            return ReleaseOutcome::SelectionDone(finish);
        }
        if self.is_dragging && is_paint_tool(tool) {
            self.is_dragging = false;
            return ReleaseOutcome::StrokeDone;
        }
        if is_shape_commit_tool(tool) {
            ReleaseOutcome::ShapeDone
        } else {
            ReleaseOutcome::Nothing
        }
    }
}


/// A drag that grabbed an edge, a corner or the inside of a selection always
/// yields a rectangle that follows the mouse: moving shifts the selection by
/// the drag and keeps its size; dragging the left or right edge spans from
/// the edge opposite it to where that edge was dragged, keeping the rows;
/// dragging the top or bottom edge (also by a corner, whose vertical resize
/// is what stays) spans from the opposite edge to the dragged one, keeping
/// the columns.
pub proof fn lemma_drag_follows_mouse(s: SelectionDragState)
    requires
        drag_in_range(s),
        s.start_selection is Some,
        s.selection_drag != SelectionDrag::NoDrag,
        s.selection_drag != SelectionDrag::Create,
    ensures
        spec_drag_selection(s) matches SelectionChange::Area(a) && {
            let r = s.start_selection->0;
            let start = s.drag_pos.start_abs;
            let cur = s.drag_pos.cur_abs;
            match s.selection_drag {
                SelectionDrag::Move => {
                    &&& a.width == r.width && a.height == r.height
                    &&& a.x - r.x == cur.x - start.x
                    &&& a.y - r.y == cur.y - start.y
                },
                SelectionDrag::Left => {
                    &&& a.x == min_int(r.x - (start.x - cur.x), r.spec_right())
                    &&& a.x + a.width == max_int(r.x - (start.x - cur.x), r.spec_right())
                    &&& a.y == r.y && a.height == r.height
                },
                SelectionDrag::Right => {
                    &&& a.x == min_int(r.x as int, r.spec_right() + (cur.x - start.x))
                    &&& a.x + a.width == max_int(r.x as int, r.spec_right() + (cur.x - start.x))
                    &&& a.y == r.y && a.height == r.height
                },
                SelectionDrag::Top | SelectionDrag::TopLeft | SelectionDrag::TopRight => {
                    &&& a.y == min_int(r.y - (start.y - cur.y), r.spec_bottom())
                    &&& a.y + a.height == max_int(r.y - (start.y - cur.y), r.spec_bottom())
                    &&& a.x == r.x && a.width == r.width
                },
                _ => {
                    &&& a.y == min_int(r.y as int, r.spec_bottom() + (cur.y - start.y))
                    &&& a.y + a.height == max_int(r.y as int, r.spec_bottom() + (cur.y - start.y))
                    &&& a.x == r.x && a.width == r.width
                },
            }
        },
{
    let r = s.start_selection->0;
    let start = s.drag_pos.start_abs;
    let cur = s.drag_pos.cur_abs;
    lemma_resize_left_spans(r, start, cur);
    lemma_resize_right_spans(r, start, cur);
    lemma_resize_top_spans(r, start, cur);
    lemma_resize_bottom_spans(r, start, cur);
    lemma_move_keeps_size(r, start, cur);
}
} // verus!
