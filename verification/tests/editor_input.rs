use icy_draw::geometry::{Position, Rectangle};
use icy_draw::keys::{
    commits, key_event, route_key, tool_key_action, CaretMove, CommitKind, EditorKey, KeyAction, KeyEvent, KeyModifiers,
    KeyRouting,
};
use icy_draw::selection::{
    current_select_add_type, move_selection, selection_color, SelectionColor, resize_selection_bottom, resize_selection_left, resize_selection_right,
    resize_selection_top, selection_drag_at, selection_modifier, AddType, MoveOutcome, ReleaseOutcome, SelectPress,
    SelectionChange, SelectionDrag, SelectionDragState, SelectionFinish, SelectionModifier,
};
use icy_draw::tools::Tool;

const NONE: KeyModifiers = KeyModifiers { shift: false, control: false, alt: false };
const ALT: KeyModifiers = KeyModifiers { shift: false, control: false, alt: true };
const SHIFT_ALT: KeyModifiers = KeyModifiers { shift: true, control: false, alt: true };
const SHIFT: KeyModifiers = KeyModifiers { shift: true, control: false, alt: false };
const CTRL: KeyModifiers = KeyModifiers { shift: false, control: true, alt: false };

#[test]
fn alt_function_keys_select_fkey_sets() {
    assert_eq!(tool_key_action(Tool::Click, EditorKey::Function(1), ALT, false), KeyAction::SelectFKeySet(0));
    assert_eq!(tool_key_action(Tool::Click, EditorKey::Function(10), ALT, false), KeyAction::SelectFKeySet(9));
    assert_eq!(tool_key_action(Tool::Font, EditorKey::Function(3), SHIFT_ALT, false), KeyAction::SelectFKeySet(12));
    assert_eq!(tool_key_action(Tool::Click, EditorKey::Function(11), ALT, false), KeyAction::TypeFKey(10));
    assert_eq!(tool_key_action(Tool::Click, EditorKey::Function(5), NONE, false), KeyAction::TypeFKey(4));
    assert_eq!(tool_key_action(Tool::Click, EditorKey::Function(12), SHIFT, false), KeyAction::TypeFKey(11));
    assert_eq!(tool_key_action(Tool::Click, EditorKey::Function(13), NONE, false), KeyAction::Ignore);
    assert_eq!(tool_key_action(Tool::Click, EditorKey::Function(0), NONE, false), KeyAction::Ignore);
}

#[test]
fn text_tools_type_and_move() {
    assert_eq!(tool_key_action(Tool::Click, EditorKey::Character('a'), NONE, false), KeyAction::TypeChar('a'));
    assert_eq!(tool_key_action(Tool::Click, EditorKey::Character('a'), CTRL, false), KeyAction::Ignore);
    assert_eq!(tool_key_action(Tool::Click, EditorKey::Space, NONE, false), KeyAction::TypeChar(' '));
    assert_eq!(tool_key_action(Tool::Click, EditorKey::PageDown, NONE, false), KeyAction::MoveCaret(CaretMove::Down(24)));
    assert_eq!(tool_key_action(Tool::Click, EditorKey::Home, NONE, false), KeyAction::MoveCaret(CaretMove::LineStart));
    assert_eq!(tool_key_action(Tool::Click, EditorKey::Backspace, NONE, true), KeyAction::EraseSelection);
    assert_eq!(tool_key_action(Tool::Click, EditorKey::Backspace, NONE, false), KeyAction::Backspace);
    assert_eq!(tool_key_action(Tool::Click, EditorKey::Delete, NONE, false), KeyAction::DeleteChar);
    assert_eq!(tool_key_action(Tool::Click, EditorKey::Tab, SHIFT, false), KeyAction::ReverseTab);
    assert_eq!(tool_key_action(Tool::Click, EditorKey::Enter, NONE, false), KeyAction::NewLine);
    assert!(commits(KeyAction::NewLine));
    assert!(!commits(KeyAction::MoveCaret(CaretMove::Up(1))));
    assert!(commits(KeyAction::DeleteNothing));
}

#[test]
fn other_tools_and_routing() {
    assert_eq!(tool_key_action(Tool::Select, EditorKey::Delete, NONE, true), KeyAction::EraseSelection);
    assert_eq!(tool_key_action(Tool::Select, EditorKey::Delete, NONE, false), KeyAction::DeleteNothing);
    assert_eq!(tool_key_action(Tool::Select, EditorKey::Escape, NONE, false), KeyAction::ClearSelection);
    assert_eq!(tool_key_action(Tool::Select, EditorKey::Character('x'), NONE, false), KeyAction::Ignore);
    assert_eq!(tool_key_action(Tool::Brush, EditorKey::Delete, NONE, true), KeyAction::Ignore);
    assert_eq!(route_key(true, Tool::Brush, EditorKey::Escape, NONE), KeyRouting::CloseCharTable);
    assert_eq!(route_key(false, Tool::Brush, EditorKey::Character('b'), NONE), KeyRouting::ShortcutThenTool);
    assert_eq!(route_key(false, Tool::Click, EditorKey::Character('b'), NONE), KeyRouting::ToTool);
    assert_eq!(route_key(false, Tool::Brush, EditorKey::Character('b'), CTRL), KeyRouting::ToTool);
    assert_eq!(route_key(false, Tool::Brush, EditorKey::Escape, NONE), KeyRouting::ToTool);
}

fn rect() -> Rectangle {
    Rectangle::from(10, 5, 10, 6)
}

#[test]
fn grabbing_a_selection() {
    let r = Some(rect());
    assert_eq!(selection_drag_at(None, Position::new(12, 7)), SelectionDrag::NoDrag);
    assert_eq!(selection_drag_at(r, Position::new(9, 7)), SelectionDrag::NoDrag);
    assert_eq!(selection_drag_at(r, Position::new(20, 7)), SelectionDrag::NoDrag);
    assert_eq!(selection_drag_at(r, Position::new(10, 5)), SelectionDrag::TopLeft);
    assert_eq!(selection_drag_at(r, Position::new(19, 5)), SelectionDrag::TopRight);
    assert_eq!(selection_drag_at(r, Position::new(10, 10)), SelectionDrag::BottomLeft);
    assert_eq!(selection_drag_at(r, Position::new(19, 10)), SelectionDrag::BottomRight);
    assert_eq!(selection_drag_at(r, Position::new(11, 8)), SelectionDrag::Left);
    assert_eq!(selection_drag_at(r, Position::new(19, 8)), SelectionDrag::Right);
    assert_eq!(selection_drag_at(r, Position::new(14, 6)), SelectionDrag::Top);
    assert_eq!(selection_drag_at(r, Position::new(14, 10)), SelectionDrag::Bottom);
    assert_eq!(selection_drag_at(r, Position::new(14, 8)), SelectionDrag::Move);
    // two cells from the right or bottom edge is already inside
    assert_eq!(selection_drag_at(r, Position::new(18, 8)), SelectionDrag::Move);
    assert_eq!(selection_drag_at(r, Position::new(14, 9)), SelectionDrag::Move);
}

#[test]
fn moving_and_resizing() {
    let r = rect();
    let start = Position::new(12, 7);
    assert_eq!(move_selection(r, start, Position::new(15, 5)), Rectangle::from(13, 3, 10, 6));
    assert_eq!(resize_selection_left(r, start, Position::new(8, 7)), Rectangle::from(6, 5, 14, 6));
    // dragged past the right edge: the old right edge becomes the left one
    assert_eq!(resize_selection_left(r, start, Position::new(25, 7)), Rectangle::from(20, 5, 3, 6));
    assert_eq!(resize_selection_right(r, start, Position::new(14, 7)), Rectangle::from(10, 5, 12, 6));
    assert_eq!(resize_selection_right(r, start, Position::new(0, 7)), Rectangle::from(8, 5, 2, 6));
    assert_eq!(resize_selection_top(r, start, Position::new(12, 9)), Rectangle::from(10, 7, 10, 4));
    assert_eq!(resize_selection_top(r, start, Position::new(12, 20)), Rectangle::from(10, 11, 10, 7));
    assert_eq!(resize_selection_bottom(r, start, Position::new(12, 8)), Rectangle::from(10, 5, 10, 7));
    assert_eq!(resize_selection_bottom(r, start, Position::new(12, 0)), Rectangle::from(10, 4, 10, 1));
}

#[test]
fn drag_state_flow() {
    let mut s = SelectionDragState::new();
    assert!(!s.is_dragging);
    assert_eq!(s.move_to(Position::new(1, 1), Tool::Select), MoveOutcome::Ignored);

    // a new selection with the Select tool
    let press = s.press_select_tool(Position::new(2, 3), SelectionModifier::Replace, None);
    assert_eq!(press, SelectPress::ClearAllAndStartNew);
    assert_eq!(s.selection_drag, SelectionDrag::Create);
    assert_eq!(s.move_to(Position::new(6, 8), Tool::Select), MoveOutcome::UpdateSelection);
    assert_eq!(
        s.drag_selection(),
        SelectionChange::Span { anchor: Position::new(2, 3), lead: Position::new(6, 8) }
    );
    assert_eq!(
        s.release(Tool::Select, Some(AddType::Add)),
        ReleaseOutcome::SelectionDone(SelectionFinish::CommitToMask)
    );
    assert!(!s.is_dragging);
    assert_eq!(s.selection_drag, SelectionDrag::NoDrag);

    // a click without movement deselects
    s.press_select_tool(Position::new(2, 3), SelectionModifier::Replace, None);
    assert_eq!(s.release(Tool::Select, None), ReleaseOutcome::SelectionDone(SelectionFinish::Deselect));

    // grabbing the corner of a selection: the vertical resize stays
    let press = s.press_select_tool(Position::new(10, 5), SelectionModifier::Replace, Some(rect()));
    assert_eq!(press, SelectPress::ClearMaskAndGrab);
    assert_eq!(s.selection_drag, SelectionDrag::TopLeft);
    s.move_to(Position::new(8, 3), Tool::Select);
    assert_eq!(s.drag_selection(), SelectionChange::Area(Rectangle::from(10, 3, 10, 8)));
    assert_eq!(s.release(Tool::Select, None), ReleaseOutcome::SelectionDone(SelectionFinish::Keep));

    // adding always starts a new selection
    let press = s.press_select_tool(Position::new(12, 7), SelectionModifier::Add, Some(rect()));
    assert_eq!(press, SelectPress::CommitAndStartNew);
    assert_eq!(s.selection_drag, SelectionDrag::Create);
    s.release(Tool::Select, None);

    // text tool: a press outside the selection clears it
    assert!(s.press_text_tool(Position::new(0, 0), Some(rect())));
    assert_eq!(s.release(Tool::Click, None), ReleaseOutcome::SelectionDone(SelectionFinish::ClearSelection));
    assert!(!s.press_text_tool(Position::new(14, 8), Some(rect())));
    assert_eq!(s.selection_drag, SelectionDrag::Move);
    s.move_to(Position::new(16, 9), Tool::Click);
    assert_eq!(s.drag_selection(), SelectionChange::Area(Rectangle::from(12, 6, 10, 6)));
    s.release(Tool::Click, None);

    // painting
    s.press_paint_tool(Position::new(3, 3));
    assert_eq!(s.move_to(Position::new(4, 3), Tool::Brush), MoveOutcome::PaintLine);
    assert_eq!(s.release(Tool::Brush, None), ReleaseOutcome::StrokeDone);
    assert_eq!(s.release(Tool::RectangleFilled, None), ReleaseOutcome::ShapeDone);
    assert_eq!(s.release(Tool::Pipette, None), ReleaseOutcome::Nothing);
}

#[test]
fn selection_modifiers() {
    assert_eq!(selection_modifier(true, true), SelectionModifier::Add);
    assert_eq!(selection_modifier(false, true), SelectionModifier::Remove);
    assert_eq!(selection_modifier(false, false), SelectionModifier::Replace);
    assert_eq!(current_select_add_type(Tool::Select, true, true), AddType::Subtract);
    assert_eq!(current_select_add_type(Tool::Select, false, true), AddType::Add);
    assert_eq!(current_select_add_type(Tool::Select, false, false), AddType::Default);
    assert_eq!(current_select_add_type(Tool::Click, true, true), AddType::Default);
}

#[test]
fn key_events_report_edits() {
    let a = tool_key_action(Tool::Click, EditorKey::Backspace, NONE, true);
    assert_eq!(key_event(Tool::Click, EditorKey::Backspace, a), KeyEvent::Commit(CommitKind::Backspace));
    let a = tool_key_action(Tool::Select, EditorKey::Backspace, NONE, true);
    assert_eq!(key_event(Tool::Select, EditorKey::Backspace, a), KeyEvent::Commit(CommitKind::Delete));
    let a = tool_key_action(Tool::Select, EditorKey::Delete, NONE, false);
    assert_eq!(key_event(Tool::Select, EditorKey::Delete, a), KeyEvent::Commit(CommitKind::Delete));
    let a = tool_key_action(Tool::Click, EditorKey::Function(2), ALT, false);
    assert_eq!(key_event(Tool::Click, EditorKey::Function(2), a), KeyEvent::Redraw);
    let a = tool_key_action(Tool::Click, EditorKey::Function(2), NONE, false);
    assert_eq!(key_event(Tool::Click, EditorKey::Function(2), a), KeyEvent::Commit(CommitKind::TypeFKey));
    assert_eq!(key_event(Tool::Brush, EditorKey::Enter, KeyAction::Ignore), KeyEvent::Nothing);
    assert_eq!(CommitKind::NewLine.description(), "New line");
    assert_eq!(CommitKind::TypeCharacter.description(), "Type character");
}

#[test]
fn selection_colors() {
    assert_eq!(selection_color(Some(AddType::Add)), SelectionColor::Add);
    assert_eq!(selection_color(Some(AddType::Subtract)), SelectionColor::Subtract);
    assert_eq!(selection_color(Some(AddType::Default)), SelectionColor::Default);
    assert_eq!(selection_color(None), SelectionColor::Default);
}
