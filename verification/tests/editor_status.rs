use icy_draw::editor::{editor_title, status_font};
use icy_draw::format_mode::FormatMode;

#[test]
fn titles() {
    assert_eq!(editor_title(Some("art.ans"), false), "art.ans");
    assert_eq!(editor_title(Some("art.ans"), true), "art.ans •");
    assert_eq!(editor_title(None, false), "Untitled");
    assert_eq!(editor_title(None, true), "Untitled •");
}

#[test]
fn status_fonts() {
    let fonts = vec![(0usize, "IBM VGA".to_string()), (1usize, "Topaz".to_string())];
    let s = status_font(FormatMode::XBinExtended, 5, &fonts);
    assert_eq!(s.font_name, "IBM VGA");
    assert_eq!(s.current_font_slot, 1);
    assert_eq!(s.slot_fonts, Some((Some("IBM VGA".to_string()), Some("Topaz".to_string()))));
    let s = status_font(FormatMode::XBinExtended, 0, &vec![(1usize, "Topaz".to_string())]);
    assert_eq!(s.font_name, "Topaz");
    assert_eq!(s.current_font_slot, 0);
    let s = status_font(FormatMode::XBinExtended, 0, &vec![]);
    assert_eq!(s.font_name, "Unknown");
    let s = status_font(FormatMode::Unrestricted, 1, &fonts);
    assert_eq!(s.font_name, "Topaz");
    assert_eq!(s.current_font_slot, 1);
    assert!(s.slot_fonts.is_none());
    let s = status_font(FormatMode::Unrestricted, 7, &fonts);
    assert_eq!(s.font_name, "IBM VGA");
    assert_eq!(s.current_font_slot, 7);
    let s = status_font(FormatMode::LegacyDos, 3, &vec![]);
    assert_eq!(s.font_name, "Unknown");
}

use icy_draw::editor::{EditorAction, EditorMessage, EditorState};
use icy_draw::markers::MarkerState;
use icy_draw::panels::LayerCommand;

fn editor(layers: usize) -> EditorState {
    EditorState {
        markers: MarkerState::new(),
        is_modified: false,
        show_brush_char_table: false,
        char_selector_slot: None,
        current_fkey_set: 0,
        fkey_set_count: 10,
        layer_count: layers,
    }
}

#[test]
fn marker_messages() {
    let mut e = editor(1);
    assert_eq!(e.update(EditorMessage::SetGuide(80, 25)), EditorAction::UpdateMarkers);
    assert_eq!(e.markers.guide, Some((80, 25)));
    assert!(e.markers.show_guide);
    assert_eq!(e.update(EditorMessage::ToggleGuide), EditorAction::UpdateMarkers);
    assert!(!e.markers.show_guide);
    e.update(EditorMessage::ToggleGuide);
    assert!(e.markers.show_guide);
    assert_eq!(e.update(EditorMessage::ToggleLineNumbers), EditorAction::Nothing);
    assert_eq!(e.update(EditorMessage::ToggleLayerBorders), EditorAction::UpdateLayerBounds);
    assert!(e.markers.show_line_numbers && e.markers.show_layer_borders);
    e.update(EditorMessage::SetRaster(0, 0));
    assert_eq!(e.markers.raster, None);
    assert!(!e.markers.show_raster);
    e.update(EditorMessage::ClearGuide);
    assert_eq!(e.markers.guide, None);
    assert!(!e.is_modified);
}

#[test]
fn char_table_and_selector() {
    let mut e = editor(1);
    e.update(EditorMessage::OpenBrushCharTable);
    assert!(e.show_brush_char_table);
    assert_eq!(e.update(EditorMessage::SetBrushChar('x')), EditorAction::SetBrushChar('x'));
    assert!(!e.show_brush_char_table);
    assert_eq!(e.update(EditorMessage::SelectChar(65)), EditorAction::Nothing);
    e.update(EditorMessage::NextFKeySet);
    assert_eq!(e.current_fkey_set, 1);
    e.update(EditorMessage::OpenCharSelector(3));
    assert_eq!(e.char_selector_slot, Some(3));
    assert_eq!(e.update(EditorMessage::SelectChar(176)), EditorAction::SetFKeyCode { set: 1, slot: 3, code: 176 });
    assert_eq!(e.char_selector_slot, None);
    e.update(EditorMessage::OpenCharSelector(2));
    assert_eq!(e.update(EditorMessage::CancelCharSelector), EditorAction::Nothing);
    assert_eq!(e.char_selector_slot, None);
    assert_eq!(e.update(EditorMessage::PrevFKeySet), EditorAction::SelectFKeySet(0));
    assert_eq!(e.update(EditorMessage::PrevFKeySet), EditorAction::SelectFKeySet(9));
    assert_eq!(e.update(EditorMessage::NextFKeySet), EditorAction::SelectFKeySet(0));
    assert!(!e.is_modified);
    assert_eq!(e.update(EditorMessage::TypeFKey(4)), EditorAction::TypeFKey { set: 0, slot: 4 });
    assert!(e.is_modified);
}

#[test]
fn layer_operations() {
    let mut e = editor(1);
    assert_eq!(e.update(EditorMessage::Layer(LayerCommand::Remove(0))), EditorAction::Nothing);
    assert!(!e.is_modified);
    assert_eq!(e.update(EditorMessage::Layer(LayerCommand::Add)), EditorAction::PerformLayer(LayerCommand::Add));
    assert_eq!(e.update(EditorMessage::LayerDone(LayerCommand::Add, false)), EditorAction::Nothing);
    assert!(!e.is_modified);
    assert_eq!(e.update(EditorMessage::LayerDone(LayerCommand::Add, true)), EditorAction::UpdateLayerBounds);
    assert!(e.is_modified);

    let mut e = editor(2);
    assert_eq!(
        e.update(EditorMessage::Layer(LayerCommand::Remove(1))),
        EditorAction::PerformLayer(LayerCommand::Remove(1))
    );
    assert_eq!(e.update(EditorMessage::Layer(LayerCommand::Edit(1))), EditorAction::Nothing);
    assert_eq!(e.update(EditorMessage::LayerDone(LayerCommand::Select(1), false)), EditorAction::UpdateLayerBounds);
    assert!(!e.is_modified);
    assert_eq!(e.update(EditorMessage::LayerDone(LayerCommand::Clear(0), true)), EditorAction::Nothing);
    assert!(e.is_modified);
}
