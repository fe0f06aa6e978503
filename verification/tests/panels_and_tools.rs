use icy_draw::fkey::{
    clamp_fkey_set, fkey_click_message, fkey_is_clickable, next_fkey_set, prev_fkey_set, FKeyToolbarMessage,
    ShaderFKeyToolbar, HOVER_CHAR, HOVER_LABEL, HOVER_NEXT, HOVER_PREV,
};
use icy_draw::format_mode::{detect_format_mode, FontMode, FormatMode, PaletteMode};
use icy_draw::geometry::Position;
use icy_draw::markers::{guide_presets, menu_marks, raster_presets, MarkerState};
use icy_draw::palette_grid::{calculate_layout, marker_cell, required_width, GridButton, PaletteGrid, PaletteGridMessage};
use icy_draw::panels::{
    can_remove_layer, layer_command, layer_menu_enabled, preview_chars, ChannelsMessage, ChannelsView, LayerCommand,
    LayerMessage, MinimapAction, MinimapMouse, MinimapState, PreviewData, Tag, TagDialog, TagPlacementChoice,
};
use icy_draw::segmented::NO_HOVER;
use icy_draw::tools::{tool_grid_dimensions, tool_icon_order, tool_panel_slot_at, tool_to_index, Tool, ToolPanel};

#[test]
fn format_modes() {
    assert_eq!(FormatMode::LegacyDos.max_fonts(), 1);
    assert_eq!(FormatMode::XBinExtended.max_fonts(), 2);
    assert_eq!(FormatMode::Unrestricted.max_fonts(), usize::MAX);
    assert_eq!(FormatMode::XBinExtended.color_count(), 8);
    assert_eq!(FormatMode::Unrestricted.color_count(), 16777216);
    assert!(!FormatMode::LegacyDos.allows_palette_editing());
    assert!(FormatMode::XBin.allows_palette_editing());
    for m in FormatMode::all() {
        assert_eq!(m.allows_font_selection(), m.max_fonts() > 1);
    }
    assert_eq!(FormatMode::XBin.description(), "16 colors from selectable palette, single font");
    assert_eq!(FormatMode::XBinExtended.label(), "XBin Extended");
    assert_eq!(FormatMode::default(), FormatMode::LegacyDos);
    assert_eq!(detect_format_mode(PaletteMode::Fixed16, FontMode::Sauce), FormatMode::LegacyDos);
    assert_eq!(detect_format_mode(PaletteMode::Free16, FontMode::Single), FormatMode::XBin);
    assert_eq!(detect_format_mode(PaletteMode::Free8, FontMode::FixedSize), FormatMode::XBinExtended);
    assert_eq!(detect_format_mode(PaletteMode::RGB, FontMode::Sauce), FormatMode::Unrestricted);
    assert_eq!(detect_format_mode(PaletteMode::Fixed16, FontMode::Unlimited), FormatMode::Unrestricted);
    assert_eq!(detect_format_mode(PaletteMode::Fixed16, FontMode::FixedSize), FormatMode::LegacyDos);
}

#[test]
fn palette_layouts() {
    let l = calculate_layout(16);
    assert_eq!((l.items_per_row, l.cell_size, l.width, l.height), (2, 20, 40, 160));
    let l = calculate_layout(8);
    assert_eq!((l.items_per_row, l.cell_size, l.width, l.height), (1, 24, 24, 192));
    let l = calculate_layout(17);
    assert_eq!((l.items_per_row, l.cell_size, l.width, l.height), (4, 16, 64, 80));
    let l = calculate_layout(256);
    assert_eq!((l.items_per_row, l.cell_size, l.width, l.height), (8, 12, 96, 384));
    assert_eq!(required_width(16), 48);
    assert_eq!(marker_cell(5, 2), (1, 2));
}

#[test]
fn palette_clicks() {
    let mut g = PaletteGrid::new();
    assert_eq!((g.foreground, g.background, g.palette_len), (7, 0, 16));
    assert_eq!(g.color_at(1, 2, 2), Some(5));
    assert_eq!(g.color_at(1, 8, 2), None);
    let (col, row) = marker_cell(13, 2);
    assert_eq!(g.color_at(col as u32, row as u32, 2), Some(13));
    assert_eq!(g.click(1, 1, 2, GridButton::Left), Some(PaletteGridMessage::SetForeground(3)));
    g.set_font_mode(false);
    g.set_ice_mode(false);
    assert_eq!(g.click(1, 1, 2, GridButton::Right), Some(PaletteGridMessage::SetBackground(3)));
    assert_eq!(g.click(0, 5, 2, GridButton::Left), None);
    assert_eq!(g.click(0, 5, 2, GridButton::Right), None);
    assert_eq!(g.click(0, 1, 2, GridButton::Other), None);
    g.set_font_mode(true);
    g.set_ice_mode(true);
    assert_eq!(g.click(0, 5, 2, GridButton::Left), Some(PaletteGridMessage::SetForeground(10)));
    assert_eq!(g.click(0, 5, 2, GridButton::Right), Some(PaletteGridMessage::SetBackground(10)));
    g.set_foreground(3);
    g.set_background(4);
    assert_eq!((g.foreground, g.background), (3, 4));
    g.sync_palette(64);
    assert_eq!(g.cached_palette_width(), 72);
}

#[test]
fn fkey_toolbar() {
    assert_eq!(fkey_click_message(3, HOVER_CHAR), Some(FKeyToolbarMessage::TypeFKey(3)));
    assert_eq!(fkey_click_message(3, HOVER_LABEL), Some(FKeyToolbarMessage::OpenCharSelector(3)));
    assert_eq!(fkey_click_message(NO_HOVER, HOVER_PREV), Some(FKeyToolbarMessage::PrevSet));
    assert_eq!(fkey_click_message(NO_HOVER, HOVER_NEXT), Some(FKeyToolbarMessage::NextSet));
    assert_eq!(fkey_click_message(NO_HOVER, HOVER_LABEL), None);
    assert!(fkey_is_clickable(0, HOVER_CHAR));
    assert!(!fkey_is_clickable(NO_HOVER, HOVER_CHAR));
    let mut t = ShaderFKeyToolbar::new();
    assert_eq!(t.hovered_slot, NO_HOVER);
    t.set_hover(Some((2, HOVER_CHAR)));
    assert_eq!((t.hovered_slot, t.hover_type), (2, HOVER_CHAR));
    t.clear_cache();
    assert_eq!(clamp_fkey_set(12, 10), 2);
    assert_eq!(clamp_fkey_set(12, 0), 0);
    assert_eq!(next_fkey_set(9, 10), 0);
    assert_eq!(next_fkey_set(3, 10), 4);
    assert_eq!(prev_fkey_set(0, 10), 9);
    assert_eq!(prev_fkey_set(4, 10), 3);
    assert_eq!(prev_fkey_set(4, 0), 0);
    for cur in 0..10usize {
        assert_eq!(prev_fkey_set(next_fkey_set(cur, 10), 10), cur);
        assert_eq!(next_fkey_set(prev_fkey_set(cur, 10), 10), cur);
    }
}

#[test]
fn tool_grid() {
    let order = tool_icon_order();
    assert_eq!(order.len(), 15);
    for (i, t) in order.iter().enumerate() {
        assert_eq!(tool_to_index(*t), i);
    }
    assert_eq!(tool_to_index(Tool::Tag), 14);
    assert_eq!(tool_grid_dimensions(93, 15), (2, 8));
    assert_eq!(tool_grid_dimensions(0, 15), (1, 15));
    assert_eq!(tool_grid_dimensions(10_000, 15), (9, 2));
    assert_eq!(tool_grid_dimensions(138, 9), (3, 3));
}

#[test]
fn markers() {
    let mut m = MarkerState::new();
    m.set_guide(80, 25);
    assert_eq!(m.guide, Some((80, 25)));
    assert!(m.show_guide);
    let menu = m.get_marker_menu_state();
    assert_eq!(menu.guide, Some((80, 25)));
    assert!(menu.guide_visible);
    let (off, marks) = menu_marks(menu.guide, &guide_presets().iter().map(|p| (p.1, p.2)).collect());
    assert!(!off);
    assert_eq!(marks, vec![true, false, false, false]);
    m.set_guide(0, 0);
    assert_eq!(m.guide, None);
    assert!(m.show_guide);
    m.toggle_guide();
    assert!(!m.show_guide);
    m.set_raster(8, 8);
    assert_eq!(m.raster_pixels(8, 16), Some((64, 128)));
    m.toggle_raster();
    assert_eq!(m.raster_pixels(8, 16), None);
    let (off, marks) = menu_marks(m.get_marker_menu_state().raster, &raster_presets());
    assert!(!off);
    assert_eq!(marks.iter().filter(|b| **b).count(), 1);
    assert!(marks[6]);
    m.clear_raster();
    let (off, _) = menu_marks(m.get_marker_menu_state().raster, &raster_presets());
    assert!(off);
    m.set_guide(-3, 40);
    assert_eq!(m.get_marker_menu_state().guide, Some((0, 40)));
    assert_eq!(guide_presets()[3].0, "File_ID.DIZ 44x22");
}

#[test]
fn channels_and_layers() {
    let mut c = ChannelsView::new();
    c.update(ChannelsMessage::ToggleForeground);
    assert!(!c.use_foreground && c.use_background);
    c.update(ChannelsMessage::ToggleForeground);
    assert_eq!(c, ChannelsView::new());
    assert_eq!(layer_command(&LayerMessage::Select(2), false), Some(LayerCommand::Select(2)));
    assert_eq!(layer_command(&LayerMessage::Select(2), true), Some(LayerCommand::Edit(2)));
    assert_eq!(layer_command(&LayerMessage::Rename(1, "x".to_string()), false), None);
    assert_eq!(layer_command(&LayerMessage::MergeDown(1), false), Some(LayerCommand::MergeDown(1)));
    assert!(!can_remove_layer(1));
    assert!(can_remove_layer(2));
    assert_eq!(layer_menu_enabled(0, 3), (false, true));
    assert_eq!(preview_chars(160, 100), Some((80, 25)));
    assert_eq!(preview_chars(40, 10), Some((40, 10)));
    assert_eq!(preview_chars(0, 10), None);
    let p = PreviewData::new(vec![1, 2, 3, 4], 1, 1);
    assert_eq!((p.src_width, p.src_height), (1, 1));
}

#[test]
fn minimap_mouse() {
    let mut s = MinimapState::new();
    assert_eq!(s.on_mouse(MinimapMouse::Move { has_position: true }, true), MinimapAction::Nothing);
    assert_eq!(s.on_mouse(MinimapMouse::Press { inside: true }, true), MinimapAction::Click);
    assert_eq!(s.on_mouse(MinimapMouse::Move { has_position: true }, true), MinimapAction::Drag);
    assert_eq!(s.on_mouse(MinimapMouse::Release, true), MinimapAction::Nothing);
    assert!(!s.is_dragging);
    assert_eq!(s.on_mouse(MinimapMouse::Press { inside: false }, true), MinimapAction::Nothing);
    assert!(!s.is_dragging);
}

#[test]
fn tag_dialogs() {
    let d = TagDialog::new(Position::new(3, -4));
    assert_eq!((d.pos_x.as_str(), d.pos_y.as_str()), ("3", "-4"));
    assert_eq!(d.preview, "TAG");
    assert_eq!(d.title(), "New Tag");
    let d = TagDialog::new_from_selection(Position::new(0, 0), "  \t ".to_string(), 4);
    assert_eq!(d.preview, "TAG");
    assert_eq!(d.length, Some(4));
    assert_eq!(d.title(), "New Tag from Selection");
    let d = TagDialog::new_from_selection(Position::new(0, 0), " hi ".to_string(), 4);
    assert_eq!(d.preview, " hi ");
    let tag = Tag {
        position: Position::new(7, 8),
        placement: TagPlacementChoice::WithGotoXY,
        preview: "P".to_string(),
        replacement_value: "R".to_string(),
        length: 0,
    };
    let d = TagDialog::edit(&tag, 5);
    assert!(d.is_editing());
    assert_eq!(d.edit_index, Some(5));
    assert_eq!(d.length, None);
    assert_eq!(d.title(), "Edit Tag");
    assert_eq!(d.placement, TagPlacementChoice::WithGotoXY);
    assert_eq!(TagPlacementChoice::InText.label(), "In text");
    assert_eq!(TagPlacementChoice::all().len(), 2);
}

#[test]
fn tool_panel_slots() {
    assert_eq!(tool_panel_slot_at(0, 0, 9), Some(0));
    assert_eq!(tool_panel_slot_at(1, 1, 9), Some(0));
    assert_eq!(tool_panel_slot_at(27, 0, 9), Some(0));
    assert_eq!(tool_panel_slot_at(28, 0, 9), Some(1));
    assert_eq!(tool_panel_slot_at(80, 0, 9), None);
    assert_eq!(tool_panel_slot_at(28, 28, 9), Some(4));
    assert_eq!(tool_panel_slot_at(28, 28, 4), None);
    assert_eq!(tool_panel_slot_at(60, 60, 9), Some(8));
    let mut p = ToolPanel::new();
    assert_eq!(p.current_tool(), Tool::Click);
    p.set_tool(Tool::Brush);
    assert_eq!(p.current_tool(), Tool::Brush);
}
