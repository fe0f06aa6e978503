use icy_draw::font_selector::{
    collect_fonts, filtered_font_indices, name_passes_filter, FontDialogAction, FontInfo, FontSelectorDialog,
    FontSelectorMessage, FontSelectorResult, FontSource, FontTitleKind, ListKey, ListScroll,
};
use icy_draw::format_mode::FormatMode;

fn info(name: &str, width: i32, height: i32) -> FontInfo {
    FontInfo { name: name.to_string(), width, height }
}

fn sauce() -> Vec<(String, FontInfo)> {
    vec![
        ("IBM VGA".to_string(), info("IBM VGA", 8, 16)),
        ("Amiga Topaz 1".to_string(), info("Topaz", 8, 8)),
    ]
}

fn ansi() -> Vec<(usize, FontInfo)> {
    vec![(0, info("IBM VGA", 8, 16)), (1, info("Other", 8, 14))]
}

fn docs() -> Vec<(usize, FontInfo)> {
    vec![(0, info("IBM VGA", 8, 16)), (1, info("Custom", 8, 16))]
}

fn font_dialog(mode: FormatMode) -> FontSelectorDialog {
    FontSelectorDialog::new(mode, false, &sauce(), &ansi(), &docs(), 1, (None, None))
}

#[test]
fn fonts_from_several_places_merge() {
    let (fonts, selected) = collect_fonts(false, &sauce(), &ansi(), &docs(), 1);
    assert_eq!(fonts.len(), 4);
    assert_eq!(fonts[0].font.name, "IBM VGA");
    assert_eq!(fonts[0].source.sauce_name.as_deref(), Some("IBM VGA"));
    assert_eq!(fonts[0].source.ansi_slot, Some(0));
    assert_eq!(fonts[0].source.document_slot, Some(0));
    assert_eq!(fonts[1].font.name, "Topaz");
    assert_eq!(fonts[1].source.ansi_slot, None);
    assert_eq!(fonts[2].font.name, "Other");
    assert_eq!(fonts[2].source.ansi_slot, Some(1));
    assert_eq!(fonts[2].source.sauce_name, None);
    assert_eq!(fonts[3].font.name, "Custom");
    assert_eq!(fonts[3].source.document_slot, Some(1));
    assert_eq!(selected, 3);

    let (fonts, selected) = collect_fonts(false, &sauce(), &ansi(), &docs(), 0);
    assert_eq!(fonts.len(), 4);
    assert_eq!(selected, 0);
    let (_, selected) = collect_fonts(false, &sauce(), &ansi(), &docs(), 7);
    assert_eq!(selected, 0);
}

#[test]
fn same_name_other_size_is_another_font() {
    let sauce = vec![("IBM VGA".to_string(), info("IBM VGA", 8, 16))];
    let ansi = vec![(3, info("IBM VGA", 8, 8))];
    let (fonts, _) = collect_fonts(false, &sauce, &ansi, &vec![], 0);
    assert_eq!(fonts.len(), 2);
    assert_eq!(fonts[0].source.ansi_slot, None);
    assert_eq!(fonts[1].source.ansi_slot, Some(3));
}

#[test]
fn sauce_only_documents_skip_ansi_fonts() {
    let d = FontSelectorDialog::new(FormatMode::LegacyDos, true, &sauce(), &ansi(), &docs(), 0, (None, None));
    assert_eq!(d.fonts.len(), 3);
    assert!(d.show_sauce);
    assert!(!d.show_ansi);
    assert!(!d.show_library);
    assert!(d.show_document);
    assert_eq!(d.fonts[2].font.name, "Custom");
    assert_eq!(d.filtered_indices, vec![0, 1, 2]);
    assert_eq!(d.selected_index, 0);
}

#[test]
fn new_dialog_lists_everything() {
    let d = font_dialog(FormatMode::Unrestricted);
    assert_eq!(d.filtered_indices, vec![0, 1, 2, 3]);
    assert_eq!(d.selected_index, 3);
    assert_eq!(d.filter, "");
    assert_eq!(d.active_slot, 0);
    assert!(d.slot_fonts.0.is_none());
    let x = FontSelectorDialog::new(
        FormatMode::XBinExtended,
        false,
        &sauce(),
        &ansi(),
        &docs(),
        1,
        (Some(info("A", 8, 16)), None),
    );
    assert_eq!(x.slot_fonts.0.as_ref().map(|f| f.name.as_str()), Some("A"));
    let y = FontSelectorDialog::new(FormatMode::XBin, false, &sauce(), &ansi(), &docs(), 1, (Some(info("A", 8, 16)), None));
    assert!(y.slot_fonts.0.is_none());
}

#[test]
fn filter_ignores_case() {
    let mut d = font_dialog(FormatMode::Unrestricted);
    assert_eq!(d.update(FontSelectorMessage::SetFilter("TOP".to_string())), FontDialogAction::Stay);
    assert_eq!(d.filtered_indices, vec![1]);
    // the selected font is no longer listed: the first listed one is selected
    assert_eq!(d.selected_index, 1);
    d.update(FontSelectorMessage::SetFilter("o".to_string()));
    assert_eq!(d.filtered_indices, vec![1, 2, 3]);
    assert_eq!(d.selected_index, 1);
    d.update(FontSelectorMessage::SetFilter("zzz".to_string()));
    assert!(d.filtered_indices.is_empty());
    assert_eq!(d.selected_index, 1);
    d.update(FontSelectorMessage::ClearFilter);
    assert_eq!(d.filtered_indices, vec![0, 1, 2, 3]);
    assert_eq!(d.filter, "");
}

#[test]
fn kinds_can_be_hidden() {
    let mut d = font_dialog(FormatMode::Unrestricted);
    d.update(FontSelectorMessage::ToggleSauce);
    assert!(!d.show_sauce);
    assert_eq!(d.filtered_indices, vec![0, 2, 3]);
    d.update(FontSelectorMessage::ToggleDocument);
    assert_eq!(d.filtered_indices, vec![0, 2]);
    assert_eq!(d.selected_index, 0);
    d.update(FontSelectorMessage::ToggleAnsi);
    assert!(d.filtered_indices.is_empty());
    d.update(FontSelectorMessage::ToggleLibrary);
    assert!(d.show_library == false);
    d.update(FontSelectorMessage::ToggleSauce);
    assert_eq!(d.filtered_indices, vec![0, 1]);
}

#[test]
fn list_keys_move_the_selection() {
    let mut d = font_dialog(FormatMode::Unrestricted);
    assert_eq!(d.handle_list_key(ListKey::Down), None);
    assert_eq!(d.selected_index, 3);
    assert_eq!(d.handle_list_key(ListKey::Up), Some(ListScroll::ToSelected));
    assert_eq!(d.selected_index, 2);
    assert_eq!(d.handle_list_key(ListKey::Home), Some(ListScroll::Top));
    assert_eq!(d.selected_index, 0);
    assert_eq!(d.handle_list_key(ListKey::Up), None);
    assert_eq!(d.handle_list_key(ListKey::Down), Some(ListScroll::ToSelected));
    assert_eq!(d.selected_index, 1);
    assert_eq!(d.handle_list_key(ListKey::End), Some(ListScroll::Bottom));
    assert_eq!(d.selected_index, 3);
    assert_eq!(d.handle_list_key(ListKey::PageUp), Some(ListScroll::PageUp));
    assert_eq!(d.handle_list_key(ListKey::PageDown), Some(ListScroll::PageDown));
    assert_eq!(d.selected_index, 3);
    d.update(FontSelectorMessage::SetFilter("nothing".to_string()));
    assert_eq!(d.handle_list_key(ListKey::Home), None);
    assert_eq!(d.handle_list_key(ListKey::End), None);
}

#[test]
fn results_by_format_mode() {
    let mut d = font_dialog(FormatMode::XBin);
    d.update(FontSelectorMessage::SelectFont(1));
    assert_eq!(d.create_result(), Some(FontSelectorResult::SingleFont(1)));
    assert_eq!(
        d.update(FontSelectorMessage::Apply),
        FontDialogAction::CloseWith(FontSelectorResult::SingleFont(1))
    );

    let mut d = font_dialog(FormatMode::XBinExtended);
    d.update(FontSelectorMessage::SelectSlot(1));
    d.update(FontSelectorMessage::SelectFont(2));
    assert_eq!(d.create_result(), Some(FontSelectorResult::FontForSlot { slot: 1, font: 2 }));

    let mut d = font_dialog(FormatMode::Unrestricted);
    assert_eq!(d.create_result(), Some(FontSelectorResult::FontForSlot { slot: 1, font: 3 }));
    d.update(FontSelectorMessage::SelectFont(2));
    assert_eq!(d.create_result(), Some(FontSelectorResult::FontForSlot { slot: 0, font: 2 }));
    d.update(FontSelectorMessage::SelectFont(9));
    assert_eq!(d.create_result(), None);
    assert_eq!(d.update(FontSelectorMessage::Apply), FontDialogAction::Stay);
    assert_eq!(d.request_confirm(), FontDialogAction::Stay);
    assert_eq!(d.update(FontSelectorMessage::Cancel), FontDialogAction::Close);
    assert_eq!(d.request_cancel(), FontDialogAction::Close);
}

#[test]
fn rows_map_to_listed_fonts() {
    let mut d = font_dialog(FormatMode::Unrestricted);
    d.update(FontSelectorMessage::ToggleSauce);
    assert_eq!(d.font_at_row(0), Some(0));
    assert_eq!(d.font_at_row(1), Some(2));
    assert_eq!(d.font_at_row(3), None);
}

#[test]
fn filtering_helpers() {
    let chars = |s: &str| s.chars().collect::<Vec<char>>();
    assert!(name_passes_filter(&chars("ibm vga"), &chars("")));
    assert!(name_passes_filter(&chars("ibm vga"), &chars("m v")));
    assert!(!name_passes_filter(&chars("ibm vga"), &chars("IBM")));
    let (fonts, _) = collect_fonts(false, &sauce(), &ansi(), &docs(), 1);
    assert_eq!(filtered_font_indices(&fonts, true, true, true, true, "vGa"), vec![0]);
    assert_eq!(filtered_font_indices(&fonts, false, true, false, false, ""), vec![0, 2]);
    assert_eq!(filtered_font_indices(&fonts, false, false, false, false, ""), Vec::<usize>::new());
    let lib = FontSource { ansi_slot: None, sauce_name: None, document_slot: None, is_library: true };
    assert!(lib.is_library);
    let none = FontSource::default();
    assert!(none.sauce_name.is_none() && !none.is_library);
}

#[test]
fn titles_follow_the_mode() {
    assert_eq!(font_dialog(FormatMode::XBin).title_parts(), (FontTitleKind::Single, 4));
    assert_eq!(font_dialog(FormatMode::XBinExtended).title_parts(), (FontTitleKind::Dual, 4));
    let mut d = font_dialog(FormatMode::Unrestricted);
    d.update(FontSelectorMessage::SetFilter("ibm".to_string()));
    assert_eq!(d.title_parts(), (FontTitleKind::Full, 1));
}

#[test]
fn sauce_names_of_one_font_stay_apart() {
    let sauce = vec![("A".to_string(), info("Same", 8, 16)), ("B".to_string(), info("Same", 8, 16))];
    let ansi = vec![(4, info("Same", 8, 16))];
    let docs = vec![(0, info("Same", 8, 16))];
    let (fonts, selected) = collect_fonts(false, &sauce, &ansi, &docs, 0);
    assert_eq!(fonts.len(), 2);
    assert_eq!(fonts[0].source.ansi_slot, None);
    assert_eq!(fonts[1].source.ansi_slot, Some(4));
    assert_eq!(fonts[1].source.document_slot, Some(0));
    assert_eq!(selected, 1);
}
