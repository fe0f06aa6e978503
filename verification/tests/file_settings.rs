use icy_draw::file_settings::{
    comment_edit_needs_check, comments_after_edit, comments_at_limit, comments_exceed_limits, comments_text, limit_comments,
    parse_dimension, BufferLimits, DialogAction, DialogPage, FileSettingsDialog, FileSettingsDialogMessage,
};
use icy_draw::format_mode::FormatMode;

fn limits() -> BufferLimits {
    BufferLimits { max_width: 1000, max_height: 10000 }
}

fn dialog(width: i32, height: i32) -> FileSettingsDialog {
    FileSettingsDialog::new(
        width,
        height,
        "Title".to_string(),
        "Author".to_string(),
        "Group".to_string(),
        "Line one\nLine two".to_string(),
        FormatMode::XBin,
        true,
        false,
        true,
        limits(),
    )
}

#[test]
fn fresh_dialog_shows_and_applies_the_document_values() {
    let mut d = dialog(80, 25);
    assert_eq!(d.width, "80");
    assert_eq!(d.height, "25");
    assert_eq!(d.page, DialogPage::Settings);
    assert_eq!(d.parsed_width(), Some(80));
    assert_eq!(d.parsed_height(), Some(25));
    assert!(d.is_valid());
    match d.update(FileSettingsDialogMessage::Apply) {
        DialogAction::CloseWith(r) => {
            assert_eq!(r.width, 80);
            assert_eq!(r.height, 25);
            assert_eq!(r.title, "Title");
            assert_eq!(r.author, "Author");
            assert_eq!(r.group, "Group");
            assert_eq!(r.comments, "Line one\nLine two");
            assert_eq!(r.format_mode, FormatMode::XBin);
            assert!(r.ice_colors);
            assert!(!r.use_9px_font);
            assert!(r.legacy_aspect);
        }
        other => panic!("expected CloseWith, got {:?}", other),
    }
}

#[test]
fn invalid_size_keeps_the_dialog_open() {
    let mut d = dialog(80, 25);
    assert!(matches!(d.update(FileSettingsDialogMessage::SetWidth("abc".to_string())), DialogAction::Stay));
    assert_eq!(d.parsed_width(), None);
    assert!(!d.is_valid());
    assert!(d.result().is_none());
    assert!(matches!(d.update(FileSettingsDialogMessage::Apply), DialogAction::Stay));
    assert!(matches!(d.request_confirm(), DialogAction::Stay));
    d.update(FileSettingsDialogMessage::SetWidth("0".to_string()));
    assert!(!d.is_valid());
    d.update(FileSettingsDialogMessage::SetWidth("1001".to_string()));
    assert!(!d.is_valid());
    d.update(FileSettingsDialogMessage::SetWidth("1000".to_string()));
    assert!(d.is_valid());
    d.update(FileSettingsDialogMessage::SetHeight("-3".to_string()));
    assert!(!d.is_valid());
    d.update(FileSettingsDialogMessage::SetHeight("132".to_string()));
    match d.request_confirm() {
        DialogAction::CloseWith(r) => assert_eq!((r.width, r.height), (1000, 132)),
        other => panic!("expected CloseWith, got {:?}", other),
    }
}

#[test]
fn cancel_closes() {
    let mut d = dialog(80, 25);
    assert!(matches!(d.update(FileSettingsDialogMessage::Cancel), DialogAction::Close));
    assert!(matches!(d.request_cancel(), DialogAction::Close));
}

#[test]
fn dimensions_parse_like_integers() {
    assert_eq!(parse_dimension("80", 100), Some(80));
    assert_eq!(parse_dimension("+12", 100), Some(12));
    assert_eq!(parse_dimension("100", 100), Some(100));
    assert_eq!(parse_dimension("101", 100), None);
    assert_eq!(parse_dimension("0", 100), None);
    assert_eq!(parse_dimension("-5", 100), None);
    assert_eq!(parse_dimension(" 5", 100), None);
    assert_eq!(parse_dimension("", 100), None);
    assert_eq!(parse_dimension("99999999999", i32::MAX), None);
}

#[test]
fn sauce_fields_are_cut_to_their_length() {
    let mut d = dialog(80, 25);
    d.update(FileSettingsDialogMessage::SetTitle("A title that is far longer than thirty-five characters".to_string()));
    assert_eq!(d.title, "A title that is far longer than thi");
    assert_eq!(d.title.len(), 35);
    d.update(FileSettingsDialogMessage::SetAuthor("Ärger über Öl: Author Name Long".to_string()));
    assert_eq!(d.author, "rger ber l: Author N");
    d.update(FileSettingsDialogMessage::SetGroup("Group name with more than twenty".to_string()));
    assert_eq!(d.group, "Group name with more");
    d.update(FileSettingsDialogMessage::SetTitle("Short".to_string()));
    assert_eq!(d.title, "Short");
}

#[test]
fn other_settings_change_one_field() {
    let mut d = dialog(80, 25);
    d.update(FileSettingsDialogMessage::SetFormatMode(FormatMode::Unrestricted));
    d.update(FileSettingsDialogMessage::SetIceColors(false));
    d.update(FileSettingsDialogMessage::Set9pxFont(true));
    d.update(FileSettingsDialogMessage::SetLegacyAspect(false));
    d.update(FileSettingsDialogMessage::ShowComments);
    assert_eq!(d.page, DialogPage::Comments);
    assert_eq!(d.format_mode, FormatMode::Unrestricted);
    assert!(!d.ice_colors);
    assert!(d.use_9px_font);
    assert!(!d.legacy_aspect);
    d.update(FileSettingsDialogMessage::ShowSettings);
    assert_eq!(d.page, DialogPage::Settings);
    assert_eq!(d.width, "80");
}

fn many_lines(n: usize) -> String {
    let mut s = String::new();
    for i in 0..n {
        if i > 0 {
            s.push('\n');
        }
        s.push_str(&format!("line {}", i));
    }
    s
}

#[test]
fn comment_limits() {
    assert!(!comments_at_limit("short"));
    assert!(comments_at_limit(&"x".repeat(64)));
    assert!(!comments_exceed_limits(&"x".repeat(64)));
    assert!(comments_exceed_limits(&"x".repeat(65)));
    // a two-byte character counts twice
    assert!(comments_exceed_limits(&("ä".repeat(33))));
    assert!(comments_at_limit(&many_lines(255)));
    assert!(!comments_exceed_limits(&many_lines(255)));
    assert!(comments_exceed_limits(&many_lines(256)));
}

#[test]
fn limiting_comments_cuts_lines_and_count() {
    let long = format!("{}\nsecond", "y".repeat(70));
    assert_eq!(limit_comments(&long), format!("{}\nsecond", "y".repeat(64)));
    let limited = limit_comments(&many_lines(300));
    assert_eq!(limited.lines().count(), 255);
    assert_eq!(limited, many_lines(255));
    assert_eq!(limit_comments("caf\u{e9}\r\nok"), "caf\nok");
    assert_eq!(limit_comments(""), "");
    let again = limit_comments(&limited);
    assert_eq!(again, limited);
    assert!(!comments_exceed_limits(&limit_comments(&format!("{}\n{}", "é".repeat(100), many_lines(400)))));
}

#[test]
fn comment_edits_are_checked_only_at_the_limit() {
    assert!(!comment_edit_needs_check(true, "few"));
    assert!(comment_edit_needs_check(true, &"x".repeat(64)));
    assert!(!comment_edit_needs_check(false, &"x".repeat(64)));
    assert_eq!(comments_after_edit("x".repeat(66), true), "x".repeat(64));
    assert_eq!(comments_after_edit("x".repeat(66), false), "x".repeat(66));
    assert_eq!(comments_after_edit("fine".to_string(), true), "fine");

    let mut d = dialog(80, 25);
    d.set_comments_after_edit("z".repeat(65), d.comment_edit_needs_check(true));
    assert_eq!(d.comments, "z".repeat(65));
    let mut d = dialog(80, 25);
    d.comments = "z".repeat(64);
    let checked = d.comment_edit_needs_check(true);
    assert!(checked);
    d.set_comments_after_edit("z".repeat(65), checked);
    assert_eq!(d.comments, "z".repeat(64));
}

#[test]
fn comment_lines_join() {
    assert_eq!(comments_text(&vec![]), "");
    assert_eq!(comments_text(&vec!["one".to_string()]), "one");
    assert_eq!(comments_text(&vec!["one".to_string(), "".to_string(), "thrée".to_string()]), "one\n\nthrée");
}
