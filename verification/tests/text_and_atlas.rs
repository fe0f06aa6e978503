use icy_draw::geometry::{Position, Rectangle};
use icy_draw::glyph_atlas::{align_up, build_glyph_atlas_rgba, cp437_index, selection_mask_rgba};
use icy_draw::paint::{
    brush_mode, color_mode, paint_stamp_cells, stamp_colors, BrushMode, BrushPrimaryMode, ColorMode,
};
use icy_draw::text::{
    collect_chars, contains_chars, format_i32, is_blank, parse_i32, sanitize_sauce_field, string_from_chars,
    text_lines,
};
use icy_draw::tools::Tool;

#[test]
fn numbers_read_back() {
    for n in [0, 1, -1, 42, -1234, i32::MAX, i32::MIN] {
        let s = format_i32(n);
        assert_eq!(s, n.to_string());
        assert_eq!(parse_i32(&s), Some(n));
    }
    assert_eq!(parse_i32("+7"), Some(7));
    assert_eq!(parse_i32("-0"), Some(0));
    assert_eq!(parse_i32("2147483648"), None);
    assert_eq!(parse_i32("-2147483649"), None);
    assert_eq!(parse_i32("-"), None);
    assert_eq!(parse_i32("+"), None);
    assert_eq!(parse_i32("1 "), None);
    assert_eq!(parse_i32("0012"), Some(12));
}

#[test]
fn text_helpers() {
    assert_eq!(sanitize_sauce_field("héllo wörld", 5), "hllo ");
    assert_eq!(sanitize_sauce_field(&sanitize_sauce_field("héllo wörld", 5), 5), "hllo ");
    assert!(is_blank(""));
    assert!(is_blank(" \t\u{3000}\n"));
    assert!(!is_blank(" x "));
    let hay = collect_chars("font name");
    assert!(contains_chars(&hay, &collect_chars("t n")));
    assert!(contains_chars(&hay, &collect_chars("")));
    assert!(!contains_chars(&hay, &collect_chars("Font")));
    assert_eq!(string_from_chars(&['a', 'b']), "ab");
    let lines = text_lines(&collect_chars("a\r\nb\n\nc\r"));
    let lines: Vec<String> = lines.iter().map(|l| l.iter().collect()).collect();
    assert_eq!(lines, vec!["a", "b", "", "c\r"]);
    let expected: Vec<&str> = "a\r\nb\n\nc\r".lines().collect();
    assert_eq!(lines, expected);
    assert!(text_lines(&collect_chars("")).is_empty());
    assert_eq!(text_lines(&collect_chars("x\n")).len(), 1);
}

#[test]
fn atlas_and_alignment() {
    assert_eq!(align_up(0, 256), 0);
    assert_eq!(align_up(1, 256), 256);
    assert_eq!(align_up(256, 256), 256);
    assert_eq!(align_up(257, 256), 512);
    assert_eq!(align_up(17, 0), 17);
    assert_eq!(align_up(100, 256), 256);
    assert_eq!(align_up(u64::MAX, 1), u64::MAX);
    assert_eq!(align_up(u64::MAX - 255, 256), u64::MAX - 255);

    // ASCII as is, then part of the CP437 upper half
    let mut table: Vec<char> = (0u32..128).map(|i| char::from_u32(i).unwrap()).collect();
    table.extend(['Ç', 'ü', 'é', 'â', 'ä', 'à', 'å', 'ç']);
    table.resize(176, ' ');
    table.extend(['░', '▒', '▓']);
    table.resize(0xDB, ' ');
    table.push('█');
    table.resize(256, ' ');
    assert_eq!(cp437_index('A', &table), 65);
    assert_eq!(cp437_index('é', &table), 130);
    assert_eq!(cp437_index('░', &table), 176);
    assert_eq!(cp437_index('█', &table), 0xDB);
    assert_eq!(cp437_index('☺', &table), '?' as u32);
    assert_eq!(cp437_index('ÿ', &table), '?' as u32);

    let mut glyphs: Vec<Option<Vec<Vec<bool>>>> = vec![None; 256];
    glyphs[1] = Some(vec![vec![true, false], vec![false, true]]);
    let (w, h, rgba) = build_glyph_atlas_rgba(2, 2, &glyphs);
    assert_eq!((w, h), (32, 32));
    assert_eq!(rgba.len(), 32 * 32 * 4);
    let px = |x: usize, y: usize| &rgba[(y * 32 + x) * 4..(y * 32 + x) * 4 + 4];
    assert_eq!(px(2, 0), &[255, 255, 255, 255]);
    assert_eq!(px(3, 0), &[255, 255, 255, 0]);
    assert_eq!(px(3, 1), &[255, 255, 255, 255]);
    assert_eq!(px(0, 0), &[0, 0, 0, 0]);

    let mask = selection_mask_rgba(&vec![true, false]);
    assert_eq!(mask, vec![255, 255, 255, 255, 0, 0, 0, 255]);
}

#[test]
fn brush_stamps() {
    assert_eq!(brush_mode(BrushPrimaryMode::Shading, 'x', true), BrushMode::ShadeDown);
    assert_eq!(brush_mode(BrushPrimaryMode::Blink, 'x', false), BrushMode::Blink(true));
    assert_eq!(brush_mode(BrushPrimaryMode::Char, 'x', true), BrushMode::Char('x'));
    assert_eq!(color_mode(BrushPrimaryMode::Colorize, true, false), ColorMode::Foreground);
    assert_eq!(color_mode(BrushPrimaryMode::Colorize, false, false), ColorMode::Neither);
    assert_eq!(color_mode(BrushPrimaryMode::Char, false, false), ColorMode::Both);
    assert_eq!(stamp_colors(7, 1, true, BrushPrimaryMode::Char), (1, 7));
    assert_eq!(stamp_colors(7, 1, true, BrushPrimaryMode::Shading), (7, 1));
    let cells = paint_stamp_cells(Position::new(1, 1), Position::new(0, 0), 10, 10, Tool::Brush, 3);
    assert_eq!(cells.len(), 9);
    assert_eq!(cells[0], Position::new(0, 0));
    assert_eq!(cells[8], Position::new(2, 2));
    let cells = paint_stamp_cells(Position::new(0, 0), Position::new(0, 0), 10, 10, Tool::Brush, 3);
    assert_eq!(cells, vec![Position::new(0, 0), Position::new(1, 0), Position::new(0, 1), Position::new(1, 1)]);
    let cells = paint_stamp_cells(Position::new(5, 5), Position::new(2, 1), 10, 10, Tool::Pencil, 7);
    assert_eq!(cells, vec![Position::new(3, 4)]);
    let r = Rectangle::from(1, 1, 2, 2);
    assert!(r.contains_pt(Position::new(2, 2)));
    assert!(!r.contains_pt(Position::new(3, 2)));
    assert_eq!((r.right(), r.bottom()), (3, 3));
}
