use icy_draw::segmented::{
    segment_glyphs, GlyphRole, SegmentGlyph,
    calculate_segment_width, char_segment_width, segment_at_x, segment_click, selected_mask_from_indices,
    single_selection_mask, text_segment_width, Segment, SegmentContent, SegmentContentType, SegmentedControlMessage,
    SegmentedLayout, ShaderSegmentedControl, NO_HOVER,
};

#[test]
fn test_layout_basic() {
    let segments = vec![
        SegmentContentType::Text(4), // "Test"
        SegmentContentType::Char,
    ];
    let layout = SegmentedLayout::default_font(&segments);

    assert_eq!(layout.segment_widths.len(), 2);
    assert!(layout.total_width > 0);
    assert!(layout.total_height > 0);
}

#[test]
fn test_hit_test() {
    let segments = vec![SegmentContentType::Text(4), SegmentContentType::Text(4)];
    let layout = SegmentedLayout::default_font(&segments);

    // Hit first segment
    assert_eq!(layout.hit_test(layout.segment_x(0) + 5, layout.content_start_y() + 5), Some(0));

    // Hit second segment
    assert_eq!(layout.hit_test(layout.segment_x(1) + 5, layout.content_start_y() + 5), Some(1));

    // Miss (before first segment)
    assert_eq!(layout.hit_test(0, layout.content_start_y() + 5), None);
}

#[test]
fn layout_widths_follow_the_formula() {
    let segments = vec![SegmentContentType::Text(4), SegmentContentType::Char];
    let layout = SegmentedLayout::default_font(&segments);
    // 4 glyphs of 8 pixels plus 12 pixels of padding on both sides
    assert_eq!(layout.segment_widths, vec![56, 40]);
    assert_eq!(layout.content_width, 96);
    // content plus a border of 1 and a shadow padding of 6 on both sides
    assert_eq!(layout.total_width, 110);
    assert_eq!(layout.total_height, 54);
    assert_eq!(layout.content_start_x(), 7);
    assert_eq!(layout.content_start_y(), 7);
    assert_eq!(layout.content_height(), 40);
    assert_eq!(layout.segment_x(0), 7);
    assert_eq!(layout.segment_x(1), 63);
    assert_eq!(layout.segment_x(5), 103);
    assert_eq!(layout.segment_width(1), 40);
    assert_eq!(layout.segment_width(2), 0);
    assert_eq!(layout.preview_magnify, 2);
    assert_eq!(layout.preview_glyph_size(), (16, 32));
}

#[test]
fn layout_with_a_font() {
    let segments = vec![SegmentContentType::Text(3), SegmentContentType::Char];
    let layout = SegmentedLayout::new(&segments, Some((9, 14)));
    assert_eq!(layout.segment_widths, vec![51, 42]);
    assert_eq!(layout.font_width, 9);
    assert_eq!(layout.font_height, 14);
    // 32 / 14 rounded down
    assert_eq!(layout.preview_magnify, 2);
    let tall = SegmentedLayout::new(&segments, Some((8, 40)));
    assert_eq!(tall.preview_magnify, 1);
}

#[test]
fn every_pixel_of_a_segment_hits_it() {
    let segments = vec![SegmentContentType::Text(2), SegmentContentType::Char, SegmentContentType::Text(5)];
    let layout = SegmentedLayout::default_font(&segments);
    for i in 0..3usize {
        let x0 = layout.segment_x(i);
        for d in 0..layout.segment_width(i) {
            assert_eq!(layout.hit_test(x0 + d, 7), Some(i));
            assert_eq!(layout.hit_test(x0 + d, 46), Some(i));
        }
    }
    let end = layout.content_start_x() + layout.content_width;
    assert_eq!(layout.hit_test(end, 20), None);
    assert_eq!(layout.hit_test(end - 1, 20), Some(2));
    assert_eq!(layout.hit_test(6, 20), None);
    // above and below the content rows
    assert_eq!(layout.hit_test(10, 6), None);
    assert_eq!(layout.hit_test(10, 47), None);
    assert_eq!(layout.hit_test(10, -100), None);
    assert_eq!(layout.hit_test_uniform(6, 20), NO_HOVER);
    assert_eq!(layout.hit_test_uniform(7, 20), 0);
    assert_eq!(layout.hit_test_uniform(7, 0), NO_HOVER);
}

#[test]
fn segment_at_x_scans_widths() {
    let widths = vec![10, 20];
    assert_eq!(segment_at_x(6, &widths), None);
    assert_eq!(segment_at_x(7, &widths), Some(0));
    assert_eq!(segment_at_x(16, &widths), Some(0));
    assert_eq!(segment_at_x(17, &widths), Some(1));
    assert_eq!(segment_at_x(36, &widths), Some(1));
    assert_eq!(segment_at_x(37, &widths), None);
}

#[test]
fn segment_widths_count_characters() {
    assert_eq!(text_segment_width("Test", None), 56);
    assert_eq!(text_segment_width("äöü", None), 48);
    assert_eq!(text_segment_width("Test", Some((9, 16))), 60);
    assert_eq!(char_segment_width(None), 40);
    assert_eq!(char_segment_width(Some((9, 16))), 42);
    let seg = Segment::text("Abc".to_string(), 1usize);
    assert_eq!(calculate_segment_width(&seg, None), 48);
    let seg = Segment::char('A', 2usize);
    assert_eq!(calculate_segment_width(&seg, Some((10, 16))), 44);
    assert_eq!(SegmentContent::text("äb".to_string()).to_layout_type(), SegmentContentType::Text(2));
    assert_eq!(SegmentContent::char('x').to_layout_type(), SegmentContentType::Char);
}

#[test]
fn selection_masks() {
    assert_eq!(selected_mask_from_indices(&[0, 3, 9]), 0b1001);
    assert_eq!(selected_mask_from_indices(&[]), 0);
    assert_eq!(selected_mask_from_indices(&[7, 7]), 0b1000_0000);
    assert_eq!(single_selection_mask(2), 4);
}

#[test]
fn clicks_on_segments() {
    let segments = vec![Segment::text("A".to_string(), 10usize), Segment::char('B', 20usize)];
    assert_eq!(segment_click(&segments, 0, 1, false), Some(SegmentedControlMessage::Selected(10)));
    assert_eq!(segment_click(&segments, 1, 1, false), Some(SegmentedControlMessage::CharClicked(20)));
    assert_eq!(segment_click(&segments, 1, 0, false), Some(SegmentedControlMessage::Selected(20)));
    assert_eq!(segment_click(&segments, 1, 1, true), Some(SegmentedControlMessage::Toggled(20)));
    assert_eq!(segment_click(&segments, 2, 0, false), None);
}

#[test]
fn hover_changes_ask_for_redraw() {
    let mut control = ShaderSegmentedControl::new();
    assert_eq!(control.hovered_index, NO_HOVER);
    assert!(control.set_hover(Some(1)));
    assert!(!control.set_hover(Some(1)));
    assert!(control.set_hover(None));
    assert_eq!(control.hovered_index, NO_HOVER);
    control.clear_cache();
    assert_eq!(control.hovered_index, NO_HOVER);
}

#[test]
fn glyph_and_text_placement() {
    let segments = vec![SegmentContentType::Text(4), SegmentContentType::Char];
    let layout = SegmentedLayout::default_font(&segments);
    assert_eq!(layout.text_y(), 19);
    assert_eq!(layout.preview_glyph_y(), 11);
    assert_eq!(layout.preview_glyph_x_centered(0), 27);
    assert_eq!(layout.preview_glyph_x_centered(1), 75);
    assert_eq!(layout.segment_rect(1), (63, 7, 40, 40));
    // a glyph taller than the content is centered by rounding down
    let tall = SegmentedLayout::new(&segments, Some((8, 45)));
    assert_eq!(tall.text_y(), 4);
    assert_eq!(tall.preview_glyph_y(), 4);
}

fn cp437_table() -> Vec<char> {
    let mut table: Vec<char> = (0u32..128).map(|i| char::from_u32(i).unwrap()).collect();
    table.extend(['Ç', 'ü', 'é']);
    table.resize(256, ' ');
    table
}

fn g(segment: usize, column: usize, glyph: u32, role: GlyphRole) -> SegmentGlyph {
    SegmentGlyph { segment, column, glyph, role }
}

#[test]
fn glyphs_of_the_control() {
    let segments = vec![Segment::text("Ab".to_string(), 0usize), Segment::char('é', 1usize)];
    let table = cp437_table();
    let bg = g(0, 0, 0, GlyphRole::Background);
    let label = |selected: bool| GlyphRole::Label { selected };
    let glyphs = segment_glyphs(&segments, &vec![40, 40], 0b10, 1, true, &table);
    assert_eq!(
        glyphs,
        vec![
            bg,
            g(0, 0, 65, GlyphRole::Shadow),
            g(0, 0, 65, label(false)),
            g(0, 1, 98, GlyphRole::Shadow),
            g(0, 1, 98, label(false)),
            g(1, 0, 130, GlyphRole::CaretColors),
        ]
    );
    let glyphs = segment_glyphs(&segments, &vec![40, 40], 0b10, 1, false, &table);
    assert_eq!(&glyphs[5..], &[g(1, 0, 130, GlyphRole::Shadow), g(1, 0, 130, label(true))]);
    let glyphs = segment_glyphs(&segments, &vec![0, 40], 0b01, 0, true, &table);
    assert_eq!(glyphs, vec![bg, g(1, 0, 130, GlyphRole::Shadow), g(1, 0, 130, label(false))]);
    let glyphs = segment_glyphs(&segments, &vec![40], 0b01, 0, true, &table);
    assert_eq!(glyphs.len(), 5);
    assert_eq!(glyphs[2], g(0, 0, 65, label(true)));
}
