use vstd::prelude::*;

use crate::glyph_atlas::{cp437_index, spec_cp437_index};
use crate::text::collect_chars;

verus! {

broadcast use vstd::string::group_string_axioms;

// ---------------------------------------------------------------------------
// Layout constants (logical pixels)
// ---------------------------------------------------------------------------

/// Height of the top toolbar controls.
pub const TOP_CONTROL_HEIGHT: i64 = 42;
/// Extra room around the top toolbar controls for their drop shadow.
pub const TOP_CONTROL_SHADOW_PADDING: i64 = 6;
/// Horizontal padding inside each segment.
pub const SEGMENT_PADDING_H: i64 = 12;
/// Segment height (control area, excluding shadow).
pub const SEGMENT_HEIGHT: i64 = TOP_CONTROL_HEIGHT;
/// Corner radius for rounded rectangles.
pub const CORNER_RADIUS: i64 = 6;
/// Border width.
pub const BORDER_WIDTH: i64 = 1;
/// Extra padding around the control for the drop shadow.
pub const SHADOW_PADDING: i64 = TOP_CONTROL_SHADOW_PADDING;
/// Preview glyph height for Char segments.
pub const PREVIEW_GLYPH_HEIGHT: i64 = 32;
/// Maximum number of segments supported.
pub const MAX_SEGMENTS: usize = 8;
/// Marker value for "no hover".
pub const NO_HOVER: u32 = 0xFFFF_FFFF;
/// Magnification factor for Char segments.
pub const CHAR_MAGNIFICATION: i64 = 2;

/// Glyph size of the default 8x16 font.
pub const DEFAULT_FONT_WIDTH: i32 = 8;
pub const DEFAULT_FONT_HEIGHT: i32 = 16;

// ---------------------------------------------------------------------------
// Segment content
// ---------------------------------------------------------------------------

/// Segment content type for width calculation.
#[derive(Debug, Clone, Copy, PartialEq, Eq, Structural)]
pub enum SegmentContentType {
    /// Text label with character count.
    Text(usize),
    /// Single character (rendered larger).
    Char,
}

/// Segment content.
#[derive(Debug, Clone)]
pub enum SegmentContent {
    /// Text label
    Text(String),
    /// Single character (rendered larger, can have a popup)
    Char(char),
}

impl SegmentContent {
    pub fn text(s: String) -> (r: SegmentContent)
        ensures
            r matches SegmentContent::Text(t) && t == s,
    {
        SegmentContent::Text(s)
    }

    pub fn char(c: char) -> (r: SegmentContent)
        ensures
            r matches SegmentContent::Char(d) && d == c,
    {
        SegmentContent::Char(c)
    }

    /// The content type for width calculation: a text counts its characters.
    pub fn to_layout_type(&self) -> (r: SegmentContentType)
        ensures
            match *self {
                SegmentContent::Text(s) => r == SegmentContentType::Text(s@.len() as usize),
                SegmentContent::Char(_) => r == SegmentContentType::Char,
            },
    {
        match self {
            SegmentContent::Text(s) => SegmentContentType::Text(s.as_str().unicode_len()),
            SegmentContent::Char(_) => SegmentContentType::Char,
        }
    }
}

/// Segment definition.
#[derive(Debug, Clone)]
pub struct Segment<T> {
    pub content: SegmentContent,
    pub value: T,
}

impl<T> Segment<T> {
    pub fn new(content: SegmentContent, value: T) -> (r: Segment<T>)
        ensures
            r.content == content,
            r.value == value,
    {
        Segment { content, value }
    }

    pub fn text(label: String, value: T) -> (r: Segment<T>)
        ensures
            r.content matches SegmentContent::Text(t) && t == label,
            r.value == value,
    {
        Segment::new(SegmentContent::text(label), value)
    }

    pub fn char(c: char, value: T) -> (r: Segment<T>)
        ensures
            r.content matches SegmentContent::Char(d) && d == c,
            r.value == value,
    {
        Segment::new(SegmentContent::Char(c), value)
    }
}

/// Messages from the segmented control.
#[derive(Debug, Clone, PartialEq, Eq, Structural)]
pub enum SegmentedControlMessage<T> {
    /// Selected a segment (single-select mode, replaces the current selection)
    Selected(T),
    /// Toggled a segment (multi-select mode)
    Toggled(T),
    /// Clicked on a char segment that is already selected (for its popup)
    CharClicked(T),
}

// ---------------------------------------------------------------------------
// Widths
// ---------------------------------------------------------------------------

/// The glyph width of an optional font (the default font is 8 wide).
pub open spec fn font_width_of(font: Option<(i32, i32)>) -> int {
    match font {
        Some(size) => size.0 as int,
        None => DEFAULT_FONT_WIDTH as int,
    }
}

/// The glyph height of an optional font (the default font is 16 high).
pub open spec fn font_height_of(font: Option<(i32, i32)>) -> int {
    match font {
        Some(size) => size.1 as int,
        None => DEFAULT_FONT_HEIGHT as int,
    }
}

/// The width of a segment: its content (text at one glyph per character, a
/// char magnified twice) plus padding on both sides.
pub open spec fn spec_segment_width(content: SegmentContentType, font_width: int) -> int {
    let inner = match content {
        SegmentContentType::Text(n) => n * font_width,
        SegmentContentType::Char => font_width * CHAR_MAGNIFICATION,
    };
    inner + SEGMENT_PADDING_H * 2
}

/// The widths of all segments.
pub open spec fn spec_segment_widths(segments: Seq<SegmentContentType>, font_width: int) -> Seq<int> {
    segments.map_values(|c: SegmentContentType| spec_segment_width(c, font_width))
}

/// The sum of a sequence of integers.
pub open spec fn sum_of(s: Seq<int>) -> int
    decreases s.len(),
{
    if s.len() == 0 {
        0
    } else {
        sum_of(s.drop_last()) + s.last()
    }
}

/// Whether a segment's width fits comfortably in an `i64`.
pub open spec fn width_fits(content: SegmentContentType, font_width: int) -> bool {
    -0x100_0000_0000 <= spec_segment_width(content, font_width) <= 0x100_0000_0000
}

/// Width of one segment.
pub fn segment_content_width(content: SegmentContentType, font_width: i32) -> (r: i64)
    requires
        width_fits(content, font_width as int),
    ensures
        r == spec_segment_width(content, font_width as int),
{
    let inner: i128 = match content {
        SegmentContentType::Text(n) => {
            assert(-0x8000_0000 <= font_width < 0x8000_0000);
            assert(-0x1_0000_0000_0000_0000_0000_0000 <= n as int * font_width as int
                <= 0x1_0000_0000_0000_0000_0000_0000) by (nonlinear_arith)
                requires
                    0 <= n <= usize::MAX,
                    -0x8000_0000 <= font_width < 0x8000_0000,
            ;
            n as i128 * font_width as i128
        },
        SegmentContentType::Char => font_width as i128 * 2,
    };
    (inner + 24) as i64
}

/// Calculate segment width for a text segment.
pub fn text_segment_width(text: &str, font: Option<(i32, i32)>) -> (r: i64)
    requires
        width_fits(SegmentContentType::Text(text@.len() as usize), font_width_of(font)),
    ensures
        r == spec_segment_width(SegmentContentType::Text(text@.len() as usize), font_width_of(font)),
{
    let font_width = match font {
        Some(size) => size.0,
        None => DEFAULT_FONT_WIDTH,
    };
    let n = text.unicode_len();
    segment_content_width(SegmentContentType::Text(n), font_width)
}

/// Calculate segment width for a char segment.
pub fn char_segment_width(font: Option<(i32, i32)>) -> (r: i64)
    ensures
        r == spec_segment_width(SegmentContentType::Char, font_width_of(font)),
{
    let font_width = match font {
        Some(size) => size.0,
        None => DEFAULT_FONT_WIDTH,
    };
    segment_content_width(SegmentContentType::Char, font_width)
}

/// The width of a segment of the control.
pub fn calculate_segment_width<T>(segment: &Segment<T>, font: Option<(i32, i32)>) -> (r: i64)
    requires
        match segment.content {
            SegmentContent::Text(s) => width_fits(SegmentContentType::Text(s@.len() as usize), font_width_of(font)),
            SegmentContent::Char(_) => true,
        },
    ensures
        match segment.content {
            SegmentContent::Text(s) => r == spec_segment_width(
                SegmentContentType::Text(s@.len() as usize),
                font_width_of(font),
            ),
            SegmentContent::Char(_) => r == spec_segment_width(SegmentContentType::Char, font_width_of(font)),
        },
{
    let font_width = match font {
        Some(size) => size.0,
        None => DEFAULT_FONT_WIDTH,
    };
    segment_content_width(segment.content.to_layout_type(), font_width)
}

// ---------------------------------------------------------------------------
// Hit testing
// ---------------------------------------------------------------------------

/// Scanning the segments from `i` on, `acc` being where segment `i`
/// starts: the first segment whose span holds `local`.
pub open spec fn scan_hit(widths: Seq<int>, local: int, i: int, acc: int) -> Option<int>
    decreases widths.len() - i,
{
    if i < 0 || i >= widths.len() {
        None
    } else if acc <= local < acc + widths[i] {
        Some(i)
    } else {
        scan_hit(widths, local, i + 1, acc + widths[i])
    }
}

proof fn lemma_scan_hit_range(widths: Seq<int>, local: int, i: int, acc: int)
    ensures
        scan_hit(widths, local, i, acc) matches Some(k) ==> 0 <= k < widths.len(),
    decreases widths.len() - i,
{
    if 0 <= i < widths.len() && !(acc <= local < acc + widths[i]) {
        lemma_scan_hit_range(widths, local, i + 1, acc + widths[i]);
    }
}

/// The segment at content offset `local` (left of the content: none).
pub open spec fn spec_hit(widths: Seq<int>, local: int) -> Option<int> {
    if local < 0 {
        None
    } else {
        scan_hit(widths, local, 0, 0)
    }
}

/// Where segment content starts, from the widget's left edge.
pub open spec fn content_start() -> int {
    SHADOW_PADDING + BORDER_WIDTH
}

/// The widths as integers.
pub open spec fn ints_of(v: Seq<i64>) -> Seq<int> {
    v.map_values(|w: i64| w as int)
}

/// Whether every partial sum of the widths stays well inside `i64`.
pub open spec fn widths_bounded(v: Seq<i64>) -> bool {
    v.len() <= 0x1_0000 && forall|i: int| 0 <= i < v.len() ==> -0x100_0000_0000 <= #[trigger] v[i] <= 0x100_0000_0000
}

/// Find which segment contains widget-local x coordinate `x` (rounded down
/// to whole pixels).
pub fn segment_at_x(x: i64, segment_widths: &Vec<i64>) -> (r: Option<usize>)
    requires
        widths_bounded(segment_widths@),
    ensures
        match spec_hit(ints_of(segment_widths@), x - content_start()) {
            Some(i) => r == Some(i as usize) && 0 <= i < segment_widths@.len(),
            None => r is None,
        },
{
    proof {
        lemma_scan_hit_range(ints_of(segment_widths@), x - content_start(), 0, 0);
    }
    let local = x as i128 - (SHADOW_PADDING + BORDER_WIDTH) as i128;
    if local < 0 {
        return None;
    }
    let ghost w = ints_of(segment_widths@);
    let mut seg_x: i128 = 0;
    let mut idx: usize = 0;
    while idx < segment_widths.len()
        invariant
            w == ints_of(segment_widths@),
            widths_bounded(segment_widths@),
            0 <= idx <= segment_widths@.len(),
            local == x - content_start(),
            local >= 0,
            -0x100_0000_0000 * idx <= seg_x <= 0x100_0000_0000 * idx,
            scan_hit(w, local as int, idx as int, seg_x as int) == scan_hit(w, local as int, 0, 0),
        decreases segment_widths@.len() - idx,
    {
        let width = segment_widths[idx];
        assert(w[idx as int] == width as int);
        if local >= seg_x && local < seg_x + width as i128 {
            return Some(idx);
        }
        seg_x = seg_x + width as i128;
        idx = idx + 1;
    }
    None
}

/// Half of `x`, rounded down.
fn floor_half(x: i64) -> (r: i64)
    requires
        -0x4000_0000_0000_0000 <= x <= 0x4000_0000_0000_0000,
    ensures
        r == x / 2,
{
    if x >= 0 {
        x / 2
    } else {
        let r = -((-x + 1) / 2);
        assert(r == x / 2) by (nonlinear_arith)
            requires
                x < 0,
                r == -((-x + 1) / 2),
        ;
        r
    }
}

/// Partial sums of widths bounded as `widths_bounded` says stay bounded.
proof fn lemma_sum_take_bounded(widths: Seq<int>, k: int)
    requires
        0 <= k <= widths.len(),
        forall|i: int| 0 <= i < widths.len() ==> -0x100_0000_0000 <= #[trigger] widths[i] <= 0x100_0000_0000,
    ensures
        -0x100_0000_0000 * k <= sum_of(widths.take(k)) <= 0x100_0000_0000 * k,
    decreases k,
{
    if k > 0 {
        lemma_sum_take_bounded(widths, k - 1);
        assert(widths.take(k).drop_last() =~= widths.take(k - 1));
    }
}

// ---------------------------------------------------------------------------
// Layout
// ---------------------------------------------------------------------------

/// Whether a font is usable for layout (its height is not zero).
pub open spec fn font_ok(font: Option<(i32, i32)>) -> bool {
    match font {
        Some(size) => size.1 != 0,
        None => true,
    }
}

/// How often the preview glyph is magnified: the largest whole factor that
/// keeps it within the preview height, at least one.
pub open spec fn spec_preview_magnify(font_height: int) -> int {
    if font_height > 0 && (PREVIEW_GLYPH_HEIGHT as int) / font_height >= 1 {
        (PREVIEW_GLYPH_HEIGHT as int) / font_height
    } else {
        1
    }
}

/// Pre-computed layout for a segmented control, in logical pixels.
#[derive(Debug, Clone)]
pub struct SegmentedLayout {
    /// Width of each segment.
    pub segment_widths: Vec<i64>,
    /// Total widget width (including shadow padding).
    pub total_width: i64,
    /// Total widget height (including shadow padding).
    pub total_height: i64,
    /// Content width (sum of segment widths).
    pub content_width: i64,
    /// Font glyph width.
    pub font_width: i64,
    /// Font glyph height.
    pub font_height: i64,
    /// Preview glyph magnification factor.
    pub preview_magnify: i64,
}

/// Whether all segment widths fit.
pub open spec fn segments_fit(segments: Seq<SegmentContentType>, font_width: int) -> bool {
    segments.len() <= 0x1_0000 && forall|i: int| 0 <= i < segments.len() ==> width_fits(#[trigger] segments[i], font_width)
}

impl SegmentedLayout {
    /// The layout's widths as integers.
    pub open spec fn widths(self) -> Seq<int> {
        ints_of(self.segment_widths@)
    }

    /// Where segment `idx` starts.
    pub open spec fn spec_segment_x(self, idx: int) -> int {
        content_start() + sum_of(self.widths().take(if idx <= self.widths().len() {
            idx
        } else {
            self.widths().len() as int
        }))
    }

    /// The width of segment `idx` (zero past the last segment).
    pub open spec fn spec_segment_width(self, idx: int) -> int {
        if 0 <= idx < self.widths().len() {
            self.widths()[idx]
        } else {
            0
        }
    }

    /// Whether row `y` lies in the content area, between the top and bottom
    /// borders.
    pub open spec fn in_content_rows(self, y: int) -> bool {
        content_start() <= y < content_start() + (self.total_height - SHADOW_PADDING * 2 - BORDER_WIDTH * 2)
    }

    /// The segment under point `(x, y)`: the one whose span holds `x`, if
    /// `y` lies in the content rows.
    pub open spec fn spec_hit_at(self, x: int, y: int) -> Option<int> {
        if self.in_content_rows(y) {
            spec_hit(self.widths(), x - content_start())
        } else {
            None
        }
    }

    /// The layout's invariant: the widths are bounded, the font size fits
    /// an `i32` and the magnification lies between one and the preview height.
    pub open spec fn well_formed(self) -> bool {
        &&& widths_bounded(self.segment_widths@)
        &&& i32::MIN <= self.font_width <= i32::MAX
        &&& i32::MIN <= self.font_height <= i32::MAX
        &&& 1 <= self.preview_magnify <= PREVIEW_GLYPH_HEIGHT
    }

    /// Create a layout from segment content types and an optional font size
    /// (glyph width, glyph height).
    pub fn new(segments: &Vec<SegmentContentType>, font: Option<(i32, i32)>) -> (r: SegmentedLayout)
        requires
            font_ok(font),
            segments_fit(segments@, font_width_of(font)),
        ensures
            r.well_formed(),
            r.widths() == spec_segment_widths(segments@, font_width_of(font)),
            r.content_width == sum_of(r.widths()),
            r.total_width == r.content_width + BORDER_WIDTH * 2 + SHADOW_PADDING * 2,
            r.total_height == SEGMENT_HEIGHT + SHADOW_PADDING * 2,
            r.font_width == font_width_of(font),
            r.font_height == font_height_of(font),
            r.preview_magnify == spec_preview_magnify(font_height_of(font)),
    {
        let (fw, fh): (i32, i32) = match font {
            Some(size) => size,
            None => (DEFAULT_FONT_WIDTH, DEFAULT_FONT_HEIGHT),
        };
        let preview_magnify: i64 = if fh > 0 && PREVIEW_GLYPH_HEIGHT / (fh as i64) >= 1 {
            PREVIEW_GLYPH_HEIGHT / (fh as i64)
        } else {
            1
        };
        let ghost target = spec_segment_widths(segments@, fw as int);
        let mut widths: Vec<i64> = Vec::new();
        let mut total: i64 = 0;
        let mut i: usize = 0;
        while i < segments.len()
            invariant
                0 <= i <= segments@.len(),
                segments_fit(segments@, fw as int),
                target == spec_segment_widths(segments@, fw as int),
                widths@.len() == i,
                forall|k: int| 0 <= k < i ==> #[trigger] widths@[k] == target[k],
                total == sum_of(ints_of(widths@)),
                -0x100_0000_0000 * i <= total <= 0x100_0000_0000 * i,
            decreases segments@.len() - i,
        {
            assert(width_fits(segments@[i as int], fw as int));
            let w = segment_content_width(segments[i], fw);
            let ghost before = widths@;
            widths.push(w);
            assert(ints_of(widths@).drop_last() =~= ints_of(before));
            total = total + w;
            i = i + 1;
        }
        assert(ints_of(widths@) =~= target);
        SegmentedLayout {
            segment_widths: widths,
            total_width: total + BORDER_WIDTH * 2 + SHADOW_PADDING * 2,
            total_height: SEGMENT_HEIGHT + SHADOW_PADDING * 2,
            content_width: total,
            font_width: fw as i64,
            font_height: fh as i64,
            preview_magnify,
        }
    }

    /// Create a layout with the default 8x16 font.
    pub fn default_font(segments: &Vec<SegmentContentType>) -> (r: SegmentedLayout)
        requires
            segments_fit(segments@, DEFAULT_FONT_WIDTH as int),
        ensures
            r.well_formed(),
            r.widths() == spec_segment_widths(segments@, DEFAULT_FONT_WIDTH as int),
            r.content_width == sum_of(r.widths()),
            r.total_width == r.content_width + BORDER_WIDTH * 2 + SHADOW_PADDING * 2,
            r.total_height == SEGMENT_HEIGHT + SHADOW_PADDING * 2,
            r.font_width == DEFAULT_FONT_WIDTH,
            r.font_height == DEFAULT_FONT_HEIGHT,
            r.preview_magnify == 2,
    {
        assert(PREVIEW_GLYPH_HEIGHT / 16 == 2);
        assert(spec_preview_magnify(DEFAULT_FONT_HEIGHT as int) == 2);
        SegmentedLayout::new(segments, None)
    }

    /// The X offset where content starts (after shadow and border).
    pub fn content_start_x(&self) -> (r: i64)
        ensures
            r == content_start(),
    {
        SHADOW_PADDING + BORDER_WIDTH
    }

    /// The Y offset where content starts.
    pub fn content_start_y(&self) -> (r: i64)
        ensures
            r == content_start(),
    {
        SHADOW_PADDING + BORDER_WIDTH
    }

    /// The content height (excluding shadow and border).
    pub fn content_height(&self) -> (r: i64)
        requires
            self.total_height == SEGMENT_HEIGHT + SHADOW_PADDING * 2,
        ensures
            r == SEGMENT_HEIGHT - BORDER_WIDTH * 2,
    {
        self.total_height - SHADOW_PADDING * 2 - BORDER_WIDTH * 2
    }

    /// The X offset of segment `idx`: the content start plus the widths of
    /// the segments before it.
    pub fn segment_x(&self, idx: usize) -> (r: i64)
        requires
            self.well_formed(),
        ensures
            r == self.spec_segment_x(idx as int),
    {
        let mut x: i64 = SHADOW_PADDING + BORDER_WIDTH;
        let mut i: usize = 0;
        let n = if idx <= self.segment_widths.len() {
            idx
        } else {
            self.segment_widths.len()
        };
        assert(self.widths().take(0) =~= Seq::<int>::empty());
        while i < n
            invariant
                self.well_formed(),
                0 <= i <= n,
                n <= self.segment_widths@.len(),
                x == content_start() + sum_of(self.widths().take(i as int)),
                -0x100_0000_0000 * i <= x - content_start() <= 0x100_0000_0000 * i,
            decreases n - i,
        {
            assert(self.widths().take(i + 1).drop_last() =~= self.widths().take(i as int));
            x = x + self.segment_widths[i];
            i = i + 1;
        }
        x
    }

    /// The width of segment `idx` (zero past the last segment).
    pub fn segment_width(&self, idx: usize) -> (r: i64)
        ensures
            r == self.spec_segment_width(idx as int),
    {
        if idx < self.segment_widths.len() {
            self.segment_widths[idx]
        } else {
            0
        }
    }

    /// Preview glyph dimensions: the glyph magnified.
    pub fn preview_glyph_size(&self) -> (r: (i64, i64))
        requires
            self.well_formed(),
        ensures
            r.0 == self.font_width * self.preview_magnify,
            r.1 == self.font_height * self.preview_magnify,
            -0x100_0000_0000 <= r.0 <= 0x100_0000_0000,
            -0x100_0000_0000 <= r.1 <= 0x100_0000_0000,
    {
        assert(-0x100_0000_0000 <= self.font_width * self.preview_magnify <= 0x100_0000_0000) by (nonlinear_arith)
            requires
                i32::MIN <= self.font_width <= i32::MAX,
                1 <= self.preview_magnify <= 32,
        ;
        assert(-0x100_0000_0000 <= self.font_height * self.preview_magnify <= 0x100_0000_0000) by (nonlinear_arith)
            requires
                i32::MIN <= self.font_height <= i32::MAX,
                1 <= self.preview_magnify <= 32,
        ;
        (self.font_width * self.preview_magnify, self.font_height * self.preview_magnify)
    }

    /// The rectangle (x, y, width, height) of segment `idx`.
    pub fn segment_rect(&self, idx: usize) -> (r: (i64, i64, i64, i64))
        requires
            self.well_formed(),
            self.total_height == SEGMENT_HEIGHT + SHADOW_PADDING * 2,
        ensures
            r == (
                self.spec_segment_x(idx as int) as i64,
                content_start() as i64,
                self.spec_segment_width(idx as int) as i64,
                (SEGMENT_HEIGHT - BORDER_WIDTH * 2) as i64,
            ),
    {
        (self.segment_x(idx), self.content_start_y(), self.segment_width(idx), self.content_height())
    }

    /// The Y offset that centers text in the content area.
    pub fn text_y(&self) -> (r: i64)
        requires
            self.well_formed(),
            self.total_height == SEGMENT_HEIGHT + SHADOW_PADDING * 2,
        ensures
            r == content_start() + (SEGMENT_HEIGHT - BORDER_WIDTH * 2 - self.font_height) / 2,
    {
        let content_y = self.content_start_y();
        let content_h = self.content_height();
        content_y + floor_half(content_h - self.font_height)
    }

    /// The Y offset that centers the preview glyph in the content area.
    pub fn preview_glyph_y(&self) -> (r: i64)
        requires
            self.well_formed(),
            self.total_height == SEGMENT_HEIGHT + SHADOW_PADDING * 2,
        ensures
            r == content_start() + (SEGMENT_HEIGHT - BORDER_WIDTH * 2 - self.font_height * self.preview_magnify) / 2,
    {
        let content_y = self.content_start_y();
        let content_h = self.content_height();
        let (_, glyph_h) = self.preview_glyph_size();
        content_y + floor_half(content_h - glyph_h)
    }

    /// The X offset that centers the preview glyph in segment `idx`.
    pub fn preview_glyph_x_centered(&self, idx: usize) -> (r: i64)
        requires
            self.well_formed(),
        ensures
            r == self.spec_segment_x(idx as int) + (self.spec_segment_width(idx as int) - self.font_width
                * self.preview_magnify) / 2,
    {
        proof {
            let n = if idx <= self.widths().len() {
                idx as int
            } else {
                self.widths().len() as int
            };
            lemma_sum_take_bounded(self.widths(), n);
            let t = sum_of(self.widths().take(n));
            assert(-0x100_0000_0000_0000 <= t <= 0x100_0000_0000_0000) by (nonlinear_arith)
                requires
                    0 <= n <= 0x1_0000,
                    -0x100_0000_0000 * n <= t <= 0x100_0000_0000 * n,
            ;
        }
        let seg_x = self.segment_x(idx);
        let seg_w = self.segment_width(idx);
        let (glyph_w, _) = self.preview_glyph_size();
        seg_x + floor_half(seg_w - glyph_w)
    }

    /// Find which segment contains the widget-local point `(x, y)` (rounded
    /// down to whole pixels): `None` unless the point lies within a segment.
    pub fn hit_test(&self, x: i64, y: i64) -> (r: Option<usize>)
        requires
            self.well_formed(),
        ensures
            match self.spec_hit_at(x as int, y as int) {
                Some(i) => r == Some(i as usize) && 0 <= i < self.widths().len(),
                None => r is None,
            },
    {
        let top: i128 = (SHADOW_PADDING + BORDER_WIDTH) as i128;
        let bottom: i128 = top + (self.total_height as i128 - (SHADOW_PADDING * 2 + BORDER_WIDTH * 2) as i128);
        if (y as i128) < top || (y as i128) >= bottom {
            return None;
        }
        segment_at_x(x, &self.segment_widths)
    }

    /// Hit test, as the GPU uniform represents it (`NO_HOVER` for none).
    pub fn hit_test_uniform(&self, x: i64, y: i64) -> (r: u32)
        requires
            self.well_formed(),
        ensures
            match self.spec_hit_at(x as int, y as int) {
                Some(i) => r == i as u32,
                None => r == NO_HOVER,
            },
    {
        match self.hit_test(x, y) {
            Some(i) => {
                assert(self.widths().len() == self.segment_widths@.len());
                assert(i < 0x1_0000);
                i as u32
            },
            None => NO_HOVER,
        }
    }
}

// ---------------------------------------------------------------------------
// Hit testing agrees with the layout
// ---------------------------------------------------------------------------

/// Whether every width is positive.
pub open spec fn all_positive(widths: Seq<int>) -> bool {
    forall|i: int| 0 <= i < widths.len() ==> #[trigger] widths[i] > 0
}

proof fn lemma_sum_take_step(widths: Seq<int>, k: int)
    requires
        0 <= k < widths.len(),
    ensures
        sum_of(widths.take(k + 1)) == sum_of(widths.take(k)) + widths[k],
{
    assert(widths.take(k + 1).drop_last() =~= widths.take(k));
}

proof fn lemma_sum_take_monotone(widths: Seq<int>, j: int, k: int)
    requires
        all_positive(widths),
        0 <= j <= k <= widths.len(),
    ensures
        sum_of(widths.take(j)) <= sum_of(widths.take(k)),
    decreases k - j,
{
    if j < k {
        lemma_sum_take_monotone(widths, j, k - 1);
        lemma_sum_take_step(widths, k - 1);
    }
}

proof fn lemma_scan_finds(widths: Seq<int>, i: int, d: int, j: int)
    requires
        all_positive(widths),
        0 <= j <= i < widths.len(),
        0 <= d < widths[i],
    ensures
        scan_hit(widths, sum_of(widths.take(i)) + d, j, sum_of(widths.take(j))) == Some(i),
    decreases i - j,
{
    if j < i {
        lemma_sum_take_step(widths, j);
        lemma_sum_take_monotone(widths, j + 1, i);
        lemma_scan_finds(widths, i, d, j + 1);
    }
}

proof fn lemma_scan_misses(widths: Seq<int>, local: int, j: int)
    requires
        all_positive(widths),
        0 <= j <= widths.len(),
        local >= sum_of(widths),
    ensures
        scan_hit(widths, local, j, sum_of(widths.take(j))) is None,
    decreases widths.len() - j,
{
    if j < widths.len() {
        lemma_sum_take_step(widths, j);
        lemma_sum_take_monotone(widths, j + 1, widths.len() as int);
        assert(widths.take(widths.len() as int) =~= widths);
        lemma_scan_misses(widths, local, j + 1);
    }
}

/// A point inside a segment's rectangle, as `segment_x`, `segment_width`
/// and the content rows lay it out, hits that segment. (A segment of width
/// zero cannot be hit, so the widths are taken positive.)
pub proof fn lemma_hit_inside_segment(layout: SegmentedLayout, i: int, d: int, y: int)
    requires
        all_positive(layout.widths()),
        0 <= i < layout.widths().len(),
        0 <= d < layout.spec_segment_width(i),
        layout.in_content_rows(y),
    ensures
        layout.spec_hit_at(layout.spec_segment_x(i) + d, y) == Some(i),
{
    let w = layout.widths();
    assert(w.take(0) =~= Seq::<int>::empty());
    lemma_sum_take_monotone(w, 0, i);
    lemma_scan_finds(w, i, d, 0);
}

/// A point left of the content, at or past the end of the last segment, or
/// above or below the content rows, hits no segment.
pub proof fn lemma_hit_outside_content(layout: SegmentedLayout, x: int, y: int)
    requires
        all_positive(layout.widths()),
        x < content_start() || x >= content_start() + sum_of(layout.widths()) || !layout.in_content_rows(y),
    ensures
        layout.spec_hit_at(x, y) is None,
{
    let w = layout.widths();
    if x >= content_start() && layout.in_content_rows(y) {
        assert(w.take(0) =~= Seq::<int>::empty());
        lemma_scan_misses(w, x - content_start(), 0);
    }
}

// ---------------------------------------------------------------------------
// Selection and clicks
// ---------------------------------------------------------------------------

/// Whether bit `b` of `m` is set.
pub open spec fn bit_set(m: u32, b: u32) -> bool {
    (m >> b) & 1 == 1
}

/// The selection mask of the multi-select control: bit `i` set for each
/// selected index `i` below `MAX_SEGMENTS`.
pub fn selected_mask_from_indices(selected_indices: &[usize]) -> (mask: u32)
    ensures
        forall|b: u32|
            b < 32 ==> (bit_set(mask, b) <==> (b < MAX_SEGMENTS && exists|i: int|
                0 <= i < selected_indices@.len() && selected_indices@[i] == b as usize)),
{
    let mut mask: u32 = 0;
    let mut k: usize = 0;
    assert forall|b: u32| b < 32 implies !bit_set(0u32, b) by {
        assert((0u32 >> b) & 1 == 0) by (bit_vector);
    }
    while k < selected_indices.len()
        invariant
            0 <= k <= selected_indices@.len(),
            forall|b: u32|
                b < 32 ==> (bit_set(mask, b) <==> (b < MAX_SEGMENTS && exists|i: int|
                    0 <= i < k && selected_indices@[i] == b as usize)),
        decreases selected_indices@.len() - k,
    {
        let idx = selected_indices[k];
        let old_mask = mask;
        if idx < MAX_SEGMENTS {
            let bit = idx as u32;
            mask = mask | (1u32 << bit);
            assert forall|b: u32| b < 32 implies (bit_set(mask, b) <==> (bit_set(old_mask, b) || b == bit)) by {
                assert(bit < 8);
                assert(((old_mask | (1u32 << bit)) >> b) & 1 == 1 <==> ((old_mask >> b) & 1 == 1 || b == bit))
                    by (bit_vector)
                    requires
                        bit < 8,
                        b < 32,
                ;
            }
        }
        proof {
            assert forall|b: u32| b < 32 implies (bit_set(mask, b) <==> (b < MAX_SEGMENTS && exists|i: int|
                0 <= i < k + 1 && selected_indices@[i] == b as usize)) by {
                if bit_set(mask, b) && !bit_set(old_mask, b) {
                    assert(selected_indices@[k as int] == b as usize);
                }
                if b < MAX_SEGMENTS && exists|i: int| 0 <= i < k + 1 && selected_indices@[i] == b as usize {
                    let i = choose|i: int| 0 <= i < k + 1 && selected_indices@[i] == b as usize;
                    if i == k {
                        assert(idx == b as usize);
                    }
                }
            }
        }
        k = k + 1;
    }
    mask
}

/// The selection mask of the single-select control: the bit of the
/// selected index.
pub fn single_selection_mask(selected_index: usize) -> (mask: u32)
    requires
        selected_index < 32,
    ensures
        forall|b: u32| b < 32 ==> (bit_set(mask, b) <==> b == selected_index),
{
    let bit = selected_index as u32;
    let mask = 1u32 << bit;
    assert forall|b: u32| b < 32 implies (bit_set(mask, b) <==> b == bit) by {
        assert(((1u32 << bit) >> b) & 1 == 1 <==> b == bit) by (bit_vector)
            requires
                bit < 32,
                b < 32,
        ;
    }
    mask
}

/// The message a click on segment `idx` sends: nothing for a click past the
/// segments; in multi-select mode a toggle; a click on the selected char
/// segment opens its popup; any other click selects.
pub fn segment_click<T: Copy>(segments: &Vec<Segment<T>>, idx: usize, selected_index: usize, multi_select: bool) -> (r:
    Option<SegmentedControlMessage<T>>)
    ensures
        idx >= segments@.len() ==> r is None,
        idx < segments@.len() ==> {
            let v = segments@[idx as int].value;
            r == Some(
                if multi_select {
                    SegmentedControlMessage::Toggled(v)
                } else if segments@[idx as int].content is Char && idx == selected_index {
                    SegmentedControlMessage::CharClicked(v)
                } else {
                    SegmentedControlMessage::Selected(v)
                },
            )
        },
{
    if idx >= segments.len() {
        return None;
    }
    let seg = &segments[idx];
    let value = seg.value;
    if multi_select {
        Some(SegmentedControlMessage::Toggled(value))
    } else {
        let is_char = match seg.content {
            SegmentContent::Char(_) => true,
            SegmentContent::Text(_) => false,
        };
        if is_char && idx == selected_index {
            Some(SegmentedControlMessage::CharClicked(value))
        } else {
            Some(SegmentedControlMessage::Selected(value))
        }
    }
}

/// Segmented control state kept between frames: the hovered segment.
#[derive(Debug, Clone, Copy, PartialEq, Eq, Structural)]
pub struct ShaderSegmentedControl {
    /// Hovered segment index (`NO_HOVER` for none)
    pub hovered_index: u32,
}

impl ShaderSegmentedControl {
    pub fn new() -> (r: ShaderSegmentedControl)
        ensures
            r.hovered_index == NO_HOVER,
    {
        ShaderSegmentedControl { hovered_index: NO_HOVER }
    }

    /// Clear the text render cache (the cache is created per view; nothing to do).
    pub fn clear_cache(&mut self)
        ensures
            *final(self) == *old(self),
    {
    }

    /// Record the segment under the cursor; true when it changed and the
    /// control has to be redrawn.
    pub fn set_hover(&mut self, hovered: Option<usize>) -> (redraw: bool)
        ensures
            final(self).hovered_index == match hovered {
                Some(i) => i as u32,
                None => NO_HOVER,
            },
            redraw == (old(self).hovered_index != final(self).hovered_index),
    {
        let new_raw: u32 = match hovered {
            Some(i) => i as u32,
            None => NO_HOVER,
        };
        let old_raw = self.hovered_index;
        self.hovered_index = new_raw;
        old_raw != new_raw
    }
}

impl Default for ShaderSegmentedControl {
    fn default() -> (r: ShaderSegmentedControl)
        ensures
            r.hovered_index == NO_HOVER,
    {
        ShaderSegmentedControl::new()
    }
}

// ---------------------------------------------------------------------------
// The glyphs the control draws
// ---------------------------------------------------------------------------

/// What a glyph drawn by the segmented control is for.
#[derive(Debug, Clone, Copy, PartialEq, Eq, Structural)]
pub enum GlyphRole {
    /// The background covering the whole control
    Background,
    /// The drop shadow under a glyph
    Shadow,
    /// A glyph in the label colour (the selected colour in selected segments)
    Label { selected: bool },
    /// The selected char segment, in the caret's colours over their background
    CaretColors,
}

/// One glyph the control draws: its segment, its column in the segment's
/// text, its atlas code and what it is for. Positions are the renderer's.
#[derive(Debug, Clone, Copy, PartialEq, Eq, Structural)]
pub struct SegmentGlyph {
    pub segment: usize,
    pub column: usize,
    pub glyph: u32,
    pub role: GlyphRole,
}

/// The atlas code a character is drawn with.
pub open spec fn glyph_code(ch: char, table: Seq<char>) -> u32 {
    spec_cp437_index(ch, table) & 0xFF
}

/// The width of segment `idx` (none past the listed widths).
pub open spec fn width_at(widths: Seq<i64>, idx: int) -> int {
    if idx < widths.len() {
        widths[idx] as int
    } else {
        0
    }
}

/// The glyphs of segment `idx`: nothing for a segment without width; for a
/// text, a shadow and a label glyph per character; for a char, the caret
/// coloured glyph when it is the selected segment and caret colours are
/// given, a shadow and a label glyph otherwise.
pub open spec fn spec_segment_glyphs(
    content: SegmentContent,
    idx: int,
    widths: Seq<i64>,
    selected_mask: u32,
    selected_index: usize,
    has_char_colors: bool,
    table: Seq<char>,
) -> Seq<SegmentGlyph> {
    let selected = bit_set(selected_mask, idx as u32);
    if width_at(widths, idx) <= 0 {
        Seq::empty()
    } else {
        match content {
            SegmentContent::Text(t) => Seq::new(
                (2 * t@.len()) as nat,
                |j: int|
                    SegmentGlyph {
                        segment: idx as usize,
                        column: (j / 2) as usize,
                        glyph: glyph_code(t@[j / 2], table),
                        role: if j % 2 == 0 {
                            GlyphRole::Shadow
                        } else {
                            GlyphRole::Label { selected }
                        },
                    },
            ),
            SegmentContent::Char(c) => if has_char_colors && idx == selected_index {
                seq![SegmentGlyph { segment: idx as usize, column: 0, glyph: glyph_code(c, table), role: GlyphRole::CaretColors }]
            } else {
                seq![
                    SegmentGlyph { segment: idx as usize, column: 0, glyph: glyph_code(c, table), role: GlyphRole::Shadow },
                    SegmentGlyph {
                        segment: idx as usize,
                        column: 0,
                        glyph: glyph_code(c, table),
                        role: GlyphRole::Label { selected },
                    },
                ]
            },
        }
    }
}

/// The glyphs of the first `k` segments, after the background.
pub open spec fn spec_glyphs_upto<T>(
    segments: Seq<Segment<T>>,
    widths: Seq<i64>,
    selected_mask: u32,
    selected_index: usize,
    has_char_colors: bool,
    table: Seq<char>,
    k: int,
) -> Seq<SegmentGlyph>
    decreases k,
{
    if k <= 0 {
        seq![SegmentGlyph { segment: 0, column: 0, glyph: 0, role: GlyphRole::Background }]
    } else {
        spec_glyphs_upto(segments, widths, selected_mask, selected_index, has_char_colors, table, k - 1)
            + spec_segment_glyphs(
            segments[k - 1].content,
            k - 1,
            widths,
            selected_mask,
            selected_index,
            has_char_colors,
            table,
        )
    }
}

fn mask_bit(mask: u32, idx: usize) -> (r: bool)
    requires
        idx < 32,
    ensures
        r == bit_set(mask, idx as u32),
{
    let b = idx as u32;
    let r = (mask & (1u32 << b)) != 0;
    assert(((mask & (1u32 << b)) != 0) == ((mask >> b) & 1 == 1)) by (bit_vector)
        requires
            b < 32,
    ;
    r
}

/// The glyphs the control draws, in drawing order: the background, then for
/// each segment its glyphs (see `spec_segment_glyphs`). `table` maps each
/// CP437 code to its Unicode character.
pub fn segment_glyphs<T>(
    segments: &Vec<Segment<T>>,
    segment_widths: &Vec<i64>,
    selected_mask: u32,
    selected_index: usize,
    has_char_colors: bool,
    table: &[char],
) -> (r: Vec<SegmentGlyph>)
    requires
        segments@.len() <= 32,
        table@.len() <= u32::MAX,
    ensures
        r@ == spec_glyphs_upto(
            segments@,
            segment_widths@,
            selected_mask,
            selected_index,
            has_char_colors,
            table@,
            segments@.len() as int,
        ),
{
    let mut out: Vec<SegmentGlyph> = Vec::new();
    out.push(SegmentGlyph { segment: 0, column: 0, glyph: 0, role: GlyphRole::Background });
    let mut idx: usize = 0;
    assert(out@ =~= spec_glyphs_upto(segments@, segment_widths@, selected_mask, selected_index, has_char_colors, table@, 0));
    while idx < segments.len()
        invariant
            0 <= idx <= segments@.len(),
            segments@.len() <= 32,
            table@.len() <= u32::MAX,
            out@ == spec_glyphs_upto(
                segments@,
                segment_widths@,
                selected_mask,
                selected_index,
                has_char_colors,
                table@,
                idx as int,
            ),
        decreases segments@.len() - idx,
    {
        let ghost before = out@;
        let ghost items = spec_segment_glyphs(
            segments@[idx as int].content,
            idx as int,
            segment_widths@,
            selected_mask,
            selected_index,
            has_char_colors,
            table@,
        );
        let w: i64 = if idx < segment_widths.len() {
            segment_widths[idx]
        } else {
            0
        };
        if w > 0 {
            let selected = mask_bit(selected_mask, idx);
            match &segments[idx].content {
                SegmentContent::Text(text) => {
                    let chars = collect_chars(text.as_str());
                    let mut ci: usize = 0;
                    while ci < chars.len()
                        invariant
                            0 <= ci <= chars@.len(),
                            table@.len() <= u32::MAX,
                            2 * chars@.len() == items.len(),
                            forall|j: int| 0 <= j < items.len() ==> #[trigger] items[j] == (SegmentGlyph {
                                segment: idx,
                                column: (j / 2) as usize,
                                glyph: glyph_code(chars@[j / 2], table@),
                                role: if j % 2 == 0 {
                                    GlyphRole::Shadow
                                } else {
                                    GlyphRole::Label { selected }
                                },
                            }),
                            out@ == before + items.take(2 * ci),
                        decreases chars@.len() - ci,
                    {
                        let glyph = cp437_index(chars[ci], table) & 0xFF;
                        out.push(SegmentGlyph { segment: idx, column: ci, glyph, role: GlyphRole::Shadow });
                        out.push(SegmentGlyph { segment: idx, column: ci, glyph, role: GlyphRole::Label { selected } });
                        proof {
                            assert(items[2 * ci] == (SegmentGlyph {
                                segment: idx,
                                column: ci,
                                glyph,
                                role: GlyphRole::Shadow,
                            }));
                            assert(items[2 * ci + 1] == (SegmentGlyph {
                                segment: idx,
                                column: ci,
                                glyph,
                                role: GlyphRole::Label { selected },
                            }));
                            assert(items.take(2 * ci + 2) =~= items.take(2 * ci).push(items[2 * ci]).push(
                                items[2 * ci + 1],
                            ));
                        }
                        ci = ci + 1;
                    }
                    assert(items.take(2 * chars@.len() as int) =~= items);
                },
                SegmentContent::Char(c) => {
                    let glyph = cp437_index(*c, table) & 0xFF;
                    if has_char_colors && idx == selected_index {
                        out.push(SegmentGlyph { segment: idx, column: 0, glyph, role: GlyphRole::CaretColors });
                    } else {
                        out.push(SegmentGlyph { segment: idx, column: 0, glyph, role: GlyphRole::Shadow });
                        out.push(SegmentGlyph { segment: idx, column: 0, glyph, role: GlyphRole::Label { selected } });
                    }
                    assert(out@ =~= before + items);
                },
            }
        } else {
            assert(out@ =~= before + items);
        }
        idx = idx + 1;
    }
    out
}

} // verus!
