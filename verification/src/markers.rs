use vstd::prelude::*;

verus! {

/// Current state of guides and raster, as the menu shows it.
#[derive(Debug, Clone, Copy)]
pub struct MarkerMenuState {
    /// Selected guide (column, row), or `None` if off
    pub guide: Option<(u32, u32)>,
    /// Guide visibility
    pub guide_visible: bool,
    /// Selected raster (width, height), or `None` if off
    pub raster: Option<(u32, u32)>,
    /// Raster visibility
    pub raster_visible: bool,
    /// Line numbers visibility
    pub line_numbers_visible: bool,
    /// Layer borders visibility
    pub layer_borders_visible: bool,
}

/// A character count as the menu shows it: negative counts show as 0.
pub open spec fn menu_count(v: i32) -> u32 {
    if v < 0 {
        0
    } else {
        v as u32
    }
}

/// A marker position or spacing as the menu shows it.
pub open spec fn menu_pair(p: Option<(i32, i32)>) -> Option<(u32, u32)> {
    match p {
        Some(v) => Some((menu_count(v.0), menu_count(v.1))),
        None => None,
    }
}

/// The editor's guide and raster markers, in characters.
#[derive(Debug, Clone, Copy)]
pub struct MarkerState {
    /// Guide position in characters (e.g. 80x25); `None` when disabled
    pub guide: Option<(i32, i32)>,
    /// Whether the guide is shown
    pub show_guide: bool,
    /// Raster spacing in characters (e.g. 8x8); `None` when disabled
    pub raster: Option<(i32, i32)>,
    /// Whether the raster is shown
    pub show_raster: bool,
    /// Whether line numbers are shown at the edges
    pub show_line_numbers: bool,
    /// Whether layer borders are shown
    pub show_layer_borders: bool,
}

/// A marker as given by the menu: both parts zero or negative clear it.
pub open spec fn marker_from(x: i32, y: i32) -> Option<(i32, i32)> {
    if x <= 0 && y <= 0 {
        None
    } else {
        Some((x, y))
    }
}

impl MarkerState {
    /// Everything off.
    pub fn new() -> (r: MarkerState)
        ensures
            r.guide is None,
            !r.show_guide,
            r.raster is None,
            !r.show_raster,
            !r.show_line_numbers,
            !r.show_layer_borders,
    {
        MarkerState {
            guide: None,
            show_guide: false,
            raster: None,
            show_raster: false,
            show_line_numbers: false,
            show_layer_borders: false,
        }
    }

    /// Set the guide position; zero or negative in both parts clears it, any
    /// other position also shows the guide.
    pub fn set_guide(&mut self, x: i32, y: i32)
        ensures
            final(self).guide == marker_from(x, y),
            final(self).show_guide == (old(self).show_guide || marker_from(x, y) is Some),
            final(self).raster == old(self).raster,
            final(self).show_raster == old(self).show_raster,
            final(self).show_line_numbers == old(self).show_line_numbers,
            final(self).show_layer_borders == old(self).show_layer_borders,
    {
        if x <= 0 && y <= 0 {
            self.guide = None;
        } else {
            self.guide = Some((x, y));
            self.show_guide = true;
        }
    }

    /// Clear the guide.
    pub fn clear_guide(&mut self)
        ensures
            *final(self) == (MarkerState { guide: None, ..*old(self) }),
    {
        self.guide = None;
    }

    /// Set the raster spacing; zero or negative in both parts clears it, any
    /// other spacing also shows the raster.
    pub fn set_raster(&mut self, x: i32, y: i32)
        ensures
            final(self).raster == marker_from(x, y),
            final(self).show_raster == (old(self).show_raster || marker_from(x, y) is Some),
            final(self).guide == old(self).guide,
            final(self).show_guide == old(self).show_guide,
            final(self).show_line_numbers == old(self).show_line_numbers,
            final(self).show_layer_borders == old(self).show_layer_borders,
    {
        if x <= 0 && y <= 0 {
            self.raster = None;
        } else {
            self.raster = Some((x, y));
            self.show_raster = true;
        }
    }

    /// Clear the raster.
    pub fn clear_raster(&mut self)
        ensures
            *final(self) == (MarkerState { raster: None, ..*old(self) }),
    {
        self.raster = None;
    }

    pub fn toggle_guide(&mut self)
        ensures
            *final(self) == (MarkerState { show_guide: !old(self).show_guide, ..*old(self) }),
    {
        self.show_guide = !self.show_guide;
    }

    pub fn toggle_raster(&mut self)
        ensures
            *final(self) == (MarkerState { show_raster: !old(self).show_raster, ..*old(self) }),
    {
        self.show_raster = !self.show_raster;
    }

    pub fn toggle_line_numbers(&mut self)
        ensures
            *final(self) == (MarkerState { show_line_numbers: !old(self).show_line_numbers, ..*old(self) }),
    {
        self.show_line_numbers = !self.show_line_numbers;
    }

    pub fn toggle_layer_borders(&mut self)
        ensures
            *final(self) == (MarkerState { show_layer_borders: !old(self).show_layer_borders, ..*old(self) }),
    {
        self.show_layer_borders = !self.show_layer_borders;
    }

    /// The marker state as the menu shows it.
    pub fn get_marker_menu_state(&self) -> (r: MarkerMenuState)
        ensures
            r.guide == menu_pair(self.guide),
            r.guide_visible == self.show_guide,
            r.raster == menu_pair(self.raster),
            r.raster_visible == self.show_raster,
            r.line_numbers_visible == self.show_line_numbers,
            r.layer_borders_visible == self.show_layer_borders,
    {
        MarkerMenuState {
            guide: menu_pair_of(self.guide),
            guide_visible: self.show_guide,
            raster: menu_pair_of(self.raster),
            raster_visible: self.show_raster,
            line_numbers_visible: self.show_line_numbers,
            layer_borders_visible: self.show_layer_borders,
        }
    }

    /// The raster spacing in pixels for a font of the given glyph size, if
    /// the raster is enabled and shown.
    pub fn raster_pixels(&self, font_width: i32, font_height: i32) -> (r: Option<(i64, i64)>)
        ensures
            match self.raster {
                Some(v) => if self.show_raster {
                    r == Some(((v.0 * font_width) as i64, (v.1 * font_height) as i64))
                } else {
                    r is None
                },
                None => r is None,
            },
    {
        if self.show_raster {
            match self.raster {
                Some(v) => Some(scale_pair(v, font_width, font_height)),
                None => None,
            }
        } else {
            None
        }
    }

    /// The guide position in pixels for a font of the given glyph size, if
    /// the guide is enabled and shown.
    pub fn guide_pixels(&self, font_width: i32, font_height: i32) -> (r: Option<(i64, i64)>)
        ensures
            match self.guide {
                Some(v) => if self.show_guide {
                    r == Some(((v.0 * font_width) as i64, (v.1 * font_height) as i64))
                } else {
                    r is None
                },
                None => r is None,
            },
    {
        if self.show_guide {
            match self.guide {
                Some(v) => Some(scale_pair(v, font_width, font_height)),
                None => None,
            }
        } else {
            None
        }
    }
}

fn menu_pair_of(p: Option<(i32, i32)>) -> (r: Option<(u32, u32)>)
    ensures
        r == menu_pair(p),
{
    match p {
        Some(v) => Some((
            if v.0 < 0 {
                0
            } else {
                v.0 as u32
            },
            if v.1 < 0 {
                0
            } else {
                v.1 as u32
            },
        )),
        None => None,
    }
}

proof fn lemma_i32_product_fits(a: i32, b: i32)
    ensures
        i64::MIN <= a * b <= i64::MAX,
{
    assert(-0x4000_0000_0000_0000 <= a * b <= 0x4000_0000_0000_0000) by (nonlinear_arith)
        requires
            i32::MIN <= a <= i32::MAX,
            i32::MIN <= b <= i32::MAX,
    ;
}

/// A pair of character counts scaled by the glyph size.
pub fn scale_pair(v: (i32, i32), font_width: i32, font_height: i32) -> (r: (i64, i64))
    ensures
        r.0 == v.0 * font_width,
        r.1 == v.1 * font_height,
{
    proof {
        lemma_i32_product_fits(v.0, font_width);
        lemma_i32_product_fits(v.1, font_height);
    }
    (v.0 as i64 * font_width as i64, v.1 as i64 * font_height as i64)
}

/// The pixel rectangle (x, y, width, height) of a layer at cell `offset`
/// with `size` cells, for a font of the given glyph size.
pub fn layer_bounds_pixels(offset: (i32, i32), size: (i32, i32), font_width: i32, font_height: i32) -> (r: (
    i64,
    i64,
    i64,
    i64,
))
    ensures
        r.0 == offset.0 * font_width,
        r.1 == offset.1 * font_height,
        r.2 == size.0 * font_width,
        r.3 == size.1 * font_height,
{
    let (x, y) = scale_pair(offset, font_width, font_height);
    let (w, h) = scale_pair(size, font_width, font_height);
    (x, y, w, h)
}

/// The pixel rectangle (x, y, width, height) the selection marks: its
/// rectangle from the left/top cell, one cell wider and higher than its
/// width and height, for a font of the given glyph size.
pub fn selection_rect_pixels(left: i32, top: i32, width: i32, height: i32, font_width: i32, font_height: i32) -> (r: (
    i64,
    i64,
    i64,
    i64,
))
    requires
        width < i32::MAX,
        height < i32::MAX,
    ensures
        r.0 == left * font_width,
        r.1 == top * font_height,
        r.2 == (width + 1) * font_width,
        r.3 == (height + 1) * font_height,
{
    let (x, y) = scale_pair((left, top), font_width, font_height);
    let (w, h) = scale_pair((width + 1, height + 1), font_width, font_height);
    (x, y, w, h)
}

// ---------------------------------------------------------------------------
// Guide and raster menus
// ---------------------------------------------------------------------------

/// The guide sizes the menu offers (common ANSI art formats).
pub open spec fn spec_guide_presets() -> Seq<(i32, i32)> {
    seq![(80i32, 25i32), (80i32, 40i32), (80i32, 50i32), (44i32, 22i32)]
}

/// The raster spacings the menu offers.
pub open spec fn spec_raster_presets() -> Seq<(i32, i32)> {
    seq![
        (1i32, 1i32),
        (2i32, 2i32),
        (4i32, 2i32),
        (4i32, 4i32),
        (8i32, 2i32),
        (8i32, 4i32),
        (8i32, 8i32),
        (16i32, 4i32),
        (16i32, 8i32),
        (16i32, 16i32),
    ]
}

/// The guide sizes the menu offers, with their names.
pub fn guide_presets() -> (r: Vec<(&'static str, i32, i32)>)
    ensures
        r@.len() == spec_guide_presets().len(),
        forall|i: int| 0 <= i < r@.len() ==> (#[trigger] r@[i]).1 == spec_guide_presets()[i].0 && r@[i].2
            == spec_guide_presets()[i].1,
        r@[0].0@ == "Smallscale 80x25"@,
        r@[1].0@ == "Square 80x40"@,
        r@[2].0@ == "Instagram 80x50"@,
        r@[3].0@ == "File_ID.DIZ 44x22"@,
{
    vec![
        ("Smallscale 80x25", 80, 25),
        ("Square 80x40", 80, 40),
        ("Instagram 80x50", 80, 50),
        ("File_ID.DIZ 44x22", 44, 22),
    ]
}

/// The raster spacings the menu offers.
pub fn raster_presets() -> (r: Vec<(i32, i32)>)
    ensures
        r@ == spec_raster_presets(),
{
    vec![(1, 1), (2, 2), (4, 2), (4, 4), (8, 2), (8, 4), (8, 8), (16, 4), (16, 8), (16, 16)]
}

/// Whether the menu marks preset `p` as the current marker.
pub open spec fn preset_selected(current: Option<(u32, u32)>, p: (i32, i32)) -> bool {
    current == Some((p.0 as u32, p.1 as u32))
}

/// Which entries of a marker menu are marked: "Off" when there is no marker,
/// and each preset equal to the current marker.
pub fn menu_marks(current: Option<(u32, u32)>, presets: &Vec<(i32, i32)>) -> (r: (bool, Vec<bool>))
    ensures
        r.0 == current is None,
        r.1@.len() == presets@.len(),
        forall|i: int| 0 <= i < presets@.len() ==> r.1@[i] == preset_selected(current, #[trigger] presets@[i]),
{
    let mut marks: Vec<bool> = Vec::new();
    let mut i: usize = 0;
    while i < presets.len()
        invariant
            0 <= i <= presets@.len(),
            marks@.len() == i,
            forall|k: int| 0 <= k < i ==> marks@[k] == preset_selected(current, #[trigger] presets@[k]),
        decreases presets@.len() - i,
    {
        let (x, y) = presets[i];
        let selected = match current {
            Some(c) => c.0 == x as u32 && c.1 == y as u32,
            None => false,
        };
        marks.push(selected);
        i = i + 1;
    }
    (current.is_none(), marks)
}

/// Picking a preset from a marker menu marks that preset, and no other, the
/// next time the menu is shown.
pub proof fn lemma_picked_preset_marked(presets: Seq<(i32, i32)>, i: int)
    requires
        presets == spec_guide_presets() || presets == spec_raster_presets(),
        0 <= i < presets.len(),
    ensures
        forall|j: int|
            0 <= j < presets.len() ==> (preset_selected(
                menu_pair(marker_from(presets[i].0, presets[i].1)),
                #[trigger] presets[j],
            ) <==> j == i),
{
    assert forall|j: int| 0 <= j < presets.len() implies (preset_selected(
        menu_pair(marker_from(presets[i].0, presets[i].1)),
        #[trigger] presets[j],
    ) <==> j == i) by {
        assert(presets[i].0 > 0 && presets[i].1 > 0);
        assert(presets[j].0 > 0 && presets[j].1 > 0);
    }
}

} // verus!
