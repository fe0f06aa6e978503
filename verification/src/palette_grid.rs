use vstd::prelude::*;

verus! {

/// Messages from the palette grid.
#[derive(Debug, Clone, Copy, PartialEq, Eq, Structural)]
pub enum PaletteGridMessage {
    /// Set the foreground color (left click)
    SetForeground(u32),
    /// Set the background color (right click)
    SetBackground(u32),
}

/// The mouse button of a click on the grid.
#[derive(Debug, Clone, Copy, PartialEq, Eq, Structural)]
pub enum GridButton {
    Left,
    Right,
    Other,
}

/// Layout of the palette grid: colors per row, cell size, and the grid's
/// width and height in pixels.
#[derive(Debug, Clone, Copy, PartialEq, Eq, Structural)]
pub struct PaletteLayout {
    pub items_per_row: usize,
    pub cell_size: u32,
    pub width: u64,
    pub height: u128,
}

/// Colors per row and cell size for a palette: small palettes get one or
/// two columns of big cells, larger ones more columns of smaller cells.
pub open spec fn spec_grid_shape(palette_len: int) -> (int, int) {
    if palette_len <= 8 {
        (1, 24)
    } else if palette_len <= 16 {
        (2, 20)
    } else if palette_len <= 64 {
        (4, 16)
    } else {
        (8, 12)
    }
}

/// The layout of a palette of `palette_len` colors: rows are the colors
/// divided by the colors per row, rounded up.
pub open spec fn spec_palette_layout(palette_len: int) -> PaletteLayout {
    let (items, cell) = spec_grid_shape(palette_len);
    let rows = (palette_len + items - 1) / items;
    PaletteLayout {
        items_per_row: items as usize,
        cell_size: cell as u32,
        width: (cell * items) as u64,
        height: (cell * rows) as u128,
    }
}

/// Calculate the layout for a palette.
pub fn calculate_layout(palette_len: usize) -> (r: PaletteLayout)
    ensures
        r == spec_palette_layout(palette_len as int),
{
    let (items, cell): (usize, u32) = if palette_len <= 8 {
        (1, 24)
    } else if palette_len <= 16 {
        (2, 20)
    } else if palette_len <= 64 {
        (4, 16)
    } else {
        (8, 12)
    };
    let rows: u128 = (palette_len as u128 + items as u128 - 1) / items as u128;
    assert(rows <= 0x1_0000_0000_0000_0008) by {
        let x = palette_len as int + items as int - 1;
        let d = items as int;
        vstd::arithmetic::div_mod::lemma_div_is_ordered_by_denominator(x, 1, d);
    }
    assert(cell as u128 * rows <= 24 * 0x1_0000_0000_0000_0008) by (nonlinear_arith)
        requires
            rows <= 0x1_0000_0000_0000_0008,
            cell <= 24,
    ;
    assert(cell as u64 * items as u64 <= 24 * 8) by (nonlinear_arith)
        requires
            cell <= 24,
            items <= 8,
    ;
    PaletteLayout {
        items_per_row: items,
        cell_size: cell,
        width: cell as u64 * items as u64,
        height: cell as u128 * rows,
    }
}

/// The width the grid needs for a palette: the grid plus padding.
pub fn required_width(palette_len: usize) -> (r: u64)
    ensures
        r == spec_palette_layout(palette_len as int).width + 8,
{
    calculate_layout(palette_len).width + 8
}

/// The cell (column, row) of color `index` in rows of `items_per_row`.
pub fn marker_cell(index: u32, items_per_row: usize) -> (r: (usize, usize))
    requires
        items_per_row > 0,
    ensures
        r.0 == index as int % items_per_row as int,
        r.1 == index as int / items_per_row as int,
{
    (index as usize % items_per_row, index as usize / items_per_row)
}

/// The palette grid state.
#[derive(Debug, Clone, Copy, PartialEq, Eq, Structural)]
pub struct PaletteGrid {
    /// Current foreground color index
    pub foreground: u32,
    /// Current background color index
    pub background: u32,
    /// Number of colors in the cached palette
    pub palette_len: usize,
    /// Whether the font mode allows the high foreground colors (8 and up)
    pub high_fg_allowed: bool,
    /// Whether the ice mode allows the high background colors (8 and up)
    pub high_bg_allowed: bool,
}

/// The color under cell (`col`, `row`), if the palette has one.
pub open spec fn spec_color_at(g: PaletteGrid, items_per_row: int, col: int, row: int) -> Option<u32> {
    let color = col + row * items_per_row;
    if color < g.palette_len {
        Some(color as u32)
    } else {
        None
    }
}

impl PaletteGrid {
    /// The 16-color DOS palette, light gray on black, everything allowed.
    pub fn new() -> (r: PaletteGrid)
        ensures
            r.foreground == 7,
            r.background == 0,
            r.palette_len == 16,
            r.high_fg_allowed,
            r.high_bg_allowed,
    {
        PaletteGrid { foreground: 7, background: 0, palette_len: 16, high_fg_allowed: true, high_bg_allowed: true }
    }

    /// Set the foreground color.
    pub fn set_foreground(&mut self, color: u32)
        ensures
            *final(self) == (PaletteGrid { foreground: color, ..*old(self) }),
    {
        self.foreground = color;
    }

    /// Set the background color.
    pub fn set_background(&mut self, color: u32)
        ensures
            *final(self) == (PaletteGrid { background: color, ..*old(self) }),
    {
        self.background = color;
    }

    /// Set whether the ice mode allows the high background colors.
    pub fn set_ice_mode(&mut self, high_bg_allowed: bool)
        ensures
            *final(self) == (PaletteGrid { high_bg_allowed, ..*old(self) }),
    {
        self.high_bg_allowed = high_bg_allowed;
    }

    /// Set whether the font mode allows the high foreground colors.
    pub fn set_font_mode(&mut self, high_fg_allowed: bool)
        ensures
            *final(self) == (PaletteGrid { high_fg_allowed, ..*old(self) }),
    {
        self.high_fg_allowed = high_fg_allowed;
    }

    /// Take over the length of the edited palette.
    pub fn sync_palette(&mut self, palette_len: usize)
        ensures
            *final(self) == (PaletteGrid { palette_len, ..*old(self) }),
    {
        if self.palette_len != palette_len {
            self.palette_len = palette_len;
        }
    }

    /// The width the grid needs for the cached palette.
    pub fn cached_palette_width(&self) -> (r: u64)
        ensures
            r == spec_palette_layout(self.palette_len as int).width + 8,
    {
        required_width(self.palette_len)
    }

    /// The color under cell (`col`, `row`) of the grid, if any.
    pub fn color_at(&self, col: u32, row: u32, items_per_row: usize) -> (r: Option<u32>)
        requires
            self.palette_len <= u32::MAX,
            items_per_row <= u32::MAX,
            col + row * items_per_row <= u32::MAX,
        ensures
            r == spec_color_at(*self, items_per_row as int, col as int, row as int),
    {
        assert(row * items_per_row <= u32::MAX);
        let color = col + row * (items_per_row as u32);
        if color < self.palette_len as u32 {
            Some(color)
        } else {
            None
        }
    }

    /// The message a click on cell (`col`, `row`) sends: the left button
    /// picks the foreground, the right one the background. Colors 8 and up
    /// are picked only when the mode allows them or the palette has more
    /// than 16 colors.
    pub fn click(&self, col: u32, row: u32, items_per_row: usize, button: GridButton) -> (r: Option<PaletteGridMessage>)
        requires
            self.palette_len <= u32::MAX,
            items_per_row <= u32::MAX,
            col + row * items_per_row <= u32::MAX,
        ensures
            match spec_color_at(*self, items_per_row as int, col as int, row as int) {
                None => r is None,
                Some(color) => r == match button {
                    GridButton::Left => if color < 8 || self.high_fg_allowed || self.palette_len > 16 {
                        Some(PaletteGridMessage::SetForeground(color))
                    } else {
                        None
                    },
                    GridButton::Right => if color < 8 || self.high_bg_allowed || self.palette_len > 16 {
                        Some(PaletteGridMessage::SetBackground(color))
                    } else {
                        None
                    },
                    GridButton::Other => None,
                },
            },
    {
        match self.color_at(col, row, items_per_row) {
            None => None,
            Some(color) => match button {
                GridButton::Left => {
                    if color < 8 || self.high_fg_allowed || self.palette_len > 16 {
                        Some(PaletteGridMessage::SetForeground(color))
                    } else {
                        None
                    }
                },
                GridButton::Right => {
                    if color < 8 || self.high_bg_allowed || self.palette_len > 16 {
                        Some(PaletteGridMessage::SetBackground(color))
                    } else {
                        None
                    }
                },
                GridButton::Other => None,
            },
        }
    }
}

impl Default for PaletteGrid {
    fn default() -> (r: PaletteGrid)
        ensures
            r.foreground == 7,
            r.background == 0,
            r.palette_len == 16,
            r.high_fg_allowed,
            r.high_bg_allowed,
    {
        PaletteGrid::new()
    }
}

/// The cell where a color's marker is drawn holds that color: looking up
/// the cell `marker_cell` gives for a color of the palette gives the color
/// back.
pub proof fn lemma_marker_cell_holds_color(g: PaletteGrid, color: int, items_per_row: int)
    requires
        0 <= color < g.palette_len,
        color <= u32::MAX,
        items_per_row > 0,
    ensures
        spec_color_at(g, items_per_row, color % items_per_row, color / items_per_row) == Some(color as u32),
{
    vstd::arithmetic::div_mod::lemma_fundamental_div_mod(color, items_per_row);
    assert(color % items_per_row + (color / items_per_row) * items_per_row == color) by (nonlinear_arith)
        requires
            color == items_per_row * (color / items_per_row) + color % items_per_row,
    ;
}

} // verus!
