use vstd::prelude::*;

verus! {

/// Document format mode; determines which features are available.
#[derive(Debug, Clone, Copy, PartialEq, Eq, Structural)]
pub enum FormatMode {
    /// Legacy DOS: 16 fixed colors, single font, no palette editing
    LegacyDos,
    /// XBin: 16 colors from selectable palette, single font
    XBin,
    /// XBin Extended: 8 colors, custom palette (first 8), dual fonts
    XBinExtended,
    /// Unrestricted: full RGB, unlimited fonts
    Unrestricted,
}

/// Whether a format mode lets the palette be edited.
pub open spec fn spec_allows_palette_editing(m: FormatMode) -> bool {
    m != FormatMode::LegacyDos
}

/// Whether a format mode lets fonts be chosen.
pub open spec fn spec_allows_font_selection(m: FormatMode) -> bool {
    m == FormatMode::XBinExtended || m == FormatMode::Unrestricted
}

/// How many fonts a document in this mode may hold.
pub open spec fn spec_max_fonts(m: FormatMode) -> usize {
    match m {
        FormatMode::LegacyDos | FormatMode::XBin => 1,
        FormatMode::XBinExtended => 2,
        FormatMode::Unrestricted => usize::MAX,
    }
}

/// How many colors a document in this mode may use.
pub open spec fn spec_color_count(m: FormatMode) -> usize {
    match m {
        FormatMode::LegacyDos | FormatMode::XBin => 16,
        FormatMode::XBinExtended => 8,
        FormatMode::Unrestricted => 16777216,
    }
}

impl FormatMode {
    /// All format modes, in the order a picker lists them.
    pub fn all() -> (r: Vec<FormatMode>)
        ensures
            r@ == seq![FormatMode::LegacyDos, FormatMode::XBin, FormatMode::XBinExtended, FormatMode::Unrestricted],
    {
        vec![FormatMode::LegacyDos, FormatMode::XBin, FormatMode::XBinExtended, FormatMode::Unrestricted]
    }

    /// A one-line description of what the mode allows.
    pub fn description(&self) -> (r: &'static str)
        ensures
            *self == FormatMode::LegacyDos ==> r@ == "16 fixed colors, single font, no palette editing"@,
            *self == FormatMode::XBin ==> r@ == "16 colors from selectable palette, single font"@,
            *self == FormatMode::XBinExtended ==> r@ == "8 colors, dual fonts, custom palette"@,
            *self == FormatMode::Unrestricted ==> r@ == "Full RGB colors, unlimited fonts"@,
    {
        match self {
            FormatMode::LegacyDos => "16 fixed colors, single font, no palette editing",
            FormatMode::XBin => "16 colors from selectable palette, single font",
            FormatMode::XBinExtended => "8 colors, dual fonts, custom palette",
            FormatMode::Unrestricted => "Full RGB colors, unlimited fonts",
        }
    }

    /// Whether palette editing is allowed.
    pub fn allows_palette_editing(&self) -> (r: bool)
        ensures
            r == spec_allows_palette_editing(*self),
    {
        match self {
            FormatMode::LegacyDos => false,
            _ => true,
        }
    }

    /// Whether font selection is allowed.
    pub fn allows_font_selection(&self) -> (r: bool)
        ensures
            r == spec_allows_font_selection(*self),
    {
        match self {
            FormatMode::XBinExtended | FormatMode::Unrestricted => true,
            _ => false,
        }
    }

    /// Maximum number of fonts.
    pub fn max_fonts(&self) -> (r: usize)
        ensures
            r == spec_max_fonts(*self),
    {
        match self {
            FormatMode::LegacyDos | FormatMode::XBin => 1,
            FormatMode::XBinExtended => 2,
            FormatMode::Unrestricted => usize::MAX,
        }
    }

    /// Number of available colors.
    pub fn color_count(&self) -> (r: usize)
        ensures
            r == spec_color_count(*self),
    {
        match self {
            FormatMode::LegacyDos | FormatMode::XBin => 16,
            FormatMode::XBinExtended => 8,
            FormatMode::Unrestricted => 16777216,
        }
    }
}


impl Default for FormatMode {
    fn default() -> (r: FormatMode)
        ensures
            r == FormatMode::LegacyDos,
    {
        FormatMode::LegacyDos
    }
}

impl FormatMode {
    /// The mode's name as a picker shows it.
    pub fn label(&self) -> (r: String)
        ensures
            *self == FormatMode::LegacyDos ==> r@ == "Legacy DOS"@,
            *self == FormatMode::XBin ==> r@ == "XBin"@,
            *self == FormatMode::XBinExtended ==> r@ == "XBin Extended"@,
            *self == FormatMode::Unrestricted ==> r@ == "Unrestricted"@,
    {
        match self {
            FormatMode::LegacyDos => String::from_str("Legacy DOS"),
            FormatMode::XBin => String::from_str("XBin"),
            FormatMode::XBinExtended => String::from_str("XBin Extended"),
            FormatMode::Unrestricted => String::from_str("Unrestricted"),
        }
    }
}

/// How a buffer's palette may be used.
#[derive(Debug, Clone, Copy, PartialEq, Eq, Structural)]
pub enum PaletteMode {
    RGB,
    Fixed16,
    Free8,
    Free16,
}

/// How a buffer's fonts may be used.
#[derive(Debug, Clone, Copy, PartialEq, Eq, Structural)]
pub enum FontMode {
    Unlimited,
    Sauce,
    Single,
    FixedSize,
}

/// The format mode a buffer's palette and font modes amount to.
pub open spec fn spec_detect_format_mode(palette: PaletteMode, font: FontMode) -> FormatMode {
    let single_font = font == FontMode::Sauce || font == FontMode::Single;
    if palette == PaletteMode::Fixed16 && single_font {
        FormatMode::LegacyDos
    } else if palette == PaletteMode::Free16 && single_font {
        FormatMode::XBin
    } else if (palette == PaletteMode::Free8 || palette == PaletteMode::Free16) && font == FontMode::FixedSize {
        FormatMode::XBinExtended
    } else if palette == PaletteMode::RGB || font == FontMode::Unlimited {
        FormatMode::Unrestricted
    } else {
        FormatMode::LegacyDos
    }
}

/// Detect the format mode from a buffer's palette and font modes.
pub fn detect_format_mode(palette: PaletteMode, font: FontMode) -> (r: FormatMode)
    ensures
        r == spec_detect_format_mode(palette, font),
{
    match (palette, font) {
        (PaletteMode::Fixed16, FontMode::Sauce | FontMode::Single) => FormatMode::LegacyDos,
        (PaletteMode::Free16, FontMode::Sauce | FontMode::Single) => FormatMode::XBin,
        (PaletteMode::Free8 | PaletteMode::Free16, FontMode::FixedSize) => FormatMode::XBinExtended,
        (PaletteMode::RGB, _) | (_, FontMode::Unlimited) => FormatMode::Unrestricted,
        _ => FormatMode::LegacyDos,
    }
}

/// Fonts can be chosen exactly in the modes that hold more than one font.
pub proof fn lemma_font_selection_iff_several_fonts(m: FormatMode)
    ensures
        spec_allows_font_selection(m) <==> spec_max_fonts(m) > 1,
{
}

/// An RGB palette, or fonts without limit, always make a buffer
/// unrestricted.
pub proof fn lemma_rgb_or_unlimited_is_unrestricted(palette: PaletteMode, font: FontMode)
    requires
        palette == PaletteMode::RGB || font == FontMode::Unlimited,
    ensures
        spec_detect_format_mode(palette, font) == FormatMode::Unrestricted,
{
}

} // verus!
