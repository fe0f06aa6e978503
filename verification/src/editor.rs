use vstd::prelude::*;

use crate::fkey::{next_fkey_set, prev_fkey_set, spec_next_fkey_set, spec_prev_fkey_set};
use crate::format_mode::FormatMode;
use crate::markers::{marker_from, MarkerState};
use crate::panels::LayerCommand;
use crate::text::{collect_chars, string_from_chars};

verus! {

broadcast use vstd::string::group_string_axioms;

// ---------------------------------------------------------------------------
// Title
// ---------------------------------------------------------------------------

/// The document title: the file name (or "Untitled"), followed by " •"
/// while there are unsaved changes.
pub open spec fn spec_editor_title(file_name: Option<Seq<char>>, modified: bool) -> Seq<char> {
    let name = match file_name {
        Some(n) => n,
        None => seq!['U', 'n', 't', 'i', 't', 'l', 'e', 'd'],
    };
    if modified {
        name + seq![' ', '•']
    } else {
        name
    }
}

/// The title shown for a document, given its file name (if it has one that
/// is valid text) and whether it has unsaved changes.
pub fn editor_title(file_name: Option<&str>, modified: bool) -> (r: String)
    ensures
        r@ == spec_editor_title(
            match file_name {
                Some(n) => Some(n@),
                None => None,
            },
            modified,
        ),
{
    let mut chars = match file_name {
        Some(n) => collect_chars(n),
        None => vec!['U', 'n', 't', 'i', 't', 'l', 'e', 'd'],
    };
    if modified {
        chars.push(' ');
        chars.push('•');
    }
    proof {
        let name = match file_name {
            Some(n) => n@,
            None => seq!['U', 'n', 't', 'i', 't', 'l', 'e', 'd'],
        };
        if modified {
            assert(chars@ =~= name + seq![' ', '•']);
        } else {
            assert(chars@ =~= name);
        }
    }
    string_from_chars(chars.as_slice())
}

// ---------------------------------------------------------------------------
// Status bar font
// ---------------------------------------------------------------------------

/// The font of the status bar: its name, the caret's font slot, and for XBin
/// Extended the names of the two slots.
#[derive(Debug, Clone)]
pub struct StatusFont {
    pub font_name: String,
    pub current_font_slot: usize,
    pub slot_fonts: Option<(Option<String>, Option<String>)>,
}

/// The name of the document font in `slot` (the first one listed for it).
pub open spec fn font_in_slot(fonts: Seq<(usize, String)>, slot: usize) -> Option<String> {
    if exists|i: int| 0 <= i < fonts.len() && fonts[i].0 == slot {
        let i = choose|i: int|
            0 <= i < fonts.len() && fonts[i].0 == slot && forall|j: int| 0 <= j < i ==> fonts[j].0 != slot;
        Some(fonts[i].1)
    } else {
        None
    }
}

/// The view of an optional name.
pub open spec fn name_view(n: Option<String>) -> Option<Seq<char>> {
    match n {
        Some(s) => Some(s@),
        None => None,
    }
}

/// The first of two optional names that is there, or "Unknown".
pub open spec fn name_or_unknown(a: Option<String>, b: Option<String>) -> Seq<char> {
    match a {
        Some(s) => s@,
        None => match b {
            Some(s) => s@,
            None => seq!['U', 'n', 'k', 'n', 'o', 'w', 'n'],
        },
    }
}

fn find_font(fonts: &Vec<(usize, String)>, slot: usize) -> (r: Option<String>)
    ensures
        r == font_in_slot(fonts@, slot),
{
    let mut i: usize = 0;
    while i < fonts.len()
        invariant
            0 <= i <= fonts@.len(),
            forall|j: int| 0 <= j < i ==> fonts@[j].0 != slot,
        decreases fonts@.len() - i,
    {
        if fonts[i].0 == slot {
            proof {
                let c = choose|c: int|
                    0 <= c < fonts@.len() && fonts@[c].0 == slot && forall|j: int| 0 <= j < c ==> fonts@[j].0 != slot;
                assert(0 <= i < fonts@.len() && fonts@[i as int].0 == slot);
                if c < i {
                    assert(fonts@[c].0 != slot);
                }
                if c > i {
                    assert(fonts@[i as int].0 != slot);
                }
            }
            return Some(fonts[i].1.clone());
        }
        i = i + 1;
    }
    None
}

fn unknown_font() -> (r: String)
    ensures
        r@ == seq!['U', 'n', 'k', 'n', 'o', 'w', 'n'],
{
    let v = vec!['U', 'n', 'k', 'n', 'o', 'w', 'n'];
    proof {
        assert(v@ =~= seq!['U', 'n', 'k', 'n', 'o', 'w', 'n']);
    }
    string_from_chars(v.as_slice())
}

fn first_name(a: &Option<String>, b: &Option<String>) -> (r: String)
    ensures
        r@ == name_or_unknown(*a, *b),
{
    match a {
        Some(s) => s.clone(),
        None => match b {
            Some(s) => s.clone(),
            None => unknown_font(),
        },
    }
}

/// The status bar's font information for the caret's font page `font_page`,
/// `fonts` listing the document's fonts by slot. XBin Extended shows the
/// first of its two slot fonts and the slot (0 or 1) the caret types with;
/// other modes show the caret's font, falling back to slot 0.
pub fn status_font(format_mode: FormatMode, font_page: usize, fonts: &Vec<(usize, String)>) -> (r: StatusFont)
    ensures
        format_mode == FormatMode::XBinExtended ==> {
            &&& r.font_name@ == name_or_unknown(font_in_slot(fonts@, 0), font_in_slot(fonts@, 1))
            &&& r.current_font_slot == if font_page < 1 {
                font_page
            } else {
                1
            }
            &&& r.slot_fonts matches Some(p) && name_view(p.0) == name_view(font_in_slot(fonts@, 0)) && name_view(p.1)
                == name_view(font_in_slot(fonts@, 1))
        },
        format_mode != FormatMode::XBinExtended ==> {
            &&& r.font_name@ == name_or_unknown(font_in_slot(fonts@, font_page), font_in_slot(fonts@, 0))
            &&& r.current_font_slot == font_page
            &&& r.slot_fonts is None
        },
{
    if format_mode == FormatMode::XBinExtended {
        let slot0 = find_font(fonts, 0);
        let slot1 = find_font(fonts, 1);
        let name = first_name(&slot0, &slot1);
        let current = if font_page < 1 {
            font_page
        } else {
            1
        };
        StatusFont { font_name: name, current_font_slot: current, slot_fonts: Some((slot0, slot1)) }
    } else {
        let own = find_font(fonts, font_page);
        let base = find_font(fonts, 0);
        let name = first_name(&own, &base);
        StatusFont { font_name: name, current_font_slot: font_page, slot_fonts: None }
    }
}

// ---------------------------------------------------------------------------
// The editor's message handling
// ---------------------------------------------------------------------------

/// The editor state the message handling decides on; the document itself
/// lives in the engine, which the host drives by the returned actions.
#[derive(Debug, Clone, Copy)]
pub struct EditorState {
    /// Guide, raster, line numbers and layer borders
    pub markers: MarkerState,
    /// Whether the document has unsaved changes
    pub is_modified: bool,
    /// Whether the brush character table is open
    pub show_brush_char_table: bool,
    /// The F-key slot whose character is being chosen, if any
    pub char_selector_slot: Option<usize>,
    /// The F-key set in use
    pub current_fkey_set: usize,
    /// How many F-key sets there are
    pub fkey_set_count: usize,
    /// How many layers the document has
    pub layer_count: usize,
}

/// A message to the editor.
#[derive(Debug, Clone, Copy)]
pub enum EditorMessage {
    SetGuide(i32, i32),
    ClearGuide,
    SetRaster(i32, i32),
    ClearRaster,
    ToggleGuide,
    ToggleRaster,
    ToggleLineNumbers,
    ToggleLayerBorders,
    /// Open the brush character table
    OpenBrushCharTable,
    /// A brush character was chosen (this closes the table)
    SetBrushChar(char),
    /// Type the character of an F-key slot
    TypeFKey(usize),
    /// Choose the character of an F-key slot
    OpenCharSelector(usize),
    /// The character chosen for the slot being edited
    SelectChar(u32),
    /// The character selector was closed without a choice
    CancelCharSelector,
    NextFKeySet,
    PrevFKeySet,
    /// A layer operation asked for
    Layer(LayerCommand),
    /// The engine performed a layer operation; whether it succeeded
    LayerDone(LayerCommand, bool),
}

/// What the host does after a message.
#[derive(Debug, Clone, Copy, PartialEq, Eq, Structural)]
pub enum EditorAction {
    Nothing,
    /// Recompute the guide and raster overlays
    UpdateMarkers,
    /// Recompute the layer bounds overlay
    UpdateLayerBounds,
    /// Hand the brush character to the toolbar
    SetBrushChar(char),
    /// Type the character of slot `slot` of set `set`
    TypeFKey { set: usize, slot: usize },
    /// Store `code` in slot `slot` of set `set`, and save the F-key sets
    SetFKeyCode { set: usize, slot: usize, code: u32 },
    /// Make set `set` current, and save the F-key sets
    SelectFKeySet(usize),
    /// Perform the layer operation in the engine
    PerformLayer(LayerCommand),
}

/// Whether a layer operation that succeeded edits the document.
pub open spec fn layer_op_edits(cmd: LayerCommand) -> bool {
    !(cmd is Select || cmd is Edit)
}

/// Whether a layer operation that succeeded changes the layer bounds.
pub open spec fn layer_op_moves_bounds(cmd: LayerCommand) -> bool {
    cmd is Add || cmd is Remove || cmd is MoveUp || cmd is MoveDown || cmd is Duplicate || cmd is MergeDown
}

/// The editor after a message, and what the host is to do.
pub open spec fn spec_update(s: EditorState, message: EditorMessage) -> (EditorState, EditorAction) {
    match message {
        EditorMessage::SetGuide(x, y) => (
            EditorState {
                markers: MarkerState {
                    guide: marker_from(x, y),
                    show_guide: s.markers.show_guide || marker_from(x, y) is Some,
                    ..s.markers
                },
                ..s
            },
            EditorAction::UpdateMarkers,
        ),
        EditorMessage::ClearGuide => (
            EditorState { markers: MarkerState { guide: None, ..s.markers }, ..s },
            EditorAction::UpdateMarkers,
        ),
        EditorMessage::SetRaster(x, y) => (
            EditorState {
                markers: MarkerState {
                    raster: marker_from(x, y),
                    show_raster: s.markers.show_raster || marker_from(x, y) is Some,
                    ..s.markers
                },
                ..s
            },
            EditorAction::UpdateMarkers,
        ),
        EditorMessage::ClearRaster => (
            EditorState { markers: MarkerState { raster: None, ..s.markers }, ..s },
            EditorAction::UpdateMarkers,
        ),
        EditorMessage::ToggleGuide => (
            EditorState { markers: MarkerState { show_guide: !s.markers.show_guide, ..s.markers }, ..s },
            EditorAction::UpdateMarkers,
        ),
        EditorMessage::ToggleRaster => (
            EditorState { markers: MarkerState { show_raster: !s.markers.show_raster, ..s.markers }, ..s },
            EditorAction::UpdateMarkers,
        ),
        EditorMessage::ToggleLineNumbers => (
            EditorState {
                markers: MarkerState { show_line_numbers: !s.markers.show_line_numbers, ..s.markers },
                ..s
            },
            EditorAction::Nothing,
        ),
        EditorMessage::ToggleLayerBorders => (
            EditorState {
                markers: MarkerState { show_layer_borders: !s.markers.show_layer_borders, ..s.markers },
                ..s
            },
            EditorAction::UpdateLayerBounds,
        ),
        EditorMessage::OpenBrushCharTable => (EditorState { show_brush_char_table: true, ..s }, EditorAction::Nothing),
        EditorMessage::SetBrushChar(c) => (
            EditorState { show_brush_char_table: false, ..s },
            EditorAction::SetBrushChar(c),
        ),
        EditorMessage::TypeFKey(slot) => (
            EditorState { is_modified: true, ..s },
            EditorAction::TypeFKey { set: s.current_fkey_set, slot },
        ),
        EditorMessage::OpenCharSelector(slot) => (
            EditorState { char_selector_slot: Some(slot), ..s },
            EditorAction::Nothing,
        ),
        EditorMessage::SelectChar(code) => (
            EditorState { char_selector_slot: None, ..s },
            match s.char_selector_slot {
                Some(slot) => EditorAction::SetFKeyCode { set: s.current_fkey_set, slot, code },
                None => EditorAction::Nothing,
            },
        ),
        EditorMessage::CancelCharSelector => (EditorState { char_selector_slot: None, ..s }, EditorAction::Nothing),
        EditorMessage::NextFKeySet => {
            let set = spec_next_fkey_set(s.current_fkey_set as int, s.fkey_set_count as int) as usize;
            (EditorState { current_fkey_set: set, ..s }, EditorAction::SelectFKeySet(set))
        },
        EditorMessage::PrevFKeySet => {
            let set = spec_prev_fkey_set(s.current_fkey_set as int, s.fkey_set_count as int) as usize;
            (EditorState { current_fkey_set: set, ..s }, EditorAction::SelectFKeySet(set))
        },
        EditorMessage::Layer(cmd) => (
            s,
            if cmd is Edit || (cmd is Remove && s.layer_count <= 1) {
                EditorAction::Nothing
            } else {
                EditorAction::PerformLayer(cmd)
            },
        ),
        EditorMessage::LayerDone(cmd, ok) => (
            EditorState { is_modified: s.is_modified || (ok && layer_op_edits(cmd)), ..s },
            if cmd is Select || (ok && layer_op_moves_bounds(cmd)) {
                EditorAction::UpdateLayerBounds
            } else {
                EditorAction::Nothing
            },
        ),
    }
}

impl EditorState {
    /// Handle a message: the editor's own state changes here; the returned
    /// action is what the host does with the document and the options. A
    /// layer operation is asked for by `Layer` and its outcome reported by
    /// `LayerDone`; the last layer is never removed.
    pub fn update(&mut self, message: EditorMessage) -> (r: EditorAction)
        requires
            message is PrevFKeySet ==> old(self).fkey_set_count == 0 || old(self).current_fkey_set
                + old(self).fkey_set_count <= usize::MAX,
        ensures
            (*final(self), r) == spec_update(*old(self), message),
            message matches EditorMessage::TypeFKey(slot) ==> r == (EditorAction::TypeFKey {
                set: old(self).current_fkey_set,
                slot,
            }) && final(self).current_fkey_set == old(self).current_fkey_set && final(self).is_modified,
    {
        match message {
            EditorMessage::SetGuide(x, y) => {
                self.markers.set_guide(x, y);
                EditorAction::UpdateMarkers
            },
            EditorMessage::ClearGuide => {
                self.markers.clear_guide();
                EditorAction::UpdateMarkers
            },
            EditorMessage::SetRaster(x, y) => {
                self.markers.set_raster(x, y);
                EditorAction::UpdateMarkers
            },
            EditorMessage::ClearRaster => {
                self.markers.clear_raster();
                EditorAction::UpdateMarkers
            },
            EditorMessage::ToggleGuide => {
                self.markers.toggle_guide();
                EditorAction::UpdateMarkers
            },
            EditorMessage::ToggleRaster => {
                self.markers.toggle_raster();
                EditorAction::UpdateMarkers
            },
            EditorMessage::ToggleLineNumbers => {
                self.markers.toggle_line_numbers();
                EditorAction::Nothing
            },
            EditorMessage::ToggleLayerBorders => {
                self.markers.toggle_layer_borders();
                EditorAction::UpdateLayerBounds
            },
            EditorMessage::OpenBrushCharTable => {
                self.show_brush_char_table = true;
                EditorAction::Nothing
            },
            EditorMessage::SetBrushChar(c) => {
                self.show_brush_char_table = false;
                EditorAction::SetBrushChar(c)
            },
            EditorMessage::TypeFKey(slot) => {
                self.is_modified = true;
                EditorAction::TypeFKey { set: self.current_fkey_set, slot }
            },
            EditorMessage::OpenCharSelector(slot) => {
                self.char_selector_slot = Some(slot);
                EditorAction::Nothing
            },
            EditorMessage::SelectChar(code) => {
                let action = match self.char_selector_slot {
                    Some(slot) => EditorAction::SetFKeyCode { set: self.current_fkey_set, slot, code },
                    None => EditorAction::Nothing,
                };
                self.char_selector_slot = None;
                action
            },
            EditorMessage::CancelCharSelector => {
                self.char_selector_slot = None;
                EditorAction::Nothing
            },
            EditorMessage::NextFKeySet => {
                let set = next_fkey_set(self.current_fkey_set, self.fkey_set_count);
                self.current_fkey_set = set;
                EditorAction::SelectFKeySet(set)
            },
            EditorMessage::PrevFKeySet => {
                let set = prev_fkey_set(self.current_fkey_set, self.fkey_set_count);
                self.current_fkey_set = set;
                EditorAction::SelectFKeySet(set)
            },
            EditorMessage::Layer(cmd) => {
                match cmd {
                    LayerCommand::Edit(_) => EditorAction::Nothing,
                    LayerCommand::Remove(_) => {
                        if self.layer_count > 1 {
                            EditorAction::PerformLayer(cmd)
                        } else {
                            EditorAction::Nothing
                        }
                    },
                    _ => EditorAction::PerformLayer(cmd),
                }
            },
            EditorMessage::LayerDone(cmd, ok) => {
                let (edits, moves_bounds) = match cmd {
                    LayerCommand::Select(_) => (false, true),
                    LayerCommand::Edit(_) => (false, false),
                    LayerCommand::ToggleVisibility(_) | LayerCommand::Clear(_) => (true, false),
                    _ => (true, ok),
                };
                if ok && edits {
                    self.is_modified = true;
                }
                if moves_bounds {
                    EditorAction::UpdateLayerBounds
                } else {
                    EditorAction::Nothing
                }
            },
        }
    }
}

/// A view toggle given twice leaves the editor as it was.
pub proof fn lemma_toggle_twice(s: EditorState, message: EditorMessage)
    requires
        message is ToggleGuide || message is ToggleRaster || message is ToggleLineNumbers
            || message is ToggleLayerBorders,
    ensures
        spec_update(spec_update(s, message).0, message).0 == s,
{
}

/// The last layer is never removed: with one layer a removal asks the engine
/// for nothing and changes nothing; a removal is only asked for while there
/// are two layers or more, and its outcome marks the document modified
/// exactly when it succeeded (or it already was).
pub proof fn lemma_last_layer_kept(s: EditorState, i: usize, ok: bool)
    requires
        s.layer_count >= 1,
    ensures
        s.layer_count == 1 ==> spec_update(s, EditorMessage::Layer(LayerCommand::Remove(i))) == (s, EditorAction::Nothing),
        spec_update(s, EditorMessage::Layer(LayerCommand::Remove(i))).1 == EditorAction::PerformLayer(
            LayerCommand::Remove(i),
        ) ==> s.layer_count >= 2,
        spec_update(s, EditorMessage::LayerDone(LayerCommand::Remove(i), ok)).0.is_modified == (s.is_modified
            || ok),
{
}


/// Typing an F-key slot types that slot of the F-key set in use, keeps the
/// set and marks the document modified; after switching to the next set, a
/// typed slot comes from the set switched to.
pub proof fn lemma_fkey_typed_from_current_set(s: EditorState, slot: usize)
    ensures
        spec_update(s, EditorMessage::TypeFKey(slot)).1 == (EditorAction::TypeFKey { set: s.current_fkey_set, slot }),
        spec_update(s, EditorMessage::TypeFKey(slot)).0.current_fkey_set == s.current_fkey_set,
        spec_update(s, EditorMessage::TypeFKey(slot)).0.is_modified,
        ({
            let (next, switched) = spec_update(s, EditorMessage::NextFKeySet);
            switched == EditorAction::SelectFKeySet(next.current_fkey_set) && spec_update(
                next,
                EditorMessage::TypeFKey(slot),
            ).1 == (EditorAction::TypeFKey { set: next.current_fkey_set, slot })
        }),
{
}

} // verus!
