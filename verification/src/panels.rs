use vstd::prelude::*;

use std::sync::Arc;

use crate::geometry::Position;
use crate::text::{format_i32, is_blank, is_white_space, spec_format_i32};

verus! {

// ---------------------------------------------------------------------------
// Channels
// ---------------------------------------------------------------------------

/// Messages for the channels view.
#[derive(Debug, Clone, Copy, PartialEq, Eq, Structural)]
pub enum ChannelsMessage {
    /// Toggle the foreground channel
    ToggleForeground,
    /// Toggle the background channel
    ToggleBackground,
}

/// Which color channels drawing uses.
#[derive(Debug, Clone, Copy, PartialEq, Eq, Structural)]
pub struct ChannelsView {
    /// Use the foreground when drawing
    pub use_foreground: bool,
    /// Use the background when drawing
    pub use_background: bool,
}

/// The channels after a message: the channel it names is toggled.
pub open spec fn spec_channels_after(v: ChannelsView, message: ChannelsMessage) -> ChannelsView {
    match message {
        ChannelsMessage::ToggleForeground => ChannelsView { use_foreground: !v.use_foreground, ..v },
        ChannelsMessage::ToggleBackground => ChannelsView { use_background: !v.use_background, ..v },
    }
}

/// The same message twice leaves the channels as they were.
pub proof fn lemma_channel_toggle_twice(v: ChannelsView, message: ChannelsMessage)
    ensures
        spec_channels_after(spec_channels_after(v, message), message) == v,
{
}

impl ChannelsView {
    /// Both channels on.
    pub fn new() -> (r: ChannelsView)
        ensures
            r.use_foreground,
            r.use_background,
    {
        ChannelsView { use_foreground: true, use_background: true }
    }

    /// Toggle the channel the message names.
    pub fn update(&mut self, message: ChannelsMessage)
        ensures
            *final(self) == spec_channels_after(*old(self), message),
    {
        match message {
            ChannelsMessage::ToggleForeground => {
                self.use_foreground = !self.use_foreground;
            },
            ChannelsMessage::ToggleBackground => {
                self.use_background = !self.use_background;
            },
        }
    }
}

impl Default for ChannelsView {
    fn default() -> (r: ChannelsView)
        ensures
            r.use_foreground,
            r.use_background,
    {
        ChannelsView::new()
    }
}

// ---------------------------------------------------------------------------
// Layers
// ---------------------------------------------------------------------------

/// Messages for the layer view.
#[derive(Debug, Clone)]
pub enum LayerMessage {
    Select(usize),
    ToggleVisibility(usize),
    Add,
    Remove(usize),
    MoveUp(usize),
    MoveDown(usize),
    Rename(usize, String),
    /// Open the layer properties dialog (double click or context menu)
    EditLayer(usize),
    /// Duplicate a layer (context menu)
    Duplicate(usize),
    /// Merge a layer down (context menu)
    MergeDown(usize),
    /// Clear a layer's contents (context menu)
    Clear(usize),
}

/// What the editor does for a layer view message.
#[derive(Debug, Clone, Copy, PartialEq, Eq, Structural)]
pub enum LayerCommand {
    Select(usize),
    Edit(usize),
    ToggleVisibility(usize),
    Add,
    Remove(usize),
    MoveUp(usize),
    MoveDown(usize),
    Duplicate(usize),
    MergeDown(usize),
    Clear(usize),
}

/// The editor command for a layer view message; a second click on the same
/// layer in quick succession opens its properties. Renaming is not handled.
pub fn layer_command(message: &LayerMessage, double_click: bool) -> (r: Option<LayerCommand>)
    ensures
        match *message {
            LayerMessage::Select(i) => r == Some(if double_click {
                LayerCommand::Edit(i)
            } else {
                LayerCommand::Select(i)
            }),
            LayerMessage::ToggleVisibility(i) => r == Some(LayerCommand::ToggleVisibility(i)),
            LayerMessage::Add => r == Some(LayerCommand::Add),
            LayerMessage::Remove(i) => r == Some(LayerCommand::Remove(i)),
            LayerMessage::MoveUp(i) => r == Some(LayerCommand::MoveUp(i)),
            LayerMessage::MoveDown(i) => r == Some(LayerCommand::MoveDown(i)),
            LayerMessage::Rename(_, _) => r is None,
            LayerMessage::EditLayer(i) => r == Some(LayerCommand::Edit(i)),
            LayerMessage::Duplicate(i) => r == Some(LayerCommand::Duplicate(i)),
            LayerMessage::MergeDown(i) => r == Some(LayerCommand::MergeDown(i)),
            LayerMessage::Clear(i) => r == Some(LayerCommand::Clear(i)),
        },
{
    match message {
        LayerMessage::Select(i) => {
            if double_click {
                Some(LayerCommand::Edit(*i))
            } else {
                Some(LayerCommand::Select(*i))
            }
        },
        LayerMessage::ToggleVisibility(i) => Some(LayerCommand::ToggleVisibility(*i)),
        LayerMessage::Add => Some(LayerCommand::Add),
        LayerMessage::Remove(i) => Some(LayerCommand::Remove(*i)),
        LayerMessage::MoveUp(i) => Some(LayerCommand::MoveUp(*i)),
        LayerMessage::MoveDown(i) => Some(LayerCommand::MoveDown(*i)),
        LayerMessage::Rename(_, _) => None,
        LayerMessage::EditLayer(i) => Some(LayerCommand::Edit(*i)),
        LayerMessage::Duplicate(i) => Some(LayerCommand::Duplicate(*i)),
        LayerMessage::MergeDown(i) => Some(LayerCommand::MergeDown(*i)),
        LayerMessage::Clear(i) => Some(LayerCommand::Clear(*i)),
    }
}

/// Whether a layer may be removed: never the last one.
pub fn can_remove_layer(layer_count: usize) -> (r: bool)
    ensures
        r == (layer_count > 1),
{
    layer_count > 1
}

/// Which context menu entries of layer `index` are enabled:
/// (merge down, delete). Merging needs a layer below; deleting needs
/// another layer to remain.
pub fn layer_menu_enabled(index: usize, layer_count: usize) -> (r: (bool, bool))
    ensures
        r.0 == (index > 0),
        r.1 == (layer_count > 1),
{
    (index > 0, layer_count > 1)
}

/// The most characters a layer preview shows across and down.
pub const MAX_PREVIEW_CHARS_WIDTH: i32 = 80;
pub const MAX_PREVIEW_CHARS_HEIGHT: i32 = 25;

/// The size in characters of a layer preview: the buffer cut to the
/// preview's maximum; none for an empty buffer.
pub fn preview_chars(buffer_width: i32, buffer_height: i32) -> (r: Option<(i32, i32)>)
    ensures
        ({
            let w = if buffer_width < MAX_PREVIEW_CHARS_WIDTH {
                buffer_width
            } else {
                MAX_PREVIEW_CHARS_WIDTH
            };
            let h = if buffer_height < MAX_PREVIEW_CHARS_HEIGHT {
                buffer_height
            } else {
                MAX_PREVIEW_CHARS_HEIGHT
            };
            if w <= 0 || h <= 0 {
                r is None
            } else {
                r == Some((w, h))
            }
        }),
{
    let w = if buffer_width < MAX_PREVIEW_CHARS_WIDTH {
        buffer_width
    } else {
        MAX_PREVIEW_CHARS_WIDTH
    };
    let h = if buffer_height < MAX_PREVIEW_CHARS_HEIGHT {
        buffer_height
    } else {
        MAX_PREVIEW_CHARS_HEIGHT
    };
    if w <= 0 || h <= 0 {
        return None;
    }
    Some((w, h))
}

/// Cached preview data for a layer.
#[derive(Debug, Clone)]
pub struct PreviewData {
    /// RGBA pixel data
    pub pixels: Vec<u8>,
    /// Source width in pixels
    pub src_width: u32,
    /// Source height in pixels
    pub src_height: u32,
}

impl PreviewData {
    pub fn new(pixels: Vec<u8>, width: u32, height: u32) -> (r: PreviewData)
        ensures
            r.pixels == pixels,
            r.src_width == width,
            r.src_height == height,
    {
        PreviewData { pixels, src_width: width, src_height: height }
    }
}

// ---------------------------------------------------------------------------
// Minimap
// ---------------------------------------------------------------------------

/// A texture slice of a tall minimap image.
#[derive(Debug, Clone)]
pub struct TextureSliceData {
    /// RGBA pixel data for this slice
    pub rgba_data: Arc<Vec<u8>>,
    /// Width of this slice
    pub width: u32,
    /// Height of this slice
    pub height: u32,
}

/// Mouse input on the minimap.
#[derive(Debug, Clone, Copy, PartialEq, Eq, Structural)]
pub enum MinimapMouse {
    /// Left button pressed; whether the pointer is inside the minimap
    Press { inside: bool },
    /// Left button released
    Release,
    /// Pointer moved; whether its position is known
    Move { has_position: bool },
}

/// What a mouse event on the minimap asks for.
#[derive(Debug, Clone, Copy, PartialEq, Eq, Structural)]
pub enum MinimapAction {
    Nothing,
    /// Scroll to the clicked position
    Click,
    /// Scroll while dragging
    Drag,
}

/// Mouse tracking state of the minimap.
#[derive(Debug, Clone, Copy, PartialEq, Eq, Structural)]
pub struct MinimapState {
    /// Whether the left mouse button is held
    pub is_dragging: bool,
}

impl MinimapState {
    pub fn new() -> (r: MinimapState)
        ensures
            !r.is_dragging,
    {
        MinimapState { is_dragging: false }
    }

    /// Handle a mouse event; `position_ok` tells whether the pointer maps to
    /// a position on the minimap's texture. A press inside starts a drag and
    /// scrolls there; moves while dragging keep scrolling (also outside the
    /// minimap); the release ends the drag.
    pub fn on_mouse(&mut self, event: MinimapMouse, position_ok: bool) -> (r: MinimapAction)
        ensures
            match event {
                MinimapMouse::Press { inside } => {
                    &&& final(self).is_dragging == (old(self).is_dragging || inside)
                    &&& r == if inside && position_ok {
                        MinimapAction::Click
                    } else {
                        MinimapAction::Nothing
                    }
                },
                MinimapMouse::Release => !final(self).is_dragging && r == MinimapAction::Nothing,
                MinimapMouse::Move { has_position } => {
                    &&& *final(self) == *old(self)
                    &&& r == if old(self).is_dragging && has_position && position_ok {
                        MinimapAction::Drag
                    } else {
                        MinimapAction::Nothing
                    }
                },
            },
    {
        match event {
            MinimapMouse::Press { inside } => {
                if inside {
                    self.is_dragging = true;
                    if position_ok {
                        return MinimapAction::Click;
                    }
                }
                MinimapAction::Nothing
            },
            MinimapMouse::Release => {
                self.is_dragging = false;
                MinimapAction::Nothing
            },
            MinimapMouse::Move { has_position } => {
                if self.is_dragging && has_position && position_ok {
                    MinimapAction::Drag
                } else {
                    MinimapAction::Nothing
                }
            },
        }
    }
}

impl Default for MinimapState {
    fn default() -> (r: MinimapState)
        ensures
            !r.is_dragging,
    {
        MinimapState::new()
    }
}

// ---------------------------------------------------------------------------
// Tag dialog
// ---------------------------------------------------------------------------

/// Where a tag is placed when the document is saved.
#[derive(Debug, Clone, Copy, PartialEq, Eq, Structural)]
pub enum TagPlacementChoice {
    InText,
    WithGotoXY,
}

impl TagPlacementChoice {
    /// Both choices, in the order a picker lists them.
    pub fn all() -> (r: Vec<TagPlacementChoice>)
        ensures
            r@ == seq![TagPlacementChoice::InText, TagPlacementChoice::WithGotoXY],
    {
        vec![TagPlacementChoice::InText, TagPlacementChoice::WithGotoXY]
    }

    /// The choice's name as a picker shows it.
    pub fn label(&self) -> (r: String)
        ensures
            *self == TagPlacementChoice::InText ==> r@ == "In text"@,
            *self == TagPlacementChoice::WithGotoXY ==> r@ == "With GotoXY"@,
    {
        match self {
            TagPlacementChoice::InText => String::from_str("In text"),
            TagPlacementChoice::WithGotoXY => String::from_str("With GotoXY"),
        }
    }
}

/// A tag of the document.
#[derive(Debug, Clone)]
pub struct Tag {
    pub position: Position,
    pub placement: TagPlacementChoice,
    pub preview: String,
    pub replacement_value: String,
    /// Width of the tag in cells (0 for none)
    pub length: usize,
}

/// Messages for the tag dialog.
#[derive(Debug, Clone)]
pub enum TagDialogMessage {
    SetPreview(String),
    SetReplacement(String),
    SetPosX(String),
    SetPosY(String),
    SetPlacement(TagPlacementChoice),
    Confirm,
    Cancel,
}

/// State of the tag dialog.
#[derive(Debug, Clone)]
pub struct TagDialog {
    pub position: Position,
    pub pos_x: String,
    pub pos_y: String,
    pub placement: TagPlacementChoice,
    pub preview: String,
    pub replacement_value: String,
    /// If `Some(index)`, an existing tag at that index is edited
    pub edit_index: Option<usize>,
    /// If `Some(length)`, the tag was made from a selection this wide
    pub length: Option<usize>,
    /// Whether the tag was made from a selection
    pub from_selection: bool,
}

/// The preview text of a new tag: "TAG".
pub open spec fn default_tag_preview() -> Seq<char> {
    seq!['T', 'A', 'G']
}

fn tag_text() -> (s: String)
    ensures
        s@ == default_tag_preview(),
{
    proof {
        reveal_strlit("TAG");
    }
    String::from_str("TAG")
}

impl TagDialog {
    /// A dialog for a new tag at `position`.
    pub fn new(position: Position) -> (d: TagDialog)
        ensures
            d.position == position,
            d.pos_x@ == spec_format_i32(position.x),
            d.pos_y@ == spec_format_i32(position.y),
            d.placement == TagPlacementChoice::InText,
            d.preview@ == default_tag_preview(),
            d.replacement_value@ == Seq::<char>::empty(),
            d.edit_index is None,
            d.length is None,
            !d.from_selection,
    {
        TagDialog {
            position,
            pos_x: format_i32(position.x),
            pos_y: format_i32(position.y),
            placement: TagPlacementChoice::InText,
            preview: tag_text(),
            replacement_value: String::new(),
            edit_index: None,
            length: None,
            from_selection: false,
        }
    }

    /// A dialog for a new tag made from a selection: the selection's text is
    /// the preview, unless it is blank.
    pub fn new_from_selection(position: Position, preview_text: String, selection_width: usize) -> (d: TagDialog)
        ensures
            d.position == position,
            d.pos_x@ == spec_format_i32(position.x),
            d.pos_y@ == spec_format_i32(position.y),
            d.placement == TagPlacementChoice::InText,
            (forall|i: int| 0 <= i < preview_text@.len() ==> is_white_space(#[trigger] preview_text@[i]))
                ==> d.preview@ == default_tag_preview(),
            !(forall|i: int| 0 <= i < preview_text@.len() ==> is_white_space(#[trigger] preview_text@[i]))
                ==> d.preview == preview_text,
            d.replacement_value@ == Seq::<char>::empty(),
            d.edit_index is None,
            d.length == Some(selection_width),
            d.from_selection,
    {
        let preview = if is_blank(preview_text.as_str()) {
            tag_text()
        } else {
            preview_text
        };
        TagDialog {
            position,
            pos_x: format_i32(position.x),
            pos_y: format_i32(position.y),
            placement: TagPlacementChoice::InText,
            preview,
            replacement_value: String::new(),
            edit_index: None,
            length: Some(selection_width),
            from_selection: true,
        }
    }

    /// A dialog editing tag number `index`.
    pub fn edit(tag: &Tag, index: usize) -> (d: TagDialog)
        ensures
            d.position == tag.position,
            d.pos_x@ == spec_format_i32(tag.position.x),
            d.pos_y@ == spec_format_i32(tag.position.y),
            d.placement == tag.placement,
            d.preview@ == tag.preview@,
            d.replacement_value@ == tag.replacement_value@,
            d.edit_index == Some(index),
            d.length == if tag.length > 0 {
                Some(tag.length)
            } else {
                None
            },
            !d.from_selection,
    {
        TagDialog {
            position: tag.position,
            pos_x: format_i32(tag.position.x),
            pos_y: format_i32(tag.position.y),
            placement: tag.placement,
            preview: tag.preview.clone(),
            replacement_value: tag.replacement_value.clone(),
            edit_index: Some(index),
            length: if tag.length > 0 {
                Some(tag.length)
            } else {
                None
            },
            from_selection: false,
        }
    }

    /// Whether an existing tag is edited.
    pub fn is_editing(&self) -> (r: bool)
        ensures
            r == self.edit_index is Some,
    {
        self.edit_index.is_some()
    }

    /// The dialog's title.
    pub fn title(&self) -> (r: &'static str)
        ensures
            self.edit_index is Some ==> r@ == "Edit Tag"@,
            self.edit_index is None && self.from_selection ==> r@ == "New Tag from Selection"@,
            self.edit_index is None && !self.from_selection ==> r@ == "New Tag"@,
    {
        if self.is_editing() {
            "Edit Tag"
        } else if self.from_selection {
            "New Tag from Selection"
        } else {
            "New Tag"
        }
    }
}

} // verus!
