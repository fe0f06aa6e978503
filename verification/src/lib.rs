//! Editing logic behind the ANSI art editor: document format modes, the
//! file-settings dialog, selection dragging, palette and tool grids, the
//! segmented control and F-key toolbar layouts, glyph atlases and font lists.
//!
//! Everything here works on plain values; the widgets that draw it and the
//! engine that owns the document hand those values in and take the results out.

pub mod format_mode;
pub mod geometry;
pub mod selection;
pub mod tools;
pub mod paint;
pub mod glyph_atlas;
pub mod text;
pub mod file_settings;
pub mod segmented;
pub mod palette_grid;
pub mod fkey;
pub mod keys;
pub mod markers;
pub mod panels;
pub mod font_selector;
pub mod editor;
