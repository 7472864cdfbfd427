//! Core of a terminal sprite editor: a multi-frame glyph grid with a cursor,
//! operations that resize the grid, insert, delete and cycle frames, edit
//! cells, and an exporter that serializes the grid into parallel
//! symbol/color/highlight channels.

pub mod asset;
pub mod color_glyph;
pub mod command;
pub mod decorations;
pub mod export;
pub mod input;
pub mod json_format;
pub mod menu;
pub mod text;
