//! A minimal line-editor core: a line buffer with edit primitives, a
//! scrollable viewport, and a cursor controller that keeps screen-space and
//! buffer-space coordinates consistent across edits, scrolling and resizes.

pub mod buffer;
pub mod editor;
pub mod screen;
pub mod text;

