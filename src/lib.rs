//! Recognition of common cursor shapes from RGBA pixel data, and the
//! bundled SVG replacement image of each shape.
pub mod decode;
pub mod detect;
pub mod shape;

pub use decode::analyze_cursor_bytes;
pub use shape::{load_cursor_svg, CommonCursorType, CursorTypeMap};
