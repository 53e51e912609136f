//! A small vector-graphics scene model: shapes with styles, the path-command
//! language, an SVG markup writer and a lossless structural encoding.

pub mod utils;
pub mod styles;
pub mod shapes;
pub mod export;
pub mod json;
pub mod codec;
pub mod preview;
pub mod menu;
