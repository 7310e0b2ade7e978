//! Render-bindable colour sources: a four-channel colour with a fixed byte
//! layout, a closed sum over {constant colour, texture handle} that reports
//! its shader variant and uniform bytes, and a small asset table keyed by
//! well-known handles.

pub mod asset;
pub mod bind;
pub mod color;
pub mod source;
pub mod ui;
