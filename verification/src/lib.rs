//! A background image layer for a rendering surface.
//!
//! The layer remembers which image file backs the background, keeps the
//! decoded image's dimensions, caches the scale transform that its fill
//! mode asks for, and tells the renderer what to composite and with which
//! alpha.  Reading and decoding the file, and the actual canvas calls,
//! happen outside this crate: the layer is handed the decode outcome and
//! hands back a draw command.

pub mod background;
