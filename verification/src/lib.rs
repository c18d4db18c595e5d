//! Decoding and rendering of a console's title-ownership record file.

pub mod category;
pub mod error;
pub mod format;
pub mod names;
pub mod record;
pub mod text;
