//! Fixed-width receipt layout for narrow thermal printers.
//!
//! Every item, tax and total line of a receipt is fitted to exactly the
//! configured number of characters. The layout is computed in full, as plain
//! text or as a sequence of printer directives, before anything is sent to a
//! device.

pub mod barcode;
pub mod directive;
pub mod dither;
pub mod error;
pub mod item;
pub mod options;
pub mod pattern;
pub mod price;
pub mod receipt;
pub mod text;
