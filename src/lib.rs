//! Reading the information block that firmware images for a family of
//! motherboards carry, and the file name the board expects the image to have.
//!
//! An image is either scanned for the `$BOOTEFI$` marker, after which the
//! block follows, or read at a fixed offset; each format has its own table of
//! field ranges. Text fields are decoded leniently and cut at their first NUL;
//! a date that cannot be read falls back to 1 January 1970.

pub mod bios;
pub mod date;
pub mod laws;
pub mod layout;
pub mod locate;
pub mod text;

pub use bios::{BiosInfo, DecodeError, is_file_valid, locate_block};
pub use date::{BuildDate, date_or_default, is_valid_date, parse_build_date};
pub use layout::{FieldRange, Layout, Variant, layout_of};
pub use locate::locate_marker;
pub use text::{bytes_to_string, trim_after_null};
