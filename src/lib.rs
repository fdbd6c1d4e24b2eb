//! Decoding of the eight-byte serial frames sent by a handheld digital
//! multimeter: the selected measurement mode, four seven-segment digits and
//! the decimal points between them.
pub mod baud;
pub mod bits;
pub mod meter;
pub mod mode;
pub mod segment;

pub use baud::{parse_baud, valid_baud};
pub use bits::get_bit_at;
pub use meter::{DecodeError, MeterState};
pub use mode::Mode;
pub use segment::SevenSegment;
