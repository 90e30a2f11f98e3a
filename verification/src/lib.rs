//! Decoder for the binary telemetry protocol of a handheld digital
//! multimeter on a byte-oriented serial link.
//!
//! The crate has two parts, consumed in sequence: a [`framer::Framer`]
//! that reassembles a noisy, unbounded byte stream into complete
//! 14-byte frames terminated by `0x0D 0x0A`, and a frame decoder
//! ([`decoder::decode`]) that turns one frame into a structured
//! [`decoder::Reading`]: status flags, measurement mode, range and
//! unit labels, and the signed scaled value together with its
//! normalization to a canonical unit.

pub mod decoder;
pub mod frame;
pub mod framer;
pub mod tables;
pub mod value;

pub use decoder::{decode, DecodeError, Reading};
pub use frame::{Frame, CR, FRAME_LEN, LF};
pub use framer::Framer;
pub use tables::{MeasType, Mode, RangeEntry, RangeFamily, RangeLabel, Unit};
pub use value::{normalize_val, Decimal};
