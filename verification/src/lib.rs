//! Bit-exact parsing of MPEG-1 Layer III frame metadata: the frame header,
//! the optional checksum, the side information and the scale factors.

pub mod bits;
pub mod buffer;
pub mod constant;
pub mod error;
pub mod frame;
pub mod header;
pub mod helper;
pub mod side_info;
