//! The fixed tables of the format.

use vstd::prelude::*;

verus! {

/// Half the bitrate in kbit/s for each bitrate index of MPEG-1 Layer III.
pub const HALF_BITRATE_MPEG1_LAYER3: [u8; 15] = [
    0,
    16,
    20,
    24,
    28,
    32,
    40,
    48,
    56,
    64,
    80,
    96,
    112,
    128,
    160,
];

/// The sampling frequency in Hz for each frequency index of MPEG-1.
pub const FREQUENCY_MPEG1: [u16; 3] = [44100, 48000, 32000];

/// The number of samples that one frame holds per channel.
pub const FRAME_SAMPLES: u16 = 1152;

} // verus!
