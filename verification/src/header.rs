//! The fixed 32-bit frame header.

use vstd::prelude::*;
use crate::bits::{bits_value, lemma_bits_value_bound, lemma_bits_value_field};
use crate::buffer::Buffer;
use crate::constant::{FREQUENCY_MPEG1, HALF_BITRATE_MPEG1_LAYER3};
use crate::error::ErrorType;
use vstd::arithmetic::power2::lemma2_to64;

verus! {

/// The version of the standard that a frame follows.
#[derive(Debug, Clone, Copy, PartialEq, Eq)]
pub enum Version {
    MPEG1,
    MPEG2,
}

/// The layer of a frame. Only Layer III frames are decoded further.
#[derive(Debug, Clone, Copy, PartialEq, Eq)]
pub enum Layer {
    Layer1,
    Layer2,
    Layer3,
}

/// The channel mode of a frame.
#[derive(Debug, Clone, Copy, PartialEq, Eq)]
pub enum Mode {
    Stereo,
    JointStereo,
    DualChannel,
    SingleChannel,
}

/// The decoded header of one frame.
///
/// `bitrate` and `frequency` are the indices as they stand in the stream;
/// `get_bitrate` and `get_frequency` resolve them.
#[derive(Debug, Clone, Copy, PartialEq, Eq)]
pub struct Header {
    pub sync_word: u16,
    pub version: Version,
    pub layer: Layer,
    /// True when the protection bit of the stream is 0.
    pub error_protection: bool,
    pub bitrate: u8,
    pub frequency: u8,
    pub padding_bit: bool,
    pub private_bit: bool,
    pub mode: Mode,
    pub intensity_stereo: bool,
    pub ms_stereo: bool,
    pub copy_right: bool,
    /// True when the original bit of the stream is 0.
    pub copy_of_original: bool,
    pub emphasis: u8,
}

/// The version that a version value stands for.
pub open spec fn version_of(version: u8) -> Result<Version, ErrorType> {
    if version == 0 {
        Ok(Version::MPEG2)
    } else if version == 1 {
        Ok(Version::MPEG1)
    } else {
        Err(ErrorType::UnknownVersion)
    }
}

/// The layer that a layer value stands for.
pub open spec fn layer_of(layer: u8) -> Result<Layer, ErrorType> {
    if layer == 1 {
        Ok(Layer::Layer3)
    } else if layer == 2 {
        Ok(Layer::Layer2)
    } else if layer == 3 {
        Ok(Layer::Layer1)
    } else {
        Err(ErrorType::UnknownLayer)
    }
}

/// The channel mode that a mode value stands for.
pub open spec fn mode_of(mode: u8) -> Result<Mode, ErrorType> {
    if mode == 0 {
        Ok(Mode::Stereo)
    } else if mode == 1 {
        Ok(Mode::JointStereo)
    } else if mode == 2 {
        Ok(Mode::DualChannel)
    } else if mode == 3 {
        Ok(Mode::SingleChannel)
    } else {
        Err(ErrorType::UnknownMode)
    }
}

/// The header that a 32-bit word holds, its first bit being the first bit
/// of the sync pattern.
///
/// From the first bit on the word holds: the sync pattern (12 bits), the
/// version (1), the layer (2), the protection bit (1), the bitrate index
/// (4), the frequency index (2), the padding bit (1), the private bit (1),
/// the channel mode (2), the intensity-stereo and the ms-stereo flag (1
/// each), the copyright bit (1), the original bit (1) and the emphasis (2).
/// Each field is cut out by the weight of its lowest bit and the number of
/// values that it can take.
///
/// A sync pattern other than `0xFFF` is refused before anything else, then
/// the layer value 0.
pub open spec fn header_of_word(word: u32) -> Result<Header, ErrorType> {
    let version = version_of(((word / 0x8_0000) % 2) as u8);
    let layer = layer_of(((word / 0x2_0000) % 4) as u8);
    let mode = mode_of(((word / 0x40) % 4) as u8);
    if word / 0x10_0000 != 0xfff {
        Err(ErrorType::InvalidHeader)
    } else if version is Err {
        Err(version->Err_0)
    } else if layer is Err {
        Err(layer->Err_0)
    } else if mode is Err {
        Err(mode->Err_0)
    } else {
        Ok(
            Header {
                sync_word: (word / 0x10_0000) as u16,
                version: version->Ok_0,
                layer: layer->Ok_0,
                error_protection: (word / 0x1_0000) % 2 == 0,
                bitrate: ((word / 0x1000) % 16) as u8,
                frequency: ((word / 0x400) % 4) as u8,
                padding_bit: (word / 0x200) % 2 == 1,
                private_bit: (word / 0x100) % 2 == 1,
                mode: mode->Ok_0,
                intensity_stereo: (word / 0x20) % 2 == 1,
                ms_stereo: (word / 0x10) % 2 == 1,
                copy_right: (word / 0x8) % 2 == 1,
                copy_of_original: (word / 0x4) % 2 == 0,
                emphasis: (word % 4) as u8,
            },
        )
    }
}

/// The header that stands at bit `pos` of `data`.
pub open spec fn header_at(data: Seq<u8>, pos: int) -> Result<Header, ErrorType> {
    if pos + 32 > 8 * data.len() {
        Err(ErrorType::OutOfIndex)
    } else {
        header_of_word(bits_value(data, pos, 32) as u32)
    }
}

/// The bitrate in kbit/s that a bitrate index stands for.
///
/// The only bitrate table is that of MPEG-1 Layer III, with the indices 0
/// to 14.
pub open spec fn bitrate_of(version: Version, layer: Layer, index: u8) -> Result<u16, ErrorType> {
    if version == Version::MPEG1 && layer == Layer::Layer3 && index < 15 {
        Ok((2 * HALF_BITRATE_MPEG1_LAYER3[index as int]) as u16)
    } else {
        Err(ErrorType::UnknownBitrate)
    }
}

/// The sampling frequency in Hz that a frequency index stands for.
///
/// The only frequency table is that of MPEG-1, with the indices 0 to 2.
pub open spec fn frequency_of(version: Version, index: u8) -> Result<u16, ErrorType> {
    if version == Version::MPEG1 && index < 3 {
        Ok(FREQUENCY_MPEG1[index as int])
    } else {
        Err(ErrorType::UnknownFrequency)
    }
}

impl Layer {
    /// Decodes the two layer bits: `01` is Layer III, `10` Layer II, `11`
    /// Layer I.
    pub fn decode_layer(layer: u8) -> (result: Result<Layer, ErrorType>)
        ensures
            result == layer_of(layer),
    {
        match layer {
            1 => Ok(Layer::Layer3),
            2 => Ok(Layer::Layer2),
            3 => Ok(Layer::Layer1),
            _ => Err(ErrorType::UnknownLayer),
        }
    }

    /// The layer's name for a reader.
    pub fn name(&self) -> (name: &'static str)
        ensures
            name@ == match *self {
                Layer::Layer3 => "Layer III"@,
                Layer::Layer2 => "Layer II"@,
                Layer::Layer1 => "Layer I"@,
            },
    {
        match self {
            Layer::Layer3 => "Layer III",
            Layer::Layer2 => "Layer II",
            Layer::Layer1 => "Layer I",
        }
    }
}

impl Version {
    /// Decodes the version bit: 1 is MPEG-1, 0 is MPEG-2.
    pub fn decode_version(version: u8) -> (result: Result<Version, ErrorType>)
        ensures
            result == version_of(version),
    {
        match version {
            0 => Ok(Version::MPEG2),
            1 => Ok(Version::MPEG1),
            _ => Err(ErrorType::UnknownVersion),
        }
    }

    /// The version's name for a reader.
    pub fn name(&self) -> (name: &'static str)
        ensures
            name@ == match *self {
                Version::MPEG1 => "MPEG-1"@,
                Version::MPEG2 => "MPEG-2"@,
            },
    {
        match self {
            Version::MPEG1 => "MPEG-1",
            Version::MPEG2 => "MPEG-2",
        }
    }
}

impl Mode {
    /// Decodes the two mode bits.
    pub fn decode_mode(mode: u8) -> (result: Result<Mode, ErrorType>)
        ensures
            result == mode_of(mode),
    {
        match mode {
            0 => Ok(Mode::Stereo),
            1 => Ok(Mode::JointStereo),
            2 => Ok(Mode::DualChannel),
            3 => Ok(Mode::SingleChannel),
            _ => Err(ErrorType::UnknownMode),
        }
    }

    /// The mode's name for a reader.
    pub fn name(&self) -> (name: &'static str)
        ensures
            name@ == match *self {
                Mode::Stereo => "Stereo"@,
                Mode::JointStereo => "Joint Stereo"@,
                Mode::DualChannel => "Dual Channel"@,
                Mode::SingleChannel => "Single Channel"@,
            },
    {
        match self {
            Mode::Stereo => "Stereo",
            Mode::JointStereo => "Joint Stereo",
            Mode::DualChannel => "Dual Channel",
            Mode::SingleChannel => "Single Channel",
        }
    }

    /// Whether the mode has one channel.
    pub fn is_mono(&self) -> (mono: bool)
        ensures
            mono == (*self == Mode::SingleChannel),
    {
        match self {
            Mode::SingleChannel => true,
            _ => false,
        }
    }
}

impl Header {
    /// Accepts a header with the sync pattern `0xFFF` and Layer III.
    pub fn validate_header(&self) -> (result: Result<(), ErrorType>)
        ensures
            result == if self.sync_word == 0xfff && self.layer == Layer::Layer3 {
                Ok::<(), ErrorType>(())
            } else {
                Err::<(), ErrorType>(ErrorType::InvalidHeader)
            },
    {
        let layer3 = match self.layer {
            Layer::Layer3 => true,
            _ => false,
        };
        if self.sync_word == 0xfff && layer3 {
            return Ok(());
        }
        Err(ErrorType::InvalidHeader)
    }

    /// Decodes the header that a 32-bit word holds.
    pub fn from_word(word: u32) -> (result: Result<Header, ErrorType>)
        ensures
            result == header_of_word(word),
            result matches Ok(header) ==> header.encodable(),
    {
        proof {
            assert({
                &&& word >> 20 == word / 0x10_0000
                &&& (word >> 19) & 1 == (word / 0x8_0000) % 2
                &&& (word >> 17) & 3 == (word / 0x2_0000) % 4
                &&& (word >> 16) & 1 == (word / 0x1_0000) % 2
                &&& (word >> 12) & 15 == (word / 0x1000) % 16
                &&& (word >> 10) & 3 == (word / 0x400) % 4
                &&& (word >> 9) & 1 == (word / 0x200) % 2
                &&& (word >> 8) & 1 == (word / 0x100) % 2
                &&& (word >> 6) & 3 == (word / 0x40) % 4
                &&& (word >> 5) & 1 == (word / 0x20) % 2
                &&& (word >> 4) & 1 == (word / 0x10) % 2
                &&& (word >> 3) & 1 == (word / 0x8) % 2
                &&& (word >> 2) & 1 == (word / 0x4) % 2
                &&& word & 3 == word % 4
            }) by (bit_vector);
        }
        let sync_word = word >> 20;
        if sync_word != 0xfff {
            return Err(ErrorType::InvalidHeader);
        }
        let version = Version::decode_version(((word >> 19) & 1) as u8)?;
        let layer = Layer::decode_layer(((word >> 17) & 3) as u8)?;
        let mode = Mode::decode_mode(((word >> 6) & 3) as u8)?;
        Ok(
            Header {
                sync_word: sync_word as u16,
                version,
                layer,
                error_protection: (word >> 16) & 1 == 0,
                bitrate: ((word >> 12) & 15) as u8,
                frequency: ((word >> 10) & 3) as u8,
                padding_bit: (word >> 9) & 1 == 1,
                private_bit: (word >> 8) & 1 == 1,
                mode,
                intensity_stereo: (word >> 5) & 1 == 1,
                ms_stereo: (word >> 4) & 1 == 1,
                copy_right: (word >> 3) & 1 == 1,
                copy_of_original: (word >> 2) & 1 == 0,
                emphasis: (word & 3) as u8,
            },
        )
    }

    /// Decodes the header that stands at the cursor and moves the cursor 32
    /// bits on.
    ///
    /// A refused header leaves the cursor where it was.
    pub fn create_from_buffer(buffer: &mut Buffer) -> (result: Result<Header, ErrorType>)
        requires
            old(buffer).wf(),
        ensures
            result == header_at(old(buffer).data@, old(buffer).pos as int),
            result matches Ok(header) ==> header.encodable(),
            result is Ok ==> final(buffer).pos == old(buffer).pos + 32,
            result is Ok ==> final(buffer).cursor_in_bounds(),
            result is Err ==> final(buffer)@ == old(buffer)@,
            final(buffer).data == old(buffer).data,
            final(buffer).total_bits == old(buffer).total_bits,
    {
        let start = buffer.pos;
        let word = buffer.get_bits(32)?;
        let header = Header::from_word(word);
        if header.is_err() {
            buffer.set_pos(start);
        }
        header
    }

    /// The bitrate of the frame in kbit/s.
    pub fn get_bitrate(&self) -> (result: Result<u16, ErrorType>)
        ensures
            result == bitrate_of(self.version, self.layer, self.bitrate),
    {
        match (self.version, self.layer) {
            (Version::MPEG1, Layer::Layer3) => {
                if self.bitrate < 15 {
                    let half: u16 = HALF_BITRATE_MPEG1_LAYER3[self.bitrate as usize] as u16;
                    Ok(half * 2)
                } else {
                    Err(ErrorType::UnknownBitrate)
                }
            },
            _ => Err(ErrorType::UnknownBitrate),
        }
    }

    /// The sampling frequency of the frame in Hz.
    pub fn get_frequency(&self) -> (result: Result<u16, ErrorType>)
        ensures
            result == frequency_of(self.version, self.frequency),
    {
        match self.version {
            Version::MPEG1 => {
                if self.frequency < 3 {
                    Ok(FREQUENCY_MPEG1[self.frequency as usize])
                } else {
                    Err(ErrorType::UnknownFrequency)
                }
            },
            Version::MPEG2 => Err(ErrorType::UnknownFrequency),
        }
    }

    /// The name of the emphasis for a reader; empty for a value above 3.
    pub fn emphasis_name(&self) -> (name: &'static str)
        ensures
            name@ == if self.emphasis == 0 {
                "None"@
            } else if self.emphasis == 1 {
                "50/15 ms"@
            } else if self.emphasis == 2 {
                "Reserved"@
            } else if self.emphasis == 3 {
                "CCIT J.17"@
            } else {
                ""@
            },
    {
        match self.emphasis {
            0 => "None",
            1 => "50/15 ms",
            2 => "Reserved",
            3 => "CCIT J.17",
            _ => "",
        }
    }
}

/// The number that a flag writes in its bit.
pub open spec fn flag_bit(flag: bool) -> nat {
    if flag {
        1
    } else {
        0
    }
}

/// The value that stands for a version in the stream.
pub open spec fn version_bits(version: Version) -> nat {
    match version {
        Version::MPEG1 => 1,
        Version::MPEG2 => 0,
    }
}

/// The value that stands for a layer in the stream.
pub open spec fn layer_bits(layer: Layer) -> nat {
    match layer {
        Layer::Layer3 => 1,
        Layer::Layer2 => 2,
        Layer::Layer1 => 3,
    }
}

/// The value that stands for a channel mode in the stream.
pub open spec fn mode_bits(mode: Mode) -> nat {
    match mode {
        Mode::Stereo => 0,
        Mode::JointStereo => 1,
        Mode::DualChannel => 2,
        Mode::SingleChannel => 3,
    }
}

/// The 32-bit word that holds a header: each field at its place, the
/// protection bit and the original bit inverted.
pub open spec fn word_of_header(header: Header) -> nat {
    header.sync_word as nat * 0x10_0000
        + version_bits(header.version) * 0x8_0000
        + layer_bits(header.layer) * 0x2_0000
        + flag_bit(!header.error_protection) * 0x1_0000
        + header.bitrate as nat * 0x1000
        + header.frequency as nat * 0x400
        + flag_bit(header.padding_bit) * 0x200
        + flag_bit(header.private_bit) * 0x100
        + mode_bits(header.mode) * 0x40
        + flag_bit(header.intensity_stereo) * 0x20
        + flag_bit(header.ms_stereo) * 0x10
        + flag_bit(header.copy_right) * 0x8
        + flag_bit(!header.copy_of_original) * 0x4
        + header.emphasis as nat
}

impl Header {
    /// Every field fits the bits that the stream has for it, and the sync
    /// pattern is `0xFFF`.
    pub open spec fn encodable(&self) -> bool {
        &&& self.sync_word == 0xfff
        &&& self.bitrate < 16
        &&& self.frequency < 4
        &&& self.emphasis < 4
    }
}

/// Fourteen numbers packed into one word, each in its own bits, are found
/// again in those bits.
proof fn lemma_packed_fields(
    sync: u32,
    version: u32,
    layer: u32,
    protection: u32,
    bitrate: u32,
    frequency: u32,
    padding: u32,
    private: u32,
    mode: u32,
    intensity: u32,
    ms: u32,
    copyright: u32,
    original: u32,
    emphasis: u32,
    word: u32,
)
    by (bit_vector)
    requires
        sync < 0x1000,
        version < 2,
        layer < 4,
        protection < 2,
        bitrate < 16,
        frequency < 4,
        padding < 2,
        private < 2,
        mode < 4,
        intensity < 2,
        ms < 2,
        copyright < 2,
        original < 2,
        emphasis < 4,
        word == sync * 0x10_0000
            + version * 0x8_0000
            + layer * 0x2_0000
            + protection * 0x1_0000
            + bitrate * 0x1000
            + frequency * 0x400
            + padding * 0x200
            + private * 0x100
            + mode * 0x40
            + intensity * 0x20
            + ms * 0x10
            + copyright * 0x8
            + original * 0x4
            + emphasis,
    ensures
        word / 0x10_0000 == sync,
        (word / 0x8_0000) % 2 == version,
        (word / 0x2_0000) % 4 == layer,
        (word / 0x1_0000) % 2 == protection,
        (word / 0x1000) % 16 == bitrate,
        (word / 0x400) % 4 == frequency,
        (word / 0x200) % 2 == padding,
        (word / 0x100) % 2 == private,
        (word / 0x40) % 4 == mode,
        (word / 0x20) % 2 == intensity,
        (word / 0x10) % 2 == ms,
        (word / 0x8) % 2 == copyright,
        (word / 0x4) % 2 == original,
        word % 4 == emphasis,
{
}

/// Round trip: the word that holds a header decodes to that header, field
/// for field.
pub proof fn lemma_header_round_trip(header: Header)
    requires
        header.encodable(),
    ensures
        word_of_header(header) <= u32::MAX,
        header_of_word(word_of_header(header) as u32) == Ok::<Header, ErrorType>(header),
{
    lemma_packed_fields(
        header.sync_word as u32,
        version_bits(header.version) as u32,
        layer_bits(header.layer) as u32,
        flag_bit(!header.error_protection) as u32,
        header.bitrate as u32,
        header.frequency as u32,
        flag_bit(header.padding_bit) as u32,
        flag_bit(header.private_bit) as u32,
        mode_bits(header.mode) as u32,
        flag_bit(header.intensity_stereo) as u32,
        flag_bit(header.ms_stereo) as u32,
        flag_bit(header.copy_right) as u32,
        flag_bit(!header.copy_of_original) as u32,
        header.emphasis as u32,
        word_of_header(header) as u32,
    );
}

/// A word is the sum of its fourteen fields, each at its weight.
proof fn lemma_unpacked_word(word: u32)
    by (bit_vector)
    ensures
        word == (word / 0x10_0000) * 0x10_0000
            + ((word / 0x8_0000) % 2) * 0x8_0000
            + ((word / 0x2_0000) % 4) * 0x2_0000
            + ((word / 0x1_0000) % 2) * 0x1_0000
            + ((word / 0x1000) % 16) * 0x1000
            + ((word / 0x400) % 4) * 0x400
            + ((word / 0x200) % 2) * 0x200
            + ((word / 0x100) % 2) * 0x100
            + ((word / 0x40) % 4) * 0x40
            + ((word / 0x20) % 2) * 0x20
            + ((word / 0x10) % 2) * 0x10
            + ((word / 0x8) % 2) * 0x8
            + ((word / 0x4) % 2) * 0x4
            + word % 4,
{
}

/// Round trip the other way: a word that decodes is the word that holds the
/// decoded header, so the header keeps every bit of the word.
pub proof fn lemma_word_round_trip(word: u32)
    requires
        header_of_word(word) is Ok,
    ensures
        header_of_word(word)->Ok_0.encodable(),
        word_of_header(header_of_word(word)->Ok_0) == word,
{
    lemma_unpacked_word(word);
}

/// Every field of a header that was decoded from the stream is the number
/// that its own bits write: twelve bits of sync pattern, then the version,
/// the layer and so on, each range behind the one before, 32 bits in all.
pub proof fn lemma_header_fields_are_bit_ranges(data: Seq<u8>, pos: int)
    requires
        header_at(data, pos) is Ok,
    ensures
        ({
            let header = header_at(data, pos)->Ok_0;
            &&& header.sync_word == bits_value(data, pos, 12)
            &&& version_bits(header.version) == bits_value(data, pos + 12, 1)
            &&& layer_bits(header.layer) == bits_value(data, pos + 13, 2)
            &&& flag_bit(!header.error_protection) == bits_value(data, pos + 15, 1)
            &&& header.bitrate == bits_value(data, pos + 16, 4)
            &&& header.frequency == bits_value(data, pos + 20, 2)
            &&& flag_bit(header.padding_bit) == bits_value(data, pos + 22, 1)
            &&& flag_bit(header.private_bit) == bits_value(data, pos + 23, 1)
            &&& mode_bits(header.mode) == bits_value(data, pos + 24, 2)
            &&& flag_bit(header.intensity_stereo) == bits_value(data, pos + 26, 1)
            &&& flag_bit(header.ms_stereo) == bits_value(data, pos + 27, 1)
            &&& flag_bit(header.copy_right) == bits_value(data, pos + 28, 1)
            &&& flag_bit(!header.copy_of_original) == bits_value(data, pos + 29, 1)
            &&& header.emphasis == bits_value(data, pos + 30, 2)
        }),
{
    lemma2_to64();
    lemma_bits_value_bound(data, pos, 32);
    lemma_bits_value_field(data, pos, 0, 12, 20);
    lemma_bits_value_field(data, pos, 12, 1, 19);
    lemma_bits_value_field(data, pos, 13, 2, 17);
    lemma_bits_value_field(data, pos, 15, 1, 16);
    lemma_bits_value_field(data, pos, 16, 4, 12);
    lemma_bits_value_field(data, pos, 20, 2, 10);
    lemma_bits_value_field(data, pos, 22, 1, 9);
    lemma_bits_value_field(data, pos, 23, 1, 8);
    lemma_bits_value_field(data, pos, 24, 2, 6);
    lemma_bits_value_field(data, pos, 26, 1, 5);
    lemma_bits_value_field(data, pos, 27, 1, 4);
    lemma_bits_value_field(data, pos, 28, 1, 3);
    lemma_bits_value_field(data, pos, 29, 1, 2);
    lemma_bits_value_field(data, pos, 30, 2, 0);
}

} // verus!
