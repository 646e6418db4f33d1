//! The frame: header, optional checksum, side information and the scale
//! factors of every granule.

use vstd::prelude::*;
use vstd::arithmetic::div_mod::{lemma_fundamental_div_mod, lemma_mod_bound};
use crate::bits::bits_value;
use crate::buffer::Buffer;
use crate::constant::{FREQUENCY_MPEG1, HALF_BITRATE_MPEG1_LAYER3};
use crate::error::{decoded_as, ErrorType};
use crate::header::{bitrate_of, flag_bit, frequency_of, header_at, Header, Mode};
use crate::side_info::{layout_of, side_info_at, GranuleInfo, SideInfo, SideInfoView};

verus! {

/// The bit widths of the two kinds of scale factor, for each value of the
/// scale-factor selector.
pub const SLEN_TABLE: [[u8; 2]; 16] = [
    [0, 0],
    [0, 1],
    [0, 2],
    [0, 3],
    [3, 0],
    [1, 1],
    [1, 2],
    [1, 3],
    [2, 1],
    [2, 2],
    [2, 3],
    [3, 1],
    [3, 2],
    [3, 3],
    [4, 2],
    [4, 3],
];

/// What a checksum verification found.
#[derive(Debug, Clone, Copy, PartialEq, Eq)]
#[non_exhaustive]
pub enum CrcCheck {
    /// The format's checksum algorithm is not part of this crate, so the
    /// checksum was neither confirmed nor refuted.
    Unsupported,
}

/// What was decoded of one granule of one channel.
#[derive(Debug)]
pub struct GranuleData {
    pub scale_factor: Vec<u8>,
    /// The spectral payload. This crate leaves it empty: the spectral
    /// decoder fills it.
    pub huffman_code: Vec<u8>,
}

/// One frame.
#[derive(Debug)]
pub struct Frame {
    pub header: Header,
    /// The checksum, present if and only if the header says that the frame
    /// is protected.
    pub crc: Option<u16>,
    pub side_info: SideInfo,
    /// The derived length of the frame in bytes.
    pub length_byte: usize,
    /// The bit at which the frame's header begins.
    pub pos: usize,
    /// One entry for each granule of the side information, in its order.
    pub granules_data: Vec<GranuleData>,
}

/// A `GranuleData` as a mathematical value.
pub struct GranuleDataView {
    pub scale_factor: Seq<u8>,
    pub huffman_code: Seq<u8>,
}

/// A `Frame` as a mathematical value.
pub struct FrameView {
    pub header: Header,
    pub crc: Option<u16>,
    pub side_info: SideInfoView,
    pub length_byte: usize,
    pub pos: usize,
    pub granules_data: Seq<GranuleDataView>,
}

impl View for GranuleData {
    type V = GranuleDataView;

    open spec fn view(&self) -> GranuleDataView {
        GranuleDataView { scale_factor: self.scale_factor@, huffman_code: self.huffman_code@ }
    }
}

impl View for Frame {
    type V = FrameView;

    open spec fn view(&self) -> FrameView {
        FrameView {
            header: self.header,
            crc: self.crc,
            side_info: self.side_info@,
            length_byte: self.length_byte,
            pos: self.pos,
            granules_data: Seq::new(
                self.granules_data@.len(),
                |i: int| self.granules_data@[i]@,
            ),
        }
    }
}

/// The derived length of a frame in bytes, by which a caller steps to the
/// next frame: 144000 times the bitrate in kbit/s, divided by the frequency
/// in Hz and rounded down, and one more with the padding bit.
pub open spec fn frame_length(bitrate: u16, frequency: u16, padding: bool) -> nat {
    (144000 * bitrate as nat) / (frequency as nat) + flag_bit(padding)
}

/// What decoding a frame at bit `pos` gives: the header, the checksum if
/// the header announces one, the side information, and the derived length;
/// the granule data is still empty.
pub open spec fn frame_at(data: Seq<u8>, pos: int) -> Result<FrameView, ErrorType> {
    let header = header_at(data, pos);
    let protected = header->Ok_0.error_protection;
    let mode = header->Ok_0.mode;
    let side_pos = if protected {
        pos + 48
    } else {
        pos + 32
    };
    let side_info = side_info_at(data, side_pos, mode);
    let bitrate = bitrate_of(header->Ok_0.version, header->Ok_0.layer, header->Ok_0.bitrate);
    let frequency = frequency_of(header->Ok_0.version, header->Ok_0.frequency);
    if header is Err {
        Err(header->Err_0)
    } else if protected && pos + 48 > 8 * data.len() {
        Err(ErrorType::OutOfIndex)
    } else if side_info is Err {
        Err(side_info->Err_0)
    } else if bitrate is Err {
        Err(bitrate->Err_0)
    } else if frequency is Err {
        Err(frequency->Err_0)
    } else {
        Ok(
            FrameView {
                header: header->Ok_0,
                crc: if protected {
                    Some(bits_value(data, pos + 32, 16) as u16)
                } else {
                    None
                },
                side_info: side_info->Ok_0,
                length_byte: frame_length(
                    bitrate->Ok_0,
                    frequency->Ok_0,
                    header->Ok_0.padding_bit,
                ) as usize,
                pos: pos as usize,
                granules_data: Seq::new(
                    layout_of(mode).granules as nat,
                    |i: int|
                        GranuleDataView { scale_factor: Seq::empty(), huffman_code: Seq::empty() },
                ),
            },
        )
    }
}

/// The width in bits of the scale factors of the low bands.
pub open spec fn slen1(compress: u8) -> nat {
    SLEN_TABLE[compress as int][0] as nat
}

/// The width in bits of the scale factors of the high bands.
pub open spec fn slen2(compress: u8) -> nat {
    SLEN_TABLE[compress as int][1] as nat
}

/// `count` numbers of `width` bits each, read one behind the other from
/// bit `pos`.
pub open spec fn run_at(data: Seq<u8>, pos: int, count: nat, width: nat) -> Seq<u8> {
    Seq::new(count, |k: int| bits_value(data, pos + k * width, width) as u8)
}

/// The scale factors of the bands `lo` to `hi - 1`: those of the channel's
/// first granule if the group is reused, else read from bit `pos`.
pub open spec fn group_at(
    data: Seq<u8>,
    pos: int,
    reused: bool,
    lo: int,
    hi: int,
    width: nat,
    first: Seq<u8>,
) -> Seq<u8> {
    if reused {
        first.subrange(lo, hi)
    } else {
        run_at(data, pos, (hi - lo) as nat, width)
    }
}

/// The number of bits that a group of `count` bands takes in the stream.
pub open spec fn group_bits(reused: bool, count: nat, width: nat) -> nat {
    if reused {
        0
    } else {
        count * width
    }
}

/// The scale factors of a granule whose block type is not 2, read from bit
/// `pos`: 18 of the first width (17 with the mixed-block flag), 18 of the
/// second, and three zeros.
pub open spec fn long_scale_factors(
    data: Seq<u8>,
    pos: int,
    mixed: bool,
    width1: nat,
    width2: nat,
) -> Seq<u8> {
    let head: nat = if mixed {
        17
    } else {
        18
    };
    run_at(data, pos, head, width1) + run_at(data, pos + head * width1, 18, width2) + seq![
        0u8,
        0u8,
        0u8,
    ]
}

/// The number of bits that `long_scale_factors` reads.
pub open spec fn long_bits(mixed: bool, width1: nat, width2: nat) -> nat {
    if mixed {
        17 * width1 + 18 * width2
    } else {
        18 * width1 + 18 * width2
    }
}

/// Whether the reuse flags mark the group of bands `group`: the flags are
/// four bits, the highest for group 0 and the lowest for group 3.
pub open spec fn group_reused(reuse: u8, group: int) -> bool {
    if group == 0 {
        (reuse / 8) % 2 == 1
    } else if group == 1 {
        (reuse / 4) % 2 == 1
    } else if group == 2 {
        (reuse / 2) % 2 == 1
    } else {
        reuse % 2 == 1
    }
}

/// The scale factors of a granule of block type 2, read from bit `pos`:
/// four groups of bands, each reused from `first` or read, and one zero.
pub open spec fn short_scale_factors(
    data: Seq<u8>,
    pos: int,
    reuse: u8,
    width1: nat,
    width2: nat,
    first: Seq<u8>,
) -> Seq<u8> {
    let pos1 = pos + group_bits(group_reused(reuse, 0), 6, width1);
    let pos2 = pos1 + group_bits(group_reused(reuse, 1), 5, width1);
    let pos3 = pos2 + group_bits(group_reused(reuse, 2), 5, width2);
    group_at(data, pos, group_reused(reuse, 0), 0, 6, width1, first)
        + group_at(data, pos1, group_reused(reuse, 1), 6, 11, width1, first)
        + group_at(data, pos2, group_reused(reuse, 2), 11, 16, width2, first)
        + group_at(data, pos3, group_reused(reuse, 3), 16, 21, width2, first)
        + seq![0u8]
}

/// The number of bits that `short_scale_factors` reads.
pub open spec fn short_bits(reuse: u8, width1: nat, width2: nat) -> nat {
    group_bits(group_reused(reuse, 0), 6, width1)
        + group_bits(group_reused(reuse, 1), 5, width1)
        + group_bits(group_reused(reuse, 2), 5, width2)
        + group_bits(group_reused(reuse, 3), 5, width2)
}

/// The scale factors of one granule, read from bit `pos`.
pub open spec fn granule_scale_factors(
    data: Seq<u8>,
    pos: int,
    granule: GranuleInfo,
    reuse: u8,
    first: Seq<u8>,
) -> Seq<u8> {
    let width1 = slen1(granule.scalefac_compress);
    let width2 = slen2(granule.scalefac_compress);
    if granule.block_type != 2 {
        long_scale_factors(data, pos, granule.mixed_block_flag, width1, width2)
    } else {
        short_scale_factors(data, pos, reuse, width1, width2, first)
    }
}

/// The number of bits that the scale factors of one granule take.
pub open spec fn granule_bits(granule: GranuleInfo, reuse: u8) -> nat {
    let width1 = slen1(granule.scalefac_compress);
    let width2 = slen2(granule.scalefac_compress);
    if granule.block_type != 2 {
        long_bits(granule.mixed_block_flag, width1, width2)
    } else {
        short_bits(reuse, width1, width2)
    }
}

/// The channel of the granule at `index` of the side information.
pub open spec fn channel_of(mode: Mode, index: int) -> int {
    if mode == Mode::SingleChannel {
        0
    } else {
        index % 2
    }
}

/// Whether the granule at `index` is the first of its channel.
pub open spec fn first_of_channel(mode: Mode, index: int) -> bool {
    if mode == Mode::SingleChannel {
        index % 2 == 0
    } else {
        index / 2 == 0
    }
}

/// The reuse flags that hold for the granule at `index`: none for the first
/// granule of a channel; for the second, the flags of its channel, which
/// with two channels are the high four bits of `scfsi` for channel 0 and
/// the low four for channel 1.
pub open spec fn reuse_flags(scfsi: u8, mode: Mode, index: int) -> u8 {
    if first_of_channel(mode, index) {
        0
    } else if mode == Mode::SingleChannel {
        scfsi
    } else if index % 2 == 0 {
        scfsi / 16
    } else {
        scfsi % 16
    }
}

/// The number of bits that the scale factors of the first `count` granules
/// take.
pub open spec fn scale_factor_bits(side_info: SideInfoView, mode: Mode, count: nat) -> nat
    decreases count,
{
    if count == 0 {
        0
    } else {
        scale_factor_bits(side_info, mode, (count - 1) as nat) + granule_bits(
            side_info.granule_channels[count - 1],
            reuse_flags(side_info.scfsi, mode, count - 1),
        )
    }
}

/// The scale factors that the granule at `index` may reuse, given those of
/// the granules in front of it: those of the first granule of its channel,
/// which stands at the index of the channel.
pub open spec fn reuse_source(front: Seq<Seq<u8>>, mode: Mode, index: int) -> Seq<u8> {
    if first_of_channel(mode, index) {
        Seq::empty()
    } else {
        front[channel_of(mode, index)]
    }
}

/// The scale factors of the first `count` granules, read one granule behind
/// the other from bit `pos`.
pub open spec fn scale_factors_at(
    data: Seq<u8>,
    pos: int,
    side_info: SideInfoView,
    mode: Mode,
    count: nat,
) -> Seq<Seq<u8>>
    decreases count,
{
    if count == 0 {
        Seq::empty()
    } else {
        let index = count - 1;
        let front = scale_factors_at(data, pos, side_info, mode, index as nat);
        front.push(
            granule_scale_factors(
                data,
                pos + scale_factor_bits(side_info, mode, index as nat),
                side_info.granule_channels[index],
                reuse_flags(side_info.scfsi, mode, index),
                reuse_source(front, mode, index),
            ),
        )
    }
}

/// What decoding the scale factors of all granules from bit `pos` gives.
pub open spec fn scale_factors_decoded(
    data: Seq<u8>,
    pos: int,
    side_info: SideInfoView,
    mode: Mode,
) -> Result<Seq<Seq<u8>>, ErrorType> {
    let count = side_info.granule_channels.len();
    if pos + scale_factor_bits(side_info, mode, count) > 8 * data.len() {
        Err(ErrorType::OutOfIndex)
    } else {
        Ok(scale_factors_at(data, pos, side_info, mode, count))
    }
}

/// The views of a row of byte vectors.
pub open spec fn views(vectors: Seq<Vec<u8>>) -> Seq<Seq<u8>> {
    Seq::new(vectors.len(), |i: int| vectors[i]@)
}

impl GranuleData {
    /// Granule data with nothing decoded yet.
    pub fn new() -> (data: GranuleData)
        ensures
            data@ == (GranuleDataView { scale_factor: Seq::empty(), huffman_code: Seq::empty() }),
    {
        GranuleData { scale_factor: Vec::new(), huffman_code: Vec::new() }
    }
}

/// Reads `count` numbers of `width` bits each and appends them to `out`.
/// A refusal leaves the cursor behind the last number that was read.
fn read_run(buffer: &mut Buffer, count: usize, width: u32, out: &mut Vec<u8>) -> (result: Result<
    (),
    ErrorType,
>)
    requires
        old(buffer).wf(),
        count >= 1,
        width <= 8,
    ensures
        match result {
            Ok(()) => {
                &&& final(out)@ == old(out)@ + run_at(
                    old(buffer).data@,
                    old(buffer).pos as int,
                    count as nat,
                    width as nat,
                )
                &&& final(buffer).pos == old(buffer).pos + count * width
                &&& final(buffer).cursor_in_bounds()
            },
            Err(error) => {
                &&& error == ErrorType::OutOfIndex
                &&& old(buffer).pos + count * width > old(buffer).total_bits
            },
        },
        final(buffer).data == old(buffer).data,
        final(buffer).total_bits == old(buffer).total_bits,
{
    let ghost data = buffer.data@;
    let ghost start = buffer.pos as int;
    let ghost before = out@;
    let mut read: usize = 0;
    while read < count
        invariant
            read <= count,
            width <= 8,
            buffer.wf(),
            buffer.data == old(buffer).data,
            buffer.data@ == data,
            buffer.total_bits == old(buffer).total_bits,
            start == old(buffer).pos,
            buffer.pos == start + read * width,
            read > 0 ==> buffer.cursor_in_bounds(),
            out@ == before + run_at(data, start, read as nat, width as nat),
        decreases count - read,
    {
        let value = match buffer.get_u8(width) {
            Ok(value) => value,
            Err(error) => {
                proof {
                    assert((read + 1) * width <= count * width) by (nonlinear_arith)
                        requires
                            read + 1 <= count,
                            0 <= width,
                    ;
                    assert((read + 1) * width == read * width + width) by (nonlinear_arith);
                }
                return Err(error);
            },
        };
        out.push(value);
        proof {
            assert((read + 1) * width == read * width + width) by (nonlinear_arith);
        }
        read = read + 1;
    }
    Ok(())
}

/// Appends the scale factors of the bands `lo` to `hi - 1` to `out`:
/// copied from `first` if the group is reused, else read from the stream.
fn read_group(
    buffer: &mut Buffer,
    reused: bool,
    lo: usize,
    hi: usize,
    width: u32,
    first: &Vec<u8>,
    out: &mut Vec<u8>,
) -> (result: Result<(), ErrorType>)
    requires
        old(buffer).wf(),
        lo < hi,
        width <= 8,
        reused ==> hi <= first@.len(),
    ensures
        match result {
            Ok(()) => {
                &&& final(out)@ == old(out)@ + group_at(
                    old(buffer).data@,
                    old(buffer).pos as int,
                    reused,
                    lo as int,
                    hi as int,
                    width as nat,
                    first@,
                )
                &&& final(buffer).pos == old(buffer).pos + group_bits(
                    reused,
                    (hi - lo) as nat,
                    width as nat,
                )
                &&& !reused || old(buffer).cursor_in_bounds() ==> final(buffer).cursor_in_bounds()
            },
            Err(error) => {
                &&& error == ErrorType::OutOfIndex
                &&& old(buffer).pos + group_bits(reused, (hi - lo) as nat, width as nat)
                    > old(buffer).total_bits
            },
        },
        final(buffer).data == old(buffer).data,
        final(buffer).total_bits == old(buffer).total_bits,
{
    if reused {
        let ghost before = out@;
        let mut band: usize = lo;
        while band < hi
            invariant
                lo <= band <= hi <= first@.len(),
                out@ == before + first@.subrange(lo as int, band as int),
            decreases hi - band,
        {
            out.push(first[band]);
            band = band + 1;
        }
        Ok(())
    } else {
        read_run(buffer, hi - lo, width, out)
    }
}

/// Reads the scale factors of a granule whose block type is not 2.
fn read_long(buffer: &mut Buffer, mixed: bool, width1: u32, width2: u32) -> (result: Result<
    Vec<u8>,
    ErrorType,
>)
    requires
        old(buffer).wf(),
        width1 <= 8,
        width2 <= 8,
    ensures
        match result {
            Ok(factors) => {
                &&& factors@ == long_scale_factors(
                    old(buffer).data@,
                    old(buffer).pos as int,
                    mixed,
                    width1 as nat,
                    width2 as nat,
                )
                &&& final(buffer).pos == old(buffer).pos + long_bits(
                    mixed,
                    width1 as nat,
                    width2 as nat,
                )
                &&& final(buffer).cursor_in_bounds()
            },
            Err(error) => {
                &&& error == ErrorType::OutOfIndex
                &&& old(buffer).pos + long_bits(mixed, width1 as nat, width2 as nat)
                    > old(buffer).total_bits
            },
        },
        final(buffer).data == old(buffer).data,
        final(buffer).total_bits == old(buffer).total_bits,
{
    let mut factors: Vec<u8> = Vec::new();
    if mixed {
        read_run(buffer, 17, width1, &mut factors)?;
    } else {
        read_run(buffer, 18, width1, &mut factors)?;
    }
    read_run(buffer, 18, width2, &mut factors)?;
    factors.push(0);
    factors.push(0);
    factors.push(0);
    Ok(factors)
}

/// Reads the scale factors of a granule of block type 2.
fn read_short(buffer: &mut Buffer, reuse: u8, width1: u32, width2: u32, first: &Vec<u8>) -> (result:
    Result<Vec<u8>, ErrorType>)
    requires
        old(buffer).wf(),
        width1 <= 8,
        width2 <= 8,
        reuse != 0 ==> first@.len() >= 21,
    ensures
        match result {
            Ok(factors) => {
                &&& factors@ == short_scale_factors(
                    old(buffer).data@,
                    old(buffer).pos as int,
                    reuse,
                    width1 as nat,
                    width2 as nat,
                    first@,
                )
                &&& final(buffer).pos == old(buffer).pos + short_bits(
                    reuse,
                    width1 as nat,
                    width2 as nat,
                )
                &&& reuse == 0 || old(buffer).cursor_in_bounds()
                    ==> final(buffer).cursor_in_bounds()
            },
            Err(error) => {
                &&& error == ErrorType::OutOfIndex
                &&& old(buffer).pos + short_bits(reuse, width1 as nat, width2 as nat)
                    > old(buffer).total_bits
            },
        },
        final(buffer).data == old(buffer).data,
        final(buffer).total_bits == old(buffer).total_bits,
{
    proof {
        assert({
            &&& (reuse & 8 == 8) == ((reuse / 8) % 2 == 1)
            &&& (reuse & 4 == 4) == ((reuse / 4) % 2 == 1)
            &&& (reuse & 2 == 2) == ((reuse / 2) % 2 == 1)
            &&& (reuse & 1 == 1) == (reuse % 2 == 1)
        }) by (bit_vector);
    }
    let mut factors: Vec<u8> = Vec::new();
    read_group(buffer, reuse & 8 == 8, 0, 6, width1, first, &mut factors)?;
    read_group(buffer, reuse & 4 == 4, 6, 11, width1, first, &mut factors)?;
    read_group(buffer, reuse & 2 == 2, 11, 16, width2, first, &mut factors)?;
    read_group(buffer, reuse & 1 == 1, 16, 21, width2, first, &mut factors)?;
    factors.push(0);
    Ok(factors)
}

/// Reads the scale factors of one granule. A refusal leaves the cursor
/// where the reading stopped.
fn read_granule(buffer: &mut Buffer, granule: &GranuleInfo, reuse: u8, first: &Vec<u8>) -> (result:
    Result<Vec<u8>, ErrorType>)
    requires
        old(buffer).wf(),
        granule.scalefac_compress < 16,
        reuse != 0 ==> first@.len() >= 21,
    ensures
        match result {
            Ok(factors) => {
                &&& factors@ == granule_scale_factors(
                    old(buffer).data@,
                    old(buffer).pos as int,
                    *granule,
                    reuse,
                    first@,
                )
                &&& final(buffer).pos == old(buffer).pos + granule_bits(*granule, reuse)
                &&& reuse == 0 || old(buffer).cursor_in_bounds()
                    ==> final(buffer).cursor_in_bounds()
            },
            Err(error) => {
                &&& error == ErrorType::OutOfIndex
                &&& old(buffer).pos + granule_bits(*granule, reuse) > old(buffer).total_bits
            },
        },
        final(buffer).data == old(buffer).data,
        final(buffer).total_bits == old(buffer).total_bits,
{
    let width1 = SLEN_TABLE[granule.scalefac_compress as usize][0] as u32;
    let width2 = SLEN_TABLE[granule.scalefac_compress as usize][1] as u32;
    if granule.block_type != 2 {
        read_long(buffer, granule.mixed_block_flag, width1, width2)
    } else {
        read_short(buffer, reuse, width1, width2, first)
    }
}

impl Frame {
    /// The side information fits the channel mode of the header, and there
    /// is granule data for each of its granules.
    pub open spec fn wf(&self) -> bool {
        &&& self.side_info.wf(self.header.mode)
        &&& self.granules_data@.len() == self.side_info.granule_channels@.len()
    }

    /// The scale factors of the granules, granule by granule.
    pub open spec fn scale_factors(&self) -> Seq<Seq<u8>> {
        Seq::new(self.granules_data@.len(), |i: int| self.granules_data@[i].scale_factor@)
    }

    /// The bit at which the main data of the frame begins, for a reader that
    /// stands at bit `cursor`: the cursor itself if the frame has nothing in
    /// the reservoir, else as many bytes before the byte of the frame's
    /// header as the side information says.
    pub open spec fn main_data_start(&self, cursor: int) -> int {
        if self.side_info.main_data_begin == 0 {
            cursor
        } else {
            8 * (self.pos as int / 8 - self.side_info.main_data_begin as int)
        }
    }

    /// What `decode_main_data` gives for a reader over `data` that stands at
    /// bit `cursor`: the scale factors of all granules, read from where the
    /// main data begins. A reservoir that would begin before the first byte
    /// is refused.
    pub open spec fn main_data_decoded(&self, data: Seq<u8>, cursor: int) -> Result<
        Seq<Seq<u8>>,
        ErrorType,
    > {
        if self.main_data_start(cursor) < 0 {
            Err(ErrorType::OutOfIndex)
        } else {
            scale_factors_decoded(
                data,
                self.main_data_start(cursor),
                self.side_info@,
                self.header.mode,
            )
        }
    }

    /// The number of bits that the scale factors of the frame take.
    pub open spec fn main_data_bits(&self) -> nat {
        scale_factor_bits(
            self.side_info@,
            self.header.mode,
            self.side_info.granule_channels@.len(),
        )
    }

    /// `self` is `before` with other scale factors at most.
    pub open spec fn same_but_scale_factors(&self, before: &Frame) -> bool {
        &&& self.header == before.header
        &&& self.crc == before.crc
        &&& self.side_info == before.side_info
        &&& self.length_byte == before.length_byte
        &&& self.pos == before.pos
        &&& self.granules_data@.len() == before.granules_data@.len()
        &&& forall|i: int|
            0 <= i < self.granules_data@.len() ==> (
            #[trigger] self.granules_data@[i]).huffman_code == before.granules_data@[i].huffman_code
    }

    /// Reads a frame part by part. A refusal leaves the cursor where the
    /// reading stopped.
    fn read(buffer: &mut Buffer) -> (result: Result<Frame, ErrorType>)
        requires
            old(buffer).wf(),
        ensures
            decoded_as(result, frame_at(old(buffer).data@, old(buffer).pos as int)),
            result matches Ok(frame) ==> {
                &&& frame.wf()
                &&& frame.side_info.granules_valid()
                &&& final(buffer).pos == old(buffer).pos + (if frame.crc is Some {
                    48int
                } else {
                    32int
                }) + layout_of(frame.header.mode).bits()
                &&& final(buffer).cursor_in_bounds()
            },
            final(buffer).data == old(buffer).data,
            final(buffer).total_bits == old(buffer).total_bits,
    {
        let pos = buffer.pos;
        let header = Header::create_from_buffer(buffer)?;
        let crc = if header.error_protection {
            Some(buffer.get_u16(16)?)
        } else {
            None
        };
        let side_info = SideInfo::create_from_buffer(buffer, &header.mode)?;
        let bitrate = header.get_bitrate()?;
        let frequency = header.get_frequency()?;
        let padding: usize = if header.padding_bit {
            1
        } else {
            0
        };
        let length_byte: usize = (144000 * bitrate as usize) / frequency as usize + padding;
        let count = side_info.granule_channels.len();
        let mut granules_data: Vec<GranuleData> = Vec::new();
        let mut index: usize = 0;
        while index < count
            invariant
                index <= count,
                granules_data@.len() == index,
                forall|i: int|
                    0 <= i < index ==> (#[trigger] granules_data@[i])@ == (GranuleDataView {
                        scale_factor: Seq::empty(),
                        huffman_code: Seq::empty(),
                    }),
            decreases count - index,
        {
            granules_data.push(GranuleData::new());
            index = index + 1;
        }
        let frame = Frame { header, crc, side_info, length_byte, pos, granules_data };
        proof {
            assert(frame@.granules_data == frame_at(
                old(buffer).data@,
                old(buffer).pos as int,
            )->Ok_0.granules_data);
        }
        Ok(frame)
    }

    /// Decodes the frame that begins at the cursor: the header, the checksum
    /// if the header announces one, and the side information. The cursor
    /// then stands behind the side information, and the granule data is
    /// empty until `decode_main_data` fills it.
    ///
    /// A refused frame leaves the cursor where it was.
    pub fn create_from_buffer(buffer: &mut Buffer) -> (result: Result<Frame, ErrorType>)
        requires
            old(buffer).wf(),
        ensures
            decoded_as(result, frame_at(old(buffer).data@, old(buffer).pos as int)),
            result matches Ok(frame) ==> {
                &&& frame.wf()
                &&& frame.side_info.granules_valid()
                &&& final(buffer).pos == old(buffer).pos + (if frame.crc is Some {
                    48int
                } else {
                    32int
                }) + layout_of(frame.header.mode).bits()
                &&& final(buffer).cursor_in_bounds()
            },
            result is Err ==> final(buffer)@ == old(buffer)@,
            final(buffer).data == old(buffer).data,
            final(buffer).total_bits == old(buffer).total_bits,
    {
        let start = buffer.pos;
        let result = Frame::read(buffer);
        if result.is_err() {
            buffer.set_pos(start);
        }
        result
    }

    /// Decodes the scale factors of every granule from the cursor on, in the
    /// order of the side information, and moves the cursor behind them.
    ///
    /// If the stream ends before the last scale factor, neither the frame
    /// nor the cursor changes.
    pub fn decode_scalefactors(&mut self, buffer: &mut Buffer) -> (result: Result<(), ErrorType>)
        requires
            old(self).wf(),
            old(buffer).wf(),
        ensures
            match scale_factors_decoded(
                old(buffer).data@,
                old(buffer).pos as int,
                old(self).side_info@,
                old(self).header.mode,
            ) {
                Ok(factors) => {
                    &&& result is Ok
                    &&& final(self).scale_factors() == factors
                    &&& final(self).same_but_scale_factors(old(self))
                    &&& final(buffer).pos == old(buffer).pos + old(self).main_data_bits()
                },
                Err(error) => {
                    &&& result == Err::<(), ErrorType>(error)
                    &&& *final(self) == *old(self)
                    &&& final(buffer)@ == old(buffer)@
                },
            },
            final(self).wf(),
            final(buffer).data == old(buffer).data,
            final(buffer).total_bits == old(buffer).total_bits,
    {
        let ghost data = buffer.data@;
        let ghost side = self.side_info@;
        let start = buffer.pos;
        let ghost mode = self.header.mode;
        let mono = self.header.mode.is_mono();
        let count = self.side_info.granule_channels.len();
        let unused: Vec<u8> = Vec::new();
        let mut decoded: Vec<Vec<u8>> = Vec::new();
        let mut index: usize = 0;
        while index < count
            invariant
                *self == *old(self),
                self.wf(),
                side == self.side_info@,
                mode == self.header.mode,
                mono == (mode == Mode::SingleChannel),
                index <= count == side.granule_channels.len(),
                buffer.wf(),
                buffer.data == old(buffer).data,
                buffer.data@ == data,
                buffer.total_bits == old(buffer).total_bits,
                start == old(buffer).pos,
                buffer.pos == start + scale_factor_bits(side, mode, index as nat),
                index > 0 ==> buffer.cursor_in_bounds(),
                unused@.len() == 0,
                decoded@.len() == index,
                views(decoded@) == scale_factors_at(data, start as int, side, mode, index as nat),
                forall|i: int| 0 <= i < index ==> (#[trigger] decoded@[i])@.len() >= 21,
            decreases count - index,
        {
            let first_of_channel = if mono {
                index % 2 == 0
            } else {
                index / 2 == 0
            };
            let channel: usize = if mono {
                0
            } else {
                index % 2
            };
            let scfsi = self.side_info.scfsi;
            proof {
                assert(scfsi >> 4 == scfsi / 16 && scfsi & 0x0f == scfsi % 16) by (bit_vector);
            }
            let reuse: u8 = if first_of_channel {
                0
            } else if mono {
                scfsi
            } else if channel == 0 {
                scfsi >> 4
            } else {
                scfsi & 0x0f
            };
            let first: &Vec<u8> = if first_of_channel {
                &unused
            } else {
                &decoded[channel]
            };
            let factors = match read_granule(
                buffer,
                &self.side_info.granule_channels[index],
                reuse,
                first,
            ) {
                Ok(factors) => factors,
                Err(error) => {
                    proof {
                        lemma_scale_factor_bits_grow(side, mode, (index + 1) as nat, count as nat);
                    }
                    buffer.set_pos(start);
                    return Err(error);
                },
            };
            proof {
                lemma_granule_scale_factors_len(
                    data,
                    start + scale_factor_bits(side, mode, index as nat),
                    side.granule_channels[index as int],
                    reuse,
                    first@,
                );
                let front = views(decoded@);
                assert(first@ == reuse_source(front, mode, index as int));
                assert(reuse == reuse_flags(side.scfsi, mode, index as int));
                assert(views(decoded@.push(factors)) == front.push(factors@));
            }
            decoded.push(factors);
            index = index + 1;
        }
        let ghost factors = scale_factors_at(data, start as int, side, mode, count as nat);
        let mut left: usize = count;
        while left > 0
            invariant
                left <= count == self.granules_data@.len(),
                decoded@.len() == left,
                views(decoded@) == factors.subrange(0, left as int),
                factors.len() == count,
                self.same_but_scale_factors(old(self)),
                forall|i: int|
                    left <= i < count ==> (#[trigger] self.granules_data@[i]).scale_factor@
                        == factors[i],
            decreases left,
        {
            left = left - 1;
            let ghost rest = decoded@;
            let last = decoded.pop().unwrap();
            proof {
                assert(views(rest)[left as int] == factors.subrange(0, left + 1)[left as int]);
            }
            self.granules_data[left].scale_factor = last;
        }
        Ok(())
    }

    /// Decodes the scale factors of the frame from its main data.
    ///
    /// If the side information points into the reservoir, the cursor is first
    /// put that many bytes before the byte at which the frame's header
    /// begins; else the reading starts at the cursor. Afterwards the cursor
    /// stands behind the last scale factor.
    ///
    /// If the main data would begin before the first byte, or the stream
    /// ends before the last scale factor, neither the frame nor the cursor
    /// changes.
    pub fn decode_main_data(&mut self, buffer: &mut Buffer) -> (result: Result<(), ErrorType>)
        requires
            old(self).wf(),
            old(buffer).wf(),
        ensures
            match old(self).main_data_decoded(old(buffer).data@, old(buffer).pos as int) {
                Ok(factors) => {
                    &&& result is Ok
                    &&& final(self).scale_factors() == factors
                    &&& final(self).same_but_scale_factors(old(self))
                    &&& final(buffer).pos == old(self).main_data_start(old(buffer).pos as int)
                        + old(self).main_data_bits()
                },
                Err(error) => {
                    &&& result == Err::<(), ErrorType>(error)
                    &&& *final(self) == *old(self)
                    &&& final(buffer)@ == old(buffer)@
                },
            },
            final(self).wf(),
            final(buffer).data == old(buffer).data,
            final(buffer).total_bits == old(buffer).total_bits,
    {
        let cursor = buffer.pos;
        if self.side_info.main_data_begin != 0 {
            let frame_byte = self.pos / 8;
            let back = self.side_info.main_data_begin as usize;
            if frame_byte < back {
                return Err(ErrorType::OutOfIndex);
            }
            buffer.set_pos((frame_byte - back) * 8);
        }
        let result = self.decode_scalefactors(buffer);
        if result.is_err() {
            buffer.set_pos(cursor);
        }
        result
    }

    /// Verifies the checksum of the frame. No algorithm stands behind this
    /// yet, so the answer is always that verification is unsupported.
    pub fn check_crc(&self) -> (check: CrcCheck)
        ensures
            check == CrcCheck::Unsupported,
    {
        CrcCheck::Unsupported
    }
}

/// The derived length without its padding is the number of whole
/// frequencies that go into 144000 times the bitrate: the largest `whole`
/// with `whole * frequency <= 144000 * bitrate`.
pub proof fn lemma_frame_length_rounds_down(bitrate: u16, frequency: u16, padding: bool)
    requires
        frequency > 0,
    ensures
        ({
            let whole = frame_length(bitrate, frequency, padding) - flag_bit(padding);
            whole * frequency <= 144000 * bitrate < (whole + 1) * frequency
        }),
{
    let scaled = 144000 * bitrate as int;
    let whole = scaled / (frequency as int);
    lemma_fundamental_div_mod(scaled, frequency as int);
    lemma_mod_bound(scaled, frequency as int);
    assert(frequency * whole == whole * frequency) by (nonlinear_arith);
    assert((whole + 1) * frequency == whole * frequency + frequency) by (nonlinear_arith);
}

/// A frame with a bitrate and a frequency of the tables, the bitrate not
/// being the free one of index 0, has a derived length between 96 and 1441
/// bytes, so that a caller who steps by it moves on.
pub proof fn lemma_frame_length_range(header: Header)
    requires
        bitrate_of(header.version, header.layer, header.bitrate) is Ok,
        frequency_of(header.version, header.frequency) is Ok,
        header.bitrate != 0,
    ensures
        96 <= frame_length(
            bitrate_of(header.version, header.layer, header.bitrate)->Ok_0,
            frequency_of(header.version, header.frequency)->Ok_0,
            header.padding_bit,
        ) <= 1441,
{
    let bitrate = bitrate_of(header.version, header.layer, header.bitrate)->Ok_0;
    let frequency = frequency_of(header.version, header.frequency)->Ok_0;
    assert(16 <= HALF_BITRATE_MPEG1_LAYER3[header.bitrate as int] <= 160);
    assert(32000 <= FREQUENCY_MPEG1[header.frequency as int] <= 48000);
    lemma_frame_length_rounds_down(bitrate, frequency, header.padding_bit);
    let whole = frame_length(bitrate, frequency, header.padding_bit) - flag_bit(
        header.padding_bit,
    );
    assert(96 <= whole <= 1440) by (nonlinear_arith)
        requires
            whole * frequency <= 144000 * bitrate < (whole + 1) * frequency,
            32 <= bitrate <= 320,
            32000 <= frequency <= 48000,
    ;
}

/// The scale factors of more granules take no fewer bits.
pub proof fn lemma_scale_factor_bits_grow(
    side_info: SideInfoView,
    mode: Mode,
    fewer: nat,
    more: nat,
)
    requires
        fewer <= more,
    ensures
        scale_factor_bits(side_info, mode, fewer) <= scale_factor_bits(side_info, mode, more),
    decreases more,
{
    if fewer < more {
        lemma_scale_factor_bits_grow(side_info, mode, fewer, (more - 1) as nat);
    }
}

/// A granule has at least 22 scale factors, so the 21 bands that a later
/// granule may reuse are there.
pub proof fn lemma_granule_scale_factors_len(
    data: Seq<u8>,
    pos: int,
    granule: GranuleInfo,
    reuse: u8,
    first: Seq<u8>,
)
    requires
        reuse != 0 ==> first.len() >= 21,
    ensures
        granule_scale_factors(data, pos, granule, reuse, first).len() >= 22,
{
}

/// Enlarging the row of granules changes none of the scale factors in
/// front, and the row has one entry for each granule.
pub proof fn lemma_scale_factors_at_prefix(
    data: Seq<u8>,
    pos: int,
    side_info: SideInfoView,
    mode: Mode,
    fewer: nat,
    more: nat,
)
    requires
        fewer <= more,
    ensures
        scale_factors_at(data, pos, side_info, mode, more).len() == more,
        scale_factors_at(data, pos, side_info, mode, more).subrange(0, fewer as int)
            == scale_factors_at(data, pos, side_info, mode, fewer),
    decreases more,
{
    if more > 0 {
        lemma_scale_factors_at_prefix(data, pos, side_info, mode, 0, (more - 1) as nat);
        if fewer < more {
            lemma_scale_factors_at_prefix(data, pos, side_info, mode, fewer, (more - 1) as nat);
        }
    }
}

/// Every granule of the row has at least 22 scale factors.
pub proof fn lemma_scale_factors_at_lengths(
    data: Seq<u8>,
    pos: int,
    side_info: SideInfoView,
    mode: Mode,
    count: nat,
)
    ensures
        forall|i: int|
            0 <= i < count ==> (#[trigger] scale_factors_at(
                data,
                pos,
                side_info,
                mode,
                count,
            )[i]).len() >= 22,
    decreases count,
{
    if count > 0 {
        let index = (count - 1) as int;
        let front = scale_factors_at(data, pos, side_info, mode, index as nat);
        lemma_scale_factors_at_lengths(data, pos, side_info, mode, index as nat);
        lemma_scale_factors_at_prefix(data, pos, side_info, mode, index as nat, index as nat);
        lemma_granule_scale_factors_len(
            data,
            pos + scale_factor_bits(side_info, mode, index as nat),
            side_info.granule_channels[index],
            reuse_flags(side_info.scfsi, mode, index),
            reuse_source(front, mode, index),
        );
        let row = scale_factors_at(data, pos, side_info, mode, count);
        assert forall|i: int| 0 <= i < count implies (#[trigger] row[i]).len() >= 22 by {}
    }
}

/// With all four reuse flags set, a granule of block type 2 reads nothing
/// from the stream: its scale factors are the first 21 of the channel's
/// first granule and one zero behind them.
pub proof fn lemma_all_groups_reused(
    data: Seq<u8>,
    pos: int,
    reuse: u8,
    width1: nat,
    width2: nat,
    first: Seq<u8>,
)
    requires
        reuse % 16 == 15,
        first.len() >= 21,
    ensures
        short_scale_factors(data, pos, reuse, width1, width2, first) == first.subrange(0, 21).push(
            0,
        ),
        short_bits(reuse, width1, width2) == 0,
{
}

/// With no reuse flag set, a granule of block type 2 reads every band from
/// the stream: 11 numbers of the first width, 10 of the second, each in its
/// own bits, and one zero behind them.
pub proof fn lemma_no_group_reused(
    data: Seq<u8>,
    pos: int,
    reuse: u8,
    width1: nat,
    width2: nat,
    first: Seq<u8>,
)
    requires
        reuse % 16 == 0,
    ensures
        short_scale_factors(data, pos, reuse, width1, width2, first) == run_at(
            data,
            pos,
            11,
            width1,
        ) + run_at(data, pos + 11 * width1, 10, width2) + seq![0u8],
        short_bits(reuse, width1, width2) == 11 * width1 + 10 * width2,
{
    let pos1 = pos + 6 * width1;
    let pos2 = pos + 11 * width1;
    let pos3 = pos2 + 5 * width2;
    let low = run_at(data, pos, 11, width1);
    let high = run_at(data, pos2, 10, width2);
    let low_groups = run_at(data, pos, 6, width1) + run_at(data, pos1, 5, width1);
    let high_groups = run_at(data, pos2, 5, width2) + run_at(data, pos3, 5, width2);
    assert forall|k: int| 0 <= k < 11 implies #[trigger] low_groups[k] == low[k] by {
        if k >= 6 {
            assert(pos1 + (k - 6) * width1 == pos + k * width1) by (nonlinear_arith)
                requires
                    pos1 == pos + 6 * width1,
            ;
        }
    }
    assert forall|k: int| 0 <= k < 10 implies #[trigger] high_groups[k] == high[k] by {
        if k >= 5 {
            assert(pos3 + (k - 5) * width2 == pos2 + k * width2) by (nonlinear_arith)
                requires
                    pos3 == pos2 + 5 * width2,
            ;
        }
    }
    assert(low_groups =~= low);
    assert(high_groups =~= high);
}

/// Scale-factor reuse in a frame: a second granule of block type 2 whose
/// channel has all four reuse flags set carries the first 21 scale factors
/// of the first granule of its channel, and one zero behind them.
pub proof fn lemma_second_granule_reuses_first(
    data: Seq<u8>,
    pos: int,
    side_info: SideInfoView,
    mode: Mode,
    index: int,
)
    requires
        0 <= index < side_info.granule_channels.len(),
        !first_of_channel(mode, index),
        side_info.granule_channels[index].block_type == 2,
        reuse_flags(side_info.scfsi, mode, index) % 16 == 15,
    ensures
        scale_factors_at(data, pos, side_info, mode, side_info.granule_channels.len())[index]
            == scale_factors_at(
            data,
            pos,
            side_info,
            mode,
            side_info.granule_channels.len(),
        )[channel_of(mode, index)].subrange(0, 21).push(0),
{
    let count = side_info.granule_channels.len();
    let row = scale_factors_at(data, pos, side_info, mode, count);
    let front = scale_factors_at(data, pos, side_info, mode, index as nat);
    let channel = channel_of(mode, index);
    lemma_scale_factors_at_prefix(data, pos, side_info, mode, (index + 1) as nat, count);
    lemma_scale_factors_at_prefix(data, pos, side_info, mode, index as nat, count);
    lemma_scale_factors_at_lengths(data, pos, side_info, mode, count);
    assert(row[index] == row.subrange(0, index + 1)[index]);
    lemma_all_groups_reused(
        data,
        pos + scale_factor_bits(side_info, mode, index as nat),
        reuse_flags(side_info.scfsi, mode, index),
        slen1(side_info.granule_channels[index].scalefac_compress),
        slen2(side_info.granule_channels[index].scalefac_compress),
        front[channel],
    );
}

} // verus!
