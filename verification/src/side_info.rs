//! The side information: the control fields that follow the header.

use vstd::prelude::*;
use crate::bits::{bits_value, lemma_bits_value_bound};
use crate::buffer::Buffer;
use crate::error::{decoded_as, ErrorType};
use crate::header::Mode;
use vstd::arithmetic::power2::lemma2_to64;

verus! {

/// The number of bits that one granule takes in the side information.
pub const GRANULE_BITS: usize = 59;

/// The control fields of one granule of one channel.
#[derive(Debug, Clone, Copy, PartialEq, Eq)]
pub struct GranuleInfo {
    pub part_23_length: u16,
    pub big_values: u16,
    pub global_gain: u8,
    pub scalefac_compress: u8,
    pub windows_switching: bool,
    pub block_type: u8,
    pub mixed_block_flag: bool,
    pub table_select: [u8; 3],
    /// Read only with window switching.
    pub subblock_gain: [u8; 3],
    /// Read only without window switching; the third entry is then 255,
    /// which stands for the rest of the spectrum.
    pub region_count: [u8; 3],
    pub preflag: bool,
    pub scalefac_scale: bool,
    pub count1_table_select: bool,
}

/// The side information of one frame.
#[derive(Debug)]
pub struct SideInfo {
    /// How many bytes before the frame its main data begins.
    pub main_data_begin: u16,
    pub private_bits: u8,
    pub scfsi: u8,
    /// The granules in stream order: two for one channel, four for two.
    pub granule_channels: Vec<GranuleInfo>,
}

/// A `SideInfo` as a mathematical value.
pub struct SideInfoView {
    pub main_data_begin: u16,
    pub private_bits: u8,
    pub scfsi: u8,
    pub granule_channels: Seq<GranuleInfo>,
}

impl View for SideInfo {
    type V = SideInfoView;

    open spec fn view(&self) -> SideInfoView {
        SideInfoView {
            main_data_begin: self.main_data_begin,
            private_bits: self.private_bits,
            scfsi: self.scfsi,
            granule_channels: self.granule_channels@,
        }
    }
}

/// How the side information is laid out for a channel mode: what varies
/// with the mode is the width of two fields and the number of granules.
#[derive(Debug, Clone, Copy, PartialEq, Eq)]
pub struct Layout {
    /// The width of the private bits.
    pub private_bits: u32,
    /// The width of the reuse flags.
    pub scfsi_bits: u32,
    /// The number of granules.
    pub granules: usize,
}

/// The layout for a channel mode: one channel has 5 private bits, 4 reuse
/// flags and 2 granules; two channels have 3, 8 and 4.
pub open spec fn layout_of(mode: Mode) -> Layout {
    if mode == Mode::SingleChannel {
        Layout { private_bits: 5, scfsi_bits: 4, granules: 2 }
    } else {
        Layout { private_bits: 3, scfsi_bits: 8, granules: 4 }
    }
}

impl Layout {
    /// The layout for a channel mode.
    pub fn of(mode: &Mode) -> (layout: Layout)
        ensures
            layout == layout_of(*mode),
    {
        if mode.is_mono() {
            Layout { private_bits: 5, scfsi_bits: 4, granules: 2 }
        } else {
            Layout { private_bits: 3, scfsi_bits: 8, granules: 4 }
        }
    }

    /// The number of bits in front of the first granule: the reservoir
    /// pointer, the private bits and the reuse flags.
    pub open spec fn prefix_bits(self) -> nat {
        (9 + self.private_bits + self.scfsi_bits) as nat
    }

    /// The number of bits that the side information takes.
    pub open spec fn bits(self) -> nat {
        (self.prefix_bits() + self.granules * GRANULE_BITS) as nat
    }
}

/// The granule whose fields stand at bit `pos`, read without any check.
/// Every number fits the type of its field. What is not read with the
/// granule's window-switching flag is 0, but for the third region count,
/// which is 255 where the other two are read.
pub open spec fn granule_of_bits(data: Seq<u8>, pos: int) -> GranuleInfo {
    let switching = bits_value(data, pos + 33, 1) == 1;
    GranuleInfo {
        part_23_length: bits_value(data, pos, 12) as u16,
        big_values: bits_value(data, pos + 12, 9) as u16,
        global_gain: bits_value(data, pos + 21, 8) as u8,
        scalefac_compress: bits_value(data, pos + 29, 4) as u8,
        windows_switching: switching,
        block_type: if switching {
            bits_value(data, pos + 34, 2) as u8
        } else {
            0
        },
        mixed_block_flag: switching && bits_value(data, pos + 36, 1) == 1,
        table_select: if switching {
            [bits_value(data, pos + 37, 5) as u8, bits_value(data, pos + 42, 5) as u8, 0]
        } else {
            [
                bits_value(data, pos + 34, 5) as u8,
                bits_value(data, pos + 39, 5) as u8,
                bits_value(data, pos + 44, 5) as u8,
            ]
        },
        subblock_gain: if switching {
            [
                bits_value(data, pos + 47, 3) as u8,
                bits_value(data, pos + 50, 3) as u8,
                bits_value(data, pos + 53, 3) as u8,
            ]
        } else {
            [0, 0, 0]
        },
        region_count: if switching {
            [0, 0, 0]
        } else {
            [bits_value(data, pos + 49, 4) as u8, bits_value(data, pos + 53, 3) as u8, 255]
        },
        preflag: bits_value(data, pos + 56, 1) == 1,
        scalefac_scale: bits_value(data, pos + 57, 1) == 1,
        count1_table_select: bits_value(data, pos + 58, 1) == 1,
    }
}

/// What decoding a granule at bit `pos` gives.
///
/// The fields are read in stream order, so a field that is refused hides
/// the end of the stream behind it, and the end of the stream hides a
/// refusal behind it.
pub open spec fn granule_at(data: Seq<u8>, pos: int) -> Result<GranuleInfo, ErrorType> {
    let left = 8 * data.len() - pos;
    let granule = granule_of_bits(data, pos);
    if left < 21 {
        Err(ErrorType::OutOfIndex)
    } else if granule.big_values > 288 {
        Err(ErrorType::BigValuesOutOfRange)
    } else if left < 34 {
        Err(ErrorType::OutOfIndex)
    } else if granule.windows_switching && left < 36 {
        Err(ErrorType::OutOfIndex)
    } else if granule.windows_switching && granule.block_type == 0 {
        Err(ErrorType::BlockTypeForbidden)
    } else if left < GRANULE_BITS {
        Err(ErrorType::OutOfIndex)
    } else {
        Ok(granule)
    }
}

/// What decoding `count` granules in a row from bit `pos` gives: the
/// granules, or the first refusal.
pub open spec fn granules_at(data: Seq<u8>, pos: int, count: nat) -> Result<
    Seq<GranuleInfo>,
    ErrorType,
>
    decreases count,
{
    if count == 0 {
        Ok(Seq::empty())
    } else {
        let front = granules_at(data, pos, (count - 1) as nat);
        let last = granule_at(data, pos + GRANULE_BITS * (count - 1));
        if front is Err {
            front
        } else if last is Err {
            Err(last->Err_0)
        } else {
            Ok(front->Ok_0.push(last->Ok_0))
        }
    }
}

/// The sum of the main-data lengths that the granules claim, in bits.
pub open spec fn part_23_sum(granules: Seq<GranuleInfo>) -> nat
    decreases granules.len(),
{
    if granules.len() == 0 {
        0
    } else {
        part_23_sum(granules.drop_last()) + granules.last().part_23_length as nat
    }
}

/// What decoding the side information at bit `pos` gives.
///
/// After the last granule the claimed main data is held against what the
/// stream behind the side information and the reservoir in front of the
/// frame can hold.
pub open spec fn side_info_at(data: Seq<u8>, pos: int, mode: Mode) -> Result<
    SideInfoView,
    ErrorType,
> {
    let layout = layout_of(mode);
    let main_data_begin = bits_value(data, pos, 9);
    let granules = granules_at(data, pos + layout.prefix_bits(), layout.granules as nat);
    if pos + layout.prefix_bits() > 8 * data.len() {
        Err(ErrorType::OutOfIndex)
    } else if granules is Err {
        Err(granules->Err_0)
    } else if part_23_sum(granules->Ok_0) + pos + layout.bits() > 8 * data.len() + 8
        * main_data_begin {
        Err(ErrorType::Overflow)
    } else {
        Ok(
            SideInfoView {
                main_data_begin: main_data_begin as u16,
                private_bits: bits_value(data, pos + 9, layout.private_bits as nat) as u8,
                scfsi: bits_value(
                    data,
                    pos + 9 + layout.private_bits,
                    layout.scfsi_bits as nat,
                ) as u8,
                granule_channels: granules->Ok_0,
            },
        )
    }
}

/// A refusal among the first granules is the refusal of every longer row.
pub proof fn lemma_granules_at_refusal(data: Seq<u8>, pos: int, done: nat, count: nat)
    requires
        done <= count,
        granules_at(data, pos, done) is Err,
    ensures
        granules_at(data, pos, count) == granules_at(data, pos, done),
    decreases count,
{
    if done < count {
        lemma_granules_at_refusal(data, pos, done, (count - 1) as nat);
    }
}

/// A row of granules that decodes has as many entries as were asked for,
/// each of them valid.
pub proof fn lemma_granules_at_shape(data: Seq<u8>, pos: int, count: nat)
    requires
        granules_at(data, pos, count) is Ok,
    ensures
        granules_at(data, pos, count)->Ok_0.len() == count,
        forall|i: int|
            0 <= i < count ==> (#[trigger] granules_at(data, pos, count)->Ok_0[i]).valid(),
    decreases count,
{
    if count > 0 {
        let last = pos + GRANULE_BITS * (count - 1);
        lemma_granules_at_shape(data, pos, (count - 1) as nat);
        lemma_bits_value_bound(data, last + 12, 9);
        lemma_bits_value_bound(data, last + 29, 4);
        lemma_bits_value_bound(data, last + 34, 2);
        lemma2_to64();
    }
}

/// A granule whose 59 bits stand in the stream is accepted exactly if its
/// `big_values` are 288 at most and, with window switching, its block type
/// is not 0; it is then the granule that the bits write.
pub proof fn lemma_granule_accepted(data: Seq<u8>, pos: int)
    requires
        pos + GRANULE_BITS <= 8 * data.len(),
    ensures
        granule_at(data, pos) is Ok <==> bits_value(data, pos + 12, 9) <= 288 && !(bits_value(
            data,
            pos + 33,
            1,
        ) == 1 && bits_value(data, pos + 34, 2) == 0),
        granule_at(data, pos) is Ok ==> granule_at(data, pos)->Ok_0 == granule_of_bits(data, pos),
{
    lemma_bits_value_bound(data, pos + 12, 9);
    lemma_bits_value_bound(data, pos + 34, 2);
    lemma2_to64();
}

/// The limit of `big_values`: where the stream holds the first 21 bits of a
/// granule, the granule is refused for its `big_values` exactly if they are
/// above 288.
pub proof fn lemma_big_values_limit(data: Seq<u8>, pos: int)
    requires
        pos + 21 <= 8 * data.len(),
    ensures
        granule_at(data, pos) == Err::<GranuleInfo, ErrorType>(ErrorType::BigValuesOutOfRange)
            <==> bits_value(data, pos + 12, 9) > 288,
{
    lemma_bits_value_bound(data, pos + 12, 9);
    lemma2_to64();
}

/// The forbidden block type: where the stream holds the first 36 bits of a
/// granule with `big_values` in range and window switching set, the granule
/// is refused for its block type exactly if the two bits of it are `00`.
pub proof fn lemma_block_type_forbidden(data: Seq<u8>, pos: int)
    requires
        pos + 36 <= 8 * data.len(),
        bits_value(data, pos + 12, 9) <= 288,
        bits_value(data, pos + 33, 1) == 1,
    ensures
        granule_at(data, pos) == Err::<GranuleInfo, ErrorType>(ErrorType::BlockTypeForbidden)
            <==> bits_value(data, pos + 34, 2) == 0,
{
    lemma_bits_value_bound(data, pos + 34, 2);
    lemma2_to64();
}

impl GranuleInfo {
    /// The granule keeps the limits of its fields: `big_values` are 288 at
    /// most, the scale-factor selector is below 16, the block type below 4,
    /// and with window switching the block type is not 0.
    pub open spec fn valid(&self) -> bool {
        &&& self.big_values <= 288
        &&& self.scalefac_compress < 16
        &&& self.block_type < 4
        &&& self.windows_switching ==> self.block_type != 0
    }

    /// A granule with every field zero or false.
    pub fn new() -> (granule: GranuleInfo)
        ensures
            granule == (GranuleInfo {
                part_23_length: 0,
                big_values: 0,
                global_gain: 0,
                scalefac_compress: 0,
                windows_switching: false,
                block_type: 0,
                mixed_block_flag: false,
                table_select: [0, 0, 0],
                subblock_gain: [0, 0, 0],
                region_count: [0, 0, 0],
                preflag: false,
                scalefac_scale: false,
                count1_table_select: false,
            }),
    {
        GranuleInfo {
            part_23_length: 0,
            big_values: 0,
            global_gain: 0,
            scalefac_compress: 0,
            windows_switching: false,
            block_type: 0,
            mixed_block_flag: false,
            table_select: [0, 0, 0],
            subblock_gain: [0, 0, 0],
            region_count: [0, 0, 0],
            preflag: false,
            scalefac_scale: false,
            count1_table_select: false,
        }
    }

    /// Reads one granule field by field. A refusal leaves the cursor behind
    /// the last field that was read.
    fn read(buffer: &mut Buffer) -> (result: Result<GranuleInfo, ErrorType>)
        requires
            old(buffer).wf(),
        ensures
            result == granule_at(old(buffer).data@, old(buffer).pos as int),
            result is Ok ==> final(buffer).pos == old(buffer).pos + GRANULE_BITS,
            result is Ok ==> final(buffer).cursor_in_bounds(),
            final(buffer).data == old(buffer).data,
            final(buffer).total_bits == old(buffer).total_bits,
    {
        let mut granule = GranuleInfo::new();
        granule.part_23_length = buffer.get_u16(12)?;
        granule.big_values = buffer.get_u16(9)?;
        if granule.big_values > 288 {
            return Err(ErrorType::BigValuesOutOfRange);
        }
        granule.global_gain = buffer.get_u8(8)?;
        granule.scalefac_compress = buffer.get_u8(4)?;
        granule.windows_switching = buffer.get_flag()?;
        if granule.windows_switching {
            granule.block_type = buffer.get_u8(2)?;
            if granule.block_type == 0 {
                return Err(ErrorType::BlockTypeForbidden);
            }
            granule.mixed_block_flag = buffer.get_flag()?;
            let table0 = buffer.get_u8(5)?;
            let table1 = buffer.get_u8(5)?;
            granule.table_select = [table0, table1, 0];
            let gain0 = buffer.get_u8(3)?;
            let gain1 = buffer.get_u8(3)?;
            let gain2 = buffer.get_u8(3)?;
            granule.subblock_gain = [gain0, gain1, gain2];
        } else {
            let table0 = buffer.get_u8(5)?;
            let table1 = buffer.get_u8(5)?;
            let table2 = buffer.get_u8(5)?;
            granule.table_select = [table0, table1, table2];
            let region0 = buffer.get_u8(4)?;
            let region1 = buffer.get_u8(3)?;
            granule.region_count = [region0, region1, 255];
        }
        granule.preflag = buffer.get_flag()?;
        granule.scalefac_scale = buffer.get_flag()?;
        granule.count1_table_select = buffer.get_flag()?;
        Ok(granule)
    }
}

impl SideInfo {
    /// Every granule keeps the limits of its fields.
    pub open spec fn granules_valid(&self) -> bool {
        forall|i: int|
            0 <= i < self.granule_channels@.len() ==> (#[trigger] self.granule_channels@[i]).valid()
    }

    /// The side information has the granules of the channel mode, and every
    /// scale-factor selector indexes the table of bit widths.
    pub open spec fn wf(&self, mode: Mode) -> bool {
        &&& self.granule_channels@.len() == layout_of(mode).granules
        &&& forall|i: int|
            0 <= i < self.granule_channels@.len() ==> (
            #[trigger] self.granule_channels@[i]).scalefac_compress < 16
    }

    /// Reads the side information field by field. A refusal leaves the
    /// cursor where the reading stopped.
    fn read(buffer: &mut Buffer, mode: &Mode) -> (result: Result<SideInfo, ErrorType>)
        requires
            old(buffer).wf(),
        ensures
            decoded_as(result, side_info_at(old(buffer).data@, old(buffer).pos as int, *mode)),
            result is Ok ==> final(buffer).pos == old(buffer).pos + layout_of(*mode).bits(),
            result is Ok ==> final(buffer).cursor_in_bounds(),
            result is Ok ==> result->Ok_0.wf(*mode),
            result is Ok ==> result->Ok_0.granules_valid(),
            final(buffer).data == old(buffer).data,
            final(buffer).total_bits == old(buffer).total_bits,
    {
        let ghost data = buffer.data@;
        let ghost start = buffer.pos as int;
        let layout = Layout::of(mode);
        let main_data_begin = buffer.get_u16(9)?;
        let private_bits = buffer.get_u8(layout.private_bits)?;
        let scfsi = buffer.get_u8(layout.scfsi_bits)?;
        let count = layout.granules;
        let ghost first = start + layout.prefix_bits();
        let mut granules: Vec<GranuleInfo> = Vec::new();
        let mut part_23_total: usize = 0;
        let mut index: usize = 0;
        while index < count
            invariant
                index <= count <= 4,
                buffer.wf(),
                buffer.data == old(buffer).data,
                buffer.data@ == data,
                buffer.total_bits == old(buffer).total_bits,
                start == old(buffer).pos,
                count == layout_of(*mode).granules,
                first == start + layout_of(*mode).prefix_bits(),
                first <= 8 * data.len(),
                buffer.pos == first + GRANULE_BITS * index,
                buffer.pos <= buffer.total_bits,
                granules_at(data, first, index as nat) == Ok::<Seq<GranuleInfo>, ErrorType>(
                    granules@,
                ),
                part_23_total == part_23_sum(granules@),
                part_23_total <= 0xffff * index,
            decreases count - index,
        {
            let granule = match GranuleInfo::read(buffer) {
                Ok(granule) => granule,
                Err(error) => {
                    proof {
                        lemma_granules_at_refusal(data, first, (index + 1) as nat, count as nat);
                    }
                    return Err(error);
                },
            };
            proof {
                assert(granules@.push(granule).drop_last() == granules@);
            }
            part_23_total = part_23_total + granule.part_23_length as usize;
            granules.push(granule);
            index = index + 1;
        }
        proof {
            lemma_granules_at_shape(data, first, count as nat);
        }
        let left: usize = buffer.total_bits - buffer.pos;
        if part_23_total > left && part_23_total - left > (main_data_begin as usize) * 8 {
            return Err(ErrorType::Overflow);
        }
        Ok(SideInfo { main_data_begin, private_bits, scfsi, granule_channels: granules })
    }

    /// Decodes the side information that stands at the cursor, for the
    /// channel mode of the frame's header, and moves the cursor behind it.
    ///
    /// One channel gives two granules, two channels give four. A refused
    /// side information leaves the cursor where it was.
    pub fn create_from_buffer(buffer: &mut Buffer, mode: &Mode) -> (result: Result<
        SideInfo,
        ErrorType,
    >)
        requires
            old(buffer).wf(),
        ensures
            decoded_as(result, side_info_at(old(buffer).data@, old(buffer).pos as int, *mode)),
            result matches Ok(side_info) ==> side_info.granule_channels@.len() == (if *mode
                == Mode::SingleChannel {
                2nat
            } else {
                4nat
            }),
            result matches Ok(side_info) ==> side_info.wf(*mode),
            result matches Ok(side_info) ==> side_info.granules_valid(),
            result is Ok ==> final(buffer).pos == old(buffer).pos + layout_of(*mode).bits(),
            result is Ok ==> final(buffer).cursor_in_bounds(),
            result is Err ==> final(buffer)@ == old(buffer)@,
            final(buffer).data == old(buffer).data,
            final(buffer).total_bits == old(buffer).total_bits,
    {
        let start = buffer.pos;
        let result = SideInfo::read(buffer, mode);
        if result.is_err() {
            buffer.set_pos(start);
        }
        result
    }
}

} // verus!
