use mp3_frame::buffer::Buffer;
use mp3_frame::error::ErrorType;
use mp3_frame::header::Mode;
use mp3_frame::side_info::{GranuleInfo, Layout, SideInfo, GRANULE_BITS};

/// Writes numbers of given widths one behind the other, most significant
/// bit first.
struct BitWriter {
    bits: Vec<bool>,
}

impl BitWriter {
    fn new() -> Self {
        BitWriter { bits: Vec::new() }
    }

    fn put(&mut self, value: u32, width: u32) {
        assert!(width == 32 || value < (1 << width));
        for i in (0..width).rev() {
            self.bits.push((value >> i) & 1 == 1);
        }
    }

    fn flag(&mut self, flag: bool) {
        self.put(flag as u32, 1);
    }

    fn len(&self) -> usize {
        self.bits.len()
    }

    /// The bytes, the last one filled up with zero bits.
    fn bytes(&self) -> Vec<u8> {
        let mut bytes = vec![0u8; (self.bits.len() + 7) / 8];
        for (i, bit) in self.bits.iter().enumerate() {
            if *bit {
                bytes[i / 8] |= 0x80 >> (i % 8);
            }
        }
        bytes
    }
}

fn put_granule(writer: &mut BitWriter, granule: &GranuleInfo) {
    writer.put(granule.part_23_length as u32, 12);
    writer.put(granule.big_values as u32, 9);
    writer.put(granule.global_gain as u32, 8);
    writer.put(granule.scalefac_compress as u32, 4);
    writer.flag(granule.windows_switching);
    if granule.windows_switching {
        writer.put(granule.block_type as u32, 2);
        writer.flag(granule.mixed_block_flag);
        writer.put(granule.table_select[0] as u32, 5);
        writer.put(granule.table_select[1] as u32, 5);
        for gain in granule.subblock_gain {
            writer.put(gain as u32, 3);
        }
    } else {
        for table in granule.table_select {
            writer.put(table as u32, 5);
        }
        writer.put(granule.region_count[0] as u32, 4);
        writer.put(granule.region_count[1] as u32, 3);
    }
    writer.flag(granule.preflag);
    writer.flag(granule.scalefac_scale);
    writer.flag(granule.count1_table_select);
}

fn put_side_info(
    writer: &mut BitWriter,
    mono: bool,
    begin: u32,
    private: u32,
    scfsi: u32,
    granules: &[GranuleInfo],
) {
    writer.put(begin, 9);
    writer.put(private, if mono { 5 } else { 3 });
    writer.put(scfsi, if mono { 4 } else { 8 });
    for granule in granules {
        put_granule(writer, granule);
    }
}

fn plain_granule(seed: u8) -> GranuleInfo {
    GranuleInfo {
        part_23_length: 0,
        big_values: 100 + seed as u16,
        global_gain: 200 - seed,
        scalefac_compress: seed % 16,
        windows_switching: false,
        block_type: 0,
        mixed_block_flag: false,
        table_select: [seed % 32, 31 - seed % 32, 7],
        subblock_gain: [0, 0, 0],
        region_count: [15 - seed % 16, seed % 8, 255],
        preflag: seed % 2 == 1,
        scalefac_scale: seed % 3 == 1,
        count1_table_select: seed % 5 == 1,
    }
}

fn switching_granule(seed: u8) -> GranuleInfo {
    GranuleInfo {
        part_23_length: 0,
        big_values: 288 - seed as u16,
        global_gain: seed,
        scalefac_compress: 15 - seed % 16,
        windows_switching: true,
        block_type: 1 + seed % 3,
        mixed_block_flag: seed % 2 == 0,
        table_select: [seed % 32, 3, 0],
        subblock_gain: [seed % 8, 7 - seed % 8, 5],
        region_count: [0, 0, 0],
        preflag: seed % 2 == 0,
        scalefac_scale: true,
        count1_table_select: false,
    }
}

fn decode(bytes: Vec<u8>, pos: usize, mode: Mode) -> (Result<SideInfo, ErrorType>, usize) {
    let mut buffer = Buffer::new(bytes);
    buffer.set_pos(pos);
    let result = SideInfo::create_from_buffer(&mut buffer, &mode);
    (result, buffer.pos)
}

#[test]
fn granule_new_is_all_zero() {
    assert_eq!(
        GranuleInfo::new(),
        GranuleInfo {
            part_23_length: 0,
            big_values: 0,
            global_gain: 0,
            scalefac_compress: 0,
            windows_switching: false,
            block_type: 0,
            mixed_block_flag: false,
            table_select: [0, 0, 0],
            subblock_gain: [0, 0, 0],
            region_count: [0, 0, 0],
            preflag: false,
            scalefac_scale: false,
            count1_table_select: false,
        }
    );
    assert_eq!(GRANULE_BITS, 59);
}

#[test]
fn layout_follows_the_channel_mode() {
    let one = Layout::of(&Mode::SingleChannel);
    assert_eq!(one, Layout { private_bits: 5, scfsi_bits: 4, granules: 2 });
    for mode in [Mode::Stereo, Mode::JointStereo, Mode::DualChannel] {
        let two = Layout::of(&mode);
        assert_eq!(two, Layout { private_bits: 3, scfsi_bits: 8, granules: 4 });
    }
    // 9 + 5 + 4 + 2 * 59 bits for one channel, 9 + 3 + 8 + 4 * 59 for two.
    assert_eq!(9 + 5 + 4 + 2 * GRANULE_BITS, 136);
    assert_eq!(9 + 3 + 8 + 4 * GRANULE_BITS, 256);
}

#[test]
fn side_info_mono_has_two_granules() {
    let granules = [plain_granule(3), switching_granule(4)];
    let mut writer = BitWriter::new();
    put_side_info(&mut writer, true, 0, 0b10101, 0b1001, &granules);
    assert_eq!(writer.len(), 136);
    let (result, pos) = decode(writer.bytes(), 0, Mode::SingleChannel);
    let side_info = result.unwrap();
    assert_eq!(side_info.granule_channels.len(), 2);
    assert_eq!(side_info.granule_channels, granules.to_vec());
    assert_eq!(side_info.main_data_begin, 0);
    assert_eq!(side_info.private_bits, 0b10101);
    assert_eq!(side_info.scfsi, 0b1001);
    assert_eq!(pos, 136);
}

#[test]
fn side_info_of_two_channels_has_four_granules() {
    for mode in [Mode::Stereo, Mode::JointStereo, Mode::DualChannel] {
        let granules =
            [plain_granule(1), switching_granule(2), switching_granule(9), plain_granule(30)];
        let mut writer = BitWriter::new();
        put_side_info(&mut writer, false, 0, 0b101, 0b1100_0011, &granules);
        assert_eq!(writer.len(), 256);
        let (result, pos) = decode(writer.bytes(), 0, mode);
        let side_info = result.unwrap();
        assert_eq!(side_info.granule_channels.len(), 4);
        assert_eq!(side_info.granule_channels, granules.to_vec());
        assert_eq!(side_info.private_bits, 0b101);
        assert_eq!(side_info.scfsi, 0b1100_0011);
        assert_eq!(pos, 256);
    }
}

#[test]
fn side_info_fields_at_their_bits() {
    // One channel, every field written by hand:
    // begin 9 bits, private 5, scfsi 4, then the granules.
    let mut writer = BitWriter::new();
    writer.put(0b1_0000_0001, 9);
    writer.put(0b11111, 5);
    writer.put(0b0110, 4);
    // First granule, without window switching.
    writer.put(0, 12);
    writer.put(0b1_0010_0000, 9); // big_values 288
    writer.put(0xa5, 8);
    writer.put(0b1110, 4);
    writer.put(0, 1);
    writer.put(0b10001, 5);
    writer.put(0b01110, 5);
    writer.put(0b11111, 5);
    writer.put(0b1001, 4);
    writer.put(0b101, 3);
    writer.put(0b101, 3);
    // Second granule, with window switching.
    writer.put(8, 12);
    writer.put(1, 9);
    writer.put(0xff, 8);
    writer.put(0, 4);
    writer.put(1, 1);
    writer.put(0b11, 2);
    writer.put(1, 1);
    writer.put(0b00001, 5);
    writer.put(0b10000, 5);
    writer.put(0b100, 3);
    writer.put(0b010, 3);
    writer.put(0b001, 3);
    writer.put(0b010, 3);
    assert_eq!(writer.len(), 136);
    let (result, pos) = decode(writer.bytes(), 0, Mode::SingleChannel);
    let side_info = result.unwrap();
    assert_eq!(pos, 136);
    assert_eq!(side_info.main_data_begin, 257);
    assert_eq!(side_info.private_bits, 31);
    assert_eq!(side_info.scfsi, 6);
    assert_eq!(
        side_info.granule_channels[0],
        GranuleInfo {
            part_23_length: 0,
            big_values: 288,
            global_gain: 0xa5,
            scalefac_compress: 14,
            windows_switching: false,
            block_type: 0,
            mixed_block_flag: false,
            table_select: [17, 14, 31],
            subblock_gain: [0, 0, 0],
            region_count: [9, 5, 255],
            preflag: true,
            scalefac_scale: false,
            count1_table_select: true,
        }
    );
    assert_eq!(
        side_info.granule_channels[1],
        GranuleInfo {
            part_23_length: 8,
            big_values: 1,
            global_gain: 255,
            scalefac_compress: 0,
            windows_switching: true,
            block_type: 3,
            mixed_block_flag: true,
            table_select: [1, 16, 0],
            subblock_gain: [4, 2, 1],
            region_count: [0, 0, 0],
            preflag: false,
            scalefac_scale: true,
            count1_table_select: false,
        }
    );
}

#[test]
fn side_info_off_a_byte_boundary() {
    let granules = [switching_granule(5), plain_granule(6)];
    let mut writer = BitWriter::new();
    writer.put(0b10110, 5);
    put_side_info(&mut writer, true, 3, 1, 2, &granules);
    writer.put(0x5a5a, 16);
    let (result, pos) = decode(writer.bytes(), 5, Mode::SingleChannel);
    let side_info = result.unwrap();
    assert_eq!(side_info.granule_channels, granules.to_vec());
    assert_eq!(side_info.main_data_begin, 3);
    assert_eq!(pos, 5 + 136);
}

#[test]
fn big_values_288_is_accepted_and_289_refused() {
    for second in [false, true] {
        let mut granules = [plain_granule(0), plain_granule(1)];
        granules[second as usize].big_values = 288;
        let mut writer = BitWriter::new();
        put_side_info(&mut writer, true, 0, 0, 0, &granules);
        let (result, pos) = decode(writer.bytes(), 0, Mode::SingleChannel);
        assert_eq!(result.unwrap().granule_channels[second as usize].big_values, 288);
        assert_eq!(pos, 136);

        granules[second as usize].big_values = 289;
        let mut writer = BitWriter::new();
        put_side_info(&mut writer, true, 0, 0, 0, &granules);
        let (result, pos) = decode(writer.bytes(), 0, Mode::SingleChannel);
        assert_eq!(result.unwrap_err(), ErrorType::BigValuesOutOfRange);
        assert_eq!(pos, 0);

        granules[second as usize].big_values = 511;
        let mut writer = BitWriter::new();
        put_side_info(&mut writer, true, 0, 0, 0, &granules);
        let (result, _) = decode(writer.bytes(), 0, Mode::SingleChannel);
        assert_eq!(result.unwrap_err(), ErrorType::BigValuesOutOfRange);
    }
}

#[test]
fn block_type_00_with_window_switching_is_refused() {
    for index in 0..4 {
        let mut granules =
            [switching_granule(1), plain_granule(2), switching_granule(3), switching_granule(4)];
        granules[index].windows_switching = true;
        granules[index].block_type = 0;
        granules[index].table_select[2] = 0;
        let mut writer = BitWriter::new();
        writer.put(0x3f, 6);
        put_side_info(&mut writer, false, 0, 0, 0, &granules);
        let (result, pos) = decode(writer.bytes(), 6, Mode::Stereo);
        assert_eq!(result.unwrap_err(), ErrorType::BlockTypeForbidden);
        assert_eq!(pos, 6);
    }
    // Without window switching there are no block-type bits, and the block
    // type 0 of the granule is in order.
    let granules = [plain_granule(1), plain_granule(2)];
    let mut writer = BitWriter::new();
    put_side_info(&mut writer, true, 0, 0, 0, &granules);
    let (result, _) = decode(writer.bytes(), 0, Mode::SingleChannel);
    assert_eq!(result.unwrap().granule_channels[0].block_type, 0);
}

#[test]
fn side_info_claims_are_held_against_stream_and_reservoir() {
    // 136 bits of side information and 3 bytes behind them.
    let build = |begin: u32, first: u16, second: u16| {
        let mut granules = [plain_granule(7), switching_granule(8)];
        granules[0].part_23_length = first;
        granules[1].part_23_length = second;
        let mut writer = BitWriter::new();
        put_side_info(&mut writer, true, begin, 0, 0, &granules);
        writer.put(0xabcdef, 24);
        writer.bytes()
    };
    let (result, pos) = decode(build(0, 24, 0), 0, Mode::SingleChannel);
    assert!(result.is_ok());
    assert_eq!(pos, 136);
    let (result, pos) = decode(build(0, 20, 4), 0, Mode::SingleChannel);
    assert!(result.is_ok());
    assert_eq!(pos, 136);
    let (result, pos) = decode(build(0, 20, 5), 0, Mode::SingleChannel);
    assert_eq!(result.unwrap_err(), ErrorType::Overflow);
    assert_eq!(pos, 0);
    let (result, _) = decode(build(0, 25, 0), 0, Mode::SingleChannel);
    assert_eq!(result.unwrap_err(), ErrorType::Overflow);
    // One byte of reservoir allows eight bits more.
    let (result, _) = decode(build(1, 25, 7), 0, Mode::SingleChannel);
    assert!(result.is_ok());
    let (result, _) = decode(build(1, 25, 8), 0, Mode::SingleChannel);
    assert_eq!(result.unwrap_err(), ErrorType::Overflow);
    let (result, _) = decode(build(511, 4095, 17), 0, Mode::SingleChannel);
    assert!(result.is_ok());
    let (result, _) = decode(build(511, 4095, 18), 0, Mode::SingleChannel);
    assert_eq!(result.unwrap_err(), ErrorType::Overflow);
}

#[test]
fn side_info_needs_all_its_bits() {
    let granules = [plain_granule(1), plain_granule(2), plain_granule(3), plain_granule(4)];
    let mut writer = BitWriter::new();
    put_side_info(&mut writer, false, 0, 0, 0, &granules);
    let bytes = writer.bytes();
    assert_eq!(bytes.len(), 32);
    for keep in 0..32 {
        let (result, pos) = decode(bytes[..keep].to_vec(), 0, Mode::Stereo);
        assert_eq!(result.unwrap_err(), ErrorType::OutOfIndex);
        assert_eq!(pos, 0);
    }
    let (result, pos) = decode(bytes.clone(), 1, Mode::Stereo);
    assert_eq!(result.unwrap_err(), ErrorType::OutOfIndex);
    assert_eq!(pos, 1);
    let (result, pos) = decode(bytes, 1000, Mode::Stereo);
    assert_eq!(result.unwrap_err(), ErrorType::OutOfIndex);
    assert_eq!(pos, 1000);
}

#[test]
fn side_info_refusals_come_in_stream_order() {
    // The second granule holds a forbidden block type, the first one
    // `big_values` out of range: the first refusal is reported.
    let mut granules = [plain_granule(1), switching_granule(2)];
    granules[0].big_values = 300;
    granules[1].block_type = 0;
    let mut writer = BitWriter::new();
    put_side_info(&mut writer, true, 0, 0, 0, &granules);
    let bytes = writer.bytes();
    let (result, _) = decode(bytes.clone(), 0, Mode::SingleChannel);
    assert_eq!(result.unwrap_err(), ErrorType::BigValuesOutOfRange);
    // `big_values` ends at bit 18 + 21 = 39: with five bytes it is read and
    // refused, with four the stream ends first.
    let (result, _) = decode(bytes[..5].to_vec(), 0, Mode::SingleChannel);
    assert_eq!(result.unwrap_err(), ErrorType::BigValuesOutOfRange);
    let (result, _) = decode(bytes[..4].to_vec(), 0, Mode::SingleChannel);
    assert_eq!(result.unwrap_err(), ErrorType::OutOfIndex);

    let mut granules = [switching_granule(1), plain_granule(2)];
    granules[0].block_type = 0;
    granules[1].big_values = 400;
    let mut writer = BitWriter::new();
    put_side_info(&mut writer, true, 0, 0, 0, &granules);
    let bytes = writer.bytes();
    let (result, _) = decode(bytes.clone(), 0, Mode::SingleChannel);
    assert_eq!(result.unwrap_err(), ErrorType::BlockTypeForbidden);
    // The block type ends at bit 18 + 36 = 54.
    let (result, _) = decode(bytes[..7].to_vec(), 0, Mode::SingleChannel);
    assert_eq!(result.unwrap_err(), ErrorType::BlockTypeForbidden);
    let (result, _) = decode(bytes[..6].to_vec(), 0, Mode::SingleChannel);
    assert_eq!(result.unwrap_err(), ErrorType::OutOfIndex);
    // The claim on the main data is looked at last.
    let mut granules = [plain_granule(1), plain_granule(2)];
    granules[0].part_23_length = 1;
    granules[1].big_values = 289;
    let mut writer = BitWriter::new();
    put_side_info(&mut writer, true, 0, 0, 0, &granules);
    let (result, _) = decode(writer.bytes(), 0, Mode::SingleChannel);
    assert_eq!(result.unwrap_err(), ErrorType::BigValuesOutOfRange);
}

#[test]
fn a_refused_side_information_is_refused_again() {
    let mut granules = [plain_granule(1), plain_granule(2)];
    granules[1].big_values = 289;
    let mut writer = BitWriter::new();
    put_side_info(&mut writer, true, 0, 0, 0, &granules);
    let mut buffer = Buffer::new(writer.bytes());
    let first = SideInfo::create_from_buffer(&mut buffer, &Mode::SingleChannel).unwrap_err();
    let second = SideInfo::create_from_buffer(&mut buffer, &Mode::SingleChannel).unwrap_err();
    assert_eq!(first, ErrorType::BigValuesOutOfRange);
    assert_eq!(second, ErrorType::BigValuesOutOfRange);
    assert_eq!(buffer.pos, 0);
}
