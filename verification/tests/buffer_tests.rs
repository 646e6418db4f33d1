use mp3_frame::buffer::Buffer;
use mp3_frame::error::ErrorType;
use mp3_frame::helper::get_32bits;

/// The bits `pos..pos + n` of `data`, taken one by one.
fn bits_one_by_one(data: &[u8], pos: usize, n: usize) -> u64 {
    let mut value: u64 = 0;
    for i in pos..pos + n {
        let bit = (data[i / 8] >> (7 - i % 8)) & 1;
        value = (value << 1) | bit as u64;
    }
    value
}

fn sample() -> Vec<u8> {
    vec![0xff, 0xfb, 0x90, 0x64, 0x00, 0x0f, 0xa5, 0x5a, 0x13, 0x37, 0xc0, 0xde, 0x81, 0x7e]
}

#[test]
fn test_get_bits() {
    let mut buffer = Buffer::new(vec![0xff, 0xfb, 0x90, 0x64]);

    assert_eq!(buffer.get_bits(12).unwrap(), 0xfff);
    assert_eq!(buffer.get_bits(1).unwrap(), 1); // MPEG-1
    assert_eq!(buffer.get_bits(2).unwrap(), 1); // LAYER III
    assert_eq!(buffer.get_bits(1).unwrap(), 1); // Error Protection
}

#[test]
fn new_buffer_counts_its_bits() {
    let buffer = Buffer::new(sample());
    assert_eq!(buffer.pos, 0);
    assert_eq!(buffer.total_bits, 14 * 8);
    assert_eq!(buffer.data, sample());
    let empty = Buffer::new(Vec::new());
    assert_eq!(empty.total_bits, 0);
}

#[test]
fn get_bits_agrees_with_single_bits_for_every_width_and_offset() {
    let data = sample();
    for start in 0..(data.len() * 8) {
        for n in 0..=32usize {
            let mut buffer = Buffer::new(data.clone());
            buffer.set_pos(start);
            let result = buffer.get_bits(n as u32);
            if start + n <= data.len() * 8 {
                assert_eq!(result, Ok(bits_one_by_one(&data, start, n) as u32));
                assert_eq!(buffer.pos, start + n);
            } else {
                assert_eq!(result, Err(ErrorType::OutOfIndex));
                assert_eq!(buffer.pos, start);
            }
        }
    }
}

#[test]
fn get_bits_exact_values() {
    let mut buffer = Buffer::new(vec![0b1010_1100, 0b0101_0011, 0xff, 0x00, 0x81]);
    buffer.set_pos(7);
    assert_eq!(buffer.get_bits(2), Ok(0b00));
    buffer.set_pos(6);
    assert_eq!(buffer.get_bits(4), Ok(0b0001));
    buffer.set_pos(4);
    assert_eq!(buffer.get_bits(24), Ok(0xc53ff0));
    buffer.set_pos(7);
    assert_eq!(buffer.get_bits(32), Ok(0x29ff_8040));
    assert_eq!(buffer.pos, 39);
    assert_eq!(buffer.get_bits(1), Ok(1));
    assert_eq!(buffer.pos, 40);
}

#[test]
fn get_bits_reads_in_sequence() {
    let data = sample();
    let mut buffer = Buffer::new(data.clone());
    let widths = [3u32, 5, 1, 13, 32, 0, 7, 9, 17, 25];
    let mut pos = 0usize;
    for &n in widths.iter() {
        assert_eq!(buffer.get_bits(n), Ok(bits_one_by_one(&data, pos, n as usize) as u32));
        pos += n as usize;
        assert_eq!(buffer.pos, pos);
    }
    assert_eq!(pos, 112);
    assert_eq!(buffer.pos, buffer.total_bits);
}

#[test]
fn get_bits_of_zero_width_reads_nothing() {
    let mut buffer = Buffer::new(sample());
    for pos in [0usize, 1, 7, 8, 55, 111, 112] {
        buffer.set_pos(pos);
        assert_eq!(buffer.get_bits(0), Ok(0));
        assert_eq!(buffer.pos, pos);
    }
    let mut empty = Buffer::new(Vec::new());
    assert_eq!(empty.get_bits(0), Ok(0));
    assert_eq!(empty.pos, 0);
}

#[test]
fn get_bits_refuses_more_than_32_bits_at_any_position() {
    let mut buffer = Buffer::new(sample());
    for pos in [0usize, 5, 79, 80, 111, 112, 113, 100_000] {
        buffer.set_pos(pos);
        assert_eq!(buffer.get_bits(33), Err(ErrorType::Overflow));
        assert_eq!(buffer.get_bits(64), Err(ErrorType::Overflow));
        assert_eq!(buffer.get_bits(u32::MAX), Err(ErrorType::Overflow));
        assert_eq!(buffer.pos, pos);
    }
}

#[test]
fn get_bits_refuses_a_range_behind_the_end() {
    let mut buffer = Buffer::new(sample());
    buffer.set_pos(81);
    assert_eq!(buffer.get_bits(32), Err(ErrorType::OutOfIndex));
    assert_eq!(buffer.pos, 81);
    buffer.set_pos(80);
    assert!(buffer.get_bits(32).is_ok());
    assert_eq!(buffer.pos, 112);
    assert_eq!(buffer.get_bits(1), Err(ErrorType::OutOfIndex));
    assert_eq!(buffer.pos, 112);
    let mut empty = Buffer::new(Vec::new());
    assert_eq!(empty.get_bits(1), Err(ErrorType::OutOfIndex));
}

#[test]
fn set_pos_checks_nothing() {
    let mut buffer = Buffer::new(sample());
    buffer.set_pos(112);
    assert_eq!(buffer.pos, 112);
    buffer.set_pos(5000);
    assert_eq!(buffer.pos, 5000);
    assert_eq!(buffer.get_bits(1), Err(ErrorType::OutOfIndex));
    assert_eq!(buffer.get_bits(0), Err(ErrorType::OutOfIndex));
    assert_eq!(buffer.pos, 5000);
    buffer.set_pos(usize::MAX);
    assert_eq!(buffer.get_bits(32), Err(ErrorType::OutOfIndex));
    assert_eq!(buffer.pos, usize::MAX);
    buffer.set_pos(0);
    assert_eq!(buffer.get_bits(8), Ok(0xff));
    assert_eq!(buffer.data, sample());
    assert_eq!(buffer.total_bits, 112);
}

#[test]
fn move_pos_moves_strictly_inside() {
    let mut buffer = Buffer::new(sample());
    buffer.move_pos(10);
    assert_eq!(buffer.pos, 10);
    buffer.move_pos(-9);
    assert_eq!(buffer.pos, 1);
    buffer.move_pos(110);
    assert_eq!(buffer.pos, 111);
    buffer.move_pos(0);
    assert_eq!(buffer.pos, 111);
    buffer.move_pos(-55);
    assert_eq!(buffer.pos, 56);
}

#[test]
fn move_pos_stays_where_the_target_is_a_boundary_or_outside() {
    let mut buffer = Buffer::new(sample());
    buffer.move_pos(0);
    assert_eq!(buffer.pos, 0);
    buffer.move_pos(112);
    assert_eq!(buffer.pos, 0);
    buffer.move_pos(113);
    assert_eq!(buffer.pos, 0);
    buffer.move_pos(-1);
    assert_eq!(buffer.pos, 0);
    buffer.move_pos(40);
    buffer.move_pos(-40);
    assert_eq!(buffer.pos, 40);
    buffer.move_pos(72);
    assert_eq!(buffer.pos, 40);
    buffer.move_pos(-41);
    assert_eq!(buffer.pos, 40);
    buffer.move_pos(isize::MAX);
    assert_eq!(buffer.pos, 40);
    buffer.move_pos(isize::MIN);
    assert_eq!(buffer.pos, 40);
    buffer.set_pos(112);
    buffer.move_pos(0);
    assert_eq!(buffer.pos, 112);
    buffer.move_pos(-1);
    assert_eq!(buffer.pos, 111);
    buffer.set_pos(usize::MAX);
    buffer.move_pos(1);
    assert_eq!(buffer.pos, usize::MAX);
    buffer.move_pos(isize::MIN);
    assert_eq!(buffer.pos, usize::MAX);
    buffer.set_pos(300);
    buffer.move_pos(-200);
    assert_eq!(buffer.pos, 100);
}

#[test]
fn get_32bits_is_get_bits_at_the_index() {
    let data = sample();
    for index in 0..(data.len() * 8 + 3) {
        for n in 0..=34u32 {
            let mut buffer = Buffer::new(data.clone());
            buffer.set_pos(index);
            assert_eq!(get_32bits(&data, index as u32, n), buffer.get_bits(n));
        }
    }
}
