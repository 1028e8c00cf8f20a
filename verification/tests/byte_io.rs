use bigherox_robocup::byte_reader::ByteReader;
use bigherox_robocup::byte_writer::PackWriter;
use bigherox_robocup::vector::{F32Bits, I16Vec2};
use bigherox_robocup::wire::{
    checksum_of, i16_from_be, i16_to_be, u16_from_be, u16_to_be, u32_from_be, u32_to_be,
};

#[test]
fn reader_reads_big_endian() {
    let bytes = [0x01u8, 0x02, 0xFF, 0xFE, 0x80, 0x7F, 0x00, 0x09, 0x12, 0x34, 0x56, 0x78];
    let mut reader = ByteReader::new(&bytes);
    assert_eq!(reader.remaining_len(), 12);
    assert_eq!(reader.next_u16(), Some(0x0102));
    assert_eq!(reader.next_i16(), Some(-2));
    assert_eq!(reader.next_i8(), Some(-128));
    assert_eq!(reader.next_u8(), Some(0x7F));
    assert_eq!(reader.next_bool(), Some(false));
    assert_eq!(reader.next_bool(), Some(true));
    assert_eq!(reader.remaining_len(), 4);
    assert_eq!(reader.next_u32(), Some(0x1234_5678));
    assert_eq!(reader.remaining_len(), 0);
    assert_eq!(reader.next_u8(), None);
}

#[test]
fn reader_reads_points_and_floats() {
    let bytes = [0x03u8, 0x20, 0xFE, 0x0C, 0x44, 0x8F, 0x24, 0x7B];
    let mut reader = ByteReader::new(&bytes);
    assert_eq!(reader.next_i16vec2(), Some(I16Vec2::new(800, -500)));
    let bits = reader.next_f32().unwrap();
    assert_eq!(f32::from_bits(bits.to_bits()), 1145.14f32);
}

#[test]
fn reader_is_exhausted_by_a_failed_read() {
    let bytes = [1u8, 2, 3];
    let mut reader = ByteReader::new(&bytes);
    assert_eq!(reader.next_u32(), None);
    assert_eq!(reader.remaining_len(), 0);
    assert_eq!(reader.next_u8(), None);

    let mut reader = ByteReader::new(&bytes);
    assert_eq!(reader.next_u16(), Some(0x0102));
    assert_eq!(reader.next_i16(), None);
    assert_eq!(reader.next_u8(), None);

    let mut reader = ByteReader::new(&bytes);
    assert_eq!(reader.next_i16vec2(), None);
    assert_eq!(reader.next_bool(), None);
    assert_eq!(reader.next_f32(), None);
    assert_eq!(reader.next_i8(), None);
}

#[test]
fn reader_on_nothing() {
    let mut reader = ByteReader::new(&[]);
    assert_eq!(reader.remaining_len(), 0);
    assert_eq!(reader.next_u8(), None);
    assert_eq!(reader.next_u16(), None);
}

#[test]
fn big_endian_halves() {
    assert_eq!(u16_to_be(0x1234), (0x12, 0x34));
    assert_eq!(u16_to_be(0xFFFF), (0xFF, 0xFF));
    assert_eq!(i16_to_be(11451), (0x2C, 0xBB));
    assert_eq!(i16_to_be(-1), (0xFF, 0xFF));
    assert_eq!(i16_to_be(-32768), (0x80, 0x00));
    assert_eq!(i16_to_be(32767), (0x7F, 0xFF));
    assert_eq!(u32_to_be(0x448F_247B), (0x44, 0x8F, 0x24, 0x7B));
    assert_eq!(u16_from_be(0x12, 0x34), 0x1234);
    assert_eq!(i16_from_be(0x80, 0x00), -32768);
    assert_eq!(i16_from_be(0xFF, 0xFE), -2);
    assert_eq!(u32_from_be(0xFF, 0xFF, 0xFF, 0xFF), u32::MAX);
    for x in i16::MIN..=i16::MAX {
        let (hi, lo) = i16_to_be(x);
        assert_eq!([hi, lo], x.to_be_bytes());
        assert_eq!(i16_from_be(hi, lo), x);
    }
    for x in 0..=u16::MAX {
        let (hi, lo) = u16_to_be(x);
        assert_eq!([hi, lo], x.to_be_bytes());
        assert_eq!(u16_from_be(hi, lo), x);
    }
}

#[test]
fn checksum_wraps() {
    let bytes = [200u8, 100, 56, 1];
    assert_eq!(checksum_of(0, &bytes, 0, 4), 101);
    assert_eq!(checksum_of(0, &bytes, 0, 3), 100);
    assert_eq!(checksum_of(0xFF, &bytes, 1, 2), 99);
    assert_eq!(checksum_of(7, &bytes, 2, 2), 7);
}

#[test]
fn writer_builds_a_frame() {
    let mut w = PackWriter::<16>::new();
    w.put_u8(0x55);
    w.put_bool(true);
    w.put_bool(false);
    w.put_u16(0x0102);
    w.put_i16(-2);
    w.put_u32(0xA0B0_C0D0);
    w.put_f32(F32Bits::from_bits(1));
    w.put_u8(9);
    let out = w.finish(0);
    let body = [0x55u8, 1, 0, 1, 2, 0xFF, 0xFE, 0xA0, 0xB0, 0xC0, 0xD0, 0, 0, 0, 1];
    assert_eq!(&out[..15], &body[..]);
    assert_eq!(out[15], body.iter().fold(0u8, |s, b| s.wrapping_add(*b)));
}

#[test]
fn writer_pads_with_zeros_and_seeds_the_sum() {
    let mut w = PackWriter::<8>::new();
    w.put_i16vec2(I16Vec2::new(1, -1));
    let out = w.finish(0xFF);
    assert_eq!(out, [0, 1, 0xFF, 0xFF, 0, 0, 0, 0xFE]);
    let empty = PackWriter::<3>::new().finish(5);
    assert_eq!(empty, [0, 0, 5]);
}
