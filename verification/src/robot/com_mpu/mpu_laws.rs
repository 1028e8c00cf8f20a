//! What holds of every sensor frame.

use vstd::prelude::*;
use crate::byte_writer::lemma_frame_i16;
use crate::robot::com_mpu::mpu_data::{
    sensor_decode, sensor_frame_valid, MPURawData, MPU_DATA_BYTES_LENGTH,
};
use crate::wire::{
    flip_bit, i16_bytes, lemma_byte_sum_update, lemma_flip_bit_changes, HEADER_HI, HEADER_LO,
};

verus! {

/// Where the bytes of each value stand in the payload.
pub proof fn lemma_sensor_payload_layout(d: MPURawData)
    ensures
        d.payload().len() == 42,
        d.wire().len() == MPU_DATA_BYTES_LENGTH,
        d.payload()[0] == HEADER_HI,
        d.payload()[1] == HEADER_LO,
        d.payload().subrange(2, 4) == i16_bytes(d.quat.w),
        d.payload().subrange(6, 8) == i16_bytes(d.quat.x),
        d.payload().subrange(10, 12) == i16_bytes(d.quat.y),
        d.payload().subrange(14, 16) == i16_bytes(d.quat.z),
        d.payload().subrange(18, 20) == i16_bytes(d.gyro.x),
        d.payload().subrange(22, 24) == i16_bytes(d.gyro.y),
        d.payload().subrange(26, 28) == i16_bytes(d.gyro.z),
        d.payload().subrange(30, 32) == i16_bytes(d.acc.x),
        d.payload().subrange(34, 36) == i16_bytes(d.acc.y),
        d.payload().subrange(38, 40) == i16_bytes(d.acc.z),
        forall|i: int| 2 <= i < 42 && (i % 4 == 0 || i % 4 == 1) ==> d.payload()[i] == 0,
{
    let p = d.payload();
    assert(p.len() == 42);
    assert(p.subrange(2, 4) =~= i16_bytes(d.quat.w));
    assert(p.subrange(6, 8) =~= i16_bytes(d.quat.x));
    assert(p.subrange(10, 12) =~= i16_bytes(d.quat.y));
    assert(p.subrange(14, 16) =~= i16_bytes(d.quat.z));
    assert(p.subrange(18, 20) =~= i16_bytes(d.gyro.x));
    assert(p.subrange(22, 24) =~= i16_bytes(d.gyro.y));
    assert(p.subrange(26, 28) =~= i16_bytes(d.gyro.z));
    assert(p.subrange(30, 32) =~= i16_bytes(d.acc.x));
    assert(p.subrange(34, 36) =~= i16_bytes(d.acc.y));
    assert(p.subrange(38, 40) =~= i16_bytes(d.acc.z));
}

/// Decoding an encoded reading gives the reading.
pub proof fn lemma_sensor_round_trip(d: MPURawData)
    ensures
        sensor_decode(d.wire()) == Some(d),
{
    let p = d.payload();
    let w = d.wire();
    lemma_sensor_payload_layout(d);
    assert(w.subrange(0, 42) =~= p);
    assert(w.subrange(2, 42) =~= p.subrange(2, 42));
    assert(w[0] == p[0] && w[1] == p[1]);
    lemma_frame_i16(w, p, 2, d.quat.w);
    lemma_frame_i16(w, p, 6, d.quat.x);
    lemma_frame_i16(w, p, 10, d.quat.y);
    lemma_frame_i16(w, p, 14, d.quat.z);
    lemma_frame_i16(w, p, 18, d.gyro.x);
    lemma_frame_i16(w, p, 22, d.gyro.y);
    lemma_frame_i16(w, p, 26, d.gyro.z);
    lemma_frame_i16(w, p, 30, d.acc.x);
    lemma_frame_i16(w, p, 34, d.acc.y);
    lemma_frame_i16(w, p, 38, d.acc.z);
}

/// A buffer that does not start with the header gives no reading, whatever
/// else it holds.
pub proof fn lemma_sensor_wrong_header(bytes: Seq<u8>)
    requires
        bytes.len() < 2 || bytes[0] != HEADER_HI || bytes[1] != HEADER_LO,
    ensures
        sensor_decode(bytes) is None,
{
}

/// Changing any one byte of a valid frame leaves no valid frame.
pub proof fn lemma_sensor_corruption_detected(bytes: Seq<u8>, at: int, b: u8)
    requires
        sensor_frame_valid(bytes),
        0 <= at < MPU_DATA_BYTES_LENGTH,
        b != bytes[at],
    ensures
        sensor_decode(bytes.update(at, b)) is None,
{
    let bad = bytes.update(at, b);
    if 2 <= at < 42 {
        assert(bad.subrange(2, 42) =~= bytes.subrange(2, 42).update(at - 2, b));
        lemma_byte_sum_update(bytes.subrange(2, 42), at - 2, b);
    } else {
        assert(bad.subrange(2, 42) =~= bytes.subrange(2, 42));
    }
}

/// Flipping any one bit of a valid frame leaves no valid frame.
pub proof fn lemma_sensor_bit_flip_detected(bytes: Seq<u8>, at: int, bit: u8)
    requires
        sensor_frame_valid(bytes),
        0 <= at < MPU_DATA_BYTES_LENGTH,
        bit < 8,
    ensures
        sensor_decode(bytes.update(at, flip_bit(bytes[at], bit))) is None,
{
    lemma_flip_bit_changes(bytes[at], bit);
    lemma_sensor_corruption_detected(bytes, at, flip_bit(bytes[at], bit));
}

} // verus!
