//! The frame of the inertial sensor: 43 bytes.
//!
//! | offset | bytes | field |
//! |---|---|---|
//! | 0 | 2 | header `55 AA`, checked on decode |
//! | 2 | 16 | orientation: `w, x, y, z` |
//! | 18 | 12 | angular rate: `x, y, z` |
//! | 30 | 12 | acceleration: `x, y, z` |
//! | 42 | 1 | checksum of bytes 2 to 41, started at `FF` |
//!
//! Each of the ten values takes four bytes: the value, big-endian, and a
//! padding slot of two bytes that is written as zero and not looked at.

use vstd::prelude::*;
use crate::byte_reader::{i16_at, ByteReader};
use crate::byte_writer::{lemma_frame_layout, PackWriter};
use crate::vector::{I16Vec3, I16Vec4};
use crate::wire::{
    byte_sum, checksum, checksum_of, i16_bytes, lemma_byte_sum_concat, HEADER_HI, HEADER_LO,
};

verus! {

/// The length of a sensor frame.
pub const MPU_DATA_BYTES_LENGTH: usize = 43;

/// The checksum of a sensor frame starts at this value.
pub const MPU_DATA_SUM_SEED: u8 = 0xFF;

/// How many 16-bit slots a sensor frame holds, padding included.
pub const MPU_DATA_SLOTS: usize = 20;

/// One reading of the inertial sensor, in the sensor's raw units.
#[derive(Debug, Clone, Copy, Default, PartialEq, Eq, Hash, Structural)]
pub struct MPURawData {
    /// Orientation, as a quaternion.
    pub quat: I16Vec4,
    /// Angular rate.
    pub gyro: I16Vec3,
    /// Acceleration.
    pub acc: I16Vec3,
}

/// The four bytes of one value: the value, then its padding slot.
pub open spec fn slot_bytes(x: i16) -> Seq<u8> {
    i16_bytes(x) + seq![0u8, 0u8]
}

impl MPURawData {
    /// The header and the bytes of the ten values, in wire order.
    pub open spec fn payload(self) -> Seq<u8> {
        seq![HEADER_HI, HEADER_LO]
            + slot_bytes(self.quat.w)
            + slot_bytes(self.quat.x)
            + slot_bytes(self.quat.y)
            + slot_bytes(self.quat.z)
            + slot_bytes(self.gyro.x)
            + slot_bytes(self.gyro.y)
            + slot_bytes(self.gyro.z)
            + slot_bytes(self.acc.x)
            + slot_bytes(self.acc.y)
            + slot_bytes(self.acc.z)
    }

    /// The encoded frame: header, values, and the checksum of the values.
    pub open spec fn wire(self) -> Seq<u8> {
        self.payload().push(checksum(MPU_DATA_SUM_SEED, self.payload().subrange(2, 42)))
    }
}

/// The reading that the values of `bytes` spell, for a buffer long enough
/// to hold them all.
pub open spec fn sensor_fields(bytes: Seq<u8>) -> MPURawData {
    MPURawData {
        quat: I16Vec4 {
            w: i16_at(bytes, 2),
            x: i16_at(bytes, 6),
            y: i16_at(bytes, 10),
            z: i16_at(bytes, 14),
        },
        gyro: I16Vec3 { x: i16_at(bytes, 18), y: i16_at(bytes, 22), z: i16_at(bytes, 26) },
        acc: I16Vec3 { x: i16_at(bytes, 30), y: i16_at(bytes, 34), z: i16_at(bytes, 38) },
    }
}

/// Whether `bytes` starts with a valid sensor frame: long enough, with the
/// header, and with the checksum of its forty value bytes behind them.
pub open spec fn sensor_frame_valid(bytes: Seq<u8>) -> bool {
    &&& bytes.len() >= MPU_DATA_BYTES_LENGTH
    &&& bytes[0] == HEADER_HI
    &&& bytes[1] == HEADER_LO
    &&& bytes[42] == checksum(MPU_DATA_SUM_SEED, bytes.subrange(2, 42))
}

/// What decoding `bytes` as a sensor frame gives: the reading, or nothing
/// where the frame is not valid. Bytes after the frame are not looked at.
pub open spec fn sensor_decode(bytes: Seq<u8>) -> Option<MPURawData> {
    if sensor_frame_valid(bytes) {
        Some(sensor_fields(bytes))
    } else {
        None
    }
}

impl MPURawData {
    /// Decodes a sensor frame.
    pub fn from_raw_parts(data: &[u8]) -> (r: Option<Self>)
        ensures
            r == sensor_decode(data@),
    {
        let mut reader = ByteReader::new(data);
        match reader.next_u16() {
            Some(header) => {
                if header != 0x55AA {
                    return None;
                }
            },
            None => {
                return None;
            },
        }
        let mut slots = [0i16;MPU_DATA_SLOTS];
        let mut k: usize = 0;
        while k < MPU_DATA_SLOTS
            invariant
                k <= MPU_DATA_SLOTS,
                reader.source() == data@,
                reader.position() == 2 + 2 * k,
                reader.position() <= data@.len(),
                forall|i: int| 0 <= i < k ==> slots@[i] == i16_at(data@, 2 + 2 * i),
            decreases MPU_DATA_SLOTS - k,
        {
            match reader.next_i16() {
                Some(value) => {
                    slots[k] = value;
                },
                None => {
                    return None;
                },
            }
            k = k + 1;
        }
        let set_sum = match reader.next_u8() {
            Some(v) => v,
            None => {
                return None;
            },
        };
        let sum = checksum_of(MPU_DATA_SUM_SEED, data, 2, 42);
        if sum != set_sum {
            return None;
        }
        Some(
            MPURawData {
                quat: I16Vec4::new(slots[2], slots[4], slots[6], slots[0]),
                gyro: I16Vec3::new(slots[8], slots[10], slots[12]),
                acc: I16Vec3::new(slots[14], slots[16], slots[18]),
            },
        )
    }

    /// Encodes the reading.
    pub fn generate_bytes(&self) -> (out: [u8; MPU_DATA_BYTES_LENGTH])
        ensures
            out@ == self.wire(),
    {
        let mut w = PackWriter::<MPU_DATA_BYTES_LENGTH>::new();
        w.put_u8(HEADER_HI);
        w.put_u8(HEADER_LO);
        assert(w.written() =~= seq![HEADER_HI, HEADER_LO]);
        put_slot(&mut w, self.quat.w);
        put_slot(&mut w, self.quat.x);
        put_slot(&mut w, self.quat.y);
        put_slot(&mut w, self.quat.z);
        put_slot(&mut w, self.gyro.x);
        put_slot(&mut w, self.gyro.y);
        put_slot(&mut w, self.gyro.z);
        put_slot(&mut w, self.acc.x);
        put_slot(&mut w, self.acc.y);
        put_slot(&mut w, self.acc.z);
        proof {
            lemma_sensor_sums_agree(self.payload());
            lemma_frame_layout(0, self.payload(), MPU_DATA_BYTES_LENGTH as nat);
        }
        let out = w.finish(0);
        assert(out@ =~= self.wire());
        out
    }
}

/// Writes one value and its padding slot.
fn put_slot(w: &mut PackWriter<MPU_DATA_BYTES_LENGTH>, x: i16)
    requires
        old(w).fits(4),
    ensures
        final(w).written() == old(w).written() + slot_bytes(x),
{
    w.put_i16(x);
    w.put_i16(0);
    assert(i16_bytes(0) =~= seq![0u8, 0u8]);
    assert(w.written() =~= old(w).written() + slot_bytes(x));
}

/// Behind the header, a checksum started at zero over header and values is
/// the checksum started at `FF` over the values: the header's two bytes add
/// up to `FF`.
pub proof fn lemma_sensor_sums_agree(bytes: Seq<u8>)
    requires
        bytes.len() >= 2,
        bytes[0] == HEADER_HI,
        bytes[1] == HEADER_LO,
    ensures
        checksum(0, bytes) == checksum(MPU_DATA_SUM_SEED, bytes.subrange(2, bytes.len() as int)),
{
    let header = bytes.subrange(0, 2);
    let rest = bytes.subrange(2, bytes.len() as int);
    assert(bytes =~= header + rest);
    lemma_byte_sum_concat(header, rest);
    assert(byte_sum(header) == 0xFF) by {
        reveal_with_fuel(byte_sum, 3);
        assert(header.drop_last().drop_last().len() == 0);
    }
}

} // verus!
