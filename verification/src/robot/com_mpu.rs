//! The inertial sensor on the serial line.

pub mod mpu_data;
pub mod mpu_laws;

use vstd::prelude::*;
use crate::robot::com_mpu::mpu_data::{sensor_decode, MPURawData, MPU_DATA_BYTES_LENGTH};

verus! {

/// The `k`-th frame-sized piece of `s`.
pub open spec fn chunk(s: Seq<u8>, k: int) -> Seq<u8> {
    s.subrange(MPU_DATA_BYTES_LENGTH * k, MPU_DATA_BYTES_LENGTH * k + MPU_DATA_BYTES_LENGTH)
}

/// The reading of the last of the first `n` pieces of `s` that is a valid
/// frame, if there is one.
pub open spec fn last_reading(s: Seq<u8>, n: nat) -> Option<MPURawData>
    decreases n,
{
    if n == 0 {
        None
    } else {
        match sensor_decode(chunk(s, n - 1)) {
            Some(reading) => Some(reading),
            None => last_reading(s, (n - 1) as nat),
        }
    }
}

/// The newest reading in what a read from the serial line brought: `buf`
/// holds `count` bytes, which are taken as whole frames laid end to end.
/// Pieces that are no valid frame are passed over, and bytes after the last
/// whole frame are left alone.
pub fn newest_reading(buf: &[u8], count: usize) -> (r: Option<MPURawData>)
    requires
        count <= buf.len(),
    ensures
        r == last_reading(buf@, (count / MPU_DATA_BYTES_LENGTH) as nat),
{
    let frames = count / MPU_DATA_BYTES_LENGTH;
    let mut newest: Option<MPURawData> = None;
    let mut k: usize = 0;
    while k < frames
        invariant
            k <= frames,
            frames * MPU_DATA_BYTES_LENGTH <= buf.len(),
            newest == last_reading(buf@, k as nat),
        decreases frames - k,
    {
        assert(k * MPU_DATA_BYTES_LENGTH + MPU_DATA_BYTES_LENGTH <= frames * MPU_DATA_BYTES_LENGTH);
        let start = k * MPU_DATA_BYTES_LENGTH;
        let piece = &buf[start..start + MPU_DATA_BYTES_LENGTH];
        assert(piece@ == chunk(buf@, k as int));
        match MPURawData::from_raw_parts(piece) {
            Some(reading) => {
                newest = Some(reading);
            },
            None => {},
        }
        k = k + 1;
    }
    newest
}

} // verus!
