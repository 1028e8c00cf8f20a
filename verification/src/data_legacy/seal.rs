//! What both packet decoders do alike: naming the field that was cut off,
//! and holding the last byte against the checksum.

use vstd::prelude::*;
use crate::data_legacy::decode_error::{DecodeError, PackField};
use crate::wire::{checksum, checksum_of, lemma_byte_sum_update};

verus! {

/// The checksum that a frame's bytes ask for: that of every byte but the
/// last, started at zero.
pub open spec fn computed_sum(bytes: Seq<u8>) -> u8 {
    checksum(0, bytes.drop_last())
}

/// The checksum that a frame carries: its last byte.
pub open spec fn stored_sum(bytes: Seq<u8>) -> u8 {
    bytes.last()
}

/// The checksum asked for is what is left of the sum of all the bytes once
/// the last byte is taken off again, both reckoned modulo 256.
pub proof fn lemma_computed_sum_is_total_less_last(bytes: Seq<u8>)
    requires
        bytes.len() > 0,
    ensures
        computed_sum(bytes) as int == (checksum(0, bytes) - stored_sum(bytes)) % 256,
{
    assert(bytes =~= bytes.drop_last().push(bytes.last()));
}

/// Once a frame ends with its checksum, it no longer does after any one of
/// its bytes is changed.
pub proof fn lemma_sum_notices_change(bytes: Seq<u8>, at: int, b: u8)
    requires
        0 <= at < bytes.len(),
        computed_sum(bytes) == stored_sum(bytes),
        b != bytes[at],
    ensures
        computed_sum(bytes.update(at, b)) != stored_sum(bytes.update(at, b)),
{
    let bad = bytes.update(at, b);
    if at == bytes.len() - 1 {
        assert(bad.drop_last() =~= bytes.drop_last());
    } else {
        assert(bad.drop_last() =~= bytes.drop_last().update(at, b));
        lemma_byte_sum_update(bytes.drop_last(), at, b);
    }
}

/// Hands on a value that was read, or reports the field that was cut off.
pub fn need<T>(read: Option<T>, field: PackField) -> (r: Result<T, DecodeError>)
    ensures
        read matches Some(v) ==> r == Ok::<T, DecodeError>(v),
        read is None ==> r == Err::<T, DecodeError>(DecodeError::TruncatedField(field)),
{
    match read {
        Some(v) => Ok(v),
        None => Err(DecodeError::TruncatedField(field)),
    }
}

/// Holds a frame's last byte against the checksum of the bytes before it.
pub fn check_sum(bytes: &[u8]) -> (r: Result<(), DecodeError>)
    requires
        bytes@.len() > 0,
    ensures
        computed_sum(bytes@) == stored_sum(bytes@) ==> r is Ok,
        computed_sum(bytes@) != stored_sum(bytes@) ==> r == Err::<(), DecodeError>(
            DecodeError::ChecksumMismatch {
                computed: computed_sum(bytes@),
                expected: stored_sum(bytes@),
            },
        ),
{
    let total = checksum_of(0, bytes, 0, bytes.len());
    let expected = bytes[bytes.len() - 1];
    let computed = total.wrapping_sub(expected);
    proof {
        assert(bytes@.subrange(0, bytes@.len() as int) =~= bytes@);
        lemma_computed_sum_is_total_less_last(bytes@);
    }
    if computed != expected {
        Err(DecodeError::ChecksumMismatch { computed, expected })
    } else {
        Ok(())
    }
}

} // verus!
