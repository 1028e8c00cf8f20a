//! The robot's side of the datagram exchange with the coach: what to make of
//! the bytes gathered so far.
//!
//! Datagrams are gathered at the start of a cache. A packet is taken once
//! its length byte is there and as many bytes as that byte declares have
//! come in; the cache then starts over.

use vstd::prelude::*;
use crate::data_legacy::coach::{coach_decode, CoachPackView, LegacyPackFromCoach};
use crate::data_legacy::decode_error::DecodeError;

verus! {

/// How many bytes it takes to know a packet's length.
pub const HEADER_LEN: usize = 3;

/// Where the robot listens.
pub const BIND_IP_ADDRESS: [u8; 4] = [10, 31, 3, 124];

/// Where the robot listens.
pub const BIND_PORT: u16 = 20091;

/// Where the coach listens.
pub const COACH_IP_ADDRESS: [u8; 4] = [10, 31, 1, 2];

/// Where the coach takes a robot's first packet.
pub const COACH_PORT_STARTUP: u16 = 20090;

/// Where the coach takes every later packet.
pub const COACH_PORT_AGENT: u16 = 20090;

/// Whether `loaded` bytes at the start of `cache` hold a whole packet, as
/// its length byte declares it.
pub open spec fn pack_is_in(cache: Seq<u8>, loaded: nat) -> bool {
    loaded >= HEADER_LEN && loaded >= cache[2]
}

/// What the bytes gathered so far amount to.
pub struct Gathered {
    /// How many bytes the cache holds from here on.
    pub loaded: usize,
    /// The packet that was taken from the cache, or why it was refused.
    pub pack: Option<Result<LegacyPackFromCoach, DecodeError>>,
}

/// Takes stock after `received` more bytes were stored behind the `loaded`
/// bytes that `cache` held. While no whole packet is in, the bytes are kept.
/// Once one is in, the bytes that it declares are decoded and the cache
/// starts over, whatever the decode gave.
pub fn gather(cache: &[u8], loaded: usize, received: usize) -> (g: Gathered)
    requires
        loaded + received <= cache.len(),
    ensures
        !pack_is_in(cache@, (loaded + received) as nat) ==> g.loaded == loaded + received
            && g.pack is None,
        pack_is_in(cache@, (loaded + received) as nat) ==> g.loaded == 0 && (g.pack matches Some(
            taken,
        ) && match taken {
            Ok(pack) => coach_decode(cache@.subrange(0, cache@[2] as int)) == Ok::<
                CoachPackView,
                DecodeError,
            >(pack@),
            Err(e) => coach_decode(cache@.subrange(0, cache@[2] as int)) == Err::<
                CoachPackView,
                DecodeError,
            >(e),
        }),
{
    let total = loaded + received;
    if total < HEADER_LEN {
        return Gathered { loaded: total, pack: None };
    }
    let pack_len = cache[HEADER_LEN - 1] as usize;
    if total < pack_len {
        return Gathered { loaded: total, pack: None };
    }
    let taken = LegacyPackFromCoach::try_from_bytes(&cache[0..pack_len]);
    Gathered { loaded: 0, pack: Some(taken) }
}

/// The port of the coach that a packet goes to: the startup port for the
/// first one, the agent port from then on.
pub fn coach_port(first_time: bool) -> (port: u16)
    ensures
        port == if first_time {
            COACH_PORT_STARTUP
        } else {
            COACH_PORT_AGENT
        },
{
    if first_time {
        COACH_PORT_STARTUP
    } else {
        COACH_PORT_AGENT
    }
}

} // verus!
