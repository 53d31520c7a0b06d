//! Optional rak-samp event subscription: the requests its callback coalesces.
//!
//! The callback only sets bits for the GTA frame thread; it never inspects
//! player payloads, blocks traffic, or touches the runtime.

use crate::refresh::{set_bits, take_bits};
use std::sync::atomic::AtomicU8;
use vstd::prelude::*;

verus! {

/// `WorldPlayerAdd`, SA-MP's remote-player stream-in RPC.
pub const PLAYER_STREAM_IN_RPC_ID: u8 = 32;
pub const SET_PLAYER_SKIN_REFRESH: u8 = 1;
pub const PLAYER_STREAM_IN_REFRESH: u8 = 2;
pub const PLAYER_STREAM_OUT_REFRESH: u8 = 4;
pub const ALL_REFRESH_REASONS: u8 = 7;

/// What the coalesced rak-samp bits ask the frame thread to refresh after.
pub open spec fn rak_reason_spec(reasons: u8) -> Option<Seq<char>> {
    let bits = reasons & ALL_REFRESH_REASONS;
    if bits == 0 {
        None
    } else if bits == 1 {
        Some("SetPlayerSkin"@)
    } else if bits == 2 {
        Some("player stream-in"@)
    } else if bits == 4 {
        Some("player stream-out"@)
    } else if bits == 3 {
        Some("SetPlayerSkin and player stream-in"@)
    } else if bits == 5 {
        Some("SetPlayerSkin and player stream-out"@)
    } else if bits == 6 {
        Some("player stream-in and player stream-out"@)
    } else {
        Some("SetPlayerSkin, player stream-in, and player stream-out"@)
    }
}

pub fn refresh_reason(reasons: u8) -> (reason: Option<&'static str>)
    ensures
        match reason {
            Some(text) => rak_reason_spec(reasons) == Some(text@),
            None => rak_reason_spec(reasons) is None,
        },
{
    let bits = reasons & ALL_REFRESH_REASONS;
    if bits == 0 {
        None
    } else if bits == 1 {
        Some("SetPlayerSkin")
    } else if bits == 2 {
        Some("player stream-in")
    } else if bits == 4 {
        Some("player stream-out")
    } else if bits == 3 {
        Some("SetPlayerSkin and player stream-in")
    } else if bits == 5 {
        Some("SetPlayerSkin and player stream-out")
    } else if bits == 6 {
        Some("player stream-in and player stream-out")
    } else {
        Some("SetPlayerSkin, player stream-in, and player stream-out")
    }
}

/// The refresh bit an incoming RPC asks for, given the host's identifiers of
/// `SetPlayerSkin` and player stream-out. Only the identifier is looked at,
/// never the payload; any other RPC asks for nothing.
pub fn rpc_refresh_bit(event_id: u8, set_player_skin_id: u8, player_stream_out_id: u8) -> (bit: u8)
    ensures
        bit == (if event_id == PLAYER_STREAM_IN_RPC_ID {
            PLAYER_STREAM_IN_REFRESH
        } else if event_id == set_player_skin_id {
            SET_PLAYER_SKIN_REFRESH
        } else if event_id == player_stream_out_id {
            PLAYER_STREAM_OUT_REFRESH
        } else {
            0
        }),
{
    if event_id == PLAYER_STREAM_IN_RPC_ID {
        PLAYER_STREAM_IN_REFRESH
    } else if event_id == set_player_skin_id {
        SET_PLAYER_SKIN_REFRESH
    } else if event_id == player_stream_out_id {
        PLAYER_STREAM_OUT_REFRESH
    } else {
        0
    }
}

/// Consumes every rak-samp request since the previous frame and describes it.
pub fn take_refresh_request(reasons: &AtomicU8) -> (reason: Option<&'static str>)
    ensures
        exists|bits: u8| match reason {
            Some(text) => rak_reason_spec(bits) == Some(text@),
            None => rak_reason_spec(bits) is None,
        },
{
    let bits = take_bits(reasons);
    refresh_reason(bits)
}

/// Records a request from the rak-samp callback.
pub fn request_refresh(reasons: &AtomicU8, reason: u8) {
    set_bits(reasons, reason)
}

/// The rak-samp RPC ID of a player stream-in and the refresh-reason bits.
pub proof fn lemma_documented_constants()
    ensures
        PLAYER_STREAM_IN_RPC_ID == 0x20,
        SET_PLAYER_SKIN_REFRESH == 0x1,
        PLAYER_STREAM_IN_REFRESH == 0x2,
        PLAYER_STREAM_OUT_REFRESH == 0x4,
        ALL_REFRESH_REASONS == 0x7,
{
}

/// A description names exactly the requests whose bits are set:
/// `SetPlayerSkin` (bit 0), player stream-in (bit 1) and player stream-out
/// (bit 2), in that order; other bits are ignored and no request gives none.
pub proof fn lemma_reason_names_each_request(reasons: u8)
    ensures
        rak_reason_spec(reasons) == (if reasons & 1 == 0 && reasons & 2 == 0 && reasons & 4 == 0 {
            None
        } else if reasons & 2 == 0 && reasons & 4 == 0 {
            Some("SetPlayerSkin"@)
        } else if reasons & 1 == 0 && reasons & 4 == 0 {
            Some("player stream-in"@)
        } else if reasons & 1 == 0 && reasons & 2 == 0 {
            Some("player stream-out"@)
        } else if reasons & 4 == 0 {
            Some("SetPlayerSkin and player stream-in"@)
        } else if reasons & 2 == 0 {
            Some("SetPlayerSkin and player stream-out"@)
        } else if reasons & 1 == 0 {
            Some("player stream-in and player stream-out"@)
        } else {
            Some("SetPlayerSkin, player stream-in, and player stream-out"@)
        }),
{
    let r = reasons;
    assert(((r & 7) == 0) == (r & 1 == 0 && r & 2 == 0 && r & 4 == 0)) by (bit_vector);
    assert(((r & 7) == 1) == (r & 1 != 0 && r & 2 == 0 && r & 4 == 0)) by (bit_vector);
    assert(((r & 7) == 2) == (r & 1 == 0 && r & 2 != 0 && r & 4 == 0)) by (bit_vector);
    assert(((r & 7) == 4) == (r & 1 == 0 && r & 2 == 0 && r & 4 != 0)) by (bit_vector);
    assert(((r & 7) == 3) == (r & 1 != 0 && r & 2 != 0 && r & 4 == 0)) by (bit_vector);
    assert(((r & 7) == 5) == (r & 1 != 0 && r & 2 == 0 && r & 4 != 0)) by (bit_vector);
    assert(((r & 7) == 6) == (r & 1 == 0 && r & 2 != 0 && r & 4 != 0)) by (bit_vector);
}

} // verus!
