use std::sync::atomic::{AtomicU8, Ordering};
use wardrobe::memory::MemoryImage;
use wardrobe::rak_samp;
use wardrobe::samp::layout::R1_ENTRY_POINT;
use wardrobe::samp::Samp;
use wardrobe::samp_hooks::{
    hook_targets, r1_version_marker, refresh_reason, remote_player_spawn_signature, request_refresh,
    set_player_skin_signature, take_refresh_request, HookError, R1_VERSION_MARKER_OFFSET,
    REMOTE_PLAYER_SPAWN_OFFSET, REMOTE_PLAYER_SPAWN_REFRESH, SET_PLAYER_SKIN_OFFSET,
    SET_PLAYER_SKIN_REFRESH,
};
use wardrobe::text::hex;

#[test]
fn consumes_and_describes_coalesced_refresh_requests_once() {
    let reasons = AtomicU8::new(0);
    reasons.store(0, Ordering::Release);
    assert_eq!(rak_samp::take_refresh_request(&reasons), None);

    reasons.store(
        rak_samp::SET_PLAYER_SKIN_REFRESH
            | rak_samp::PLAYER_STREAM_IN_REFRESH
            | rak_samp::PLAYER_STREAM_OUT_REFRESH,
        Ordering::Release,
    );
    let request = rak_samp::take_refresh_request(&reasons)
        .expect("the coalesced request should be consumed");
    assert_eq!(request, "SetPlayerSkin, player stream-in, and player stream-out");
    assert_eq!(rak_samp::take_refresh_request(&reasons), None);
}

#[test]
fn names_every_combination_of_rak_samp_requests() {
    assert_eq!(rak_samp::refresh_reason(1), Some("SetPlayerSkin"));
    assert_eq!(rak_samp::refresh_reason(2), Some("player stream-in"));
    assert_eq!(rak_samp::refresh_reason(4), Some("player stream-out"));
    assert_eq!(rak_samp::refresh_reason(3), Some("SetPlayerSkin and player stream-in"));
    assert_eq!(rak_samp::refresh_reason(5), Some("SetPlayerSkin and player stream-out"));
    assert_eq!(rak_samp::refresh_reason(6), Some("player stream-in and player stream-out"));
    assert_eq!(rak_samp::refresh_reason(8), None);
}

#[test]
fn rak_samp_requests_accumulate_until_taken() {
    let reasons = AtomicU8::new(0);
    rak_samp::request_refresh(&reasons, rak_samp::PLAYER_STREAM_IN_REFRESH);
    rak_samp::request_refresh(&reasons, rak_samp::PLAYER_STREAM_OUT_REFRESH);
    assert_eq!(
        rak_samp::take_refresh_request(&reasons),
        Some("player stream-in and player stream-out")
    );
    assert_eq!(rak_samp::take_refresh_request(&reasons), None);
}

#[test]
fn formats_target_bytes_for_diagnostics() {
    assert_eq!(hex(&[0xE9, 0xA2, 0x00]), "E9 A2 00");
}

#[test]
fn describes_coalesced_refresh_requests() {
    assert_eq!(refresh_reason(0), None);
    assert_eq!(refresh_reason(REMOTE_PLAYER_SPAWN_REFRESH), Some("a remote player spawn"));
    assert_eq!(refresh_reason(SET_PLAYER_SKIN_REFRESH), Some("a server skin change"));
    assert_eq!(
        refresh_reason(REMOTE_PLAYER_SPAWN_REFRESH | SET_PLAYER_SKIN_REFRESH),
        Some("a remote player spawn and a server skin change")
    );
}

#[test]
fn hook_requests_are_consumed_once() {
    let reasons = AtomicU8::new(0);
    request_refresh(&reasons, SET_PLAYER_SKIN_REFRESH);
    request_refresh(&reasons, REMOTE_PLAYER_SPAWN_REFRESH);
    assert_eq!(
        take_refresh_request(&reasons),
        Some("a remote player spawn and a server skin change")
    );
    assert_eq!(take_refresh_request(&reasons), None);
}

#[test]
fn validates_the_spawn_prologue_after_samp_relocation() {
    let signature = remote_player_spawn_signature(0x0405_0000).unwrap();
    assert_eq!(&signature[5..9], &[0x0C, 0xA1, 0x26, 0x04]);
}

#[test]
fn the_spawn_prologue_keeps_its_fixed_bytes() {
    let signature = remote_player_spawn_signature(0x1000_0000).unwrap();
    assert_eq!(signature.len(), 16);
    assert_eq!(&signature[..5], &[0x56, 0x8B, 0xF1, 0x8B, 0x0D]);
    assert_eq!(&signature[5..9], &[0x0C, 0xA1, 0x21, 0x10]);
    assert_eq!(&signature[9..], &[0xE8, 0xD2, 0x86, 0x08, 0x00, 0x85, 0xC0]);
}

#[test]
fn a_relocation_beyond_the_game_address_space_is_refused() {
    assert!(matches!(
        remote_player_spawn_signature(0xFFFF_0000),
        Err(HookError::PointerOutOfRange)
    ));
    assert!(matches!(
        remote_player_spawn_signature(usize::MAX),
        Err(HookError::AddressOverflow { .. })
    ));
}

fn r1_samp(image: &MemoryImage, base: usize) -> Samp {
    Samp::from_module(image, base).expect("the image carries an R1 header")
}

fn hooked_image(base: usize) -> Vec<u8> {
    let mut bytes = vec![0u8; 0x20000];
    bytes[0..2].copy_from_slice(&0x5A4Du16.to_le_bytes());
    bytes[0x3C..0x40].copy_from_slice(&0x80u32.to_le_bytes());
    bytes[0x80..0x84].copy_from_slice(&0x4550u32.to_le_bytes());
    bytes[0xA8..0xAC].copy_from_slice(&R1_ENTRY_POINT.to_le_bytes());
    let marker = r1_version_marker();
    bytes[R1_VERSION_MARKER_OFFSET..R1_VERSION_MARKER_OFFSET + marker.len()].copy_from_slice(&marker);
    let spawn = remote_player_spawn_signature(base).unwrap();
    bytes[REMOTE_PLAYER_SPAWN_OFFSET..REMOTE_PLAYER_SPAWN_OFFSET + spawn.len()].copy_from_slice(&spawn);
    let skin = set_player_skin_signature();
    bytes[SET_PLAYER_SKIN_OFFSET..SET_PLAYER_SKIN_OFFSET + skin.len()].copy_from_slice(&skin);
    bytes
}

#[test]
fn finds_both_hook_targets_in_an_r1_image() {
    let base = 0x0405_0000usize;
    let image = MemoryImage::new(base, hooked_image(base));
    let targets = hook_targets(&image, &r1_samp(&image, base)).expect("both targets carry their fingerprints");
    assert_eq!(targets.remote_player_spawn, base + REMOTE_PLAYER_SPAWN_OFFSET);
    assert_eq!(targets.set_player_skin, base + SET_PLAYER_SKIN_OFFSET);
}

#[test]
fn a_patched_hook_target_is_refused() {
    let base = 0x0405_0000usize;
    let mut bytes = hooked_image(base);
    bytes[SET_PLAYER_SKIN_OFFSET] = 0x90;
    let image = MemoryImage::new(base, bytes);
    match hook_targets(&image, &r1_samp(&image, base)) {
        Err(HookError::Mismatch { address, found, .. }) => {
            assert_eq!(address, base + SET_PLAYER_SKIN_OFFSET);
            assert_eq!(found[0], 0x90);
        }
        other => panic!("unexpected result {other:?}"),
    }
}

#[test]
fn only_skin_and_stream_rpcs_request_a_refresh() {
    assert_eq!(rak_samp::rpc_refresh_bit(32, 153, 163), rak_samp::PLAYER_STREAM_IN_REFRESH);
    assert_eq!(rak_samp::rpc_refresh_bit(153, 153, 163), rak_samp::SET_PLAYER_SKIN_REFRESH);
    assert_eq!(rak_samp::rpc_refresh_bit(163, 153, 163), rak_samp::PLAYER_STREAM_OUT_REFRESH);
    assert_eq!(rak_samp::rpc_refresh_bit(10, 153, 163), 0);
}

#[test]
fn describes_why_the_hooks_were_refused() {
    assert_eq!(
        HookError::AddressOverflow { name: "SA-MP version marker" }.message(),
        "SA-MP version marker address overflowed"
    );
    assert_eq!(
        HookError::PointerOutOfRange.message(),
        "CRemotePlayer::Spawn CGame pointer does not fit in x86 address space"
    );
    assert_eq!(
        HookError::Unreadable { name: "ScrSetPlayerSkin", address: 0x0406_5860 }.message(),
        "could not read ScrSetPlayerSkin at 0x04065860"
    );
    assert_eq!(
        HookError::Mismatch { name: "CRemotePlayer::Spawn", address: 0x0406_3890, expected: vec![0x56], found: vec![0xE9] }
            .message(),
        "CRemotePlayer::Spawn bytes differ at 0x04063890 (expected 56, found E9)"
    );
}
