use wardrobe::memory::MemoryImage;
use wardrobe::samp_hooks::{validate_bytes, HookError};
use wardrobe::samp::layout::{
    dl_r1_layout, layout_for_entry_point, r1_layout, r3_layout, r4_layout, SampVersion, DL_R1_ENTRY_POINT,
    R1_ENTRY_POINT, R3_ENTRY_POINT, R4_ENTRY_POINT,
};
use wardrobe::samp::{
    decode_name, decode_player_entries, msvc_text_location, pe_entry_point, read_msvc_string, Samp, SampError,
    TextLocation,
};

#[test]
fn detects_each_supported_samp_build_from_its_entry_point() {
    assert_eq!(layout_for_entry_point(R1_ENTRY_POINT).unwrap().version, SampVersion::V037R1);
    assert_eq!(layout_for_entry_point(R3_ENTRY_POINT).unwrap().version, SampVersion::V037R3);
    assert_eq!(layout_for_entry_point(R4_ENTRY_POINT).unwrap().version, SampVersion::V037R4);
    assert_eq!(layout_for_entry_point(DL_R1_ENTRY_POINT).unwrap().version, SampVersion::V03DlR1);
    assert!(layout_for_entry_point(0xDEAD_BEEF).is_none());
}

#[test]
fn keeps_r1_r3_and_dl_player_pools_separate() {
    assert_eq!(r1_layout().player_pool_remote_players_offset, 0x2E);
    assert_eq!(r3_layout().player_pool_remote_players_offset, 0x04);
    assert_eq!(dl_r1_layout().player_pool_remote_players_offset, 0x26);
    assert_eq!(r3_layout().player_pool_local_player_offset, 0x2F3A);
    assert_eq!(dl_r1_layout().player_pool_local_player_offset, 0x1E);
}

#[test]
fn r4_reuses_the_r3_player_pool_layout_with_its_own_global() {
    assert_eq!(r4_layout().net_game_pools_offset, r3_layout().net_game_pools_offset);
    assert_eq!(r4_layout().pools_player_offset, r3_layout().pools_player_offset);
    assert_eq!(r4_layout().player_pool_remote_players_offset, r3_layout().player_pool_remote_players_offset);
    assert_ne!(r4_layout().samp_info_offset, r3_layout().samp_info_offset);
}

#[test]
fn names_each_supported_build() {
    assert_eq!(SampVersion::V037R1.name(), "SA-MP 0.3.7-R1");
    assert_eq!(SampVersion::V037R3.name(), "SA-MP 0.3.7-R3-1");
    assert_eq!(SampVersion::V037R4.name(), "SA-MP 0.3.7-R4");
    assert_eq!(SampVersion::V03DlR1.name(), "SA-MP 0.3.DL-R1");
}

fn put_u16(bytes: &mut [u8], at: usize, value: u16) {
    bytes[at..at + 2].copy_from_slice(&value.to_le_bytes());
}

fn put_u32(bytes: &mut [u8], at: usize, value: u32) {
    bytes[at..at + 4].copy_from_slice(&value.to_le_bytes());
}

/// A tiny PE image at `base` whose entry point is `entry_point`.
fn pe_image(base: usize, entry_point: u32) -> MemoryImage {
    let mut bytes = vec![0u8; 0x200];
    put_u16(&mut bytes, 0, 0x5A4D);
    put_u32(&mut bytes, 0x3C, 0x80);
    put_u32(&mut bytes, 0x80, 0x4550);
    put_u32(&mut bytes, 0x80 + 0x28, entry_point);
    MemoryImage::new(base, bytes)
}

#[test]
fn reads_the_entry_point_of_a_relocated_dll() {
    let image = pe_image(0x0405_0000, R3_ENTRY_POINT);
    assert_eq!(pe_entry_point(&image, 0x0405_0000), Ok(R3_ENTRY_POINT));
    let samp = Samp::from_module(&image, 0x0405_0000).unwrap();
    assert_eq!(samp.base(), 0x0405_0000);
    assert_eq!(samp.version(), SampVersion::V037R3);
}

#[test]
fn rejects_unknown_builds_and_bad_headers() {
    let image = pe_image(0x1000, 0x1234);
    assert_eq!(Samp::from_module(&image, 0x1000).unwrap_err(), SampError::UnsupportedBuild(0x1234));
    assert_eq!(pe_entry_point(&image, 0x9000), Err(SampError::UnreadableDosHeader));
    let mut bytes = vec![0u8; 0x100];
    put_u16(&mut bytes, 0, 0x5A4D);
    put_u32(&mut bytes, 0x3C, 0x20000);
    assert_eq!(pe_entry_point(&MemoryImage::new(0x1000, bytes), 0x1000), Err(SampError::ImplausiblePeOffset(0x20000)));
    let mut bad = vec![0u8; 0x100];
    put_u16(&mut bad, 0, 0x1234);
    assert_eq!(pe_entry_point(&MemoryImage::new(0x1000, bad), 0x1000), Err(SampError::InvalidDosHeader));
}

#[test]
fn decodes_little_endian_player_entries() {
    let entries = decode_player_entries(&[1, 0, 0, 0, 0x78, 0x56, 0x34, 0x12, 9]);
    assert_eq!(entries, vec![1, 0x1234_5678]);
}

#[test]
fn locates_msvc_string_text() {
    assert_eq!(msvc_text_location(0, 15), None);
    assert_eq!(msvc_text_location(25, 31), None);
    assert_eq!(msvc_text_location(10, 5), None);
    assert_eq!(msvc_text_location(13, 15), Some(TextLocation::Inline));
    assert_eq!(msvc_text_location(16, 31), Some(TextLocation::Heap));
}

/// An R1 player pool with one remote player (slot 2) and a local player (ID 5).
fn r1_world() -> (MemoryImage, Samp) {
    let base = 0x1000usize;
    let mut bytes = vec![0u8; 0x40_0000];
    // PE header identifying R1.
    put_u16(&mut bytes, 0, 0x5A4D);
    put_u32(&mut bytes, 0x3C, 0x80);
    put_u32(&mut bytes, 0x80, 0x4550);
    put_u32(&mut bytes, 0x80 + 0x28, R1_ENTRY_POINT);
    let samp_info = 0x30_0000usize;
    let pools = 0x30_1000usize;
    let pool = 0x30_2000usize;
    let remote = 0x30_3000usize;
    let remote_player = 0x30_4000usize;
    let samp_ped = 0x30_5000usize;
    let local_player = 0x30_6000usize;
    let local_samp_ped = 0x30_7000usize;
    let at = |address: usize| address - base;
    put_u32(&mut bytes, 0x21A0F8, (base + samp_info) as u32);
    put_u32(&mut bytes, at(base + samp_info + 0x3CD), (base + pools) as u32);
    put_u32(&mut bytes, at(base + pools + 0x18), (base + pool) as u32);
    // Largest ID 2; slot 2 holds the remote player.
    put_u32(&mut bytes, at(base + pool), 2);
    put_u32(&mut bytes, at(base + pool + 0x2E + 8), (base + remote) as u32);
    put_u32(&mut bytes, at(base + remote), (base + remote_player) as u32);
    put_u32(&mut bytes, at(base + remote_player), (base + samp_ped) as u32);
    put_u32(&mut bytes, at(base + samp_ped + 0x40), 0x00AB_C000);
    // Remote name "Jacob" stored inline.
    bytes[at(base + remote + 0x0C)..at(base + remote + 0x0C) + 5].copy_from_slice(b"Jacob");
    put_u32(&mut bytes, at(base + remote + 0x0C + 0x10), 5);
    put_u32(&mut bytes, at(base + remote + 0x0C + 0x14), 15);
    // Local player ID 5 with a ped and no readable name.
    put_u16(&mut bytes, at(base + pool + 0x04), 5);
    put_u32(&mut bytes, at(base + pool + 0x22), (base + local_player) as u32);
    put_u32(&mut bytes, at(base + local_player), (base + local_samp_ped) as u32);
    put_u32(&mut bytes, at(base + local_samp_ped + 0x40), 0x00DE_F000);
    let image = MemoryImage::new(base, bytes);
    let samp = Samp::from_module(&image, base).unwrap();
    (image, samp)
}

#[test]
fn scans_streamed_remote_and_local_peds() {
    let (image, samp) = r1_world();
    let peds = samp.streamed_peds(&image).unwrap();
    assert_eq!(peds.len(), 2);
    assert_eq!(peds[0].player_id, 2);
    assert!(!peds[0].is_local);
    assert_eq!(peds[0].name.as_deref(), Some("Jacob"));
    assert_eq!(peds[0].address, 0x00AB_C000);
    assert_eq!(peds[1].player_id, 5);
    assert!(peds[1].is_local);
    assert_eq!(peds[1].name, None);
    assert_eq!(peds[1].address, 0x00DE_F000);
    assert_eq!(samp.all_peds(&image).unwrap(), vec![0x00AB_C000, 0x00DE_F000]);
}

#[test]
fn an_unreadable_pool_is_not_an_empty_scan() {
    let image = pe_image(0x1000, R1_ENTRY_POINT);
    let samp = Samp::from_module(&image, 0x1000).unwrap();
    assert!(samp.streamed_peds(&image).is_none());
    assert!(samp.all_peds(&image).is_none());
}

#[test]
fn describes_a_rejected_samp_dll() {
    assert_eq!(SampError::UnsupportedBuild(0xCBCB1).message(), "unsupported samp.dll build (PE entry point 0x0CBCB1); supported: 0.3.7-R1, 0.3.7-R3-1, 0.3.7-R4, and 0.3.DL-R1");
    assert_eq!(SampError::ImplausiblePeOffset(0x10001).message(), "samp.dll PE header offset 0x10001 is implausible");
    assert_eq!(SampError::InvalidDosHeader.message(), "samp.dll has an invalid DOS header");
}

#[test]
fn names_are_utf8_text() {
    assert_eq!(decode_name(b"Jacob_Spencer").as_deref(), Some("Jacob_Spencer"));
    assert_eq!(decode_name("Łukasz".as_bytes()).as_deref(), Some("Łukasz"));
    assert_eq!(decode_name(&[0x4A, 0xFF, 0x4B]), None);
}

#[test]
fn reads_inline_and_heap_strings() {
    let base = 0x8000usize;
    let mut bytes = vec![0u8; 0x200];
    // Inline: "Ann", length 3, capacity 15, at offset 0x10.
    bytes[0x10..0x13].copy_from_slice(b"Ann");
    put_u32(&mut bytes, 0x10 + 0x10, 3);
    put_u32(&mut bytes, 0x10 + 0x14, 15);
    // Heap: pointer to 0x8100 holding "Jacob_Spencer_From_LS", length 21, capacity 31, at offset 0x40.
    put_u32(&mut bytes, 0x40, (base + 0x100) as u32);
    put_u32(&mut bytes, 0x40 + 0x10, 21);
    put_u32(&mut bytes, 0x40 + 0x14, 31);
    bytes[0x100..0x115].copy_from_slice(b"Jacob_Spencer_From_LS");
    // Invalid: length 0.
    put_u32(&mut bytes, 0x80 + 0x14, 15);
    let image = MemoryImage::new(base, bytes);
    assert_eq!(read_msvc_string(&image, base, 0x10).as_deref(), Some("Ann"));
    assert_eq!(read_msvc_string(&image, base, 0x40).as_deref(), Some("Jacob_Spencer_From_LS"));
    assert_eq!(read_msvc_string(&image, base, 0x80), None);
    assert_eq!(read_msvc_string(&image, usize::MAX, 0x10), None);
}

#[test]
fn a_hook_target_must_hold_its_exact_fingerprint() {
    let image = MemoryImage::new(0x4000, vec![0x56, 0x8B, 0xF1, 0x90]);
    assert!(validate_bytes(&image, 0x4000, &[0x56, 0x8B, 0xF1], "target").is_ok());
    match validate_bytes(&image, 0x4001, &[0x56, 0x8B], "target") {
        Err(HookError::Mismatch { name, address, expected, found }) => {
            assert_eq!(name, "target");
            assert_eq!(address, 0x4001);
            assert_eq!(expected, vec![0x56, 0x8B]);
            assert_eq!(found, vec![0x8B, 0xF1]);
        }
        other => panic!("expected a mismatch, got {other:?}"),
    }
    assert!(matches!(
        validate_bytes(&image, 0x4003, &[0x90, 0x90], "target"),
        Err(HookError::Unreadable { name: "target", address: 0x4003 })
    ));
}
