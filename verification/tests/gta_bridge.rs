use wardrobe::gta::{
    check_executable, check_signature, executable_signatures, ExecutableSignature, is_ready, ped_model_id, stable_name_hash,
    validate_executable, ExecutableError, ADDR_CCLUMPMODELINFO_ATOMIC_SETUP_LIGHTING_CB,
    ADDR_CCLUMPMODELINFO_SET_ATOMIC_RENDERER_CB, ADDR_CCLUMPMODELINFO_SET_HIERARCHY_FOR_SKIN_ATOMIC,
    ADDR_CENTITY_CREATE_RW_OBJECT, ADDR_CENTITY_UPDATE_RP_HANIM, ADDR_CENTITY_UPDATE_RW_FRAME,
    ADDR_CGAME_PROCESS, ADDR_CPED_DELETE_RW_OBJECT, ADDR_CPED_SET_MODEL_INDEX,
    ADDR_CTASKSIMPLEIKMANAGER_MAKE_ABORTABLE, ADDR_CTXDSTORE_ADD_REF, ADDR_CTXDSTORE_ADD_TXD_SLOT,
    ADDR_CTXDSTORE_LOAD_TXD, ADDR_CTXDSTORE_POPCURRENTTXD, ADDR_CTXDSTORE_PUSHCURRENTTXD,
    ADDR_CTXDSTORE_REMOVE_REF, ADDR_CTXDSTORE_REMOVE_TXD_SLOT, ADDR_CTXDSTORE_SETCURRENTTXD,
    ADDR_CVISIBILITYPLUGINS_RENDER_PED_CB, ADDR_CVISIBILITYPLUGINS_SET_CLUMP_MODEL_INFO,
    ADDR_GET_ANIM_HIERARCHY_FROM_CLUMP, ADDR_GET_ANIM_HIERARCHY_FROM_SKIN_CLUMP,
    ADDR_GET_FIRST_ATOMIC, ADDR_IS_CLUMP_SKINNED, ADDR_MS_P_TXD_POOL, ADDR_RPANIMBLEND_CLUMP_EXTRACT_ASSOCIATIONS,
    ADDR_RPANIMBLEND_CLUMP_FILL_FRAME_ARRAY, ADDR_RPANIMBLEND_CLUMP_GIVE_ASSOCIATIONS,
    ADDR_RPANIMBLEND_CLUMP_INIT, ADDR_RPANIMBLEND_CREATE_ANIMATION_FOR_HIERARCHY, ADDR_RPCLUMPSTREAMREAD,
    ADDR_RPCLUMP_CLONE, ADDR_RPCLUMP_DESTROY, ADDR_RPCLUMP_FOR_ALL_ATOMICS, ADDR_RPHANIM_ID_GET_INDEX,
    ADDR_RPSKIN_GEOMETRY_GET_SKIN, ADDR_RPSKIN_GET_VERTEX_BONE_WEIGHTS, ADDR_RTANIM_ANIMATION_DESTROY,
    ADDR_RTANIM_INTERPOLATOR_SET_CURRENT_ANIM, ADDR_RWFRAME_TRANSFORM, ADDR_RWSTREAMCLOSE,
    ADDR_RWSTREAMFINDCHUNK, ADDR_RWSTREAMOPEN, ENTITY_MODEL_INDEX, GTA_PE_HEADER,
};
use wardrobe::logging::LogLevel;
use wardrobe::memory::{read, read_bytes, read_pointer, MemoryImage};
use wardrobe::text::{decimal, hex, hex_number};

#[test]
fn validates_every_fixed_gta_code_target() {
    let targets = [
        ADDR_CGAME_PROCESS,
        ADDR_CPED_SET_MODEL_INDEX,
        ADDR_CPED_DELETE_RW_OBJECT,
        ADDR_CENTITY_CREATE_RW_OBJECT,
        ADDR_CTASKSIMPLEIKMANAGER_MAKE_ABORTABLE,
        ADDR_CENTITY_UPDATE_RW_FRAME,
        ADDR_CENTITY_UPDATE_RP_HANIM,
        ADDR_CCLUMPMODELINFO_SET_HIERARCHY_FOR_SKIN_ATOMIC,
        ADDR_CCLUMPMODELINFO_ATOMIC_SETUP_LIGHTING_CB,
        ADDR_CCLUMPMODELINFO_SET_ATOMIC_RENDERER_CB,
        ADDR_CVISIBILITYPLUGINS_RENDER_PED_CB,
        ADDR_CVISIBILITYPLUGINS_SET_CLUMP_MODEL_INFO,
        ADDR_IS_CLUMP_SKINNED,
        ADDR_GET_ANIM_HIERARCHY_FROM_CLUMP,
        ADDR_GET_ANIM_HIERARCHY_FROM_SKIN_CLUMP,
        ADDR_RPANIMBLEND_CREATE_ANIMATION_FOR_HIERARCHY,
        ADDR_RPANIMBLEND_CLUMP_INIT,
        ADDR_RPANIMBLEND_CLUMP_FILL_FRAME_ARRAY,
        ADDR_RPANIMBLEND_CLUMP_EXTRACT_ASSOCIATIONS,
        ADDR_RPANIMBLEND_CLUMP_GIVE_ASSOCIATIONS,
        ADDR_RPCLUMP_CLONE,
        ADDR_RPCLUMP_DESTROY,
        ADDR_RPCLUMP_FOR_ALL_ATOMICS,
        ADDR_GET_FIRST_ATOMIC,
        ADDR_RPSKIN_GEOMETRY_GET_SKIN,
        ADDR_RPSKIN_GET_VERTEX_BONE_WEIGHTS,
        ADDR_RPHANIM_ID_GET_INDEX,
        ADDR_RTANIM_INTERPOLATOR_SET_CURRENT_ANIM,
        ADDR_RTANIM_ANIMATION_DESTROY,
        ADDR_RWFRAME_TRANSFORM,
        ADDR_RWSTREAMOPEN,
        ADDR_RWSTREAMFINDCHUNK,
        ADDR_RPCLUMPSTREAMREAD,
        ADDR_RWSTREAMCLOSE,
        ADDR_CTXDSTORE_ADD_TXD_SLOT,
        ADDR_CTXDSTORE_LOAD_TXD,
        ADDR_CTXDSTORE_ADD_REF,
        ADDR_CTXDSTORE_REMOVE_REF,
        ADDR_CTXDSTORE_REMOVE_TXD_SLOT,
        ADDR_CTXDSTORE_PUSHCURRENTTXD,
        ADDR_CTXDSTORE_POPCURRENTTXD,
        ADDR_CTXDSTORE_SETCURRENTTXD,
    ];

    let signatures = executable_signatures();
    for target in targets {
        assert!(
            signatures.iter().any(|signature| signature.address == target),
            "missing validation signature for fixed GTA target 0x{target:08X}"
        );
    }
}

#[test]
fn formats_executable_mismatch_bytes_for_logs() {
    assert_eq!(hex(&[0x90, 0xE9, 0x00]), "90 E9 00");
}

#[test]
fn formats_nothing_and_single_bytes() {
    assert_eq!(hex(&[]), "");
    assert_eq!(hex(&[0x0A]), "0A");
    assert_eq!(hex(&[0xFF, 0x10]), "FF 10");
}

#[test]
fn formats_decimal_numbers() {
    assert_eq!(decimal(0), "0");
    assert_eq!(decimal(7), "7");
    assert_eq!(decimal(60000), "60000");
}

#[test]
fn names_each_configured_log_level() {
    assert_eq!(LogLevel::Error.name(), "error");
    assert_eq!(LogLevel::Warn.name(), "warn");
    assert_eq!(LogLevel::Info.name(), "info");
    assert_eq!(LogLevel::Debug.name(), "debug");
    assert_eq!(LogLevel::Trace.name(), "trace");
}

#[test]
fn logs_at_info_by_default() {
    assert!(LogLevel::default() == LogLevel::Info);
}

#[test]
fn reads_a_primitive_from_owned_memory() {
    let value = 0xC0DE_CAFEu32;
    let base = 0x0010_0000usize;
    let image = MemoryImage::new(base, value.to_le_bytes().to_vec());

    assert_eq!(read::<u32, _>(&image, base), Some(value));
}

#[test]
fn reads_little_endian_values_and_pointers() {
    let image = MemoryImage::new(0x2000, vec![0x34, 0x12, 0xFE, 0xFF, 0x78, 0x56, 0x34, 0x12]);
    assert_eq!(read::<u16, _>(&image, 0x2000), Some(0x1234));
    assert_eq!(read::<i16, _>(&image, 0x2002), Some(-2));
    assert_eq!(read_pointer(&image, 0x2004), Some(0x1234_5678));
}

#[test]
fn refuses_null_empty_wrapping_and_partial_reads() {
    let image = MemoryImage::new(0x2000, vec![1, 2, 3, 4]);
    assert_eq!(read_bytes(&image, 0, 4), None);
    assert_eq!(read_bytes(&image, 0x2000, 0), None);
    assert_eq!(read_bytes(&image, usize::MAX, 2), None);
    assert_eq!(read_bytes(&image, 0x2002, 4), None);
    assert_eq!(read_bytes(&image, 0x1FFF, 2), None);
    assert_eq!(read_bytes(&image, 0x2001, 2), Some(vec![2, 3]));
    assert_eq!(read::<u32, _>(&image, 0x2001), None);
}

/// A copy of the executable's image holding every fingerprint.
fn executable_image() -> Vec<u8> {
    let base = 0x0040_0000usize;
    let mut bytes = vec![0u8; 0x0040_0000];
    for signature in executable_signatures() {
        let at = signature.address - base;
        bytes[at..at + signature.expected.len()].copy_from_slice(&signature.expected);
    }
    bytes
}

#[test]
fn accepts_the_supported_executable() {
    let image = MemoryImage::new(0x0040_0000, executable_image());
    assert!(validate_executable(&image).is_ok());
}

#[test]
fn names_the_first_patched_target() {
    let mut bytes = executable_image();
    let at = ADDR_CPED_SET_MODEL_INDEX - 0x0040_0000;
    bytes[at] = 0xE9;
    let image = MemoryImage::new(0x0040_0000, bytes);
    match validate_executable(&image) {
        Err(ExecutableError::Mismatch { name, address, expected, found }) => {
            assert_eq!(name, "CPed::SetModelIndex");
            assert_eq!(address, ADDR_CPED_SET_MODEL_INDEX);
            assert_eq!(expected[0], 0x56);
            assert_eq!(found[0], 0xE9);
        }
        other => panic!("unexpected result {other:?}"),
    }
}

#[test]
fn an_unreadable_header_rejects_the_executable() {
    let image = MemoryImage::new(0x0050_0000, vec![0u8; 16]);
    match validate_executable(&image) {
        Err(ExecutableError::Unreadable { address, .. }) => assert_eq!(address, GTA_PE_HEADER),
        other => panic!("unexpected result {other:?}"),
    }
}

#[test]
fn judges_one_fingerprint_by_what_was_read() {
    let signatures = executable_signatures();
    let header = &signatures[0];
    assert!(check_signature(header, Some(header.expected.clone())).is_ok());
    assert!(matches!(check_signature(header, None), Err(ExecutableError::Unreadable { .. })));
    assert!(matches!(check_signature(header, Some(vec![0; 12])), Err(ExecutableError::Mismatch { .. })));
}

#[test]
fn the_game_is_ready_once_its_txd_pool_exists() {
    let ready = MemoryImage::new(ADDR_MS_P_TXD_POOL, 0x0123_4000u32.to_le_bytes().to_vec());
    let not_yet = MemoryImage::new(ADDR_MS_P_TXD_POOL, vec![0, 0, 0, 0]);
    let unreadable = MemoryImage::new(0x1000, vec![0, 0, 0, 0]);
    assert!(is_ready(&ready));
    assert!(!is_ready(&not_yet));
    assert!(!is_ready(&unreadable));
}

#[test]
fn reads_a_peds_model_index() {
    let ped = 0x0200_0000usize;
    let mut bytes = vec![0u8; 0x40];
    bytes[ENTITY_MODEL_INDEX..ENTITY_MODEL_INDEX + 2].copy_from_slice(&294i16.to_le_bytes());
    let image = MemoryImage::new(ped, bytes);
    assert_eq!(ped_model_id(&image, ped), Some(294));
    assert_eq!(ped_model_id(&image, usize::MAX), None);
}

#[test]
fn profile_hashes_are_fnv1a() {
    assert_eq!(stable_name_hash(""), 0xcbf2_9ce4_8422_2325);
    assert_eq!(stable_name_hash("a"), 0xaf63_dc4c_8601_ec8c);
    assert_ne!(stable_name_hash("staff"), stable_name_hash("police"));
}

#[test]
fn formats_padded_hexadecimal_numbers() {
    assert_eq!(hex_number(0x53BEE0, 8), "0053BEE0");
    assert_eq!(hex_number(0x31DF13, 6), "31DF13");
    assert_eq!(hex_number(0xCBCB0, 6), "0CBCB0");
    assert_eq!(hex_number(0x12345, 0), "12345");
    assert_eq!(hex_number(0, 0), "0");
    assert_eq!(hex_number(0x1_2345_6789, 8), "123456789");
}

#[test]
fn describes_a_rejected_executable() {
    let unreadable = ExecutableError::Unreadable { name: "CGame::Process", address: ADDR_CGAME_PROCESS };
    assert_eq!(unreadable.message(), "unsupported GTA executable: could not read CGame::Process at 0x0053BEE0");
    let mismatch = ExecutableError::Mismatch {
        name: "CTxdStore::LoadTxd",
        address: ADDR_CTXDSTORE_LOAD_TXD,
        expected: vec![0x8B, 0x44],
        found: vec![0x90, 0xE9],
    };
    assert_eq!(
        mismatch.message(),
        "unsupported GTA executable or modified target: CTxdStore::LoadTxd differs at 0x007320B0 (expected 8B 44, found 90 E9)"
    );
}

#[test]
fn checks_fingerprints_in_order_and_stops_at_the_first_fault() {
    let image = MemoryImage::new(0x1000, vec![1, 2, 3, 4, 5, 6]);
    let table = vec![
        ExecutableSignature { name: "first", address: 0x1000, expected: vec![1, 2] },
        ExecutableSignature { name: "second", address: 0x1002, expected: vec![9, 9] },
        ExecutableSignature { name: "third", address: 0x9000, expected: vec![1] },
    ];
    match check_executable(&image, &table) {
        Err(ExecutableError::Mismatch { name, found, .. }) => {
            assert_eq!(name, "second");
            assert_eq!(found, vec![3, 4]);
        }
        other => panic!("unexpected result {other:?}"),
    }
    let matching = vec![
        ExecutableSignature { name: "first", address: 0x1000, expected: vec![1, 2] },
        ExecutableSignature { name: "second", address: 0x1004, expected: vec![5, 6] },
    ];
    assert!(check_executable(&image, &matching).is_ok());
    let unreadable = vec![ExecutableSignature { name: "gone", address: 0x2000, expected: vec![1] }];
    assert!(matches!(check_executable(&image, &unreadable), Err(ExecutableError::Unreadable { name: "gone", .. })));
}
