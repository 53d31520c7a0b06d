//! Version fingerprints and packed player-pool layouts for supported SA-MP DLLs.
//!
//! The PE entry point identifies each official 32-bit samp.dll build even
//! after the loader relocated the DLL. R1, R3/R4 and DL order their
//! player-pool fields differently; R4 shares R3's player-pool layout with a
//! global of its own.

use vstd::prelude::*;

verus! {

pub const R1_ENTRY_POINT: u32 = 0x31DF13;
pub const R3_ENTRY_POINT: u32 = 0x0CC4D0;
pub const R4_ENTRY_POINT: u32 = 0x0CBCB0;
pub const DL_R1_ENTRY_POINT: u32 = 0x0FDB60;

#[derive(Clone, Copy, Debug, PartialEq, Eq, Structural)]
pub enum SampVersion {
    V037R1,
    V037R3,
    V037R4,
    V03DlR1,
}

pub open spec fn version_name(version: SampVersion) -> Seq<char> {
    match version {
        SampVersion::V037R1 => "SA-MP 0.3.7-R1"@,
        SampVersion::V037R3 => "SA-MP 0.3.7-R3-1"@,
        SampVersion::V037R4 => "SA-MP 0.3.7-R4"@,
        SampVersion::V03DlR1 => "SA-MP 0.3.DL-R1"@,
    }
}

impl SampVersion {
    pub fn name(self) -> (name: &'static str)
        ensures
            name@ == version_name(self),
    {
        match self {
            SampVersion::V037R1 => "SA-MP 0.3.7-R1",
            SampVersion::V037R3 => "SA-MP 0.3.7-R3-1",
            SampVersion::V037R4 => "SA-MP 0.3.7-R4",
            SampVersion::V03DlR1 => "SA-MP 0.3.DL-R1",
        }
    }
}

/// Offsets of the structures a player scan walks.
#[derive(Clone, Copy, Debug, PartialEq, Eq, Structural)]
pub struct SampLayout {
    pub version: SampVersion,
    pub samp_info_offset: usize,
    pub net_game_pools_offset: usize,
    pub pools_player_offset: usize,
    pub player_pool_largest_id_offset: usize,
    pub player_pool_remote_players_offset: usize,
    pub player_pool_local_player_id_offset: usize,
    pub player_pool_local_name_offset: usize,
    pub player_pool_local_player_offset: usize,
    pub player_info_remote_player_offset: usize,
    pub remote_player_samp_ped_offset: usize,
    pub remote_player_name_offset: usize,
}

pub open spec fn r1_layout_spec() -> SampLayout {
    SampLayout {
        version: SampVersion::V037R1,
        samp_info_offset: 0x21A0F8,
        net_game_pools_offset: 0x3CD,
        pools_player_offset: 0x18,
        player_pool_largest_id_offset: 0x00,
        player_pool_remote_players_offset: 0x2E,
        player_pool_local_player_id_offset: 0x04,
        player_pool_local_name_offset: 0x0A,
        player_pool_local_player_offset: 0x22,
        player_info_remote_player_offset: 0x00,
        remote_player_samp_ped_offset: 0x00,
        remote_player_name_offset: 0x0C,
    }
}

pub open spec fn r3_layout_spec() -> SampLayout {
    SampLayout {
        version: SampVersion::V037R3,
        samp_info_offset: 0x26E8DC,
        net_game_pools_offset: 0x3DE,
        pools_player_offset: 0x08,
        player_pool_largest_id_offset: 0x00,
        player_pool_remote_players_offset: 0x04,
        player_pool_local_player_id_offset: 0x2F1C,
        player_pool_local_name_offset: 0x2F22,
        player_pool_local_player_offset: 0x2F3A,
        player_info_remote_player_offset: 0x00,
        remote_player_samp_ped_offset: 0x00,
        remote_player_name_offset: 0x0C,
    }
}

/// R3's player-pool layout with R4's own `CNetGame*` global.
pub open spec fn r4_layout_spec() -> SampLayout {
    SampLayout { version: SampVersion::V037R4, samp_info_offset: 0x26EA0C, ..r3_layout_spec() }
}

pub open spec fn dl_r1_layout_spec() -> SampLayout {
    SampLayout {
        version: SampVersion::V03DlR1,
        samp_info_offset: 0x2ACA24,
        net_game_pools_offset: 0x3DE,
        pools_player_offset: 0x08,
        player_pool_largest_id_offset: 0x22,
        player_pool_remote_players_offset: 0x26,
        player_pool_local_player_id_offset: 0x00,
        player_pool_local_name_offset: 0x06,
        player_pool_local_player_offset: 0x1E,
        player_info_remote_player_offset: 0x08,
        remote_player_samp_ped_offset: 0x04,
        remote_player_name_offset: 0x14,
    }
}

/// The layout of the build with this PE entry point; unknown builds have none.
pub open spec fn layout_spec(entry_point: u32) -> Option<SampLayout> {
    if entry_point == R1_ENTRY_POINT {
        Some(r1_layout_spec())
    } else if entry_point == R3_ENTRY_POINT {
        Some(r3_layout_spec())
    } else if entry_point == R4_ENTRY_POINT {
        Some(r4_layout_spec())
    } else if entry_point == DL_R1_ENTRY_POINT {
        Some(dl_r1_layout_spec())
    } else {
        None
    }
}

pub fn r1_layout() -> (layout: SampLayout)
    ensures
        layout == r1_layout_spec(),
{
    SampLayout {
        version: SampVersion::V037R1,
        samp_info_offset: 0x21A0F8,
        net_game_pools_offset: 0x3CD,
        pools_player_offset: 0x18,
        player_pool_largest_id_offset: 0x00,
        player_pool_remote_players_offset: 0x2E,
        player_pool_local_player_id_offset: 0x04,
        player_pool_local_name_offset: 0x0A,
        player_pool_local_player_offset: 0x22,
        player_info_remote_player_offset: 0x00,
        remote_player_samp_ped_offset: 0x00,
        remote_player_name_offset: 0x0C,
    }
}

pub fn r3_layout() -> (layout: SampLayout)
    ensures
        layout == r3_layout_spec(),
{
    SampLayout {
        version: SampVersion::V037R3,
        samp_info_offset: 0x26E8DC,
        net_game_pools_offset: 0x3DE,
        pools_player_offset: 0x08,
        player_pool_largest_id_offset: 0x00,
        player_pool_remote_players_offset: 0x04,
        player_pool_local_player_id_offset: 0x2F1C,
        player_pool_local_name_offset: 0x2F22,
        player_pool_local_player_offset: 0x2F3A,
        player_info_remote_player_offset: 0x00,
        remote_player_samp_ped_offset: 0x00,
        remote_player_name_offset: 0x0C,
    }
}

pub fn r4_layout() -> (layout: SampLayout)
    ensures
        layout == r4_layout_spec(),
{
    SampLayout { version: SampVersion::V037R4, samp_info_offset: 0x26EA0C, ..r3_layout() }
}

pub fn dl_r1_layout() -> (layout: SampLayout)
    ensures
        layout == dl_r1_layout_spec(),
{
    SampLayout {
        version: SampVersion::V03DlR1,
        samp_info_offset: 0x2ACA24,
        net_game_pools_offset: 0x3DE,
        pools_player_offset: 0x08,
        player_pool_largest_id_offset: 0x22,
        player_pool_remote_players_offset: 0x26,
        player_pool_local_player_id_offset: 0x00,
        player_pool_local_name_offset: 0x06,
        player_pool_local_player_offset: 0x1E,
        player_info_remote_player_offset: 0x08,
        remote_player_samp_ped_offset: 0x04,
        remote_player_name_offset: 0x14,
    }
}

pub fn layout_for_entry_point(entry_point: u32) -> (layout: Option<SampLayout>)
    ensures
        layout == layout_spec(entry_point),
{
    if entry_point == R1_ENTRY_POINT {
        Some(r1_layout())
    } else if entry_point == R3_ENTRY_POINT {
        Some(r3_layout())
    } else if entry_point == R4_ENTRY_POINT {
        Some(r4_layout())
    } else if entry_point == DL_R1_ENTRY_POINT {
        Some(dl_r1_layout())
    } else {
        None
    }
}

/// Each official samp.dll build, named by its PE entry point, has the
/// packed player-pool layout documented for it (R4 shares R3's pool with a
/// global of its own), and every other entry point has none.
pub proof fn lemma_documented_layouts(entry_point: u32)
    ensures
        entry_point == 0x31DF13u32 ==> layout_spec(entry_point) == Some(SampLayout {
                version: SampVersion::V037R1,
                samp_info_offset: 0x21A0F8,
                net_game_pools_offset: 0x3CD,
                pools_player_offset: 0x18,
                player_pool_largest_id_offset: 0x00,
                player_pool_remote_players_offset: 0x2E,
                player_pool_local_player_id_offset: 0x04,
                player_pool_local_name_offset: 0x0A,
                player_pool_local_player_offset: 0x22,
                player_info_remote_player_offset: 0x00,
                remote_player_samp_ped_offset: 0x00,
                remote_player_name_offset: 0x0C,
            }),
        entry_point == 0x0CC4D0u32 ==> layout_spec(entry_point) == Some(SampLayout {
                version: SampVersion::V037R3,
                samp_info_offset: 0x26E8DC,
                net_game_pools_offset: 0x3DE,
                pools_player_offset: 0x08,
                player_pool_largest_id_offset: 0x00,
                player_pool_remote_players_offset: 0x04,
                player_pool_local_player_id_offset: 0x2F1C,
                player_pool_local_name_offset: 0x2F22,
                player_pool_local_player_offset: 0x2F3A,
                player_info_remote_player_offset: 0x00,
                remote_player_samp_ped_offset: 0x00,
                remote_player_name_offset: 0x0C,
            }),
        entry_point == 0x0CBCB0u32 ==> layout_spec(entry_point) == Some(SampLayout {
                version: SampVersion::V037R4,
                samp_info_offset: 0x26EA0C,
                net_game_pools_offset: 0x3DE,
                pools_player_offset: 0x08,
                player_pool_largest_id_offset: 0x00,
                player_pool_remote_players_offset: 0x04,
                player_pool_local_player_id_offset: 0x2F1C,
                player_pool_local_name_offset: 0x2F22,
                player_pool_local_player_offset: 0x2F3A,
                player_info_remote_player_offset: 0x00,
                remote_player_samp_ped_offset: 0x00,
                remote_player_name_offset: 0x0C,
            }),
        entry_point == 0x0FDB60u32 ==> layout_spec(entry_point) == Some(SampLayout {
                version: SampVersion::V03DlR1,
                samp_info_offset: 0x2ACA24,
                net_game_pools_offset: 0x3DE,
                pools_player_offset: 0x08,
                player_pool_largest_id_offset: 0x22,
                player_pool_remote_players_offset: 0x26,
                player_pool_local_player_id_offset: 0x00,
                player_pool_local_name_offset: 0x06,
                player_pool_local_player_offset: 0x1E,
                player_info_remote_player_offset: 0x08,
                remote_player_samp_ped_offset: 0x04,
                remote_player_name_offset: 0x14,
            }),
        !(entry_point == 0x31DF13u32 || entry_point == 0x0CC4D0u32 || entry_point == 0x0CBCB0u32
            || entry_point == 0x0FDB60u32) ==> layout_spec(entry_point) is None,
{
}

/// The builds are named as SA-MP names them.
pub proof fn lemma_version_names()
    ensures
        version_name(SampVersion::V037R1) == "SA-MP 0.3.7-R1"@,
        version_name(SampVersion::V037R3) == "SA-MP 0.3.7-R3-1"@,
        version_name(SampVersion::V037R4) == "SA-MP 0.3.7-R4"@,
        version_name(SampVersion::V03DlR1) == "SA-MP 0.3.DL-R1"@,
{
}

/// The PE entry points of the supported samp.dll builds.
pub proof fn lemma_documented_constants()
    ensures
        R1_ENTRY_POINT == 0x31DF13,
        R3_ENTRY_POINT == 0xCC4D0,
        R4_ENTRY_POINT == 0xCBCB0,
        DL_R1_ENTRY_POINT == 0xFDB60,
{
}

} // verus!
