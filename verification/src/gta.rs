//! The values that cross the GTA bridge: installed render-object identities,
//! loaded skin-source handles, and the executable fingerprint.

pub mod renderware;
pub mod swap;

use crate::memory::{
    copy_from, copy_verdict, field_copy_from, field_value, opt_bytes, pointer_verdict, read_bytes, read_field, read_pointer, ProcessMemory,
};
use vstd::string::*;
use vstd::prelude::*;

verus! {

/// The exact RenderWare object installed on a ped: the clump address and the
/// geometry of its first atomic. Comparing both detects an allocator that
/// reused a clump address for a different object.
#[derive(Clone, Copy, Debug, PartialEq, Eq, Hash, Structural)]
pub struct PedRenderObject {
    address: usize,
    geometry: usize,
}

impl PedRenderObject {
    pub closed spec fn address_spec(self) -> usize {
        self.address
    }

    pub closed spec fn geometry_spec(self) -> usize {
        self.geometry
    }

    pub fn new(address: usize, geometry: usize) -> (object: Self)
        ensures
            object.address_spec() == address,
            object.geometry_spec() == geometry,
    {
        PedRenderObject { address, geometry }
    }

    /// The ped currently has no render object.
    pub fn is_null(self) -> (null: bool)
        ensures
            null == (self.address_spec() == 0),
    {
        self.address == 0
    }

    pub fn has_same_address(self, other: Self) -> (same: bool)
        ensures
            same == (self.address_spec() == other.address_spec()),
    {
        self.address == other.address
    }

    pub fn address(self) -> (address: usize)
        ensures
            address == self.address_spec(),
    {
        self.address
    }

    pub fn geometry(self) -> (geometry: usize)
        ensures
            geometry == self.geometry_spec(),
    {
        self.geometry
    }

    /// The same clump with the same geometry.
    pub fn same_object(self, other: Self) -> (same: bool)
        ensures
            same == (self == other),
    {
        self.address == other.address && self.geometry == other.geometry
    }
}

/// The TXD slot and prepared source clump shared by every ped using a profile.
#[derive(Clone, Copy, Debug, PartialEq, Eq, Structural)]
pub struct SkinSourceResources {
    pub txd_slot: i32,
    pub source_clump: usize,
}

/// The TXD slot, source clump and donor model info of a local instance skin.
#[derive(Clone, Copy, Debug, PartialEq, Eq, Structural)]
pub struct InstanceSkinResources {
    pub txd_slot: i32,
    pub source_clump: usize,
    pub donor_model_info: usize,
}

/// Offset of `CEntity::m_nModelIndex`.
pub const ENTITY_MODEL_INDEX: usize = 0x22;
/// Offset of `CEntity::m_pRwObject`.
pub const ENTITY_RW_OBJECT: usize = 0x18;

/// Bytes that must be found at a fixed address of the executable.
pub struct ExecutableSignature {
    pub name: &'static str,
    pub address: usize,
    pub expected: Vec<u8>,
}

/// Where GTA SA 1.0 US keeps its PE header.
pub const GTA_PE_HEADER: usize = 0x0040_0080;
/// GTA SA 1.0 US (Hoodlum) addresses Wardrobe reads, calls or patches.
pub const ADDR_CGAME_PROCESS: usize = 0x53BEE0;
pub const ADDR_MS_P_TXD_POOL: usize = 0xC8800C;
pub const ADDR_MS_MODEL_INFO_PTRS: usize = 0xA9B0C8;
pub const ADDR_RWSTREAMOPEN: usize = 0x7ECEF0;
pub const ADDR_RWSTREAMFINDCHUNK: usize = 0x7ED2D0;
pub const ADDR_RPCLUMPSTREAMREAD: usize = 0x74B420;
pub const ADDR_RWSTREAMCLOSE: usize = 0x7ECE20;
pub const ADDR_CTXDSTORE_ADD_TXD_SLOT: usize = 0x731C80;
pub const ADDR_CTXDSTORE_LOAD_TXD: usize = 0x7320B0;
pub const ADDR_CTXDSTORE_ADD_REF: usize = 0x731A00;
pub const ADDR_CTXDSTORE_REMOVE_REF: usize = 0x731A30;
pub const ADDR_CTXDSTORE_REMOVE_TXD_SLOT: usize = 0x731CD0;
pub const ADDR_CTXDSTORE_PUSHCURRENTTXD: usize = 0x7316A0;
pub const ADDR_CTXDSTORE_POPCURRENTTXD: usize = 0x7316B0;
pub const ADDR_CTXDSTORE_SETCURRENTTXD: usize = 0x7319C0;
pub const ADDR_CPED_SET_MODEL_INDEX: usize = 0x5E4880;
pub const ADDR_CPED_DELETE_RW_OBJECT: usize = 0x5DEBF0;
pub const ADDR_CENTITY_CREATE_RW_OBJECT: usize = 0x533D30;
pub const ADDR_CTASKSIMPLEIKMANAGER_MAKE_ABORTABLE: usize = 0x6338A0;
pub const ADDR_CENTITY_UPDATE_RW_FRAME: usize = 0x532B00;
pub const ADDR_CENTITY_UPDATE_RP_HANIM: usize = 0x532B20;
pub const ADDR_CCLUMPMODELINFO_SET_HIERARCHY_FOR_SKIN_ATOMIC: usize = 0x4C4EF0;
pub const ADDR_CCLUMPMODELINFO_ATOMIC_SETUP_LIGHTING_CB: usize = 0x4C4F30;
pub const ADDR_CCLUMPMODELINFO_SET_ATOMIC_RENDERER_CB: usize = 0x4C5280;
pub const ADDR_CVISIBILITYPLUGINS_RENDER_PED_CB: usize = 0x7335B0;
pub const ADDR_CVISIBILITYPLUGINS_SET_CLUMP_MODEL_INFO: usize = 0x733750;
pub const ADDR_IS_CLUMP_SKINNED: usize = 0x4C4DC0;
pub const ADDR_GET_ANIM_HIERARCHY_FROM_CLUMP: usize = 0x734B10;
pub const ADDR_GET_ANIM_HIERARCHY_FROM_SKIN_CLUMP: usize = 0x734A40;
pub const ADDR_RPANIMBLEND_CREATE_ANIMATION_FOR_HIERARCHY: usize = 0x4D60E0;
pub const ADDR_RPANIMBLEND_CLUMP_INIT: usize = 0x4D6720;
pub const ADDR_RPANIMBLEND_CLUMP_FILL_FRAME_ARRAY: usize = 0x4D64A0;
pub const ADDR_RPANIMBLEND_CLUMP_EXTRACT_ASSOCIATIONS: usize = 0x4D6BE0;
pub const ADDR_RPANIMBLEND_CLUMP_GIVE_ASSOCIATIONS: usize = 0x4D6C30;
pub const ADDR_RPCLUMP_CLONE: usize = 0x749F70;
pub const ADDR_RPCLUMP_DESTROY: usize = 0x74A310;
pub const ADDR_RPCLUMP_FOR_ALL_ATOMICS: usize = 0x749B70;
pub const ADDR_GET_FIRST_ATOMIC: usize = 0x734820;
pub const ADDR_RPSKIN_GEOMETRY_GET_SKIN: usize = 0x7C7550;
pub const ADDR_RPSKIN_GET_VERTEX_BONE_WEIGHTS: usize = 0x7C77F0;
pub const ADDR_RPHANIM_ID_GET_INDEX: usize = 0x7C51A0;
pub const ADDR_RTANIM_INTERPOLATOR_SET_CURRENT_ANIM: usize = 0x7CD5A0;
pub const ADDR_RTANIM_ANIMATION_DESTROY: usize = 0x7CCF10;
pub const ADDR_RWFRAME_TRANSFORM: usize = 0x7F0F70;
pub const ADDR_RPANIMBLEND_CLUMP_OFFSET: usize = 0xB5F878;

/// The address of each fingerprint, in checking order.
pub open spec fn signature_addresses() -> Seq<usize> {
    seq![GTA_PE_HEADER, ADDR_CGAME_PROCESS, ADDR_CPED_SET_MODEL_INDEX, ADDR_CPED_DELETE_RW_OBJECT, ADDR_CENTITY_CREATE_RW_OBJECT, ADDR_CTASKSIMPLEIKMANAGER_MAKE_ABORTABLE, ADDR_CENTITY_UPDATE_RW_FRAME, ADDR_CENTITY_UPDATE_RP_HANIM, ADDR_CVISIBILITYPLUGINS_SET_CLUMP_MODEL_INFO, ADDR_CCLUMPMODELINFO_SET_HIERARCHY_FOR_SKIN_ATOMIC, ADDR_CCLUMPMODELINFO_ATOMIC_SETUP_LIGHTING_CB, ADDR_CCLUMPMODELINFO_SET_ATOMIC_RENDERER_CB, ADDR_CVISIBILITYPLUGINS_RENDER_PED_CB, ADDR_IS_CLUMP_SKINNED, ADDR_GET_ANIM_HIERARCHY_FROM_CLUMP, ADDR_GET_ANIM_HIERARCHY_FROM_SKIN_CLUMP, ADDR_RPANIMBLEND_CREATE_ANIMATION_FOR_HIERARCHY, ADDR_RPANIMBLEND_CLUMP_INIT, ADDR_RPANIMBLEND_CLUMP_FILL_FRAME_ARRAY, ADDR_RPANIMBLEND_CLUMP_EXTRACT_ASSOCIATIONS, ADDR_RPANIMBLEND_CLUMP_GIVE_ASSOCIATIONS, ADDR_RPCLUMP_CLONE, ADDR_RPCLUMP_DESTROY, ADDR_RPCLUMP_FOR_ALL_ATOMICS, ADDR_GET_FIRST_ATOMIC, ADDR_RPSKIN_GEOMETRY_GET_SKIN, ADDR_RPSKIN_GET_VERTEX_BONE_WEIGHTS, ADDR_RPHANIM_ID_GET_INDEX, ADDR_RTANIM_INTERPOLATOR_SET_CURRENT_ANIM, ADDR_RTANIM_ANIMATION_DESTROY, ADDR_RWFRAME_TRANSFORM, ADDR_RWSTREAMOPEN, ADDR_RWSTREAMFINDCHUNK, ADDR_RPCLUMPSTREAMREAD, ADDR_RWSTREAMCLOSE, ADDR_CTXDSTORE_ADD_TXD_SLOT, ADDR_CTXDSTORE_LOAD_TXD, ADDR_CTXDSTORE_ADD_REF, ADDR_CTXDSTORE_REMOVE_REF, ADDR_CTXDSTORE_REMOVE_TXD_SLOT, ADDR_CTXDSTORE_PUSHCURRENTTXD, ADDR_CTXDSTORE_POPCURRENTTXD, ADDR_CTXDSTORE_SETCURRENTTXD]
}

/// The address and expected bytes of each fingerprint, in checking order.
pub open spec fn executable_signature_table() -> Seq<(usize, Seq<u8>)> {
    seq![
        (GTA_PE_HEADER, seq![0x50u8, 0x45, 0x00, 0x00, 0x4C, 0x01, 0x0B, 0x00, 0xCA, 0x01, 0x71, 0x42]),
        (ADDR_CGAME_PROCESS, seq![0x83u8, 0xEC, 0x0C, 0x53, 0x56, 0x57, 0xE8, 0xE5, 0x5E, 0x00, 0x00, 0xB9, 0x78, 0x29, 0xB7, 0x00]),
        (ADDR_CPED_SET_MODEL_INDEX, seq![0x56u8, 0x8B, 0xF1, 0x81, 0x4E, 0x1C, 0x80, 0x00, 0x00, 0x00, 0x8B, 0x44, 0x24, 0x08, 0x57, 0x50]),
        (ADDR_CPED_DELETE_RW_OBJECT, seq![0xE9u8, 0x3B, 0x54, 0xF5, 0xFF, 0x90, 0x90, 0x90, 0x90, 0x90, 0x90, 0x90, 0x90, 0x90, 0x90, 0x90]),
        (ADDR_CENTITY_CREATE_RW_OBJECT, seq![0x56u8, 0x8B, 0xF1, 0x8B, 0x46, 0x1C, 0x84, 0xC0, 0x0F, 0x89, 0x8E, 0x01, 0x00, 0x00, 0xF6, 0xC4]),
        (ADDR_CTASKSIMPLEIKMANAGER_MAKE_ABORTABLE, seq![0x83u8, 0x7C, 0x24, 0x08, 0x02, 0x75, 0x29, 0x56, 0x57, 0x8D, 0x71, 0x08, 0xBF, 0x04, 0x00, 0x00]),
        (ADDR_CENTITY_UPDATE_RW_FRAME, seq![0x8Bu8, 0x41, 0x18, 0x85, 0xC0, 0x74, 0x0A, 0x8B, 0x40, 0x04, 0x50, 0xE8, 0x00, 0xDE, 0x2B, 0x00]),
        (ADDR_CENTITY_UPDATE_RP_HANIM, seq![0x56u8, 0x8B, 0xF1, 0x8B, 0x46, 0x18, 0x50, 0xE8, 0xF4, 0x1C, 0x20, 0x00, 0x83, 0xC4, 0x04, 0x85]),
        (ADDR_CVISIBILITYPLUGINS_SET_CLUMP_MODEL_INFO, seq![0x8Bu8, 0x0D, 0x90, 0x60, 0x8D, 0x00, 0x56, 0x8B, 0x74, 0x24, 0x0C, 0x57, 0x8B, 0x7C, 0x24, 0x0C]),
        (ADDR_CCLUMPMODELINFO_SET_HIERARCHY_FOR_SKIN_ATOMIC, seq![0x8Bu8, 0x44, 0x24, 0x08, 0x85, 0xC0, 0x74, 0x11, 0x50, 0x8B, 0x44, 0x24, 0x08, 0x50, 0xE8, 0x1D]),
        (ADDR_CCLUMPMODELINFO_ATOMIC_SETUP_LIGHTING_CB, seq![0x56u8, 0x8B, 0x74, 0x24, 0x08, 0x56, 0xE8, 0x05, 0x30, 0x11, 0x00, 0x83, 0xC4, 0x04, 0x85, 0xC0]),
        (ADDR_CCLUMPMODELINFO_SET_ATOMIC_RENDERER_CB, seq![0x8Bu8, 0x44, 0x24, 0x08, 0x56, 0x8B, 0x74, 0x24, 0x08, 0x50, 0x56, 0xE8, 0x10, 0xD6, 0x26, 0x00]),
        (ADDR_CVISIBILITYPLUGINS_RENDER_PED_CB, seq![0x56u8, 0x57, 0x8B, 0x7C, 0x24, 0x0C, 0x8B, 0x77, 0x3C, 0x8B, 0x46, 0x04, 0x50, 0xE8, 0xCE, 0xD3]),
        (ADDR_IS_CLUMP_SKINNED, seq![0x8Bu8, 0x44, 0x24, 0x04, 0x50, 0xE8, 0x56, 0xFA, 0x26, 0x00, 0x83, 0xC4, 0x04, 0x85, 0xC0, 0x74]),
        (ADDR_GET_ANIM_HIERARCHY_FROM_CLUMP, seq![0x8Bu8, 0x44, 0x24, 0x04, 0x8B, 0x48, 0x04, 0x89, 0x4C, 0x24, 0x04, 0xE9, 0x90, 0xFF, 0xFF, 0xFF]),
        (ADDR_GET_ANIM_HIERARCHY_FROM_SKIN_CLUMP, seq![0x51u8, 0x8B, 0x4C, 0x24, 0x08, 0x8D, 0x44, 0x24, 0x00, 0x50, 0x68, 0x20, 0x4A, 0x73, 0x00, 0x51]),
        (ADDR_RPANIMBLEND_CREATE_ANIMATION_FOR_HIERARCHY, seq![0x8Bu8, 0x44, 0x24, 0x04, 0x85, 0xC0, 0x75, 0x01, 0xC3, 0x56, 0x8B, 0x70, 0x04, 0x6A, 0x00, 0x6A]),
        (ADDR_RPANIMBLEND_CLUMP_INIT, seq![0x56u8, 0x8B, 0x74, 0x24, 0x08, 0x56, 0xE8, 0xF5, 0xE0, 0x25, 0x00, 0x83, 0xC4, 0x04, 0x85, 0xC0]),
        (ADDR_RPANIMBLEND_CLUMP_FILL_FRAME_ARRAY, seq![0xA1u8, 0x78, 0xF8, 0xB5, 0x00, 0x56, 0x8B, 0x74, 0x24, 0x08, 0x57, 0x8B, 0x3C, 0x30, 0x56, 0xE8]),
        (ADDR_RPANIMBLEND_CLUMP_EXTRACT_ASSOCIATIONS, seq![0x8Bu8, 0x0D, 0x78, 0xF8, 0xB5, 0x00, 0x8B, 0x44, 0x24, 0x04, 0x8B, 0x04, 0x01, 0x8B, 0x08, 0xC7]),
        (ADDR_RPANIMBLEND_CLUMP_GIVE_ASSOCIATIONS, seq![0x8Bu8, 0x44, 0x24, 0x04, 0x8B, 0x0D, 0x78, 0xF8, 0xB5, 0x00, 0x57, 0x8B, 0x3C, 0x01, 0x8B, 0x07]),
        (ADDR_RPCLUMP_CLONE, seq![0x83u8, 0xEC, 0x14, 0x53, 0x55, 0x56, 0x57, 0xE8, 0x14, 0x03, 0x00, 0x00, 0x8B, 0xE8, 0x85, 0xED]),
        (ADDR_RPCLUMP_DESTROY, seq![0x53u8, 0x55, 0x56, 0x8B, 0x74, 0x24, 0x10, 0x57, 0x56, 0x68, 0x64, 0x62, 0x8D, 0x00, 0xE8, 0x1D]),
        (ADDR_RPCLUMP_FOR_ALL_ATOMICS, seq![0x8Bu8, 0x44, 0x24, 0x04, 0x53, 0x55, 0x56, 0x57, 0x8D, 0x78, 0x08, 0x8B, 0x40, 0x08, 0x3B, 0xC7]),
        (ADDR_GET_FIRST_ATOMIC, seq![0x51u8, 0x8B, 0x4C, 0x24, 0x08, 0x8D, 0x44, 0x24, 0x00, 0x50, 0x68, 0x10, 0x48, 0x73, 0x00, 0x51]),
        (ADDR_RPSKIN_GEOMETRY_GET_SKIN, seq![0x8Bu8, 0x44, 0x24, 0x04, 0x8B, 0x0D, 0xA8, 0x78, 0xC9, 0x00, 0x8B, 0x04, 0x01, 0xC3, 0x90, 0x90]),
        (ADDR_RPSKIN_GET_VERTEX_BONE_WEIGHTS, seq![0x8Bu8, 0x44, 0x24, 0x04, 0x8B, 0x40, 0x18, 0xC3, 0x90, 0x90, 0x90, 0x90, 0x90, 0x90, 0x90, 0x90]),
        (ADDR_RPHANIM_ID_GET_INDEX, seq![0x8Bu8, 0x54, 0x24, 0x04, 0x56, 0x83, 0xC8, 0xFF, 0x8B, 0x72, 0x10, 0x8B, 0x52, 0x04, 0x33, 0xC9]),
        (ADDR_RTANIM_INTERPOLATOR_SET_CURRENT_ANIM, seq![0x53u8, 0x8B, 0x5C, 0x24, 0x0C, 0x55, 0x56, 0x8B, 0x74, 0x24, 0x10, 0x57, 0x33, 0xFF, 0x89, 0x1E]),
        (ADDR_RTANIM_ANIMATION_DESTROY, seq![0x8Bu8, 0x44, 0x24, 0x04, 0x8B, 0x0D, 0x24, 0x7B, 0xC9, 0x00, 0x50, 0xFF, 0x91, 0x38, 0x01, 0x00]),
        (ADDR_RWFRAME_TRANSFORM, seq![0x8Bu8, 0x44, 0x24, 0x0C, 0x8B, 0x4C, 0x24, 0x08, 0x56, 0x8B, 0x74, 0x24, 0x08, 0x50, 0x51, 0x8D]),
        (ADDR_RWSTREAMOPEN, seq![0xA1u8, 0x24, 0x7B, 0xC9, 0x00, 0x8B, 0x0D, 0x2C, 0x79, 0xC9, 0x00, 0x83, 0xEC, 0x20, 0x8B, 0x14]),
        (ADDR_RWSTREAMFINDCHUNK, seq![0x83u8, 0xEC, 0x0C, 0x8D, 0x44, 0x24, 0x04, 0x8D, 0x4C, 0x24, 0x10, 0x8D, 0x54, 0x24, 0x00, 0x56]),
        (ADDR_RPCLUMPSTREAMREAD, seq![0x83u8, 0xEC, 0x44, 0x8D, 0x44, 0x24, 0x04, 0x8D, 0x4C, 0x24, 0x0C, 0x53, 0x55, 0x56, 0x57, 0x8B]),
        (ADDR_RWSTREAMCLOSE, seq![0x83u8, 0xEC, 0x08, 0x56, 0x8B, 0x74, 0x24, 0x10, 0x57, 0x8B, 0x06, 0x48, 0x83, 0xF8, 0x03, 0x0F]),
        (ADDR_CTXDSTORE_ADD_TXD_SLOT, seq![0x8Bu8, 0x0D, 0x0C, 0x80, 0xC8, 0x00, 0x56, 0xE8, 0xF4, 0xFE, 0xFF, 0xFF, 0x8B, 0xF0, 0x8B, 0x44]),
        (ADDR_CTXDSTORE_LOAD_TXD, seq![0x8Bu8, 0x44, 0x24, 0x08, 0x90, 0xE9, 0xA7, 0x00, 0xCD, 0xFF, 0x50, 0x8D, 0x4C, 0x24, 0x04, 0x68]),
        (ADDR_CTXDSTORE_ADD_REF, seq![0x8Bu8, 0x0D, 0x0C, 0x80, 0xC8, 0x00, 0x8B, 0x51, 0x04, 0x8B, 0x44, 0x24, 0x04, 0x80, 0x3C, 0x10]),
        (ADDR_CTXDSTORE_REMOVE_REF, seq![0xA1u8, 0x0C, 0x80, 0xC8, 0x00, 0x8B, 0x50, 0x04, 0x8B, 0x4C, 0x24, 0x04, 0x80, 0x3C, 0x11, 0x00]),
        (ADDR_CTXDSTORE_REMOVE_TXD_SLOT, seq![0x8Bu8, 0x0D, 0x0C, 0x80, 0xC8, 0x00, 0x8B, 0x41, 0x04, 0x53, 0x56, 0x8B, 0x74, 0x24, 0x0C, 0x80]),
        (ADDR_CTXDSTORE_PUSHCURRENTTXD, seq![0xE8u8, 0xEB, 0x23, 0x0C, 0x00, 0xE9, 0xCE, 0x04, 0xCD, 0xFF, 0xC3, 0x90, 0x90, 0x90, 0x90, 0x90]),
        (ADDR_CTXDSTORE_POPCURRENTTXD, seq![0xA1u8, 0x10, 0x80, 0xC8, 0x00, 0x50, 0xE8, 0xB5, 0x23, 0x0C, 0x00, 0x83, 0xC4, 0x04, 0xC7, 0x05]),
        (ADDR_CTXDSTORE_SETCURRENTTXD, seq![0x8Bu8, 0x0D, 0x0C, 0x80, 0xC8, 0x00, 0x8B, 0x51, 0x04, 0x8B, 0x44, 0x24, 0x04, 0x80, 0x3C, 0x10]),
    ]
}

/// The fingerprints of the PE header and of every fixed code target: they
/// identify the executable Wardrobe supports and reject a target another
/// plugin has already patched.
#[verifier::spinoff_prover]
#[verifier::rlimit(60)]
pub fn executable_signatures() -> (signatures: Vec<ExecutableSignature>)
    ensures
        signatures@.map_values(|s: ExecutableSignature| s.address) == signature_addresses(),
        signatures@.map_values(|s: ExecutableSignature| (s.address, s.expected@)) == executable_signature_table(),
        forall|i: int| 0 <= i < signatures@.len() ==> (#[trigger] signatures@[i]).expected@.len() > 0,
{
    let mut signatures: Vec<ExecutableSignature> = Vec::new();
    signatures.push(ExecutableSignature { name: "GTA SA 1.0 US PE header", address: GTA_PE_HEADER, expected: vec![0x50, 0x45, 0x00, 0x00, 0x4C, 0x01, 0x0B, 0x00, 0xCA, 0x01, 0x71, 0x42,] });
    signatures.push(ExecutableSignature { name: "CGame::Process", address: ADDR_CGAME_PROCESS, expected: vec![0x83, 0xEC, 0x0C, 0x53, 0x56, 0x57, 0xE8, 0xE5, 0x5E, 0x00, 0x00, 0xB9, 0x78, 0x29, 0xB7, 0x00,] });
    signatures.push(ExecutableSignature { name: "CPed::SetModelIndex", address: ADDR_CPED_SET_MODEL_INDEX, expected: vec![0x56, 0x8B, 0xF1, 0x81, 0x4E, 0x1C, 0x80, 0x00, 0x00, 0x00, 0x8B, 0x44, 0x24, 0x08, 0x57, 0x50,] });
    signatures.push(ExecutableSignature { name: "CPed::DeleteRwObject", address: ADDR_CPED_DELETE_RW_OBJECT, expected: vec![0xE9, 0x3B, 0x54, 0xF5, 0xFF, 0x90, 0x90, 0x90, 0x90, 0x90, 0x90, 0x90, 0x90, 0x90, 0x90, 0x90,] });
    signatures.push(ExecutableSignature { name: "CEntity::CreateRwObject", address: ADDR_CENTITY_CREATE_RW_OBJECT, expected: vec![0x56, 0x8B, 0xF1, 0x8B, 0x46, 0x1C, 0x84, 0xC0, 0x0F, 0x89, 0x8E, 0x01, 0x00, 0x00, 0xF6, 0xC4,] });
    signatures.push(ExecutableSignature { name: "CTaskSimpleIKManager::MakeAbortable", address: ADDR_CTASKSIMPLEIKMANAGER_MAKE_ABORTABLE, expected: vec![0x83, 0x7C, 0x24, 0x08, 0x02, 0x75, 0x29, 0x56, 0x57, 0x8D, 0x71, 0x08, 0xBF, 0x04, 0x00, 0x00,] });
    signatures.push(ExecutableSignature { name: "CEntity::UpdateRwFrame", address: ADDR_CENTITY_UPDATE_RW_FRAME, expected: vec![0x8B, 0x41, 0x18, 0x85, 0xC0, 0x74, 0x0A, 0x8B, 0x40, 0x04, 0x50, 0xE8, 0x00, 0xDE, 0x2B, 0x00,] });
    signatures.push(ExecutableSignature { name: "CEntity::UpdateRpHAnim", address: ADDR_CENTITY_UPDATE_RP_HANIM, expected: vec![0x56, 0x8B, 0xF1, 0x8B, 0x46, 0x18, 0x50, 0xE8, 0xF4, 0x1C, 0x20, 0x00, 0x83, 0xC4, 0x04, 0x85,] });
    signatures.push(ExecutableSignature { name: "CVisibilityPlugins::SetClumpModelInfo", address: ADDR_CVISIBILITYPLUGINS_SET_CLUMP_MODEL_INFO, expected: vec![0x8B, 0x0D, 0x90, 0x60, 0x8D, 0x00, 0x56, 0x8B, 0x74, 0x24, 0x0C, 0x57, 0x8B, 0x7C, 0x24, 0x0C,] });
    signatures.push(ExecutableSignature { name: "CClumpModelInfo::SetHierarchyForSkinAtomic", address: ADDR_CCLUMPMODELINFO_SET_HIERARCHY_FOR_SKIN_ATOMIC, expected: vec![0x8B, 0x44, 0x24, 0x08, 0x85, 0xC0, 0x74, 0x11, 0x50, 0x8B, 0x44, 0x24, 0x08, 0x50, 0xE8, 0x1D,] });
    signatures.push(ExecutableSignature { name: "CClumpModelInfo::AtomicSetupLightingCB", address: ADDR_CCLUMPMODELINFO_ATOMIC_SETUP_LIGHTING_CB, expected: vec![0x56, 0x8B, 0x74, 0x24, 0x08, 0x56, 0xE8, 0x05, 0x30, 0x11, 0x00, 0x83, 0xC4, 0x04, 0x85, 0xC0,] });
    signatures.push(ExecutableSignature { name: "CClumpModelInfo::SetAtomicRendererCB", address: ADDR_CCLUMPMODELINFO_SET_ATOMIC_RENDERER_CB, expected: vec![0x8B, 0x44, 0x24, 0x08, 0x56, 0x8B, 0x74, 0x24, 0x08, 0x50, 0x56, 0xE8, 0x10, 0xD6, 0x26, 0x00,] });
    signatures.push(ExecutableSignature { name: "CVisibilityPlugins::RenderPedCB", address: ADDR_CVISIBILITYPLUGINS_RENDER_PED_CB, expected: vec![0x56, 0x57, 0x8B, 0x7C, 0x24, 0x0C, 0x8B, 0x77, 0x3C, 0x8B, 0x46, 0x04, 0x50, 0xE8, 0xCE, 0xD3,] });
    signatures.push(ExecutableSignature { name: "IsClumpSkinned", address: ADDR_IS_CLUMP_SKINNED, expected: vec![0x8B, 0x44, 0x24, 0x04, 0x50, 0xE8, 0x56, 0xFA, 0x26, 0x00, 0x83, 0xC4, 0x04, 0x85, 0xC0, 0x74,] });
    signatures.push(ExecutableSignature { name: "GetAnimHierarchyFromClump", address: ADDR_GET_ANIM_HIERARCHY_FROM_CLUMP, expected: vec![0x8B, 0x44, 0x24, 0x04, 0x8B, 0x48, 0x04, 0x89, 0x4C, 0x24, 0x04, 0xE9, 0x90, 0xFF, 0xFF, 0xFF,] });
    signatures.push(ExecutableSignature { name: "GetAnimHierarchyFromSkinClump", address: ADDR_GET_ANIM_HIERARCHY_FROM_SKIN_CLUMP, expected: vec![0x51, 0x8B, 0x4C, 0x24, 0x08, 0x8D, 0x44, 0x24, 0x00, 0x50, 0x68, 0x20, 0x4A, 0x73, 0x00, 0x51,] });
    signatures.push(ExecutableSignature { name: "RpAnimBlendCreateAnimationForHierarchy", address: ADDR_RPANIMBLEND_CREATE_ANIMATION_FOR_HIERARCHY, expected: vec![0x8B, 0x44, 0x24, 0x04, 0x85, 0xC0, 0x75, 0x01, 0xC3, 0x56, 0x8B, 0x70, 0x04, 0x6A, 0x00, 0x6A,] });
    signatures.push(ExecutableSignature { name: "RpAnimBlendClumpInit", address: ADDR_RPANIMBLEND_CLUMP_INIT, expected: vec![0x56, 0x8B, 0x74, 0x24, 0x08, 0x56, 0xE8, 0xF5, 0xE0, 0x25, 0x00, 0x83, 0xC4, 0x04, 0x85, 0xC0,] });
    signatures.push(ExecutableSignature { name: "RpAnimBlendClumpFillFrameArray", address: ADDR_RPANIMBLEND_CLUMP_FILL_FRAME_ARRAY, expected: vec![0xA1, 0x78, 0xF8, 0xB5, 0x00, 0x56, 0x8B, 0x74, 0x24, 0x08, 0x57, 0x8B, 0x3C, 0x30, 0x56, 0xE8,] });
    signatures.push(ExecutableSignature { name: "RpAnimBlendClumpExtractAssociations", address: ADDR_RPANIMBLEND_CLUMP_EXTRACT_ASSOCIATIONS, expected: vec![0x8B, 0x0D, 0x78, 0xF8, 0xB5, 0x00, 0x8B, 0x44, 0x24, 0x04, 0x8B, 0x04, 0x01, 0x8B, 0x08, 0xC7,] });
    signatures.push(ExecutableSignature { name: "RpAnimBlendClumpGiveAssociations", address: ADDR_RPANIMBLEND_CLUMP_GIVE_ASSOCIATIONS, expected: vec![0x8B, 0x44, 0x24, 0x04, 0x8B, 0x0D, 0x78, 0xF8, 0xB5, 0x00, 0x57, 0x8B, 0x3C, 0x01, 0x8B, 0x07,] });
    signatures.push(ExecutableSignature { name: "RpClumpClone", address: ADDR_RPCLUMP_CLONE, expected: vec![0x83, 0xEC, 0x14, 0x53, 0x55, 0x56, 0x57, 0xE8, 0x14, 0x03, 0x00, 0x00, 0x8B, 0xE8, 0x85, 0xED,] });
    signatures.push(ExecutableSignature { name: "RpClumpDestroy", address: ADDR_RPCLUMP_DESTROY, expected: vec![0x53, 0x55, 0x56, 0x8B, 0x74, 0x24, 0x10, 0x57, 0x56, 0x68, 0x64, 0x62, 0x8D, 0x00, 0xE8, 0x1D,] });
    signatures.push(ExecutableSignature { name: "RpClumpForAllAtomics", address: ADDR_RPCLUMP_FOR_ALL_ATOMICS, expected: vec![0x8B, 0x44, 0x24, 0x04, 0x53, 0x55, 0x56, 0x57, 0x8D, 0x78, 0x08, 0x8B, 0x40, 0x08, 0x3B, 0xC7,] });
    signatures.push(ExecutableSignature { name: "GetFirstAtomic", address: ADDR_GET_FIRST_ATOMIC, expected: vec![0x51, 0x8B, 0x4C, 0x24, 0x08, 0x8D, 0x44, 0x24, 0x00, 0x50, 0x68, 0x10, 0x48, 0x73, 0x00, 0x51,] });
    signatures.push(ExecutableSignature { name: "RpSkinGeometryGetSkin", address: ADDR_RPSKIN_GEOMETRY_GET_SKIN, expected: vec![0x8B, 0x44, 0x24, 0x04, 0x8B, 0x0D, 0xA8, 0x78, 0xC9, 0x00, 0x8B, 0x04, 0x01, 0xC3, 0x90, 0x90,] });
    signatures.push(ExecutableSignature { name: "RpSkinGetVertexBoneWeights", address: ADDR_RPSKIN_GET_VERTEX_BONE_WEIGHTS, expected: vec![0x8B, 0x44, 0x24, 0x04, 0x8B, 0x40, 0x18, 0xC3, 0x90, 0x90, 0x90, 0x90, 0x90, 0x90, 0x90, 0x90,] });
    signatures.push(ExecutableSignature { name: "RpHAnimIDGetIndex", address: ADDR_RPHANIM_ID_GET_INDEX, expected: vec![0x8B, 0x54, 0x24, 0x04, 0x56, 0x83, 0xC8, 0xFF, 0x8B, 0x72, 0x10, 0x8B, 0x52, 0x04, 0x33, 0xC9,] });
    signatures.push(ExecutableSignature { name: "RtAnimInterpolatorSetCurrentAnim", address: ADDR_RTANIM_INTERPOLATOR_SET_CURRENT_ANIM, expected: vec![0x53, 0x8B, 0x5C, 0x24, 0x0C, 0x55, 0x56, 0x8B, 0x74, 0x24, 0x10, 0x57, 0x33, 0xFF, 0x89, 0x1E,] });
    signatures.push(ExecutableSignature { name: "RtAnimAnimationDestroy", address: ADDR_RTANIM_ANIMATION_DESTROY, expected: vec![0x8B, 0x44, 0x24, 0x04, 0x8B, 0x0D, 0x24, 0x7B, 0xC9, 0x00, 0x50, 0xFF, 0x91, 0x38, 0x01, 0x00,] });
    signatures.push(ExecutableSignature { name: "RwFrameTransform", address: ADDR_RWFRAME_TRANSFORM, expected: vec![0x8B, 0x44, 0x24, 0x0C, 0x8B, 0x4C, 0x24, 0x08, 0x56, 0x8B, 0x74, 0x24, 0x08, 0x50, 0x51, 0x8D,] });
    signatures.push(ExecutableSignature { name: "RwStreamOpen", address: ADDR_RWSTREAMOPEN, expected: vec![0xA1, 0x24, 0x7B, 0xC9, 0x00, 0x8B, 0x0D, 0x2C, 0x79, 0xC9, 0x00, 0x83, 0xEC, 0x20, 0x8B, 0x14,] });
    signatures.push(ExecutableSignature { name: "RwStreamFindChunk", address: ADDR_RWSTREAMFINDCHUNK, expected: vec![0x83, 0xEC, 0x0C, 0x8D, 0x44, 0x24, 0x04, 0x8D, 0x4C, 0x24, 0x10, 0x8D, 0x54, 0x24, 0x00, 0x56,] });
    signatures.push(ExecutableSignature { name: "RpClumpStreamRead", address: ADDR_RPCLUMPSTREAMREAD, expected: vec![0x83, 0xEC, 0x44, 0x8D, 0x44, 0x24, 0x04, 0x8D, 0x4C, 0x24, 0x0C, 0x53, 0x55, 0x56, 0x57, 0x8B,] });
    signatures.push(ExecutableSignature { name: "RwStreamClose", address: ADDR_RWSTREAMCLOSE, expected: vec![0x83, 0xEC, 0x08, 0x56, 0x8B, 0x74, 0x24, 0x10, 0x57, 0x8B, 0x06, 0x48, 0x83, 0xF8, 0x03, 0x0F,] });
    signatures.push(ExecutableSignature { name: "CTxdStore::AddTxdSlot", address: ADDR_CTXDSTORE_ADD_TXD_SLOT, expected: vec![0x8B, 0x0D, 0x0C, 0x80, 0xC8, 0x00, 0x56, 0xE8, 0xF4, 0xFE, 0xFF, 0xFF, 0x8B, 0xF0, 0x8B, 0x44,] });
    signatures.push(ExecutableSignature { name: "CTxdStore::LoadTxd", address: ADDR_CTXDSTORE_LOAD_TXD, expected: vec![0x8B, 0x44, 0x24, 0x08, 0x90, 0xE9, 0xA7, 0x00, 0xCD, 0xFF, 0x50, 0x8D, 0x4C, 0x24, 0x04, 0x68,] });
    signatures.push(ExecutableSignature { name: "CTxdStore::AddRef", address: ADDR_CTXDSTORE_ADD_REF, expected: vec![0x8B, 0x0D, 0x0C, 0x80, 0xC8, 0x00, 0x8B, 0x51, 0x04, 0x8B, 0x44, 0x24, 0x04, 0x80, 0x3C, 0x10,] });
    signatures.push(ExecutableSignature { name: "CTxdStore::RemoveRef", address: ADDR_CTXDSTORE_REMOVE_REF, expected: vec![0xA1, 0x0C, 0x80, 0xC8, 0x00, 0x8B, 0x50, 0x04, 0x8B, 0x4C, 0x24, 0x04, 0x80, 0x3C, 0x11, 0x00,] });
    signatures.push(ExecutableSignature { name: "CTxdStore::RemoveTxdSlot", address: ADDR_CTXDSTORE_REMOVE_TXD_SLOT, expected: vec![0x8B, 0x0D, 0x0C, 0x80, 0xC8, 0x00, 0x8B, 0x41, 0x04, 0x53, 0x56, 0x8B, 0x74, 0x24, 0x0C, 0x80,] });
    signatures.push(ExecutableSignature { name: "CTxdStore::PushCurrentTxd", address: ADDR_CTXDSTORE_PUSHCURRENTTXD, expected: vec![0xE8, 0xEB, 0x23, 0x0C, 0x00, 0xE9, 0xCE, 0x04, 0xCD, 0xFF, 0xC3, 0x90, 0x90, 0x90, 0x90, 0x90,] });
    signatures.push(ExecutableSignature { name: "CTxdStore::PopCurrentTxd", address: ADDR_CTXDSTORE_POPCURRENTTXD, expected: vec![0xA1, 0x10, 0x80, 0xC8, 0x00, 0x50, 0xE8, 0xB5, 0x23, 0x0C, 0x00, 0x83, 0xC4, 0x04, 0xC7, 0x05,] });
    signatures.push(ExecutableSignature { name: "CTxdStore::SetCurrentTxd", address: ADDR_CTXDSTORE_SETCURRENTTXD, expected: vec![0x8B, 0x0D, 0x0C, 0x80, 0xC8, 0x00, 0x8B, 0x51, 0x04, 0x8B, 0x44, 0x24, 0x04, 0x80, 0x3C, 0x10,] });
    assert(signatures@.map_values(|s: ExecutableSignature| s.address) =~= signature_addresses());
    assert(signatures@.map_values(|s: ExecutableSignature| (s.address, s.expected@)) =~= executable_signature_table());
    signatures
}

/// Why the executable was rejected.
#[derive(Debug)]
pub enum ExecutableError {
    /// The fingerprinted bytes could not be read.
    Unreadable { name: &'static str, address: usize },
    /// Other bytes than the fingerprint were found.
    Mismatch { name: &'static str, address: usize, expected: Vec<u8>, found: Vec<u8> },
}

/// The log text of each rejection of the executable.
pub open spec fn executable_error_text(error: ExecutableError) -> Seq<char> {
    match error {
        ExecutableError::Unreadable { name, address } => "unsupported GTA executable: could not read "@ + name@ + " at "@
            + crate::samp_hooks::address_text(address),
        ExecutableError::Mismatch { name, address, expected, found } => "unsupported GTA executable or modified target: "@
            + name@ + " differs at "@ + crate::samp_hooks::address_text(address) + " (expected "@
            + crate::text::hex_spec(expected@) + ", found "@ + crate::text::hex_spec(found@) + ")"@,
    }
}

impl ExecutableError {
    pub fn message(&self) -> (text: String)
        ensures
            text@ == executable_error_text(*self),
    {
        match self {
            ExecutableError::Unreadable { name, address } => {
                let mut text = String::from_str("unsupported GTA executable: could not read ");
                text.append(name);
                text.append(" at ");
                let at = crate::samp_hooks::address_string(*address);
                text.append(at.as_str());
                text
            },
            ExecutableError::Mismatch { name, address, expected, found } => {
                let mut text = String::from_str("unsupported GTA executable or modified target: ");
                text.append(name);
                text.append(" differs at ");
                let at = crate::samp_hooks::address_string(*address);
                text.append(at.as_str());
                text.append(" (expected ");
                let e = crate::text::hex(expected.as_slice());
                text.append(e.as_str());
                text.append(", found ");
                let f = crate::text::hex(found.as_slice());
                text.append(f.as_str());
                text.append(")");
                text
            },
        }
    }
}

/// Two byte slices are equal.
pub fn bytes_eq(a: &[u8], b: &[u8]) -> (same: bool)
    ensures
        same == (a@ == b@),
{
    if a.len() != b.len() {
        return false;
    }
    let mut i: usize = 0;
    while i < a.len()
        invariant
            a@.len() == b@.len(),
            i <= a@.len(),
            forall|k: int| 0 <= k < i ==> a@[k] == b@[k],
        decreases a@.len() - i,
    {
        if a[i] != b[i] {
            return false;
        }
        i = i + 1;
    }
    assert(a@ =~= b@);
    true
}

/// Judges one fingerprint by the bytes read at its address.
pub fn check_signature(signature: &ExecutableSignature, actual: Option<Vec<u8>>) -> (checked: Result<(), ExecutableError>)
    ensures
        match actual {
            None => checked matches Err(ExecutableError::Unreadable { name, address })
                && name == signature.name && address == signature.address,
            Some(found) => if found@ == signature.expected@ {
                checked is Ok
            } else {
                checked matches Err(ExecutableError::Mismatch { name, address, expected, found: f })
                    && name == signature.name && address == signature.address && expected@ == signature.expected@
                    && f@ == found@
            },
        },
{
    match actual {
        None => Err(ExecutableError::Unreadable { name: signature.name, address: signature.address }),
        Some(found) => {
            if bytes_eq(found.as_slice(), signature.expected.as_slice()) {
                Ok(())
            } else {
                Err(ExecutableError::Mismatch {
                    name: signature.name,
                    address: signature.address,
                    expected: signature.expected.clone(),
                    found,
                })
            }
        },
    }
}

/// A rejected fingerprint, as plain values.
pub enum ExecutableFault {
    Unreadable { name: &'static str, address: usize },
    Mismatch { name: &'static str, address: usize, expected: Seq<u8>, found: Seq<u8> },
}

pub open spec fn executable_fault_of(error: ExecutableError) -> ExecutableFault {
    match error {
        ExecutableError::Unreadable { name, address } => ExecutableFault::Unreadable { name, address },
        ExecutableError::Mismatch { name, address, expected, found } => ExecutableFault::Mismatch {
            name,
            address,
            expected: expected@,
            found: found@,
        },
    }
}

/// What one copy of a fingerprinted range says: nothing when it holds the
/// expected bytes, otherwise why the executable is rejected.
pub open spec fn fingerprint_fault(signature: ExecutableSignature, read: Option<Seq<u8>>) -> Option<ExecutableFault> {
    match read {
        None => Some(ExecutableFault::Unreadable { name: signature.name, address: signature.address }),
        Some(found) => if found == signature.expected@ {
            None
        } else {
            Some(ExecutableFault::Mismatch {
                name: signature.name,
                address: signature.address,
                expected: signature.expected@,
                found,
            })
        },
    }
}

/// The first `n` fingerprints all matched their copies.
pub open spec fn fingerprints_match(table: Seq<ExecutableSignature>, reads: Seq<Option<Seq<u8>>>, n: int) -> bool {
    forall|k: int| 0 <= k < n ==> #[trigger] fingerprint_fault(table[k], reads[k]) is None
}

/// Fingerprint `i` is the first whose copy did not match.
pub open spec fn first_fault_at(table: Seq<ExecutableSignature>, reads: Seq<Option<Seq<u8>>>, i: int) -> bool {
    &&& 0 <= i < table.len()
    &&& fingerprint_fault(table[i], reads[i]) is Some
    &&& fingerprints_match(table, reads, i)
}

/// The verdict on an executable: the fault of its first fingerprint whose
/// copy did not match, or none when every one matched.
pub open spec fn executable_verdict(table: Seq<ExecutableSignature>, reads: Seq<Option<Seq<u8>>>) -> Option<ExecutableFault> {
    if exists|i: int| first_fault_at(table, reads, i) {
        fingerprint_fault(table[choose|i: int| first_fault_at(table, reads, i)], reads[choose|i: int| first_fault_at(table, reads, i)])
    } else {
        None
    }
}

proof fn lemma_first_fault_unique(table: Seq<ExecutableSignature>, reads: Seq<Option<Seq<u8>>>, i: int, j: int)
    requires
        first_fault_at(table, reads, i),
        first_fault_at(table, reads, j),
    ensures
        i == j,
{
    if i < j {
        assert(fingerprint_fault(table[i], reads[i]) is None);
    } else if j < i {
        assert(fingerprint_fault(table[j], reads[j]) is None);
    }
}

proof fn lemma_some_first_fault(table: Seq<ExecutableSignature>, reads: Seq<Option<Seq<u8>>>, k: int)
    requires
        0 <= k < table.len(),
        fingerprint_fault(table[k], reads[k]) is Some,
    ensures
        exists|i: int| first_fault_at(table, reads, i),
    decreases k,
{
    if fingerprints_match(table, reads, k) {
        assert(first_fault_at(table, reads, k));
    } else {
        let j = choose|j: int| 0 <= j < k && !(#[trigger] fingerprint_fault(table[j], reads[j]) is None);
        lemma_some_first_fault(table, reads, j);
    }
}

/// An executable is accepted only when the copy of every fingerprinted
/// range held exactly the expected bytes.
pub proof fn lemma_accepted_executable_matches_every_fingerprint(
    table: Seq<ExecutableSignature>,
    reads: Seq<Option<Seq<u8>>>,
)
    requires
        reads.len() == table.len(),
        executable_verdict(table, reads) is None,
    ensures
        forall|i: int| 0 <= i < table.len() ==> #[trigger] reads[i] == Some(table[i].expected@),
{
    assert forall|i: int| 0 <= i < table.len() implies #[trigger] reads[i] == Some(table[i].expected@) by {
        if fingerprint_fault(table[i], reads[i]) is Some {
            lemma_some_first_fault(table, reads, i);
            let c = choose|c: int| first_fault_at(table, reads, c);
            assert(fingerprint_fault(table[c], reads[c]) is Some);
        }
    }
}

/// The copies, as plain byte sequences.
pub open spec fn reads_view(reads: Seq<Option<Vec<u8>>>) -> Seq<Option<Seq<u8>>> {
    reads.map_values(|r: Option<Vec<u8>>| match r {
        Some(b) => Some(b@),
        None => None,
    })
}

/// Judges an executable by copies already made, one per fingerprint of
/// `table`: the first fingerprint whose copy does not match rejects it.
pub fn executable_verdict_of(table: &Vec<ExecutableSignature>, reads: &Vec<Option<Vec<u8>>>) -> (checked: Result<(), ExecutableError>)
    requires
        reads@.len() == table@.len(),
    ensures
        match checked {
            Ok(()) => executable_verdict(table@, reads_view(reads@)) is None,
            Err(error) => executable_verdict(table@, reads_view(reads@)) == Some(executable_fault_of(error)),
        },
{
    let ghost all = reads_view(reads@);
    let mut i: usize = 0;
    while i < table.len()
        invariant
            i <= table@.len(),
            reads@.len() == table@.len(),
            all == reads_view(reads@),
            fingerprints_match(table@, all, i as int),
        decreases table@.len() - i,
    {
        let signature = &table[i];
        let read: Option<Vec<u8>> = match &reads[i] {
            Some(b) => Some(b.clone()),
            None => None,
        };
        proof {
            assert(all[i as int] == match reads@[i as int] { Some(b) => Some(b@), None => None::<Seq<u8>> });
        }
        match check_signature(signature, read) {
            Ok(()) => {
                assert(fingerprint_fault(table@[i as int], all[i as int]) is None);
            },
            Err(error) => {
                proof {
                    assert(first_fault_at(table@, all, i as int));
                    let c = choose|c: int| first_fault_at(table@, all, c);
                    lemma_first_fault_unique(table@, all, i as int, c);
                }
                return Err(error);
            },
        }
        i = i + 1;
    }
    proof {
        if exists|c: int| first_fault_at(table@, all, c) {
            let c = choose|c: int| first_fault_at(table@, all, c);
            assert(fingerprint_fault(table@[c], all[c]) is None);
        }
    }
    Ok(())
}

/// Each read is what `read_bytes` gives for the copy made of its
/// fingerprint's range: its address, and as many bytes as it expects.
pub open spec fn reads_of_copies(table: Seq<ExecutableSignature>, copies: Seq<Option<Seq<u8>>>, reads: Seq<Option<Seq<u8>>>) -> bool {
    forall|k: int| 0 <= k < table.len() ==> #[trigger] reads[k] == copy_verdict(
        table[k].address,
        table[k].expected@.len() as usize,
        copies[k],
    )
}

/// Every copy the check asks for is one that `memory` may give: that of
/// each fingerprint's range, up to the first that does not match.
pub open spec fn copies_from_memory<M: ProcessMemory>(
    memory: &M,
    table: Seq<ExecutableSignature>,
    copies: Seq<Option<Seq<u8>>>,
    reads: Seq<Option<Seq<u8>>>,
) -> bool {
    forall|k: int| 0 <= k < table.len() && fingerprints_match(table, reads, k) ==> copy_from(
        memory,
        table[k].address,
        table[k].expected@.len() as usize,
        #[trigger] copies[k],
    )
}

/// Checks each fingerprint of `table` in order against a copy of its
/// range, stopping at the first that does not match.
pub fn check_executable<M: ProcessMemory>(memory: &M, table: &Vec<ExecutableSignature>) -> (checked: Result<(), ExecutableError>)
    ensures
        exists|reads: Seq<Option<Seq<u8>>>, copies: Seq<Option<Seq<u8>>>| {
            &&& reads.len() == table@.len()
            &&& copies.len() == table@.len()
            &&& reads_of_copies(table@, copies, reads)
            &&& copies_from_memory(memory, table@, copies, reads)
            &&& match checked {
                Ok(()) => executable_verdict(table@, reads) is None,
                Err(error) => executable_verdict(table@, reads) == Some(executable_fault_of(error)),
            }
        },
        checked matches Err(ExecutableError::Mismatch { expected, found, .. }) ==> found@.len() == expected@.len(),
{
    let ghost mut reads: Seq<Option<Seq<u8>>> = Seq::empty();
    let ghost mut copies: Seq<Option<Seq<u8>>> = Seq::empty();
    let mut i: usize = 0;
    while i < table.len()
        invariant
            i <= table@.len(),
            reads.len() == i,
            copies.len() == i,
            reads_of_copies(table@.take(i as int), copies, reads),
            forall|k: int| 0 <= k < i ==> copy_from(
                memory,
                table@[k].address,
                table@[k].expected@.len() as usize,
                #[trigger] copies[k],
            ),
            fingerprints_match(table@, reads, i as int),
        decreases table@.len() - i,
    {
        let signature = &table[i];
        let size: usize = signature.expected.len();
        let actual = read_bytes(memory, signature.address, size);
        let ghost read: Option<Seq<u8>> = match &actual {
            Some(b) => Some(b@),
            None => None,
        };
        let ghost copy = choose|copy: Option<Seq<u8>>|
            copy_from(memory, signature.address, size, copy) && opt_bytes(actual) == #[trigger] copy_verdict(signature.address, size, copy);
        let ghost prefix = reads;
        let ghost prefix_copies = copies;
        proof {
            reads = reads.push(read);
            copies = copies.push(copy);
            assert(read == opt_bytes(actual));
            assert forall|k: int| 0 <= k < i + 1 implies #[trigger] reads[k] == copy_verdict(
                table@.take(i + 1)[k].address,
                table@.take(i + 1)[k].expected@.len() as usize,
                copies[k],
            ) by {
                if k < i {
                    assert(reads[k] == prefix[k]);
                    assert(copies[k] == prefix_copies[k]);
                    assert(table@.take(i + 1)[k] == table@.take(i as int)[k]);
                }
            }
            assert forall|k: int| 0 <= k < i + 1 implies copy_from(
                memory,
                table@[k].address,
                table@[k].expected@.len() as usize,
                #[trigger] copies[k],
            ) by {
                if k < i {
                    assert(copies[k] == prefix_copies[k]);
                }
            }
        }
        match check_signature(signature, actual) {
            Ok(()) => {
                assert(fingerprint_fault(table@[i as int], read) is None);
                assert forall|k: int| 0 <= k < i + 1 implies #[trigger] fingerprint_fault(table@[k], reads[k]) is None by {
                    if k < i {
                        assert(reads[k] == prefix[k]);
                    }
                }
            },
            Err(error) => {
                let ghost all = reads + Seq::new((table@.len() - i - 1) as nat, |k: int| None::<Seq<u8>>);
                let ghost all_copies = copies + Seq::new((table@.len() - i - 1) as nat, |k: int| None::<Seq<u8>>);
                proof {
                    assert forall|k: int| 0 <= k < table@.len() implies #[trigger] all[k] == copy_verdict(
                        table@[k].address,
                        table@[k].expected@.len() as usize,
                        all_copies[k],
                    ) by {
                        if k < i + 1 {
                            assert(table@.take(i + 1)[k] == table@[k]);
                        }
                    }
                    assert(reads_of_copies(table@, all_copies, all));
                    assert(all[i as int] == read);
                    assert(fingerprint_fault(table@[i as int], all[i as int]) is Some);
                    assert forall|k: int| 0 <= k < table@.len() && fingerprints_match(table@, all, k) implies copy_from(
                        memory,
                        table@[k].address,
                        table@[k].expected@.len() as usize,
                        #[trigger] all_copies[k],
                    ) by {
                        if k <= i {
                            assert(all_copies[k] == copies[k]);
                        } else {
                            assert(fingerprint_fault(table@[i as int], all[i as int]) is None);
                        }
                    }
                    assert forall|k: int| 0 <= k < i implies #[trigger] fingerprint_fault(table@[k], all[k]) is None by {
                        assert(all[k] == prefix[k]);
                    }
                    assert(first_fault_at(table@, all, i as int));
                    let c = choose|c: int| first_fault_at(table@, all, c);
                    lemma_first_fault_unique(table@, all, i as int, c);
                    assert(executable_verdict(table@, all) == Some(executable_fault_of(error)));
                    assert(all.len() == table@.len());
                }
                return Err(error);
            },
        }
        i = i + 1;
    }
    proof {
        if exists|c: int| first_fault_at(table@, reads, c) {
            let c = choose|c: int| first_fault_at(table@, reads, c);
            assert(fingerprint_fault(table@[c], reads[c]) is None);
        }
        assert(executable_verdict(table@, reads) is None);
        assert(reads.len() == table@.len());
        assert(table@.take(table@.len() as int) =~= table@);
    }
    Ok(())
}

/// Accepts only the executable whose every fingerprint matches, checking
/// them in order and naming the first that does not.
pub fn validate_executable<M: ProcessMemory>(memory: &M) -> (checked: Result<(), ExecutableError>)
    ensures
        exists|table: Seq<ExecutableSignature>, reads: Seq<Option<Seq<u8>>>, copies: Seq<Option<Seq<u8>>>| {
            &&& table.map_values(|s: ExecutableSignature| (s.address, s.expected@)) == executable_signature_table()
            &&& table.map_values(|s: ExecutableSignature| s.address) == signature_addresses()
            &&& forall|k: int| 0 <= k < table.len() ==> (#[trigger] table[k]).expected@.len() > 0
            &&& reads.len() == table.len()
            &&& copies.len() == table.len()
            &&& reads_of_copies(table, copies, reads)
            &&& copies_from_memory(memory, table, copies, reads)
            &&& match checked {
                Ok(()) => executable_verdict(table, reads) is None,
                Err(error) => executable_verdict(table, reads) == Some(executable_fault_of(error)),
            }
        },
        checked matches Err(ExecutableError::Unreadable { address, .. }) ==> signature_addresses().contains(address),
        checked matches Err(ExecutableError::Mismatch { address, .. }) ==> signature_addresses().contains(address),
        checked matches Err(ExecutableError::Mismatch { expected, found, .. }) ==> found@ != expected@
            && found@.len() == expected@.len() && expected@.len() > 0,
{
    let signatures = executable_signatures();
    let checked = check_executable(memory, &signatures);
    proof {
        let (reads, copies) = choose|reads: Seq<Option<Seq<u8>>>, copies: Seq<Option<Seq<u8>>>| {
            &&& reads.len() == signatures@.len()
            &&& copies.len() == signatures@.len()
            &&& reads_of_copies(signatures@, copies, reads)
            &&& copies_from_memory(memory, signatures@, copies, reads)
            &&& match checked {
                Ok(()) => executable_verdict(signatures@, reads) is None,
                Err(error) => executable_verdict(signatures@, reads) == Some(executable_fault_of(error)),
            }
        };
        if checked is Err {
            let c = choose|c: int| first_fault_at(signatures@, reads, c);
            assert(signature_addresses()[c] == signatures@[c].address);
            assert(signatures@[c].expected@.len() > 0);
        }
    }
    checked
}

/// The address of `CGame::Process`, the frame function Wardrobe hooks.
pub fn cgame_process_address() -> (address: usize)
    ensures
        address == ADDR_CGAME_PROCESS,
{
    ADDR_CGAME_PROCESS
}

/// GTA's model system is ready once the copy of `CTxdStore::ms_pTxdPool`
/// succeeded and holds a pool.
pub open spec fn txd_pool_ready(read: Option<usize>) -> bool {
    read matches Some(pool) && pool != 0
}

/// Judges the copy of `CTxdStore::ms_pTxdPool`.
pub fn txd_pool_ready_from(read: Option<usize>) -> (ready: bool)
    ensures
        ready == txd_pool_ready(read),
{
    match read {
        Some(pool) => pool != 0,
        None => false,
    }
}

/// Whether GTA's TXD pool exists yet: the pointer at `ADDR_MS_P_TXD_POOL`
/// is copied and judged by `txd_pool_ready_from`.
pub fn is_ready<M: ProcessMemory>(memory: &M) -> (ready: bool)
    ensures
        exists|copy: Option<Seq<u8>>|
            copy_from(memory, ADDR_MS_P_TXD_POOL, 4, copy) && ready == txd_pool_ready(pointer_verdict(ADDR_MS_P_TXD_POOL, copy)),
{
    let read: Option<usize> = read_pointer(memory, ADDR_MS_P_TXD_POOL);
    let ghost c = choose|copy: Option<Seq<u8>>|
        copy_from(memory, ADDR_MS_P_TXD_POOL, 4, copy) && read == pointer_verdict(ADDR_MS_P_TXD_POOL, copy);
    txd_pool_ready_from(read)
}

/// The model index of the ped at `ped`.
pub fn ped_model_id<M: ProcessMemory>(memory: &M, ped: usize) -> (model_id: Option<i16>)
    ensures
        ped + ENTITY_MODEL_INDEX > usize::MAX ==> model_id is None,
        exists|copy: Option<Seq<u8>>|
            field_copy_from(memory, ped, ENTITY_MODEL_INDEX, 2, copy) && model_id == field_value::<i16>(ped, ENTITY_MODEL_INDEX, copy),
{
    read_field::<i16, M>(memory, ped, ENTITY_MODEL_INDEX)
}

pub const FNV_OFFSET_BASIS: u64 = 0xcbf2_9ce4_8422_2325;
pub const FNV_PRIME: u64 = 0x0000_0100_0000_01B3;

/// The 64-bit FNV-1a hash of the first `n` bytes.
pub open spec fn fnv1a_prefix(bytes: Seq<u8>, n: nat) -> u64
    decreases n,
{
    if n == 0 {
        FNV_OFFSET_BASIS
    } else {
        (fnv1a_prefix(bytes, (n - 1) as nat) ^ (bytes[n - 1] as u64)).wrapping_mul(FNV_PRIME)
    }
}

/// A hash of a profile ID that is the same in every process, used to name
/// its TXD slot.
pub fn stable_name_hash(text: &str) -> (hash: u64)
    ensures
        hash == fnv1a_prefix(text.spec_bytes(), text.spec_bytes().len()),
{
    let bytes = text.as_bytes();
    let mut hash: u64 = FNV_OFFSET_BASIS;
    let mut i: usize = 0;
    while i < bytes.len()
        invariant
            i <= bytes@.len(),
            hash == fnv1a_prefix(bytes@, i as nat),
        decreases bytes@.len() - i,
    {
        hash = (hash ^ (bytes[i] as u64)).wrapping_mul(FNV_PRIME);
        i = i + 1;
    }
    hash
}

/// The fingerprint table is that of GTA SA 1.0 US: its PE header and each
/// fixed code target, at the address the supported executable has it, with
/// the bytes that executable holds there.
#[verifier::rlimit(40)]
pub proof fn lemma_supported_executable_fingerprints()
    ensures
        executable_signature_table().len() == 43,
        executable_signature_table()[0] == (0x400080usize, seq![0x50u8, 0x45, 0x00, 0x00, 0x4C, 0x01, 0x0B, 0x00, 0xCA, 0x01, 0x71, 0x42]),
        executable_signature_table()[1] == (0x53BEE0usize, seq![0x83u8, 0xEC, 0x0C, 0x53, 0x56, 0x57, 0xE8, 0xE5, 0x5E, 0x00, 0x00, 0xB9, 0x78, 0x29, 0xB7, 0x00]),
        executable_signature_table()[2] == (0x5E4880usize, seq![0x56u8, 0x8B, 0xF1, 0x81, 0x4E, 0x1C, 0x80, 0x00, 0x00, 0x00, 0x8B, 0x44, 0x24, 0x08, 0x57, 0x50]),
        executable_signature_table()[3] == (0x5DEBF0usize, seq![0xE9u8, 0x3B, 0x54, 0xF5, 0xFF, 0x90, 0x90, 0x90, 0x90, 0x90, 0x90, 0x90, 0x90, 0x90, 0x90, 0x90]),
        executable_signature_table()[4] == (0x533D30usize, seq![0x56u8, 0x8B, 0xF1, 0x8B, 0x46, 0x1C, 0x84, 0xC0, 0x0F, 0x89, 0x8E, 0x01, 0x00, 0x00, 0xF6, 0xC4]),
        executable_signature_table()[5] == (0x6338A0usize, seq![0x83u8, 0x7C, 0x24, 0x08, 0x02, 0x75, 0x29, 0x56, 0x57, 0x8D, 0x71, 0x08, 0xBF, 0x04, 0x00, 0x00]),
        executable_signature_table()[6] == (0x532B00usize, seq![0x8Bu8, 0x41, 0x18, 0x85, 0xC0, 0x74, 0x0A, 0x8B, 0x40, 0x04, 0x50, 0xE8, 0x00, 0xDE, 0x2B, 0x00]),
        executable_signature_table()[7] == (0x532B20usize, seq![0x56u8, 0x8B, 0xF1, 0x8B, 0x46, 0x18, 0x50, 0xE8, 0xF4, 0x1C, 0x20, 0x00, 0x83, 0xC4, 0x04, 0x85]),
        executable_signature_table()[8] == (0x733750usize, seq![0x8Bu8, 0x0D, 0x90, 0x60, 0x8D, 0x00, 0x56, 0x8B, 0x74, 0x24, 0x0C, 0x57, 0x8B, 0x7C, 0x24, 0x0C]),
        executable_signature_table()[9] == (0x4C4EF0usize, seq![0x8Bu8, 0x44, 0x24, 0x08, 0x85, 0xC0, 0x74, 0x11, 0x50, 0x8B, 0x44, 0x24, 0x08, 0x50, 0xE8, 0x1D]),
        executable_signature_table()[10] == (0x4C4F30usize, seq![0x56u8, 0x8B, 0x74, 0x24, 0x08, 0x56, 0xE8, 0x05, 0x30, 0x11, 0x00, 0x83, 0xC4, 0x04, 0x85, 0xC0]),
        executable_signature_table()[11] == (0x4C5280usize, seq![0x8Bu8, 0x44, 0x24, 0x08, 0x56, 0x8B, 0x74, 0x24, 0x08, 0x50, 0x56, 0xE8, 0x10, 0xD6, 0x26, 0x00]),
        executable_signature_table()[12] == (0x7335B0usize, seq![0x56u8, 0x57, 0x8B, 0x7C, 0x24, 0x0C, 0x8B, 0x77, 0x3C, 0x8B, 0x46, 0x04, 0x50, 0xE8, 0xCE, 0xD3]),
        executable_signature_table()[13] == (0x4C4DC0usize, seq![0x8Bu8, 0x44, 0x24, 0x04, 0x50, 0xE8, 0x56, 0xFA, 0x26, 0x00, 0x83, 0xC4, 0x04, 0x85, 0xC0, 0x74]),
        executable_signature_table()[14] == (0x734B10usize, seq![0x8Bu8, 0x44, 0x24, 0x04, 0x8B, 0x48, 0x04, 0x89, 0x4C, 0x24, 0x04, 0xE9, 0x90, 0xFF, 0xFF, 0xFF]),
        executable_signature_table()[15] == (0x734A40usize, seq![0x51u8, 0x8B, 0x4C, 0x24, 0x08, 0x8D, 0x44, 0x24, 0x00, 0x50, 0x68, 0x20, 0x4A, 0x73, 0x00, 0x51]),
        executable_signature_table()[16] == (0x4D60E0usize, seq![0x8Bu8, 0x44, 0x24, 0x04, 0x85, 0xC0, 0x75, 0x01, 0xC3, 0x56, 0x8B, 0x70, 0x04, 0x6A, 0x00, 0x6A]),
        executable_signature_table()[17] == (0x4D6720usize, seq![0x56u8, 0x8B, 0x74, 0x24, 0x08, 0x56, 0xE8, 0xF5, 0xE0, 0x25, 0x00, 0x83, 0xC4, 0x04, 0x85, 0xC0]),
        executable_signature_table()[18] == (0x4D64A0usize, seq![0xA1u8, 0x78, 0xF8, 0xB5, 0x00, 0x56, 0x8B, 0x74, 0x24, 0x08, 0x57, 0x8B, 0x3C, 0x30, 0x56, 0xE8]),
        executable_signature_table()[19] == (0x4D6BE0usize, seq![0x8Bu8, 0x0D, 0x78, 0xF8, 0xB5, 0x00, 0x8B, 0x44, 0x24, 0x04, 0x8B, 0x04, 0x01, 0x8B, 0x08, 0xC7]),
        executable_signature_table()[20] == (0x4D6C30usize, seq![0x8Bu8, 0x44, 0x24, 0x04, 0x8B, 0x0D, 0x78, 0xF8, 0xB5, 0x00, 0x57, 0x8B, 0x3C, 0x01, 0x8B, 0x07]),
        executable_signature_table()[21] == (0x749F70usize, seq![0x83u8, 0xEC, 0x14, 0x53, 0x55, 0x56, 0x57, 0xE8, 0x14, 0x03, 0x00, 0x00, 0x8B, 0xE8, 0x85, 0xED]),
        executable_signature_table()[22] == (0x74A310usize, seq![0x53u8, 0x55, 0x56, 0x8B, 0x74, 0x24, 0x10, 0x57, 0x56, 0x68, 0x64, 0x62, 0x8D, 0x00, 0xE8, 0x1D]),
        executable_signature_table()[23] == (0x749B70usize, seq![0x8Bu8, 0x44, 0x24, 0x04, 0x53, 0x55, 0x56, 0x57, 0x8D, 0x78, 0x08, 0x8B, 0x40, 0x08, 0x3B, 0xC7]),
        executable_signature_table()[24] == (0x734820usize, seq![0x51u8, 0x8B, 0x4C, 0x24, 0x08, 0x8D, 0x44, 0x24, 0x00, 0x50, 0x68, 0x10, 0x48, 0x73, 0x00, 0x51]),
        executable_signature_table()[25] == (0x7C7550usize, seq![0x8Bu8, 0x44, 0x24, 0x04, 0x8B, 0x0D, 0xA8, 0x78, 0xC9, 0x00, 0x8B, 0x04, 0x01, 0xC3, 0x90, 0x90]),
        executable_signature_table()[26] == (0x7C77F0usize, seq![0x8Bu8, 0x44, 0x24, 0x04, 0x8B, 0x40, 0x18, 0xC3, 0x90, 0x90, 0x90, 0x90, 0x90, 0x90, 0x90, 0x90]),
        executable_signature_table()[27] == (0x7C51A0usize, seq![0x8Bu8, 0x54, 0x24, 0x04, 0x56, 0x83, 0xC8, 0xFF, 0x8B, 0x72, 0x10, 0x8B, 0x52, 0x04, 0x33, 0xC9]),
        executable_signature_table()[28] == (0x7CD5A0usize, seq![0x53u8, 0x8B, 0x5C, 0x24, 0x0C, 0x55, 0x56, 0x8B, 0x74, 0x24, 0x10, 0x57, 0x33, 0xFF, 0x89, 0x1E]),
        executable_signature_table()[29] == (0x7CCF10usize, seq![0x8Bu8, 0x44, 0x24, 0x04, 0x8B, 0x0D, 0x24, 0x7B, 0xC9, 0x00, 0x50, 0xFF, 0x91, 0x38, 0x01, 0x00]),
        executable_signature_table()[30] == (0x7F0F70usize, seq![0x8Bu8, 0x44, 0x24, 0x0C, 0x8B, 0x4C, 0x24, 0x08, 0x56, 0x8B, 0x74, 0x24, 0x08, 0x50, 0x51, 0x8D]),
        executable_signature_table()[31] == (0x7ECEF0usize, seq![0xA1u8, 0x24, 0x7B, 0xC9, 0x00, 0x8B, 0x0D, 0x2C, 0x79, 0xC9, 0x00, 0x83, 0xEC, 0x20, 0x8B, 0x14]),
        executable_signature_table()[32] == (0x7ED2D0usize, seq![0x83u8, 0xEC, 0x0C, 0x8D, 0x44, 0x24, 0x04, 0x8D, 0x4C, 0x24, 0x10, 0x8D, 0x54, 0x24, 0x00, 0x56]),
        executable_signature_table()[33] == (0x74B420usize, seq![0x83u8, 0xEC, 0x44, 0x8D, 0x44, 0x24, 0x04, 0x8D, 0x4C, 0x24, 0x0C, 0x53, 0x55, 0x56, 0x57, 0x8B]),
        executable_signature_table()[34] == (0x7ECE20usize, seq![0x83u8, 0xEC, 0x08, 0x56, 0x8B, 0x74, 0x24, 0x10, 0x57, 0x8B, 0x06, 0x48, 0x83, 0xF8, 0x03, 0x0F]),
        executable_signature_table()[35] == (0x731C80usize, seq![0x8Bu8, 0x0D, 0x0C, 0x80, 0xC8, 0x00, 0x56, 0xE8, 0xF4, 0xFE, 0xFF, 0xFF, 0x8B, 0xF0, 0x8B, 0x44]),
        executable_signature_table()[36] == (0x7320B0usize, seq![0x8Bu8, 0x44, 0x24, 0x08, 0x90, 0xE9, 0xA7, 0x00, 0xCD, 0xFF, 0x50, 0x8D, 0x4C, 0x24, 0x04, 0x68]),
        executable_signature_table()[37] == (0x731A00usize, seq![0x8Bu8, 0x0D, 0x0C, 0x80, 0xC8, 0x00, 0x8B, 0x51, 0x04, 0x8B, 0x44, 0x24, 0x04, 0x80, 0x3C, 0x10]),
        executable_signature_table()[38] == (0x731A30usize, seq![0xA1u8, 0x0C, 0x80, 0xC8, 0x00, 0x8B, 0x50, 0x04, 0x8B, 0x4C, 0x24, 0x04, 0x80, 0x3C, 0x11, 0x00]),
        executable_signature_table()[39] == (0x731CD0usize, seq![0x8Bu8, 0x0D, 0x0C, 0x80, 0xC8, 0x00, 0x8B, 0x41, 0x04, 0x53, 0x56, 0x8B, 0x74, 0x24, 0x0C, 0x80]),
        executable_signature_table()[40] == (0x7316A0usize, seq![0xE8u8, 0xEB, 0x23, 0x0C, 0x00, 0xE9, 0xCE, 0x04, 0xCD, 0xFF, 0xC3, 0x90, 0x90, 0x90, 0x90, 0x90]),
        executable_signature_table()[41] == (0x7316B0usize, seq![0xA1u8, 0x10, 0x80, 0xC8, 0x00, 0x50, 0xE8, 0xB5, 0x23, 0x0C, 0x00, 0x83, 0xC4, 0x04, 0xC7, 0x05]),
        executable_signature_table()[42] == (0x7319C0usize, seq![0x8Bu8, 0x0D, 0x0C, 0x80, 0xC8, 0x00, 0x8B, 0x51, 0x04, 0x8B, 0x44, 0x24, 0x04, 0x80, 0x3C, 0x10]),
{
}

/// The GTA SA 1.0 US addresses and entity offsets the checks read, and the
/// standard 64-bit FNV-1a offset basis and prime of the stable name hash.
pub proof fn lemma_documented_constants()
    ensures
        ENTITY_MODEL_INDEX == 0x22,
        ENTITY_RW_OBJECT == 0x18,
        GTA_PE_HEADER == 0x400080,
        ADDR_CGAME_PROCESS == 0x53BEE0,
        ADDR_MS_P_TXD_POOL == 0xC8800C,
        ADDR_MS_MODEL_INFO_PTRS == 0xA9B0C8,
        ADDR_RWSTREAMOPEN == 0x7ECEF0,
        ADDR_RWSTREAMFINDCHUNK == 0x7ED2D0,
        ADDR_RPCLUMPSTREAMREAD == 0x74B420,
        ADDR_RWSTREAMCLOSE == 0x7ECE20,
        ADDR_CTXDSTORE_ADD_TXD_SLOT == 0x731C80,
        ADDR_CTXDSTORE_LOAD_TXD == 0x7320B0,
        ADDR_CTXDSTORE_ADD_REF == 0x731A00,
        ADDR_CTXDSTORE_REMOVE_REF == 0x731A30,
        ADDR_CTXDSTORE_REMOVE_TXD_SLOT == 0x731CD0,
        ADDR_CTXDSTORE_PUSHCURRENTTXD == 0x7316A0,
        ADDR_CTXDSTORE_POPCURRENTTXD == 0x7316B0,
        ADDR_CTXDSTORE_SETCURRENTTXD == 0x7319C0,
        ADDR_CPED_SET_MODEL_INDEX == 0x5E4880,
        ADDR_CPED_DELETE_RW_OBJECT == 0x5DEBF0,
        ADDR_CENTITY_CREATE_RW_OBJECT == 0x533D30,
        ADDR_CTASKSIMPLEIKMANAGER_MAKE_ABORTABLE == 0x6338A0,
        ADDR_CENTITY_UPDATE_RW_FRAME == 0x532B00,
        ADDR_CENTITY_UPDATE_RP_HANIM == 0x532B20,
        ADDR_CCLUMPMODELINFO_SET_HIERARCHY_FOR_SKIN_ATOMIC == 0x4C4EF0,
        ADDR_CCLUMPMODELINFO_ATOMIC_SETUP_LIGHTING_CB == 0x4C4F30,
        ADDR_CCLUMPMODELINFO_SET_ATOMIC_RENDERER_CB == 0x4C5280,
        ADDR_CVISIBILITYPLUGINS_RENDER_PED_CB == 0x7335B0,
        ADDR_CVISIBILITYPLUGINS_SET_CLUMP_MODEL_INFO == 0x733750,
        ADDR_IS_CLUMP_SKINNED == 0x4C4DC0,
        ADDR_GET_ANIM_HIERARCHY_FROM_CLUMP == 0x734B10,
        ADDR_GET_ANIM_HIERARCHY_FROM_SKIN_CLUMP == 0x734A40,
        ADDR_RPANIMBLEND_CREATE_ANIMATION_FOR_HIERARCHY == 0x4D60E0,
        ADDR_RPANIMBLEND_CLUMP_INIT == 0x4D6720,
        ADDR_RPANIMBLEND_CLUMP_FILL_FRAME_ARRAY == 0x4D64A0,
        ADDR_RPANIMBLEND_CLUMP_EXTRACT_ASSOCIATIONS == 0x4D6BE0,
        ADDR_RPANIMBLEND_CLUMP_GIVE_ASSOCIATIONS == 0x4D6C30,
        ADDR_RPCLUMP_CLONE == 0x749F70,
        ADDR_RPCLUMP_DESTROY == 0x74A310,
        ADDR_RPCLUMP_FOR_ALL_ATOMICS == 0x749B70,
        ADDR_GET_FIRST_ATOMIC == 0x734820,
        ADDR_RPSKIN_GEOMETRY_GET_SKIN == 0x7C7550,
        ADDR_RPSKIN_GET_VERTEX_BONE_WEIGHTS == 0x7C77F0,
        ADDR_RPHANIM_ID_GET_INDEX == 0x7C51A0,
        ADDR_RTANIM_INTERPOLATOR_SET_CURRENT_ANIM == 0x7CD5A0,
        ADDR_RTANIM_ANIMATION_DESTROY == 0x7CCF10,
        ADDR_RWFRAME_TRANSFORM == 0x7F0F70,
        ADDR_RPANIMBLEND_CLUMP_OFFSET == 0xB5F878,
        FNV_OFFSET_BASIS == 0xCBF29CE484222325,
        FNV_PRIME == 0x100000001B3,
{
}

/// The executable is accepted exactly when every fingerprint's copy holds
/// its expected bytes; otherwise the verdict names the first fingerprint
/// whose copy failed or differs, with its address and what was found.
pub proof fn lemma_executable_verdict(table: Seq<ExecutableSignature>, reads: Seq<Option<Seq<u8>>>)
    requires
        reads.len() == table.len(),
    ensures
        executable_verdict(table, reads) is None <==> forall|i: int|
            0 <= i < table.len() ==> #[trigger] reads[i] == Some(table[i].expected@),
        executable_verdict(table, reads) is Some ==> exists|i: int| {
            &&& 0 <= i < table.len()
            &&& reads[i] != Some(table[i].expected@)
            &&& forall|j: int| 0 <= j < i ==> #[trigger] reads[j] == Some(table[j].expected@)
            &&& match executable_verdict(table, reads) {
                Some(ExecutableFault::Unreadable { name, address }) => reads[i] is None && name == table[i].name
                    && address == table[i].address,
                Some(ExecutableFault::Mismatch { name, address, expected, found }) => reads[i] == Some(found)
                    && name == table[i].name && address == table[i].address && expected == table[i].expected@,
                None => false,
            }
        },
{
    if executable_verdict(table, reads) is None {
        lemma_accepted_executable_matches_every_fingerprint(table, reads);
    } else {
        let c = choose|c: int| first_fault_at(table, reads, c);
        assert forall|j: int| 0 <= j < c implies #[trigger] reads[j] == Some(table[j].expected@) by {
            assert(fingerprint_fault(table[j], reads[j]) is None);
        }
        assert(reads[c] != Some(table[c].expected@));
    }
    if forall|i: int| 0 <= i < table.len() ==> #[trigger] reads[i] == Some(table[i].expected@) {
        if exists|c: int| first_fault_at(table, reads, c) {
            let c = choose|c: int| first_fault_at(table, reads, c);
            assert(reads[c] == Some(table[c].expected@));
        }
    }
}

/// GTA's model system is ready exactly when the TXD pool pointer was read
/// and is not null.
pub proof fn lemma_txd_pool_ready(read: Option<usize>)
    ensures
        txd_pool_ready(read) <==> (read matches Some(pool) && pool != 0),
{
}

} // verus!
