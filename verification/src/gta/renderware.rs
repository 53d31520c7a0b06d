//! Checks on the RenderWare and CPed structures a skin swap reads before it
//! trusts them: hierarchy and AnimBlend frame counts, skinned geometry, the
//! secondary IK task, the ped's virtual `DeleteRwObject` and its model info.
//!
//! Each check reads game memory through copies that may fail. The verdict on
//! what was read is a function of its own, so what every outcome means is
//! stated exactly; the reading function states that its result is one of
//! those verdicts, whatever the copies returned.

use crate::gta::{PedRenderObject, ADDR_CPED_DELETE_RW_OBJECT, ADDR_MS_MODEL_INFO_PTRS, ADDR_RPANIMBLEND_CLUMP_OFFSET, ENTITY_RW_OBJECT};
use crate::memory::{
    copy_from, copy_verdict, field_address, field_copy_from, field_at, field_pointer, field_value, opt_bytes, pointer_verdict, read, read_bytes,
    read_field, read_field_pointer, read_pointer, value_verdict, ProcessMemory,
};
use crate::model_ids::{is_valid_model_id, valid_model_id};
use vstd::prelude::*;

verus! {

pub const RP_ATOMIC_GEOMETRY: usize = 0x18;
pub const RP_GEOMETRY_NUM_VERTICES: usize = 0x14;
pub const RP_GEOMETRY_MORPH_TARGET: usize = 0x5C;
pub const RP_MORPH_TARGET_BOUNDING_SPHERE_RADIUS: usize = 0x10;
/// One `RwMatrixWeights`: four `f32` bone weights.
pub const RW_MATRIX_WEIGHTS_SIZE: usize = 0x10;
pub const MAX_PED_GEOMETRY_VERTICES: i32 = 100000;
pub const RW_OBJECT_PARENT: usize = 0x04;
pub const RW_FRAME_MODELLING_MATRIX: usize = 0x10;
pub const RW_MATRIX_SIZE: usize = 0x40;
pub const HANIM_HIERARCHY_NODE_COUNT: usize = 0x04;
pub const HANIM_HIERARCHY_CURRENT_ANIM: usize = 0x20;
pub const ANIM_BLEND_DATA_FRAME_COUNT: usize = 0x08;
pub const ANIM_BLEND_DATA_PED_POSITION: usize = 0x0C;
/// GTA's ped skeletons have at most this many nodes.
pub const MAX_PED_NODES: i32 = 64;
pub const MIN_ANIM_BLEND_OFFSET: u32 = 0x20;
pub const MAX_ANIM_BLEND_OFFSET: u32 = 0x400;
pub const PED_INTELLIGENCE: usize = 0x47C;
pub const PED_INTELLIGENCE_SECONDARY_IK_TASK: usize = 0x2C;
pub const CTASKSIMPLEIKMANAGER_VTABLE: usize = 0x86E358;
pub const VTABLE_DELETE_RW_OBJECT_OFFSET: usize = 0x20;
pub const PED_BONE_ARRAY: usize = 0x488;
pub const PED_ANIM_MOVING_SHIFT_LOCAL: usize = 0x4D8;
/// `CPed::m_apBones` has this many entries; entry 0 is unused.
pub const PED_BONE_COUNT: usize = 19;
/// Model 7 is a vanilla `CPedModelInfo`; its vtable identifies ped models.
pub const KNOWN_PED_MODEL_ID: i32 = 7;

/// Why a RenderWare or CPed structure was not trusted.
#[derive(Clone, Copy, Debug, PartialEq, Eq, Structural)]
pub enum RenderWareError {
    UnreadableNodeCount,
    NodeCountOutOfRange,
    MissingBone,
    UnreadableAnimBlendOffset,
    AnimBlendOffsetOutOfRange,
    UnreadableAnimBlendData,
    NoAnimBlendData,
    UnreadableFrameCount,
    FrameCountOutOfRange,
    NoAtomic,
    UnreadableGeometry,
    NoGeometry,
    UnreadableVertexCount,
    VertexCountOutOfRange,
    InvalidWeightArray,
    WeightSizeOverflow,
    UnreadableWeights,
    UnreadableIntelligence,
    NoIntelligence,
    UnreadableIkTask,
    UnsupportedIkTask,
    UnreadableRenderObject,
    UnreadableVtable,
    UnreadableDeleteRwObject,
    NullDeleteRwObject,
    UnsupportedDeleteRwObject,
    RenderObjectNotCleared,
    UnverifiedDelete,
    UnreadableSourceFrame,
    UnreadableCloneFrame,
    NoRootFrame,
    UnreadableModellingMatrix,
    InvalidModelId,
    NoModelInfo,
    NoKnownPedModel,
    UnreadableModelVtable,
    UnreadableKnownPedVtable,
    NotPedModel,
    BoneFramesUnresolved,
    FrameCountMismatch,
}

/// The log text of each rejection.
pub open spec fn error_text(error: RenderWareError) -> Seq<char> {
    match error {
        RenderWareError::UnreadableNodeCount => "could not read the DFF hierarchy node count"@,
        RenderWareError::NodeCountOutOfRange => "DFF hierarchy node count is outside GTA's ped limit"@,
        RenderWareError::MissingBone => "DFF hierarchy is missing a required GTA ped bone"@,
        RenderWareError::UnreadableAnimBlendOffset => "could not read the AnimBlend clump-plugin offset"@,
        RenderWareError::AnimBlendOffsetOutOfRange => "AnimBlend clump-plugin offset is outside the expected range"@,
        RenderWareError::UnreadableAnimBlendData => "could not read the clump's AnimBlend data pointer"@,
        RenderWareError::NoAnimBlendData => "clump has no initialized AnimBlend data"@,
        RenderWareError::UnreadableFrameCount => "could not read the clump's AnimBlend frame count"@,
        RenderWareError::FrameCountOutOfRange => "clump AnimBlend frame count is outside GTA's ped limit"@,
        RenderWareError::NoAtomic => "DFF clump has no atomic"@,
        RenderWareError::UnreadableGeometry => "could not read the DFF atomic geometry"@,
        RenderWareError::NoGeometry => "DFF atomic has no geometry"@,
        RenderWareError::UnreadableVertexCount => "could not read the DFF geometry vertex count"@,
        RenderWareError::VertexCountOutOfRange => "DFF geometry vertex count is outside the supported range"@,
        RenderWareError::InvalidWeightArray => "DFF skin has an invalid vertex-weight array"@,
        RenderWareError::WeightSizeOverflow => "DFF skin vertex-weight size overflowed"@,
        RenderWareError::UnreadableWeights => "could not read the DFF skin vertex weights"@,
        RenderWareError::UnreadableIntelligence => "could not read the ped intelligence pointer"@,
        RenderWareError::NoIntelligence => "ped has no intelligence object"@,
        RenderWareError::UnreadableIkTask => "could not read the ped's secondary IK task"@,
        RenderWareError::UnsupportedIkTask => "ped has an unsupported task in the secondary IK slot"@,
        RenderWareError::UnreadableRenderObject => "could not read the ped's current render object"@,
        RenderWareError::UnreadableVtable => "could not read the ped vtable"@,
        RenderWareError::UnreadableDeleteRwObject => "could not read CEntity::DeleteRwObject from the ped vtable"@,
        RenderWareError::NullDeleteRwObject => "CEntity::DeleteRwObject is null in the ped vtable"@,
        RenderWareError::UnsupportedDeleteRwObject => "ped vtable has an unsupported CEntity::DeleteRwObject target"@,
        RenderWareError::RenderObjectNotCleared => "CEntity::DeleteRwObject did not clear the ped render object"@,
        RenderWareError::UnverifiedDelete => "could not verify CEntity::DeleteRwObject completion"@,
        RenderWareError::UnreadableSourceFrame => "could not read the temporary server clump's root frame"@,
        RenderWareError::UnreadableCloneFrame => "could not read the skin-source clone's root frame"@,
        RenderWareError::NoRootFrame => "a replacement clump has no root frame"@,
        RenderWareError::UnreadableModellingMatrix => "could not read the temporary server clump's modeling matrix"@,
        RenderWareError::InvalidModelId => "is outside the valid GTA model range"@,
        RenderWareError::NoModelInfo => "is not available in GTA's model-info table"@,
        RenderWareError::NoKnownPedModel => "cannot be type-checked because GTA's known ped model is unavailable"@,
        RenderWareError::UnreadableModelVtable => "has an unreadable model-info vtable"@,
        RenderWareError::UnreadableKnownPedVtable => "cannot be type-checked because GTA's known ped vtable is unreadable"@,
        RenderWareError::NotPedModel => "is not a CPedModelInfo ped model"@,
        RenderWareError::BoneFramesUnresolved => "AnimBlend did not resolve every required CPed bone frame"@,
        RenderWareError::FrameCountMismatch => "skin bone count differs from its animation hierarchy node count"@,
    }
}

impl RenderWareError {
    pub fn message(&self) -> (text: &'static str)
        ensures
            text@ == error_text(*self),
    {
        let text = match self {
            RenderWareError::UnreadableNodeCount => "could not read the DFF hierarchy node count",
            RenderWareError::NodeCountOutOfRange => "DFF hierarchy node count is outside GTA's ped limit",
            RenderWareError::MissingBone => "DFF hierarchy is missing a required GTA ped bone",
            RenderWareError::UnreadableAnimBlendOffset => "could not read the AnimBlend clump-plugin offset",
            RenderWareError::AnimBlendOffsetOutOfRange => "AnimBlend clump-plugin offset is outside the expected range",
            RenderWareError::UnreadableAnimBlendData => "could not read the clump's AnimBlend data pointer",
            RenderWareError::NoAnimBlendData => "clump has no initialized AnimBlend data",
            RenderWareError::UnreadableFrameCount => "could not read the clump's AnimBlend frame count",
            RenderWareError::FrameCountOutOfRange => "clump AnimBlend frame count is outside GTA's ped limit",
            RenderWareError::NoAtomic => "DFF clump has no atomic",
            RenderWareError::UnreadableGeometry => "could not read the DFF atomic geometry",
            RenderWareError::NoGeometry => "DFF atomic has no geometry",
            RenderWareError::UnreadableVertexCount => "could not read the DFF geometry vertex count",
            RenderWareError::VertexCountOutOfRange => "DFF geometry vertex count is outside the supported range",
            RenderWareError::InvalidWeightArray => "DFF skin has an invalid vertex-weight array",
            RenderWareError::WeightSizeOverflow => "DFF skin vertex-weight size overflowed",
            RenderWareError::UnreadableWeights => "could not read the DFF skin vertex weights",
            RenderWareError::UnreadableIntelligence => "could not read the ped intelligence pointer",
            RenderWareError::NoIntelligence => "ped has no intelligence object",
            RenderWareError::UnreadableIkTask => "could not read the ped's secondary IK task",
            RenderWareError::UnsupportedIkTask => "ped has an unsupported task in the secondary IK slot",
            RenderWareError::UnreadableRenderObject => "could not read the ped's current render object",
            RenderWareError::UnreadableVtable => "could not read the ped vtable",
            RenderWareError::UnreadableDeleteRwObject => "could not read CEntity::DeleteRwObject from the ped vtable",
            RenderWareError::NullDeleteRwObject => "CEntity::DeleteRwObject is null in the ped vtable",
            RenderWareError::UnsupportedDeleteRwObject => "ped vtable has an unsupported CEntity::DeleteRwObject target",
            RenderWareError::RenderObjectNotCleared => "CEntity::DeleteRwObject did not clear the ped render object",
            RenderWareError::UnverifiedDelete => "could not verify CEntity::DeleteRwObject completion",
            RenderWareError::UnreadableSourceFrame => "could not read the temporary server clump's root frame",
            RenderWareError::UnreadableCloneFrame => "could not read the skin-source clone's root frame",
            RenderWareError::NoRootFrame => "a replacement clump has no root frame",
            RenderWareError::UnreadableModellingMatrix => "could not read the temporary server clump's modeling matrix",
            RenderWareError::InvalidModelId => "is outside the valid GTA model range",
            RenderWareError::NoModelInfo => "is not available in GTA's model-info table",
            RenderWareError::NoKnownPedModel => "cannot be type-checked because GTA's known ped model is unavailable",
            RenderWareError::UnreadableModelVtable => "has an unreadable model-info vtable",
            RenderWareError::UnreadableKnownPedVtable => "cannot be type-checked because GTA's known ped vtable is unreadable",
            RenderWareError::NotPedModel => "is not a CPedModelInfo ped model",
            RenderWareError::BoneFramesUnresolved => "AnimBlend did not resolve every required CPed bone frame",
            RenderWareError::FrameCountMismatch => "skin bone count differs from its animation hierarchy node count",
        };
        text
    }
}

// ----- hierarchy node count -----

pub open spec fn node_count_verdict(read: Option<i32>) -> Result<i32, RenderWareError> {
    match read {
        None => Err(RenderWareError::UnreadableNodeCount),
        Some(n) => if 1 <= n <= MAX_PED_NODES {
            Ok(n)
        } else {
            Err(RenderWareError::NodeCountOutOfRange)
        },
    }
}

/// Accepts a hierarchy node count within GTA's ped limit.
pub fn check_node_count(read: Option<i32>) -> (verdict: Result<i32, RenderWareError>)
    ensures
        verdict == node_count_verdict(read),
{
    match read {
        None => Err(RenderWareError::UnreadableNodeCount),
        Some(n) => if 1 <= n && n <= MAX_PED_NODES {
            Ok(n)
        } else {
            Err(RenderWareError::NodeCountOutOfRange)
        },
    }
}

/// Reads and checks the node count of the animation hierarchy at `hierarchy`.
pub fn hierarchy_node_count<M: ProcessMemory>(memory: &M, hierarchy: usize) -> (count: Result<i32, RenderWareError>)
    ensures
        exists|copy: Option<Seq<u8>>|
            field_copy_from(memory, hierarchy, HANIM_HIERARCHY_NODE_COUNT, 4, copy)
            && count == node_count_verdict(field_value::<i32>(hierarchy, HANIM_HIERARCHY_NODE_COUNT, copy)),
        field_address(hierarchy, HANIM_HIERARCHY_NODE_COUNT) is None ==> count == node_count_verdict(None),
{
    let read_count: Option<i32> = read_field::<i32, M>(memory, hierarchy, HANIM_HIERARCHY_NODE_COUNT);
    let ghost c = choose|copy: Option<Seq<u8>>|
        field_copy_from(memory, hierarchy, HANIM_HIERARCHY_NODE_COUNT, 4, copy)
        && read_count == field_value::<i32>(hierarchy, HANIM_HIERARCHY_NODE_COUNT, copy);
    check_node_count(read_count)
}

// ----- required bones -----

/// `ConvertPedNode2BoneTag` for `CPed::m_apBones[1..19]`.
pub open spec fn required_ped_bone_tags_spec() -> Seq<i32> {
    seq![3i32, 5, 32, 22, 34, 24, 41, 51, 43, 53, 52, 42, 33, 23, 31, 21, 4, 8]
}

/// The bone tags a DFF hierarchy must resolve before AnimBlend may fill the
/// ped's bone array.
pub fn required_ped_bone_tags() -> (tags: Vec<i32>)
    ensures
        tags@ == required_ped_bone_tags_spec(),
{
    let tags = vec![3i32, 5, 32, 22, 34, 24, 41, 51, 43, 53, 52, 42, 33, 23, 31, 21, 4, 8];
    assert(tags@ =~= required_ped_bone_tags_spec());
    tags
}

/// Every index that `RpHAnimIDGetIndex` returned for the required tags lies
/// inside the hierarchy.
pub open spec fn bones_resolved(indices: Seq<i32>, node_count: i32) -> bool {
    &&& indices.len() == required_ped_bone_tags_spec().len()
    &&& forall|k: int| 0 <= k < indices.len() ==> 0 <= #[trigger] indices[k] < node_count
}

/// Checks the hierarchy indices of the required bone tags, in tag order.
pub fn check_required_bones(indices: &[i32], node_count: i32) -> (verdict: Result<(), RenderWareError>)
    ensures
        verdict is Ok <==> bones_resolved(indices@, node_count),
        verdict matches Err(e) ==> e == RenderWareError::MissingBone,
{
    if indices.len() != 18 {
        return Err(RenderWareError::MissingBone);
    }
    let mut k: usize = 0;
    while k < indices.len()
        invariant
            k <= indices@.len(),
            forall|j: int| 0 <= j < k ==> 0 <= #[trigger] indices@[j] < node_count,
        decreases indices@.len() - k,
    {
        if indices[k] < 0 || indices[k] >= node_count {
            return Err(RenderWareError::MissingBone);
        }
        k = k + 1;
    }
    Ok(())
}

/// `RpAnimBlendClumpFillFrameArray` resolved every bone but the unused first.
pub open spec fn bone_frames_resolved(frames: Seq<usize>) -> bool {
    &&& frames.len() == PED_BONE_COUNT
    &&& forall|k: int| 1 <= k < frames.len() ==> #[trigger] frames[k] != 0
}

pub fn check_bone_frames(frames: &[usize]) -> (verdict: Result<(), RenderWareError>)
    ensures
        verdict is Ok <==> bone_frames_resolved(frames@),
        verdict matches Err(e) ==> e == RenderWareError::BoneFramesUnresolved,
{
    if frames.len() != PED_BONE_COUNT {
        return Err(RenderWareError::BoneFramesUnresolved);
    }
    let mut k: usize = 1;
    while k < frames.len()
        invariant
            1 <= k <= frames@.len(),
            frames@.len() == PED_BONE_COUNT,
            forall|j: int| 1 <= j < k ==> #[trigger] frames@[j] != 0,
        decreases frames@.len() - k,
    {
        if frames[k] == 0 {
            return Err(RenderWareError::BoneFramesUnresolved);
        }
        k = k + 1;
    }
    Ok(())
}

/// AnimBlend must see exactly the hierarchy's nodes.
pub fn check_frame_count_matches(frame_count: u32, node_count: i32) -> (verdict: Result<(), RenderWareError>)
    ensures
        verdict is Ok <==> frame_count == node_count,
        verdict matches Err(e) ==> e == RenderWareError::FrameCountMismatch,
{
    if node_count >= 0 && frame_count as i64 == node_count as i64 {
        Ok(())
    } else {
        Err(RenderWareError::FrameCountMismatch)
    }
}

// ----- AnimBlend data -----

pub open spec fn anim_blend_offset_verdict(read: Option<u32>) -> Result<u32, RenderWareError> {
    match read {
        None => Err(RenderWareError::UnreadableAnimBlendOffset),
        Some(o) => if MIN_ANIM_BLEND_OFFSET <= o <= MAX_ANIM_BLEND_OFFSET {
            Ok(o)
        } else {
            Err(RenderWareError::AnimBlendOffsetOutOfRange)
        },
    }
}

pub open spec fn anim_blend_data_verdict(read: Option<usize>) -> Result<usize, RenderWareError> {
    match read {
        None => Err(RenderWareError::UnreadableAnimBlendData),
        Some(p) => if p == 0 {
            Err(RenderWareError::NoAnimBlendData)
        } else {
            Ok(p)
        },
    }
}

/// The AnimBlend data of `clump`: the plugin offset is read and range-checked
/// first, then the data pointer at that offset.
pub open spec fn anim_blend_verdict(clump: usize, offset: Option<u32>, data: Option<usize>) -> Result<usize, RenderWareError> {
    match anim_blend_offset_verdict(offset) {
        Err(e) => Err(e),
        Ok(o) => match field_address(clump, o as usize) {
            None => Err(RenderWareError::UnreadableAnimBlendData),
            Some(_) => anim_blend_data_verdict(data),
        },
    }
}

pub fn check_anim_blend(clump: usize, offset: Option<u32>, data: Option<usize>) -> (verdict: Result<usize, RenderWareError>)
    ensures
        verdict == anim_blend_verdict(clump, offset, data),
{
    let o = match offset {
        None => {
            return Err(RenderWareError::UnreadableAnimBlendOffset);
        },
        Some(o) => o,
    };
    if o < MIN_ANIM_BLEND_OFFSET || o > MAX_ANIM_BLEND_OFFSET {
        return Err(RenderWareError::AnimBlendOffsetOutOfRange);
    }
    if field_at(clump, o as usize).is_none() {
        return Err(RenderWareError::UnreadableAnimBlendData);
    }
    match data {
        None => Err(RenderWareError::UnreadableAnimBlendData),
        Some(p) => if p == 0 {
            Err(RenderWareError::NoAnimBlendData)
        } else {
            Ok(p)
        },
    }
}

/// The AnimBlend plugin offset that a copy of GTA's global gives.
pub open spec fn anim_blend_offset_read(copy: Option<Seq<u8>>) -> Option<u32> {
    value_verdict::<u32>(ADDR_RPANIMBLEND_CLUMP_OFFSET, copy)
}

/// The data pointer that a copy made at the plugin offset into `clump`
/// gives.
pub open spec fn anim_blend_pointer_read(clump: usize, offset: Option<u32>, copy: Option<Seq<u8>>) -> Option<usize> {
    match offset {
        Some(o) => field_pointer(clump, o as usize, copy),
        None => None,
    }
}

/// The AnimBlend verdict for the copies of the plugin offset and of the
/// data pointer it locates.
pub open spec fn anim_blend_copies_verdict(clump: usize, offset_copy: Option<Seq<u8>>, pointer_copy: Option<Seq<u8>>) -> Result<usize, RenderWareError> {
    anim_blend_verdict(
        clump,
        anim_blend_offset_read(offset_copy),
        anim_blend_pointer_read(clump, anim_blend_offset_read(offset_copy), pointer_copy),
    )
}

/// The copies that locating a clump's AnimBlend data asks `memory` for:
/// the plugin offset, and the data pointer only where that offset is in
/// range.
pub open spec fn anim_blend_copies_from<M: ProcessMemory>(memory: &M, clump: usize, offset_copy: Option<Seq<u8>>, pointer_copy: Option<Seq<u8>>) -> bool {
    &&& copy_from(memory, ADDR_RPANIMBLEND_CLUMP_OFFSET, 4, offset_copy)
    &&& match anim_blend_offset_read(offset_copy) {
        Some(o) => MIN_ANIM_BLEND_OFFSET <= o <= MAX_ANIM_BLEND_OFFSET ==> field_copy_from(memory, clump, o as usize, 4, pointer_copy),
        None => true,
    }
}

/// The two copies that locate a clump's AnimBlend data: the plugin offset,
/// and the data pointer at that offset where the offset is in range.
fn anim_blend_reads<M: ProcessMemory>(memory: &M, clump: usize) -> (reads: (Option<u32>, Option<usize>))
    ensures
        exists|offset_copy: Option<Seq<u8>>, pointer_copy: Option<Seq<u8>>|
            anim_blend_copies_from(memory, clump, offset_copy, pointer_copy)
            && reads.0 == anim_blend_offset_read(offset_copy)
            && anim_blend_verdict(clump, reads.0, reads.1) == anim_blend_copies_verdict(clump, offset_copy, pointer_copy),
{
    let offset: Option<u32> = read::<u32, M>(memory, ADDR_RPANIMBLEND_CLUMP_OFFSET);
    let ghost co = choose|copy: Option<Seq<u8>>|
        copy_from(memory, ADDR_RPANIMBLEND_CLUMP_OFFSET, 4, copy) && offset == value_verdict::<u32>(ADDR_RPANIMBLEND_CLUMP_OFFSET, copy);
    let ghost mut cp: Option<Seq<u8>> = None;
    let pointer: Option<usize> = match offset {
        Some(o) => if MIN_ANIM_BLEND_OFFSET <= o && o <= MAX_ANIM_BLEND_OFFSET {
            let at: usize = o as usize;
            let p = read_field_pointer(memory, clump, at);
            proof {
                cp = choose|copy: Option<Seq<u8>>| field_copy_from(memory, clump, at, 4, copy) && p == field_pointer(clump, at, copy);
            }
            p
        } else {
            None
        },
        None => None,
    };
    assert(offset == anim_blend_offset_read(co));
    assert(anim_blend_verdict(clump, offset, pointer) == anim_blend_copies_verdict(clump, co, cp));
    assert(anim_blend_copies_from(memory, clump, co, cp));
    (offset, pointer)
}

/// Reads the AnimBlend data pointer of `clump`.
pub fn anim_blend_data<M: ProcessMemory>(memory: &M, clump: usize) -> (data: Result<usize, RenderWareError>)
    ensures
        exists|offset_copy: Option<Seq<u8>>, pointer_copy: Option<Seq<u8>>|
            anim_blend_copies_from(memory, clump, offset_copy, pointer_copy)
            && data == anim_blend_copies_verdict(clump, offset_copy, pointer_copy),
{
    let (offset, pointer) = anim_blend_reads(memory, clump);
    check_anim_blend(clump, offset, pointer)
}

pub open spec fn frame_count_verdict(read: Option<u32>) -> Result<u32, RenderWareError> {
    match read {
        None => Err(RenderWareError::UnreadableFrameCount),
        Some(n) => if 1 <= n <= 64 {
            Ok(n)
        } else {
            Err(RenderWareError::FrameCountOutOfRange)
        },
    }
}

pub fn check_frame_count(read: Option<u32>) -> (verdict: Result<u32, RenderWareError>)
    ensures
        verdict == frame_count_verdict(read),
{
    match read {
        None => Err(RenderWareError::UnreadableFrameCount),
        Some(n) => if 1 <= n && n <= 64 {
            Ok(n)
        } else {
            Err(RenderWareError::FrameCountOutOfRange)
        },
    }
}

/// Reads and checks the frame count of AnimBlend data.
pub fn anim_blend_frame_count_from_data<M: ProcessMemory>(memory: &M, data: usize) -> (count: Result<u32, RenderWareError>)
    ensures
        exists|copy: Option<Seq<u8>>|
            field_copy_from(memory, data, ANIM_BLEND_DATA_FRAME_COUNT, 4, copy)
            && count == frame_count_verdict(field_value::<u32>(data, ANIM_BLEND_DATA_FRAME_COUNT, copy)),
{
    let read_count = read_field::<u32, M>(memory, data, ANIM_BLEND_DATA_FRAME_COUNT);
    let ghost c = choose|copy: Option<Seq<u8>>|
        field_copy_from(memory, data, ANIM_BLEND_DATA_FRAME_COUNT, 4, copy)
        && read_count == field_value::<u32>(data, ANIM_BLEND_DATA_FRAME_COUNT, copy);
    check_frame_count(read_count)
}

/// The frame count of a clump: its AnimBlend data must be found first, and
/// the count is read from that data.
pub open spec fn clump_frame_count_verdict(
    clump: usize,
    offset_copy: Option<Seq<u8>>,
    pointer_copy: Option<Seq<u8>>,
    count_copy: Option<Seq<u8>>,
) -> Result<u32, RenderWareError> {
    match anim_blend_copies_verdict(clump, offset_copy, pointer_copy) {
        Err(e) => Err(e),
        Ok(data) => frame_count_verdict(field_value::<u32>(data, ANIM_BLEND_DATA_FRAME_COUNT, count_copy)),
    }
}

/// The copies that reading a clump's frame count asks `memory` for: those
/// that locate its AnimBlend data, then the count in that data once found.
pub open spec fn clump_frame_count_copies_from<M: ProcessMemory>(
    memory: &M,
    clump: usize,
    offset_copy: Option<Seq<u8>>,
    pointer_copy: Option<Seq<u8>>,
    count_copy: Option<Seq<u8>>,
) -> bool {
    &&& anim_blend_copies_from(memory, clump, offset_copy, pointer_copy)
    &&& match anim_blend_copies_verdict(clump, offset_copy, pointer_copy) {
        Ok(data) => field_copy_from(memory, data, ANIM_BLEND_DATA_FRAME_COUNT, 4, count_copy),
        Err(_) => true,
    }
}

/// Reads the AnimBlend frame count of `clump`.
pub fn anim_blend_frame_count<M: ProcessMemory>(memory: &M, clump: usize) -> (count: Result<u32, RenderWareError>)
    ensures
        exists|offset_copy: Option<Seq<u8>>, pointer_copy: Option<Seq<u8>>, count_copy: Option<Seq<u8>>|
            clump_frame_count_copies_from(memory, clump, offset_copy, pointer_copy, count_copy)
            && count == clump_frame_count_verdict(clump, offset_copy, pointer_copy, count_copy),
{
    let (offset, pointer) = anim_blend_reads(memory, clump);
    let ghost co = choose|offset_copy: Option<Seq<u8>>, pointer_copy: Option<Seq<u8>>|
        anim_blend_copies_from(memory, clump, offset_copy, pointer_copy)
        && offset == anim_blend_offset_read(offset_copy)
        && anim_blend_verdict(clump, offset, pointer) == anim_blend_copies_verdict(clump, offset_copy, pointer_copy);
    match check_anim_blend(clump, offset, pointer) {
        Err(e) => {
            assert(count_is(Err(e), clump_frame_count_verdict(clump, co.0, co.1, None)));
            assert(clump_frame_count_copies_from(memory, clump, co.0, co.1, None));
            Err(e)
        },
        Ok(data) => {
            let read_count = read_field::<u32, M>(memory, data, ANIM_BLEND_DATA_FRAME_COUNT);
            let ghost cc = choose|copy: Option<Seq<u8>>|
                field_copy_from(memory, data, ANIM_BLEND_DATA_FRAME_COUNT, 4, copy)
                && read_count == field_value::<u32>(data, ANIM_BLEND_DATA_FRAME_COUNT, copy);
            let count = check_frame_count(read_count);
            assert(count_is(count, clump_frame_count_verdict(clump, co.0, co.1, cc)));
            assert(clump_frame_count_copies_from(memory, clump, co.0, co.1, cc));
            count
        },
    }
}

spec fn count_is(a: Result<u32, RenderWareError>, b: Result<u32, RenderWareError>) -> bool {
    a == b
}

// ----- skinned geometry -----

pub open spec fn geometry_verdict(atomic: usize, read: Option<usize>) -> Result<usize, RenderWareError> {
    if atomic == 0 {
        Err(RenderWareError::NoAtomic)
    } else {
        match read {
            None => Err(RenderWareError::UnreadableGeometry),
            Some(g) => if g == 0 {
                Err(RenderWareError::NoGeometry)
            } else {
                Ok(g)
            },
        }
    }
}

pub fn check_geometry(atomic: usize, read: Option<usize>) -> (verdict: Result<usize, RenderWareError>)
    ensures
        verdict == geometry_verdict(atomic, read),
{
    if atomic == 0 {
        return Err(RenderWareError::NoAtomic);
    }
    match read {
        None => Err(RenderWareError::UnreadableGeometry),
        Some(g) => if g == 0 {
            Err(RenderWareError::NoGeometry)
        } else {
            Ok(g)
        },
    }
}

/// Reads the geometry of the clump's first atomic, which `GetFirstAtomic`
/// returned.
pub fn atomic_geometry<M: ProcessMemory>(memory: &M, atomic: usize) -> (geometry: Result<usize, RenderWareError>)
    ensures
        exists|copy: Option<Seq<u8>>|
            (atomic != 0 ==> field_copy_from(memory, atomic, RP_ATOMIC_GEOMETRY, 4, copy))
            && geometry == geometry_verdict(atomic, field_pointer(atomic, RP_ATOMIC_GEOMETRY, copy)),
        atomic == 0 ==> geometry == Err::<usize, RenderWareError>(RenderWareError::NoAtomic),
{
    if atomic == 0 {
        assert(geometry_verdict(atomic, field_pointer(atomic, RP_ATOMIC_GEOMETRY, None)) == geometry_verdict(atomic, None));
        return check_geometry(atomic, None);
    }
    let read_geometry: Option<usize> = read_field_pointer(memory, atomic, RP_ATOMIC_GEOMETRY);
    let ghost c = choose|copy: Option<Seq<u8>>|
        field_copy_from(memory, atomic, RP_ATOMIC_GEOMETRY, 4, copy) && read_geometry == field_pointer(atomic, RP_ATOMIC_GEOMETRY, copy);
    check_geometry(atomic, read_geometry)
}

/// The identity of the clump a ped holds: the null clump is the null
/// object; any other needs an atomic with a geometry.
pub open spec fn identity_verdict(clump: usize, atomic: usize, read: Option<usize>) -> Option<(usize, usize)> {
    if clump == 0 {
        Some((0usize, 0usize))
    } else {
        match geometry_verdict(atomic, read) {
            Ok(g) => Some((clump, g)),
            Err(_) => None,
        }
    }
}

/// Identifies `clump`, whose first atomic `GetFirstAtomic` returned.
pub fn render_object_identity<M: ProcessMemory>(memory: &M, clump: usize, atomic: usize) -> (identity: Option<PedRenderObject>)
    ensures
        exists|copy: Option<Seq<u8>>|
            (clump != 0 && atomic != 0 ==> field_copy_from(memory, atomic, RP_ATOMIC_GEOMETRY, 4, copy))
            && identity_matches(identity, identity_verdict(clump, atomic, field_pointer(atomic, RP_ATOMIC_GEOMETRY, copy))),
        clump == 0 ==> (identity matches Some(o) && o.address_spec() == 0 && o.geometry_spec() == 0),
{
    if clump == 0 {
        let object = PedRenderObject::new(0, 0);
        assert(identity_matches(Some(object), identity_verdict(clump, atomic, field_pointer(atomic, RP_ATOMIC_GEOMETRY, None))));
        return Some(object);
    }
    let ghost mut c: Option<Seq<u8>> = None;
    let read_geometry: Option<usize> = if atomic == 0 {
        None
    } else {
        let pointer = read_field_pointer(memory, atomic, RP_ATOMIC_GEOMETRY);
        proof {
            c = choose|copy: Option<Seq<u8>>|
                field_copy_from(memory, atomic, RP_ATOMIC_GEOMETRY, 4, copy) && pointer == field_pointer(atomic, RP_ATOMIC_GEOMETRY, copy);
        }
        pointer
    };
    let identity = match check_geometry(atomic, read_geometry) {
        Ok(geometry) => Some(PedRenderObject::new(clump, geometry)),
        Err(_) => None,
    };
    assert(identity_verdict(clump, atomic, read_geometry) == identity_verdict(clump, atomic, field_pointer(atomic, RP_ATOMIC_GEOMETRY, c)));
    assert(identity_matches(identity, identity_verdict(clump, atomic, field_pointer(atomic, RP_ATOMIC_GEOMETRY, c))));
    identity
}

/// A render-object identity carries the clump and geometry the verdict names.
pub open spec fn identity_matches(identity: Option<PedRenderObject>, verdict: Option<(usize, usize)>) -> bool {
    match verdict {
        Some((a, g)) => identity matches Some(o) && o.address_spec() == a && o.geometry_spec() == g,
        None => identity is None,
    }
}

pub open spec fn vertex_count_verdict(read: Option<i32>) -> Result<i32, RenderWareError> {
    match read {
        None => Err(RenderWareError::UnreadableVertexCount),
        Some(n) => if 1 <= n <= MAX_PED_GEOMETRY_VERTICES {
            Ok(n)
        } else {
            Err(RenderWareError::VertexCountOutOfRange)
        },
    }
}

pub fn check_vertex_count(read: Option<i32>) -> (verdict: Result<i32, RenderWareError>)
    ensures
        verdict == vertex_count_verdict(read),
{
    match read {
        None => Err(RenderWareError::UnreadableVertexCount),
        Some(n) => if 1 <= n && n <= MAX_PED_GEOMETRY_VERTICES {
            Ok(n)
        } else {
            Err(RenderWareError::VertexCountOutOfRange)
        },
    }
}

/// Reads and checks the vertex count of `geometry`.
pub fn geometry_vertex_count<M: ProcessMemory>(memory: &M, geometry: usize) -> (count: Result<i32, RenderWareError>)
    ensures
        exists|copy: Option<Seq<u8>>|
            field_copy_from(memory, geometry, RP_GEOMETRY_NUM_VERTICES, 4, copy)
            && count == vertex_count_verdict(field_value::<i32>(geometry, RP_GEOMETRY_NUM_VERTICES, copy)),
{
    let read_count: Option<i32> = read_field::<i32, M>(memory, geometry, RP_GEOMETRY_NUM_VERTICES);
    let ghost c = choose|copy: Option<Seq<u8>>|
        field_copy_from(memory, geometry, RP_GEOMETRY_NUM_VERTICES, 4, copy)
        && read_count == field_value::<i32>(geometry, RP_GEOMETRY_NUM_VERTICES, copy);
    check_vertex_count(read_count)
}

/// The byte size of `vertex_count` weight records, where it fits.
pub open spec fn weights_size_verdict(weights: usize, vertex_count: i32) -> Result<usize, RenderWareError> {
    if weights == 0 || weights % 4 != 0 {
        Err(RenderWareError::InvalidWeightArray)
    } else if vertex_count < 0 || vertex_count * RW_MATRIX_WEIGHTS_SIZE > usize::MAX {
        Err(RenderWareError::WeightSizeOverflow)
    } else {
        Ok((vertex_count * RW_MATRIX_WEIGHTS_SIZE) as usize)
    }
}

/// Checks the weight array `RpSkinGetVertexBoneWeights` returned: non-null,
/// `f32`-aligned, and of a size that fits.
pub fn weights_size(weights: usize, vertex_count: i32) -> (size: Result<usize, RenderWareError>)
    ensures
        size == weights_size_verdict(weights, vertex_count),
{
    if weights == 0 || weights % 4 != 0 {
        return Err(RenderWareError::InvalidWeightArray);
    }
    if vertex_count < 0 {
        return Err(RenderWareError::WeightSizeOverflow);
    }
    let count = vertex_count as usize;
    match count.checked_mul(RW_MATRIX_WEIGHTS_SIZE) {
        Some(size) => Ok(size),
        None => Err(RenderWareError::WeightSizeOverflow),
    }
}

/// Copies the skin's vertex weights for normalisation.
pub fn vertex_weight_bytes<M: ProcessMemory>(memory: &M, weights: usize, vertex_count: i32) -> (bytes: Result<Vec<u8>, RenderWareError>)
    ensures
        match weights_size_verdict(weights, vertex_count) {
            Err(e) => bytes == Err::<Vec<u8>, RenderWareError>(e),
            Ok(size) => exists|copy: Option<Seq<u8>>| copy_from(memory, weights, size, copy) && match #[trigger] copy_verdict(weights, size, copy) {
                Some(b) => bytes matches Ok(v) && v@ == b && b.len() == size,
                None => bytes == Err::<Vec<u8>, RenderWareError>(RenderWareError::UnreadableWeights),
            },
        },
{
    let size = match weights_size(weights, vertex_count) {
        Ok(size) => size,
        Err(e) => {
            return Err(e);
        },
    };
    let read = read_bytes(memory, weights, size);
    let ghost c = choose|copy: Option<Seq<u8>>|
        copy_from(memory, weights, size, copy) && opt_bytes(read) == #[trigger] copy_verdict(weights, size, copy);
    match read {
        Some(bytes) => Ok(bytes),
        None => Err(RenderWareError::UnreadableWeights),
    }
}

// ----- secondary IK -----

/// What the ped's secondary IK slot holds: nothing to abort, or the
/// `CTaskSimpleIKManager` that must be made abortable.
pub open spec fn ik_task_verdict(intelligence: Option<usize>, task: Option<usize>, vtable: Option<usize>) -> Result<Option<usize>, RenderWareError> {
    match intelligence {
        None => Err(RenderWareError::UnreadableIntelligence),
        Some(i) => if i == 0 {
            Err(RenderWareError::NoIntelligence)
        } else {
            match task {
                None => Err(RenderWareError::UnreadableIkTask),
                Some(t) => if t == 0 {
                    Ok(None)
                } else if vtable == Some(CTASKSIMPLEIKMANAGER_VTABLE) {
                    Ok(Some(t))
                } else {
                    Err(RenderWareError::UnsupportedIkTask)
                },
            }
        },
    }
}

pub fn check_ik_task(intelligence: Option<usize>, task: Option<usize>, vtable: Option<usize>) -> (verdict: Result<Option<usize>, RenderWareError>)
    ensures
        verdict == ik_task_verdict(intelligence, task, vtable),
{
    let i = match intelligence {
        None => {
            return Err(RenderWareError::UnreadableIntelligence);
        },
        Some(i) => i,
    };
    if i == 0 {
        return Err(RenderWareError::NoIntelligence);
    }
    let t = match task {
        None => {
            return Err(RenderWareError::UnreadableIkTask);
        },
        Some(t) => t,
    };
    if t == 0 {
        return Ok(None);
    }
    match vtable {
        Some(v) => if v == CTASKSIMPLEIKMANAGER_VTABLE {
            Ok(Some(t))
        } else {
            Err(RenderWareError::UnsupportedIkTask)
        },
        None => Err(RenderWareError::UnsupportedIkTask),
    }
}

/// The IK verdict for the three copies: the ped's intelligence pointer, the
/// secondary IK task it holds, and that task's vtable.
pub open spec fn ik_task_copies_verdict(
    ped: usize,
    intelligence_copy: Option<Seq<u8>>,
    task_copy: Option<Seq<u8>>,
    vtable_copy: Option<Seq<u8>>,
) -> Result<Option<usize>, RenderWareError> {
    let intelligence = field_pointer(ped, PED_INTELLIGENCE, intelligence_copy);
    let task = match intelligence {
        Some(i) => field_pointer(i, PED_INTELLIGENCE_SECONDARY_IK_TASK, task_copy),
        None => None,
    };
    let vtable = match task {
        Some(t) => pointer_verdict(t, vtable_copy),
        None => None,
    };
    ik_task_verdict(intelligence, task, vtable)
}

/// The copies that the IK check asks `memory` for: the intelligence
/// pointer, the task in a present intelligence, and the vtable of a
/// present task.
pub open spec fn ik_task_copies_from<M: ProcessMemory>(
    memory: &M,
    ped: usize,
    intelligence_copy: Option<Seq<u8>>,
    task_copy: Option<Seq<u8>>,
    vtable_copy: Option<Seq<u8>>,
) -> bool {
    &&& field_copy_from(memory, ped, PED_INTELLIGENCE, 4, intelligence_copy)
    &&& match field_pointer(ped, PED_INTELLIGENCE, intelligence_copy) {
        Some(i) => i != 0 ==> {
            &&& field_copy_from(memory, i, PED_INTELLIGENCE_SECONDARY_IK_TASK, 4, task_copy)
            &&& match field_pointer(i, PED_INTELLIGENCE_SECONDARY_IK_TASK, task_copy) {
                Some(t) => t != 0 ==> copy_from(memory, t, 4, vtable_copy),
                None => true,
            }
        },
        None => true,
    }
}

/// Reads the ped's secondary IK task before its bones are replaced.
pub fn secondary_ik_task<M: ProcessMemory>(memory: &M, ped: usize) -> (task: Result<Option<usize>, RenderWareError>)
    ensures
        exists|intelligence_copy: Option<Seq<u8>>, task_copy: Option<Seq<u8>>, vtable_copy: Option<Seq<u8>>|
            ik_task_copies_from(memory, ped, intelligence_copy, task_copy, vtable_copy)
            && task == ik_task_copies_verdict(ped, intelligence_copy, task_copy, vtable_copy),
{
    let intelligence: Option<usize> = read_field_pointer(memory, ped, PED_INTELLIGENCE);
    let ghost ci = choose|copy: Option<Seq<u8>>|
        field_copy_from(memory, ped, PED_INTELLIGENCE, 4, copy) && intelligence == field_pointer(ped, PED_INTELLIGENCE, copy);
    let ghost mut ct: Option<Seq<u8>> = None;
    let task: Option<usize> = match intelligence {
        Some(i) => if i != 0 {
            let t = read_field_pointer(memory, i, PED_INTELLIGENCE_SECONDARY_IK_TASK);
            proof {
                ct = choose|copy: Option<Seq<u8>>|
                    field_copy_from(memory, i, PED_INTELLIGENCE_SECONDARY_IK_TASK, 4, copy)
                    && t == field_pointer(i, PED_INTELLIGENCE_SECONDARY_IK_TASK, copy);
            }
            t
        } else {
            None
        },
        None => None,
    };
    let ghost mut cv: Option<Seq<u8>> = None;
    let vtable: Option<usize> = match task {
        Some(t) => if t != 0 {
            let v = read_pointer(memory, t);
            proof {
                cv = choose|copy: Option<Seq<u8>>| copy_from(memory, t, 4, copy) && v == pointer_verdict(t, copy);
            }
            v
        } else {
            None
        },
        None => None,
    };
    let verdict = check_ik_task(intelligence, task, vtable);
    assert(verdict == ik_task_copies_verdict(ped, ci, ct, cv));
    assert(ik_task_copies_from(memory, ped, ci, ct, cv));
    verdict
}

// ----- CEntity::DeleteRwObject -----

/// Whether the ped's render object must be deleted, and through which
/// virtual function: only GTA's own `CPed::DeleteRwObject` is trusted.
pub open spec fn delete_target_verdict(current: Option<usize>, vtable: Option<usize>, function: Option<usize>) -> Result<Option<usize>, RenderWareError> {
    match current {
        None => Err(RenderWareError::UnreadableRenderObject),
        Some(c) => if c == 0 {
            Ok(None)
        } else {
            match vtable {
                None => Err(RenderWareError::UnreadableVtable),
                Some(_) => match function {
                    None => Err(RenderWareError::UnreadableDeleteRwObject),
                    Some(f) => if f == 0 {
                        Err(RenderWareError::NullDeleteRwObject)
                    } else if f != ADDR_CPED_DELETE_RW_OBJECT {
                        Err(RenderWareError::UnsupportedDeleteRwObject)
                    } else {
                        Ok(Some(f))
                    },
                },
            }
        },
    }
}

pub fn check_delete_target(current: Option<usize>, vtable: Option<usize>, function: Option<usize>) -> (verdict: Result<Option<usize>, RenderWareError>)
    ensures
        verdict == delete_target_verdict(current, vtable, function),
{
    let c = match current {
        None => {
            return Err(RenderWareError::UnreadableRenderObject);
        },
        Some(c) => c,
    };
    if c == 0 {
        return Ok(None);
    }
    if vtable.is_none() {
        return Err(RenderWareError::UnreadableVtable);
    }
    match function {
        None => Err(RenderWareError::UnreadableDeleteRwObject),
        Some(f) => if f == 0 {
            Err(RenderWareError::NullDeleteRwObject)
        } else if f != ADDR_CPED_DELETE_RW_OBJECT {
            Err(RenderWareError::UnsupportedDeleteRwObject)
        } else {
            Ok(Some(f))
        },
    }
}

/// The delete-target verdict for the three copies: the ped's render object,
/// the ped's vtable pointer, and the vtable's `DeleteRwObject` entry.
pub open spec fn delete_target_copies_verdict(
    ped: usize,
    object_copy: Option<Seq<u8>>,
    vtable_copy: Option<Seq<u8>>,
    function_copy: Option<Seq<u8>>,
) -> Result<Option<usize>, RenderWareError> {
    let current = field_pointer(ped, ENTITY_RW_OBJECT, object_copy);
    let vtable = match current {
        Some(_) => pointer_verdict(ped, vtable_copy),
        None => None,
    };
    let function = match vtable {
        Some(v) => field_pointer(v, VTABLE_DELETE_RW_OBJECT_OFFSET, function_copy),
        None => None,
    };
    delete_target_verdict(current, vtable, function)
}

/// The copies that the delete-target check asks `memory` for: the render
/// object, then for a present object the ped's vtable pointer, and the
/// `DeleteRwObject` entry of a vtable that was read.
pub open spec fn delete_target_copies_from<M: ProcessMemory>(
    memory: &M,
    ped: usize,
    object_copy: Option<Seq<u8>>,
    vtable_copy: Option<Seq<u8>>,
    function_copy: Option<Seq<u8>>,
) -> bool {
    &&& field_copy_from(memory, ped, ENTITY_RW_OBJECT, 4, object_copy)
    &&& match field_pointer(ped, ENTITY_RW_OBJECT, object_copy) {
        Some(c) => c != 0 ==> {
            &&& copy_from(memory, ped, 4, vtable_copy)
            &&& match pointer_verdict(ped, vtable_copy) {
                Some(v) => field_copy_from(memory, v, VTABLE_DELETE_RW_OBJECT_OFFSET, 4, function_copy),
                None => true,
            }
        },
        None => true,
    }
}

/// Reads which `DeleteRwObject` the ped's vtable would call.
pub fn delete_rw_object_target<M: ProcessMemory>(memory: &M, ped: usize) -> (target: Result<Option<usize>, RenderWareError>)
    ensures
        exists|object_copy: Option<Seq<u8>>, vtable_copy: Option<Seq<u8>>, function_copy: Option<Seq<u8>>|
            delete_target_copies_from(memory, ped, object_copy, vtable_copy, function_copy)
            && target == delete_target_copies_verdict(ped, object_copy, vtable_copy, function_copy),
{
    let current: Option<usize> = read_field_pointer(memory, ped, ENTITY_RW_OBJECT);
    let ghost cc = choose|copy: Option<Seq<u8>>|
        field_copy_from(memory, ped, ENTITY_RW_OBJECT, 4, copy) && current == field_pointer(ped, ENTITY_RW_OBJECT, copy);
    let ghost mut cv: Option<Seq<u8>> = None;
    let vtable: Option<usize> = match current {
        Some(c) => if c != 0 {
            let v = read_pointer(memory, ped);
            proof {
                cv = choose|copy: Option<Seq<u8>>| copy_from(memory, ped, 4, copy) && v == pointer_verdict(ped, copy);
            }
            v
        } else {
            None
        },
        None => None,
    };
    let ghost mut cf: Option<Seq<u8>> = None;
    let function: Option<usize> = match vtable {
        Some(v) => {
            let f = read_field_pointer(memory, v, VTABLE_DELETE_RW_OBJECT_OFFSET);
            proof {
                cf = choose|copy: Option<Seq<u8>>|
                    field_copy_from(memory, v, VTABLE_DELETE_RW_OBJECT_OFFSET, 4, copy)
                    && f == field_pointer(v, VTABLE_DELETE_RW_OBJECT_OFFSET, copy);
            }
            f
        },
        None => None,
    };
    let verdict = check_delete_target(current, vtable, function);
    assert(verdict == delete_target_copies_verdict(ped, cc, cv, cf));
    assert(delete_target_copies_from(memory, ped, cc, cv, cf));
    verdict
}

/// What the ped's render object reads after `DeleteRwObject` ran.
pub open spec fn deleted_verdict(read: Option<usize>) -> Result<(), RenderWareError> {
    match read {
        Some(r) => if r == 0 {
            Ok(())
        } else {
            Err(RenderWareError::RenderObjectNotCleared)
        },
        None => Err(RenderWareError::UnverifiedDelete),
    }
}

pub fn check_deleted(read: Option<usize>) -> (verdict: Result<(), RenderWareError>)
    ensures
        verdict == deleted_verdict(read),
{
    match read {
        Some(r) => if r == 0 {
            Ok(())
        } else {
            Err(RenderWareError::RenderObjectNotCleared)
        },
        None => Err(RenderWareError::UnverifiedDelete),
    }
}

/// Confirms that `DeleteRwObject` cleared the ped's render object.
pub fn confirm_deleted<M: ProcessMemory>(memory: &M, ped: usize) -> (confirmed: Result<(), RenderWareError>)
    ensures
        exists|copy: Option<Seq<u8>>|
            field_copy_from(memory, ped, ENTITY_RW_OBJECT, 4, copy)
            && confirmed == deleted_verdict(field_pointer(ped, ENTITY_RW_OBJECT, copy)),
{
    let current: Option<usize> = read_field_pointer(memory, ped, ENTITY_RW_OBJECT);
    let ghost c = choose|copy: Option<Seq<u8>>|
        field_copy_from(memory, ped, ENTITY_RW_OBJECT, 4, copy) && current == field_pointer(ped, ENTITY_RW_OBJECT, copy);
    check_deleted(current)
}

// ----- positioning the clone -----

/// The root frames of the temporary server clump and of the clone, once the
/// server clump's modelling matrix is known to be readable.
pub open spec fn root_frames_verdict(source: Option<usize>, destination: Option<usize>, matrix_readable: bool) -> Result<(usize, usize), RenderWareError> {
    match source {
        None => Err(RenderWareError::UnreadableSourceFrame),
        Some(s) => match destination {
            None => Err(RenderWareError::UnreadableCloneFrame),
            Some(d) => if s == 0 || d == 0 {
                Err(RenderWareError::NoRootFrame)
            } else if !matrix_readable {
                Err(RenderWareError::UnreadableModellingMatrix)
            } else {
                Ok((s, d))
            },
        },
    }
}

pub fn check_root_frames(source: Option<usize>, destination: Option<usize>, matrix_readable: bool) -> (verdict: Result<(usize, usize), RenderWareError>)
    ensures
        verdict == root_frames_verdict(source, destination, matrix_readable),
{
    let s = match source {
        None => {
            return Err(RenderWareError::UnreadableSourceFrame);
        },
        Some(s) => s,
    };
    let d = match destination {
        None => {
            return Err(RenderWareError::UnreadableCloneFrame);
        },
        Some(d) => d,
    };
    if s == 0 || d == 0 {
        return Err(RenderWareError::NoRootFrame);
    }
    if !matrix_readable {
        return Err(RenderWareError::UnreadableModellingMatrix);
    }
    Ok((s, d))
}

/// The root-frame verdict for the copies of both parent frames and of the
/// source frame's modelling matrix.
pub open spec fn root_frames_copies_verdict(
    source: usize,
    destination: usize,
    source_copy: Option<Seq<u8>>,
    destination_copy: Option<Seq<u8>>,
    matrix_copy: Option<Seq<u8>>,
) -> Result<(usize, usize), RenderWareError> {
    let source_frame = field_pointer(source, RW_OBJECT_PARENT, source_copy);
    let matrix_readable = match source_frame {
        Some(s) => match field_address(s, RW_FRAME_MODELLING_MATRIX) {
            Some(address) => copy_verdict(address, RW_MATRIX_SIZE, matrix_copy) is Some,
            None => false,
        },
        None => false,
    };
    root_frames_verdict(source_frame, field_pointer(destination, RW_OBJECT_PARENT, destination_copy), matrix_readable)
}

/// The copies that finding the root frames asks `memory` for: both parent
/// frames, and the modelling matrix of a present source frame.
pub open spec fn root_frames_copies_from<M: ProcessMemory>(
    memory: &M,
    source: usize,
    destination: usize,
    source_copy: Option<Seq<u8>>,
    destination_copy: Option<Seq<u8>>,
    matrix_copy: Option<Seq<u8>>,
) -> bool {
    &&& field_copy_from(memory, source, RW_OBJECT_PARENT, 4, source_copy)
    &&& field_copy_from(memory, destination, RW_OBJECT_PARENT, 4, destination_copy)
    &&& match field_pointer(source, RW_OBJECT_PARENT, source_copy) {
        Some(s) => s != 0 ==> match field_address(s, RW_FRAME_MODELLING_MATRIX) {
            Some(address) => copy_from(memory, address, RW_MATRIX_SIZE, matrix_copy),
            None => true,
        },
        None => true,
    }
}

/// Reads the root frames `RwFrameTransform` needs to place the clone where
/// the temporary server clump stood.
pub fn clone_root_frames<M: ProcessMemory>(memory: &M, source: usize, destination: usize) -> (frames: Result<(usize, usize), RenderWareError>)
    ensures
        exists|source_copy: Option<Seq<u8>>, destination_copy: Option<Seq<u8>>, matrix_copy: Option<Seq<u8>>|
            root_frames_copies_from(memory, source, destination, source_copy, destination_copy, matrix_copy)
            && frames == root_frames_copies_verdict(source, destination, source_copy, destination_copy, matrix_copy),
{
    let source_frame: Option<usize> = read_field_pointer(memory, source, RW_OBJECT_PARENT);
    let ghost cs = choose|copy: Option<Seq<u8>>|
        field_copy_from(memory, source, RW_OBJECT_PARENT, 4, copy) && source_frame == field_pointer(source, RW_OBJECT_PARENT, copy);
    let destination_frame: Option<usize> = read_field_pointer(memory, destination, RW_OBJECT_PARENT);
    let ghost cd = choose|copy: Option<Seq<u8>>|
        field_copy_from(memory, destination, RW_OBJECT_PARENT, 4, copy)
        && destination_frame == field_pointer(destination, RW_OBJECT_PARENT, copy);
    let ghost mut cm: Option<Seq<u8>> = None;
    let matrix_readable: bool = match source_frame {
        Some(s) => if s != 0 {
            match field_at(s, RW_FRAME_MODELLING_MATRIX) {
                Some(address) => {
                    let matrix = read_bytes(memory, address, RW_MATRIX_SIZE);
                    proof {
                        cm = choose|copy: Option<Seq<u8>>|
                            copy_from(memory, address, RW_MATRIX_SIZE, copy) && opt_bytes(matrix) == #[trigger] copy_verdict(address, RW_MATRIX_SIZE, copy);
                    }
                    matrix.is_some()
                },
                None => false,
            }
        } else {
            false
        },
        None => false,
    };
    let frames = check_root_frames(source_frame, destination_frame, matrix_readable);
    assert(frames == root_frames_copies_verdict(source, destination, cs, cd, cm));
    assert(root_frames_copies_from(memory, source, destination, cs, cd, cm));
    frames
}

// ----- model info -----

/// The entry of a valid model ID in `CModelInfo::ms_modelInfoPtrs`.
pub open spec fn model_info_slot_spec(model_id: i32) -> Option<usize> {
    if valid_model_id(model_id as int) {
        Some((ADDR_MS_MODEL_INFO_PTRS + model_id * 4) as usize)
    } else {
        None
    }
}

/// The model info that a copy of the table entry gives: 0 for an invalid
/// ID or a failed copy.
pub open spec fn model_info_copy_verdict(model_id: i32, copy: Option<Seq<u8>>) -> usize {
    match model_info_slot_spec(model_id) {
        Some(slot) => match pointer_verdict(slot, copy) {
            Some(info) => info,
            None => 0,
        },
        None => 0,
    }
}

/// The copy of a valid model ID's table entry that `memory` may give.
pub open spec fn model_info_copy_from<M: ProcessMemory>(memory: &M, model_id: i32, copy: Option<Seq<u8>>) -> bool {
    match model_info_slot_spec(model_id) {
        Some(slot) => copy_from(memory, slot, 4, copy),
        None => true,
    }
}

/// The model info of `model_id`, or 0 where the ID is invalid or the table
/// entry unreadable.
pub fn model_info<M: ProcessMemory>(memory: &M, model_id: i32) -> (info: usize)
    ensures
        !valid_model_id(model_id as int) ==> info == 0,
        exists|copy: Option<Seq<u8>>| model_info_copy_from(memory, model_id, copy) && info == model_info_copy_verdict(model_id, copy),
{
    match model_info_slot(model_id) {
        Some(slot) => {
            let read = read_pointer(memory, slot);
            let ghost c = choose|copy: Option<Seq<u8>>| copy_from(memory, slot, 4, copy) && read == pointer_verdict(slot, copy);
            let info = match read {
                Some(info) => info,
                None => 0,
            };
            assert(info == model_info_copy_verdict(model_id, c));
            assert(model_info_copy_from(memory, model_id, c));
            info
        },
        None => {
            assert(model_info_copy_verdict(model_id, None) == 0);
            0
        },
    }
}

/// The entry of `model_id` in `CModelInfo::ms_modelInfoPtrs`, for a valid
/// model ID.
pub fn model_info_slot(model_id: i32) -> (slot: Option<usize>)
    ensures
        slot == model_info_slot_spec(model_id),
{
    if !is_valid_model_id(model_id) {
        return None;
    }
    Some(ADDR_MS_MODEL_INFO_PTRS + (model_id as usize) * 4)
}

/// A model info is a ped's only when its vtable is that of GTA's known ped
/// model.
pub open spec fn ped_model_info_verdict(model_id: i32, info: usize, known: usize, model_vtable: Option<usize>, ped_vtable: Option<usize>) -> Result<usize, RenderWareError> {
    if !valid_model_id(model_id as int) {
        Err(RenderWareError::InvalidModelId)
    } else if info == 0 {
        Err(RenderWareError::NoModelInfo)
    } else if known == 0 {
        Err(RenderWareError::NoKnownPedModel)
    } else {
        match model_vtable {
            None => Err(RenderWareError::UnreadableModelVtable),
            Some(mv) => match ped_vtable {
                None => Err(RenderWareError::UnreadableKnownPedVtable),
                Some(pv) => if mv == pv {
                    Ok(info)
                } else {
                    Err(RenderWareError::NotPedModel)
                },
            },
        }
    }
}

pub fn check_ped_model_info(model_id: i32, info: usize, known: usize, model_vtable: Option<usize>, ped_vtable: Option<usize>) -> (verdict: Result<usize, RenderWareError>)
    ensures
        verdict == ped_model_info_verdict(model_id, info, known, model_vtable, ped_vtable),
{
    if !is_valid_model_id(model_id) {
        return Err(RenderWareError::InvalidModelId);
    }
    if info == 0 {
        return Err(RenderWareError::NoModelInfo);
    }
    if known == 0 {
        return Err(RenderWareError::NoKnownPedModel);
    }
    let mv = match model_vtable {
        None => {
            return Err(RenderWareError::UnreadableModelVtable);
        },
        Some(v) => v,
    };
    match ped_vtable {
        None => Err(RenderWareError::UnreadableKnownPedVtable),
        Some(pv) => if mv == pv {
            Ok(info)
        } else {
            Err(RenderWareError::NotPedModel)
        },
    }
}

/// The ped-model verdict for the copies of both table entries and of both
/// model infos' vtables.
pub open spec fn ped_model_info_copies_verdict(
    model_id: i32,
    info_copy: Option<Seq<u8>>,
    known_copy: Option<Seq<u8>>,
    model_vtable_copy: Option<Seq<u8>>,
    ped_vtable_copy: Option<Seq<u8>>,
) -> Result<usize, RenderWareError> {
    let info = model_info_copy_verdict(model_id, info_copy);
    let known = model_info_copy_verdict(KNOWN_PED_MODEL_ID, known_copy);
    ped_model_info_verdict(model_id, info, known, pointer_verdict(info, model_vtable_copy), pointer_verdict(known, ped_vtable_copy))
}

/// The copies that the ped-model check asks `memory` for: both table
/// entries, and the vtable of each model info that is present.
pub open spec fn ped_model_info_copies_from<M: ProcessMemory>(
    memory: &M,
    model_id: i32,
    info_copy: Option<Seq<u8>>,
    known_copy: Option<Seq<u8>>,
    model_vtable_copy: Option<Seq<u8>>,
    ped_vtable_copy: Option<Seq<u8>>,
) -> bool {
    let info = model_info_copy_verdict(model_id, info_copy);
    let known = model_info_copy_verdict(KNOWN_PED_MODEL_ID, known_copy);
    &&& model_info_copy_from(memory, model_id, info_copy)
    &&& model_info_copy_from(memory, KNOWN_PED_MODEL_ID, known_copy)
    &&& info != 0 ==> copy_from(memory, info, 4, model_vtable_copy)
    &&& known != 0 ==> copy_from(memory, known, 4, ped_vtable_copy)
}

/// The model info of `model_id`, after proving it is a `CPedModelInfo`.
pub fn verified_ped_model_info<M: ProcessMemory>(memory: &M, model_id: i32) -> (info: Result<usize, RenderWareError>)
    ensures
        exists|info_copy: Option<Seq<u8>>, known_copy: Option<Seq<u8>>, model_vtable_copy: Option<Seq<u8>>, ped_vtable_copy: Option<Seq<u8>>|
            ped_model_info_copies_from(memory, model_id, info_copy, known_copy, model_vtable_copy, ped_vtable_copy)
            && info == ped_model_info_copies_verdict(model_id, info_copy, known_copy, model_vtable_copy, ped_vtable_copy),
        !valid_model_id(model_id as int) ==> info == Err::<usize, RenderWareError>(RenderWareError::InvalidModelId),
{
    let info = model_info(memory, model_id);
    let ghost ci = choose|copy: Option<Seq<u8>>|
        model_info_copy_from(memory, model_id, copy) && info == model_info_copy_verdict(model_id, copy);
    let known = model_info(memory, KNOWN_PED_MODEL_ID);
    let ghost ck = choose|copy: Option<Seq<u8>>|
        model_info_copy_from(memory, KNOWN_PED_MODEL_ID, copy) && known == model_info_copy_verdict(KNOWN_PED_MODEL_ID, copy);
    let ghost mut cm: Option<Seq<u8>> = None;
    let model_vtable: Option<usize> = if info != 0 {
        let v = read_pointer(memory, info);
        proof {
            cm = choose|copy: Option<Seq<u8>>| copy_from(memory, info, 4, copy) && v == pointer_verdict(info, copy);
        }
        v
    } else {
        None
    };
    let ghost mut cp: Option<Seq<u8>> = None;
    let ped_vtable: Option<usize> = if known != 0 {
        let v = read_pointer(memory, known);
        proof {
            cp = choose|copy: Option<Seq<u8>>| copy_from(memory, known, 4, copy) && v == pointer_verdict(known, copy);
        }
        v
    } else {
        None
    };
    let verdict = check_ped_model_info(model_id, info, known, model_vtable, ped_vtable);
    assert(verdict == ped_model_info_copies_verdict(model_id, ci, ck, cm, cp));
    assert(ped_model_info_copies_from(memory, model_id, ci, ck, cm, cp));
    verdict
}

/// The RenderWare and CPed offsets of GTA SA 1.0 US and the limits the
/// checks apply, as documented for the supported executable.
pub proof fn lemma_documented_constants()
    ensures
        RP_ATOMIC_GEOMETRY == 0x18,
        RP_GEOMETRY_NUM_VERTICES == 0x14,
        RP_GEOMETRY_MORPH_TARGET == 0x5C,
        RP_MORPH_TARGET_BOUNDING_SPHERE_RADIUS == 0x10,
        RW_MATRIX_WEIGHTS_SIZE == 0x10,
        MAX_PED_GEOMETRY_VERTICES == 0x186A0,
        RW_OBJECT_PARENT == 0x4,
        RW_FRAME_MODELLING_MATRIX == 0x10,
        RW_MATRIX_SIZE == 0x40,
        HANIM_HIERARCHY_NODE_COUNT == 0x4,
        HANIM_HIERARCHY_CURRENT_ANIM == 0x20,
        ANIM_BLEND_DATA_FRAME_COUNT == 0x8,
        ANIM_BLEND_DATA_PED_POSITION == 0xC,
        MAX_PED_NODES == 0x40,
        MIN_ANIM_BLEND_OFFSET == 0x20,
        MAX_ANIM_BLEND_OFFSET == 0x400,
        PED_INTELLIGENCE == 0x47C,
        PED_INTELLIGENCE_SECONDARY_IK_TASK == 0x2C,
        CTASKSIMPLEIKMANAGER_VTABLE == 0x86E358,
        VTABLE_DELETE_RW_OBJECT_OFFSET == 0x20,
        PED_BONE_ARRAY == 0x488,
        PED_ANIM_MOVING_SHIFT_LOCAL == 0x4D8,
        PED_BONE_COUNT == 0x13,
        KNOWN_PED_MODEL_ID == 0x7,
{
}

/// The bones a DFF hierarchy must resolve are `CPed::m_apBones[1..19]` as
/// `ConvertPedNode2BoneTag` numbers them.
pub proof fn lemma_required_bone_tags()
    ensures
        required_ped_bone_tags_spec() == seq![3i32, 5, 32, 22, 34, 24, 41, 51, 43, 53, 52, 42, 33, 23, 31, 21, 4, 8],
{
}

/// What each structure check accepts, and that an accepted value is the
/// one that was read: a node or frame count in 1..=64, a vertex count in
/// 1..=100000, an AnimBlend offset in 0x20..=0x400 whose data pointer is
/// present, the non-null geometry of a present atomic, an empty secondary
/// IK slot or one that holds a `CTaskSimpleIKManager` (vtable 0x86E358),
/// only GTA's `CPed::DeleteRwObject` (0x5DEBF0) as the delete target, a
/// cleared render object after the delete, both root frames with a readable
/// matrix, a ped model info whose vtable is that of model 7's, and a weight
/// array that is non-null, 4-aligned and 16 bytes per vertex.
pub proof fn lemma_structure_checks(
    count: Option<i32>,
    frames: Option<u32>,
    clump: usize,
    offset: Option<u32>,
    pointer: Option<usize>,
    atomic: usize,
    geometry: Option<usize>,
    intelligence: Option<usize>,
    task: Option<usize>,
    vtable: Option<usize>,
    function: Option<usize>,
    source: Option<usize>,
    destination: Option<usize>,
    matrix_readable: bool,
    model_id: i32,
    info: usize,
    known: usize,
    weights: usize,
    vertex_count: i32,
)
    ensures
        node_count_verdict(count) is Ok <==> (count is Some && 1 <= count->0 <= 64),
        node_count_verdict(count) matches Ok(n) ==> count == Some(n),
        frame_count_verdict(frames) is Ok <==> (frames is Some && 1 <= frames->0 <= 64),
        frame_count_verdict(frames) matches Ok(n) ==> frames == Some(n),
        vertex_count_verdict(count) is Ok <==> (count is Some && 1 <= count->0 <= 100000),
        vertex_count_verdict(count) matches Ok(n) ==> count == Some(n),
        anim_blend_verdict(clump, offset, pointer) is Ok <==> (offset is Some && 0x20 <= offset->0 <= 0x400 && clump
            + offset->0 <= usize::MAX && pointer is Some && pointer->0 != 0),
        anim_blend_verdict(clump, offset, pointer) matches Ok(p) ==> pointer == Some(p),
        geometry_verdict(atomic, geometry) is Ok <==> (atomic != 0 && geometry is Some && geometry->0 != 0),
        geometry_verdict(atomic, geometry) matches Ok(g) ==> geometry == Some(g),
        ik_task_verdict(intelligence, task, vtable) == Ok::<Option<usize>, RenderWareError>(None) <==> (
        intelligence is Some && intelligence->0 != 0 && task == Some(0usize)),
        (ik_task_verdict(intelligence, task, vtable) is Ok && ik_task_verdict(intelligence, task, vtable)->Ok_0 is Some)
            <==> (intelligence is Some && intelligence->0 != 0 && task is Some && task->0 != 0 && vtable == Some(
            0x86E358usize)),
        ik_task_verdict(intelligence, task, vtable) matches Ok(Some(t)) ==> task == Some(t),
        delete_target_verdict(pointer, vtable, function) == Ok::<Option<usize>, RenderWareError>(None) <==> pointer
            == Some(0usize),
        (delete_target_verdict(pointer, vtable, function) is Ok && delete_target_verdict(pointer, vtable, function)->Ok_0
            is Some) <==> (pointer is Some && pointer->0 != 0 && vtable is Some && function == Some(0x5DEBF0usize)),
        delete_target_verdict(pointer, vtable, function) matches Ok(Some(f)) ==> f == 0x5DEBF0,
        deleted_verdict(pointer) is Ok <==> pointer == Some(0usize),
        root_frames_verdict(source, destination, matrix_readable) is Ok <==> (source is Some && destination is Some
            && source->0 != 0 && destination->0 != 0 && matrix_readable),
        root_frames_verdict(source, destination, matrix_readable) matches Ok((s, d)) ==> source == Some(s)
            && destination == Some(d),
        ped_model_info_verdict(model_id, info, known, pointer, vtable) is Ok <==> (0 <= model_id < 20000 && info != 0
            && known != 0 && pointer is Some && pointer == vtable),
        ped_model_info_verdict(model_id, info, known, pointer, vtable) matches Ok(i) ==> i == info,
        weights_size_verdict(weights, vertex_count) is Ok <==> (weights != 0 && weights % 4 == 0 && vertex_count >= 0
            && vertex_count * 16 <= usize::MAX),
        weights_size_verdict(weights, vertex_count) matches Ok(size) ==> size == vertex_count * 16,
{
}

} // verus!
