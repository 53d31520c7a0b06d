use wardrobe::gta::renderware::{
    anim_blend_data, anim_blend_frame_count, check_anim_blend, check_bone_frames, check_delete_target,
    check_deleted, check_frame_count, check_frame_count_matches, check_geometry, check_ik_task,
    check_node_count, check_ped_model_info, check_required_bones, check_root_frames, check_vertex_count,
    clone_root_frames, delete_rw_object_target, hierarchy_node_count, model_info, render_object_identity,
    required_ped_bone_tags, secondary_ik_task, verified_ped_model_info, weights_size, RenderWareError,
    CTASKSIMPLEIKMANAGER_VTABLE, PED_BONE_COUNT,
};
use wardrobe::gta::swap::{
    check_rebuilt, check_restorable, cleanup_after, clone_disposition, CloneDisposition, RestoreError, SwapCleanup,
    SwapStage,
};
use wardrobe::gta::{PedRenderObject, ADDR_CPED_DELETE_RW_OBJECT, ADDR_MS_MODEL_INFO_PTRS, ADDR_RPANIMBLEND_CLUMP_OFFSET};
use wardrobe::memory::MemoryImage;

fn le32(value: u32) -> [u8; 4] {
    value.to_le_bytes()
}

#[test]
fn hierarchies_hold_one_to_sixty_four_nodes() {
    assert_eq!(check_node_count(None), Err(RenderWareError::UnreadableNodeCount));
    assert_eq!(check_node_count(Some(0)), Err(RenderWareError::NodeCountOutOfRange));
    assert_eq!(check_node_count(Some(1)), Ok(1));
    assert_eq!(check_node_count(Some(64)), Ok(64));
    assert_eq!(check_node_count(Some(65)), Err(RenderWareError::NodeCountOutOfRange));
    assert_eq!(check_node_count(Some(-3)), Err(RenderWareError::NodeCountOutOfRange));
}

#[test]
fn reads_a_hierarchy_node_count() {
    let mut bytes = vec![0u8; 8];
    bytes[4..8].copy_from_slice(&le32(32));
    let image = MemoryImage::new(0x5000, bytes);
    assert_eq!(hierarchy_node_count(&image, 0x5000), Ok(32));
    assert_eq!(hierarchy_node_count(&image, 0x9000), Err(RenderWareError::UnreadableNodeCount));
    assert_eq!(hierarchy_node_count(&image, usize::MAX), Err(RenderWareError::UnreadableNodeCount));
}

#[test]
fn every_required_bone_must_lie_inside_the_hierarchy() {
    let tags = required_ped_bone_tags();
    assert_eq!(tags.len(), 18);
    assert_eq!(tags[0], 3);
    assert_eq!(tags[17], 8);
    let indices: Vec<i32> = (0..18).collect();
    assert_eq!(check_required_bones(&indices, 18), Ok(()));
    assert_eq!(check_required_bones(&indices, 17), Err(RenderWareError::MissingBone));
    let mut missing = indices.clone();
    missing[5] = -1;
    assert_eq!(check_required_bones(&missing, 32), Err(RenderWareError::MissingBone));
    assert_eq!(check_required_bones(&indices[..17], 32), Err(RenderWareError::MissingBone));
}

#[test]
fn every_ped_bone_but_the_first_needs_a_frame() {
    let mut frames = vec![7usize; PED_BONE_COUNT];
    frames[0] = 0;
    assert_eq!(check_bone_frames(&frames), Ok(()));
    frames[18] = 0;
    assert_eq!(check_bone_frames(&frames), Err(RenderWareError::BoneFramesUnresolved));
    assert_eq!(check_bone_frames(&[1, 2, 3]), Err(RenderWareError::BoneFramesUnresolved));
}

#[test]
fn animation_frames_must_match_the_hierarchy() {
    assert_eq!(check_frame_count_matches(32, 32), Ok(()));
    assert_eq!(check_frame_count_matches(31, 32), Err(RenderWareError::FrameCountMismatch));
    assert_eq!(check_frame_count_matches(1, -1), Err(RenderWareError::FrameCountMismatch));
    assert_eq!(check_frame_count(Some(64)), Ok(64));
    assert_eq!(check_frame_count(Some(0)), Err(RenderWareError::FrameCountOutOfRange));
    assert_eq!(check_frame_count(None), Err(RenderWareError::UnreadableFrameCount));
}

#[test]
fn anim_blend_data_sits_at_a_plausible_plugin_offset() {
    assert_eq!(check_anim_blend(0x1000, None, Some(1)), Err(RenderWareError::UnreadableAnimBlendOffset));
    assert_eq!(check_anim_blend(0x1000, Some(0x1F), Some(1)), Err(RenderWareError::AnimBlendOffsetOutOfRange));
    assert_eq!(check_anim_blend(0x1000, Some(0x401), Some(1)), Err(RenderWareError::AnimBlendOffsetOutOfRange));
    assert_eq!(check_anim_blend(0x1000, Some(0x20), None), Err(RenderWareError::UnreadableAnimBlendData));
    assert_eq!(check_anim_blend(0x1000, Some(0x20), Some(0)), Err(RenderWareError::NoAnimBlendData));
    assert_eq!(check_anim_blend(0x1000, Some(0x400), Some(0x7000)), Ok(0x7000));
    assert_eq!(check_anim_blend(usize::MAX, Some(0x20), Some(1)), Err(RenderWareError::UnreadableAnimBlendData));
}

#[test]
fn reads_a_clumps_anim_blend_frame_count() {
    // One image covering the plugin offset, a clump and its AnimBlend data.
    let base = ADDR_RPANIMBLEND_CLUMP_OFFSET;
    let clump = base + 0x100;
    let data = base + 0x400;
    let mut bytes = vec![0u8; 0x500];
    bytes[0..4].copy_from_slice(&le32(0x30));
    bytes[0x130..0x134].copy_from_slice(&le32(data as u32));
    bytes[0x408..0x40C].copy_from_slice(&le32(32));
    let image = MemoryImage::new(base, bytes);
    assert_eq!(anim_blend_data(&image, clump), Ok(data));
    assert_eq!(anim_blend_frame_count(&image, clump), Ok(32));
}

#[test]
fn skinned_geometry_needs_an_atomic_a_geometry_and_vertices() {
    assert_eq!(check_geometry(0, Some(5)), Err(RenderWareError::NoAtomic));
    assert_eq!(check_geometry(1, None), Err(RenderWareError::UnreadableGeometry));
    assert_eq!(check_geometry(1, Some(0)), Err(RenderWareError::NoGeometry));
    assert_eq!(check_geometry(1, Some(5)), Ok(5));
    assert_eq!(check_vertex_count(Some(0)), Err(RenderWareError::VertexCountOutOfRange));
    assert_eq!(check_vertex_count(Some(100_000)), Ok(100_000));
    assert_eq!(check_vertex_count(Some(100_001)), Err(RenderWareError::VertexCountOutOfRange));
    assert_eq!(weights_size(0x1000, 3), Ok(48));
    assert_eq!(weights_size(0x1002, 3), Err(RenderWareError::InvalidWeightArray));
    assert_eq!(weights_size(0, 3), Err(RenderWareError::InvalidWeightArray));
    assert_eq!(weights_size(0x1000, -1), Err(RenderWareError::WeightSizeOverflow));
}

#[test]
fn identifies_a_clump_by_its_first_atomic_geometry() {
    let atomic = 0x3000usize;
    let mut bytes = vec![0u8; 0x20];
    bytes[0x18..0x1C].copy_from_slice(&le32(0x4444));
    let image = MemoryImage::new(atomic, bytes);
    let identity = render_object_identity(&image, 0x2000, atomic).unwrap();
    assert_eq!(identity, PedRenderObject::new(0x2000, 0x4444));
    assert_eq!(render_object_identity(&image, 0, atomic), Some(PedRenderObject::new(0, 0)));
    assert_eq!(render_object_identity(&image, 0x2000, 0), None);
}

#[test]
fn only_gtas_ik_manager_is_made_abortable() {
    assert_eq!(check_ik_task(None, None, None), Err(RenderWareError::UnreadableIntelligence));
    assert_eq!(check_ik_task(Some(0), None, None), Err(RenderWareError::NoIntelligence));
    assert_eq!(check_ik_task(Some(1), None, None), Err(RenderWareError::UnreadableIkTask));
    assert_eq!(check_ik_task(Some(1), Some(0), None), Ok(None));
    assert_eq!(check_ik_task(Some(1), Some(9), Some(CTASKSIMPLEIKMANAGER_VTABLE)), Ok(Some(9)));
    assert_eq!(check_ik_task(Some(1), Some(9), Some(0x1234)), Err(RenderWareError::UnsupportedIkTask));
}

#[test]
fn reads_the_secondary_ik_task() {
    let ped = 0x10000usize;
    let intelligence = ped + 0x600;
    let task = ped + 0x700;
    let mut bytes = vec![0u8; 0x800];
    bytes[0x47C..0x480].copy_from_slice(&le32(intelligence as u32));
    bytes[0x62C..0x630].copy_from_slice(&le32(task as u32));
    bytes[0x700..0x704].copy_from_slice(&le32(CTASKSIMPLEIKMANAGER_VTABLE as u32));
    let image = MemoryImage::new(ped, bytes);
    assert_eq!(secondary_ik_task(&image, ped), Ok(Some(task)));
}

#[test]
fn only_gtas_own_delete_rw_object_is_called() {
    assert_eq!(check_delete_target(None, None, None), Err(RenderWareError::UnreadableRenderObject));
    assert_eq!(check_delete_target(Some(0), None, None), Ok(None));
    assert_eq!(check_delete_target(Some(1), None, None), Err(RenderWareError::UnreadableVtable));
    assert_eq!(check_delete_target(Some(1), Some(2), None), Err(RenderWareError::UnreadableDeleteRwObject));
    assert_eq!(check_delete_target(Some(1), Some(2), Some(0)), Err(RenderWareError::NullDeleteRwObject));
    assert_eq!(check_delete_target(Some(1), Some(2), Some(3)), Err(RenderWareError::UnsupportedDeleteRwObject));
    assert_eq!(
        check_delete_target(Some(1), Some(2), Some(ADDR_CPED_DELETE_RW_OBJECT)),
        Ok(Some(ADDR_CPED_DELETE_RW_OBJECT))
    );
    assert_eq!(check_deleted(Some(0)), Ok(()));
    assert_eq!(check_deleted(Some(4)), Err(RenderWareError::RenderObjectNotCleared));
    assert_eq!(check_deleted(None), Err(RenderWareError::UnverifiedDelete));
}

#[test]
fn reads_the_delete_target_from_the_ped_vtable() {
    let ped = 0x20000usize;
    let vtable = ped + 0x100;
    let mut bytes = vec![0u8; 0x200];
    bytes[0..4].copy_from_slice(&le32(vtable as u32));
    bytes[0x18..0x1C].copy_from_slice(&le32(0x5555));
    bytes[0x120..0x124].copy_from_slice(&le32(ADDR_CPED_DELETE_RW_OBJECT as u32));
    let image = MemoryImage::new(ped, bytes);
    assert_eq!(delete_rw_object_target(&image, ped), Ok(Some(ADDR_CPED_DELETE_RW_OBJECT)));
}

#[test]
fn positioning_needs_both_root_frames_and_the_matrix() {
    assert_eq!(check_root_frames(None, Some(1), true), Err(RenderWareError::UnreadableSourceFrame));
    assert_eq!(check_root_frames(Some(1), None, true), Err(RenderWareError::UnreadableCloneFrame));
    assert_eq!(check_root_frames(Some(0), Some(1), true), Err(RenderWareError::NoRootFrame));
    assert_eq!(check_root_frames(Some(1), Some(2), false), Err(RenderWareError::UnreadableModellingMatrix));
    assert_eq!(check_root_frames(Some(1), Some(2), true), Ok((1, 2)));
    let base = 0x30000usize;
    let mut bytes = vec![0u8; 0x200];
    bytes[0x04..0x08].copy_from_slice(&le32((base + 0x100) as u32));
    bytes[0x54..0x58].copy_from_slice(&le32((base + 0x180) as u32));
    let image = MemoryImage::new(base, bytes);
    assert_eq!(clone_root_frames(&image, base, base + 0x50), Ok((base + 0x100, base + 0x180)));
}

#[test]
fn a_ped_model_shares_the_known_ped_vtable() {
    assert_eq!(check_ped_model_info(-1, 1, 1, Some(1), Some(1)), Err(RenderWareError::InvalidModelId));
    assert_eq!(check_ped_model_info(7, 0, 1, Some(1), Some(1)), Err(RenderWareError::NoModelInfo));
    assert_eq!(check_ped_model_info(7, 5, 0, Some(1), Some(1)), Err(RenderWareError::NoKnownPedModel));
    assert_eq!(check_ped_model_info(7, 5, 6, None, Some(1)), Err(RenderWareError::UnreadableModelVtable));
    assert_eq!(check_ped_model_info(7, 5, 6, Some(1), None), Err(RenderWareError::UnreadableKnownPedVtable));
    assert_eq!(check_ped_model_info(7, 5, 6, Some(1), Some(2)), Err(RenderWareError::NotPedModel));
    assert_eq!(check_ped_model_info(294, 5, 6, Some(1), Some(1)), Ok(5));
}

#[test]
fn reads_model_infos_from_the_table() {
    let table = ADDR_MS_MODEL_INFO_PTRS;
    let mut bytes = vec![0u8; 0x600];
    let infos = table + 0x500;
    bytes[7 * 4..7 * 4 + 4].copy_from_slice(&le32(infos as u32));
    bytes[100 * 4..100 * 4 + 4].copy_from_slice(&le32((infos + 0x40) as u32));
    bytes[0x500..0x504].copy_from_slice(&le32(0xAAAA));
    bytes[0x540..0x544].copy_from_slice(&le32(0xAAAA));
    let image = MemoryImage::new(table, bytes);
    assert_eq!(model_info(&image, 7), infos);
    assert_eq!(model_info(&image, 20000), 0);
    assert_eq!(verified_ped_model_info(&image, 100), Ok(infos + 0x40));
    assert_eq!(verified_ped_model_info(&image, 101), Err(RenderWareError::NoModelInfo));
    assert_eq!(verified_ped_model_info(&image, -5), Err(RenderWareError::InvalidModelId));
}

#[test]
fn names_each_renderware_rejection() {
    assert_eq!(RenderWareError::MissingBone.message(), "DFF hierarchy is missing a required GTA ped bone");
    assert_eq!(
        RenderWareError::UnsupportedDeleteRwObject.message(),
        "ped vtable has an unsupported CEntity::DeleteRwObject target"
    );
    assert_eq!(RenderWareError::NotPedModel.message(), "is not a CPedModelInfo ped model");
}

#[test]
fn a_failed_swap_leaves_the_ped_untouched_until_its_clump_is_deleted() {
    assert_eq!(cleanup_after(SwapStage::ModelCheck), SwapCleanup::Nothing);
    assert_eq!(cleanup_after(SwapStage::Clone), SwapCleanup::Nothing);
    assert_eq!(cleanup_after(SwapStage::Prepare), SwapCleanup::DestroyClone);
    assert_eq!(cleanup_after(SwapStage::Associations), SwapCleanup::DestroyClone);
    assert_eq!(cleanup_after(SwapStage::AbortIk), SwapCleanup::ReturnAssociationsAndDestroyClone);
    assert_eq!(cleanup_after(SwapStage::DeleteOrdinary), SwapCleanup::ReturnAssociationsAndDestroyClone);
    assert_eq!(cleanup_after(SwapStage::CreateTemporary), SwapCleanup::RecoverServerClump);
    assert_eq!(cleanup_after(SwapStage::DestroyTemporary), SwapCleanup::RecoverServerClump);
    assert_eq!(cleanup_after(SwapStage::VerifyObject), SwapCleanup::RestoreInstalled);
    assert_eq!(cleanup_after(SwapStage::VerifyModel), SwapCleanup::RestoreInstalled);
}

#[test]
fn a_recovered_clone_is_destroyed_only_after_a_rebuild() {
    assert_eq!(clone_disposition(true, true), CloneDisposition::HandOverAndDestroy);
    assert_eq!(clone_disposition(true, false), CloneDisposition::KeepWithAssociations);
    assert_eq!(clone_disposition(false, true), CloneDisposition::KeepWithAssociations);
    assert_eq!(clone_disposition(false, false), CloneDisposition::KeepWithAssociations);
}

#[test]
fn a_restore_only_removes_its_own_clone() {
    let installed = PedRenderObject::new(0x100, 0x200);
    assert_eq!(check_restorable(None, installed), Err(RestoreError::Unreadable));
    assert_eq!(check_restorable(Some(PedRenderObject::new(0x100, 0x300)), installed), Err(RestoreError::AlreadyReplaced));
    assert_eq!(check_restorable(Some(installed), installed), Ok(()));
    let rebuilt = PedRenderObject::new(0x900, 0x901);
    assert_eq!(check_rebuilt(Some(rebuilt), installed, Some(7), 7), Ok(rebuilt));
    assert_eq!(check_rebuilt(Some(rebuilt), installed, Some(8), 7), Err(RestoreError::WrongModel));
    assert_eq!(check_rebuilt(Some(installed), installed, Some(7), 7), Err(RestoreError::NotRebuilt));
    assert_eq!(check_rebuilt(Some(PedRenderObject::new(0, 0)), installed, Some(7), 7), Err(RestoreError::NotRebuilt));
    assert_eq!(check_rebuilt(None, installed, Some(7), 7), Err(RestoreError::NotRebuilt));
    assert_eq!(RestoreError::AlreadyReplaced.message(), "the installed skin clump was already replaced");
}
