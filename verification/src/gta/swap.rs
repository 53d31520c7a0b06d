//! What a skin swap undoes when one of its steps fails.
//!
//! A swap clones the profile's source clump, prepares the clone, moves the
//! ped's live animation associations onto it, deletes the ordinary clump,
//! lets `CEntity` rebuild its bookkeeping around a temporary server clump and
//! finally puts the clone in that clump's place. Until the ordinary clump is
//! deleted a failure leaves the ped untouched and only discards the clone;
//! from then on a failure rebuilds the ped's server clump.

use crate::gta::PedRenderObject;
use vstd::prelude::*;

verus! {

/// The steps of a swap, in the order they run.
#[derive(Clone, Copy, Debug, PartialEq, Eq, Structural)]
pub enum SwapStage {
    /// The ped still has the server model the swap was decided for.
    ModelCheck,
    /// The ped has an ordinary clump to replace.
    OrdinaryClump,
    /// The ordinary clump's AnimBlend frame count was read.
    OrdinaryFrames,
    /// `RpClumpClone` cloned the source clump.
    Clone,
    /// The clone was attached to a hierarchy and animated.
    Prepare,
    /// The clone's geometry identity was read.
    Identify,
    /// The clone has as many frames as the live skeleton.
    FrameCount,
    /// The ordinary clump had live animation associations to move.
    Associations,
    /// The secondary IK task was made abortable.
    AbortIk,
    /// `DeleteRwObject` removed the ordinary clump.
    DeleteOrdinary,
    /// `CreateRwObject` rebuilt the entity bookkeeping.
    CreateTemporary,
    /// The temporary server clump was read back.
    ReadTemporary,
    /// The clone was moved to the temporary clump's frame.
    Position,
    /// The temporary clump was destroyed.
    DestroyTemporary,
    /// The ped holds the installed clone.
    VerifyObject,
    /// The ped kept its server model.
    VerifyModel,
}

/// What undoes a swap that failed at some step.
#[derive(Clone, Copy, Debug, PartialEq, Eq, Structural)]
pub enum SwapCleanup {
    /// Nothing was created yet.
    Nothing,
    /// Destroy the unattached clone.
    DestroyClone,
    /// Give the animation associations back to the ordinary clump, then
    /// destroy the clone.
    ReturnAssociationsAndDestroyClone,
    /// Rebuild the server clump around the ped and hand it the associations.
    RecoverServerClump,
    /// Restore the server model from the installed clone.
    RestoreInstalled,
}

/// The position of a step in the swap.
pub open spec fn stage_index(stage: SwapStage) -> nat {
    match stage {
        SwapStage::ModelCheck => 0,
        SwapStage::OrdinaryClump => 1,
        SwapStage::OrdinaryFrames => 2,
        SwapStage::Clone => 3,
        SwapStage::Prepare => 4,
        SwapStage::Identify => 5,
        SwapStage::FrameCount => 6,
        SwapStage::Associations => 7,
        SwapStage::AbortIk => 8,
        SwapStage::DeleteOrdinary => 9,
        SwapStage::CreateTemporary => 10,
        SwapStage::ReadTemporary => 11,
        SwapStage::Position => 12,
        SwapStage::DestroyTemporary => 13,
        SwapStage::VerifyObject => 14,
        SwapStage::VerifyModel => 15,
    }
}

/// A clone exists once `RpClumpClone` succeeded.
pub open spec fn clone_exists(stage: SwapStage) -> bool {
    stage_index(stage) > stage_index(SwapStage::Clone)
}

/// The clone holds the ped's animation associations from the moment they
/// were moved onto it.
pub open spec fn associations_moved(stage: SwapStage) -> bool {
    stage_index(stage) > stage_index(SwapStage::Associations)
}

/// The ordinary clump is gone once `DeleteRwObject` succeeded.
pub open spec fn ordinary_deleted(stage: SwapStage) -> bool {
    stage_index(stage) > stage_index(SwapStage::DeleteOrdinary)
}

/// The clone is the ped's render object once the temporary clump is gone.
pub open spec fn clone_installed(stage: SwapStage) -> bool {
    stage_index(stage) > stage_index(SwapStage::DestroyTemporary)
}

/// The cleanup for a failure at `stage`.
pub open spec fn cleanup_spec(stage: SwapStage) -> SwapCleanup {
    if clone_installed(stage) {
        SwapCleanup::RestoreInstalled
    } else if ordinary_deleted(stage) {
        SwapCleanup::RecoverServerClump
    } else if associations_moved(stage) {
        SwapCleanup::ReturnAssociationsAndDestroyClone
    } else if clone_exists(stage) {
        SwapCleanup::DestroyClone
    } else {
        SwapCleanup::Nothing
    }
}

/// Decides how to undo a swap that failed at `stage`.
pub fn cleanup_after(stage: SwapStage) -> (cleanup: SwapCleanup)
    ensures
        cleanup == cleanup_spec(stage),
{
    match stage {
        SwapStage::ModelCheck | SwapStage::OrdinaryClump | SwapStage::OrdinaryFrames | SwapStage::Clone => SwapCleanup::Nothing,
        SwapStage::Prepare | SwapStage::Identify | SwapStage::FrameCount | SwapStage::Associations => SwapCleanup::DestroyClone,
        SwapStage::AbortIk | SwapStage::DeleteOrdinary => SwapCleanup::ReturnAssociationsAndDestroyClone,
        SwapStage::CreateTemporary | SwapStage::ReadTemporary | SwapStage::Position | SwapStage::DestroyTemporary => SwapCleanup::RecoverServerClump,
        SwapStage::VerifyObject | SwapStage::VerifyModel => SwapCleanup::RestoreInstalled,
    }
}

/// The cleanup rebuilds the ped's server clump.
pub open spec fn rebuilds_server_clump(cleanup: SwapCleanup) -> bool {
    cleanup == SwapCleanup::RecoverServerClump || cleanup == SwapCleanup::RestoreInstalled
}

/// A failed swap either leaves the ped's ordinary clump untouched or, once
/// the swap deleted it, rebuilds the server clump; an unattached clone is
/// never leaked, and the animation associations go back wherever they came
/// from.
pub proof fn lemma_failed_swap_leaves_or_recovers(stage: SwapStage)
    ensures
        rebuilds_server_clump(cleanup_spec(stage)) <==> ordinary_deleted(stage),
        (clone_exists(stage) && !ordinary_deleted(stage)) ==> (cleanup_spec(stage) == SwapCleanup::DestroyClone
            || cleanup_spec(stage) == SwapCleanup::ReturnAssociationsAndDestroyClone),
        (cleanup_spec(stage) == SwapCleanup::ReturnAssociationsAndDestroyClone) <==> (associations_moved(stage) && !ordinary_deleted(stage)),
        !clone_exists(stage) ==> cleanup_spec(stage) == SwapCleanup::Nothing,
{
}

/// What becomes of the prepared clone while the server clump is rebuilt
/// after a failed swap.
#[derive(Clone, Copy, Debug, PartialEq, Eq, Structural)]
pub enum CloneDisposition {
    /// Keep the clone, which holds the live animation associations, rather
    /// than destroy animations the ped still needs.
    KeepWithAssociations,
    /// Hand the associations to the rebuilt server clump and destroy the
    /// clone.
    HandOverAndDestroy,
}

/// Where the temporary clump could not be deleted or the server clump was
/// not rebuilt, the clone keeps the associations; only a rebuilt clump lets
/// the clone go.
pub open spec fn disposition_spec(temporary_deleted: bool, rebuilt: bool) -> CloneDisposition {
    if temporary_deleted && rebuilt {
        CloneDisposition::HandOverAndDestroy
    } else {
        CloneDisposition::KeepWithAssociations
    }
}

pub fn clone_disposition(temporary_deleted: bool, rebuilt: bool) -> (disposition: CloneDisposition)
    ensures
        disposition == disposition_spec(temporary_deleted, rebuilt),
{
    if temporary_deleted && rebuilt {
        CloneDisposition::HandOverAndDestroy
    } else {
        CloneDisposition::KeepWithAssociations
    }
}

/// Why restoring the server model from an installed clone failed.
#[derive(Clone, Copy, Debug, PartialEq, Eq, Structural)]
pub enum RestoreError {
    /// The ped's render object could not be read.
    Unreadable,
    /// Something else already replaced the installed clone.
    AlreadyReplaced,
    /// `SetModelIndex` did not rebuild a normal clump.
    NotRebuilt,
    /// `SetModelIndex` left another model.
    WrongModel,
}

pub open spec fn restore_error_text(error: RestoreError) -> Seq<char> {
    match error {
        RestoreError::Unreadable => "could not read the ped render object"@,
        RestoreError::AlreadyReplaced => "the installed skin clump was already replaced"@,
        RestoreError::NotRebuilt => "CPed::SetModelIndex did not rebuild a normal render object"@,
        RestoreError::WrongModel => "CPed::SetModelIndex did not restore the remembered server model"@,
    }
}

impl RestoreError {
    pub fn message(&self) -> (text: &'static str)
        ensures
            text@ == restore_error_text(*self),
    {
        match self {
            RestoreError::Unreadable => "could not read the ped render object",
            RestoreError::AlreadyReplaced => "the installed skin clump was already replaced",
            RestoreError::NotRebuilt => "CPed::SetModelIndex did not rebuild a normal render object",
            RestoreError::WrongModel => "CPed::SetModelIndex did not restore the remembered server model",
        }
    }
}

/// A restore only removes the exact clone it installed.
pub fn check_restorable(current: Option<PedRenderObject>, installed: PedRenderObject) -> (verdict: Result<(), RestoreError>)
    ensures
        match current {
            None => verdict == Err::<(), RestoreError>(RestoreError::Unreadable),
            Some(c) => if c == installed {
                verdict is Ok
            } else {
                verdict == Err::<(), RestoreError>(RestoreError::AlreadyReplaced)
            },
        },
{
    match current {
        None => Err(RestoreError::Unreadable),
        Some(c) => if c.same_object(installed) {
            Ok(())
        } else {
            Err(RestoreError::AlreadyReplaced)
        },
    }
}

/// After `SetModelIndex` the ped must hold a new, non-null clump of the
/// remembered server model.
pub fn check_rebuilt(rebuilt: Option<PedRenderObject>, installed: PedRenderObject, model: Option<i16>, server_model_id: i16) -> (verdict: Result<PedRenderObject, RestoreError>)
    ensures
        match rebuilt {
            Some(r) if r.address_spec() != 0 && r != installed => if model == Some(server_model_id) {
                verdict == Ok::<PedRenderObject, RestoreError>(r)
            } else {
                verdict == Err::<PedRenderObject, RestoreError>(RestoreError::WrongModel)
            },
            _ => verdict == Err::<PedRenderObject, RestoreError>(RestoreError::NotRebuilt),
        },
{
    match rebuilt {
        Some(r) => {
            if r.is_null() || r.same_object(installed) {
                return Err(RestoreError::NotRebuilt);
            }
            match model {
                Some(m) => if m == server_model_id {
                    Ok(r)
                } else {
                    Err(RestoreError::WrongModel)
                },
                None => Err(RestoreError::WrongModel),
            }
        },
        None => Err(RestoreError::NotRebuilt),
    }
}

} // verus!
