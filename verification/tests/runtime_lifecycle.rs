use wardrobe::config::{SkinConfig, SkinDefinition, SkinRule, SkinTable};
use wardrobe::gta::{PedRenderObject, SkinSourceResources};
use wardrobe::runtime::{
    local_instance_reset_kind, LookupOutcome, PedDecision, PedObservation, RestoreReason, RestoreStep, Runtime,
    ScanPlan,
};
use wardrobe::source_cache::Lookup;

#[test]
fn detects_a_local_reset_when_only_the_server_model_changes() {
    assert_eq!(
        local_instance_reset_kind(false, false, Some(7), 294),
        Some("model ID changed while GTA reused the render-object address")
    );
}

#[test]
fn keeps_an_unchanged_local_instance_applied() {
    assert_eq!(local_instance_reset_kind(false, false, Some(7), 7), None);
}

#[test]
fn a_changed_render_object_is_always_a_local_reset() {
    assert_eq!(
        local_instance_reset_kind(true, false, Some(7), 7),
        Some("render-object pointer changed")
    );
}

#[test]
fn detects_allocator_reuse_from_a_different_geometry() {
    assert_eq!(
        local_instance_reset_kind(true, true, Some(7), 7),
        Some("render-object address was reused with different geometry")
    );
}

#[test]
fn no_remembered_model_means_no_model_reset() {
    assert_eq!(local_instance_reset_kind(false, false, None, 294), None);
}

fn config() -> SkinConfig {
    let mut table = SkinTable::new();
    table.insert(
        "staff".to_owned(),
        SkinDefinition { enabled: true, txd_path: "staff.txd".to_owned(), dff_path: "staff.dff".to_owned() },
    );
    let mut config = SkinConfig::default();
    config.skins = table;
    config.rules = vec![SkinRule {
        profile_id: "staff".to_owned(),
        enabled: true,
        player_name: Some("Jacob_Spencer".to_owned()),
        server_model_id: None,
    }];
    config
}

fn ped(id: u16, name: &str, model: i16, render: PedRenderObject) -> PedObservation {
    PedObservation { player_id: id, name: Some(name.to_owned()), model_id: model, render_object: render }
}

fn resources() -> SkinSourceResources {
    SkinSourceResources { txd_slot: 5, source_clump: 0x4000 }
}

/// A runtime whose "staff" source is loaded at generation 1.
fn loaded_runtime() -> Runtime {
    let mut runtime = Runtime::new(config());
    let source = wardrobe::config::skin_source_revision(
        runtime.config().skins.get("staff").unwrap(),
        wardrobe::config::FileRevision::Missing,
        wardrobe::config::FileRevision::Missing,
    );
    assert_eq!(runtime.source_loaded("staff", source, Some(resources())), Lookup::Ready { generation: 1 });
    runtime
}

#[test]
fn a_matching_ped_gets_the_profile_source_installed() {
    let mut runtime = loaded_runtime();
    let server_clump = PedRenderObject::new(0x100, 0x101);
    let jacob = ped(3, "Jacob_Spencer", 7, server_clump);
    let plan = runtime.decide_ped(&jacob);
    assert!(plan.newly_matched);
    assert!(plan.reset.is_none());
    let (skin_id, already) = match plan.decision {
        PedDecision::Reconcile { skin_id, already_applied, .. } => (skin_id, already_applied),
        PedDecision::Restore(_) => panic!("expected a reconcile"),
    };
    assert_eq!(skin_id, "staff");
    assert!(!already);
    match runtime.after_lookup(&jacob, &skin_id, Lookup::Ready { generation: 1 }, already) {
        LookupOutcome::Install { resources: r, generation } => {
            assert_eq!(r, resources());
            assert_eq!(generation, 1);
        },
        _ => panic!("expected an install"),
    }
    let clone = PedRenderObject::new(0x200, 0x201);
    runtime.finish_install(&jacob, &skin_id, 1, Some(clone));

    // The next frame sees the clone: nothing more to do.
    let worn = ped(3, "Jacob_Spencer", 7, clone);
    let plan = runtime.decide_ped(&worn);
    assert!(!plan.newly_matched);
    assert!(matches!(plan.decision, PedDecision::Reconcile { already_applied: true, .. }));
    assert!(matches!(runtime.after_lookup(&worn, "staff", Lookup::Ready { generation: 1 }, true), LookupOutcome::Keep));
}

#[test]
fn a_failed_install_is_not_retried_until_something_changes() {
    let mut runtime = loaded_runtime();
    let jacob = ped(3, "Jacob_Spencer", 7, PedRenderObject::new(0x100, 0x101));
    runtime.decide_ped(&jacob);
    runtime.finish_install(&jacob, "staff", 1, None);
    assert!(matches!(runtime.after_lookup(&jacob, "staff", Lookup::Ready { generation: 1 }, false), LookupOutcome::Keep));
    // A new source generation makes the ped eligible again.
    assert!(matches!(
        runtime.after_lookup(&jacob, "staff", Lookup::Ready { generation: 2 }, false),
        LookupOutcome::Install { .. }
    ));
    // So does a server reset of the ped's clump.
    let reset = ped(3, "Jacob_Spencer", 7, PedRenderObject::new(0x300, 0x301));
    assert!(matches!(
        runtime.after_lookup(&reset, "staff", Lookup::Ready { generation: 1 }, false),
        LookupOutcome::Install { .. }
    ));
}

#[test]
fn a_server_reset_forgets_the_installed_clone() {
    let mut runtime = loaded_runtime();
    let jacob = ped(3, "Jacob_Spencer", 7, PedRenderObject::new(0x100, 0x101));
    runtime.decide_ped(&jacob);
    let clone = PedRenderObject::new(0x200, 0x201);
    runtime.finish_install(&jacob, "staff", 1, Some(clone));
    let rebuilt = ped(3, "Jacob_Spencer", 7, PedRenderObject::new(0x200, 0x999));
    let plan = runtime.decide_ped(&rebuilt);
    assert_eq!(plan.reset, Some("render-object address was reused with different geometry"));
    assert!(plan.newly_matched);
    assert!(matches!(plan.decision, PedDecision::Reconcile { already_applied: false, .. }));
}

#[test]
fn an_unmatched_ped_is_restored_to_its_remembered_server_model() {
    let mut runtime = loaded_runtime();
    let jacob = ped(3, "Jacob_Spencer", 7, PedRenderObject::new(0x100, 0x101));
    runtime.decide_ped(&jacob);
    let clone = PedRenderObject::new(0x200, 0x201);
    runtime.finish_install(&jacob, "staff", 1, Some(clone));

    let renamed = ped(3, "Someone_Else", 7, clone);
    let plan = runtime.decide_ped(&renamed);
    assert!(matches!(plan.decision, PedDecision::Restore(RestoreReason::NoMatchingRule)));
    assert_eq!(RestoreReason::NoMatchingRule.text(), "having no matching rule");
    assert_eq!(
        runtime.restore_server_model(3, Some(7), Some(clone)),
        RestoreStep::Rebuild { server_model_id: 7, installed: clone }
    );
    // A failed rebuild keeps the state so it is retried.
    runtime.finish_restore(3, false);
    assert_eq!(
        runtime.restore_server_model(3, Some(7), Some(clone)),
        RestoreStep::Rebuild { server_model_id: 7, installed: clone }
    );
    runtime.finish_restore(3, true);
    assert_eq!(runtime.restore_server_model(3, Some(7), Some(clone)), RestoreStep::Nothing);
}

#[test]
fn a_newer_server_clump_is_never_overwritten() {
    let mut runtime = loaded_runtime();
    let jacob = ped(3, "Jacob_Spencer", 7, PedRenderObject::new(0x100, 0x101));
    runtime.decide_ped(&jacob);
    let clone = PedRenderObject::new(0x200, 0x201);
    runtime.finish_install(&jacob, "staff", 1, Some(clone));
    assert_eq!(
        runtime.restore_server_model(3, Some(7), Some(PedRenderObject::new(0x500, 0x501))),
        RestoreStep::AlreadyReset
    );
    assert_eq!(runtime.restore_server_model(3, Some(7), Some(clone)), RestoreStep::Nothing);
}

#[test]
fn a_changed_source_restores_its_users() {
    let runtime = loaded_runtime();
    let jacob = ped(3, "Jacob_Spencer", 7, PedRenderObject::new(0x100, 0x101));
    assert!(matches!(
        runtime.after_lookup(&jacob, "staff", Lookup::RestoreRequired, false),
        LookupOutcome::Restore(RestoreReason::SourceChanged)
    ));
    assert!(matches!(runtime.after_lookup(&jacob, "staff", Lookup::Unavailable, false), LookupOutcome::Keep));
}

#[test]
fn streamed_out_players_are_pruned_only_after_their_clones_vanish() {
    let mut runtime = loaded_runtime();
    let jacob = ped(3, "Jacob_Spencer", 7, PedRenderObject::new(0x100, 0x101));
    runtime.decide_ped(&jacob);
    let clone = PedRenderObject::new(0x200, 0x201);
    runtime.finish_install(&jacob, "staff", 1, Some(clone));
    // An incomplete liveness scan keeps the clone.
    runtime.prune_streamed_out_players(&vec![], None);
    assert_eq!(runtime.scan_plan(), ScanPlan::Full);
    assert!(matches!(runtime.restore_server_model(3, Some(7), Some(clone)), RestoreStep::Rebuild { .. }));
    // Still live somewhere: kept.
    runtime.prune_streamed_out_players(&vec![], Some(&vec![clone]));
    assert!(matches!(runtime.restore_server_model(3, Some(7), Some(clone)), RestoreStep::Rebuild { .. }));
    // Gone: forgotten.
    runtime.prune_streamed_out_players(&vec![], Some(&vec![]));
    assert_eq!(runtime.restore_server_model(3, Some(7), Some(clone)), RestoreStep::Nothing);
}

#[test]
fn scans_follow_the_configured_interval_unless_requested() {
    let mut runtime = Runtime::new(config());
    assert!(runtime.scan_due(1000, false, false));
    assert!(!runtime.scan_due(2999, false, false));
    assert!(runtime.scan_due(2999, true, false));
    assert!(runtime.scan_due(3000, false, true));
    assert!(runtime.scan_due(5000, false, false));
}

#[test]
fn an_empty_configuration_only_cleans_up() {
    let runtime = Runtime::new(SkinConfig::default());
    assert_eq!(runtime.scan_plan(), ScanPlan::CleanupOnly);
}

#[test]
fn a_failed_ped_scan_is_not_an_empty_scan() {
    let mut runtime = loaded_runtime();
    let jacob = ped(3, "Jacob_Spencer", 7, PedRenderObject::new(0x100, 0x101));
    runtime.decide_ped(&jacob);
    let clone = PedRenderObject::new(0x200, 0x201);
    runtime.finish_install(&jacob, "staff", 1, Some(clone));
    // The scan failed: nobody is pruned though no clone is live.
    runtime.after_scan(None, Some(&vec![]), &vec![]);
    assert!(matches!(runtime.restore_server_model(3, Some(7), Some(clone)), RestoreStep::Rebuild { .. }));
    // A successful scan that finds nobody prunes the player.
    runtime.after_scan(Some(&vec![]), Some(&vec![]), &vec![]);
    assert_eq!(runtime.restore_server_model(3, Some(7), Some(clone)), RestoreStep::Nothing);
}

#[test]
fn a_reload_retires_the_sources_it_no_longer_references() {
    let mut runtime = loaded_runtime();
    let action = runtime.reload_config_if_changed(wardrobe::config::ConfigEvent::Parsed { result: Ok(SkinConfig::default()) });
    assert!(matches!(action, wardrobe::runtime::ReloadAction::Reloaded { skin_count: 0, rule_count: 0 }));
    assert_eq!(runtime.releasable_sources(Some(&vec![])), vec![0]);
    let (skin_id, retired) = runtime.retired_source(0);
    assert_eq!(skin_id, "staff");
    assert_eq!(retired, resources());
}
