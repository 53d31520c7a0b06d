use wardrobe::config::{
    skin_source_revision, FileRevision, SkinConfig, SkinDefinition, SkinRule, SkinSourceRevision, SkinTable,
};
use wardrobe::gta::{InstanceSkinResources, PedRenderObject, SkinSourceResources};
use wardrobe::instance_cache::{InstanceCache, InstanceStep, Lookup as InstanceLookup};
use wardrobe::skin_loader::SkinManager;
use wardrobe::source_cache::{Lookup, SourceCache, SourceStep};

fn definition(txd: &str) -> SkinDefinition {
    SkinDefinition { enabled: true, txd_path: txd.to_owned(), dff_path: "skin.dff".to_owned() }
}

fn revision(txd: &str, length: u64) -> SkinSourceRevision {
    skin_source_revision(
        &definition(txd),
        FileRevision::Present { modified_ns: 1, length },
        FileRevision::Present { modified_ns: 2, length: 9 },
    )
}

fn resources(slot: i32) -> SkinSourceResources {
    SkinSourceResources { txd_slot: slot, source_clump: 0x1000 + slot as usize }
}

fn names(ids: &[&str]) -> Vec<String> {
    ids.iter().map(|id| (*id).to_owned()).collect()
}

#[test]
fn source_generations_do_not_reuse_zero_after_wrapping() {
    let mut cache = SourceCache::with_next_generation(u64::MAX);

    assert_eq!(cache.allocate_generation(), 1);
}

#[test]
fn retaining_a_profile_does_not_retry_an_unchanged_failed_source() {
    let definition = SkinDefinition {
        enabled: true,
        txd_path: "skin.txd".to_owned(),
        dff_path: "skin.dff".to_owned(),
    };
    let revision = SkinSourceRevision {
        definition,
        txd: FileRevision::Missing,
        dff: FileRevision::Missing,
    };
    let mut cache = SourceCache::new();
    cache.finish_load("staff", revision.duplicate(), None);

    cache.retire_unreferenced(&names(&["staff"]));

    assert!(cache.failed_revision("staff").unwrap().same_as(&revision));
}

#[test]
fn generations_count_up_from_one() {
    let mut cache = SourceCache::new();
    assert_eq!(cache.allocate_generation(), 1);
    assert_eq!(cache.allocate_generation(), 2);
}

#[test]
fn a_first_lookup_inspects_then_loads() {
    let mut cache = SourceCache::new();
    assert!(matches!(cache.load_or_status("a", &definition("a.txd"), 0), SourceStep::InspectFiles));
    let step = cache.continue_with_revision("a", revision("a.txd", 5), 0);
    let source = match step {
        SourceStep::Load(source) => source,
        _ => panic!("expected a load"),
    };
    assert_eq!(cache.finish_load("a", source, Some(resources(3))), Lookup::Ready { generation: 1 });
    assert_eq!(cache.resources("a"), Some(&resources(3)));
    // Within a second an unchanged profile is answered from the cache.
    assert!(matches!(cache.load_or_status("a", &definition("a.txd"), 999), SourceStep::Done(Lookup::Ready { generation: 1 })));
    // After a second the files are inspected again; unchanged files keep the source.
    assert!(matches!(cache.load_or_status("a", &definition("a.txd"), 1000), SourceStep::InspectFiles));
    assert!(matches!(cache.continue_with_revision("a", revision("a.txd", 5), 1000), SourceStep::Done(Lookup::Ready { generation: 1 })));
}

#[test]
fn a_changed_source_is_retired_and_blocks_its_replacement() {
    let mut cache = SourceCache::new();
    cache.finish_load("a", revision("a.txd", 5), Some(resources(3)));
    let clone = PedRenderObject::new(0x50, 0x60);
    cache.record_clone("a", clone);
    assert!(matches!(cache.continue_with_revision("a", revision("a.txd", 6), 0), SourceStep::Done(Lookup::RestoreRequired)));
    assert!(cache.resources("a").is_none());
    // While the old source is retired, no replacement may load.
    assert!(matches!(cache.load_or_status("a", &definition("a.txd"), 5000), SourceStep::Done(Lookup::RestoreRequired)));
    // An incomplete liveness scan releases nothing.
    assert!(cache.releasable(None).is_empty());
    cache.cleanup_retired(None, &vec![0]);
    assert!(matches!(cache.load_or_status("a", &definition("a.txd"), 5000), SourceStep::Done(Lookup::RestoreRequired)));
    // The clone is still live: nothing is released.
    assert!(cache.releasable(Some(&vec![clone])).is_empty());
    cache.cleanup_retired(Some(&vec![clone]), &vec![0]);
    assert!(matches!(cache.load_or_status("a", &definition("a.txd"), 5000), SourceStep::Done(Lookup::RestoreRequired)));
    // Once the clone is gone the source may be released.
    let live: Vec<PedRenderObject> = vec![];
    let released = cache.releasable(Some(&live));
    assert_eq!(released, vec![0]);
    let (skin_id, retired_resources) = cache.retired_source(0);
    assert_eq!(skin_id, "a");
    assert_eq!(retired_resources, resources(3));
    cache.cleanup_retired(Some(&live), &released);
    assert!(cache.releasable(Some(&live)).is_empty());
    assert!(matches!(cache.load_or_status("a", &definition("a.txd"), 5000), SourceStep::InspectFiles));
}

#[test]
fn a_failed_release_is_retried_later() {
    let mut cache = SourceCache::new();
    cache.finish_load("a", revision("a.txd", 5), Some(resources(3)));
    cache.retire_unreferenced(&names(&[]));
    assert_eq!(cache.releasable(Some(&vec![])), vec![0]);
    // The release failed: nothing is dropped.
    cache.cleanup_retired(Some(&vec![]), &vec![]);
    assert!(matches!(cache.load_or_status("a", &definition("a.txd"), 0), SourceStep::Done(Lookup::RestoreRequired)));
    assert_eq!(cache.releasable(Some(&vec![])), vec![0]);
}

#[test]
fn a_failed_release_keeps_the_retired_order() {
    let mut cache = SourceCache::new();
    cache.finish_load("a", revision("a.txd", 5), Some(resources(1)));
    cache.finish_load("b", revision("b.txd", 5), Some(resources(2)));
    cache.finish_load("c", revision("c.txd", 5), Some(resources(3)));
    cache.retire_unreferenced(&names(&[]));
    assert_eq!(cache.releasable(Some(&vec![])), vec![0, 1, 2]);
    assert_eq!(cache.retired_source(0).0, "a");
    assert_eq!(cache.retired_source(1).0, "b");
    assert_eq!(cache.retired_source(2).0, "c");
    // Only `b` was released; `a` and `c` stay in their order.
    cache.cleanup_retired(Some(&vec![]), &vec![1]);
    assert_eq!(cache.releasable(Some(&vec![])), vec![0, 1]);
    assert_eq!(cache.retired_source(0).0, "a");
    assert_eq!(cache.retired_source(1).0, "c");
    assert_eq!(cache.retired_source(1).1, resources(3));
}

#[test]
fn an_unchanged_failed_source_is_not_retried() {
    let mut cache = SourceCache::new();
    assert_eq!(cache.finish_load("a", revision("a.txd", 5), None), Lookup::Unavailable);
    assert!(matches!(cache.continue_with_revision("a", revision("a.txd", 5), 0), SourceStep::Done(Lookup::Unavailable)));
    assert!(matches!(cache.load_or_status("a", &definition("a.txd"), 10), SourceStep::Done(Lookup::Unavailable)));
    // A changed asset is eligible again.
    assert!(matches!(cache.continue_with_revision("a", revision("a.txd", 6), 2000), SourceStep::Load(_)));
}

#[test]
fn unreferenced_sources_retire_and_referenced_ones_stay() {
    let mut cache = SourceCache::new();
    cache.finish_load("a", revision("a.txd", 5), Some(resources(1)));
    cache.finish_load("b", revision("b.txd", 5), Some(resources(2)));
    cache.retire_unreferenced(&names(&["b"]));
    assert!(cache.resources("a").is_none());
    assert_eq!(cache.resources("b"), Some(&resources(2)));
    assert_eq!(cache.releasable(Some(&vec![])), vec![0]);
    assert_eq!(cache.retired_source(0).0, "a");
    assert_eq!(cache.retired_source(0).1, resources(1));
}

#[test]
fn live_clones_are_forgotten_once_they_disappear() {
    let mut cache = SourceCache::new();
    cache.finish_load("a", revision("a.txd", 5), Some(resources(1)));
    let first = PedRenderObject::new(0x10, 0x11);
    let second = PedRenderObject::new(0x20, 0x21);
    cache.record_clone("a", first);
    cache.record_clone("a", second);
    // `first` disappears from a complete scan and is forgotten.
    cache.cleanup_retired(Some(&vec![second]), &vec![]);
    cache.retire_unreferenced(&names(&[]));
    // `first` came back to life at the same address: it no longer belongs to the source.
    assert_eq!(cache.releasable(Some(&vec![first])), vec![0]);
    // `second` is still live and keeps the source.
    assert!(cache.releasable(Some(&vec![second])).is_empty());
}

fn instance_resources(slot: i32) -> InstanceSkinResources {
    InstanceSkinResources { txd_slot: slot, source_clump: 0x2000, donor_model_info: 0x3000 }
}

#[test]
fn an_instance_source_waits_for_its_last_local_user() {
    let mut cache = InstanceCache::new();
    assert_eq!(cache.finish_load("a", revision("a.txd", 5), Some(instance_resources(4))), InstanceLookup::Ready);
    assert!(matches!(cache.continue_with_revision("a", revision("a.txd", 7), 0), InstanceStep::Done(InstanceLookup::ResetRequired)));
    assert!(matches!(cache.load_or_status("a", &definition("a.txd"), 10), InstanceStep::Done(InstanceLookup::Unavailable)));
    assert!(cache.releasable(None).is_empty());
    assert!(cache.releasable(Some(&names(&["a"]))).is_empty());
    cache.cleanup_retired(Some(&names(&["a"])), &vec![0]);
    let released = cache.releasable(Some(&names(&[])));
    assert_eq!(released, vec![0]);
    assert_eq!(cache.retired_source(0).0, "a");
    assert_eq!(cache.retired_source(0).1, instance_resources(4));
    cache.cleanup_retired(Some(&names(&[])), &released);
    assert!(cache.releasable(Some(&names(&[]))).is_empty());
}

#[test]
fn a_failed_instance_release_keeps_the_retired_order() {
    let mut cache = InstanceCache::new();
    cache.finish_load("a", revision("a.txd", 5), Some(instance_resources(1)));
    cache.finish_load("b", revision("b.txd", 5), Some(instance_resources(2)));
    cache.retain(&names(&[]));
    assert_eq!(cache.releasable(Some(&names(&[]))), vec![0, 1]);
    // Only `b` was released.
    cache.cleanup_retired(Some(&names(&[])), &vec![1]);
    assert_eq!(cache.releasable(Some(&names(&[]))), vec![0]);
    assert_eq!(cache.retired_source(0).0, "a");
}

#[test]
fn retiring_instances_keeps_failures() {
    let mut cache = InstanceCache::new();
    cache.finish_load("a", revision("a.txd", 5), None);
    assert!(matches!(cache.continue_with_revision("a", revision("a.txd", 5), 0), InstanceStep::Done(InstanceLookup::Unavailable)));
    cache.retain(&names(&["a"]));
    assert!(matches!(cache.continue_with_revision("a", revision("a.txd", 5), 0), InstanceStep::Done(InstanceLookup::Unavailable)));
    assert!(matches!(cache.continue_with_revision("a", revision("a.txd", 6), 0), InstanceStep::Load(_)));
}

#[test]
fn the_manager_retires_sources_a_new_configuration_drops() {
    let mut manager = SkinManager::new();
    manager.source_loaded("kept", revision("k.txd", 1), Some(resources(1)));
    manager.source_loaded("dropped", revision("d.txd", 1), Some(resources(2)));
    manager.instance_loaded("dropped", revision("d.txd", 1), Some(instance_resources(2)));
    let mut table = SkinTable::new();
    table.insert("kept".to_owned(), definition("k.txd"));
    table.insert("dropped".to_owned(), SkinDefinition { enabled: false, ..definition("d.txd") });
    let mut config = SkinConfig::default();
    config.skins = table;
    config.rules = vec![
        SkinRule { profile_id: "kept".to_owned(), enabled: true, player_name: None, server_model_id: Some(7) },
        SkinRule { profile_id: "dropped".to_owned(), enabled: true, player_name: None, server_model_id: Some(8) },
    ];
    manager.apply_config(&config);
    assert!(manager.source_resources("kept").is_some());
    assert!(manager.source_resources("dropped").is_none());
    assert!(manager.instance_resources("dropped").is_none());
    assert_eq!(manager.releasable(Some(&vec![])), vec![0]);
    assert_eq!(manager.retired_source(0).0, "dropped");
    assert_eq!(manager.releasable_instances(Some(&names(&[]))), vec![0]);
    assert_eq!(manager.retired_instance(0).0, "dropped");
}

#[test]
fn the_manager_runs_the_local_instance_lifecycle() {
    let mut manager = SkinManager::new();
    let def = definition("i.txd");
    assert!(matches!(manager.instance_for("local", &def, 0), InstanceStep::InspectFiles));
    let step = manager.instance_revision("local", revision("i.txd", 3), 0);
    let source = match step {
        InstanceStep::Load(source) => source,
        _ => panic!("a new instance source must be loaded"),
    };
    assert_eq!(manager.instance_loaded("local", source, Some(instance_resources(9))), InstanceLookup::Ready);
    assert!(matches!(manager.instance_for("local", &def, 10), InstanceStep::Done(InstanceLookup::Ready)));
    assert_eq!(manager.instance_resources("local").map(|r| r.txd_slot), Some(9));

    manager.retain_instance_skins(&names(&[]));
    assert!(manager.instance_resources("local").is_none());
    assert!(manager.releasable_instances(Some(&names(&["local"]))).is_empty());
    let released = manager.releasable_instances(Some(&names(&[])));
    assert_eq!(released, vec![0]);
    // A failed release keeps the source retired.
    manager.cleanup_retired_instances(Some(&names(&[])), &vec![]);
    assert!(manager.releasable_instances(None).is_empty());
    assert_eq!(manager.releasable_instances(Some(&names(&[]))), vec![0]);
    manager.cleanup_retired_instances(Some(&names(&[])), &released);
    assert!(manager.releasable_instances(Some(&names(&[]))).is_empty());
}
