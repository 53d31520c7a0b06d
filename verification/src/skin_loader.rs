//! The skin caches behind one facade: shared prepared sources for every
//! matching ped, and raw instance sources for the local player.

use crate::config::{
    profile_enabled, SkinConfig, SkinConfigView, SkinDefinition, SkinSourceRevision,
};
use crate::gta::{InstanceSkinResources, PedRenderObject, SkinSourceResources};
use crate::instance_cache::{InstanceCache, InstanceCacheView, InstanceStep};
use crate::source_cache::{Lookup, SourceCache, SourceCacheView, SourceStep};
use crate::text::{name_set, names_view};
use vstd::prelude::*;

verus! {

/// The profiles that some enabled rule selects and that are themselves enabled.
pub open spec fn referenced_profiles(config: SkinConfigView) -> Set<Seq<char>> {
    Set::new(
        |id: Seq<char>|
            exists|i: int|
                0 <= i < config.rules.len() && config.rules[i].enabled && #[trigger] config.rules[i].profile_id == id
                    && profile_enabled(config.skins, id),
    )
}

pub struct SkinManager {
    sources: SourceCache,
    instances: InstanceCache,
}

pub struct SkinManagerView {
    pub sources: SourceCacheView,
    pub instances: InstanceCacheView,
}

impl View for SkinManager {
    type V = SkinManagerView;

    closed spec fn view(&self) -> SkinManagerView {
        SkinManagerView { sources: self.sources@, instances: self.instances@ }
    }
}

impl SkinManager {
    pub fn new() -> (manager: Self)
        ensures
            manager@.sources.loaded.is_empty(),
            manager@.sources.retired.len() == 0,
            manager@.sources.failed.is_empty(),
            manager@.sources.last_check.is_empty(),
            manager@.sources.next_generation == 0,
            manager@.instances.loaded.is_empty(),
            manager@.instances.retired.len() == 0,
            manager@.instances.failed.is_empty(),
            manager@.instances.last_check.is_empty(),
    {
        SkinManager { sources: SourceCache::new(), instances: InstanceCache::new() }
    }

    /// The profiles a configuration references.
    fn referenced_skins(config: &SkinConfig) -> (ids: Vec<String>)
        ensures
            name_set(ids@) == referenced_profiles(config@),
    {
        let mut ids: Vec<String> = Vec::new();
        let mut i: usize = 0;
        while i < config.rules.len()
            invariant
                i <= config.rules@.len(),
                forall|id: Seq<char>| name_set(ids@).contains(id) <==> exists|k: int|
                    0 <= k < i && config@.rules[k].enabled && #[trigger] config@.rules[k].profile_id == id
                        && profile_enabled(config@.skins, id),
            decreases config.rules@.len() - i,
        {
            let rule = &config.rules[i];
            assert(config@.rules[i as int] == rule@);
            let ghost before = ids@;
            if rule.enabled && config.profile_enabled(rule.profile_id.as_str()) {
                ids.push(rule.profile_id.clone());
                assert(names_view(ids@) =~= names_view(before).push(rule.profile_id@));
            }
            proof {
                assert forall|id: Seq<char>| name_set(ids@).contains(id) <==> exists|k: int|
                    0 <= k < i + 1 && config@.rules[k].enabled && #[trigger] config@.rules[k].profile_id == id
                        && profile_enabled(config@.skins, id) by {
                    if name_set(ids@).contains(id) && !name_set(before).contains(id) {
                        let a = choose|a: int| 0 <= a < names_view(ids@).len() && names_view(ids@)[a] == id;
                        if a < before.len() {
                            assert(names_view(before)[a] == id);
                        }
                        assert(names_view(ids@).last() == id);
                        assert(config@.rules[i as int].profile_id == id);
                    }
                    if name_set(before).contains(id) {
                        let a = choose|a: int| 0 <= a < names_view(before).len() && names_view(before)[a] == id;
                        assert(names_view(ids@)[a] == id);
                    }
                    if exists|k: int| 0 <= k < i + 1 && config@.rules[k].enabled && #[trigger] config@.rules[k].profile_id == id
                        && profile_enabled(config@.skins, id) {
                        let k = choose|k: int| 0 <= k < i + 1 && config@.rules[k].enabled && #[trigger] config@.rules[k].profile_id == id
                            && profile_enabled(config@.skins, id);
                        if k < i {
                            assert(name_set(before).contains(id));
                        } else {
                            assert(names_view(ids@)[names_view(ids@).len() - 1] == id);
                        }
                    }
                }
            }
            i = i + 1;
        }
        assert(name_set(ids@) =~= referenced_profiles(config@));
        ids
    }

    /// Retires the sources of every profile the configuration no longer
    /// references.
    pub fn apply_config(&mut self, config: &SkinConfig)
        ensures
            final(self)@.sources.loaded == old(self)@.sources.loaded.restrict(referenced_profiles(config@)),
            final(self)@.sources.retired == old(self)@.sources.retired + old(self).source_order().filter(
                |k: Seq<char>| !referenced_profiles(config@).contains(k),
            ).map_values(|k: Seq<char>| crate::source_cache::retired_view(k, old(self)@.sources.loaded[k])),
            final(self)@.sources.failed == old(self)@.sources.failed,
            final(self)@.sources.last_check == old(self)@.sources.last_check,
            final(self)@.sources.next_generation == old(self)@.sources.next_generation,
            final(self)@.instances.loaded == old(self)@.instances.loaded.restrict(referenced_profiles(config@)),
            final(self)@.instances.retired == old(self)@.instances.retired + old(self).instance_order().filter(
                |k: Seq<char>| !referenced_profiles(config@).contains(k),
            ).map_values(|k: Seq<char>| crate::instance_cache::retired_instance_view(k, old(self)@.instances.loaded[k])),
            final(self)@.instances.failed == old(self)@.instances.failed,
            final(self)@.instances.last_check == old(self)@.instances.last_check,
            old(self).source_order().no_duplicates(),
            old(self).instance_order().no_duplicates(),
    {
        let referenced = SkinManager::referenced_skins(config);
        self.sources.retire_unreferenced(&referenced);
        self.instances.retire_unreferenced(&referenced);
    }

    /// The order in which loaded shared sources are stored.
    pub closed spec fn source_order(&self) -> Seq<Seq<char>> {
        self.sources.loaded_order()
    }

    /// The order in which loaded instance sources are stored.
    pub closed spec fn instance_order(&self) -> Seq<Seq<char>> {
        self.instances.loaded_order()
    }

    /// Each storage order lists exactly the loaded profiles of its cache.
    pub proof fn lemma_orders(&self)
        ensures
            forall|k: Seq<char>| #[trigger] self.source_order().contains(k) <==> self@.sources.loaded.contains_key(k),
            forall|k: Seq<char>| #[trigger] self.instance_order().contains(k) <==> self@.instances.loaded.contains_key(k),
    {
        self.sources.lemma_loaded_order();
        self.instances.lemma_loaded_order();
    }

    /// Starts a shared-source lookup; see `SourceCache::load_or_status`.
    pub fn source_for(&self, skin_id: &str, definition: &SkinDefinition, now_ms: u64) -> (step: SourceStep)
        ensures
            if crate::source_cache::retired_has(self@.sources, skin_id@) {
                step == SourceStep::Done(Lookup::RestoreRequired)
            } else if self@.sources.loaded.contains_key(skin_id@) && self@.sources.loaded[skin_id@].source.definition
                == definition@ && crate::source_cache::recently_checked(self@.sources, skin_id@, now_ms) {
                step == SourceStep::Done(Lookup::Ready { generation: self@.sources.loaded[skin_id@].generation })
            } else if crate::source_cache::recently_checked(self@.sources, skin_id@, now_ms)
                && self@.sources.failed.contains_key(skin_id@) && self@.sources.failed[skin_id@].definition
                == definition@ {
                step == SourceStep::Done(Lookup::Unavailable)
            } else {
                step is InspectFiles
            },
    {
        self.sources.load_or_status(skin_id, definition, now_ms)
    }

    /// Continues a shared-source lookup with the asset revision.
    pub fn source_revision(&mut self, skin_id: &str, source: SkinSourceRevision, now_ms: u64) -> (step: SourceStep)
        ensures
            final(self)@.instances == old(self)@.instances,
            final(self)@.sources.last_check == old(self)@.sources.last_check.insert(skin_id@, now_ms),
            final(self)@.sources.next_generation == old(self)@.sources.next_generation,
            if old(self)@.sources.loaded.contains_key(skin_id@) && old(self)@.sources.loaded[skin_id@].source == source@ {
                &&& step == SourceStep::Done(Lookup::Ready { generation: old(self)@.sources.loaded[skin_id@].generation })
                &&& final(self)@.sources.loaded == old(self)@.sources.loaded
                &&& final(self)@.sources.retired == old(self)@.sources.retired
                &&& final(self)@.sources.failed == old(self)@.sources.failed
            } else if old(self)@.sources.loaded.contains_key(skin_id@) {
                &&& step == SourceStep::Done(Lookup::RestoreRequired)
                &&& final(self)@.sources.loaded == old(self)@.sources.loaded.remove(skin_id@)
                &&& final(self)@.sources.retired == old(self)@.sources.retired.push(
                    crate::source_cache::retired_view(skin_id@, old(self)@.sources.loaded[skin_id@]),
                )
                &&& final(self)@.sources.failed == old(self)@.sources.failed.remove(skin_id@)
            } else if old(self)@.sources.failed.contains_key(skin_id@) && old(self)@.sources.failed[skin_id@] == source@ {
                &&& step == SourceStep::Done(Lookup::Unavailable)
                &&& final(self)@.sources.loaded == old(self)@.sources.loaded
                &&& final(self)@.sources.retired == old(self)@.sources.retired
                &&& final(self)@.sources.failed == old(self)@.sources.failed
            } else {
                &&& step matches SourceStep::Load(revision) && revision@ == source@
                &&& final(self)@.sources.loaded == old(self)@.sources.loaded
                &&& final(self)@.sources.retired == old(self)@.sources.retired
                &&& final(self)@.sources.failed == old(self)@.sources.failed
            },
    {
        self.sources.continue_with_revision(skin_id, source, now_ms)
    }

    /// Records the outcome of loading a shared source.
    pub fn source_loaded(&mut self, skin_id: &str, source: SkinSourceRevision, resources: Option<SkinSourceResources>) -> (lookup: Lookup)
        ensures
            final(self)@.instances == old(self)@.instances,
            final(self)@.sources.retired == old(self)@.sources.retired,
            final(self)@.sources.last_check == old(self)@.sources.last_check,
            match resources {
                Some(r) => {
                    &&& lookup == Lookup::Ready { generation: crate::source_cache::next_after(old(self)@.sources.next_generation) }
                    &&& final(self)@.sources.next_generation == crate::source_cache::next_after(old(self)@.sources.next_generation)
                    &&& final(self)@.sources.loaded == old(self)@.sources.loaded.insert(
                        skin_id@,
                        crate::source_cache::LoadedSourceView {
                            resources: r,
                            source: source@,
                            generation: crate::source_cache::next_after(old(self)@.sources.next_generation),
                            clones: Set::empty(),
                        },
                    )
                    &&& final(self)@.sources.failed == old(self)@.sources.failed.remove(skin_id@)
                },
                None => {
                    &&& lookup == Lookup::Unavailable
                    &&& final(self)@.sources.next_generation == old(self)@.sources.next_generation
                    &&& final(self)@.sources.loaded == old(self)@.sources.loaded
                    &&& final(self)@.sources.failed == old(self)@.sources.failed.insert(skin_id@, source@)
                },
            },
    {
        self.sources.finish_load(skin_id, source, resources)
    }

    /// The resources of a loaded shared source.
    pub fn source_resources(&self, skin_id: &str) -> (found: Option<&SkinSourceResources>)
        ensures
            match found {
                Some(r) => self@.sources.loaded.contains_key(skin_id@) && self@.sources.loaded[skin_id@].resources == *r,
                None => !self@.sources.loaded.contains_key(skin_id@),
            },
    {
        self.sources.resources(skin_id)
    }

    /// Remembers a clone installed from a loaded shared source.
    pub fn record_clone(&mut self, skin_id: &str, clone: PedRenderObject)
        ensures
            final(self)@.instances == old(self)@.instances,
            final(self)@.sources.retired == old(self)@.sources.retired,
            final(self)@.sources.failed == old(self)@.sources.failed,
            final(self)@.sources.last_check == old(self)@.sources.last_check,
            final(self)@.sources.next_generation == old(self)@.sources.next_generation,
            final(self)@.sources.loaded == (if old(self)@.sources.loaded.contains_key(skin_id@) {
                old(self)@.sources.loaded.insert(
                    skin_id@,
                    crate::source_cache::LoadedSourceView {
                        clones: old(self)@.sources.loaded[skin_id@].clones.insert(clone),
                        ..old(self)@.sources.loaded[skin_id@]
                    },
                )
            } else {
                old(self)@.sources.loaded
            }),
    {
        self.sources.record_clone(skin_id, clone)
    }

    /// The positions of the retired shared sources none of whose clones is
    /// live; see `SourceCache::releasable`.
    pub fn releasable(&self, live_render_objects: Option<&Vec<PedRenderObject>>) -> (indices: Vec<usize>)
        ensures
            match live_render_objects {
                None => indices@.len() == 0,
                Some(live) => forall|i: usize| #[trigger] indices@.contains(i) <==> (i < self@.sources.retired.len()
                    && self@.sources.retired[i as int].clones.disjoint(live@.to_set())),
            },
            forall|a: int, b: int| 0 <= a < b < indices@.len() ==> indices@[a] < indices@[b],
    {
        self.sources.releasable(live_render_objects)
    }

    /// The profile and resources of the retired shared source at `index`.
    pub fn retired_source(&self, index: usize) -> (source: (&String, SkinSourceResources))
        requires
            index < self@.sources.retired.len(),
        ensures
            source.0@ == self@.sources.retired[index as int].skin_id,
            source.1 == self@.sources.retired[index as int].resources,
    {
        self.sources.retired_source(index)
    }

    /// After a complete liveness scan, drops the retired shared sources that
    /// were released; see `SourceCache::cleanup_retired`.
    pub fn cleanup_retired(&mut self, live_render_objects: Option<&Vec<PedRenderObject>>, released: &Vec<usize>)
        ensures
            final(self)@.instances == old(self)@.instances,
            final(self)@.sources.failed == old(self)@.sources.failed,
            final(self)@.sources.last_check == old(self)@.sources.last_check,
            final(self)@.sources.next_generation == old(self)@.sources.next_generation,
            match live_render_objects {
                None => final(self)@ == old(self)@,
                Some(live) => {
                    &&& final(self)@.sources.loaded == old(self)@.sources.loaded.map_values(
                        |v: crate::source_cache::LoadedSourceView| crate::source_cache::LoadedSourceView {
                            clones: v.clones.intersect(live@.to_set()),
                            ..v
                        },
                    )
                    &&& final(self)@.sources.retired == crate::source_cache::retained_after_release(
                        old(self)@.sources.retired,
                        live@.to_set(),
                        released@,
                    )
                },
            },
    {
        self.sources.cleanup_retired(live_render_objects, released)
    }

    /// Starts a local instance-source lookup; see `InstanceCache::load_or_status`.
    pub fn instance_for(&self, skin_id: &str, definition: &SkinDefinition, now_ms: u64) -> (step: InstanceStep)
        ensures
            if crate::instance_cache::retired_instance_has(self@.instances, skin_id@) {
                step == InstanceStep::Done(crate::instance_cache::Lookup::Unavailable)
            } else if self@.instances.loaded.contains_key(skin_id@) && self@.instances.loaded[skin_id@].source.definition
                == definition@ && crate::instance_cache::instance_checked_recently(self@.instances, skin_id@, now_ms) {
                step == InstanceStep::Done(crate::instance_cache::Lookup::Ready)
            } else if crate::instance_cache::instance_checked_recently(self@.instances, skin_id@, now_ms)
                && self@.instances.failed.contains_key(skin_id@) && self@.instances.failed[skin_id@].definition
                == definition@ {
                step == InstanceStep::Done(crate::instance_cache::Lookup::Unavailable)
            } else {
                step is InspectFiles
            },
    {
        self.instances.load_or_status(skin_id, definition, now_ms)
    }

    /// Continues a local instance-source lookup with the asset revision.
    pub fn instance_revision(&mut self, skin_id: &str, source: SkinSourceRevision, now_ms: u64) -> (step: InstanceStep)
        ensures
            final(self)@.sources == old(self)@.sources,
            final(self)@.instances.last_check == old(self)@.instances.last_check.insert(skin_id@, now_ms),
            if old(self)@.instances.loaded.contains_key(skin_id@) && old(self)@.instances.loaded[skin_id@].source == source@ {
                &&& step == InstanceStep::Done(crate::instance_cache::Lookup::Ready)
                &&& final(self)@.instances.loaded == old(self)@.instances.loaded
                &&& final(self)@.instances.retired == old(self)@.instances.retired
                &&& final(self)@.instances.failed == old(self)@.instances.failed
            } else if old(self)@.instances.loaded.contains_key(skin_id@) {
                &&& step == InstanceStep::Done(crate::instance_cache::Lookup::ResetRequired)
                &&& final(self)@.instances.loaded == old(self)@.instances.loaded.remove(skin_id@)
                &&& final(self)@.instances.retired == old(self)@.instances.retired.push(
                    crate::instance_cache::retired_instance_view(skin_id@, old(self)@.instances.loaded[skin_id@]),
                )
                &&& final(self)@.instances.failed == old(self)@.instances.failed.remove(skin_id@)
            } else if old(self)@.instances.failed.contains_key(skin_id@) && old(self)@.instances.failed[skin_id@]
                == source@ {
                &&& step == InstanceStep::Done(crate::instance_cache::Lookup::Unavailable)
                &&& final(self)@.instances.loaded == old(self)@.instances.loaded
                &&& final(self)@.instances.retired == old(self)@.instances.retired
                &&& final(self)@.instances.failed == old(self)@.instances.failed
            } else {
                &&& step matches InstanceStep::Load(revision) && revision@ == source@
                &&& final(self)@.instances.loaded == old(self)@.instances.loaded
                &&& final(self)@.instances.retired == old(self)@.instances.retired
                &&& final(self)@.instances.failed == old(self)@.instances.failed
            },
    {
        self.instances.continue_with_revision(skin_id, source, now_ms)
    }

    /// Records the outcome of loading a local instance source.
    pub fn instance_loaded(&mut self, skin_id: &str, source: SkinSourceRevision, resources: Option<InstanceSkinResources>) -> (lookup: crate::instance_cache::Lookup)
        ensures
            final(self)@.sources == old(self)@.sources,
            final(self)@.instances.retired == old(self)@.instances.retired,
            final(self)@.instances.last_check == old(self)@.instances.last_check,
            match resources {
                Some(r) => {
                    &&& lookup == crate::instance_cache::Lookup::Ready
                    &&& final(self)@.instances.loaded == old(self)@.instances.loaded.insert(
                        skin_id@,
                        crate::instance_cache::LoadedInstanceView { resources: r, source: source@ },
                    )
                    &&& final(self)@.instances.failed == old(self)@.instances.failed.remove(skin_id@)
                },
                None => {
                    &&& lookup == crate::instance_cache::Lookup::Unavailable
                    &&& final(self)@.instances.loaded == old(self)@.instances.loaded
                    &&& final(self)@.instances.failed == old(self)@.instances.failed.insert(skin_id@, source@)
                },
            },
    {
        self.instances.finish_load(skin_id, source, resources)
    }

    pub fn instance_resources(&self, skin_id: &str) -> (found: Option<&InstanceSkinResources>)
        ensures
            match found {
                Some(r) => self@.instances.loaded.contains_key(skin_id@) && self@.instances.loaded[skin_id@].resources == *r,
                None => !self@.instances.loaded.contains_key(skin_id@),
            },
    {
        self.instances.resources(skin_id)
    }

    /// Keeps only the instance sources of the desired profiles.
    pub fn retain_instance_skins(&mut self, desired_skin_ids: &Vec<String>)
        ensures
            final(self)@.sources == old(self)@.sources,
            final(self)@.instances.loaded == old(self)@.instances.loaded.restrict(name_set(desired_skin_ids@)),
            final(self)@.instances.retired == old(self)@.instances.retired + old(self).instance_order().filter(
                |k: Seq<char>| !name_set(desired_skin_ids@).contains(k),
            ).map_values(|k: Seq<char>| crate::instance_cache::retired_instance_view(k, old(self)@.instances.loaded[k])),
            final(self)@.instances.failed == old(self)@.instances.failed,
            final(self)@.instances.last_check == old(self)@.instances.last_check,
    {
        self.instances.retain(desired_skin_ids)
    }

    /// The positions of the retired instance sources no live local ped
    /// uses; see `InstanceCache::releasable`.
    pub fn releasable_instances(&self, live_skin_ids: Option<&Vec<String>>) -> (indices: Vec<usize>)
        ensures
            match live_skin_ids {
                None => indices@.len() == 0,
                Some(live) => forall|i: usize| #[trigger] indices@.contains(i) <==> (i < self@.instances.retired.len()
                    && !name_set(live@).contains(self@.instances.retired[i as int].skin_id)),
            },
            forall|a: int, b: int| 0 <= a < b < indices@.len() ==> indices@[a] < indices@[b],
    {
        self.instances.releasable(live_skin_ids)
    }

    /// The profile and resources of the retired instance source at `index`.
    pub fn retired_instance(&self, index: usize) -> (source: (&String, InstanceSkinResources))
        requires
            index < self@.instances.retired.len(),
        ensures
            source.0@ == self@.instances.retired[index as int].skin_id,
            source.1 == self@.instances.retired[index as int].resources,
    {
        self.instances.retired_source(index)
    }

    /// When local liveness is known, drops the retired instance sources that
    /// were released; see `InstanceCache::cleanup_retired`.
    pub fn cleanup_retired_instances(&mut self, live_skin_ids: Option<&Vec<String>>, released: &Vec<usize>)
        ensures
            final(self)@.sources == old(self)@.sources,
            final(self)@.instances.loaded == old(self)@.instances.loaded,
            final(self)@.instances.failed == old(self)@.instances.failed,
            final(self)@.instances.last_check == old(self)@.instances.last_check,
            match live_skin_ids {
                None => final(self)@ == old(self)@,
                Some(live) => final(self)@.instances.retired == crate::instance_cache::instances_after_release(
                    old(self)@.instances.retired,
                    name_set(live@),
                    released@,
                ),
            },
    {
        self.instances.cleanup_retired(live_skin_ids, released)
    }
}

} // verus!
