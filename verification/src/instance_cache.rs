//! Raw local-player instance-source cache.
//!
//! It owns no GTA model IDs. A source retires only after Runtime confirms
//! that no local ped still uses a clone of it.

use crate::config::{within_interval, SkinDefinition, SkinSourceRevision, SkinSourceRevisionView};
use crate::gta::InstanceSkinResources;
use crate::named_map::NamedMap;
use crate::seq_facts::{lemma_take_filter_push, lemma_take_to_set_push};
use crate::source_cache::contains_index;
use crate::text::{name_set, names_contain, names_view};
use vstd::prelude::*;

verus! {

/// A profile's assets are checked for changes at most this often.
pub const ASSET_RELOAD_INTERVAL_MS: u64 = 1000;

struct LoadedInstanceSkin {
    resources: InstanceSkinResources,
    source: SkinSourceRevision,
}

pub struct LoadedInstanceView {
    pub resources: InstanceSkinResources,
    pub source: SkinSourceRevisionView,
}

impl View for LoadedInstanceSkin {
    type V = LoadedInstanceView;

    closed spec fn view(&self) -> LoadedInstanceView {
        LoadedInstanceView { resources: self.resources, source: self.source@ }
    }
}

/// An instance source waiting until no local ped uses it.
pub struct RetiredInstanceSkin {
    skin_id: String,
    resources: InstanceSkinResources,
}

pub struct RetiredInstanceView {
    pub skin_id: Seq<char>,
    pub resources: InstanceSkinResources,
}

impl View for RetiredInstanceSkin {
    type V = RetiredInstanceView;

    closed spec fn view(&self) -> RetiredInstanceView {
        RetiredInstanceView { skin_id: self.skin_id@, resources: self.resources }
    }
}

/// What a lookup tells Runtime about a profile's instance source.
#[derive(Clone, Copy, Debug, PartialEq, Eq, Structural)]
pub enum Lookup {
    Ready,
    /// The profile's source changed; the local ped must return to its server clump.
    ResetRequired,
    Unavailable,
}

/// The next step of a lookup.
pub enum InstanceStep {
    Done(Lookup),
    InspectFiles,
    Load(SkinSourceRevision),
}

pub struct InstanceCacheView {
    pub loaded: Map<Seq<char>, LoadedInstanceView>,
    pub retired: Seq<RetiredInstanceView>,
    pub failed: Map<Seq<char>, SkinSourceRevisionView>,
    pub last_check: Map<Seq<char>, u64>,
}

pub struct InstanceCache {
    loaded: NamedMap<LoadedInstanceSkin>,
    retired: Vec<RetiredInstanceSkin>,
    failed_profiles: NamedMap<SkinSourceRevision>,
    last_asset_check: NamedMap<u64>,
}

impl View for InstanceCache {
    type V = InstanceCacheView;

    closed spec fn view(&self) -> InstanceCacheView {
        InstanceCacheView {
            loaded: self.loaded@.map_values(|l: LoadedInstanceSkin| l@),
            retired: self.retired@.map_values(|r: RetiredInstanceSkin| r@),
            failed: self.failed_profiles@.map_values(|r: SkinSourceRevision| r@),
            last_check: self.last_asset_check@,
        }
    }
}

pub open spec fn retired_instance_has(cache: InstanceCacheView, skin_id: Seq<char>) -> bool {
    exists|i: int| 0 <= i < cache.retired.len() && cache.retired[i].skin_id == skin_id
}

pub open spec fn instance_checked_recently(cache: InstanceCacheView, skin_id: Seq<char>, now_ms: u64) -> bool {
    cache.last_check.contains_key(skin_id) && within_interval(now_ms, cache.last_check[skin_id], ASSET_RELOAD_INTERVAL_MS)
}

pub open spec fn retired_instance_view(skin_id: Seq<char>, loaded: LoadedInstanceView) -> RetiredInstanceView {
    RetiredInstanceView { skin_id, resources: loaded.resources }
}

/// A retired source at position `i` stays retired unless it was released
/// while no live ped uses it.
pub open spec fn instance_stays_retired(r: RetiredInstanceView, i: int, live: Set<Seq<char>>, released: Seq<usize>) -> bool {
    live.contains(r.skin_id) || !released.contains(i as usize)
}

/// The first `n` retired sources that stay, in order.
pub open spec fn instances_retained_prefix(s: Seq<RetiredInstanceView>, n: nat, live: Set<Seq<char>>, released: Seq<usize>) -> Seq<RetiredInstanceView>
    decreases n,
{
    if n == 0 {
        Seq::empty()
    } else {
        let p = instances_retained_prefix(s, (n - 1) as nat, live, released);
        if instance_stays_retired(s[n - 1], n - 1, live, released) {
            p.push(s[n - 1])
        } else {
            p
        }
    }
}

/// The retired list after a cleanup: the sources that stay, in their order.
pub open spec fn instances_after_release(s: Seq<RetiredInstanceView>, live: Set<Seq<char>>, released: Seq<usize>) -> Seq<RetiredInstanceView> {
    instances_retained_prefix(s, s.len(), live, released)
}

proof fn lemma_instance_retained_contains(s: Seq<RetiredInstanceView>, n: nat, live: Set<Seq<char>>, released: Seq<usize>, i: int)
    requires
        0 <= i < n <= s.len(),
        instance_stays_retired(s[i], i, live, released),
    ensures
        instances_retained_prefix(s, n, live, released).contains(s[i]),
    decreases n,
{
    let p = instances_retained_prefix(s, (n - 1) as nat, live, released);
    if i == n - 1 {
        assert(instances_retained_prefix(s, n, live, released) == p.push(s[i]));
        assert(p.push(s[i])[p.len() as int] == s[i]);
    } else {
        lemma_instance_retained_contains(s, (n - 1) as nat, live, released, i);
        let k = choose|k: int| 0 <= k < p.len() && p[k] == s[i];
        if instance_stays_retired(s[n - 1], n - 1, live, released) {
            assert(p.push(s[n - 1])[k] == s[i]);
        }
    }
}

/// An instance source whose release failed, or that a live local ped
/// still uses, stays retired through the cleanup, for a later attempt.
pub proof fn lemma_unreleased_instance_stays_retired(
    cache: InstanceCacheView,
    after: InstanceCacheView,
    live: Set<Seq<char>>,
    released: Seq<usize>,
    i: int,
)
    requires
        0 <= i < cache.retired.len(),
        !released.contains(i as usize) || live.contains(cache.retired[i].skin_id),
        after.retired == instances_after_release(cache.retired, live, released),
    ensures
        after.retired.contains(cache.retired[i]),
{
    lemma_instance_retained_contains(cache.retired, cache.retired.len(), live, released, i);
}

impl InstanceCache {
    pub fn new() -> (cache: Self)
        ensures
            cache@.loaded.is_empty(),
            cache@.retired.len() == 0,
            cache@.failed.is_empty(),
            cache@.last_check.is_empty(),
    {
        let cache = InstanceCache {
            loaded: NamedMap::new(),
            retired: Vec::new(),
            failed_profiles: NamedMap::new(),
            last_asset_check: NamedMap::new(),
        };
        assert(cache@.loaded =~= Map::empty());
        assert(cache@.failed =~= Map::empty());
        cache
    }

    fn retired_contains(&self, skin_id: &str) -> (found: bool)
        ensures
            found == retired_instance_has(self@, skin_id@),
    {
        let mut i: usize = 0;
        while i < self.retired.len()
            invariant
                i <= self.retired@.len(),
                self@.retired == self.retired@.map_values(|r: RetiredInstanceSkin| r@),
                forall|k: int| 0 <= k < i ==> self@.retired[k].skin_id != skin_id@,
            decreases self.retired@.len() - i,
        {
            if crate::text::str_eq(self.retired[i].skin_id.as_str(), skin_id) {
                assert(self@.retired[i as int].skin_id == skin_id@);
                return true;
            }
            i = i + 1;
        }
        false
    }

    fn checked_recently(&self, skin_id: &str, now_ms: u64) -> (recent: bool)
        ensures
            recent == instance_checked_recently(self@, skin_id@, now_ms),
    {
        match self.last_asset_check.get(skin_id) {
            Some(last) => (now_ms as u128) < (*last as u128) + (ASSET_RELOAD_INTERVAL_MS as u128),
            None => false,
        }
    }

    /// Starts a lookup: a profile whose old source is still retired is
    /// unavailable; within a second of the last inspection an unchanged
    /// profile is answered from the cache; otherwise inspect the files.
    pub fn load_or_status(&self, skin_id: &str, definition: &SkinDefinition, now_ms: u64) -> (step: InstanceStep)
        ensures
            if retired_instance_has(self@, skin_id@) {
                step == InstanceStep::Done(Lookup::Unavailable)
            } else if self@.loaded.contains_key(skin_id@) && self@.loaded[skin_id@].source.definition
                == definition@ && instance_checked_recently(self@, skin_id@, now_ms) {
                step == InstanceStep::Done(Lookup::Ready)
            } else if instance_checked_recently(self@, skin_id@, now_ms) && self@.failed.contains_key(skin_id@)
                && self@.failed[skin_id@].definition == definition@ {
                step == InstanceStep::Done(Lookup::Unavailable)
            } else {
                step is InspectFiles
            },
    {
        if self.retired_contains(skin_id) {
            return InstanceStep::Done(Lookup::Unavailable);
        }
        let recent = self.checked_recently(skin_id, now_ms);
        if recent {
            match self.loaded.get(skin_id) {
                Some(loaded) => {
                    if loaded.source.definition.same_as(definition) {
                        return InstanceStep::Done(Lookup::Ready);
                    }
                },
                None => {},
            }
            match self.failed_profiles.get(skin_id) {
                Some(failed) => {
                    if failed.definition.same_as(definition) {
                        return InstanceStep::Done(Lookup::Unavailable);
                    }
                },
                None => {},
            }
        }
        InstanceStep::InspectFiles
    }

    fn retire(&mut self, skin_id: &str)
        ensures
            final(self)@.loaded == old(self)@.loaded.remove(skin_id@),
            final(self)@.retired == (if old(self)@.loaded.contains_key(skin_id@) {
                old(self)@.retired.push(retired_instance_view(skin_id@, old(self)@.loaded[skin_id@]))
            } else {
                old(self)@.retired
            }),
            final(self)@.failed == old(self)@.failed,
            final(self)@.last_check == old(self)@.last_check,
    {
        let ghost before = self@;
        match self.loaded.remove(skin_id) {
            Some(loaded) => {
                let ghost lv = loaded@;
                let retired = RetiredInstanceSkin { skin_id: skin_id.to_owned(), resources: loaded.resources };
                assert(retired@ == retired_instance_view(skin_id@, lv));
                self.retired.push(retired);
                assert(self@.retired =~= before.retired.push(retired_instance_view(skin_id@, before.loaded[skin_id@])));
                assert(self@.loaded =~= before.loaded.remove(skin_id@));
            },
            None => {
                assert(self@.loaded =~= before.loaded.remove(skin_id@));
            },
        }
    }

    /// Continues a lookup with the current revision of the profile's assets.
    pub fn continue_with_revision(&mut self, skin_id: &str, source: SkinSourceRevision, now_ms: u64) -> (step: InstanceStep)
        ensures
            final(self)@.last_check == old(self)@.last_check.insert(skin_id@, now_ms),
            if old(self)@.loaded.contains_key(skin_id@) && old(self)@.loaded[skin_id@].source == source@ {
                &&& step == InstanceStep::Done(Lookup::Ready)
                &&& final(self)@.loaded == old(self)@.loaded
                &&& final(self)@.retired == old(self)@.retired
                &&& final(self)@.failed == old(self)@.failed
            } else if old(self)@.loaded.contains_key(skin_id@) {
                &&& step == InstanceStep::Done(Lookup::ResetRequired)
                &&& final(self)@.loaded == old(self)@.loaded.remove(skin_id@)
                &&& final(self)@.retired == old(self)@.retired.push(retired_instance_view(skin_id@, old(self)@.loaded[skin_id@]))
                &&& final(self)@.failed == old(self)@.failed.remove(skin_id@)
            } else if old(self)@.failed.contains_key(skin_id@) && old(self)@.failed[skin_id@] == source@ {
                &&& step == InstanceStep::Done(Lookup::Unavailable)
                &&& final(self)@.loaded == old(self)@.loaded
                &&& final(self)@.retired == old(self)@.retired
                &&& final(self)@.failed == old(self)@.failed
            } else {
                &&& step matches InstanceStep::Load(revision) && revision@ == source@
                &&& final(self)@.loaded == old(self)@.loaded
                &&& final(self)@.retired == old(self)@.retired
                &&& final(self)@.failed == old(self)@.failed
            },
    {
        let ghost before = self@;
        self.last_asset_check.insert(skin_id.to_owned(), now_ms);
        assert(self@.loaded == before.loaded);
        let unchanged = match self.loaded.get(skin_id) {
            Some(loaded) => loaded.source.same_as(&source),
            None => false,
        };
        if unchanged {
            return InstanceStep::Done(Lookup::Ready);
        }
        if self.loaded.contains_key(skin_id) {
            self.retire(skin_id);
            self.failed_profiles.remove(skin_id);
            assert(self@.failed =~= before.failed.remove(skin_id@));
            return InstanceStep::Done(Lookup::ResetRequired);
        }
        let failed_same = match self.failed_profiles.get(skin_id) {
            Some(failed) => failed.same_as(&source),
            None => false,
        };
        if failed_same {
            return InstanceStep::Done(Lookup::Unavailable);
        }
        InstanceStep::Load(source)
    }

    /// Records the outcome of loading an instance source.
    pub fn finish_load(&mut self, skin_id: &str, source: SkinSourceRevision, resources: Option<InstanceSkinResources>) -> (lookup: Lookup)
        ensures
            final(self)@.retired == old(self)@.retired,
            final(self)@.last_check == old(self)@.last_check,
            match resources {
                Some(r) => {
                    &&& lookup == Lookup::Ready
                    &&& final(self)@.loaded == old(self)@.loaded.insert(skin_id@, LoadedInstanceView { resources: r, source: source@ })
                    &&& final(self)@.failed == old(self)@.failed.remove(skin_id@)
                },
                None => {
                    &&& lookup == Lookup::Unavailable
                    &&& final(self)@.loaded == old(self)@.loaded
                    &&& final(self)@.failed == old(self)@.failed.insert(skin_id@, source@)
                },
            },
    {
        let ghost before = self@;
        match resources {
            Some(resources) => {
                let loaded = LoadedInstanceSkin { resources, source };
                let ghost lv = loaded@;
                self.loaded.insert(skin_id.to_owned(), loaded);
                self.failed_profiles.remove(skin_id);
                assert(self@.loaded =~= before.loaded.insert(skin_id@, lv));
                assert(self@.failed =~= before.failed.remove(skin_id@));
                Lookup::Ready
            },
            None => {
                let ghost sv = source@;
                self.failed_profiles.insert(skin_id.to_owned(), source);
                assert(self@.failed =~= before.failed.insert(skin_id@, sv));
                Lookup::Unavailable
            },
        }
    }

    pub fn resources(&self, skin_id: &str) -> (found: Option<&InstanceSkinResources>)
        ensures
            match found {
                Some(r) => self@.loaded.contains_key(skin_id@) && self@.loaded[skin_id@].resources == *r,
                None => !self@.loaded.contains_key(skin_id@),
            },
    {
        match self.loaded.get(skin_id) {
            Some(loaded) => Some(&loaded.resources),
            None => None,
        }
    }

    /// The order in which loaded sources are stored.
    pub closed spec fn loaded_order(&self) -> Seq<Seq<char>> {
        self.loaded.keys()
    }

    /// The storage order lists exactly the loaded profiles.
    pub proof fn lemma_loaded_order(&self)
        ensures
            forall|k: Seq<char>| #[trigger] self.loaded_order().contains(k) <==> self@.loaded.contains_key(k),
    {
        self.loaded.lemma_keys_are_the_domain();
    }

    /// Retires every loaded source whose profile is not referenced.
    fn retire_loaded_except(&mut self, referenced: &Vec<String>)
        ensures
            final(self)@.loaded == old(self)@.loaded.restrict(name_set(referenced@)),
            final(self)@.retired == old(self)@.retired + old(self).loaded_order().filter(
                |k: Seq<char>| !name_set(referenced@).contains(k),
            ).map_values(|k: Seq<char>| retired_instance_view(k, old(self)@.loaded[k])),
            final(self)@.failed == old(self)@.failed,
            final(self)@.last_check == old(self)@.last_check,
    {
        let ghost before = self@;
        let ghost refs = name_set(referenced@);
        let ghost keys = self.loaded.keys();
        let ghost pred = |k: Seq<char>| !refs.contains(k);
        self.loaded.key_facts();
        assert(forall|k: Seq<char>| before.loaded.contains_key(k) <==> self.loaded@.contains_key(k));
        let mut unneeded: Vec<String> = Vec::new();
        let mut i: usize = 0;
        let n = self.loaded.len();
        while i < n
            invariant
                n == keys.len(),
                self.loaded.keys() == keys,
                i <= n,
                names_view(unneeded@) == keys.take(i as int).filter(pred),
                forall|a: int, b: int| 0 <= a < b < unneeded@.len() ==> unneeded@[a]@ != unneeded@[b]@,
                forall|a: int| 0 <= a < unneeded@.len() ==> exists|m: int| 0 <= m < i && keys[m] == #[trigger] unneeded@[a]@,
                forall|a: int| 0 <= a < unneeded@.len() ==> !refs.contains(#[trigger] unneeded@[a]@),
                forall|m: int| 0 <= m < i && !refs.contains(keys[m]) ==> names_view(unneeded@).contains(#[trigger] keys[m]),
                forall|a: int, b: int| 0 <= a < b < keys.len() ==> keys[a] != keys[b],
                pred == (|k: Seq<char>| !refs.contains(k)),
                refs == name_set(referenced@),
            decreases n - i,
        {
            let (id, _) = self.loaded.entry(i);
            proof {
                lemma_take_filter_push(keys, i as int, pred);
            }
            let ghost before_u = unneeded@;
            if !names_contain(referenced, id.as_str()) {
                unneeded.push(id.clone());
                proof {
                    assert(names_view(unneeded@) =~= names_view(before_u).push(id@));
                    assert forall|a: int| 0 <= a < unneeded@.len() implies exists|m: int| 0 <= m < i + 1 && keys[m] == #[trigger] unneeded@[a]@ by {
                        if a < before_u.len() {
                            assert(unneeded@[a] == before_u[a]);
                        } else {
                            assert(keys[i as int] == unneeded@[a]@);
                        }
                    }
                    assert forall|a: int, b: int| 0 <= a < b < unneeded@.len() implies unneeded@[a]@ != unneeded@[b]@ by {
                        if b == before_u.len() {
                            assert(unneeded@[a] == before_u[a]);
                            let m = choose|m: int| 0 <= m < i && keys[m] == #[trigger] before_u[a]@;
                            assert(keys[m] != keys[i as int]);
                        } else {
                            assert(unneeded@[a] == before_u[a]);
                            assert(unneeded@[b] == before_u[b]);
                        }
                    }
                    assert forall|m: int| 0 <= m < i + 1 && !refs.contains(keys[m]) implies names_view(unneeded@).contains(#[trigger] keys[m]) by {
                        if m < i {
                            assert(names_view(before_u).contains(keys[m]));
                            let a = choose|a: int| 0 <= a < names_view(before_u).len() && names_view(before_u)[a] == keys[m];
                            assert(names_view(unneeded@)[a] == keys[m]);
                        } else {
                            assert(names_view(unneeded@)[before_u.len() as int] == keys[m]);
                        }
                    }
                }
            } else {
                proof {
                    assert forall|m: int| 0 <= m < i + 1 && !refs.contains(keys[m]) implies names_view(unneeded@).contains(#[trigger] keys[m]) by {
                        if m == i {
                            assert(refs.contains(keys[m]));
                        }
                    }
                }
            }
            i = i + 1;
        }
        let ghost u = names_view(unneeded@);
        proof {
            assert(keys.take(n as int) =~= keys);
            assert forall|a: int| 0 <= a < u.len() implies before.loaded.contains_key(#[trigger] u[a]) by {
                let m = choose|m: int| 0 <= m < n && keys[m] == #[trigger] unneeded@[a]@;
                assert(keys.contains(keys[m]));
            }
        }
        let mut j: usize = 0;
        while j < unneeded.len()
            invariant
                j <= unneeded@.len(),
                u == names_view(unneeded@),
                forall|a: int, b: int| 0 <= a < b < unneeded@.len() ==> unneeded@[a]@ != unneeded@[b]@,
                forall|a: int| 0 <= a < u.len() ==> before.loaded.contains_key(#[trigger] u[a]),
                self@.loaded == before.loaded.remove_keys(u.take(j as int).to_set()),
                self@.retired == before.retired + u.take(j as int).map_values(|k: Seq<char>| retired_instance_view(k, before.loaded[k])),
                self@.failed == before.failed,
                self@.last_check == before.last_check,
            decreases unneeded@.len() - j,
        {
            let ghost mid = self@;
            let ghost k = u[j as int];
            assert(unneeded@[j as int]@ == k);
            assert(!u.take(j as int).to_set().contains(k)) by {
                if u.take(j as int).to_set().contains(k) {
                    let a = choose|a: int| 0 <= a < u.take(j as int).len() && u.take(j as int)[a] == k;
                    assert(unneeded@[a]@ == unneeded@[j as int]@);
                }
            }
            assert(mid.loaded.contains_key(k));
            assert(mid.loaded[k] == before.loaded[k]);
            self.retire(unneeded[j].as_str());
            proof {
                lemma_take_to_set_push(u, j as int);
                assert(self@.loaded =~= before.loaded.remove_keys(u.take(j + 1).to_set()));
                assert(u.take(j + 1) =~= u.take(j as int).push(k));
                assert(self@.retired =~= before.retired + u.take(j + 1).map_values(|k: Seq<char>| retired_instance_view(k, before.loaded[k])));
            }
            j = j + 1;
        }
        proof {
            assert(u.take(unneeded@.len() as int) =~= u);
            assert(u == keys.filter(pred));
            assert forall|k: Seq<char>| #[trigger] before.loaded.contains_key(k) implies (u.to_set().contains(k) <==> !refs.contains(k)) by {
                if u.to_set().contains(k) {
                    let a = choose|a: int| 0 <= a < u.len() && u[a] == k;
                    assert(!refs.contains(unneeded@[a]@));
                }
                if !refs.contains(k) {
                    assert(keys.contains(k));
                    let m = choose|m: int| 0 <= m < keys.len() && keys[m] == k;
                    assert(names_view(unneeded@).contains(keys[m]));
                }
            }
            assert(self@.loaded =~= before.loaded.restrict(refs));
        }
    }

    /// Retires every loaded source whose profile is not referenced, keeping
    /// remembered failures so an unchanged broken source is not retried until
    /// its profile or asset revision changes.
    pub fn retire_unreferenced(&mut self, referenced: &Vec<String>)
        ensures
            final(self)@.loaded == old(self)@.loaded.restrict(name_set(referenced@)),
            final(self)@.retired == old(self)@.retired + old(self).loaded_order().filter(
                |k: Seq<char>| !name_set(referenced@).contains(k),
            ).map_values(|k: Seq<char>| retired_instance_view(k, old(self)@.loaded[k])),
            final(self)@.failed == old(self)@.failed,
            final(self)@.last_check == old(self)@.last_check,
            old(self).loaded_order().no_duplicates(),
    {
        self.loaded.key_facts();
        let ghost keys = self.loaded.keys();
        assert(keys.no_duplicates()) by {
            assert forall|a: int, b: int| 0 <= a < keys.len() && 0 <= b < keys.len() && a != b implies keys[a] != keys[b] by {
                if a > b {
                    assert(keys[b] != keys[a]);
                }
            }
        }
        self.retire_loaded_except(referenced);
    }

    /// Keeps only the sources of the desired profiles.
    pub fn retain(&mut self, desired_skin_ids: &Vec<String>)
        ensures
            final(self)@.loaded == old(self)@.loaded.restrict(name_set(desired_skin_ids@)),
            final(self)@.retired == old(self)@.retired + old(self).loaded_order().filter(
                |k: Seq<char>| !name_set(desired_skin_ids@).contains(k),
            ).map_values(|k: Seq<char>| retired_instance_view(k, old(self)@.loaded[k])),
            final(self)@.failed == old(self)@.failed,
            final(self)@.last_check == old(self)@.last_check,
    {
        self.retire_unreferenced(desired_skin_ids);
    }

    /// The positions of the retired sources that no live local ped uses, in
    /// list order; none while the liveness of instance skins is unknown.
    pub fn releasable(&self, live_skin_ids: Option<&Vec<String>>) -> (indices: Vec<usize>)
        ensures
            match live_skin_ids {
                None => indices@.len() == 0,
                Some(live) => forall|i: usize| #[trigger] indices@.contains(i) <==> (i < self@.retired.len()
                    && !name_set(live@).contains(self@.retired[i as int].skin_id)),
            },
            forall|a: int, b: int| 0 <= a < b < indices@.len() ==> indices@[a] < indices@[b],
    {
        let mut indices: Vec<usize> = Vec::new();
        let live = match live_skin_ids {
            None => {
                return indices;
            },
            Some(live) => live,
        };
        let mut i: usize = 0;
        while i < self.retired.len()
            invariant
                i <= self.retired@.len(),
                self@.retired == self.retired@.map_values(|r: RetiredInstanceSkin| r@),
                forall|j: usize| #[trigger] indices@.contains(j) <==> (j < i
                    && !name_set(live@).contains(self@.retired[j as int].skin_id)),
                forall|a: int, b: int| 0 <= a < b < indices@.len() ==> indices@[a] < indices@[b],
                forall|a: int| 0 <= a < indices@.len() ==> indices@[a] < i,
            decreases self.retired@.len() - i,
        {
            let ghost before = indices@;
            assert(self@.retired[i as int] == self.retired@[i as int]@);
            if !names_contain(live, self.retired[i].skin_id.as_str()) {
                indices.push(i);
                assert(indices@ == before.push(i));
                assert forall|j: usize| #[trigger] indices@.contains(j) <==> (j < i + 1
                    && !name_set(live@).contains(self@.retired[j as int].skin_id)) by {
                    if indices@.contains(j) {
                        let k = choose|k: int| 0 <= k < indices@.len() && indices@[k] == j;
                        if k < before.len() {
                            assert(before[k] == j);
                            assert(before.contains(j));
                        } else {
                            assert(j == i);
                        }
                    }
                    if j < i + 1 && !name_set(live@).contains(self@.retired[j as int].skin_id) {
                        if j < i {
                            assert(before.contains(j));
                            let k = choose|k: int| 0 <= k < before.len() && before[k] == j;
                            assert(indices@[k] == j);
                        } else {
                            assert(indices@[before.len() as int] == i);
                        }
                    }
                }
            } else {
                assert forall|j: usize| #[trigger] indices@.contains(j) <==> (j < i + 1
                    && !name_set(live@).contains(self@.retired[j as int].skin_id)) by {
                    if indices@.contains(j) {
                        let k = choose|k: int| 0 <= k < indices@.len() && indices@[k] == j;
                        assert(indices@[k] < i);
                    }
                }
            }
            i = i + 1;
        }
        indices
    }

    /// The profile and resources of the retired source at `index`.
    pub fn retired_source(&self, index: usize) -> (source: (&String, InstanceSkinResources))
        requires
            index < self@.retired.len(),
        ensures
            source.0@ == self@.retired[index as int].skin_id,
            source.1 == self@.retired[index as int].resources,
    {
        assert(self@.retired[index as int] == self.retired@[index as int]@);
        (&self.retired[index].skin_id, self.retired[index].resources)
    }

    /// When the liveness of local instance skins is known, drops every
    /// retired source that was released (`released` holds its position)
    /// while no live ped uses it. A source whose release failed stays where
    /// it was. Otherwise nothing changes.
    pub fn cleanup_retired(&mut self, live_skin_ids: Option<&Vec<String>>, released: &Vec<usize>)
        ensures
            final(self)@.loaded == old(self)@.loaded,
            final(self)@.failed == old(self)@.failed,
            final(self)@.last_check == old(self)@.last_check,
            match live_skin_ids {
                None => final(self)@ == old(self)@,
                Some(live) => final(self)@.retired == instances_after_release(
                    old(self)@.retired,
                    name_set(live@),
                    released@,
                ),
            },
    {
        let live = match live_skin_ids {
            None => {
                return;
            },
            Some(live) => live,
        };
        let ghost before = self@;
        let ghost ls = name_set(live@);
        let mut pending: Vec<RetiredInstanceSkin> = Vec::new();
        std::mem::swap(&mut pending, &mut self.retired);
        let ghost orig = before.retired;
        let mut i: usize = 0;
        let n = pending.len();
        assert(pending@.map_values(|r: RetiredInstanceSkin| r@) =~= orig.skip(0));
        while pending.len() > 0
            invariant
                n == orig.len(),
                i + pending@.len() == n,
                pending@.map_values(|r: RetiredInstanceSkin| r@) == orig.skip(i as int),
                self.retired@.map_values(|r: RetiredInstanceSkin| r@) == instances_retained_prefix(orig, i as nat, ls, released@),
                ls == name_set(live@),
                self@.loaded == before.loaded,
                self@.failed == before.failed,
                self@.last_check == before.last_check,
                before == old(self)@,
            decreases pending@.len(),
        {
            let ghost pv = pending@.map_values(|r: RetiredInstanceSkin| r@);
            let ghost old_pending = pending@;
            assert(pv[0] == old_pending[0]@);
            assert(pv[0] == orig.skip(i as int)[0]);
            let retired = pending.remove(0);
            proof {
                assert(retired@ == orig[i as int]);
                let ghost nv = pending@.map_values(|r: RetiredInstanceSkin| r@);
                assert forall|a: int| 0 <= a < pending@.len() implies #[trigger] nv[a] == orig.skip(i + 1)[a] by {
                    assert(pending@[a] == old_pending[a + 1]);
                    assert(pv[a + 1] == old_pending[a + 1]@);
                }
                assert(nv =~= orig.skip(i + 1));
            }
            let ghost kept = self.retired@;
            let stays = names_contain(live, retired.skin_id.as_str()) || !contains_index(released, i);
            assert(stays == instance_stays_retired(orig[i as int], i as int, ls, released@));
            if stays {
                self.retired.push(retired);
                assert(self.retired@.map_values(|r: RetiredInstanceSkin| r@) =~= kept.map_values(
                    |r: RetiredInstanceSkin| r@,
                ).push(orig[i as int]));
            }
            i = i + 1;
        }
        proof {
            assert(orig.take(n as int) =~= orig);
        }
    }
}

/// A profile's assets are inspected at most once a second.
pub proof fn lemma_documented_constants()
    ensures
        ASSET_RELOAD_INTERVAL_MS == 0x3E8,
{
}

} // verus!
