//! Shared prepared skin-source cache.
//!
//! One source is loaded per profile and cloned into every matching ped. A
//! retired source owns the identities of its installed clones until a complete
//! scan proves none of them is still live.

use crate::config::{
    within_interval, SkinDefinition, SkinDefinitionView, SkinSourceRevision, SkinSourceRevisionView,
};
use crate::gta::{PedRenderObject, SkinSourceResources};
use crate::named_map::NamedMap;
use crate::seq_facts::{lemma_take_filter_push, lemma_take_to_set_push};
use crate::text::{name_set, names_contain, names_view};
use vstd::prelude::*;

verus! {

/// A profile's assets are checked for changes at most this often.
pub const ASSET_RELOAD_INTERVAL_MS: u64 = 1000;

struct LoadedSkinSource {
    resources: SkinSourceResources,
    source: SkinSourceRevision,
    generation: u64,
    installed_clones: Vec<PedRenderObject>,
}

pub struct LoadedSourceView {
    pub resources: SkinSourceResources,
    pub source: SkinSourceRevisionView,
    pub generation: u64,
    pub clones: Set<PedRenderObject>,
}

impl View for LoadedSkinSource {
    type V = LoadedSourceView;

    closed spec fn view(&self) -> LoadedSourceView {
        LoadedSourceView {
            resources: self.resources,
            source: self.source@,
            generation: self.generation,
            clones: self.installed_clones@.to_set(),
        }
    }
}

/// A source that no profile uses any more, waiting until none of its clones
/// is live before its resources are released.
pub struct RetiredSkinSource {
    skin_id: String,
    resources: SkinSourceResources,
    installed_clones: Vec<PedRenderObject>,
}

pub struct RetiredSourceView {
    pub skin_id: Seq<char>,
    pub resources: SkinSourceResources,
    pub clones: Set<PedRenderObject>,
}

impl View for RetiredSkinSource {
    type V = RetiredSourceView;

    closed spec fn view(&self) -> RetiredSourceView {
        RetiredSourceView {
            skin_id: self.skin_id@,
            resources: self.resources,
            clones: self.installed_clones@.to_set(),
        }
    }
}

/// What a lookup tells Runtime about a profile's source.
#[derive(Clone, Copy, Debug, PartialEq, Eq, Structural)]
pub enum Lookup {
    /// The source is loaded; clones made from it carry this generation.
    Ready { generation: u64 },
    /// An old source of the profile must first lose all its clones.
    RestoreRequired,
    /// The source failed to load and nothing about it has changed.
    Unavailable,
}

/// The next step of a lookup.
pub enum SourceStep {
    /// The lookup is answered.
    Done(Lookup),
    /// Report the current revision of the profile's asset files.
    InspectFiles,
    /// Load this revision of the source through the GTA bridge.
    Load(SkinSourceRevision),
}

pub struct SourceCacheView {
    pub loaded: Map<Seq<char>, LoadedSourceView>,
    pub retired: Seq<RetiredSourceView>,
    pub failed: Map<Seq<char>, SkinSourceRevisionView>,
    pub last_check: Map<Seq<char>, u64>,
    pub next_generation: u64,
}

pub struct SourceCache {
    loaded: NamedMap<LoadedSkinSource>,
    retired: Vec<RetiredSkinSource>,
    failed_profiles: NamedMap<SkinSourceRevision>,
    last_asset_check: NamedMap<u64>,
    next_generation: u64,
}

impl View for SourceCache {
    type V = SourceCacheView;

    closed spec fn view(&self) -> SourceCacheView {
        SourceCacheView {
            loaded: self.loaded@.map_values(|l: LoadedSkinSource| l@),
            retired: self.retired@.map_values(|r: RetiredSkinSource| r@),
            failed: self.failed_profiles@.map_values(|r: SkinSourceRevision| r@),
            last_check: self.last_asset_check@,
            next_generation: self.next_generation,
        }
    }
}

/// A retired source with the given ID is waiting for release.
pub open spec fn retired_has(cache: SourceCacheView, skin_id: Seq<char>) -> bool {
    exists|i: int| 0 <= i < cache.retired.len() && cache.retired[i].skin_id == skin_id
}

/// The profile's assets were inspected less than a second ago.
pub open spec fn recently_checked(cache: SourceCacheView, skin_id: Seq<char>, now_ms: u64) -> bool {
    cache.last_check.contains_key(skin_id) && within_interval(now_ms, cache.last_check[skin_id], ASSET_RELOAD_INTERVAL_MS)
}

/// The generation that follows `g`; zero is never produced.
pub open spec fn next_after(g: u64) -> u64 {
    if g == u64::MAX { 1 } else { (g + 1) as u64 }
}

/// The retired record of a loaded source.
pub open spec fn retired_view(skin_id: Seq<char>, loaded: LoadedSourceView) -> RetiredSourceView {
    RetiredSourceView { skin_id, resources: loaded.resources, clones: loaded.clones }
}

/// A retired source at position `i` stays retired unless it was released
/// while none of its clones is live.
pub open spec fn stays_retired(r: RetiredSourceView, i: int, live: Set<PedRenderObject>, released: Seq<usize>) -> bool {
    !r.clones.disjoint(live) || !released.contains(i as usize)
}

/// The first `n` retired sources that stay, in order.
pub open spec fn retained_prefix(s: Seq<RetiredSourceView>, n: nat, live: Set<PedRenderObject>, released: Seq<usize>) -> Seq<RetiredSourceView>
    decreases n,
{
    if n == 0 {
        Seq::empty()
    } else {
        let p = retained_prefix(s, (n - 1) as nat, live, released);
        if stays_retired(s[n - 1], n - 1, live, released) {
            p.push(s[n - 1])
        } else {
            p
        }
    }
}

/// The retired list after a cleanup: the sources that stay, in their order.
pub open spec fn retained_after_release(s: Seq<RetiredSourceView>, live: Set<PedRenderObject>, released: Seq<usize>) -> Seq<RetiredSourceView> {
    retained_prefix(s, s.len(), live, released)
}

proof fn lemma_retained_contains(s: Seq<RetiredSourceView>, n: nat, live: Set<PedRenderObject>, released: Seq<usize>, i: int)
    requires
        0 <= i < n <= s.len(),
        stays_retired(s[i], i, live, released),
    ensures
        retained_prefix(s, n, live, released).contains(s[i]),
    decreases n,
{
    let p = retained_prefix(s, (n - 1) as nat, live, released);
    if i == n - 1 {
        assert(retained_prefix(s, n, live, released) == p.push(s[i]));
        assert(p.push(s[i])[p.len() as int] == s[i]);
    } else {
        lemma_retained_contains(s, (n - 1) as nat, live, released, i);
        let k = choose|k: int| 0 <= k < p.len() && p[k] == s[i];
        if stays_retired(s[n - 1], n - 1, live, released) {
            assert(p.push(s[n - 1])[k] == s[i]);
        }
    }
}

/// A retired source some of whose clones a complete scan still found live
/// stays retired through the cleanup, so the profile's replacement stays
/// blocked (`Lookup::RestoreRequired`) until those clones are gone.
pub proof fn lemma_live_clone_keeps_replacement_blocked(
    cache: SourceCacheView,
    after: SourceCacheView,
    live: Set<PedRenderObject>,
    released: Seq<usize>,
    skin_id: Seq<char>,
    i: int,
    clone: PedRenderObject,
)
    requires
        0 <= i < cache.retired.len(),
        cache.retired[i].skin_id == skin_id,
        cache.retired[i].clones.contains(clone),
        live.contains(clone),
        after.retired == retained_after_release(cache.retired, live, released),
    ensures
        retired_has(after, skin_id),
{
    assert(!cache.retired[i].clones.disjoint(live));
    lemma_retained_contains(cache.retired, cache.retired.len(), live, released, i);
    let j = choose|j: int| 0 <= j < after.retired.len() && after.retired[j] == cache.retired[i];
    assert(after.retired[j].skin_id == skin_id);
}

/// A retired source whose release failed stays retired, for a later
/// attempt.
pub proof fn lemma_failed_release_stays_retired(
    cache: SourceCacheView,
    after: SourceCacheView,
    live: Set<PedRenderObject>,
    released: Seq<usize>,
    i: int,
)
    requires
        0 <= i < cache.retired.len(),
        !released.contains(i as usize),
        after.retired == retained_after_release(cache.retired, live, released),
    ensures
        after.retired.contains(cache.retired[i]),
{
    lemma_retained_contains(cache.retired, cache.retired.len(), live, released, i);
}

proof fn lemma_retained_order(s: Seq<RetiredSourceView>, n: nat, live: Set<PedRenderObject>, released: Seq<usize>, i: int, j: int)
    requires
        0 <= i < j < n <= s.len(),
        stays_retired(s[i], i, live, released),
        stays_retired(s[j], j, live, released),
    ensures
        exists|a: int, b: int|
            0 <= a < b < retained_prefix(s, n, live, released).len() && #[trigger] retained_prefix(s, n, live, released)[a]
                == s[i] && #[trigger] retained_prefix(s, n, live, released)[b] == s[j],
    decreases n,
{
    let r = retained_prefix(s, n, live, released);
    let p = retained_prefix(s, (n - 1) as nat, live, released);
    if j == n - 1 {
        lemma_retained_contains(s, (n - 1) as nat, live, released, i);
        let a = choose|a: int| 0 <= a < p.len() && p[a] == s[i];
        assert(r == p.push(s[j]));
        assert(r[a] == s[i] && r[p.len() as int] == s[j]);
    } else {
        lemma_retained_order(s, (n - 1) as nat, live, released, i, j);
        let (a, b) = choose|a: int, b: int| 0 <= a < b < p.len() && #[trigger] p[a] == s[i] && #[trigger] p[b] == s[j];
        if stays_retired(s[n - 1], n - 1, live, released) {
            assert(r == p.push(s[n - 1]));
            assert(r[a] == s[i] && r[b] == s[j]);
        }
    }
}

/// A cleanup keeps the retired sources that stay in their order: of two
/// that stay, the one retired first still comes first.
pub proof fn lemma_cleanup_keeps_retired_order(
    cache: SourceCacheView,
    after: SourceCacheView,
    live: Set<PedRenderObject>,
    released: Seq<usize>,
    i: int,
    j: int,
)
    requires
        0 <= i < j < cache.retired.len(),
        stays_retired(cache.retired[i], i, live, released),
        stays_retired(cache.retired[j], j, live, released),
        after.retired == retained_after_release(cache.retired, live, released),
    ensures
        exists|a: int, b: int|
            0 <= a < b < after.retired.len() && #[trigger] after.retired[a] == cache.retired[i]
                && #[trigger] after.retired[b] == cache.retired[j],
{
    lemma_retained_order(cache.retired, cache.retired.len(), live, released, i, j);
}

impl SourceCache {
    pub fn new() -> (cache: Self)
        ensures
            cache@.loaded.is_empty(),
            cache@.retired.len() == 0,
            cache@.failed.is_empty(),
            cache@.last_check.is_empty(),
            cache@.next_generation == 0,
    {
        let cache = SourceCache {
            loaded: NamedMap::new(),
            retired: Vec::new(),
            failed_profiles: NamedMap::new(),
            last_asset_check: NamedMap::new(),
            next_generation: 0,
        };
        assert(cache@.loaded =~= Map::empty());
        assert(cache@.failed =~= Map::empty());
        cache
    }

    /// An empty cache whose generation counter stands at `next_generation`.
    pub fn with_next_generation(next_generation: u64) -> (cache: Self)
        ensures
            cache@.loaded.is_empty(),
            cache@.retired.len() == 0,
            cache@.failed.is_empty(),
            cache@.last_check.is_empty(),
            cache@.next_generation == next_generation,
    {
        let mut cache = SourceCache::new();
        cache.next_generation = next_generation;
        cache
    }

    /// Hands out the next source generation, skipping zero on wrap-around.
    pub fn allocate_generation(&mut self) -> (generation: u64)
        ensures
            generation == next_after(old(self)@.next_generation),
            generation != 0,
            final(self)@.next_generation == generation,
            final(self)@.loaded == old(self)@.loaded,
            final(self)@.retired == old(self)@.retired,
            final(self)@.failed == old(self)@.failed,
            final(self)@.last_check == old(self)@.last_check,
    {
        let wrapped = self.next_generation.wrapping_add(1);
        self.next_generation = if wrapped < 1 { 1 } else { wrapped };
        self.next_generation
    }

    fn retired_contains(&self, skin_id: &str) -> (found: bool)
        ensures
            found == retired_has(self@, skin_id@),
    {
        let mut i: usize = 0;
        while i < self.retired.len()
            invariant
                i <= self.retired@.len(),
                self@.retired == self.retired@.map_values(|r: RetiredSkinSource| r@),
                forall|k: int| 0 <= k < i ==> self@.retired[k].skin_id != skin_id@,
            decreases self.retired@.len() - i,
        {
            if crate::text::str_eq(self.retired[i].skin_id.as_str(), skin_id) {
                assert(self@.retired[i as int].skin_id == skin_id@);
                return true;
            }
            i = i + 1;
        }
        false
    }

    fn checked_recently(&self, skin_id: &str, now_ms: u64) -> (recent: bool)
        ensures
            recent == recently_checked(self@, skin_id@, now_ms),
    {
        match self.last_asset_check.get(skin_id) {
            Some(last) => (now_ms as u128) < (*last as u128) + (ASSET_RELOAD_INTERVAL_MS as u128),
            None => false,
        }
    }

    /// Starts a lookup of a profile's source. A retired source of the same
    /// profile blocks any replacement; within a second of the last asset
    /// inspection an unchanged profile is answered from the cache; otherwise
    /// the asset files must be inspected.
    pub fn load_or_status(&self, skin_id: &str, definition: &SkinDefinition, now_ms: u64) -> (step: SourceStep)
        ensures
            if retired_has(self@, skin_id@) {
                step == SourceStep::Done(Lookup::RestoreRequired)
            } else if self@.loaded.contains_key(skin_id@) && self@.loaded[skin_id@].source.definition
                == definition@ && recently_checked(self@, skin_id@, now_ms) {
                step == SourceStep::Done(Lookup::Ready { generation: self@.loaded[skin_id@].generation })
            } else if recently_checked(self@, skin_id@, now_ms) && self@.failed.contains_key(skin_id@)
                && self@.failed[skin_id@].definition == definition@ {
                step == SourceStep::Done(Lookup::Unavailable)
            } else {
                step is InspectFiles
            },
    {
        if self.retired_contains(skin_id) {
            return SourceStep::Done(Lookup::RestoreRequired);
        }
        let recent = self.checked_recently(skin_id, now_ms);
        if recent {
            match self.loaded.get(skin_id) {
                Some(loaded) => {
                    if loaded.source.definition.same_as(definition) {
                        return SourceStep::Done(Lookup::Ready { generation: loaded.generation });
                    }
                },
                None => {},
            }
            match self.failed_profiles.get(skin_id) {
                Some(failed) => {
                    if failed.definition.same_as(definition) {
                        return SourceStep::Done(Lookup::Unavailable);
                    }
                },
                None => {},
            }
        }
        SourceStep::InspectFiles
    }

    fn retire(&mut self, skin_id: &str)
        ensures
            final(self)@.loaded == old(self)@.loaded.remove(skin_id@),
            final(self)@.retired == (if old(self)@.loaded.contains_key(skin_id@) {
                old(self)@.retired.push(retired_view(skin_id@, old(self)@.loaded[skin_id@]))
            } else {
                old(self)@.retired
            }),
            final(self)@.failed == old(self)@.failed,
            final(self)@.last_check == old(self)@.last_check,
            final(self)@.next_generation == old(self)@.next_generation,
    {
        let ghost before = self@;
        match self.loaded.remove(skin_id) {
            Some(loaded) => {
                let ghost lv = loaded@;
                let retired = RetiredSkinSource {
                    skin_id: skin_id.to_owned(),
                    resources: loaded.resources,
                    installed_clones: loaded.installed_clones,
                };
                assert(retired@ == retired_view(skin_id@, lv));
                self.retired.push(retired);
                assert(self@.retired =~= before.retired.push(retired_view(skin_id@, before.loaded[skin_id@])));
                assert(self@.loaded =~= before.loaded.remove(skin_id@));
            },
            None => {
                assert(self@.loaded =~= before.loaded.remove(skin_id@));
            },
        }
    }

    /// Continues a lookup with the current revision of the profile's assets.
    /// An unchanged loaded source is ready; a changed one is retired and its
    /// clones must be restored first; an unchanged failed revision is not
    /// retried; anything else must be loaded.
    pub fn continue_with_revision(&mut self, skin_id: &str, source: SkinSourceRevision, now_ms: u64) -> (step: SourceStep)
        ensures
            final(self)@.last_check == old(self)@.last_check.insert(skin_id@, now_ms),
            final(self)@.next_generation == old(self)@.next_generation,
            if old(self)@.loaded.contains_key(skin_id@) && old(self)@.loaded[skin_id@].source == source@ {
                &&& step == SourceStep::Done(Lookup::Ready { generation: old(self)@.loaded[skin_id@].generation })
                &&& final(self)@.loaded == old(self)@.loaded
                &&& final(self)@.retired == old(self)@.retired
                &&& final(self)@.failed == old(self)@.failed
            } else if old(self)@.loaded.contains_key(skin_id@) {
                &&& step == SourceStep::Done(Lookup::RestoreRequired)
                &&& final(self)@.loaded == old(self)@.loaded.remove(skin_id@)
                &&& final(self)@.retired == old(self)@.retired.push(retired_view(skin_id@, old(self)@.loaded[skin_id@]))
                &&& final(self)@.failed == old(self)@.failed.remove(skin_id@)
            } else if old(self)@.failed.contains_key(skin_id@) && old(self)@.failed[skin_id@] == source@ {
                &&& step == SourceStep::Done(Lookup::Unavailable)
                &&& final(self)@.loaded == old(self)@.loaded
                &&& final(self)@.retired == old(self)@.retired
                &&& final(self)@.failed == old(self)@.failed
            } else {
                &&& step matches SourceStep::Load(revision) && revision@ == source@
                &&& final(self)@.loaded == old(self)@.loaded
                &&& final(self)@.retired == old(self)@.retired
                &&& final(self)@.failed == old(self)@.failed
            },
    {
        let ghost before = self@;
        self.last_asset_check.insert(skin_id.to_owned(), now_ms);
        assert(self@.loaded == before.loaded);
        let unchanged = match self.loaded.get(skin_id) {
            Some(loaded) => {
                if loaded.source.same_as(&source) {
                    Some(loaded.generation)
                } else {
                    None
                }
            },
            None => None,
        };
        match unchanged {
            Some(generation) => {
                return SourceStep::Done(Lookup::Ready { generation });
            },
            None => {},
        }
        if self.loaded.contains_key(skin_id) {
            self.retire(skin_id);
            let ghost mid = self@;
            self.failed_profiles.remove(skin_id);
            assert(self@.failed =~= before.failed.remove(skin_id@));
            return SourceStep::Done(Lookup::RestoreRequired);
        }
        let failed_same = match self.failed_profiles.get(skin_id) {
            Some(failed) => failed.same_as(&source),
            None => false,
        };
        if failed_same {
            return SourceStep::Done(Lookup::Unavailable);
        }
        SourceStep::Load(source)
    }

    /// Records the outcome of loading a source. A loaded source gets a fresh
    /// generation and no clones, and clears the profile's failure; a failed
    /// load remembers the revision so it is not retried while unchanged.
    pub fn finish_load(&mut self, skin_id: &str, source: SkinSourceRevision, resources: Option<SkinSourceResources>) -> (lookup: Lookup)
        ensures
            final(self)@.retired == old(self)@.retired,
            final(self)@.last_check == old(self)@.last_check,
            match resources {
                Some(r) => {
                    &&& lookup == Lookup::Ready { generation: next_after(old(self)@.next_generation) }
                    &&& final(self)@.next_generation == next_after(old(self)@.next_generation)
                    &&& final(self)@.loaded == old(self)@.loaded.insert(
                        skin_id@,
                        LoadedSourceView {
                            resources: r,
                            source: source@,
                            generation: next_after(old(self)@.next_generation),
                            clones: Set::empty(),
                        },
                    )
                    &&& final(self)@.failed == old(self)@.failed.remove(skin_id@)
                },
                None => {
                    &&& lookup == Lookup::Unavailable
                    &&& final(self)@.next_generation == old(self)@.next_generation
                    &&& final(self)@.loaded == old(self)@.loaded
                    &&& final(self)@.failed == old(self)@.failed.insert(skin_id@, source@)
                },
            },
    {
        let ghost before = self@;
        match resources {
            Some(resources) => {
                let generation = self.allocate_generation();
                let loaded = LoadedSkinSource { resources, source, generation, installed_clones: Vec::new() };
                assert(loaded@.clones =~= Set::<PedRenderObject>::empty());
                let ghost lv = loaded@;
                self.loaded.insert(skin_id.to_owned(), loaded);
                self.failed_profiles.remove(skin_id);
                assert(self@.loaded =~= before.loaded.insert(skin_id@, lv));
                assert(self@.failed =~= before.failed.remove(skin_id@));
                Lookup::Ready { generation }
            },
            None => {
                let ghost sv = source@;
                self.failed_profiles.insert(skin_id.to_owned(), source);
                assert(self@.failed =~= before.failed.insert(skin_id@, sv));
                Lookup::Unavailable
            },
        }
    }

    /// The resources of a loaded source.
    pub fn resources(&self, skin_id: &str) -> (found: Option<&SkinSourceResources>)
        ensures
            match found {
                Some(r) => self@.loaded.contains_key(skin_id@) && self@.loaded[skin_id@].resources == *r,
                None => !self@.loaded.contains_key(skin_id@),
            },
    {
        match self.loaded.get(skin_id) {
            Some(loaded) => Some(&loaded.resources),
            None => None,
        }
    }

    /// The revision whose load failed for a profile, if any.
    pub fn failed_revision(&self, skin_id: &str) -> (found: Option<&SkinSourceRevision>)
        ensures
            match found {
                Some(r) => self@.failed.contains_key(skin_id@) && self@.failed[skin_id@] == r@,
                None => !self@.failed.contains_key(skin_id@),
            },
    {
        self.failed_profiles.get(skin_id)
    }

    /// Remembers a clone installed from a loaded source.
    pub fn record_clone(&mut self, skin_id: &str, clone: PedRenderObject)
        ensures
            final(self)@.retired == old(self)@.retired,
            final(self)@.failed == old(self)@.failed,
            final(self)@.last_check == old(self)@.last_check,
            final(self)@.next_generation == old(self)@.next_generation,
            final(self)@.loaded == (if old(self)@.loaded.contains_key(skin_id@) {
                old(self)@.loaded.insert(
                    skin_id@,
                    LoadedSourceView { clones: old(self)@.loaded[skin_id@].clones.insert(clone), ..old(self)@.loaded[skin_id@] },
                )
            } else {
                old(self)@.loaded
            }),
    {
        let ghost before = self@;
        match self.loaded.remove(skin_id) {
            Some(loaded) => {
                let LoadedSkinSource { resources, source, generation, installed_clones } = loaded;
                let mut clones = installed_clones;
                let ghost old_clones = clones@;
                clones.push(clone);
                assert(clones@.to_set() =~= old_clones.to_set().insert(clone)) by {
                    assert forall|x: PedRenderObject| clones@.to_set().contains(x) <==> old_clones.to_set().insert(clone).contains(x) by {
                        if clones@.to_set().contains(x) {
                            let j = choose|j: int| 0 <= j < clones@.len() && #[trigger] clones@[j] == x;
                            if j < old_clones.len() {
                                assert(old_clones[j] == x);
                            }
                        }
                        if old_clones.to_set().contains(x) {
                            let j = choose|j: int| 0 <= j < old_clones.len() && #[trigger] old_clones[j] == x;
                            assert(clones@[j] == x);
                        }
                        if x == clone {
                            assert(clones@[old_clones.len() as int] == x);
                        }
                    }
                }
                let updated = LoadedSkinSource { resources, source, generation, installed_clones: clones };
                let ghost uv = updated@;
                self.loaded.insert(skin_id.to_owned(), updated);
                assert(self@.loaded =~= before.loaded.insert(skin_id@, uv));
            },
            None => {
                assert(self@.loaded =~= before.loaded);
            },
        }
    }

    /// The order in which loaded sources are stored.
    pub closed spec fn loaded_order(&self) -> Seq<Seq<char>> {
        self.loaded.keys()
    }

    /// The storage order lists exactly the loaded profiles.
    pub proof fn lemma_loaded_order(&self)
        ensures
            forall|k: Seq<char>| #[trigger] self.loaded_order().contains(k) <==> self@.loaded.contains_key(k),
    {
        self.loaded.lemma_keys_are_the_domain();
    }

    /// Retires every loaded source whose profile is not referenced, keeping
    /// remembered failures so an unchanged broken source is not retried.
    pub fn retire_unreferenced(&mut self, referenced: &Vec<String>)
        ensures
            final(self)@.loaded == old(self)@.loaded.restrict(name_set(referenced@)),
            final(self)@.retired == old(self)@.retired + old(self).loaded_order().filter(
                |k: Seq<char>| !name_set(referenced@).contains(k),
            ).map_values(|k: Seq<char>| retired_view(k, old(self)@.loaded[k])),
            final(self)@.failed == old(self)@.failed,
            final(self)@.last_check == old(self)@.last_check,
            final(self)@.next_generation == old(self)@.next_generation,
            old(self).loaded_order().no_duplicates(),
    {
        let ghost before = self@;
        let ghost refs = name_set(referenced@);
        let ghost keys = self.loaded.keys();
        let ghost pred = |k: Seq<char>| !refs.contains(k);
        self.loaded.key_facts();
        assert(keys.no_duplicates()) by {
            assert forall|a: int, b: int| 0 <= a < keys.len() && 0 <= b < keys.len() && a != b implies keys[a] != keys[b] by {
                if a > b {
                    assert(keys[b] != keys[a]);
                }
            }
        }
        assert(forall|k: Seq<char>| before.loaded.contains_key(k) <==> self.loaded@.contains_key(k));
        let mut unneeded: Vec<String> = Vec::new();
        let mut i: usize = 0;
        let n = self.loaded.len();
        while i < n
            invariant
                n == keys.len(),
                self.loaded.keys() == keys,
                i <= n,
                names_view(unneeded@) == keys.take(i as int).filter(pred),
                forall|a: int, b: int| 0 <= a < b < unneeded@.len() ==> unneeded@[a]@ != unneeded@[b]@,
                forall|a: int| 0 <= a < unneeded@.len() ==> exists|m: int| 0 <= m < i && keys[m] == #[trigger] unneeded@[a]@,
                forall|a: int| 0 <= a < unneeded@.len() ==> !refs.contains(#[trigger] unneeded@[a]@),
                forall|m: int| 0 <= m < i && !refs.contains(keys[m]) ==> names_view(unneeded@).contains(#[trigger] keys[m]),
                forall|a: int, b: int| 0 <= a < b < keys.len() ==> keys[a] != keys[b],
                pred == (|k: Seq<char>| !refs.contains(k)),
                refs == name_set(referenced@),
            decreases n - i,
        {
            let (id, _) = self.loaded.entry(i);
            proof {
                lemma_take_filter_push(keys, i as int, pred);
            }
            let ghost before_u = unneeded@;
            if !names_contain(referenced, id.as_str()) {
                unneeded.push(id.clone());
                proof {
                    assert(names_view(unneeded@) =~= names_view(before_u).push(id@));
                    assert forall|a: int| 0 <= a < unneeded@.len() implies exists|m: int| 0 <= m < i + 1 && keys[m] == #[trigger] unneeded@[a]@ by {
                        if a < before_u.len() {
                            assert(unneeded@[a] == before_u[a]);
                        } else {
                            assert(keys[i as int] == unneeded@[a]@);
                        }
                    }
                    assert forall|a: int, b: int| 0 <= a < b < unneeded@.len() implies unneeded@[a]@ != unneeded@[b]@ by {
                        if b == before_u.len() {
                            assert(unneeded@[a] == before_u[a]);
                            let m = choose|m: int| 0 <= m < i && keys[m] == #[trigger] before_u[a]@;
                            assert(keys[m] != keys[i as int]);
                        } else {
                            assert(unneeded@[a] == before_u[a]);
                            assert(unneeded@[b] == before_u[b]);
                        }
                    }
                    assert forall|m: int| 0 <= m < i + 1 && !refs.contains(keys[m]) implies names_view(unneeded@).contains(#[trigger] keys[m]) by {
                        if m < i {
                            assert(names_view(before_u).contains(keys[m]));
                            let a = choose|a: int| 0 <= a < names_view(before_u).len() && names_view(before_u)[a] == keys[m];
                            assert(names_view(unneeded@)[a] == keys[m]);
                        } else {
                            assert(names_view(unneeded@)[before_u.len() as int] == keys[m]);
                        }
                    }
                }
            } else {
                proof {
                    assert forall|m: int| 0 <= m < i + 1 && !refs.contains(keys[m]) implies names_view(unneeded@).contains(#[trigger] keys[m]) by {
                        if m == i {
                            assert(refs.contains(keys[m]));
                        }
                    }
                }
            }
            i = i + 1;
        }
        let ghost u = names_view(unneeded@);
        proof {
            assert(keys.take(n as int) =~= keys);
            assert forall|a: int| 0 <= a < u.len() implies before.loaded.contains_key(#[trigger] u[a]) by {
                let m = choose|m: int| 0 <= m < n && keys[m] == #[trigger] unneeded@[a]@;
                assert(keys.contains(keys[m]));
            }
        }
        let mut j: usize = 0;
        while j < unneeded.len()
            invariant
                j <= unneeded@.len(),
                u == names_view(unneeded@),
                forall|a: int, b: int| 0 <= a < b < unneeded@.len() ==> unneeded@[a]@ != unneeded@[b]@,
                forall|a: int| 0 <= a < u.len() ==> before.loaded.contains_key(#[trigger] u[a]),
                self@.loaded == before.loaded.remove_keys(u.take(j as int).to_set()),
                self@.retired == before.retired + u.take(j as int).map_values(|k: Seq<char>| retired_view(k, before.loaded[k])),
                self@.failed == before.failed,
                self@.last_check == before.last_check,
                self@.next_generation == before.next_generation,
            decreases unneeded@.len() - j,
        {
            let ghost mid = self@;
            let ghost k = u[j as int];
            assert(unneeded@[j as int]@ == k);
            assert(!u.take(j as int).to_set().contains(k)) by {
                if u.take(j as int).to_set().contains(k) {
                    let a = choose|a: int| 0 <= a < u.take(j as int).len() && u.take(j as int)[a] == k;
                    assert(unneeded@[a]@ == unneeded@[j as int]@);
                }
            }
            assert(mid.loaded.contains_key(k));
            assert(mid.loaded[k] == before.loaded[k]);
            self.retire(unneeded[j].as_str());
            proof {
                lemma_take_to_set_push(u, j as int);
                assert(self@.loaded =~= before.loaded.remove_keys(u.take(j + 1).to_set()));
                assert(u.take(j + 1) =~= u.take(j as int).push(k));
                assert(self@.retired =~= before.retired + u.take(j + 1).map_values(|k: Seq<char>| retired_view(k, before.loaded[k])));
            }
            j = j + 1;
        }
        proof {
            assert(u.take(unneeded@.len() as int) =~= u);
            assert(u == keys.filter(pred));
            assert forall|k: Seq<char>| #[trigger] before.loaded.contains_key(k) implies (u.to_set().contains(k) <==> !refs.contains(k)) by {
                if u.to_set().contains(k) {
                    let a = choose|a: int| 0 <= a < u.len() && u[a] == k;
                    assert(!refs.contains(unneeded@[a]@));
                }
                if !refs.contains(k) {
                    assert(keys.contains(k));
                    let m = choose|m: int| 0 <= m < keys.len() && keys[m] == k;
                    assert(names_view(unneeded@).contains(keys[m]));
                }
            }
            assert(self@.loaded =~= before.loaded.restrict(refs));
        }
    }

    /// The positions of the retired sources none of whose clones a complete
    /// liveness scan found, in list order; none without a complete scan.
    pub fn releasable(&self, live_render_objects: Option<&Vec<PedRenderObject>>) -> (indices: Vec<usize>)
        ensures
            match live_render_objects {
                None => indices@.len() == 0,
                Some(live) => forall|i: usize| #[trigger] indices@.contains(i) <==> (i < self@.retired.len()
                    && self@.retired[i as int].clones.disjoint(live@.to_set())),
            },
            forall|a: int, b: int| 0 <= a < b < indices@.len() ==> indices@[a] < indices@[b],
    {
        let mut indices: Vec<usize> = Vec::new();
        let live = match live_render_objects {
            None => {
                return indices;
            },
            Some(live) => live,
        };
        let mut i: usize = 0;
        while i < self.retired.len()
            invariant
                i <= self.retired@.len(),
                self@.retired == self.retired@.map_values(|r: RetiredSkinSource| r@),
                forall|j: usize| #[trigger] indices@.contains(j) <==> (j < i
                    && self@.retired[j as int].clones.disjoint(live@.to_set())),
                forall|a: int, b: int| 0 <= a < b < indices@.len() ==> indices@[a] < indices@[b],
                forall|a: int| 0 <= a < indices@.len() ==> indices@[a] < i,
            decreases self.retired@.len() - i,
        {
            let ghost before = indices@;
            assert(self@.retired[i as int] == self.retired@[i as int]@);
            if !any_clone_live(&self.retired[i].installed_clones, live) {
                indices.push(i);
                assert(indices@ == before.push(i));
                assert forall|j: usize| #[trigger] indices@.contains(j) <==> (j < i + 1
                    && self@.retired[j as int].clones.disjoint(live@.to_set())) by {
                    if indices@.contains(j) {
                        let k = choose|k: int| 0 <= k < indices@.len() && indices@[k] == j;
                        if k < before.len() {
                            assert(before[k] == j);
                            assert(before.contains(j));
                        } else {
                            assert(j == i);
                        }
                    }
                    if j < i + 1 && self@.retired[j as int].clones.disjoint(live@.to_set()) {
                        if j < i {
                            assert(before.contains(j));
                            let k = choose|k: int| 0 <= k < before.len() && before[k] == j;
                            assert(indices@[k] == j);
                        } else {
                            assert(indices@[before.len() as int] == i);
                        }
                    }
                }
            } else {
                assert forall|j: usize| #[trigger] indices@.contains(j) <==> (j < i + 1
                    && self@.retired[j as int].clones.disjoint(live@.to_set())) by {
                    if indices@.contains(j) {
                        let k = choose|k: int| 0 <= k < indices@.len() && indices@[k] == j;
                        assert(indices@[k] < i);
                    }
                }
            }
            i = i + 1;
        }
        indices
    }

    /// The profile and resources of the retired source at `index`.
    pub fn retired_source(&self, index: usize) -> (source: (&String, SkinSourceResources))
        requires
            index < self@.retired.len(),
        ensures
            source.0@ == self@.retired[index as int].skin_id,
            source.1 == self@.retired[index as int].resources,
    {
        assert(self@.retired[index as int] == self.retired@[index as int]@);
        (&self.retired[index].skin_id, self.retired[index].resources)
    }

    /// After a complete liveness scan, forgets clones that are no longer
    /// live and drops every retired source that was released (`released`
    /// holds its position) while none of its clones is live. A source whose
    /// release failed stays where it was. Without a complete scan nothing
    /// changes.
    pub fn cleanup_retired(&mut self, live_render_objects: Option<&Vec<PedRenderObject>>, released: &Vec<usize>)
        ensures
            final(self)@.failed == old(self)@.failed,
            final(self)@.last_check == old(self)@.last_check,
            final(self)@.next_generation == old(self)@.next_generation,
            match live_render_objects {
                None => final(self)@ == old(self)@,
                Some(live) => {
                    &&& final(self)@.loaded == old(self)@.loaded.map_values(
                        |v: LoadedSourceView| LoadedSourceView { clones: v.clones.intersect(live@.to_set()), ..v },
                    )
                    &&& final(self)@.retired == retained_after_release(old(self)@.retired, live@.to_set(), released@)
                },
            },
    {
        let live = match live_render_objects {
            None => {
                return;
            },
            Some(live) => live,
        };
        let ghost before = self@;
        let ghost lv = live@.to_set();
        self.prune_loaded_clones(live);
        let mut pending: Vec<RetiredSkinSource> = Vec::new();
        std::mem::swap(&mut pending, &mut self.retired);
        let ghost orig = before.retired;
        let mut i: usize = 0;
        let n = pending.len();
        assert(pending@.map_values(|r: RetiredSkinSource| r@) =~= orig.skip(0));
        while pending.len() > 0
            invariant
                n == orig.len(),
                i + pending@.len() == n,
                pending@.map_values(|r: RetiredSkinSource| r@) == orig.skip(i as int),
                self.retired@.map_values(|r: RetiredSkinSource| r@) == retained_prefix(orig, i as nat, lv, released@),
                lv == live@.to_set(),
                self@.loaded == old(self)@.loaded.map_values(
                    |v: LoadedSourceView| LoadedSourceView { clones: v.clones.intersect(live@.to_set()), ..v },
                ),
                self@.failed == before.failed,
                self@.last_check == before.last_check,
                self@.next_generation == before.next_generation,
                before == old(self)@,
            decreases pending@.len(),
        {
            let ghost pv = pending@.map_values(|r: RetiredSkinSource| r@);
            let ghost old_pending = pending@;
            assert(pv[0] == old_pending[0]@);
            assert(pv[0] == orig.skip(i as int)[0]);
            let retired = pending.remove(0);
            proof {
                assert(retired@ == orig[i as int]);
                assert forall|a: int| 0 <= a < pending@.len() implies #[trigger] pending@[a] == old_pending[a + 1] by {}
                let ghost nv = pending@.map_values(|r: RetiredSkinSource| r@);
                assert forall|a: int| 0 <= a < pending@.len() implies #[trigger] nv[a] == orig.skip(i + 1)[a] by {
                    assert(pending@[a] == old_pending[a + 1]);
                    assert(pv[a + 1] == old_pending[a + 1]@);
                }
                assert(pending@.map_values(|r: RetiredSkinSource| r@) =~= orig.skip(i + 1));
            }
            let ghost kept = self.retired@;
            let stays = any_clone_live(&retired.installed_clones, live) || !contains_index(released, i);
            assert(stays == stays_retired(orig[i as int], i as int, lv, released@));
            if stays {
                self.retired.push(retired);
                assert(self.retired@.map_values(|r: RetiredSkinSource| r@) =~= kept.map_values(
                    |r: RetiredSkinSource| r@,
                ).push(orig[i as int]));
            }
            i = i + 1;
        }
        proof {
            assert(orig.take(n as int) =~= orig);
        }
    }

    fn prune_loaded_clones(&mut self, live: &Vec<PedRenderObject>)
        ensures
            final(self)@.loaded == old(self)@.loaded.map_values(
                |v: LoadedSourceView| LoadedSourceView { clones: v.clones.intersect(live@.to_set()), ..v },
            ),
            final(self)@.retired == old(self)@.retired,
            final(self)@.failed == old(self)@.failed,
            final(self)@.last_check == old(self)@.last_check,
            final(self)@.next_generation == old(self)@.next_generation,
    {
        let ghost before = self@;
        let ghost lv = live@.to_set();
        let ghost keys = self.loaded.keys();
        let ghost pruned = |v: LoadedSourceView| LoadedSourceView { clones: v.clones.intersect(lv), ..v };
        self.loaded.key_facts();
        let n = self.loaded.len();
        let mut i: usize = 0;
        while i < n
            invariant
                n == keys.len(),
                i <= n,
                self.loaded.keys() == keys,
                forall|a: int, b: int| 0 <= a < b < keys.len() ==> keys[a] != keys[b],
                forall|k: Seq<char>| before.loaded.contains_key(k) <==> keys.contains(k),
                forall|k: Seq<char>| self@.loaded.contains_key(k) <==> before.loaded.contains_key(k),
                forall|k: Seq<char>| #[trigger] self@.loaded.contains_key(k) ==> self@.loaded[k] == (if keys.take(i as int).contains(k) {
                    pruned(before.loaded[k])
                } else {
                    before.loaded[k]
                }),
                self@.retired == before.retired,
                self@.failed == before.failed,
                self@.last_check == before.last_check,
                self@.next_generation == before.next_generation,
                pruned == (|v: LoadedSourceView| LoadedSourceView { clones: v.clones.intersect(lv), ..v }),
                lv == live@.to_set(),
            decreases n - i,
        {
            let ghost mid = self@;
            let (id, loaded) = self.loaded.entry(i);
            let ghost k = id@;
            assert(k == keys[i as int]);
            assert(!keys.take(i as int).contains(k)) by {
                if keys.take(i as int).contains(k) {
                    let a = choose|a: int| 0 <= a < keys.take(i as int).len() && keys.take(i as int)[a] == k;
                    assert(keys[a] == keys[i as int]);
                }
            }
            let clones = live_clones(&loaded.installed_clones, live);
            let updated = LoadedSkinSource {
                resources: loaded.resources,
                source: loaded.source.duplicate(),
                generation: loaded.generation,
                installed_clones: clones,
            };
            let ghost uv = updated@;
            assert(mid.loaded[k] == loaded@);
            assert(mid.loaded.contains_key(k));
            assert(before.loaded[k] == loaded@);
            assert(uv == pruned(before.loaded[k]));
            let _previous = self.loaded.replace_at(i, updated);
            proof {
                lemma_take_to_set_push(keys, i as int);
                assert forall|q: Seq<char>| #[trigger] self@.loaded.contains_key(q) implies self@.loaded[q] == (if keys.take(i + 1).contains(q) {
                    pruned(before.loaded[q])
                } else {
                    before.loaded[q]
                }) by {
                    assert(keys.take(i + 1).to_set().contains(q) == keys.take(i + 1).contains(q));
                    assert(keys.take(i as int).to_set().contains(q) == keys.take(i as int).contains(q));
                    if q == k {
                        assert(self@.loaded[q] == uv);
                    } else {
                        assert(mid.loaded.contains_key(q));
                        assert(self@.loaded[q] == mid.loaded[q]);
                    }
                }
                assert forall|q: Seq<char>| self@.loaded.contains_key(q) <==> before.loaded.contains_key(q) by {
                    assert(mid.loaded.contains_key(q) <==> before.loaded.contains_key(q));
                }
            }
            i = i + 1;
        }
        proof {
            assert(keys.take(n as int) =~= keys);
            assert(self@.loaded =~= before.loaded.map_values(pruned));
        }
    }
}

/// The list holds this position.
pub(crate) fn contains_index(indices: &Vec<usize>, index: usize) -> (found: bool)
    ensures
        found == indices@.contains(index),
{
    let mut i: usize = 0;
    while i < indices.len()
        invariant
            i <= indices@.len(),
            forall|k: int| 0 <= k < i ==> indices@[k] != index,
        decreases indices@.len() - i,
    {
        if indices[i] == index {
            return true;
        }
        i = i + 1;
    }
    false
}

/// Some clone of the list is live.
fn any_clone_live(clones: &Vec<PedRenderObject>, live: &Vec<PedRenderObject>) -> (found: bool)
    ensures
        found == !clones@.to_set().disjoint(live@.to_set()),
{
    let mut i: usize = 0;
    while i < clones.len()
        invariant
            i <= clones@.len(),
            forall|k: int| 0 <= k < i ==> !live@.contains(#[trigger] clones@[k]),
        decreases clones@.len() - i,
    {
        if contains_render_object(live, clones[i]) {
            assert(clones@.to_set().contains(clones@[i as int]));
            return true;
        }
        i = i + 1;
    }
    assert(clones@.to_set().disjoint(live@.to_set())) by {
        assert forall|c: PedRenderObject| clones@.to_set().contains(c) implies !live@.to_set().contains(c) by {
            let k = choose|k: int| 0 <= k < clones@.len() && clones@[k] == c;
            assert(!live@.contains(clones@[k]));
        }
    }
    false
}

/// The clones of the list that are live.
fn live_clones(clones: &Vec<PedRenderObject>, live: &Vec<PedRenderObject>) -> (kept: Vec<PedRenderObject>)
    ensures
        kept@.to_set() == clones@.to_set().intersect(live@.to_set()),
{
    let mut kept: Vec<PedRenderObject> = Vec::new();
    let mut i: usize = 0;
    while i < clones.len()
        invariant
            i <= clones@.len(),
            kept@.to_set() == clones@.take(i as int).to_set().intersect(live@.to_set()),
        decreases clones@.len() - i,
    {
        let ghost before = kept@;
        proof {
            lemma_take_to_set_push(clones@, i as int);
        }
        if contains_render_object(live, clones[i]) {
            kept.push(clones[i]);
            proof {
                lemma_take_to_set_push(kept@, before.len() as int);
                assert(kept@.take(before.len() as int) =~= before);
                assert(kept@.take(before.len() as int + 1) =~= kept@);
            }
            assert(kept@.to_set() =~= clones@.take(i + 1).to_set().intersect(live@.to_set()));
        } else {
            assert(kept@.to_set() =~= clones@.take(i + 1).to_set().intersect(live@.to_set()));
        }
        i = i + 1;
    }
    assert(clones@.take(clones@.len() as int) =~= clones@);
    kept
}

/// The list holds this render object.
fn contains_render_object(objects: &Vec<PedRenderObject>, object: PedRenderObject) -> (found: bool)
    ensures
        found == objects@.contains(object),
{
    let mut i: usize = 0;
    while i < objects.len()
        invariant
            i <= objects@.len(),
            forall|k: int| 0 <= k < i ==> objects@[k] != object,
        decreases objects@.len() - i,
    {
        if objects[i] == object {
            return true;
        }
        i = i + 1;
    }
    false
}

/// A profile's assets are inspected at most once a second.
pub proof fn lemma_documented_constants()
    ensures
        ASSET_RELOAD_INTERVAL_MS == 0x3E8,
{
}

} // verus!
