//! Per-frame reconciliation of streamed peds with the configured skins.
//!
//! Every step that touches GTA or SA-MP (reading a ped, loading or releasing
//! a source, installing or removing a clone) happens outside; this module
//! decides what to do from what was observed and records the outcomes.

use crate::config::{
    best_match, lemma_best_match_unique, skin_definition, ConfigAction, ConfigEvent, ConfigWatcher, ConfigWatcherView,
    SkinConfig, SkinConfigView, SkinDefinition, SkinDefinitionView, SkinRuleView,
};
use crate::gta::{PedRenderObject, SkinSourceResources};
use crate::player_map::PlayerMap;
use crate::skin_loader::{SkinManager, SkinManagerView};
use crate::source_cache::{Lookup, SourceStep};
use crate::config::SkinSourceRevision;
use crate::text::{opt_chars, str_eq};
use vstd::prelude::*;

verus! {

/// A SA-MP player slot.
pub type PlayerId = u16;

/// How a ped wearing an installed clone was found to have been reset by
/// SA-MP or GTA, if it was.
pub open spec fn reset_kind_spec(
    render_object_changed: bool,
    render_object_address_reused: bool,
    remembered_model_id: Option<i16>,
    current_model_id: i16,
) -> Option<Seq<char>> {
    if render_object_changed && render_object_address_reused {
        Some("render-object address was reused with different geometry"@)
    } else if render_object_changed {
        Some("render-object pointer changed"@)
    } else if (match remembered_model_id {
        Some(model_id) => model_id != current_model_id,
        None => false,
    }) {
        Some("model ID changed while GTA reused the render-object address"@)
    } else {
        None
    }
}

/// A ped wearing an installed clone was reset exactly when its render
/// object is no longer the installed one, or its server model changed while
/// the render object stayed: a changed render object is always a reset,
/// named by whether its address was reused with another geometry.
pub proof fn lemma_reset_detection(
    render_object_changed: bool,
    render_object_address_reused: bool,
    remembered_model_id: Option<i16>,
    current_model_id: i16,
)
    ensures
        render_object_changed ==> reset_kind_spec(
            render_object_changed,
            render_object_address_reused,
            remembered_model_id,
            current_model_id,
        ) == Some(if render_object_address_reused {
            "render-object address was reused with different geometry"@
        } else {
            "render-object pointer changed"@
        }),
        !render_object_changed ==> (reset_kind_spec(
            render_object_changed,
            render_object_address_reused,
            remembered_model_id,
            current_model_id,
        ) is Some <==> (remembered_model_id matches Some(m) && m != current_model_id)),
        !render_object_changed && (remembered_model_id matches Some(m) && m != current_model_id) ==> reset_kind_spec(
            render_object_changed,
            render_object_address_reused,
            remembered_model_id,
            current_model_id,
        ) == Some("model ID changed while GTA reused the render-object address"@),
{
}

/// Classifies a reset of a ped that wears an installed clone.
pub fn local_instance_reset_kind(
    render_object_changed: bool,
    render_object_address_reused: bool,
    remembered_model_id: Option<i16>,
    current_model_id: i16,
) -> (kind: Option<&'static str>)
    ensures
        match kind {
            Some(text) => reset_kind_spec(
                render_object_changed,
                render_object_address_reused,
                remembered_model_id,
                current_model_id,
            ) == Some(text@),
            None => reset_kind_spec(
                render_object_changed,
                render_object_address_reused,
                remembered_model_id,
                current_model_id,
            ) is None,
        },
        render_object_changed ==> kind is Some,
        !render_object_changed ==> (kind is Some <==> (remembered_model_id matches Some(m) && m != current_model_id)),
{
    if render_object_changed && render_object_address_reused {
        Some("render-object address was reused with different geometry")
    } else if render_object_changed {
        Some("render-object pointer changed")
    } else if (match remembered_model_id {
        Some(model_id) => model_id != current_model_id,
        None => false,
    }) {
        Some("model ID changed while GTA reused the render-object address")
    } else {
        None
    }
}

/// What Runtime remembers about a ped wearing a custom clone.
pub struct AppliedPlayer {
    pub skin_id: String,
    /// The server model observed when the clone was installed.
    pub last_server_model_id: Option<i16>,
    /// The clone that was installed.
    pub render_object: PedRenderObject,
}

pub struct AppliedView {
    pub skin_id: Seq<char>,
    pub last_server_model_id: Option<i16>,
    pub render_object: PedRenderObject,
}

impl View for AppliedPlayer {
    type V = AppliedView;

    open spec fn view(&self) -> AppliedView {
        AppliedView {
            skin_id: self.skin_id@,
            last_server_model_id: self.last_server_model_id,
            render_object: self.render_object,
        }
    }
}

/// The fingerprint of an install that failed: profile, source generation,
/// server model and render object. The same combination is not retried.
pub struct ApplyAttempt {
    pub skin_id: String,
    pub generation: u64,
    pub server_model_id: i16,
    pub render_object: PedRenderObject,
}

pub struct AttemptView {
    pub skin_id: Seq<char>,
    pub generation: u64,
    pub server_model_id: i16,
    pub render_object: PedRenderObject,
}

impl View for ApplyAttempt {
    type V = AttemptView;

    open spec fn view(&self) -> AttemptView {
        AttemptView {
            skin_id: self.skin_id@,
            generation: self.generation,
            server_model_id: self.server_model_id,
            render_object: self.render_object,
        }
    }
}

/// One streamed ped as read this frame.
pub struct PedObservation {
    pub player_id: PlayerId,
    /// `None` when SA-MP's name was empty, malformed or unreadable.
    pub name: Option<String>,
    pub model_id: i16,
    pub render_object: PedRenderObject,
}

/// Why a ped goes back to its server clump.
#[derive(Clone, Copy, Debug, PartialEq, Eq, Structural)]
pub enum RestoreReason {
    NoMatchingRule,
    ProfileRemoved,
    ProfileDisabled,
    SkinSwitched,
    SourceChanged,
}

pub open spec fn reason_text(reason: RestoreReason) -> Seq<char> {
    match reason {
        RestoreReason::NoMatchingRule => "having no matching rule"@,
        RestoreReason::ProfileRemoved => "removing its skin profile"@,
        RestoreReason::ProfileDisabled => "disabling its skin profile"@,
        RestoreReason::SkinSwitched => "switching its skin"@,
        RestoreReason::SourceChanged => "changing its skin source"@,
    }
}

impl RestoreReason {
    pub fn text(self) -> (text: &'static str)
        ensures
            text@ == reason_text(self),
    {
        match self {
            RestoreReason::NoMatchingRule => "having no matching rule",
            RestoreReason::ProfileRemoved => "removing its skin profile",
            RestoreReason::ProfileDisabled => "disabling its skin profile",
            RestoreReason::SkinSwitched => "switching its skin",
            RestoreReason::SourceChanged => "changing its skin source",
        }
    }
}

/// What to do with one streamed ped.
pub enum PedDecision {
    /// Return the ped to its server clump, for this reason.
    Restore(RestoreReason),
    /// Look up this profile's source and install or keep it.
    Reconcile { skin_id: String, definition: SkinDefinition, already_applied: bool },
}

/// The decision for a ped, with what was noticed on the way.
pub struct PedPlan {
    /// A reset of the ped's installed clone that made Runtime forget it.
    pub reset: Option<&'static str>,
    /// The ped matched a rule it did not match before.
    pub newly_matched: bool,
    pub decision: PedDecision,
}

/// What a source lookup means for a ped.
pub enum LookupOutcome {
    /// Nothing to do: the clone is installed, the source is unavailable, or
    /// this exact install already failed.
    Keep,
    /// The profile's old source must lose its clones first.
    Restore(RestoreReason),
    /// Install a clone of this source on the ped.
    Install { resources: SkinSourceResources, generation: u64 },
}

/// What restoring a ped requires.
#[derive(Debug, PartialEq, Eq, Structural)]
pub enum RestoreStep {
    /// Nothing is installed on the ped, or the ped could not be read.
    Nothing,
    /// SA-MP or GTA already replaced the clone; Runtime forgot it.
    AlreadyReset,
    /// No server model was observed; Runtime forgot the ped without a rebuild.
    NoServerModel,
    /// Remove this clone and rebuild this server model through GTA.
    Rebuild { server_model_id: i16, installed: PedRenderObject },
}

/// What to do with the whole frame's scan.
#[derive(Debug, PartialEq, Eq, Structural)]
pub enum ScanPlan {
    /// No rules and nothing applied: only retired sources need attention.
    CleanupOnly,
    /// Reconcile every streamed ped.
    Full,
}

/// What the configuration watcher did.
pub enum ReloadAction {
    Idle,
    InspectFile,
    ReadFile,
    /// A new configuration is active.
    Reloaded { skin_count: usize, rule_count: usize },
    Removed,
    Uninspectable(String),
    Rejected(String),
}

/// The rule chosen for a ped, if any rule is eligible.
pub open spec fn chosen_rule(config: SkinConfigView, name: Option<Seq<char>>, model_id: i16) -> Option<SkinRuleView> {
    if exists|i: int| best_match(config, i, name, model_id) {
        Some(config.rules[choose|i: int| best_match(config, i, name, model_id)])
    } else {
        None
    }
}

/// An install with this fingerprint may be tried on the player's ped: the
/// ped does not already wear the skin, the same install has not already
/// failed, and the profile's source is loaded.
pub open spec fn install_allowed(runtime: RuntimeView, player_id: PlayerId, attempt: AttemptView, already_applied: bool) -> bool {
    &&& !already_applied
    &&& !(runtime.attempts.contains_key(player_id) && runtime.attempts[player_id] == attempt)
    &&& runtime.skins.sources.loaded.contains_key(attempt.skin_id)
}

/// A reload retires, rather than drops, every loaded shared source whose
/// profile the new configuration no longer references.
pub proof fn lemma_reload_retires_unreferenced(before: &Runtime, after: RuntimeView, skin_id: Seq<char>)
    requires
        before@.skins.sources.loaded.contains_key(skin_id),
        !crate::skin_loader::referenced_profiles(after.config).contains(skin_id),
        after.skins.sources.retired == before@.skins.sources.retired + before.source_order().filter(
            |k: Seq<char>| !crate::skin_loader::referenced_profiles(after.config).contains(k),
        ).map_values(|k: Seq<char>| crate::source_cache::retired_view(k, before@.skins.sources.loaded[k])),
    ensures
        after.skins.sources.retired.contains(
            crate::source_cache::retired_view(skin_id, before@.skins.sources.loaded[skin_id]),
        ),
{
    before.lemma_orders();
    let order = before.source_order();
    let pred = |k: Seq<char>| !crate::skin_loader::referenced_profiles(after.config).contains(k);
    let f = |k: Seq<char>| crate::source_cache::retired_view(k, before@.skins.sources.loaded[k]);
    assert(order.contains(skin_id));
    let i = choose|i: int| 0 <= i < order.len() && order[i] == skin_id;
    order.lemma_filter_contains(pred, i);
    let kept = order.filter(pred);
    let a = choose|a: int| 0 <= a < kept.len() && kept[a] == skin_id;
    let mapped = kept.map_values(f);
    assert(mapped[a] == f(skin_id));
    let prior = before@.skins.sources.retired;
    assert(after.skins.sources.retired[prior.len() + a] == mapped[a]);
}

/// Once an install failed, the same install (profile, source generation,
/// server model and render object) is not tried again on that player.
pub proof fn lemma_failed_install_not_retried(
    before: RuntimeView,
    after: RuntimeView,
    player_id: PlayerId,
    attempt: AttemptView,
    already_applied: bool,
)
    requires
        after.attempts == before.attempts.insert(player_id, attempt),
    ensures
        !install_allowed(after, player_id, attempt, already_applied),
{
}

/// A failed install blocks only its own fingerprint: a server reset, a new
/// render object or model, or a new source generation makes the ped
/// eligible again while the source is loaded and the ped does not wear it.
pub proof fn lemma_changed_fingerprint_is_retried(
    runtime: RuntimeView,
    player_id: PlayerId,
    failed: AttemptView,
    attempt: AttemptView,
)
    requires
        runtime.attempts.contains_key(player_id),
        runtime.attempts[player_id] == failed,
        attempt != failed,
        runtime.skins.sources.loaded.contains_key(attempt.skin_id),
    ensures
        install_allowed(runtime, player_id, attempt, false),
{
}

/// The runtime reports the watcher's action as it is, and a configuration
/// the watcher applied is the active one.
pub open spec fn reload_reports(step: ConfigAction, action: ReloadAction, config: SkinConfigView) -> bool {
    match step {
        ConfigAction::Idle => action is Idle,
        ConfigAction::InspectFile => action is InspectFile,
        ConfigAction::ReadFile => action is ReadFile,
        ConfigAction::Removed => action is Removed,
        ConfigAction::Uninspectable(e) => action matches ReloadAction::Uninspectable(f) && f@ == e@,
        ConfigAction::Rejected(e) => action matches ReloadAction::Rejected(f) && f@ == e@,
        ConfigAction::Apply(c) => action is Reloaded && c@ == config,
    }
}

pub struct RuntimeView {
    pub config: SkinConfigView,
    pub watcher: ConfigWatcherView,
    pub skins: SkinManagerView,
    pub matched: Set<PlayerId>,
    pub applied: Map<PlayerId, AppliedView>,
    pub attempts: Map<PlayerId, AttemptView>,
    pub last_scan_ms: Option<u64>,
}

/// The reconciliation state: configuration, skin caches, and what each
/// player currently wears.
pub struct Runtime {
    config: SkinConfig,
    config_watcher: ConfigWatcher,
    skins: SkinManager,
    matched_players: PlayerMap<()>,
    applied_players: PlayerMap<AppliedPlayer>,
    failed_attempts: PlayerMap<ApplyAttempt>,
    last_scan_ms: Option<u64>,
}

impl View for Runtime {
    type V = RuntimeView;

    closed spec fn view(&self) -> RuntimeView {
        RuntimeView {
            config: self.config@,
            watcher: self.config_watcher@,
            skins: self.skins@,
            matched: self.matched_players@.dom(),
            applied: self.applied_players@.map_values(|a: AppliedPlayer| a@),
            attempts: self.failed_attempts@.map_values(|a: ApplyAttempt| a@),
            last_scan_ms: self.last_scan_ms,
        }
    }
}

impl Runtime {
    pub fn new(config: SkinConfig) -> (runtime: Self)
        ensures
            runtime@.config == config@,
            runtime@.watcher.last_check_ms is None,
            runtime@.watcher.observed_revision is None,
            runtime@.matched.is_empty(),
            runtime@.applied.is_empty(),
            runtime@.attempts.is_empty(),
            runtime@.last_scan_ms is None,
            runtime@.skins.sources.loaded.is_empty(),
            runtime@.skins.sources.retired.len() == 0,
    {
        let runtime = Runtime {
            config,
            config_watcher: ConfigWatcher::new(),
            skins: SkinManager::new(),
            matched_players: PlayerMap::new(),
            applied_players: PlayerMap::new(),
            failed_attempts: PlayerMap::new(),
            last_scan_ms: None,
        };
        assert(runtime@.matched =~= Set::empty());
        assert(runtime@.applied =~= Map::empty());
        assert(runtime@.attempts =~= Map::empty());
        runtime
    }

    pub fn config(&self) -> (config: &SkinConfig)
        ensures
            config@ == self@.config,
    {
        &self.config
    }

    /// The order in which loaded shared sources are stored.
    pub closed spec fn source_order(&self) -> Seq<Seq<char>> {
        self.skins.source_order()
    }

    /// The order in which loaded instance sources are stored.
    pub closed spec fn instance_order(&self) -> Seq<Seq<char>> {
        self.skins.instance_order()
    }

    /// Each storage order lists exactly the loaded profiles of its cache, so
    /// a reload retires every loaded profile it no longer references.
    pub proof fn lemma_orders(&self)
        ensures
            forall|k: Seq<char>| #[trigger] self.source_order().contains(k) <==> self@.skins.sources.loaded.contains_key(k),
            forall|k: Seq<char>| #[trigger] self.instance_order().contains(k) <==> self@.skins.instances.loaded.contains_key(k),
    {
        self.skins.lemma_orders();
    }

    /// Advances the configuration watcher; a valid changed configuration
    /// becomes active, retires the sources it no longer references and
    /// forgets which players matched.
    pub fn reload_config_if_changed(&mut self, event: ConfigEvent) -> (action: ReloadAction)
        ensures
            exists|step: ConfigAction| {
                &&& crate::config::watcher_step(old(self)@.watcher, event, final(self)@.watcher, step)
                &&& reload_reports(step, action, final(self)@.config)
            },
            final(self)@.applied == old(self)@.applied,
            final(self)@.attempts == old(self)@.attempts,
            final(self)@.last_scan_ms == old(self)@.last_scan_ms,
            match action {
                ReloadAction::Reloaded { skin_count, rule_count } => {
                    &&& event matches ConfigEvent::Parsed { result: Ok(c) } && c@ == final(self)@.config
                        && crate::config::config_fault(c@) is None
                    &&& skin_count == final(self)@.config.skins.len()
                    &&& rule_count == final(self)@.config.rules.len()
                    &&& final(self)@.matched.is_empty()
                    &&& final(self)@.skins.sources.loaded == old(self)@.skins.sources.loaded.restrict(
                        crate::skin_loader::referenced_profiles(final(self)@.config),
                    )
                    &&& final(self)@.skins.sources.retired == old(self)@.skins.sources.retired + old(self).source_order().filter(
                        |k: Seq<char>| !crate::skin_loader::referenced_profiles(final(self)@.config).contains(k),
                    ).map_values(|k: Seq<char>| crate::source_cache::retired_view(k, old(self)@.skins.sources.loaded[k]))
                    &&& final(self)@.skins.sources.failed == old(self)@.skins.sources.failed
                    &&& final(self)@.skins.sources.last_check == old(self)@.skins.sources.last_check
                    &&& final(self)@.skins.sources.next_generation == old(self)@.skins.sources.next_generation
                    &&& final(self)@.skins.instances.loaded == old(self)@.skins.instances.loaded.restrict(
                        crate::skin_loader::referenced_profiles(final(self)@.config),
                    )
                    &&& final(self)@.skins.instances.retired == old(self)@.skins.instances.retired + old(self).instance_order().filter(
                        |k: Seq<char>| !crate::skin_loader::referenced_profiles(final(self)@.config).contains(k),
                    ).map_values(|k: Seq<char>| crate::instance_cache::retired_instance_view(k, old(self)@.skins.instances.loaded[k]))
                    &&& final(self)@.skins.instances.failed == old(self)@.skins.instances.failed
                    &&& final(self)@.skins.instances.last_check == old(self)@.skins.instances.last_check
                    &&& old(self).source_order().no_duplicates()
                    &&& old(self).instance_order().no_duplicates()
                },
                _ => {
                    &&& final(self)@.config == old(self)@.config
                    &&& final(self)@.matched == old(self)@.matched
                    &&& final(self)@.skins == old(self)@.skins
                },
            },
    {
        let ghost before = self@;
        let ghost event_view = event;
        let action = self.config_watcher.poll_change(event);
        let ghost step = action;
        let reload = match action {
            ConfigAction::Idle => ReloadAction::Idle,
            ConfigAction::InspectFile => ReloadAction::InspectFile,
            ConfigAction::ReadFile => ReloadAction::ReadFile,
            ConfigAction::Removed => ReloadAction::Removed,
            ConfigAction::Uninspectable(error) => ReloadAction::Uninspectable(error),
            ConfigAction::Rejected(error) => ReloadAction::Rejected(error),
            ConfigAction::Apply(config) => {
                self.skins.apply_config(&config);
                let skin_count = config.skins.len();
                let rule_count = config.rules.len();
                self.config = config;
                self.matched_players = PlayerMap::new();
                assert(self@.matched =~= Set::empty());
                ReloadAction::Reloaded { skin_count, rule_count }
            },
        };
        assert(crate::config::watcher_step(before.watcher, event_view, self@.watcher, step));
        assert(reload_reports(step, reload, self@.config));
        reload
    }

    /// A complete scan is due after a refresh request, a configuration
    /// reload, on the first frame, or once the configured interval passed.
    pub fn scan_due(&mut self, now_ms: u64, refresh_requested: bool, config_reloaded: bool) -> (due: bool)
        ensures
            due == (refresh_requested || config_reloaded || match old(self)@.last_scan_ms {
                None => true,
                Some(last) => !crate::config::within_interval(now_ms, last, old(self)@.config.poll_interval_ms),
            }),
            final(self)@.last_scan_ms == (if due { Some(now_ms) } else { old(self)@.last_scan_ms }),
            final(self)@.config == old(self)@.config,
            final(self)@.watcher == old(self)@.watcher,
            final(self)@.skins == old(self)@.skins,
            final(self)@.matched == old(self)@.matched,
            final(self)@.applied == old(self)@.applied,
            final(self)@.attempts == old(self)@.attempts,
    {
        let interval_passed = match self.last_scan_ms {
            None => true,
            Some(last) => (now_ms as u128) >= (last as u128) + (self.config.poll_interval_ms as u128),
        };
        let due = refresh_requested || config_reloaded || interval_passed;
        if due {
            self.last_scan_ms = Some(now_ms);
        }
        due
    }

    /// With no rules and nothing applied, a scan only cleans up.
    pub fn scan_plan(&self) -> (plan: ScanPlan)
        ensures
            plan == (if self@.config.rules.len() == 0 && self@.applied.is_empty() {
                ScanPlan::CleanupOnly
            } else {
                ScanPlan::Full
            }),
    {
        if self.config.rules.len() == 0 && self.applied_players.len() == 0 {
            assert(self@.applied.dom() =~= Set::empty());
            assert(self@.applied =~= Map::empty());
            ScanPlan::CleanupOnly
        } else {
            proof {
                if self@.applied.is_empty() {
                    assert(self.applied_players@.dom() =~= self@.applied.dom());
                }
            }
            ScanPlan::Full
        }
    }

    /// Decides what to do with one streamed ped. A clone that SA-MP or GTA
    /// already replaced is forgotten first; then the ped's rule, profile and
    /// installed skin decide between restoring it and reconciling its source.
    pub fn decide_ped(&mut self, ped: &PedObservation) -> (plan: PedPlan)
        ensures
            final(self)@.config == old(self)@.config,
            final(self)@.watcher == old(self)@.watcher,
            final(self)@.skins == old(self)@.skins,
            final(self)@.attempts == old(self)@.attempts,
            final(self)@.last_scan_ms == old(self)@.last_scan_ms,
            ({
                let o = old(self)@;
                let pid = ped.player_id;
                let prev = o.applied[pid];
                let changed = prev.render_object != ped.render_object;
                let reused = changed && prev.render_object.address_spec() == ped.render_object.address_spec();
                let kind = reset_kind_spec(changed, reused, prev.last_server_model_id, ped.model_id);
                let reset = o.applied.contains_key(pid) && kind is Some;
                let applied1 = if reset { o.applied.remove(pid) } else { o.applied };
                let matched1 = if reset { o.matched.remove(pid) } else { o.matched };
                &&& match plan.reset {
                    Some(text) => reset && kind == Some(text@),
                    None => !reset,
                }
                &&& final(self)@.applied == applied1
                &&& match chosen_rule(o.config, opt_chars(ped.name), ped.model_id) {
                    None => {
                        &&& plan.decision matches PedDecision::Restore(RestoreReason::NoMatchingRule)
                        &&& final(self)@.matched == matched1
                        &&& !plan.newly_matched
                    },
                    Some(rule) => match skin_definition(o.config.skins, rule.profile_id) {
                        None => {
                            &&& plan.decision matches PedDecision::Restore(RestoreReason::ProfileRemoved)
                            &&& final(self)@.matched == matched1
                            &&& !plan.newly_matched
                        },
                        Some(definition) => if !definition.enabled {
                            &&& plan.decision matches PedDecision::Restore(RestoreReason::ProfileDisabled)
                            &&& final(self)@.matched == matched1
                            &&& !plan.newly_matched
                        } else {
                            &&& final(self)@.matched == matched1.insert(pid)
                            &&& plan.newly_matched == !matched1.contains(pid)
                            &&& if applied1.contains_key(pid) && applied1[pid].skin_id != rule.profile_id {
                                plan.decision matches PedDecision::Restore(RestoreReason::SkinSwitched)
                            } else {
                                plan.decision matches PedDecision::Reconcile { skin_id, definition: d, already_applied }
                                    && skin_id@ == rule.profile_id && d@ == definition
                                    && already_applied == applied1.contains_key(pid)
                            }
                        },
                    },
                }
            }),
    {
        let pid = ped.player_id;
        let mut reset: Option<&'static str> = None;
        match self.applied_players.get(pid) {
            Some(applied) => {
                let changed = applied.render_object != ped.render_object;
                let reused = changed && applied.render_object.has_same_address(ped.render_object);
                reset = local_instance_reset_kind(changed, reused, applied.last_server_model_id, ped.model_id);
            },
            None => {},
        }
        if reset.is_some() {
            let ghost before = self@;
            self.applied_players.remove(pid);
            self.matched_players.remove(pid);
            assert(self@.applied =~= before.applied.remove(pid));
            assert(self@.matched =~= before.matched.remove(pid));
        }
        let name: Option<&str> = match &ped.name {
            Some(n) => Some(n.as_str()),
            None => None,
        };
        assert(crate::text::opt_str_chars(name) == opt_chars(ped.name));
        let found = self.config.matching_rule(name, ped.model_id);
        let rule = match found {
            Some(rule) => rule,
            None => {
                proof {
                    if exists|i: int| best_match(self@.config, i, opt_chars(ped.name), ped.model_id) {
                        let i = choose|i: int| best_match(self@.config, i, opt_chars(ped.name), ped.model_id);
                        assert(crate::config::eligible(self@.config, i, opt_chars(ped.name), ped.model_id));
                    }
                }
                return PedPlan { reset, newly_matched: false, decision: PedDecision::Restore(RestoreReason::NoMatchingRule) };
            },
        };
        proof {
            let i = choose|i: int| best_match(self@.config, i, opt_chars(ped.name), ped.model_id)
                && *rule == self.config.rules@[i];
            let c = choose|c: int| best_match(self@.config, c, opt_chars(ped.name), ped.model_id);
            lemma_best_match_unique(self@.config, i, c, opt_chars(ped.name), ped.model_id);
            assert(self@.config.rules[i] == rule@);
        }
        let skin_id = rule.profile_id.clone();
        let definition = match self.config.skins.get(skin_id.as_str()) {
            Some(d) => d.duplicate(),
            None => {
                return PedPlan { reset, newly_matched: false, decision: PedDecision::Restore(RestoreReason::ProfileRemoved) };
            },
        };
        if !definition.enabled {
            return PedPlan { reset, newly_matched: false, decision: PedDecision::Restore(RestoreReason::ProfileDisabled) };
        }
        let newly_matched = !self.matched_players.contains_key(pid);
        let ghost before_match = self@;
        self.matched_players.insert(pid, ());
        assert(self@.matched =~= before_match.matched.insert(pid));
        let switched = match self.applied_players.get(pid) {
            Some(applied) => !str_eq(applied.skin_id.as_str(), skin_id.as_str()),
            None => false,
        };
        if switched {
            return PedPlan { reset, newly_matched, decision: PedDecision::Restore(RestoreReason::SkinSwitched) };
        }
        let already_applied = self.applied_players.contains_key(pid);
        PedPlan { reset, newly_matched, decision: PedDecision::Reconcile { skin_id, definition, already_applied } }
    }

    /// Starts a lookup of a profile's shared source.
    pub fn source_for(&self, skin_id: &str, definition: &SkinDefinition, now_ms: u64) -> (step: SourceStep)
        ensures
            if crate::source_cache::retired_has(self@.skins.sources, skin_id@) {
                step == SourceStep::Done(Lookup::RestoreRequired)
            } else if self@.skins.sources.loaded.contains_key(skin_id@)
                && self@.skins.sources.loaded[skin_id@].source.definition == definition@
                && crate::source_cache::recently_checked(self@.skins.sources, skin_id@, now_ms) {
                step == SourceStep::Done(Lookup::Ready { generation: self@.skins.sources.loaded[skin_id@].generation })
            } else if crate::source_cache::recently_checked(self@.skins.sources, skin_id@, now_ms)
                && self@.skins.sources.failed.contains_key(skin_id@)
                && self@.skins.sources.failed[skin_id@].definition == definition@ {
                step == SourceStep::Done(Lookup::Unavailable)
            } else {
                step is InspectFiles
            },
    {
        self.skins.source_for(skin_id, definition, now_ms)
    }

    /// Continues a source lookup with the profile's asset revision.
    pub fn source_revision(&mut self, skin_id: &str, source: SkinSourceRevision, now_ms: u64) -> (step: SourceStep)
        ensures
            final(self)@.config == old(self)@.config,
            final(self)@.watcher == old(self)@.watcher,
            final(self)@.matched == old(self)@.matched,
            final(self)@.applied == old(self)@.applied,
            final(self)@.attempts == old(self)@.attempts,
            final(self)@.last_scan_ms == old(self)@.last_scan_ms,
            final(self)@.skins.sources.last_check == old(self)@.skins.sources.last_check.insert(skin_id@, now_ms),
            if old(self)@.skins.sources.loaded.contains_key(skin_id@)
                && old(self)@.skins.sources.loaded[skin_id@].source == source@ {
                &&& step == SourceStep::Done(Lookup::Ready { generation: old(self)@.skins.sources.loaded[skin_id@].generation })
                &&& final(self)@.skins.sources.loaded == old(self)@.skins.sources.loaded
                &&& final(self)@.skins.sources.retired == old(self)@.skins.sources.retired
            } else if old(self)@.skins.sources.loaded.contains_key(skin_id@) {
                &&& step == SourceStep::Done(Lookup::RestoreRequired)
                &&& final(self)@.skins.sources.loaded == old(self)@.skins.sources.loaded.remove(skin_id@)
                &&& final(self)@.skins.sources.retired == old(self)@.skins.sources.retired.push(
                    crate::source_cache::retired_view(skin_id@, old(self)@.skins.sources.loaded[skin_id@]),
                )
            } else if old(self)@.skins.sources.failed.contains_key(skin_id@)
                && old(self)@.skins.sources.failed[skin_id@] == source@ {
                &&& step == SourceStep::Done(Lookup::Unavailable)
                &&& final(self)@.skins.sources.loaded == old(self)@.skins.sources.loaded
            } else {
                &&& step matches SourceStep::Load(revision) && revision@ == source@
                &&& final(self)@.skins.sources.loaded == old(self)@.skins.sources.loaded
            },
    {
        self.skins.source_revision(skin_id, source, now_ms)
    }

    /// Records the outcome of loading a source.
    pub fn source_loaded(&mut self, skin_id: &str, source: SkinSourceRevision, resources: Option<SkinSourceResources>) -> (lookup: Lookup)
        ensures
            final(self)@.config == old(self)@.config,
            final(self)@.watcher == old(self)@.watcher,
            final(self)@.matched == old(self)@.matched,
            final(self)@.applied == old(self)@.applied,
            final(self)@.attempts == old(self)@.attempts,
            final(self)@.last_scan_ms == old(self)@.last_scan_ms,
            final(self)@.skins.sources.retired == old(self)@.skins.sources.retired,
            match resources {
                Some(r) => {
                    &&& lookup == Lookup::Ready { generation: crate::source_cache::next_after(old(self)@.skins.sources.next_generation) }
                    &&& final(self)@.skins.sources.loaded == old(self)@.skins.sources.loaded.insert(
                        skin_id@,
                        crate::source_cache::LoadedSourceView {
                            resources: r,
                            source: source@,
                            generation: crate::source_cache::next_after(old(self)@.skins.sources.next_generation),
                            clones: Set::empty(),
                        },
                    )
                },
                None => {
                    &&& lookup == Lookup::Unavailable
                    &&& final(self)@.skins.sources.loaded == old(self)@.skins.sources.loaded
                    &&& final(self)@.skins.sources.failed == old(self)@.skins.sources.failed.insert(skin_id@, source@)
                },
            },
    {
        self.skins.source_loaded(skin_id, source, resources)
    }

    /// Turns a source lookup into an action for the ped. A ready source is
    /// installed unless the ped already wears it or this exact install
    /// (profile, generation, server model, render object) already failed.
    pub fn after_lookup(&self, ped: &PedObservation, skin_id: &str, lookup: Lookup, already_applied: bool) -> (outcome: LookupOutcome)
        ensures
            match lookup {
                Lookup::Ready { generation } => {
                    let attempt = AttemptView {
                        skin_id: skin_id@,
                        generation,
                        server_model_id: ped.model_id,
                        render_object: ped.render_object,
                    };
                    if !install_allowed(self@, ped.player_id, attempt, already_applied) {
                        outcome is Keep
                    } else {
                        outcome matches LookupOutcome::Install { resources, generation: g }
                            && resources == self@.skins.sources.loaded[skin_id@].resources && g == generation
                    }
                },
                Lookup::RestoreRequired => outcome matches LookupOutcome::Restore(RestoreReason::SourceChanged),
                Lookup::Unavailable => outcome is Keep,
            },
    {
        match lookup {
            Lookup::Ready { generation } => {
                if already_applied {
                    return LookupOutcome::Keep;
                }
                let repeated = match self.failed_attempts.get(ped.player_id) {
                    Some(attempt) => attempt.generation == generation && attempt.server_model_id == ped.model_id
                        && attempt.render_object == ped.render_object && str_eq(attempt.skin_id.as_str(), skin_id),
                    None => false,
                };
                if repeated {
                    return LookupOutcome::Keep;
                }
                match self.skins.source_resources(skin_id) {
                    Some(resources) => LookupOutcome::Install { resources: *resources, generation },
                    None => LookupOutcome::Keep,
                }
            },
            Lookup::RestoreRequired => LookupOutcome::Restore(RestoreReason::SourceChanged),
            Lookup::Unavailable => LookupOutcome::Keep,
        }
    }

    /// Records the outcome of installing a clone. A success remembers the
    /// clone, its profile and the ped's server model, and records the clone
    /// with its source; a failure remembers the attempt so it is not retried.
    pub fn finish_install(&mut self, ped: &PedObservation, skin_id: &str, generation: u64, installed: Option<PedRenderObject>)
        ensures
            final(self)@.config == old(self)@.config,
            final(self)@.watcher == old(self)@.watcher,
            final(self)@.matched == old(self)@.matched,
            final(self)@.last_scan_ms == old(self)@.last_scan_ms,
            match installed {
                Some(clone) => {
                    &&& final(self)@.applied == old(self)@.applied.insert(
                        ped.player_id,
                        AppliedView { skin_id: skin_id@, last_server_model_id: Some(ped.model_id), render_object: clone },
                    )
                    &&& final(self)@.attempts == old(self)@.attempts.remove(ped.player_id)
                    &&& final(self)@.skins.sources.loaded == (if old(self)@.skins.sources.loaded.contains_key(skin_id@) {
                        old(self)@.skins.sources.loaded.insert(
                            skin_id@,
                            crate::source_cache::LoadedSourceView {
                                clones: old(self)@.skins.sources.loaded[skin_id@].clones.insert(clone),
                                ..old(self)@.skins.sources.loaded[skin_id@]
                            },
                        )
                    } else {
                        old(self)@.skins.sources.loaded
                    })
                    &&& final(self)@.skins.sources.retired == old(self)@.skins.sources.retired
                },
                None => {
                    &&& final(self)@.applied == old(self)@.applied
                    &&& final(self)@.attempts == old(self)@.attempts.insert(
                        ped.player_id,
                        AttemptView {
                            skin_id: skin_id@,
                            generation,
                            server_model_id: ped.model_id,
                            render_object: ped.render_object,
                        },
                    )
                    &&& final(self)@.skins == old(self)@.skins
                },
            },
    {
        let ghost before = self@;
        match installed {
            Some(clone) => {
                let applied = AppliedPlayer {
                    skin_id: skin_id.to_owned(),
                    last_server_model_id: Some(ped.model_id),
                    render_object: clone,
                };
                let ghost av = applied@;
                self.applied_players.insert(ped.player_id, applied);
                self.skins.record_clone(skin_id, clone);
                self.failed_attempts.remove(ped.player_id);
                assert(self@.applied =~= before.applied.insert(ped.player_id, av));
                assert(self@.attempts =~= before.attempts.remove(ped.player_id));
            },
            None => {
                let attempt = ApplyAttempt {
                    skin_id: skin_id.to_owned(),
                    generation,
                    server_model_id: ped.model_id,
                    render_object: ped.render_object,
                };
                let ghost tv = attempt@;
                self.failed_attempts.insert(ped.player_id, attempt);
                assert(self@.attempts =~= before.attempts.insert(ped.player_id, tv));
            },
        }
    }

    /// Decides how to return a player's ped to its server clump, given what
    /// the ped holds now. A clone that was already replaced is never
    /// overwritten; a remembered server model is rebuilt.
    pub fn restore_server_model(&mut self, player_id: PlayerId, current_model_id: Option<i16>, current_render_object: Option<PedRenderObject>) -> (step: RestoreStep)
        ensures
            final(self)@.config == old(self)@.config,
            final(self)@.watcher == old(self)@.watcher,
            final(self)@.skins == old(self)@.skins,
            final(self)@.attempts == old(self)@.attempts,
            final(self)@.last_scan_ms == old(self)@.last_scan_ms,
            if current_model_id is None || !old(self)@.applied.contains_key(player_id) || current_render_object is None {
                &&& step == RestoreStep::Nothing
                &&& final(self)@.applied == old(self)@.applied
                &&& final(self)@.matched == old(self)@.matched
            } else if current_render_object != Some(old(self)@.applied[player_id].render_object) {
                &&& step == RestoreStep::AlreadyReset
                &&& final(self)@.applied == old(self)@.applied.remove(player_id)
                &&& final(self)@.matched == old(self)@.matched.remove(player_id)
            } else if old(self)@.applied[player_id].last_server_model_id is Some {
                &&& step == RestoreStep::Rebuild {
                    server_model_id: old(self)@.applied[player_id].last_server_model_id->0,
                    installed: old(self)@.applied[player_id].render_object,
                }
                &&& final(self)@.applied == old(self)@.applied
                &&& final(self)@.matched == old(self)@.matched
            } else {
                &&& step == RestoreStep::NoServerModel
                &&& final(self)@.applied == old(self)@.applied.remove(player_id)
                &&& final(self)@.matched == old(self)@.matched.remove(player_id)
            },
    {
        if current_model_id.is_none() {
            return RestoreStep::Nothing;
        }
        let (installed, last) = match self.applied_players.get(player_id) {
            Some(applied) => (applied.render_object, applied.last_server_model_id),
            None => {
                return RestoreStep::Nothing;
            },
        };
        let current = match current_render_object {
            Some(current) => current,
            None => {
                return RestoreStep::Nothing;
            },
        };
        if current != installed {
            self.forget(player_id);
            return RestoreStep::AlreadyReset;
        }
        match last {
            Some(server_model_id) => RestoreStep::Rebuild { server_model_id, installed },
            None => {
                self.forget(player_id);
                RestoreStep::NoServerModel
            },
        }
    }

    /// Records whether GTA rebuilt the server clump; only a successful
    /// rebuild forgets the player, so a failed one is retried later.
    pub fn finish_restore(&mut self, player_id: PlayerId, rebuilt: bool)
        ensures
            final(self)@.config == old(self)@.config,
            final(self)@.watcher == old(self)@.watcher,
            final(self)@.skins == old(self)@.skins,
            final(self)@.attempts == old(self)@.attempts,
            final(self)@.last_scan_ms == old(self)@.last_scan_ms,
            final(self)@.applied == (if rebuilt { old(self)@.applied.remove(player_id) } else { old(self)@.applied }),
            final(self)@.matched == (if rebuilt { old(self)@.matched.remove(player_id) } else { old(self)@.matched }),
    {
        if rebuilt {
            self.forget(player_id);
        }
    }

    fn forget(&mut self, player_id: PlayerId)
        ensures
            final(self)@.config == old(self)@.config,
            final(self)@.watcher == old(self)@.watcher,
            final(self)@.skins == old(self)@.skins,
            final(self)@.attempts == old(self)@.attempts,
            final(self)@.last_scan_ms == old(self)@.last_scan_ms,
            final(self)@.applied == old(self)@.applied.remove(player_id),
            final(self)@.matched == old(self)@.matched.remove(player_id),
    {
        let ghost before = self@;
        self.applied_players.remove(player_id);
        self.matched_players.remove(player_id);
        assert(self@.applied =~= before.applied.remove(player_id));
        assert(self@.matched =~= before.matched.remove(player_id));
    }

    /// After a complete scan, forgets players that are no longer streamed.
    /// An applied clone of a streamed-out player is kept while it may still
    /// be live: always without a complete liveness scan, otherwise while its
    /// render object is among the live ones.
    pub fn prune_streamed_out_players(&mut self, streamed_player_ids: &Vec<PlayerId>, live_render_objects: Option<&Vec<PedRenderObject>>)
        ensures
            final(self)@.config == old(self)@.config,
            final(self)@.watcher == old(self)@.watcher,
            final(self)@.skins == old(self)@.skins,
            final(self)@.last_scan_ms == old(self)@.last_scan_ms,
            final(self)@.applied == old(self)@.applied.restrict(
                Set::new(|p: PlayerId| streamed_player_ids@.contains(p) || match live_render_objects {
                    None => true,
                    Some(live) => live@.contains(old(self)@.applied[p].render_object),
                }),
            ),
            final(self)@.matched == old(self)@.matched.intersect(streamed_player_ids@.to_set()),
            final(self)@.attempts == old(self)@.attempts.restrict(streamed_player_ids@.to_set()),
    {
        let ghost before = self@;
        let ghost keep = Set::new(|p: PlayerId| streamed_player_ids@.contains(p) || match live_render_objects {
            None => true,
            Some(live) => live@.contains(before.applied[p].render_object),
        });
        let drop_applied = self.applied_to_drop(streamed_player_ids, live_render_objects);
        let drop_matched = keys_not_streamed(&self.matched_players, streamed_player_ids);
        let drop_attempts = keys_not_streamed(&self.failed_attempts, streamed_player_ids);
        self.applied_players.remove_all(&drop_applied);
        self.matched_players.remove_all(&drop_matched);
        self.failed_attempts.remove_all(&drop_attempts);
        proof {
            assert forall|p: PlayerId| #[trigger] before.applied.contains_key(p) implies (drop_applied@.to_set().contains(p) <==> !keep.contains(p)) by {
                assert(drop_applied@.to_set().contains(p) == drop_applied@.contains(p));
                assert(keep.contains(p) == (streamed_player_ids@.contains(p) || match live_render_objects {
                    None => true,
                    Some(live) => live@.contains(before.applied[p].render_object),
                }));
            }
            assert(self@.applied =~= before.applied.restrict(keep));
            assert(self@.matched =~= before.matched.intersect(streamed_player_ids@.to_set()));
            assert(self@.attempts =~= before.attempts.restrict(streamed_player_ids@.to_set()));
        }
    }

    fn applied_to_drop(&self, streamed_player_ids: &Vec<PlayerId>, live_render_objects: Option<&Vec<PedRenderObject>>) -> (drop: Vec<PlayerId>)
        ensures
            forall|p: PlayerId| #[trigger] drop@.contains(p) <==> (self@.applied.contains_key(p) && !(
                streamed_player_ids@.contains(p) || match live_render_objects {
                    None => true,
                    Some(live) => live@.contains(self@.applied[p].render_object),
                })),
    {
        let mut drop: Vec<PlayerId> = Vec::new();
        let key_list = self.applied_players.key_list();
        let n = key_list.len();
        let ghost keys = key_list@;
        let mut i: usize = 0;
        while i < n
            invariant
                n == keys.len(),
                keys == key_list@,
                i <= n,
                forall|k: PlayerId| self.applied_players@.contains_key(k) <==> keys.contains(k),
                forall|p: PlayerId| drop@.contains(p) <==> (keys.take(i as int).contains(p) && !(
                    streamed_player_ids@.contains(p) || match live_render_objects {
                        None => true,
                        Some(live) => live@.contains(self@.applied[p].render_object),
                    })),
            decreases n - i,
        {
            let pid = key_list[i];
            assert(keys.contains(pid));
            let keep = match self.applied_players.get(pid) {
                Some(applied) => {
                    assert(self@.applied[pid] == applied@);
                    contains_player(streamed_player_ids, pid) || match live_render_objects {
                        None => true,
                        Some(live) => contains_render_object(live, applied.render_object),
                    }
                },
                None => true,
            };
            let ghost before = drop@;
            if !keep {
                drop.push(pid);
            }
            proof {
                assert forall|p: PlayerId| drop@.contains(p) <==> (keys.take(i + 1).contains(p) && !(
                    streamed_player_ids@.contains(p) || match live_render_objects {
                        None => true,
                        Some(live) => live@.contains(self@.applied[p].render_object),
                    })) by {
                    crate::seq_facts::lemma_take_contains(keys, i as int, p);
                    if !keep {
                        assert(drop@ == before.push(pid));
                        crate::seq_facts::lemma_push_contains(before, pid, p);
                    }
                }
            }
            i = i + 1;
        }
        assert(keys.take(n as int) =~= keys);
        assert(forall|p: PlayerId| self@.applied.contains_key(p) <==> self.applied_players@.contains_key(p));
        drop
    }

    /// The positions of the retired sources that may be released: none
    /// without a complete liveness scan; with one, those none of whose clones
    /// is live.
    pub fn releasable_sources(&self, live_render_objects: Option<&Vec<PedRenderObject>>) -> (indices: Vec<usize>)
        ensures
            match live_render_objects {
                None => indices@.len() == 0,
                Some(live) => forall|i: usize| #[trigger] indices@.contains(i) <==> (i < self@.skins.sources.retired.len()
                    && self@.skins.sources.retired[i as int].clones.disjoint(live@.to_set())),
            },
            forall|a: int, b: int| 0 <= a < b < indices@.len() ==> indices@[a] < indices@[b],
    {
        self.skins.releasable(live_render_objects)
    }

    /// The profile and resources of the retired source at `index`.
    pub fn retired_source(&self, index: usize) -> (source: (&String, SkinSourceResources))
        requires
            index < self@.skins.sources.retired.len(),
        ensures
            source.0@ == self@.skins.sources.retired[index as int].skin_id,
            source.1 == self@.skins.sources.retired[index as int].resources,
    {
        self.skins.retired_source(index)
    }

    /// Drops the retired sources that were released (`released` holds their
    /// positions) while none of their clones is live; a source whose release
    /// failed stays in its place. Without a complete liveness scan nothing
    /// changes.
    pub fn cleanup_retired_skins(&mut self, live_render_objects: Option<&Vec<PedRenderObject>>, released: &Vec<usize>)
        ensures
            final(self)@.config == old(self)@.config,
            final(self)@.watcher == old(self)@.watcher,
            final(self)@.matched == old(self)@.matched,
            final(self)@.applied == old(self)@.applied,
            final(self)@.attempts == old(self)@.attempts,
            final(self)@.last_scan_ms == old(self)@.last_scan_ms,
            match live_render_objects {
                None => final(self)@ == old(self)@,
                Some(live) => {
                    &&& final(self)@.skins.sources.retired == crate::source_cache::retained_after_release(
                        old(self)@.skins.sources.retired,
                        live@.to_set(),
                        released@,
                    )
                    &&& final(self)@.skins.sources.loaded == old(self)@.skins.sources.loaded.map_values(
                        |v: crate::source_cache::LoadedSourceView| crate::source_cache::LoadedSourceView {
                            clones: v.clones.intersect(live@.to_set()),
                            ..v
                        },
                    )
                },
            },
    {
        self.skins.cleanup_retired(live_render_objects, released)
    }

    /// Ends a frame's scan. A failed ped scan (`streamed` is `None`) is not
    /// an empty scan: no player state is pruned. After a successful one,
    /// players no longer streamed are pruned. Either way the released
    /// retired sources are dropped as `cleanup_retired_skins` says.
    pub fn after_scan(
        &mut self,
        streamed: Option<&Vec<PlayerId>>,
        live_render_objects: Option<&Vec<PedRenderObject>>,
        released: &Vec<usize>,
    )
        ensures
            final(self)@.config == old(self)@.config,
            final(self)@.watcher == old(self)@.watcher,
            final(self)@.last_scan_ms == old(self)@.last_scan_ms,
            match streamed {
                None => {
                    &&& final(self)@.applied == old(self)@.applied
                    &&& final(self)@.matched == old(self)@.matched
                    &&& final(self)@.attempts == old(self)@.attempts
                },
                Some(ids) => {
                    &&& final(self)@.applied == old(self)@.applied.restrict(
                        Set::new(|p: PlayerId| ids@.contains(p) || match live_render_objects {
                            None => true,
                            Some(live) => live@.contains(old(self)@.applied[p].render_object),
                        }),
                    )
                    &&& final(self)@.matched == old(self)@.matched.intersect(ids@.to_set())
                    &&& final(self)@.attempts == old(self)@.attempts.restrict(ids@.to_set())
                },
            },
            match live_render_objects {
                None => final(self)@.skins == old(self)@.skins,
                Some(live) => {
                    &&& final(self)@.skins.sources.retired == crate::source_cache::retained_after_release(
                        old(self)@.skins.sources.retired,
                        live@.to_set(),
                        released@,
                    )
                    &&& final(self)@.skins.sources.loaded == old(self)@.skins.sources.loaded.map_values(
                        |v: crate::source_cache::LoadedSourceView| crate::source_cache::LoadedSourceView {
                            clones: v.clones.intersect(live@.to_set()),
                            ..v
                        },
                    )
                },
            },
    {
        match streamed {
            Some(ids) => self.prune_streamed_out_players(ids, live_render_objects),
            None => {},
        }
        self.cleanup_retired_skins(live_render_objects, released);
    }
}

/// The keys of a player map whose players are not streamed.
fn keys_not_streamed<V>(map: &PlayerMap<V>, streamed_player_ids: &Vec<PlayerId>) -> (drop: Vec<PlayerId>)
    ensures
        forall|p: PlayerId| drop@.to_set().contains(p) <==> (map@.contains_key(p) && !streamed_player_ids@.contains(p)),
{
    let mut drop: Vec<PlayerId> = Vec::new();
    let key_list = map.key_list();
    let n = key_list.len();
    let ghost keys = key_list@;
    let mut i: usize = 0;
    while i < n
        invariant
            n == keys.len(),
            keys == key_list@,
            i <= n,
            forall|k: PlayerId| map@.contains_key(k) <==> keys.contains(k),
            forall|p: PlayerId| drop@.contains(p) <==> (keys.take(i as int).contains(p) && !streamed_player_ids@.contains(p)),
        decreases n - i,
    {
        let pid = key_list[i];
        let ghost before = drop@;
        let streamed = contains_player(streamed_player_ids, pid);
        if !streamed {
            drop.push(pid);
        }
        proof {
            assert forall|p: PlayerId| drop@.contains(p) <==> (keys.take(i + 1).contains(p) && !streamed_player_ids@.contains(p)) by {
                crate::seq_facts::lemma_take_contains(keys, i as int, p);
                if !streamed {
                    assert(drop@ == before.push(pid));
                    crate::seq_facts::lemma_push_contains(before, pid, p);
                }
            }
        }
        i = i + 1;
    }
    assert(keys.take(n as int) =~= keys);
    drop
}

fn contains_player(ids: &Vec<PlayerId>, id: PlayerId) -> (found: bool)
    ensures
        found == ids@.contains(id),
{
    let mut i: usize = 0;
    while i < ids.len()
        invariant
            i <= ids@.len(),
            forall|k: int| 0 <= k < i ==> ids@[k] != id,
        decreases ids@.len() - i,
    {
        if ids[i] == id {
            return true;
        }
        i = i + 1;
    }
    false
}

fn contains_render_object(objects: &Vec<PedRenderObject>, object: PedRenderObject) -> (found: bool)
    ensures
        found == objects@.contains(object),
{
    let mut i: usize = 0;
    while i < objects.len()
        invariant
            i <= objects@.len(),
            forall|k: int| 0 <= k < i ==> objects@[k] != object,
        decreases objects@.len() - i,
    {
        if objects[i] == object {
            return true;
        }
        i = i + 1;
    }
    false
}

} // verus!
