//! `wardrobe.json`: skin profiles, matching rules, their validation, and the
//! throttled watcher that picks up valid edits.

use crate::logging::LogLevel;
use crate::model_ids::{is_valid_model_id, valid_model_id};
use crate::text::{decimal, decimal_spec, opt_chars, opt_str_chars, opt_string_eq, str_eq};
use vstd::prelude::*;
use vstd::string::*;

verus! {

pub const DEFAULT_POLL_INTERVAL_MS: u64 = 2000;
pub const MIN_POLL_INTERVAL_MS: u64 = 100;
pub const MAX_POLL_INTERVAL_MS: u64 = 60000;
/// The watcher inspects `wardrobe.json` at most this often.
pub const CONFIG_RELOAD_INTERVAL_MS: u64 = 1000;

/// One skin profile: whether it is enabled and its TXD/DFF asset paths.
#[derive(Clone, Debug)]
pub struct SkinDefinition {
    pub enabled: bool,
    pub txd_path: String,
    pub dff_path: String,
}

pub struct SkinDefinitionView {
    pub enabled: bool,
    pub txd_path: Seq<char>,
    pub dff_path: Seq<char>,
}

impl View for SkinDefinition {
    type V = SkinDefinitionView;

    open spec fn view(&self) -> SkinDefinitionView {
        SkinDefinitionView { enabled: self.enabled, txd_path: self.txd_path@, dff_path: self.dff_path@ }
    }
}

impl SkinDefinition {
    /// A copy with the same enabled state and paths.
    pub fn duplicate(&self) -> (copy: Self)
        ensures
            copy@ == self@,
    {
        SkinDefinition {
            enabled: self.enabled,
            txd_path: self.txd_path.clone(),
            dff_path: self.dff_path.clone(),
        }
    }

    /// Both definitions name the same paths with the same enabled state.
    pub fn same_as(&self, other: &SkinDefinition) -> (same: bool)
        ensures
            same == (self@ == other@),
    {
        self.enabled == other.enabled && str_eq(self.txd_path.as_str(), other.txd_path.as_str())
            && str_eq(self.dff_path.as_str(), other.dff_path.as_str())
    }
}

/// A rule selects a profile for an exact player name, a server model ID, or both.
#[derive(Clone, Debug)]
pub struct SkinRule {
    pub profile_id: String,
    pub enabled: bool,
    pub player_name: Option<String>,
    pub server_model_id: Option<i16>,
}

pub struct SkinRuleView {
    pub profile_id: Seq<char>,
    pub enabled: bool,
    pub player_name: Option<Seq<char>>,
    pub server_model_id: Option<i16>,
}

impl View for SkinRule {
    type V = SkinRuleView;

    open spec fn view(&self) -> SkinRuleView {
        SkinRuleView {
            profile_id: self.profile_id@,
            enabled: self.enabled,
            player_name: opt_chars(self.player_name),
            server_model_id: self.server_model_id,
        }
    }
}

/// Name and model (3) beat name (2), which beats model (1); a rule with
/// neither selector has priority 0.
pub open spec fn rule_priority(rule: SkinRuleView) -> u8 {
    match (rule.player_name, rule.server_model_id) {
        (Some(_), Some(_)) => 3,
        (Some(_), None) => 2,
        (None, Some(_)) => 1,
        (None, None) => 0,
    }
}

/// An enabled rule whose every selector equals the ped's name and model.
pub open spec fn rule_matches(rule: SkinRuleView, player_name: Option<Seq<char>>, server_model_id: i16) -> bool {
    &&& rule.enabled
    &&& match rule.player_name {
        Some(expected) => player_name == Some(expected),
        None => true,
    }
    &&& match rule.server_model_id {
        Some(expected) => expected == server_model_id,
        None => true,
    }
}

impl SkinRule {
    pub fn priority(&self) -> (priority: u8)
        ensures
            priority == rule_priority(self@),
    {
        match (self.player_name.is_some(), self.server_model_id.is_some()) {
            (true, true) => 3,
            (true, false) => 2,
            (false, true) => 1,
            (false, false) => 0,
        }
    }

    pub fn matches(&self, player_name: Option<&str>, server_model_id: i16) -> (matched: bool)
        ensures
            matched == rule_matches(self@, opt_str_chars(player_name), server_model_id),
    {
        if !self.enabled {
            return false;
        }
        let name_ok = match &self.player_name {
            Some(expected) => match player_name {
                Some(actual) => str_eq(actual, expected.as_str()),
                None => false,
            },
            None => true,
        };
        let model_ok = match self.server_model_id {
            Some(expected) => expected == server_model_id,
            None => true,
        };
        name_ok && model_ok
    }

    /// A copy of the rule.
    pub fn duplicate(&self) -> (copy: Self)
        ensures
            copy@ == self@,
    {
        SkinRule {
            profile_id: self.profile_id.clone(),
            enabled: self.enabled,
            player_name: match &self.player_name {
                Some(name) => Some(name.clone()),
                None => None,
            },
            server_model_id: self.server_model_id,
        }
    }
}

/// The profiles of a configuration, keyed by profile ID, in insertion order.
pub type SkinEntries = Seq<(Seq<char>, SkinDefinitionView)>;

/// No profile ID occurs twice.
pub open spec fn distinct_ids(skins: SkinEntries) -> bool {
    forall|i: int, j: int| 0 <= i < j < skins.len() ==> skins[i].0 != skins[j].0
}

pub open spec fn has_skin(skins: SkinEntries, id: Seq<char>) -> bool {
    exists|i: int| 0 <= i < skins.len() && skins[i].0 == id
}

/// The definition stored under `id`, if any.
pub open spec fn skin_definition(skins: SkinEntries, id: Seq<char>) -> Option<SkinDefinitionView> {
    if has_skin(skins, id) {
        Some(skins[choose|i: int| 0 <= i < skins.len() && skins[i].0 == id].1)
    } else {
        None
    }
}

/// The profile exists and is enabled.
pub open spec fn profile_enabled(skins: SkinEntries, id: Seq<char>) -> bool {
    match skin_definition(skins, id) {
        Some(definition) => definition.enabled,
        None => false,
    }
}

/// A map from profile ID to definition in which no ID occurs twice.
#[derive(Debug)]
pub struct SkinTable {
    entries: Vec<(String, SkinDefinition)>,
}

impl View for SkinTable {
    type V = SkinEntries;

    closed spec fn view(&self) -> SkinEntries {
        self.entries@.map_values(|e: (String, SkinDefinition)| (e.0@, e.1@))
    }
}

impl SkinTable {
    #[verifier::type_invariant]
    spec fn unique(self) -> bool {
        distinct_ids(self@)
    }

    pub fn new() -> (table: Self)
        ensures
            table@ == Seq::<(Seq<char>, SkinDefinitionView)>::empty(),
    {
        let table = SkinTable { entries: Vec::new() };
        assert(table@ =~= Seq::<(Seq<char>, SkinDefinitionView)>::empty());
        table
    }

    /// A copy of the table.
    pub fn duplicate(&self) -> (copy: Self)
        ensures
            copy@ == self@,
    {
        proof {
            use_type_invariant(self);
        }
        let mut entries: Vec<(String, SkinDefinition)> = Vec::new();
        let mut i: usize = 0;
        while i < self.entries.len()
            invariant
                i <= self.entries@.len(),
                entries@.len() == i,
                self@ == self.entries@.map_values(|e: (String, SkinDefinition)| (e.0@, e.1@)),
                forall|k: int| 0 <= k < i ==> (#[trigger] entries@[k]).0@ == self@[k].0 && entries@[k].1@ == self@[k].1,
            decreases self.entries@.len() - i,
        {
            let e = &self.entries[i];
            entries.push((e.0.clone(), e.1.duplicate()));
            i = i + 1;
        }
        proof {
            let after = entries@.map_values(|e: (String, SkinDefinition)| (e.0@, e.1@));
            assert(after =~= self@);
        }
        SkinTable { entries }
    }

    pub fn len(&self) -> (n: usize)
        ensures
            n == self@.len(),
    {
        self.entries.len()
    }

    /// The position of `id`, if present.
    fn position(&self, id: &str) -> (found: Option<usize>)
        ensures
            match found {
                Some(i) => i < self@.len() && self@[i as int].0 == id@,
                None => !has_skin(self@, id@),
            },
    {
        let mut i: usize = 0;
        while i < self.entries.len()
            invariant
                i <= self.entries@.len(),
                self@.len() == self.entries@.len(),
                self@ == self.entries@.map_values(|e: (String, SkinDefinition)| (e.0@, e.1@)),
                forall|k: int| 0 <= k < i ==> self@[k].0 != id@,
            decreases self.entries@.len() - i,
        {
            if str_eq(self.entries[i].0.as_str(), id) {
                return Some(i);
            }
            i = i + 1;
        }
        None
    }

    /// The ID and definition at position `index`.
    pub fn entry(&self, index: usize) -> (entry: (&String, &SkinDefinition))
        requires
            index < self@.len(),
        ensures
            entry.0@ == self@[index as int].0,
            entry.1@ == self@[index as int].1,
    {
        let e = &self.entries[index];
        (&e.0, &e.1)
    }

    pub fn get(&self, id: &str) -> (found: Option<&SkinDefinition>)
        ensures
            match found {
                Some(definition) => skin_definition(self@, id@) == Some(definition@),
                None => skin_definition(self@, id@).is_none(),
            },
    {
        proof {
            use_type_invariant(self);
        }
        match self.position(id) {
            Some(i) => {
                let definition = &self.entries[i].1;
                proof {
                    let k = choose|k: int| 0 <= k < self@.len() && self@[k].0 == id@;
                    assert(k == i);
                }
                Some(definition)
            },
            None => None,
        }
    }

    pub fn contains_key(&self, id: &str) -> (present: bool)
        ensures
            present == has_skin(self@, id@),
    {
        self.position(id).is_some()
    }

    /// Stores `definition` under `id`, replacing a previous one in place or
    /// appending a new entry.
    pub fn insert(&mut self, id: String, definition: SkinDefinition)
        ensures
            has_skin(old(self)@, id@) ==> exists|i: int|
                0 <= i < old(self)@.len() && old(self)@[i].0 == id@ && final(self)@ == old(self)@.update(
                    i,
                    (id@, definition@),
                ),
            !has_skin(old(self)@, id@) ==> final(self)@ == old(self)@.push((id@, definition@)),
    {
        proof {
            use_type_invariant(&*self);
        }
        let ghost id_view = id@;
        let ghost def_view = definition@;
        match self.position(id.as_str()) {
            Some(i) => {
                let ghost before = self@;
                let mut entries: Vec<(String, SkinDefinition)> = Vec::new();
                std::mem::swap(&mut entries, &mut self.entries);
                entries.set(i, (id, definition));
                proof {
                    let after = entries@.map_values(|e: (String, SkinDefinition)| (e.0@, e.1@));
                    assert(after =~= before.update(i as int, (id_view, def_view)));
                    assert forall|a: int, b: int| 0 <= a < b < after.len() implies after[a].0 != after[b].0 by {
                        assert(after[a].0 == before[a].0);
                        assert(after[b].0 == before[b].0);
                    }
                }
                let table = SkinTable { entries };
                assert(table@ =~= before.update(i as int, (id_view, def_view)));
                *self = table;
            },
            None => {
                let ghost before = self@;
                let mut entries: Vec<(String, SkinDefinition)> = Vec::new();
                std::mem::swap(&mut entries, &mut self.entries);
                entries.push((id, definition));
                proof {
                    let after = entries@.map_values(|e: (String, SkinDefinition)| (e.0@, e.1@));
                    assert(after =~= before.push((id_view, def_view)));
                    assert forall|a: int, b: int| 0 <= a < b < after.len() implies after[a].0 != after[b].0 by {
                        if b == before.len() {
                            assert(before[a].0 != id_view);
                        }
                    }
                }
                let table = SkinTable { entries };
                assert(table@ =~= before.push((id_view, def_view)));
                *self = table;
            },
        }
    }
}

/// The whole configuration.
pub struct SkinConfig {
    pub poll_interval_ms: u64,
    pub log_level: LogLevel,
    pub skins: SkinTable,
    pub rules: Vec<SkinRule>,
}

pub struct SkinConfigView {
    pub poll_interval_ms: u64,
    pub log_level: LogLevel,
    pub skins: SkinEntries,
    pub rules: Seq<SkinRuleView>,
}

impl View for SkinConfig {
    type V = SkinConfigView;

    open spec fn view(&self) -> SkinConfigView {
        SkinConfigView {
            poll_interval_ms: self.poll_interval_ms,
            log_level: self.log_level,
            skins: self.skins@,
            rules: self.rules@.map_values(|r: SkinRule| r@),
        }
    }
}

/// Rule `i` matches the ped, selects something, and names an enabled profile.
pub open spec fn eligible(config: SkinConfigView, i: int, player_name: Option<Seq<char>>, server_model_id: i16) -> bool {
    &&& 0 <= i < config.rules.len()
    &&& rule_priority(config.rules[i]) >= 1
    &&& rule_matches(config.rules[i], player_name, server_model_id)
    &&& profile_enabled(config.skins, config.rules[i].profile_id)
}

/// Rule `i` is the one to apply: it is eligible, no eligible rule has a
/// higher priority, and no earlier eligible rule has the same priority.
pub open spec fn best_match(config: SkinConfigView, i: int, player_name: Option<Seq<char>>, server_model_id: i16) -> bool {
    &&& eligible(config, i, player_name, server_model_id)
    &&& forall|j: int| #[trigger] eligible(config, j, player_name, server_model_id) ==> {
        ||| rule_priority(config.rules[j]) < rule_priority(config.rules[i])
        ||| (rule_priority(config.rules[j]) == rule_priority(config.rules[i]) && i <= j)
    }
}

/// At most one rule is the best match for a ped.
pub proof fn lemma_best_match_unique(
    config: SkinConfigView,
    i: int,
    j: int,
    player_name: Option<Seq<char>>,
    server_model_id: i16,
)
    requires
        best_match(config, i, player_name, server_model_id),
        best_match(config, j, player_name, server_model_id),
    ensures
        i == j,
{
    assert(eligible(config, j, player_name, server_model_id));
    assert(eligible(config, i, player_name, server_model_id));
}

impl SkinConfig {
    /// The complete-scan fallback delay.
    pub fn poll_interval(&self) -> (interval: std::time::Duration)
        ensures
            interval == millis_duration(self.poll_interval_ms),
    {
        duration_from_millis(self.poll_interval_ms)
    }

    /// The profile exists and is enabled.
    pub fn profile_enabled(&self, profile_id: &str) -> (enabled: bool)
        ensures
            enabled == profile_enabled(self.skins@, profile_id@),
    {
        match self.skins.get(profile_id) {
            Some(definition) => definition.enabled,
            None => false,
        }
    }

    /// The rule to apply to a ped with this name and server model: the
    /// highest-priority eligible rule, the earliest among equals.
    pub fn matching_rule(&self, player_name: Option<&str>, server_model_id: i16) -> (found: Option<&SkinRule>)
        ensures
            match found {
                Some(rule) => exists|i: int|
                    best_match(self@, i, opt_str_chars(player_name), server_model_id) && *rule
                        == self.rules@[i],
                None => forall|i: int| !eligible(self@, i, opt_str_chars(player_name), server_model_id),
            },
    {
        let ghost name = opt_str_chars(player_name);
        let mut priority: u8 = 3;
        while priority >= 1
            invariant
                name == opt_str_chars(player_name),
                priority <= 3,
                forall|j: int| #[trigger] eligible(self@, j, name, server_model_id) ==> rule_priority(self@.rules[j]) <= priority,
            decreases priority,
        {
            let mut i: usize = 0;
            while i < self.rules.len()
                invariant
                    name == opt_str_chars(player_name),
                    1 <= priority <= 3,
                    i <= self.rules@.len(),
                    forall|j: int| #[trigger] eligible(self@, j, name, server_model_id) ==> rule_priority(self@.rules[j]) <= priority,
                    forall|j: int| 0 <= j < i && #[trigger] eligible(self@, j, name, server_model_id) ==> rule_priority(self@.rules[j]) < priority,
                decreases self.rules@.len() - i,
            {
                let rule = &self.rules[i];
                if rule.priority() == priority && rule.matches(player_name, server_model_id)
                    && self.profile_enabled(rule.profile_id.as_str()) {
                    assert(self@.rules[i as int] == rule@);
                    assert(eligible(self@, i as int, name, server_model_id));
                    assert(best_match(self@, i as int, name, server_model_id));
                    return Some(rule);
                }
                assert(self@.rules[i as int] == rule@);
                i = i + 1;
            }
            priority = priority - 1;
        }
        None
    }
}

/// `std::time::Duration::from_millis` applied to the value.
pub uninterp spec fn millis_duration(ms: u64) -> std::time::Duration;

/// Builds the duration of `ms` milliseconds with `std::time::Duration::from_millis`;
/// the result is named, not described.
#[verifier::external_body]
fn duration_from_millis(ms: u64) -> (interval: std::time::Duration)
    ensures
        interval == millis_duration(ms),
{
    std::time::Duration::from_millis(ms)
}

/// Why a configuration was rejected.
#[derive(Debug)]
pub enum ConfigError {
    /// `poll_interval_ms` lies outside 100..=60000.
    PollInterval,
    /// An enabled profile has an empty TXD or DFF path.
    EmptyAssetPath { skin_id: String },
    /// The rule names no profile, or one that does not exist.
    UnknownProfile { rule: usize },
    /// The rule's player name is empty.
    EmptyPlayerName { rule: usize },
    /// The rule's server model ID is outside GTA's model range.
    InvalidModelId { rule: usize },
    /// The rule has neither a player name nor a server model ID.
    MissingSelector { rule: usize },
    /// An earlier rule has the same player name and server model ID.
    DuplicateRule { rule: usize },
}

pub enum ConfigFault {
    PollInterval,
    EmptyAssetPath(Seq<char>),
    UnknownProfile(int),
    EmptyPlayerName(int),
    InvalidModelId(int),
    MissingSelector(int),
    DuplicateRule(int),
}

impl View for ConfigError {
    type V = ConfigFault;

    open spec fn view(&self) -> ConfigFault {
        match self {
            ConfigError::PollInterval => ConfigFault::PollInterval,
            ConfigError::EmptyAssetPath { skin_id } => ConfigFault::EmptyAssetPath(skin_id@),
            ConfigError::UnknownProfile { rule } => ConfigFault::UnknownProfile(*rule as int),
            ConfigError::EmptyPlayerName { rule } => ConfigFault::EmptyPlayerName(*rule as int),
            ConfigError::InvalidModelId { rule } => ConfigFault::InvalidModelId(*rule as int),
            ConfigError::MissingSelector { rule } => ConfigFault::MissingSelector(*rule as int),
            ConfigError::DuplicateRule { rule } => ConfigFault::DuplicateRule(*rule as int),
        }
    }
}

pub open spec fn poll_interval_allowed(ms: u64) -> bool {
    MIN_POLL_INTERVAL_MS <= ms <= MAX_POLL_INTERVAL_MS
}

/// An enabled profile without both asset paths.
pub open spec fn skin_fault(definition: SkinDefinitionView) -> bool {
    definition.enabled && (definition.txd_path.len() == 0 || definition.dff_path.len() == 0)
}

pub open spec fn first_bad_skin(skins: SkinEntries, k: int) -> bool {
    &&& 0 <= k < skins.len()
    &&& skin_fault(skins[k].1)
    &&& forall|m: int| 0 <= m < k ==> !skin_fault(#[trigger] skins[m].1)
}

/// An earlier rule than `i` has the same selectors.
pub open spec fn duplicates_earlier(rules: Seq<SkinRuleView>, i: int) -> bool {
    exists|j: int|
        0 <= j < i && #[trigger] rules[j].player_name == rules[i].player_name && rules[j].server_model_id
            == rules[i].server_model_id
}

/// The first problem with rule `i`, checked in a fixed order.
pub open spec fn rule_fault(config: SkinConfigView, i: int) -> Option<ConfigFault> {
    let rule = config.rules[i];
    if rule.profile_id.len() == 0 || !has_skin(config.skins, rule.profile_id) {
        Some(ConfigFault::UnknownProfile(i))
    } else if (match rule.player_name { Some(name) => name.len() == 0, None => false }) {
        Some(ConfigFault::EmptyPlayerName(i))
    } else if (match rule.server_model_id { Some(id) => !valid_model_id(id as int), None => false }) {
        Some(ConfigFault::InvalidModelId(i))
    } else if rule_priority(rule) == 0 {
        Some(ConfigFault::MissingSelector(i))
    } else if duplicates_earlier(config.rules, i) {
        Some(ConfigFault::DuplicateRule(i))
    } else {
        None
    }
}

pub open spec fn first_bad_rule(config: SkinConfigView, i: int) -> bool {
    &&& 0 <= i < config.rules.len()
    &&& rule_fault(config, i) is Some
    &&& forall|m: int| 0 <= m < i ==> #[trigger] rule_fault(config, m) is None
}

/// What is wrong with a configuration: the interval first, then the
/// profiles in order, then the rules in order.
pub open spec fn config_fault(config: SkinConfigView) -> Option<ConfigFault> {
    if !poll_interval_allowed(config.poll_interval_ms) {
        Some(ConfigFault::PollInterval)
    } else if exists|k: int| first_bad_skin(config.skins, k) {
        Some(ConfigFault::EmptyAssetPath(config.skins[choose|k: int| first_bad_skin(config.skins, k)].0))
    } else if exists|i: int| first_bad_rule(config, i) {
        rule_fault(config, choose|i: int| first_bad_rule(config, i))
    } else {
        None
    }
}

/// The text logged for a rejected configuration.
pub open spec fn fault_message(fault: ConfigFault) -> Seq<char> {
    match fault {
        ConfigFault::PollInterval => "poll_interval_ms must be between 100 and 60000"@,
        ConfigFault::EmptyAssetPath(id) => "skin "@ + id + " has an empty asset path"@,
        ConfigFault::UnknownProfile(i) => "rule "@ + decimal_spec(i as nat) + " refers to an unknown skin profile"@,
        ConfigFault::EmptyPlayerName(i) => "rule "@ + decimal_spec(i as nat) + " has an empty player name"@,
        ConfigFault::InvalidModelId(i) => "rule "@ + decimal_spec(i as nat) + " has an invalid server model ID"@,
        ConfigFault::MissingSelector(i) => "rule "@ + decimal_spec(i as nat) + " needs a player name or server model ID"@,
        ConfigFault::DuplicateRule(i) => "rule "@ + decimal_spec(i as nat) + " duplicates an earlier rule"@,
    }
}

fn rule_message(index: usize, tail: &str) -> (message: String)
    ensures
        message@ == "rule "@ + decimal_spec(index as nat) + tail@,
{
    let mut message = String::from_str("rule ");
    let number = decimal(index);
    message.append(number.as_str());
    message.append(tail);
    message
}

impl ConfigError {
    pub fn message(&self) -> (message: String)
        ensures
            message@ == fault_message(self@),
    {
        match self {
            ConfigError::PollInterval => String::from_str("poll_interval_ms must be between 100 and 60000"),
            ConfigError::EmptyAssetPath { skin_id } => {
                let mut message = String::from_str("skin ");
                message.append(skin_id.as_str());
                message.append(" has an empty asset path");
                message
            },
            ConfigError::UnknownProfile { rule } => rule_message(*rule, " refers to an unknown skin profile"),
            ConfigError::EmptyPlayerName { rule } => rule_message(*rule, " has an empty player name"),
            ConfigError::InvalidModelId { rule } => rule_message(*rule, " has an invalid server model ID"),
            ConfigError::MissingSelector { rule } => rule_message(*rule, " needs a player name or server model ID"),
            ConfigError::DuplicateRule { rule } => rule_message(*rule, " duplicates an earlier rule"),
        }
    }
}

/// The first fault of rule `i`, computed.
fn check_rule(config: &SkinConfig, i: usize) -> (fault: Option<ConfigError>)
    requires
        i < config.rules@.len(),
    ensures
        match fault {
            Some(e) => rule_fault(config@, i as int) == Some(e@),
            None => rule_fault(config@, i as int) is None,
        },
{
    let rule = &config.rules[i];
    assert(config@.rules[i as int] == rule@);
    if rule.profile_id.as_str().is_empty() || !config.skins.contains_key(rule.profile_id.as_str()) {
        return Some(ConfigError::UnknownProfile { rule: i });
    }
    match &rule.player_name {
        Some(name) => {
            if name.as_str().is_empty() {
                return Some(ConfigError::EmptyPlayerName { rule: i });
            }
        },
        None => {},
    }
    match rule.server_model_id {
        Some(id) => {
            if !is_valid_model_id(id as i32) {
                return Some(ConfigError::InvalidModelId { rule: i });
            }
        },
        None => {},
    }
    if rule.priority() == 0 {
        return Some(ConfigError::MissingSelector { rule: i });
    }
    let mut j: usize = 0;
    while j < i
        invariant
            i < config.rules@.len(),
            j <= i,
            config@.rules[i as int] == rule@,
            rule@.profile_id.len() != 0 && has_skin(config@.skins, rule@.profile_id),
            match rule@.player_name { Some(n) => n.len() != 0, None => true },
            match rule@.server_model_id { Some(m) => valid_model_id(m as int), None => true },
            rule_priority(rule@) != 0,
            forall|m: int| 0 <= m < j ==> !(#[trigger] config@.rules[m].player_name == rule@.player_name
                && config@.rules[m].server_model_id == rule@.server_model_id),
        decreases i - j,
    {
        let earlier = &config.rules[j];
        assert(config@.rules[j as int] == earlier@);
        let same_model = match (earlier.server_model_id, rule.server_model_id) {
            (Some(a), Some(b)) => a == b,
            (None, None) => true,
            _ => false,
        };
        if opt_string_eq(&earlier.player_name, &rule.player_name) && same_model {
            assert(config@.rules[j as int].player_name == config@.rules[i as int].player_name);
            assert(duplicates_earlier(config@.rules, i as int));
            return Some(ConfigError::DuplicateRule { rule: i });
        }
        j = j + 1;
    }
    None
}

/// Accepts a configuration that satisfies every rule of `wardrobe.json`, or
/// names the first violation.
pub fn validate(config: SkinConfig) -> (checked: Result<SkinConfig, ConfigError>)
    ensures
        match checked {
            Ok(accepted) => accepted@ == config@ && config_fault(config@) is None,
            Err(error) => config_fault(config@) == Some(error@),
        },
{
    if !(config.poll_interval_ms >= MIN_POLL_INTERVAL_MS && config.poll_interval_ms <= MAX_POLL_INTERVAL_MS) {
        return Err(ConfigError::PollInterval);
    }
    let mut k: usize = 0;
    while k < config.skins.len()
        invariant
            poll_interval_allowed(config.poll_interval_ms),
            k <= config.skins@.len(),
            forall|m: int| 0 <= m < k ==> !skin_fault(#[trigger] config.skins@[m].1),
        decreases config.skins@.len() - k,
    {
        let (id, definition) = config.skins.entry(k);
        if definition.enabled && (definition.txd_path.as_str().is_empty() || definition.dff_path.as_str().is_empty()) {
            assert(first_bad_skin(config.skins@, k as int));
            proof {
                let c = choose|c: int| first_bad_skin(config.skins@, c);
                assert(c == k);
            }
            return Err(ConfigError::EmptyAssetPath { skin_id: id.clone() });
        }
        k = k + 1;
    }
    assert(!exists|c: int| first_bad_skin(config.skins@, c));
    let mut i: usize = 0;
    while i < config.rules.len()
        invariant
            poll_interval_allowed(config.poll_interval_ms),
            !exists|c: int| first_bad_skin(config.skins@, c),
            i <= config.rules@.len(),
            forall|m: int| 0 <= m < i ==> #[trigger] rule_fault(config@, m) is None,
        decreases config.rules@.len() - i,
    {
        match check_rule(&config, i) {
            Some(error) => {
                assert(first_bad_rule(config@, i as int));
                proof {
                    let c = choose|c: int| first_bad_rule(config@, c);
                    assert(c == i);
                }
                return Err(error);
            },
            None => {},
        }
        i = i + 1;
    }
    assert(!exists|c: int| first_bad_rule(config@, c));
    Ok(config)
}

impl Default for SkinConfig {
    /// An empty configuration: no profiles, no rules, the default interval
    /// and `info` logging.
    fn default() -> (config: Self)
        ensures
            config@.poll_interval_ms == DEFAULT_POLL_INTERVAL_MS,
            config@.log_level == LogLevel::Info,
            config@.skins.len() == 0,
            config@.rules.len() == 0,
    {
        SkinConfig {
            poll_interval_ms: DEFAULT_POLL_INTERVAL_MS,
            log_level: LogLevel::Info,
            skins: SkinTable::new(),
            rules: Vec::new(),
        }
    }
}

/// What a file looked like when it was last inspected.
#[derive(Debug)]
pub enum FileRevision {
    /// Modification time (nanoseconds from the Unix epoch) and length.
    Present { modified_ns: i128, length: u64 },
    Missing,
    /// The metadata could not be read; the text describes why.
    Unreadable(String),
}

pub enum FileRevisionView {
    Present { modified_ns: i128, length: u64 },
    Missing,
    Unreadable(Seq<char>),
}

impl View for FileRevision {
    type V = FileRevisionView;

    open spec fn view(&self) -> FileRevisionView {
        match self {
            FileRevision::Present { modified_ns, length } => FileRevisionView::Present {
                modified_ns: *modified_ns,
                length: *length,
            },
            FileRevision::Missing => FileRevisionView::Missing,
            FileRevision::Unreadable(error) => FileRevisionView::Unreadable(error@),
        }
    }
}

impl FileRevision {
    pub fn same_as(&self, other: &FileRevision) -> (same: bool)
        ensures
            same == (self@ == other@),
    {
        match (self, other) {
            (
                FileRevision::Present { modified_ns: a, length: b },
                FileRevision::Present { modified_ns: c, length: d },
            ) => *a == *c && *b == *d,
            (FileRevision::Missing, FileRevision::Missing) => true,
            (FileRevision::Unreadable(a), FileRevision::Unreadable(b)) => str_eq(a.as_str(), b.as_str()),
            _ => false,
        }
    }

    pub fn duplicate(&self) -> (copy: Self)
        ensures
            copy@ == self@,
    {
        match self {
            FileRevision::Present { modified_ns, length } => FileRevision::Present {
                modified_ns: *modified_ns,
                length: *length,
            },
            FileRevision::Missing => FileRevision::Missing,
            FileRevision::Unreadable(error) => FileRevision::Unreadable(error.clone()),
        }
    }
}

/// A profile together with the revisions of its two asset files.
#[derive(Debug)]
pub struct SkinSourceRevision {
    pub definition: SkinDefinition,
    pub txd: FileRevision,
    pub dff: FileRevision,
}

pub struct SkinSourceRevisionView {
    pub definition: SkinDefinitionView,
    pub txd: FileRevisionView,
    pub dff: FileRevisionView,
}

impl View for SkinSourceRevision {
    type V = SkinSourceRevisionView;

    open spec fn view(&self) -> SkinSourceRevisionView {
        SkinSourceRevisionView { definition: self.definition@, txd: self.txd@, dff: self.dff@ }
    }
}

impl SkinSourceRevision {
    pub fn same_as(&self, other: &SkinSourceRevision) -> (same: bool)
        ensures
            same == (self@ == other@),
    {
        self.definition.same_as(&other.definition) && self.txd.same_as(&other.txd) && self.dff.same_as(&other.dff)
    }

    pub fn duplicate(&self) -> (copy: Self)
        ensures
            copy@ == self@,
    {
        SkinSourceRevision {
            definition: self.definition.duplicate(),
            txd: self.txd.duplicate(),
            dff: self.dff.duplicate(),
        }
    }
}

/// The source revision of a profile, given what its TXD and DFF files look
/// like now.
pub fn skin_source_revision(definition: &SkinDefinition, txd: FileRevision, dff: FileRevision) -> (revision: SkinSourceRevision)
    ensures
        revision@ == (SkinSourceRevisionView { definition: definition@, txd: txd@, dff: dff@ }),
{
    SkinSourceRevision { definition: definition.duplicate(), txd, dff }
}

/// `earlier` lies less than `interval_ms` before `now`; a clock that went
/// backwards counts as recent.
pub open spec fn within_interval(now_ms: u64, earlier_ms: u64, interval_ms: u64) -> bool {
    now_ms < earlier_ms + interval_ms
}

/// Throttles inspection of `wardrobe.json` and remembers the last revision
/// seen, so that only a changed file is read.
pub struct ConfigWatcher {
    last_check_ms: Option<u64>,
    observed_revision: Option<FileRevision>,
}

pub struct ConfigWatcherView {
    pub last_check_ms: Option<u64>,
    pub observed_revision: Option<FileRevisionView>,
}

impl View for ConfigWatcher {
    type V = ConfigWatcherView;

    closed spec fn view(&self) -> ConfigWatcherView {
        ConfigWatcherView {
            last_check_ms: self.last_check_ms,
            observed_revision: match self.observed_revision {
                Some(r) => Some(r@),
                None => None,
            },
        }
    }
}

/// What the outside world reports to the watcher.
pub enum ConfigEvent {
    /// A new game frame at this monotonic time.
    Frame { now_ms: u64 },
    /// The current revision of `wardrobe.json`.
    Inspected { revision: FileRevision },
    /// The file's contents decoded into a configuration, or why that failed.
    Parsed { result: Result<SkinConfig, String> },
}

/// What the watcher asks for next.
pub enum ConfigAction {
    /// Nothing to do this frame.
    Idle,
    /// Report the file's current revision.
    InspectFile,
    /// Read and decode the changed file.
    ReadFile,
    /// A valid changed configuration replaces the active one.
    Apply(SkinConfig),
    /// The file disappeared; the active configuration stays.
    Removed,
    /// The file's metadata could not be read; the active configuration stays.
    Uninspectable(String),
    /// The changed file was not a valid configuration; the active one stays.
    Rejected(String),
}

/// One step of the watcher: from state `before`, `event` leads to state
/// `after` and asks for `action`. A frame within a second of the previous
/// inspection does nothing; an unchanged revision is not read again; a
/// changed file is applied only when it decodes and validates.
pub open spec fn watcher_step(before: ConfigWatcherView, event: ConfigEvent, after: ConfigWatcherView, action: ConfigAction) -> bool {
    match event {
        ConfigEvent::Frame { now_ms } => match before.last_check_ms {
            Some(last) if within_interval(now_ms, last, CONFIG_RELOAD_INTERVAL_MS) => {
                &&& action is Idle
                &&& after == before
            },
            _ => {
                &&& action is InspectFile
                &&& after.last_check_ms == Some(now_ms)
                &&& after.observed_revision == before.observed_revision
            },
        },
        ConfigEvent::Inspected { revision } => {
            &&& after.last_check_ms == before.last_check_ms
            &&& if before.observed_revision == Some(revision@) {
                &&& action is Idle
                &&& after.observed_revision == before.observed_revision
            } else {
                &&& after.observed_revision == Some(revision@)
                &&& match revision@ {
                    FileRevisionView::Present { .. } => action is ReadFile,
                    FileRevisionView::Missing => action is Removed,
                    FileRevisionView::Unreadable(error) => action matches ConfigAction::Uninspectable(e) && e@ == error,
                }
            }
        },
        ConfigEvent::Parsed { result } => {
            &&& after == before
            &&& match result {
                Err(error) => action matches ConfigAction::Rejected(e) && e@ == error@,
                Ok(config) => match config_fault(config@) {
                    None => action matches ConfigAction::Apply(c) && c@ == config@,
                    Some(fault) => action matches ConfigAction::Rejected(e) && e@ == fault_message(fault),
                },
            }
        },
    }
}

impl ConfigWatcher {
    pub fn new() -> (watcher: Self)
        ensures
            watcher@.last_check_ms is None,
            watcher@.observed_revision is None,
    {
        ConfigWatcher { last_check_ms: None, observed_revision: None }
    }

    /// Advances the watcher by one event. A frame within a second of the
    /// previous inspection does nothing; an unchanged revision is not read
    /// again; a changed file is applied only when it decodes and validates.
    pub fn poll_change(&mut self, event: ConfigEvent) -> (action: ConfigAction)
        ensures
            watcher_step(old(self)@, event, final(self)@, action),
    {
        match event {
            ConfigEvent::Frame { now_ms } => {
                match self.last_check_ms {
                    Some(last) => {
                        if (now_ms as u128) < (last as u128) + (CONFIG_RELOAD_INTERVAL_MS as u128) {
                            return ConfigAction::Idle;
                        }
                    },
                    None => {},
                }
                self.last_check_ms = Some(now_ms);
                ConfigAction::InspectFile
            },
            ConfigEvent::Inspected { revision } => {
                let unchanged = match &self.observed_revision {
                    Some(observed) => observed.same_as(&revision),
                    None => false,
                };
                if unchanged {
                    return ConfigAction::Idle;
                }
                let action = match &revision {
                    FileRevision::Present { .. } => ConfigAction::ReadFile,
                    FileRevision::Missing => ConfigAction::Removed,
                    FileRevision::Unreadable(error) => ConfigAction::Uninspectable(error.clone()),
                };
                self.observed_revision = Some(revision);
                action
            },
            ConfigEvent::Parsed { result } => match result {
                Err(error) => ConfigAction::Rejected(error),
                Ok(config) => match validate(config) {
                    Ok(accepted) => ConfigAction::Apply(accepted),
                    Err(error) => ConfigAction::Rejected(error.message()),
                },
            },
        }
    }
}

proof fn lemma_bad_skin_has_first(skins: SkinEntries, k: int)
    requires
        0 <= k < skins.len(),
        skin_fault(skins[k].1),
    ensures
        exists|m: int| first_bad_skin(skins, m),
    decreases k,
{
    if exists|m: int| 0 <= m < k && skin_fault(#[trigger] skins[m].1) {
        let m = choose|m: int| 0 <= m < k && skin_fault(#[trigger] skins[m].1);
        lemma_bad_skin_has_first(skins, m);
    } else {
        assert(first_bad_skin(skins, k));
    }
}

proof fn lemma_bad_rule_has_first(config: SkinConfigView, i: int)
    requires
        0 <= i < config.rules.len(),
        rule_fault(config, i) is Some,
    ensures
        exists|m: int| first_bad_rule(config, m),
    decreases i,
{
    if exists|m: int| 0 <= m < i && #[trigger] rule_fault(config, m) is Some {
        let m = choose|m: int| 0 <= m < i && #[trigger] rule_fault(config, m) is Some;
        lemma_bad_rule_has_first(config, m);
    } else {
        assert(first_bad_rule(config, i));
    }
}

/// A configuration is accepted exactly when its poll interval lies between
/// 100 and 60000 ms, every enabled profile has both a TXD and a DFF path,
/// and every rule names an existing profile, has a non-empty player name if
/// it names a player, a model ID below 20000 if it names a model, at least
/// one of the two, and not the same pair as an earlier rule.
pub proof fn lemma_accepted_configurations(config: SkinConfigView)
    ensures
        config_fault(config) is None <==> {
            &&& 100 <= config.poll_interval_ms <= 60000
            &&& forall|k: int|
                0 <= k < config.skins.len() && (#[trigger] config.skins[k]).1.enabled ==> config.skins[k].1.txd_path.len() > 0
                    && config.skins[k].1.dff_path.len() > 0
            &&& forall|i: int|
                0 <= i < config.rules.len() ==> {
                    &&& (#[trigger] config.rules[i]).profile_id.len() > 0
                    &&& exists|k: int| 0 <= k < config.skins.len() && config.skins[k].0 == config.rules[i].profile_id
                    &&& (config.rules[i].player_name matches Some(name) ==> name.len() > 0)
                    &&& (config.rules[i].server_model_id matches Some(id) ==> 0 <= id < 20000)
                    &&& (config.rules[i].player_name is Some || config.rules[i].server_model_id is Some)
                    &&& forall|j: int|
                        0 <= j < i ==> !(config.rules[j].player_name == config.rules[i].player_name
                            && config.rules[j].server_model_id == config.rules[i].server_model_id)
                }
        },
{
    let poll_ok = 100 <= config.poll_interval_ms <= 60000;
    if config_fault(config) is None {
        assert(poll_ok);
        assert(!exists|m: int| first_bad_skin(config.skins, m));
        assert(!exists|m: int| first_bad_rule(config, m));
        assert forall|k: int|
            0 <= k < config.skins.len() && (#[trigger] config.skins[k]).1.enabled implies config.skins[k].1.txd_path.len() > 0
                && config.skins[k].1.dff_path.len() > 0 by {
            if skin_fault(config.skins[k].1) {
                lemma_bad_skin_has_first(config.skins, k);
            }
        }
        assert forall|i: int| 0 <= i < config.rules.len() implies {
            &&& (#[trigger] config.rules[i]).profile_id.len() > 0
            &&& exists|k: int| 0 <= k < config.skins.len() && config.skins[k].0 == config.rules[i].profile_id
            &&& (config.rules[i].player_name matches Some(name) ==> name.len() > 0)
            &&& (config.rules[i].server_model_id matches Some(id) ==> 0 <= id < 20000)
            &&& (config.rules[i].player_name is Some || config.rules[i].server_model_id is Some)
            &&& forall|j: int|
                0 <= j < i ==> !(config.rules[j].player_name == config.rules[i].player_name
                    && config.rules[j].server_model_id == config.rules[i].server_model_id)
        } by {
            if rule_fault(config, i) is Some {
                lemma_bad_rule_has_first(config, i);
            }
            assert(rule_fault(config, i) is None);
            assert forall|j: int|
                0 <= j < i implies !(config.rules[j].player_name == config.rules[i].player_name
                    && config.rules[j].server_model_id == config.rules[i].server_model_id) by {
                if config.rules[j].player_name == config.rules[i].player_name
                    && config.rules[j].server_model_id == config.rules[i].server_model_id {
                    assert(duplicates_earlier(config.rules, i));
                }
            }
        }
    } else {
        if poll_ok {
            if exists|m: int| first_bad_skin(config.skins, m) {
                let m = choose|m: int| first_bad_skin(config.skins, m);
                assert(config.skins[m].1.enabled);
            } else {
                assert(exists|m: int| first_bad_rule(config, m));
                let m = choose|m: int| first_bad_rule(config, m);
                assert(rule_fault(config, m) is Some);
                if duplicates_earlier(config.rules, m) {
                    let j = choose|j: int|
                        0 <= j < m && #[trigger] config.rules[j].player_name == config.rules[m].player_name
                            && config.rules[j].server_model_id == config.rules[m].server_model_id;
                    assert(config.rules[j].player_name == config.rules[m].player_name);
                }
            }
        }
    }
}

/// A rejection names a real fault: an interval outside 100..=60000 ms is
/// always reported first, and an empty-path report names an enabled
/// profile of the configuration that lacks a TXD or DFF path.
pub proof fn lemma_rejection_reasons(config: SkinConfigView)
    ensures
        !(100 <= config.poll_interval_ms <= 60000) ==> config_fault(config) == Some(ConfigFault::PollInterval),
        config_fault(config) matches Some(ConfigFault::EmptyAssetPath(id)) ==> exists|k: int|
            0 <= k < config.skins.len() && config.skins[k].0 == id && config.skins[k].1.enabled && (
            config.skins[k].1.txd_path.len() == 0 || config.skins[k].1.dff_path.len() == 0),
{
    if config_fault(config) is Some && config_fault(config)->0 is EmptyAssetPath {
        let k = choose|k: int| first_bad_skin(config.skins, k);
        assert(config.skins[k].1.enabled);
    }
}

/// The poll-interval bounds and default, and how often the configuration
/// file is inspected.
pub proof fn lemma_documented_constants()
    ensures
        DEFAULT_POLL_INTERVAL_MS == 0x7D0,
        MIN_POLL_INTERVAL_MS == 0x64,
        MAX_POLL_INTERVAL_MS == 0xEA60,
        CONFIG_RELOAD_INTERVAL_MS == 0x3E8,
{
}

/// The rule applied to a ped is enabled, names the player or a model or
/// both, agrees with the ped on each of them, and selects an enabled
/// profile. Against any other such rule it wins by specificity: a rule
/// naming both player and model beats one naming only one, a rule naming
/// the player beats one naming only the model, and between rules of the
/// same kind the earlier wins.
pub proof fn lemma_matching_rule_choice(
    config: SkinConfigView,
    i: int,
    j: int,
    player_name: Option<Seq<char>>,
    server_model_id: i16,
)
    requires
        best_match(config, i, player_name, server_model_id),
    ensures
        config.rules[i].enabled,
        config.rules[i].player_name is Some || config.rules[i].server_model_id is Some,
        config.rules[i].player_name is Some ==> player_name == config.rules[i].player_name,
        config.rules[i].server_model_id is Some ==> config.rules[i].server_model_id == Some(server_model_id),
        profile_enabled(config.skins, config.rules[i].profile_id),
        ({
            &&& 0 <= j < config.rules.len()
            &&& config.rules[j].enabled
            &&& config.rules[j].player_name is Some || config.rules[j].server_model_id is Some
            &&& config.rules[j].player_name is Some ==> player_name == config.rules[j].player_name
            &&& config.rules[j].server_model_id is Some ==> config.rules[j].server_model_id == Some(server_model_id)
            &&& profile_enabled(config.skins, config.rules[j].profile_id)
        }) ==> {
            &&& (config.rules[j].player_name is Some && config.rules[j].server_model_id is Some) ==> (
            config.rules[i].player_name is Some && config.rules[i].server_model_id is Some)
            &&& config.rules[j].player_name is Some ==> config.rules[i].player_name is Some
            &&& (config.rules[j].player_name is Some == config.rules[i].player_name is Some
                && config.rules[j].server_model_id is Some == config.rules[i].server_model_id is Some) ==> i <= j
        },
{
    if 0 <= j < config.rules.len() && config.rules[j].enabled && (config.rules[j].player_name is Some
        || config.rules[j].server_model_id is Some) && (config.rules[j].player_name is Some ==> player_name
        == config.rules[j].player_name) && (config.rules[j].server_model_id is Some ==> config.rules[j].server_model_id
        == Some(server_model_id)) && profile_enabled(config.skins, config.rules[j].profile_id) {
        assert(eligible(config, j, player_name, server_model_id));
    }
}

/// Whether `now_ms` still lies within `interval_ms` of `earlier_ms`.
pub proof fn lemma_within_interval(now_ms: u64, earlier_ms: u64, interval_ms: u64)
    ensures
        within_interval(now_ms, earlier_ms, interval_ms) <==> now_ms - earlier_ms < interval_ms,
{
}

/// The watcher inspects the file on a frame exactly when no inspection
/// happened in the last 1000 ms; it reads only a present file whose
/// revision differs from the last one seen; and it applies only a decoded
/// configuration that validates, unchanged, never touching its own state
/// on a decode.
pub proof fn lemma_watcher_rules(before: ConfigWatcherView, event: ConfigEvent, after: ConfigWatcherView, action: ConfigAction)
    requires
        watcher_step(before, event, after, action),
    ensures
        event is Frame ==> (action is Idle || action is InspectFile),
        event is Frame ==> (action is InspectFile <==> (before.last_check_ms is None || event->now_ms
            >= before.last_check_ms->0 + 1000)),
        action is InspectFile ==> event is Frame && after.last_check_ms == Some(event->now_ms),
        action is ReadFile ==> event is Inspected && event->revision@ is Present && before.observed_revision != Some(
            event->revision@),
        event is Inspected && before.observed_revision == Some(event->revision@) ==> action is Idle,
        action is Apply ==> event is Parsed && event->result is Ok && event->result->Ok_0@ == action->Apply_0@
            && config_fault(action->Apply_0@) is None,
        event is Parsed && event->result is Ok && config_fault(event->result->Ok_0@) is None ==> action is Apply,
        event is Parsed ==> after == before,
{
}

} // verus!
