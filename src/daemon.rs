//! The control loop's state and the decisions taken on each tick.
//!
//! A tick runs in a fixed order: a pending reload (`reload`), the pause check
//! (`check_pause`), then, outside a cooldown, manual-change detection and rule
//! evaluation (`decide`); `record_applied` follows once a profile was set.
//! `tick` runs the whole sequence on observations taken beforehand.

use vstd::prelude::*;
use crate::config::{
    Config, ConfigError, Settings, config_valid, default_profile_ok, rules_ok, settings_of,
    validate_config,
};
use crate::process::ProcessEntry;
use crate::rules::{RuleMap, RuleSeq, build_rule_map, desired_of, get_desired_profile, opt_view, rules_to_map};
use crate::state::DaemonState;

verus! {

/// The control loop's state seen as plain values.
pub struct DaemonView {
    pub polling_interval: u64,
    pub pause_minutes: u64,
    pub default_profile: Seq<char>,
    pub rules: RuleSeq,
    pub paused_until: Option<i64>,
    pub current_profile: Option<Seq<char>>,
}

/// Outcome of the pause check.
#[derive(Clone, Copy, Debug, PartialEq, Eq, Structural)]
pub enum PauseCheck {
    /// The cooldown still runs: nothing more is done this tick.
    Paused,
    /// The cooldown has just ended and was cleared: the tick goes on.
    Resumed,
    /// No cooldown was running: the tick goes on.
    Active,
}

/// The end of a cooldown of `minutes` minutes that starts at `now`, held at
/// the largest timestamp when it would lie beyond it.
pub open spec fn deadline_after(now: i64, minutes: u64) -> i64 {
    let d = now as int + 60 * minutes as int;
    if d > i64::MAX as int {
        i64::MAX
    } else {
        d as i64
    }
}

/// A reload replaces the settings and the rules together when the candidate is
/// valid, and changes nothing otherwise.
pub open spec fn reload_spec(d: DaemonView, c: Config) -> DaemonView {
    if config_valid(c) {
        DaemonView {
            polling_interval: settings_of(c).0,
            pause_minutes: settings_of(c).1,
            default_profile: settings_of(c).2,
            rules: rules_to_map(c.rule@),
            ..d
        }
    } else {
        d
    }
}

pub open spec fn check_pause_spec(d: DaemonView, now: i64) -> (PauseCheck, DaemonView) {
    match d.paused_until {
        Some(u) => if now < u {
            (PauseCheck::Paused, d)
        } else {
            (PauseCheck::Resumed, DaemonView { paused_until: None, ..d })
        },
        None => (PauseCheck::Active, d),
    }
}

/// A profile that differs from the remembered one starts a cooldown and
/// becomes the remembered profile.
pub open spec fn manual_change_spec(d: DaemonView, observed: Option<Seq<char>>, now: i64) -> (
    bool,
    DaemonView,
) {
    if observed != d.current_profile {
        (
            true,
            DaemonView {
                paused_until: Some(deadline_after(now, d.pause_minutes)),
                current_profile: observed,
                ..d
            },
        )
    } else {
        (false, d)
    }
}

/// The profile that should be active: the rules' choice, else the default.
pub open spec fn target_profile(d: DaemonView, procs: Seq<ProcessEntry>) -> Seq<char> {
    match desired_of(d.rules, procs) {
        Some(p) => p,
        None => d.default_profile,
    }
}

/// The profile to set, or `None` when the target is already the remembered one.
pub open spec fn apply_spec(d: DaemonView, procs: Seq<ProcessEntry>) -> Option<Seq<char>> {
    let t = target_profile(d, procs);
    if d.current_profile == Some(t) {
        None
    } else {
        Some(t)
    }
}

pub open spec fn record_spec(d: DaemonView, p: Seq<char>) -> DaemonView {
    DaemonView { current_profile: Some(p), ..d }
}

/// What one tick did.
pub enum TickOutcome {
    /// A cooldown was running: no evaluation, no change.
    Waiting,
    /// A manual change was seen: a cooldown started and no profile was set.
    CooldownStarted,
    /// The given profile is to be set.
    Applied(Seq<char>),
    /// Rules were evaluated and the wanted profile was already active.
    Unchanged,
}

/// One whole tick after any reload, in the loop's fixed order: pause check,
/// manual-change detection, then rule evaluation. A profile to set is
/// remembered only once it was set (`record_spec`).
pub open spec fn tick_spec(
    d: DaemonView,
    now: i64,
    observed: Option<Seq<char>>,
    procs: Seq<ProcessEntry>,
) -> (TickOutcome, DaemonView) {
    let (pc, d1) = check_pause_spec(d, now);
    if pc == PauseCheck::Paused {
        (TickOutcome::Waiting, d)
    } else {
        let (changed, d2) = manual_change_spec(d1, observed, now);
        if changed {
            (TickOutcome::CooldownStarted, d2)
        } else {
            match apply_spec(d2, procs) {
                Some(p) => (TickOutcome::Applied(p), d2),
                None => (TickOutcome::Unchanged, d2),
            }
        }
    }
}

/// A rejected configuration leaves the settings and the rules as they were.
pub proof fn lemma_reload_atomic(d: DaemonView, c: Config)
    requires
        !config_valid(c),
    ensures
        reload_spec(d, c) == d,
{
}

/// While the cooldown runs, a tick evaluates no rule, sets no profile and
/// changes no state.
pub proof fn lemma_cooldown_exclusive(
    d: DaemonView,
    now: i64,
    observed: Option<Seq<char>>,
    procs: Seq<ProcessEntry>,
)
    requires
        d.paused_until matches Some(u) && now < u,
    ensures
        tick_spec(d, now, observed, procs) == (TickOutcome::Waiting, d),
{
}

/// Once the deadline is reached, the next tick clears the pause and, when the
/// profile was not changed by hand, evaluates the rules in that same tick.
pub proof fn lemma_cooldown_expiry(
    d: DaemonView,
    now: i64,
    observed: Option<Seq<char>>,
    procs: Seq<ProcessEntry>,
)
    requires
        d.paused_until matches Some(u) && now >= u,
    ensures
        tick_spec(d, now, observed, procs) == tick_spec(
            DaemonView { paused_until: None, ..d },
            now,
            observed,
            procs,
        ),
        observed == d.current_profile ==> {
            let cleared = DaemonView { paused_until: None, ..d };
            &&& tick_spec(d, now, observed, procs).1.paused_until is None
            &&& tick_spec(d, now, observed, procs).0 == match apply_spec(cleared, procs) {
                Some(p) => TickOutcome::Applied(p),
                None => TickOutcome::Unchanged,
            }
        },
{
}

/// When the wanted profile is already the remembered one, nothing is set.
pub proof fn lemma_idempotent_apply(d: DaemonView, procs: Seq<ProcessEntry>)
    requires
        d.current_profile == Some(target_profile(d, procs)),
    ensures
        apply_spec(d, procs) is None,
{
}

/// A profile that was set and recorded is not set again while the processes
/// stay the same.
pub proof fn lemma_apply_settles(d: DaemonView, procs: Seq<ProcessEntry>)
    requires
        apply_spec(d, procs) is Some,
    ensures
        apply_spec(record_spec(d, apply_spec(d, procs)->0), procs) is None,
{
}

/// A manual change starts a cooldown that ends `pause_minutes` minutes later
/// and remembers the observed profile.
pub proof fn lemma_manual_change_deadline(d: DaemonView, observed: Option<Seq<char>>, now: i64)
    requires
        observed != d.current_profile,
        now as int + 60 * d.pause_minutes as int <= i64::MAX as int,
    ensures
        manual_change_spec(d, observed, now).0,
        manual_change_spec(d, observed, now).1.paused_until == Some(
            (now as int + 60 * d.pause_minutes as int) as i64,
        ),
        manual_change_spec(d, observed, now).1.current_profile == observed,
{
}

/// What a tick asks of the loop that runs it.
#[derive(Debug, PartialEq, Eq)]
pub enum TickAction {
    /// A cooldown runs: sleep until the next tick.
    Waiting,
    /// A cooldown has just started: persist the pause record.
    CooldownStarted,
    /// Set this profile, then call `record_applied` with it.
    Apply(String),
    /// Nothing to change.
    Unchanged,
}

pub open spec fn action_view(a: TickAction) -> TickOutcome {
    match a {
        TickAction::Waiting => TickOutcome::Waiting,
        TickAction::CooldownStarted => TickOutcome::CooldownStarted,
        TickAction::Apply(p) => TickOutcome::Applied(p@),
        TickAction::Unchanged => TickOutcome::Unchanged,
    }
}

/// The end of a cooldown of `minutes` minutes that starts at `now` (Unix seconds).
pub fn pause_deadline(now: i64, minutes: u64) -> (r: i64)
    ensures
        r == deadline_after(now, minutes),
{
    let d: i128 = now as i128 + (minutes as i128) * 60;
    if d > i64::MAX as i128 {
        i64::MAX
    } else {
        d as i64
    }
}

fn same_profile(a: &Option<String>, b: &Option<String>) -> (r: bool)
    ensures
        r == (opt_view(*a) == opt_view(*b)),
{
    match (a, b) {
        (Some(x), Some(y)) => *x == *y,
        (None, None) => true,
        _ => false,
    }
}

/// The control loop's state: settings, rules, the pause deadline and the
/// profile last known to be active.
pub struct Daemon {
    settings: Settings,
    rules: RuleMap,
    state: DaemonState,
    current_profile: Option<String>,
}

impl View for Daemon {
    type V = DaemonView;

    closed spec fn view(&self) -> DaemonView {
        DaemonView {
            polling_interval: self.settings.polling_interval,
            pause_minutes: self.settings.pause_minutes,
            default_profile: self.settings.default_profile@,
            rules: self.rules@,
            paused_until: self.state.paused_until,
            current_profile: opt_view(self.current_profile),
        }
    }
}

impl Daemon {
    /// Starts from a loaded configuration, a loaded pause record and the
    /// profile active at start.
    pub fn new(config: &Config, state: DaemonState, current_profile: Option<String>) -> (r: Daemon)
        ensures
            r@.polling_interval == settings_of(*config).0,
            r@.pause_minutes == settings_of(*config).1,
            r@.default_profile == settings_of(*config).2,
            r@.rules == rules_to_map(config.rule@),
            r@.paused_until == state.paused_until,
            r@.current_profile == opt_view(current_profile),
    {
        Daemon {
            settings: Settings::from_config(config),
            rules: build_rule_map(config),
            state,
            current_profile,
        }
    }

    /// Applies a newly parsed configuration: on success the settings and the
    /// rules are replaced together; on failure nothing changes.
    pub fn reload(&mut self, candidate: Config) -> (r: Result<(), ConfigError>)
        ensures
            r is Ok <==> config_valid(candidate),
            final(self)@ == reload_spec(old(self)@, candidate),
            !config_valid(candidate) ==> final(self)@ == old(self)@,
            !default_profile_ok(candidate) ==> r matches Err(
                ConfigError::InvalidDefaultProfile { .. },
            ),
            default_profile_ok(candidate) && !rules_ok(candidate.rule@) ==> r matches Err(
                ConfigError::InvalidRuleProfile { .. },
            ),
    {
        match validate_config(candidate) {
            Ok(config) => {
                self.settings = Settings::from_config(&config);
                self.rules = build_rule_map(&config);
                Ok(())
            },
            Err(e) => Err(e),
        }
    }

    /// The pause check: a running cooldown ends the tick; an expired one is
    /// cleared and the tick goes on.
    pub fn check_pause(&mut self, now: i64) -> (r: PauseCheck)
        ensures
            (r, final(self)@) == check_pause_spec(old(self)@, now),
    {
        match self.state.paused_until {
            Some(u) => {
                if now < u {
                    PauseCheck::Paused
                } else {
                    self.state.paused_until = None;
                    PauseCheck::Resumed
                }
            },
            None => PauseCheck::Active,
        }
    }

    /// Compares the profile read from the controller with the remembered one;
    /// on a difference a cooldown starts at `now` and the observed profile is
    /// remembered. Returns whether a cooldown started.
    pub fn detect_manual_change(&mut self, observed: Option<String>, now: i64) -> (r: bool)
        ensures
            (r, final(self)@) == manual_change_spec(old(self)@, opt_view(observed), now),
    {
        if same_profile(&observed, &self.current_profile) {
            false
        } else {
            self.state.paused_until = Some(pause_deadline(now, self.settings.pause_minutes));
            self.current_profile = observed;
            true
        }
    }

    /// Rule evaluation: the profile of the first rule whose process runs, or
    /// the default profile when none does.
    pub fn desired_profile(&self, procs: &Vec<ProcessEntry>) -> (r: String)
        ensures
            r@ == target_profile(self@, procs@),
    {
        match get_desired_profile(&self.rules, procs) {
            Some(p) => p,
            None => self.settings.default_profile.clone(),
        }
    }

    /// The profile to set this tick, or `None` when the wanted profile is
    /// already the remembered one. Only called outside a cooldown.
    pub fn profile_to_apply(&self, procs: &Vec<ProcessEntry>) -> (r: Option<String>)
        requires
            self@.paused_until is None,
        ensures
            opt_view(r) == apply_spec(self@, procs@),
    {
        let desired = self.desired_profile(procs);
        let same = match &self.current_profile {
            Some(c) => *c == desired,
            None => false,
        };
        if same {
            None
        } else {
            Some(desired)
        }
    }

    /// The rest of a tick once the pause check let it go on: manual-change
    /// detection, then rule evaluation on the given process snapshot.
    pub fn decide(&mut self, now: i64, observed: Option<String>, procs: &Vec<ProcessEntry>) -> (r:
        TickAction)
        requires
            old(self)@.paused_until is None,
        ensures
            (action_view(r), final(self)@) == tick_spec(old(self)@, now, opt_view(observed), procs@),
            r != TickAction::Waiting,
    {
        if self.detect_manual_change(observed, now) {
            TickAction::CooldownStarted
        } else {
            match self.profile_to_apply(procs) {
                Some(p) => TickAction::Apply(p),
                None => TickAction::Unchanged,
            }
        }
    }

    /// One whole tick after any reload: the pause check, then `decide` when
    /// no cooldown runs.
    pub fn tick(&mut self, now: i64, observed: Option<String>, procs: &Vec<ProcessEntry>) -> (r:
        TickAction)
        ensures
            (action_view(r), final(self)@) == tick_spec(old(self)@, now, opt_view(observed), procs@),
    {
        let ghost start = self@;
        match self.check_pause(now) {
            PauseCheck::Paused => TickAction::Waiting,
            _ => {
                proof {
                    if start.paused_until is Some {
                        lemma_cooldown_expiry(start, now, opt_view(observed), procs@);
                    }
                }
                self.decide(now, observed, procs)
            },
        }
    }

    /// Remembers a profile that was just set.
    pub fn record_applied(&mut self, profile: String)
        ensures
            final(self)@ == record_spec(old(self)@, profile@),
    {
        self.current_profile = Some(profile);
    }
    /// Seconds between ticks.
    pub fn polling_interval(&self) -> (r: u64)
        ensures
            r == self@.polling_interval,
    {
        self.settings.polling_interval
    }

    /// Cooldown length in minutes.
    pub fn pause_minutes(&self) -> (r: u64)
        ensures
            r == self@.pause_minutes,
    {
        self.settings.pause_minutes
    }

    /// The profile applied when no rule matches.
    pub fn default_profile(&self) -> (r: String)
        ensures
            r@ == self@.default_profile,
    {
        self.settings.default_profile.clone()
    }

    /// The current rule set.
    pub fn rules(&self) -> (r: &RuleMap)
        ensures
            r@ == self@.rules,
    {
        &self.rules
    }

    /// The end of the running cooldown, if any.
    pub fn paused_until(&self) -> (r: Option<i64>)
        ensures
            r == self@.paused_until,
    {
        self.state.paused_until
    }

    /// The pause record to persist.
    pub fn state(&self) -> (r: DaemonState)
        ensures
            r.paused_until == self@.paused_until,
    {
        self.state
    }

    /// The profile last known to be active.
    pub fn current_profile(&self) -> (r: Option<String>)
        ensures
            opt_view(r) == self@.current_profile,
    {
        self.current_profile.clone()
    }
}

} // verus!
