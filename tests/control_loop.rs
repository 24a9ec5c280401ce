use power_rules_daemon::config::{validate_config, ConfigError, Settings};
use power_rules_daemon::daemon::{pause_deadline, Daemon, PauseCheck, TickAction};
use power_rules_daemon::process::ProcessEntry;
use power_rules_daemon::{validate_default_profile, Config, ConfigSection, DaemonState, Rule};

fn rule(name: &str, profile: &str) -> Rule {
    Rule { name: name.to_string(), profile: profile.to_string() }
}

fn config_with(rules: Vec<Rule>) -> Config {
    Config { config: None, rule: rules }
}

fn proc_named(comm: &str) -> ProcessEntry {
    ProcessEntry { comm: Some(comm.to_string()), cmdline: vec![] }
}

fn active() -> DaemonState {
    DaemonState { paused_until: None }
}

#[test]
fn empty_config_gives_defaults() {
    let config = Config::empty();
    let d = Daemon::new(&config, DaemonState::default(), None);
    assert_eq!(d.rules().len(), 0);
    assert_eq!(d.default_profile(), "balanced");
    assert_eq!(d.polling_interval(), 5);
    assert_eq!(d.pause_minutes(), 60);
    assert_eq!(d.paused_until(), None);
    let s = Settings::from_config(&config);
    assert_eq!(s.polling_interval, 5);
    assert_eq!(s.pause_minutes, 60);
    assert_eq!(s.default_profile, "balanced");
}

#[test]
fn matching_rule_sets_profile_once() {
    let config = config_with(vec![rule("blender", "performance")]);
    let mut d = Daemon::new(&config, active(), Some("balanced".to_string()));
    let procs = vec![proc_named("bash"), proc_named("blender")];
    assert_eq!(d.check_pause(1000), PauseCheck::Active);
    assert!(!d.detect_manual_change(Some("balanced".to_string()), 1000));
    assert_eq!(d.desired_profile(&procs), "performance");
    let to_set = d.profile_to_apply(&procs);
    assert_eq!(to_set, Some("performance".to_string()));
    d.record_applied(to_set.unwrap());
    // next tick: the controller reports what was set, nothing more to do
    assert!(!d.detect_manual_change(Some("performance".to_string()), 1005));
    assert_eq!(d.profile_to_apply(&procs), None);
    assert_eq!(d.current_profile(), Some("performance".to_string()));
}

#[test]
fn manual_change_starts_cooldown() {
    let config = Config::empty();
    let mut d = Daemon::new(&config, active(), Some("balanced".to_string()));
    assert_eq!(d.check_pause(1_000_000), PauseCheck::Active);
    assert!(d.detect_manual_change(Some("performance".to_string()), 1_000_000));
    assert_eq!(d.paused_until(), Some(1_000_000 + 60 * 60));
    assert_eq!(d.current_profile(), Some("performance".to_string()));
    assert_eq!(d.state(), DaemonState { paused_until: Some(1_003_600) });
    // the next tick inside the cooldown does nothing
    assert_eq!(d.check_pause(1_000_010), PauseCheck::Paused);
    assert_eq!(d.paused_until(), Some(1_003_600));
}

#[test]
fn expired_pause_resumes_same_tick() {
    let config = config_with(vec![rule("blender", "performance")]);
    let now: i64 = 2_000_000;
    let state = DaemonState { paused_until: Some(now - 10) };
    let mut d = Daemon::new(&config, state, Some("balanced".to_string()));
    assert_eq!(d.check_pause(now), PauseCheck::Resumed);
    assert_eq!(d.paused_until(), None);
    assert!(!d.detect_manual_change(Some("balanced".to_string()), now));
    let procs = vec![proc_named("blender")];
    assert_eq!(d.profile_to_apply(&procs), Some("performance".to_string()));
}

#[test]
fn pause_ends_exactly_at_deadline() {
    let mut d = Daemon::new(&Config::empty(), DaemonState { paused_until: Some(500) }, None);
    assert_eq!(d.check_pause(499), PauseCheck::Paused);
    assert_eq!(d.check_pause(500), PauseCheck::Resumed);
    assert_eq!(d.check_pause(501), PauseCheck::Active);
}

#[test]
fn invalid_profile_reload_keeps_rules() {
    let config = config_with(vec![rule("blender", "performance")]);
    let mut d = Daemon::new(&config, active(), None);
    let bad = config_with(vec![rule("game", "turbo")]);
    match d.reload(bad) {
        Err(ConfigError::InvalidRuleProfile { name, profile }) => {
            assert_eq!(name, "game");
            assert_eq!(profile, "turbo");
        }
        _ => panic!("expected a rule profile error"),
    }
    assert_eq!(d.rules().len(), 1);
    assert_eq!(d.rules().profile_for(&"blender".to_string()), Some("performance".to_string()));
    assert_eq!(d.rules().profile_for(&"game".to_string()), None);
    assert_eq!(d.default_profile(), "balanced");
}

#[test]
fn invalid_default_profile_is_rejected() {
    let config = Config {
        config: Some(ConfigSection {
            polling_interval: Some(1),
            pause_on_manual_change: Some(2),
            default_profile: Some("Turbo".to_string()),
        }),
        rule: vec![],
    };
    let mut d = Daemon::new(&Config::empty(), active(), None);
    match d.reload(config) {
        Err(ConfigError::InvalidDefaultProfile { profile }) => assert_eq!(profile, "Turbo"),
        _ => panic!("expected a default profile error"),
    }
    assert_eq!(d.polling_interval(), 5);
    assert_eq!(d.pause_minutes(), 60);
}

#[test]
fn valid_reload_replaces_settings_and_rules() {
    let config = Config {
        config: Some(ConfigSection {
            polling_interval: Some(2),
            pause_on_manual_change: Some(15),
            default_profile: Some("power-saver".to_string()),
        }),
        rule: vec![rule("steam", "Performance"), rule("make", "POWER_SAVER")],
    };
    let mut d = Daemon::new(&Config::empty(), active(), None);
    assert!(d.reload(config).is_ok());
    assert_eq!(d.polling_interval(), 2);
    assert_eq!(d.pause_minutes(), 15);
    assert_eq!(d.default_profile(), "power-saver");
    assert_eq!(d.rules().len(), 2);
    // no rule matches: the default is wanted
    assert_eq!(d.profile_to_apply(&vec![proc_named("bash")]), Some("power-saver".to_string()));
}

#[test]
fn validation_accepts_any_case_and_alias() {
    assert!(validate_default_profile("PERFORMANCE"));
    assert!(validate_default_profile("Balanced"));
    assert!(validate_default_profile("power-saver"));
    assert!(validate_default_profile("Power_Saver"));
    assert!(!validate_default_profile("turbo"));
    assert!(!validate_default_profile(""));
    assert!(!validate_default_profile("powersaver"));
}

#[test]
fn validate_config_returns_input_unchanged() {
    let config = config_with(vec![rule("a", "balanced")]);
    let ok = validate_config(config).ok().unwrap();
    assert_eq!(ok.rule.len(), 1);
    assert_eq!(ok.rule[0].name, "a");
}

#[test]
fn first_bad_rule_is_reported() {
    let config = config_with(vec![rule("a", "balanced"), rule("b", "x"), rule("c", "y")]);
    match validate_config(config) {
        Err(ConfigError::InvalidRuleProfile { name, .. }) => assert_eq!(name, "b"),
        _ => panic!("expected a rule profile error"),
    }
}

#[test]
fn equal_profile_is_not_applied_again() {
    let config = config_with(vec![rule("blender", "performance")]);
    let d = Daemon::new(&config, active(), Some("performance".to_string()));
    assert_eq!(d.profile_to_apply(&vec![proc_named("blender")]), None);
    let idle = Daemon::new(&config, active(), Some("balanced".to_string()));
    assert_eq!(idle.profile_to_apply(&vec![]), None);
}

#[test]
fn unknown_current_profile_gets_default() {
    let d = Daemon::new(&Config::empty(), active(), None);
    assert_eq!(d.profile_to_apply(&vec![]), Some("balanced".to_string()));
}

#[test]
fn deadline_formula() {
    assert_eq!(pause_deadline(1000, 60), 4600);
    assert_eq!(pause_deadline(0, 0), 0);
    assert_eq!(pause_deadline(-100, 1), -40);
    assert_eq!(pause_deadline(i64::MAX - 10, 1), i64::MAX);
    assert_eq!(pause_deadline(0, u64::MAX), i64::MAX);
}

#[test]
fn tick_while_paused_does_nothing() {
    let config = config_with(vec![rule("blender", "performance")]);
    let mut d = Daemon::new(&config, DaemonState { paused_until: Some(100) }, Some("balanced".to_string()));
    let procs = vec![proc_named("blender")];
    assert_eq!(d.tick(50, Some("power-saver".to_string()), &procs), TickAction::Waiting);
    assert_eq!(d.paused_until(), Some(100));
    assert_eq!(d.current_profile(), Some("balanced".to_string()));
}

#[test]
fn tick_after_expiry_evaluates_rules() {
    let config = config_with(vec![rule("blender", "performance")]);
    let mut d = Daemon::new(&config, DaemonState { paused_until: Some(90) }, Some("balanced".to_string()));
    let procs = vec![proc_named("blender")];
    assert_eq!(
        d.tick(100, Some("balanced".to_string()), &procs),
        TickAction::Apply("performance".to_string())
    );
    assert_eq!(d.paused_until(), None);
    // the profile is remembered only once it was set
    assert_eq!(d.current_profile(), Some("balanced".to_string()));
    d.record_applied("performance".to_string());
    assert_eq!(d.tick(105, Some("performance".to_string()), &procs), TickAction::Unchanged);
}

#[test]
fn tick_with_manual_change_sets_nothing() {
    let mut d = Daemon::new(&Config::empty(), active(), Some("balanced".to_string()));
    assert_eq!(
        d.tick(1_000, Some("performance".to_string()), &vec![]),
        TickAction::CooldownStarted
    );
    assert_eq!(d.paused_until(), Some(4_600));
    assert_eq!(d.current_profile(), Some("performance".to_string()));
}

#[test]
fn decide_applies_default_when_no_rule_matches() {
    let mut d = Daemon::new(&Config::empty(), active(), Some("performance".to_string()));
    assert_eq!(
        d.decide(10, Some("performance".to_string()), &vec![proc_named("bash")]),
        TickAction::Apply("balanced".to_string())
    );
}
