//! Configuration records, their validation, and the settings derived from them.

use vstd::prelude::*;
use crate::profile::{profile_accepted, validate_default_profile};

verus! {

/// Seconds between two ticks when the configuration gives none.
pub const DEFAULT_POLLING_INTERVAL: u64 = 5;

/// Minutes of cooldown after a manual change when the configuration gives none.
pub const DEFAULT_PAUSE_MINUTES: u64 = 60;

/// Profile applied when no rule matches and the configuration names none.
pub const DEFAULT_DEFAULT_PROFILE: &'static str = "balanced";

/// The optional `[config]` section.
pub struct ConfigSection {
    pub polling_interval: Option<u64>,
    pub pause_on_manual_change: Option<u64>,
    pub default_profile: Option<String>,
}

/// One `[[rule]]` entry: while a process matching `name` runs, `profile` is wanted.
pub struct Rule {
    pub name: String,
    pub profile: String,
}

/// A parsed configuration file.
pub struct Config {
    pub config: Option<ConfigSection>,
    pub rule: Vec<Rule>,
}

/// Why a configuration was rejected.
pub enum ConfigError {
    /// The section's `default_profile` is not a supported profile.
    InvalidDefaultProfile { profile: String },
    /// A rule names an unsupported profile.
    InvalidRuleProfile { name: String, profile: String },
}

/// The configured default profile, if the file gives one.
pub open spec fn configured_default(c: Config) -> Option<Seq<char>> {
    match c.config {
        Some(sec) => match sec.default_profile {
            Some(p) => Some(p@),
            None => None,
        },
        None => None,
    }
}

pub open spec fn default_profile_ok(c: Config) -> bool {
    match configured_default(c) {
        Some(p) => profile_accepted(p),
        None => true,
    }
}

pub open spec fn rule_ok(r: Rule) -> bool {
    profile_accepted(r.profile@)
}

pub open spec fn rules_ok(rules: Seq<Rule>) -> bool {
    forall|i: int| 0 <= i < rules.len() ==> #[trigger] rule_ok(rules[i])
}

/// A configuration is accepted when every profile it names is supported.
pub open spec fn config_valid(c: Config) -> bool {
    default_profile_ok(c) && rules_ok(c.rule@)
}

/// `i` is the first rule whose profile is not supported.
pub open spec fn first_bad_rule(rules: Seq<Rule>, i: int) -> bool {
    &&& 0 <= i < rules.len()
    &&& !rule_ok(rules[i])
    &&& forall|j: int| 0 <= j < i ==> #[trigger] rule_ok(rules[j])
}

impl Config {
    /// The configuration of an absent file: no section and no rules.
    pub fn empty() -> (r: Config)
        ensures
            r.config is None,
            r.rule@.len() == 0,
    {
        Config { config: None, rule: Vec::new() }
    }
}

/// Accepts a parsed configuration whole, or rejects it whole: the default
/// profile is checked first, then the rules in order.
pub fn validate_config(config: Config) -> (r: Result<Config, ConfigError>)
    ensures
        r is Ok <==> config_valid(config),
        r matches Ok(c) ==> c == config,
        !default_profile_ok(config) ==> (r matches Err(ConfigError::InvalidDefaultProfile {
            profile,
        }) && configured_default(config) == Some(profile@)),
        default_profile_ok(config) && !rules_ok(config.rule@) ==> (r matches Err(
            ConfigError::InvalidRuleProfile { name, profile },
        ) && exists|i: int|
            first_bad_rule(config.rule@, i) && name@ == config.rule@[i].name@ && profile@
                == config.rule@[i].profile@),
{
    let mut bad_default: Option<String> = None;
    match &config.config {
        Some(sec) => match &sec.default_profile {
            Some(p) => {
                if !validate_default_profile(p.as_str()) {
                    bad_default = Some(p.clone());
                }
            },
            None => {},
        },
        None => {},
    }
    if let Some(profile) = bad_default {
        return Err(ConfigError::InvalidDefaultProfile { profile });
    }
    let mut i: usize = 0;
    while i < config.rule.len()
        invariant
            0 <= i <= config.rule@.len(),
            default_profile_ok(config),
            forall|j: int| 0 <= j < i ==> #[trigger] rule_ok(config.rule@[j]),
        decreases config.rule@.len() - i,
    {
        let rule = &config.rule[i];
        if !validate_default_profile(rule.profile.as_str()) {
            assert(first_bad_rule(config.rule@, i as int));
            return Err(
                ConfigError::InvalidRuleProfile {
                    name: rule.name.clone(),
                    profile: rule.profile.clone(),
                },
            );
        }
        i = i + 1;
    }
    Ok(config)
}

/// The scalar settings derived from a configuration.
pub struct Settings {
    pub polling_interval: u64,
    pub pause_minutes: u64,
    pub default_profile: String,
}

/// The settings that a configuration gives, each absent value taking its default.
pub open spec fn settings_of(c: Config) -> (u64, u64, Seq<char>) {
    match c.config {
        Some(sec) => (
            match sec.polling_interval {
                Some(v) => v,
                None => DEFAULT_POLLING_INTERVAL,
            },
            match sec.pause_on_manual_change {
                Some(v) => v,
                None => DEFAULT_PAUSE_MINUTES,
            },
            match sec.default_profile {
                Some(p) => p@,
                None => DEFAULT_DEFAULT_PROFILE@,
            },
        ),
        None => (DEFAULT_POLLING_INTERVAL, DEFAULT_PAUSE_MINUTES, DEFAULT_DEFAULT_PROFILE@),
    }
}

impl Settings {
    pub open spec fn view(&self) -> (u64, u64, Seq<char>) {
        (self.polling_interval, self.pause_minutes, self.default_profile@)
    }

    /// Derives the settings from a configuration.
    pub fn from_config(config: &Config) -> (r: Settings)
        ensures
            r.view() == settings_of(*config),
    {
        match &config.config {
            Some(sec) => {
                let polling_interval = match sec.polling_interval {
                    Some(v) => v,
                    None => DEFAULT_POLLING_INTERVAL,
                };
                let pause_minutes = match sec.pause_on_manual_change {
                    Some(v) => v,
                    None => DEFAULT_PAUSE_MINUTES,
                };
                let default_profile = match &sec.default_profile {
                    Some(p) => p.clone(),
                    None => DEFAULT_DEFAULT_PROFILE.to_owned(),
                };
                Settings { polling_interval, pause_minutes, default_profile }
            },
            None => Settings {
                polling_interval: DEFAULT_POLLING_INTERVAL,
                pause_minutes: DEFAULT_PAUSE_MINUTES,
                default_profile: DEFAULT_DEFAULT_PROFILE.to_owned(),
            },
        }
    }
}

} // verus!
