//! The rule configuration: alert rules, heartbeat rules and the scan interval.

use vstd::prelude::*;
use vstd::string::*;
use crate::matcher::{Rule, RuleView};

verus! {

/// Seconds between two heartbeat scans where the configuration gives none.
pub const DEFAULT_HEARTBEAT_INTERVAL: u64 = 30;

/// A rule whose match is reported at once, tagged with `prefix`.
#[derive(Debug)]
pub struct AlertRule {
    pub pattern: String,
    pub prefix: String,
}

impl Clone for AlertRule {
    fn clone(&self) -> (copy: AlertRule)
        ensures
            copy == *self,
    {
        AlertRule { pattern: self.pattern.clone(), prefix: self.prefix.clone() }
    }
}

/// A rule whose matching lines are expected at least every `tolerance`
/// seconds.
#[derive(Debug)]
pub struct HeartbeatRule {
    pub pattern: String,
    pub prefix: String,
    pub tolerance: u64,
}

impl Clone for HeartbeatRule {
    fn clone(&self) -> (copy: HeartbeatRule)
        ensures
            copy == *self,
    {
        HeartbeatRule {
            pattern: self.pattern.clone(),
            prefix: self.prefix.clone(),
            tolerance: self.tolerance,
        }
    }
}

/// Everything the monitor is configured with.
#[derive(Debug)]
pub struct Config {
    pub slack_webhook_url: String,
    pub systemd_unit: String,
    pub heartbeat_interval: u64,
    pub alerts: Vec<AlertRule>,
    pub heartbeats: Vec<HeartbeatRule>,
}

impl Clone for Config {
    fn clone(&self) -> (copy: Config)
        ensures
            copy@ == self@,
    {
        let mut alerts: Vec<AlertRule> = Vec::new();
        let mut i: usize = 0;
        while i < self.alerts.len()
            invariant
                i <= self.alerts@.len(),
                alerts@.len() == i,
                forall|k: int| 0 <= k < i ==> #[trigger] alerts@[k] == self.alerts@[k],
            decreases self.alerts@.len() - i,
        {
            alerts.push(self.alerts[i].clone());
            i += 1;
        }
        let mut heartbeats: Vec<HeartbeatRule> = Vec::new();
        let mut j: usize = 0;
        while j < self.heartbeats.len()
            invariant
                j <= self.heartbeats@.len(),
                heartbeats@.len() == j,
                forall|k: int| 0 <= k < j ==> #[trigger] heartbeats@[k] == self.heartbeats@[k],
            decreases self.heartbeats@.len() - j,
        {
            heartbeats.push(self.heartbeats[j].clone());
            j += 1;
        }
        let copy = Config {
            slack_webhook_url: self.slack_webhook_url.clone(),
            systemd_unit: self.systemd_unit.clone(),
            heartbeat_interval: self.heartbeat_interval,
            alerts,
            heartbeats,
        };
        assert(copy@.alerts =~= self@.alerts);
        assert(copy@.heartbeats =~= self@.heartbeats);
        copy
    }
}

/// The mathematical content of a [`HeartbeatRule`].
pub struct HeartbeatRuleView {
    pub pattern: Seq<char>,
    pub prefix: Seq<char>,
    pub tolerance: u64,
}

/// The mathematical content of a [`Config`].
pub struct ConfigView {
    pub slack_webhook_url: Seq<char>,
    pub systemd_unit: Seq<char>,
    pub heartbeat_interval: u64,
    pub alerts: Seq<RuleView>,
    pub heartbeats: Seq<HeartbeatRuleView>,
}

impl View for AlertRule {
    type V = RuleView;

    open spec fn view(&self) -> RuleView {
        RuleView { pattern: self.pattern@, prefix: self.prefix@ }
    }
}

impl View for HeartbeatRule {
    type V = HeartbeatRuleView;

    open spec fn view(&self) -> HeartbeatRuleView {
        HeartbeatRuleView {
            pattern: self.pattern@,
            prefix: self.prefix@,
            tolerance: self.tolerance,
        }
    }
}

impl HeartbeatRuleView {
    /// The part of the rule that matching uses.
    pub open spec fn rule(self) -> RuleView {
        RuleView { pattern: self.pattern, prefix: self.prefix }
    }
}

impl View for Config {
    type V = ConfigView;

    open spec fn view(&self) -> ConfigView {
        ConfigView {
            slack_webhook_url: self.slack_webhook_url@,
            systemd_unit: self.systemd_unit@,
            heartbeat_interval: self.heartbeat_interval,
            alerts: Seq::new(self.alerts@.len(), |i: int| self.alerts@[i]@),
            heartbeats: Seq::new(self.heartbeats@.len(), |i: int| self.heartbeats@[i]@),
        }
    }
}

impl ConfigView {
    /// The heartbeat rules as matching rules, in order.
    pub open spec fn heartbeat_rules(self) -> Seq<RuleView> {
        Seq::new(self.heartbeats.len(), |i: int| self.heartbeats[i].rule())
    }

    /// There is at least one alert rule or heartbeat rule.
    pub open spec fn has_rules(self) -> bool {
        self.alerts.len() > 0 || self.heartbeats.len() > 0
    }

    /// The scan interval in effect: the configured one, or the default
    /// where none (zero) is configured.
    pub open spec fn effective_interval(self) -> u64 {
        if self.heartbeat_interval == 0 {
            DEFAULT_HEARTBEAT_INTERVAL
        } else {
            self.heartbeat_interval
        }
    }
}

/// Why no usable configuration was obtained.
#[derive(Debug, Clone, Copy, PartialEq, Eq, Structural)]
pub enum ConfigError {
    /// No path was given and none of the default files exists.
    NotFound,
    /// The configuration holds neither an alert rule nor a heartbeat rule.
    NoRules,
}

impl ConfigError {
    /// A one-line description of the error.
    pub fn message(&self) -> (text: String)
        ensures
            text@ == match *self {
                ConfigError::NotFound => "No config file found"@,
                ConfigError::NoRules =>
                    "Config must contain at least one alert or heartbeat rule"@,
            },
    {
        match self {
            ConfigError::NotFound => "No config file found".to_owned(),
            ConfigError::NoRules => {
                "Config must contain at least one alert or heartbeat rule".to_owned()
            },
        }
    }
}

/// The places where a configuration file is looked for when no path is
/// given, in order of preference.
pub open spec fn default_path_views() -> Seq<Seq<char>> {
    seq!["config.toml"@, "/etc/journal-alerts/config.toml"@]
}

/// The default configuration paths, in order of preference.
pub fn default_paths() -> (paths: Vec<String>)
    ensures
        paths@.len() == default_path_views().len(),
        forall|i: int| 0 <= i < paths@.len() ==> (#[trigger] paths@[i])@ == default_path_views()[i],
{
    let mut paths: Vec<String> = Vec::new();
    paths.push("config.toml".to_owned());
    paths.push("/etc/journal-alerts/config.toml".to_owned());
    paths
}

/// Candidate `i` is the first one that `exists` marks as present.
pub open spec fn is_first_present(exists: Seq<bool>, count: int, i: int) -> bool {
    &&& 0 <= i < count
    &&& i < exists.len()
    &&& exists[i]
    &&& forall|j: int| 0 <= j < i ==> !#[trigger] exists[j]
}

/// Picks the configuration file to read. An explicit path is taken as it
/// is. Without one, the first default path that exists is taken, where
/// `exists[i]` tells whether default path `i` exists (a missing flag
/// counts as absent); if none exists the result is `NotFound`.
pub fn choose_path(explicit: Option<String>, exists: &[bool]) -> (r: Result<String, ConfigError>)
    ensures
        explicit matches Some(p) ==> r == Ok::<String, ConfigError>(p),
        explicit is None ==> match r {
            Ok(p) => exists|i: int|
                is_first_present(exists@, default_path_views().len() as int, i) && p@
                    == default_path_views()[i],
            Err(e) => e == ConfigError::NotFound && forall|i: int|
                0 <= i < default_path_views().len() && i < exists@.len() ==> !#[trigger] exists@[i],
        },
{
    match explicit {
        Some(p) => Ok(p),
        None => {
            let mut paths = default_paths();
            let mut i: usize = 0;
            while i < paths.len() && i < exists.len()
                invariant
                    explicit is None,
                    i <= paths@.len(),
                    paths@.len() == default_path_views().len(),
                    forall|k: int|
                        0 <= k < paths@.len() ==> (#[trigger] paths@[k])@ == default_path_views()[k],
                    forall|j: int| 0 <= j < i && j < exists@.len() ==> !#[trigger] exists@[j],
                decreases paths@.len() - i,
            {
                if exists[i] {
                    assert(is_first_present(exists@, default_path_views().len() as int, i as int));
                    return Ok(paths.swap_remove(i));
                }
                i += 1;
            }
            Err(ConfigError::NotFound)
        },
    }
}

impl AlertRule {
    /// The rule as the matcher takes it.
    pub fn rule(&self) -> (r: Rule)
        ensures
            r@ == self@,
    {
        Rule { pattern: self.pattern.clone(), prefix: self.prefix.clone() }
    }
}

impl HeartbeatRule {
    /// The pattern and prefix of the rule, as the matcher takes them.
    pub fn rule(&self) -> (r: Rule)
        ensures
            r@ == self@.rule(),
    {
        Rule { pattern: self.pattern.clone(), prefix: self.prefix.clone() }
    }
}

impl Config {
    /// Whether there is at least one alert rule or heartbeat rule.
    pub fn has_rules(&self) -> (b: bool)
        ensures
            b == self@.has_rules(),
    {
        !(self.heartbeats.is_empty() && self.alerts.is_empty())
    }

    /// Checks a freshly read configuration and fills in the default. A
    /// configuration without any rule is rejected with `NoRules`. Any
    /// other is returned unchanged, but for a scan interval of zero, which
    /// becomes the default interval.
    pub fn validated(self) -> (r: Result<Config, ConfigError>)
        ensures
            !self@.has_rules() ==> r == Err::<Config, ConfigError>(ConfigError::NoRules),
            self@.has_rules() ==> (r matches Ok(c) && c@ == (ConfigView {
                heartbeat_interval: self@.effective_interval(),
                ..self@
            })),
    {
        if !self.has_rules() {
            return Err(ConfigError::NoRules);
        }
        let mut config = self;
        if config.heartbeat_interval == 0 {
            config.heartbeat_interval = DEFAULT_HEARTBEAT_INTERVAL;
        }
        Ok(config)
    }

    /// The alert rules as the matcher takes them, in order.
    pub fn alert_rules(&self) -> (rules: Vec<Rule>)
        ensures
            crate::matcher::rule_views(rules@) == self@.alerts,
    {
        let mut rules: Vec<Rule> = Vec::new();
        let mut i: usize = 0;
        while i < self.alerts.len()
            invariant
                i <= self.alerts@.len(),
                rules@.len() == i,
                forall|j: int| 0 <= j < i ==> (#[trigger] rules@[j])@ == self.alerts@[j]@,
            decreases self.alerts@.len() - i,
        {
            rules.push(self.alerts[i].rule());
            i += 1;
        }
        assert(crate::matcher::rule_views(rules@) =~= self@.alerts);
        rules
    }

    /// The heartbeat rules as the matcher takes them, in order.
    pub fn heartbeat_rules(&self) -> (rules: Vec<Rule>)
        ensures
            crate::matcher::rule_views(rules@) == self@.heartbeat_rules(),
    {
        let mut rules: Vec<Rule> = Vec::new();
        let mut i: usize = 0;
        while i < self.heartbeats.len()
            invariant
                i <= self.heartbeats@.len(),
                rules@.len() == i,
                forall|j: int| 0 <= j < i ==> (#[trigger] rules@[j])@ == self.heartbeats@[j]@.rule(),
            decreases self.heartbeats@.len() - i,
        {
            rules.push(self.heartbeats[i].rule());
            i += 1;
        }
        assert(crate::matcher::rule_views(rules@) =~= self@.heartbeat_rules());
        rules
    }
}

} // verus!
