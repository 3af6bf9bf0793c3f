use journal_alerts::config::{
    choose_path, default_paths, AlertRule, Config, ConfigError, HeartbeatRule,
    DEFAULT_HEARTBEAT_INTERVAL,
};

fn config(interval: u64, alerts: usize, heartbeats: usize) -> Config {
    Config {
        slack_webhook_url: "hook".to_string(),
        systemd_unit: "unit".to_string(),
        heartbeat_interval: interval,
        alerts: (0..alerts)
            .map(|i| AlertRule { pattern: format!("a{i}"), prefix: format!("A{i} ") })
            .collect(),
        heartbeats: (0..heartbeats)
            .map(|i| HeartbeatRule {
                pattern: format!("h{i}"),
                prefix: format!("H{i} "),
                tolerance: 10 + i as u64,
            })
            .collect(),
    }
}

#[test]
fn configuration_without_rules_is_rejected() {
    assert!(!config(5, 0, 0).has_rules());
    assert_eq!(config(5, 0, 0).validated().err(), Some(ConfigError::NoRules));
    assert_eq!(config(0, 0, 0).validated().err(), Some(ConfigError::NoRules));
}

#[test]
fn zero_interval_becomes_the_default() {
    let c = config(0, 1, 0).validated().unwrap();
    assert_eq!(c.heartbeat_interval, DEFAULT_HEARTBEAT_INTERVAL);
    assert_eq!(c.heartbeat_interval, 30);
    assert_eq!(c.alerts.len(), 1);
    assert_eq!(c.alerts[0].pattern, "a0");
    assert_eq!(c.slack_webhook_url, "hook");
    assert_eq!(c.systemd_unit, "unit");
}

#[test]
fn configured_interval_is_kept() {
    let c = config(7, 0, 2).validated().unwrap();
    assert_eq!(c.heartbeat_interval, 7);
    assert_eq!(c.heartbeats.len(), 2);
    assert_eq!(c.heartbeats[1].tolerance, 11);
    assert!(c.has_rules());
}

#[test]
fn explicit_path_is_taken_as_it_is() {
    assert_eq!(choose_path(Some("/tmp/x.toml".to_string()), &[]), Ok("/tmp/x.toml".to_string()));
    assert_eq!(
        choose_path(Some("y.toml".to_string()), &[true, true]),
        Ok("y.toml".to_string())
    );
}

#[test]
fn first_existing_default_path_is_taken() {
    assert_eq!(choose_path(None, &[true, true]), Ok("config.toml".to_string()));
    assert_eq!(choose_path(None, &[true, false]), Ok("config.toml".to_string()));
    assert_eq!(
        choose_path(None, &[false, true]),
        Ok("/etc/journal-alerts/config.toml".to_string())
    );
    assert_eq!(choose_path(None, &[false, false]), Err(ConfigError::NotFound));
    assert_eq!(choose_path(None, &[]), Err(ConfigError::NotFound));
    assert_eq!(choose_path(None, &[false]), Err(ConfigError::NotFound));
    assert_eq!(choose_path(None, &[false, false, true]), Err(ConfigError::NotFound));
}

#[test]
fn default_paths_in_order() {
    assert_eq!(default_paths(), vec!["config.toml", "/etc/journal-alerts/config.toml"]);
}

#[test]
fn config_error_messages() {
    assert_eq!(ConfigError::NotFound.message(), "No config file found");
    assert_eq!(
        ConfigError::NoRules.message(),
        "Config must contain at least one alert or heartbeat rule"
    );
}

#[test]
fn rules_for_the_matcher_keep_pattern_and_prefix() {
    let c = config(1, 2, 1);
    let alerts = c.alert_rules();
    assert_eq!(alerts.len(), 2);
    assert_eq!((alerts[1].pattern.as_str(), alerts[1].prefix.as_str()), ("a1", "A1 "));
    let heartbeats = c.heartbeat_rules();
    assert_eq!(heartbeats.len(), 1);
    assert_eq!((heartbeats[0].pattern.as_str(), heartbeats[0].prefix.as_str()), ("h0", "H0 "));
}

#[test]
fn clone_copies_every_field() {
    let c = config(3, 2, 2);
    let d = c.clone();
    assert_eq!(d.slack_webhook_url, c.slack_webhook_url);
    assert_eq!(d.systemd_unit, c.systemd_unit);
    assert_eq!(d.heartbeat_interval, 3);
    assert_eq!(d.alerts.len(), 2);
    assert_eq!(d.alerts[1].prefix, "A1 ");
    assert_eq!(d.heartbeats.len(), 2);
    assert_eq!(d.heartbeats[1].pattern, "h1");
    assert_eq!(d.heartbeats[1].tolerance, 11);
}
