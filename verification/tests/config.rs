use milieu::config::{
    config_dir, config_path, default_base_url, default_history_limit, effective_base_url, Config,
    Profile,
};
use milieu::error::MilieuError;
use milieu::manifest::Remote;

#[test]
fn the_default_configuration() {
    let c = Config::default();
    assert_eq!(c.active_profile, "default");
    assert_eq!(c.history_limit, 12);
    assert_eq!(default_history_limit(), 12);
    assert_eq!(c.profiles.len(), 1);
    assert_eq!(c.profiles[0].0, "default");
    assert_eq!(c.profiles[0].1.base_url, "https://milieu.sh");
    assert_eq!(default_base_url(), "https://milieu.sh");
}

#[test]
fn the_address_of_a_profile() {
    let mut c = Config::default();
    c.set_base_url("work", "https://work.test".to_string());
    assert_eq!(c.base_url_for("work", None), "https://work.test");
    assert_eq!(c.base_url_for("work", Some("https://env.test")), "https://work.test");
    assert_eq!(c.base_url_for("", None), "https://milieu.sh");
    c.active_profile = "work".to_string();
    assert_eq!(c.base_url_for("", Some("https://env.test")), "https://work.test");
    assert_eq!(c.base_url_for("other", Some("https://env.test")), "https://env.test");
    assert_eq!(c.base_url_for("other", Some("  \t")), "https://milieu.sh");
    assert_eq!(c.base_url_for("other", Some("")), "https://milieu.sh");
    assert_eq!(c.base_url_for("other", None), "https://milieu.sh");
    assert_eq!(c.base_url_for("Work", None), "https://milieu.sh");
    c.set_base_url("work", "https://moved.test".to_string());
    assert_eq!(c.profiles.len(), 2);
    assert_eq!(c.base_url_for("work", None), "https://moved.test");
}

#[test]
fn a_configuration_just_read_gets_a_profile() {
    let mut empty = Config { active_profile: "x".to_string(), profiles: vec![], history_limit: 3 };
    assert!(empty.ensure_profiles());
    assert_eq!(empty.profiles[0].0, "default");
    assert_eq!(empty.active_profile, "x");
    let mut dangling = Config {
        active_profile: "x".to_string(),
        profiles: vec![("y".to_string(), Profile { base_url: "https://y.test".to_string() })],
        history_limit: 3,
    };
    assert!(dangling.ensure_profiles());
    assert_eq!(dangling.profiles.len(), 2);
    assert_eq!(dangling.base_url_for("x", None), "https://milieu.sh");
    assert!(!dangling.ensure_profiles());
    assert_eq!(dangling.profiles.len(), 2);
}

#[test]
fn where_the_configuration_lives() {
    assert_eq!(config_dir(Some("/xdg"), Some("/home/u")).unwrap(), "/xdg/milieu");
    assert_eq!(config_dir(None, Some("/home/u")).unwrap(), "/home/u/.config/milieu");
    assert_eq!(config_path(None, Some("/home/u/")).unwrap(), "/home/u/.config/milieu/config.toml");
    assert_eq!(config_path(Some("/xdg"), None).unwrap(), "/xdg/milieu/config.toml");
    assert!(matches!(config_dir(None, None), Err(MilieuError::ConfigMissing)));
    assert!(matches!(config_path(None, None), Err(MilieuError::ConfigMissing)));
}

#[test]
fn the_override_of_a_manifest_shadows_the_profile() {
    let mut m = milieu::commands::init::new_manifest("R".to_string(), "n".to_string());
    assert_eq!(effective_base_url("https://p.test".to_string(), &m), "https://p.test");
    m.remote = Some(Remote { base_url: Some("https://o.test".to_string()) });
    assert_eq!(effective_base_url("https://p.test".to_string(), &m), "https://o.test");
    m.remote = None;
    assert_eq!(effective_base_url("https://p.test".to_string(), &m), "https://p.test");
}
