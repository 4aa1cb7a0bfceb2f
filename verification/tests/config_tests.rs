use logradar::config::{parse_level, Config, ProfileConfig};
use logradar::parse::Level;
use logradar::theme::{next_theme_name, theme_name_exists};

#[test]
fn parse_level_variants() {
    assert_eq!(parse_level("TRACE"), Level::Trace);
    assert_eq!(parse_level("debug"), Level::Debug);
    assert_eq!(parse_level("Info"), Level::Info);
    assert_eq!(parse_level("WARN"), Level::Warn);
    assert_eq!(parse_level("WARNING"), Level::Warn);
    assert_eq!(parse_level("ERROR"), Level::Error);
    assert_eq!(parse_level("garbage"), Level::Info); // fallback
}

#[test]
fn into_profiles_adds_custom() {
    let cfg = Config {
        default_profile: None,
        profiles: vec![(
            "myapp".to_string(),
            ProfileConfig {
                min_level: "TRACE".to_string(),
                theme: "color".to_string(),
                highlights: vec!["custom".to_string()],
            },
        )],
    };
    let profiles = cfg.into_profiles();
    // 3 built-in + 1 custom
    assert_eq!(profiles.len(), 4);
    let custom = profiles.iter().find(|p| p.name == "myapp").unwrap();
    assert_eq!(custom.min_level, Level::Trace);
    assert_eq!(custom.highlights, vec!["custom"]);
    // an unknown theme name falls back to the default
    assert_eq!(custom.theme, "matrix");
}

#[test]
fn into_profiles_overrides_builtin() {
    let cfg = Config {
        default_profile: None,
        profiles: vec![(
            "default".to_string(),
            ProfileConfig {
                min_level: "ERROR".to_string(),
                theme: "mono".to_string(),
                highlights: vec!["critical".to_string()],
            },
        )],
    };
    let profiles = cfg.into_profiles();
    // Should still be 3 (override, not add)
    assert_eq!(profiles.len(), 3);
    let default = profiles.iter().find(|p| p.name == "default").unwrap();
    assert_eq!(default.min_level, Level::Error);
    assert_eq!(default.highlights, vec!["critical"]);
    assert_eq!(default.theme, "mono");
}

#[test]
fn theme_names_cycle() {
    assert!(theme_name_exists("matrix"));
    assert!(theme_name_exists("mono"));
    assert!(!theme_name_exists("color"));
    assert_eq!(next_theme_name("matrix"), "nebula");
    assert_eq!(next_theme_name("mono"), "matrix");
    assert_eq!(next_theme_name("nope"), "nebula");
}
