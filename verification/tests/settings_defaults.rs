use loona::config::Config;
use loona::settings::{get_or_default, StarboardSettings, DEFAULT_THRESHOLD};

#[test]
fn default_settings_are_disabled_star_three() {
    let s = StarboardSettings::default_for(77);
    assert_eq!(s.guild_id, 77);
    assert!(!s.enabled);
    assert_eq!(s.threshold, 3);
    assert_eq!(DEFAULT_THRESHOLD, 3);
    assert_eq!(s.emoji, "\u{2B50}");
    assert_eq!(s.channel_id, None);
}

#[test]
fn get_or_default_keeps_stored_settings() {
    let stored = StarboardSettings {
        guild_id: 5,
        enabled: true,
        threshold: 9,
        emoji: "🔥".to_string(),
        channel_id: Some(12),
    };
    let (s, is_new) = get_or_default(Some(stored), 5);
    assert!(!is_new);
    assert!(s.enabled);
    assert_eq!(s.threshold, 9);
    assert_eq!(s.emoji, "🔥");
    assert_eq!(s.channel_id, Some(12));
}

#[test]
fn get_or_default_makes_new_defaults() {
    let (s, is_new) = get_or_default(None, 5);
    assert!(is_new);
    assert_eq!(s.guild_id, 5);
    assert!(!s.enabled);
    assert_eq!(s.threshold, 3);
    assert_eq!(s.emoji, "⭐");
    assert_eq!(s.channel_id, None);
}

#[test]
fn default_config_is_empty() {
    let c = Config::default();
    assert_eq!(c.database.url, "");
    assert_eq!(c.discord.token, "");
}
