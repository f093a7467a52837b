use loona::commands::{apply_change, plan_command, SettingsChange, SettingsCommand};
use loona::settings::StarboardSettings;

fn base() -> StarboardSettings {
    StarboardSettings::default_for(1)
}

#[test]
fn enable_and_disable() {
    let p = plan_command(SettingsCommand::Enable);
    assert_eq!(p.reply, "Starboard enabled");
    let s = apply_change(base(), p.change.unwrap());
    assert!(s.enabled);
    let p = plan_command(SettingsCommand::Disable);
    assert_eq!(p.reply, "Starboard disabled");
    let s = apply_change(s, p.change.unwrap());
    assert!(!s.enabled);
}

#[test]
fn threshold_below_one_is_refused() {
    for v in [0i64, -1, i64::MIN] {
        let p = plan_command(SettingsCommand::Threshold(v));
        assert!(p.change.is_none());
        assert_eq!(p.reply, "Threshold must be >= 1");
    }
}

#[test]
fn threshold_is_set() {
    let p = plan_command(SettingsCommand::Threshold(1));
    assert_eq!(p.reply, "Threshold set: 1");
    let p = plan_command(SettingsCommand::Threshold(25));
    assert_eq!(p.reply, "Threshold set: 25");
    let s = apply_change(base(), p.change.unwrap());
    assert_eq!(s.threshold, 25);
    assert_eq!(s.emoji, "⭐");
    assert!(!s.enabled);
}

#[test]
fn emoji_is_set_when_recognised() {
    let p = plan_command(SettingsCommand::Emoji("🔥".to_string()));
    assert_eq!(p.reply, "Emoji set: 🔥");
    let s = apply_change(base(), p.change.unwrap());
    assert_eq!(s.emoji, "🔥");
    let p = plan_command(SettingsCommand::Emoji("<:pog:600404340292059257>".to_string()));
    assert_eq!(p.reply, "Emoji set: <:pog:600404340292059257>");
    match p.change {
        Some(SettingsChange::Emoji(e)) => assert_eq!(e, "<:pog:600404340292059257>"),
        _ => panic!("emoji change expected"),
    }
}

#[test]
fn emoji_is_refused_when_unrecognised() {
    for text in ["", "<:pog:notanumber>", "<:pog:1"] {
        let p = plan_command(SettingsCommand::Emoji(text.to_string()));
        assert!(p.change.is_none());
        assert_eq!(
            p.reply,
            "Emoji could not be recognized. Use a standard Unicode emoji or a custom server emoji."
        );
    }
}

#[test]
fn channel_is_set() {
    let p = plan_command(SettingsCommand::Channel(1122334455667788));
    assert_eq!(p.reply, "Channel set: <#1122334455667788>");
    let s = apply_change(base(), p.change.unwrap());
    assert_eq!(s.channel_id, Some(1122334455667788));
    assert_eq!(s.threshold, 3);
}
