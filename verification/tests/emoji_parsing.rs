use loona::emoji::Emoji;
use loona::handler::{handle_event, step, Action, GatewayEvent, ReactionData, Reply};
use loona::settings::StarboardSettings;

/// What the handling of a reaction does once the settings with `stored` are read.
fn reaction_against(stored: &str, reacted: Emoji) -> Action {
    let r = ReactionData { guild_id: Some(1), channel_id: 2, message_id: 3, emoji: reacted };
    let (state, _) = handle_event(GatewayEvent::ReactionAdd(r));
    let settings = StarboardSettings {
        guild_id: 1,
        enabled: true,
        threshold: 1,
        emoji: stored.to_string(),
        channel_id: Some(4),
    };
    step(state, Reply::Settings(settings)).1
}

#[test]
fn unicode_emoji_is_read_as_itself() {
    assert!(matches!(reaction_against("⭐", Emoji::Unicode("⭐".into())), Action::FetchMessage { .. }));
    assert!(matches!(reaction_against("⭐", Emoji::Unicode("🔥".into())), Action::Finish));
}

#[test]
fn custom_emoji_is_read_into_its_parts() {
    let pog = Emoji::Custom { animated: false, id: 600404340292059257, name: Some("pog".into()) };
    assert!(matches!(reaction_against("<:pog:600404340292059257>", pog), Action::FetchMessage { .. }));
    let dance = Emoji::Custom { animated: true, id: 42, name: Some("dance".into()) };
    assert!(matches!(reaction_against("<a:dance:42>", dance), Action::FetchMessage { .. }));
    let still = Emoji::Custom { animated: false, id: 42, name: Some("dance".into()) };
    assert!(matches!(reaction_against("<a:dance:42>", still), Action::Finish));
}

#[test]
fn malformed_stored_emoji_matches_nothing() {
    assert!(matches!(reaction_against("", Emoji::Unicode(String::new())), Action::ReportBadEmoji { .. }));
    let zero = Emoji::Custom { animated: false, id: 0, name: Some("pog".into()) };
    assert!(matches!(reaction_against("<:pog:0>", zero), Action::ReportBadEmoji { .. }));
    let open = Emoji::Unicode("<:pog:12".into());
    assert!(matches!(reaction_against("<:pog:12", open), Action::ReportBadEmoji { .. }));
}

#[test]
fn emoji_sameness_compares_every_part() {
    let a = Emoji::Custom { animated: false, id: 5, name: Some("x".to_string()) };
    let b = Emoji::Custom { animated: false, id: 5, name: Some("x".to_string()) };
    let c = Emoji::Custom { animated: true, id: 5, name: Some("x".to_string()) };
    let d = Emoji::Custom { animated: false, id: 5, name: None };
    assert!(a.same_as(&b));
    assert!(!a.same_as(&c));
    assert!(!a.same_as(&d));
    assert!(Emoji::Unicode("⭐".into()).same_as(&Emoji::Unicode("⭐".into())));
    assert!(!Emoji::Unicode("⭐".into()).same_as(&Emoji::Unicode("🔥".into())));
    assert!(!Emoji::Unicode("5".into()).same_as(&d));
}

#[test]
fn stored_emoji_that_is_no_emoji_is_reported() {
    match reaction_against("<:pog:0>", Emoji::Unicode("x".into())) {
        Action::ReportBadEmoji { guild_id, emoji } => {
            assert_eq!(guild_id, 1);
            assert_eq!(emoji, "<:pog:0>");
        }
        _ => panic!("report expected"),
    }
}

#[test]
fn custom_emoji_text_edge_forms() {
    // outer brackets trimmed, empty mark and name, a leading plus before the id
    let bare = Emoji::Custom { animated: false, id: 7, name: Some(String::new()) };
    assert!(matches!(reaction_against("<<::+7:z>>", bare), Action::FetchMessage { .. }));
    // pieces after the id are ignored
    let extra = Emoji::Custom { animated: false, id: 9, name: Some("n".into()) };
    assert!(matches!(reaction_against("<:n:9:more>", extra), Action::FetchMessage { .. }));
    // a minus sign or a missing id is no emoji
    assert!(matches!(reaction_against("<:n:-9>", Emoji::Unicode("x".into())), Action::ReportBadEmoji { .. }));
    assert!(matches!(reaction_against("<:n>", Emoji::Unicode("x".into())), Action::ReportBadEmoji { .. }));
}
