use loona::emoji::Emoji;
use loona::handler::{
    count_reactors, handle_event, step, Action, GatewayEvent, HandlerState, ReactionData, Reply,
};
use loona::post::SourceMessage;
use loona::settings::{StarboardPost, StarboardSettings};

fn star() -> Emoji {
    Emoji::Unicode("⭐".to_string())
}

fn reaction(guild: Option<u64>, emoji: Emoji) -> ReactionData {
    ReactionData { guild_id: guild, channel_id: 22, message_id: 333, emoji }
}

fn settings(enabled: bool, channel: Option<i64>, emoji: &str, threshold: i64) -> StarboardSettings {
    StarboardSettings { guild_id: 1, enabled, threshold, emoji: emoji.to_string(), channel_id: channel }
}

fn message(bot: bool) -> SourceMessage {
    SourceMessage {
        id: 333,
        channel_id: 22,
        guild_id: Some(1),
        author_id: 9,
        author_bot: bot,
        author_name: "alice".to_string(),
        author_face: "face".to_string(),
        content: "hello".to_string(),
        timestamp: "2024-01-02T03:04:05Z".to_string(),
        first_attachment: None,
    }
}

fn post(count: i64) -> StarboardPost {
    StarboardPost {
        source_message_id: 333,
        guild_id: 1,
        source_channel_id: 22,
        starboard_message_id: 4444,
        reaction_count: count,
    }
}

/// Starts on a reaction and answers the settings; returns the state and action.
fn after_settings(s: StarboardSettings, emoji: Emoji) -> (HandlerState, Action) {
    let (state, action) = handle_event(GatewayEvent::ReactionAdd(reaction(Some(1), emoji)));
    assert!(matches!(action, Action::LoadSettings { guild_id: 1 }));
    step(state, Reply::Settings(s))
}

#[test]
fn reaction_outside_a_server_is_ignored() {
    let (_, action) = handle_event(GatewayEvent::ReactionRemove(reaction(None, star())));
    assert!(matches!(action, Action::Finish));
}

#[test]
fn other_events_are_ignored() {
    let (state, action) = handle_event(GatewayEvent::Other);
    assert!(matches!(action, Action::Finish));
    assert!(matches!(state, HandlerState::Idle));
}

#[test]
fn disabled_starboard_does_nothing() {
    let (_, a) = after_settings(settings(false, Some(50), "⭐", 1), star());
    assert!(matches!(a, Action::Finish));
}

#[test]
fn starboard_without_channel_does_nothing() {
    let (_, a) = after_settings(settings(true, None, "⭐", 1), star());
    assert!(matches!(a, Action::Finish));
}

#[test]
fn other_emoji_does_nothing() {
    let (_, a) = after_settings(settings(true, Some(50), "🔥", 1), star());
    assert!(matches!(a, Action::Finish));
}

#[test]
fn unparseable_stored_emoji_is_reported() {
    let (_, a) = after_settings(settings(true, Some(50), "", 1), Emoji::Unicode(String::new()));
    assert!(matches!(a, Action::ReportBadEmoji { guild_id: 1, .. }));
}

#[test]
fn bot_messages_are_skipped() {
    let (s, a) = after_settings(settings(true, Some(50), "⭐", 1), star());
    assert!(matches!(a, Action::FetchMessage { channel_id: 22, message_id: 333 }));
    let (_, a) = step(s, Reply::Message(message(true)));
    assert!(matches!(a, Action::Finish));
}

/// Runs a reaction up to the post lookup with the given reactors.
fn up_to_post(threshold: i64, users: Vec<u64>) -> HandlerState {
    let (s, _) = after_settings(settings(true, Some(50), "⭐", threshold), star());
    let (s, a) = step(s, Reply::Message(message(false)));
    match a {
        Action::ListReactors { channel_id, message_id, emoji } => {
            assert_eq!((channel_id, message_id), (22, 333));
            assert!(emoji.same_as(&star()));
        }
        _ => panic!("reactors expected"),
    }
    let (s, a) = step(s, Reply::Reactors(users));
    assert!(matches!(a, Action::FindPost { source_message_id: 333 }));
    s
}

#[test]
fn below_threshold_without_post_does_nothing() {
    // the author's own reaction does not count: 2 reactors, threshold 3
    let s = up_to_post(3, vec![9, 10, 11]);
    let (_, a) = step(s, Reply::Post(None));
    assert!(matches!(a, Action::Finish));
}

#[test]
fn below_threshold_removes_existing_post() {
    let s = up_to_post(3, vec![9, 10, 11]);
    let (_, a) = step(s, Reply::Post(Some(post(3))));
    assert!(matches!(
        a,
        Action::RemovePost { channel_id: 50, starboard_message_id: 4444, source_message_id: 333 }
    ));
}

#[test]
fn reaching_threshold_sends_then_saves() {
    let s = up_to_post(3, vec![10, 9, 11, 12]);
    let (s, a) = step(s, Reply::Post(None));
    match a {
        Action::SendPost { channel_id, content, embed } => {
            assert_eq!(channel_id, 50);
            assert_eq!(content, "⭐ 3 • https://discord.com/channels/1/22/333");
            assert_eq!(embed.description, "hello");
        }
        _ => panic!("send expected"),
    }
    let (s, a) = step(s, Reply::Sent(777));
    match a {
        Action::SavePost(row) => {
            assert_eq!(row.source_message_id, 333);
            assert_eq!(row.guild_id, 1);
            assert_eq!(row.source_channel_id, 22);
            assert_eq!(row.starboard_message_id, 777);
            assert_eq!(row.reaction_count, 3);
        }
        _ => panic!("save expected"),
    }
    let (_, a) = step(s, Reply::Done);
    assert!(matches!(a, Action::Finish));
}

#[test]
fn above_threshold_edits_existing_post() {
    let s = up_to_post(2, vec![10, 11, 12, 13]);
    let (_, a) = step(s, Reply::Post(Some(post(2))));
    match a {
        Action::EditPost { channel_id, starboard_message_id, content, save, .. } => {
            assert_eq!(channel_id, 50);
            assert_eq!(starboard_message_id, 4444);
            assert_eq!(content, "⭐ 4 • https://discord.com/channels/1/22/333");
            let row = save.expect("row");
            assert_eq!(row.reaction_count, 4);
            assert_eq!(row.starboard_message_id, 4444);
        }
        _ => panic!("edit expected"),
    }
}

#[test]
fn mismatched_reply_ends_handling() {
    let (s, _) = after_settings(settings(true, Some(50), "⭐", 1), star());
    let (_, a) = step(s, Reply::Sent(1));
    assert!(matches!(a, Action::Finish));
}

#[test]
fn deleted_source_removes_post() {
    let (s, a) = handle_event(GatewayEvent::MessageDelete { message_id: 333 });
    assert!(matches!(a, Action::FindPost { source_message_id: 333 }));
    let (s, a) = step(s, Reply::Post(Some(post(5))));
    assert!(matches!(a, Action::LoadSettings { guild_id: 1 }));
    let (_, a) = step(s, Reply::Settings(settings(true, Some(50), "⭐", 3)));
    assert!(matches!(
        a,
        Action::RemovePost { channel_id: 50, starboard_message_id: 4444, source_message_id: 333 }
    ));
}

#[test]
fn deleted_message_without_post_or_channel_does_nothing() {
    let (s, _) = handle_event(GatewayEvent::MessageDelete { message_id: 333 });
    let (_, a) = step(s, Reply::Post(None));
    assert!(matches!(a, Action::Finish));
    let (s, _) = handle_event(GatewayEvent::MessageDelete { message_id: 333 });
    let (s, _) = step(s, Reply::Post(Some(post(5))));
    let (_, a) = step(s, Reply::Settings(settings(true, None, "⭐", 3)));
    assert!(matches!(a, Action::Finish));
}

#[test]
fn edited_source_rewrites_post_with_stored_count() {
    let (s, a) = handle_event(GatewayEvent::MessageUpdate { message_id: 333, channel_id: 22 });
    assert!(matches!(a, Action::FindPost { source_message_id: 333 }));
    let (s, _) = step(s, Reply::Post(Some(post(6))));
    let (s, a) = step(s, Reply::Settings(settings(false, Some(50), "🔥", 3)));
    assert!(matches!(a, Action::FetchMessage { channel_id: 22, message_id: 333 }));
    let (_, a) = step(s, Reply::Message(message(false)));
    match a {
        Action::EditPost { channel_id, starboard_message_id, content, save, .. } => {
            assert_eq!(channel_id, 50);
            assert_eq!(starboard_message_id, 4444);
            assert_eq!(content, "🔥 6 • https://discord.com/channels/1/22/333");
            assert!(save.is_none());
        }
        _ => panic!("edit expected"),
    }
}

#[test]
fn count_leaves_out_the_author() {
    assert_eq!(count_reactors(&vec![], 9), 0);
    assert_eq!(count_reactors(&vec![9], 9), 0);
    assert_eq!(count_reactors(&vec![1, 9, 2, 9], 9), 2);
}
