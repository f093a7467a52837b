use vstd::prelude::*;

use crate::emoji::{parse_emoji, emoji_text, Emoji};
use crate::post::{build_embed, build_header_content, header_text, lemma_embed_contents, EmbedPlan, SourceMessage};
use crate::settings::{StarboardPost, StarboardSettings};

verus! {

/// A reaction that was added to or removed from a message.
pub struct ReactionData {
    pub guild_id: Option<u64>,
    pub channel_id: u64,
    pub message_id: u64,
    pub emoji: Emoji,
}

/// The gateway events that the starboard follows.
pub enum GatewayEvent {
    ReactionAdd(ReactionData),
    ReactionRemove(ReactionData),
    MessageDelete { message_id: u64 },
    MessageUpdate { message_id: u64, channel_id: u64 },
    Other,
}

/// What the outside world answers to an action.
pub enum Reply {
    /// The settings of a server, stored or defaults just stored.
    Settings(StarboardSettings),
    /// The message that was fetched.
    Message(SourceMessage),
    /// The ids of the users that reacted with the emoji.
    Reactors(Vec<u64>),
    /// The starboard post of a source message, if there is one.
    Post(Option<StarboardPost>),
    /// The id of the message that was sent to the starboard.
    Sent(u64),
    /// The action was done and has nothing to report.
    Done,
}

/// What the starboard asks the outside world to do next.
pub enum Action {
    /// Load the settings of a server, storing the defaults where there are none.
    LoadSettings { guild_id: i64 },
    /// Look up the starboard post of a source message.
    FindPost { source_message_id: i64 },
    /// Fetch a message.
    FetchMessage { channel_id: u64, message_id: u64 },
    /// List the users that reacted to a message with an emoji.
    ListReactors { channel_id: u64, message_id: u64, emoji: Emoji },
    /// Delete a starboard message (a failure there is ignored), then its post row.
    RemovePost { channel_id: u64, starboard_message_id: u64, source_message_id: i64 },
    /// Edit a starboard message, then store its post row where one is given.
    EditPost {
        channel_id: u64,
        starboard_message_id: u64,
        content: String,
        embed: EmbedPlan,
        save: Option<StarboardPost>,
    },
    /// Send a message to the starboard channel.
    SendPost { channel_id: u64, content: String, embed: EmbedPlan },
    /// Store a post row; on a row for the same source message, update its count.
    SavePost(StarboardPost),
    /// Report that a server's stored emoji is no emoji; nothing more to do.
    ReportBadEmoji { guild_id: u64, emoji: String },
    /// Nothing more to do.
    Finish,
}

/// Where the handling of a reaction stands.
pub enum ReactionFlow {
    AwaitSettings { reaction: ReactionData, guild_id: u64 },
    AwaitMessage { guild_id: u64, settings: StarboardSettings, target: Emoji, channel_id: i64 },
    AwaitReactors { guild_id: u64, settings: StarboardSettings, channel_id: i64, message: SourceMessage },
    AwaitPost {
        guild_id: u64,
        settings: StarboardSettings,
        channel_id: i64,
        message: SourceMessage,
        count: i64,
    },
    AwaitSent { guild_id: u64, message: SourceMessage, count: i64 },
    Finished,
}

/// Where the handling of a deleted source message stands.
pub enum GoneFlow {
    AwaitPost,
    AwaitSettings { post: StarboardPost },
    Finished,
}

/// Where the handling of an edited source message stands.
pub enum EditedFlow {
    AwaitPost { channel_id: u64, message_id: u64 },
    AwaitSettings { post: StarboardPost, channel_id: u64, message_id: u64 },
    AwaitMessage { post: StarboardPost, settings: StarboardSettings, starboard_channel_id: i64 },
    Finished,
}

/// Where the handling of one gateway event stands.
pub enum HandlerState {
    Reaction(ReactionFlow),
    Gone(GoneFlow),
    Edited(EditedFlow),
    Idle,
}

/// The number of users among `users` other than the author.
pub open spec fn reactors_besides(users: Seq<u64>, author: u64) -> nat {
    users.filter(other_than(author)).len()
}

/// Whether a user is someone other than `author`.
pub open spec fn other_than(author: u64) -> spec_fn(u64) -> bool {
    |u: u64| u != author
}

/// The post row of a message on the starboard.
pub open spec fn is_post_record(
    post: StarboardPost,
    guild_id: u64,
    message: SourceMessage,
    starboard_message_id: i64,
    count: i64,
) -> bool {
    &&& post.source_message_id == message.id as i64
    &&& post.guild_id == guild_id as i64
    &&& post.source_channel_id == message.channel_id as i64
    &&& post.starboard_message_id == starboard_message_id
    &&& post.reaction_count == count
}

/// Whether a reply can stand as the outside world's answer: Discord ids are
/// never zero.
pub open spec fn reply_valid(reply: Reply) -> bool {
    reply matches Reply::Message(m) ==> m.ids_valid()
}

impl ReactionFlow {
    pub open spec fn valid(self) -> bool {
        match self {
            ReactionFlow::AwaitReactors { message, .. } => message.ids_valid(),
            ReactionFlow::AwaitPost { message, .. } => message.ids_valid(),
            ReactionFlow::AwaitSent { message, .. } => message.ids_valid(),
            _ => true,
        }
    }

    /// How many outside actions are left at most.
    pub open spec fn remaining(self) -> nat {
        match self {
            ReactionFlow::AwaitSettings { .. } => 5,
            ReactionFlow::AwaitMessage { .. } => 4,
            ReactionFlow::AwaitReactors { .. } => 3,
            ReactionFlow::AwaitPost { .. } => 2,
            ReactionFlow::AwaitSent { .. } => 1,
            ReactionFlow::Finished => 0,
        }
    }
}

impl GoneFlow {
    pub open spec fn remaining(self) -> nat {
        match self {
            GoneFlow::AwaitPost => 2,
            GoneFlow::AwaitSettings { .. } => 1,
            GoneFlow::Finished => 0,
        }
    }
}

impl EditedFlow {
    pub open spec fn remaining(self) -> nat {
        match self {
            EditedFlow::AwaitPost { .. } => 3,
            EditedFlow::AwaitSettings { .. } => 2,
            EditedFlow::AwaitMessage { .. } => 1,
            EditedFlow::Finished => 0,
        }
    }
}

/// The number of users in `users` other than `author`.
pub fn count_reactors(users: &Vec<u64>, author: u64) -> (r: usize)
    ensures
        r == reactors_besides(users@, author),
{
    let mut count: usize = 0;
    let mut i: usize = 0;
    while i < users.len()
        invariant
            i <= users.len(),
            count == reactors_besides(users@.take(i as int), author),
            count <= i,
        decreases users.len() - i,
    {
        proof {
            let f = other_than(author);
            assert(users@.take(i + 1) =~= users@.take(i as int).push(users@[i as int]));
            users@.take(i as int).lemma_filter_push(users@[i as int], f);
        }
        if users[i] != author {
            count = count + 1;
        }
        i = i + 1;
    }
    proof {
        assert(users@.take(users.len() as int) =~= users@);
    }
    count
}

/// The post row of a message that stands on the starboard.
pub fn post_record(guild_id: u64, message: &SourceMessage, starboard_message_id: i64, count: i64) -> (r: StarboardPost)
    ensures
        is_post_record(r, guild_id, *message, starboard_message_id, count),
{
    StarboardPost {
        source_message_id: message.id as i64,
        guild_id: guild_id as i64,
        source_channel_id: message.channel_id as i64,
        starboard_message_id,
        reaction_count: count,
    }
}

/// How handling a reaction begins: a reaction outside a server is ignored;
/// otherwise the server's settings are loaded.
pub fn start_reaction_change(reaction: ReactionData) -> (r: (ReactionFlow, Action))
    ensures
        reaction.guild_id is None ==> r.0 is Finished && r.1 is Finish,
        reaction.guild_id matches Some(g) ==> {
            &&& r.0 == (ReactionFlow::AwaitSettings { reaction, guild_id: g })
            &&& r.1 == (Action::LoadSettings { guild_id: g as i64 })
        },
{
    match reaction.guild_id {
        None => (ReactionFlow::Finished, Action::Finish),
        Some(g) => (ReactionFlow::AwaitSettings { reaction, guild_id: g }, Action::LoadSettings { guild_id: g as i64 }),
    }
}

/// What one step of handling a reaction does, stage by stage.
pub open spec fn reaction_step(flow: ReactionFlow, reply: Reply, next: ReactionFlow, action: Action) -> bool {
    match (flow, reply) {
        (ReactionFlow::AwaitSettings { reaction, guild_id }, Reply::Settings(s)) => {
            if !s.enabled || s.channel_id is None || (emoji_text(s.emoji@) is Some
                && emoji_text(s.emoji@) != Some(reaction.emoji@)) {
                next is Finished && action is Finish
            } else if emoji_text(s.emoji@) is None {
                &&& next is Finished
                &&& action matches Action::ReportBadEmoji { guild_id: g, emoji } && g == guild_id && emoji@ == s.emoji@
            } else {
                &&& next matches ReactionFlow::AwaitMessage { guild_id: g, settings, target, channel_id }
                    && g == guild_id && settings == s && Some(target@) == emoji_text(s.emoji@)
                    && Some(channel_id) == s.channel_id
                &&& action == (Action::FetchMessage {
                    channel_id: reaction.channel_id,
                    message_id: reaction.message_id,
                })
            }
        },
        (ReactionFlow::AwaitMessage { guild_id, settings, target, channel_id }, Reply::Message(m)) => {
            if m.author_bot {
                next is Finished && action is Finish
            } else {
                &&& next == (ReactionFlow::AwaitReactors { guild_id, settings, channel_id, message: m })
                &&& action == (Action::ListReactors { channel_id: m.channel_id, message_id: m.id, emoji: target })
            }
        },
        (ReactionFlow::AwaitReactors { guild_id, settings, channel_id, message }, Reply::Reactors(users)) => {
            &&& next == (ReactionFlow::AwaitPost {
                guild_id,
                settings,
                channel_id,
                message,
                count: reactors_besides(users@, message.author_id) as i64,
            })
            &&& action == (Action::FindPost { source_message_id: message.id as i64 })
        },
        (ReactionFlow::AwaitPost { guild_id, settings, channel_id, message, count }, Reply::Post(existing)) => {
            if count < settings.threshold {
                &&& next is Finished
                &&& match existing {
                    Some(p) => action == (Action::RemovePost {
                        channel_id: channel_id as u64,
                        starboard_message_id: p.starboard_message_id as u64,
                        source_message_id: p.source_message_id,
                    }),
                    None => action is Finish,
                }
            } else {
                match existing {
                    Some(p) => {
                        &&& next is Finished
                        &&& action matches Action::EditPost { channel_id: c, starboard_message_id, content, embed, save }
                            && c == channel_id as u64
                            && starboard_message_id == p.starboard_message_id as u64
                            && content@ == header_text(message, count, settings.emoji@)
                            && embed.shows(message)
                            && (save matches Some(row)
                            && is_post_record(row, guild_id, message, p.starboard_message_id, count))
                    },
                    None => {
                        &&& next == (ReactionFlow::AwaitSent { guild_id, message, count })
                        &&& action matches Action::SendPost { channel_id: c, content, embed }
                            && c == channel_id as u64
                            && content@ == header_text(message, count, settings.emoji@)
                            && embed.shows(message)
                    },
                }
            }
        },
        (ReactionFlow::AwaitSent { guild_id, message, count }, Reply::Sent(id)) => {
            &&& next is Finished
            &&& action matches Action::SavePost(row) && is_post_record(row, guild_id, message, id as i64, count)
        },
        _ => next is Finished && action is Finish,
    }
}

/// One step of handling a reaction: given where it stands and what the outside
/// world answered, where it goes and what to do next.
///
/// The reaction counts only where the starboard is enabled, has a channel, and
/// its emoji is one and is the reaction's emoji; messages by bots are skipped.
/// The count leaves out the author's own reaction. Below the threshold an
/// existing starboard post is removed; from the threshold on, the post is
/// edited (and its count stored) where it exists, and sent and then stored
/// where it does not. A reply that does not fit the stage ends the handling.
pub fn on_reaction_change(flow: ReactionFlow, reply: Reply) -> (r: (ReactionFlow, Action))
    requires
        flow.valid(),
        reply_valid(reply),
    ensures
        r.0.valid(),
        r.0.remaining() < flow.remaining() || (flow is Finished && r.0 is Finished),
        (r.1 is Finish || r.1 is ReportBadEmoji) ==> r.0 is Finished,
        reaction_step(flow, reply, r.0, r.1),
{
    match (flow, reply) {
        (ReactionFlow::AwaitSettings { reaction, guild_id }, Reply::Settings(s)) => {
            if !s.enabled {
                return (ReactionFlow::Finished, Action::Finish);
            }
            let channel_id = match s.channel_id {
                Some(c) => c,
                None => {
                    return (ReactionFlow::Finished, Action::Finish);
                },
            };
            let target = match parse_emoji(s.emoji.as_str()) {
                Some(t) => t,
                None => {
                    return (ReactionFlow::Finished, Action::ReportBadEmoji { guild_id, emoji: s.emoji });
                },
            };
            if !reaction.emoji.same_as(&target) {
                return (ReactionFlow::Finished, Action::Finish);
            }
            (
                ReactionFlow::AwaitMessage { guild_id, settings: s, target, channel_id },
                Action::FetchMessage { channel_id: reaction.channel_id, message_id: reaction.message_id },
            )
        },
        (ReactionFlow::AwaitMessage { guild_id, settings, target, channel_id }, Reply::Message(m)) => {
            if m.author_bot {
                return (ReactionFlow::Finished, Action::Finish);
            }
            let action = Action::ListReactors { channel_id: m.channel_id, message_id: m.id, emoji: target };
            (ReactionFlow::AwaitReactors { guild_id, settings, channel_id, message: m }, action)
        },
        (ReactionFlow::AwaitReactors { guild_id, settings, channel_id, message }, Reply::Reactors(users)) => {
            let count = count_reactors(&users, message.author_id) as i64;
            let action = Action::FindPost { source_message_id: message.id as i64 };
            (ReactionFlow::AwaitPost { guild_id, settings, channel_id, message, count }, action)
        },
        (ReactionFlow::AwaitPost { guild_id, settings, channel_id, message, count }, Reply::Post(existing)) => {
            if count < settings.threshold {
                match existing {
                    Some(p) => (
                        ReactionFlow::Finished,
                        Action::RemovePost {
                            channel_id: channel_id as u64,
                            starboard_message_id: p.starboard_message_id as u64,
                            source_message_id: p.source_message_id,
                        },
                    ),
                    None => (ReactionFlow::Finished, Action::Finish),
                }
            } else {
                let content = build_header_content(&message, count, settings.emoji.as_str());
                let embed = build_embed(&message);
                match existing {
                    Some(p) => {
                        let row = post_record(guild_id, &message, p.starboard_message_id, count);
                        (
                            ReactionFlow::Finished,
                            Action::EditPost {
                                channel_id: channel_id as u64,
                                starboard_message_id: p.starboard_message_id as u64,
                                content,
                                embed,
                                save: Some(row),
                            },
                        )
                    },
                    None => (
                        ReactionFlow::AwaitSent { guild_id, message, count },
                        Action::SendPost { channel_id: channel_id as u64, content, embed },
                    ),
                }
            }
        },
        (ReactionFlow::AwaitSent { guild_id, message, count }, Reply::Sent(id)) => {
            let row = post_record(guild_id, &message, id as i64, count);
            (ReactionFlow::Finished, Action::SavePost(row))
        },
        _ => (ReactionFlow::Finished, Action::Finish),
    }
}


/// How handling a deleted message begins: its starboard post is looked up.
pub fn start_source_message_gone(message_id: u64) -> (r: (GoneFlow, Action))
    ensures
        r.0 is AwaitPost,
        r.1 == (Action::FindPost { source_message_id: message_id as i64 }),
{
    (GoneFlow::AwaitPost, Action::FindPost { source_message_id: message_id as i64 })
}

/// What one step of handling a deleted source message does.
pub open spec fn gone_step(flow: GoneFlow, reply: Reply, next: GoneFlow, action: Action) -> bool {
    match (flow, reply) {
        (GoneFlow::AwaitPost, Reply::Post(Some(p))) => {
            &&& next == (GoneFlow::AwaitSettings { post: p })
            &&& action == (Action::LoadSettings { guild_id: p.guild_id })
        },
        (GoneFlow::AwaitSettings { post }, Reply::Settings(s)) => {
            &&& next is Finished
            &&& match s.channel_id {
                Some(c) => action == (Action::RemovePost {
                    channel_id: c as u64,
                    starboard_message_id: post.starboard_message_id as u64,
                    source_message_id: post.source_message_id,
                }),
                None => action is Finish,
            }
        },
        _ => next is Finished && action is Finish,
    }
}

/// One step of handling a deleted source message: where it has a starboard
/// post and its server a starboard channel, the post is removed.
pub fn on_source_message_gone(flow: GoneFlow, reply: Reply) -> (r: (GoneFlow, Action))
    ensures
        r.0.remaining() < flow.remaining() || (flow is Finished && r.0 is Finished),
        r.1 is Finish ==> r.0 is Finished,
        gone_step(flow, reply, r.0, r.1),
{
    match (flow, reply) {
        (GoneFlow::AwaitPost, Reply::Post(Some(p))) => {
            let action = Action::LoadSettings { guild_id: p.guild_id };
            (GoneFlow::AwaitSettings { post: p }, action)
        },
        (GoneFlow::AwaitSettings { post }, Reply::Settings(s)) => {
            match s.channel_id {
                Some(c) => (
                    GoneFlow::Finished,
                    Action::RemovePost {
                        channel_id: c as u64,
                        starboard_message_id: post.starboard_message_id as u64,
                        source_message_id: post.source_message_id,
                    },
                ),
                None => (GoneFlow::Finished, Action::Finish),
            }
        },
        _ => (GoneFlow::Finished, Action::Finish),
    }
}

/// How handling an edited message begins: its starboard post is looked up.
pub fn start_source_message_edited(message_id: u64, channel_id: u64) -> (r: (EditedFlow, Action))
    ensures
        r.0 == (EditedFlow::AwaitPost { channel_id, message_id }),
        r.1 == (Action::FindPost { source_message_id: message_id as i64 }),
{
    (EditedFlow::AwaitPost { channel_id, message_id }, Action::FindPost { source_message_id: message_id as i64 })
}

/// What one step of handling an edited source message does.
pub open spec fn edited_step(flow: EditedFlow, reply: Reply, next: EditedFlow, action: Action) -> bool {
    match (flow, reply) {
        (EditedFlow::AwaitPost { channel_id, message_id }, Reply::Post(Some(p))) => {
            &&& next == (EditedFlow::AwaitSettings { post: p, channel_id, message_id })
            &&& action == (Action::LoadSettings { guild_id: p.guild_id })
        },
        (EditedFlow::AwaitSettings { post, channel_id, message_id }, Reply::Settings(s)) => {
            match s.channel_id {
                Some(c) => {
                    &&& next == (EditedFlow::AwaitMessage { post, settings: s, starboard_channel_id: c })
                    &&& action == (Action::FetchMessage { channel_id, message_id })
                },
                None => next is Finished && action is Finish,
            }
        },
        (EditedFlow::AwaitMessage { post, settings, starboard_channel_id }, Reply::Message(m)) => {
            &&& next is Finished
            &&& action matches Action::EditPost { channel_id: c, starboard_message_id, content, embed, save }
                && c == starboard_channel_id as u64
                && starboard_message_id == post.starboard_message_id as u64
                && content@ == header_text(m, post.reaction_count, settings.emoji@)
                && embed.shows(m)
                && save is None
        },
        _ => next is Finished && action is Finish,
    }
}

/// One step of handling an edited source message: where it has a starboard
/// post and its server a starboard channel, the message is fetched again and
/// the starboard message rewritten with the stored count; nothing is stored.
pub fn on_source_message_edited(flow: EditedFlow, reply: Reply) -> (r: (EditedFlow, Action))
    requires
        reply_valid(reply),
    ensures
        r.0.remaining() < flow.remaining() || (flow is Finished && r.0 is Finished),
        r.1 is Finish ==> r.0 is Finished,
        edited_step(flow, reply, r.0, r.1),
{
    match (flow, reply) {
        (EditedFlow::AwaitPost { channel_id, message_id }, Reply::Post(Some(p))) => {
            let action = Action::LoadSettings { guild_id: p.guild_id };
            (EditedFlow::AwaitSettings { post: p, channel_id, message_id }, action)
        },
        (EditedFlow::AwaitSettings { post, channel_id, message_id }, Reply::Settings(s)) => {
            match s.channel_id {
                Some(c) => (
                    EditedFlow::AwaitMessage { post, settings: s, starboard_channel_id: c },
                    Action::FetchMessage { channel_id, message_id },
                ),
                None => (EditedFlow::Finished, Action::Finish),
            }
        },
        (EditedFlow::AwaitMessage { post, settings, starboard_channel_id }, Reply::Message(m)) => {
            let content = build_header_content(&m, post.reaction_count, settings.emoji.as_str());
            let embed = build_embed(&m);
            (
                EditedFlow::Finished,
                Action::EditPost {
                    channel_id: starboard_channel_id as u64,
                    starboard_message_id: post.starboard_message_id as u64,
                    content,
                    embed,
                    save: None,
                },
            )
        },
        _ => (EditedFlow::Finished, Action::Finish),
    }
}

impl HandlerState {
    pub open spec fn valid(self) -> bool {
        self matches HandlerState::Reaction(f) ==> f.valid()
    }

    /// How many outside actions are left at most.
    pub open spec fn remaining(self) -> nat {
        match self {
            HandlerState::Reaction(f) => f.remaining(),
            HandlerState::Gone(f) => f.remaining(),
            HandlerState::Edited(f) => f.remaining(),
            HandlerState::Idle => 0,
        }
    }

    pub open spec fn is_finished(self) -> bool {
        match self {
            HandlerState::Reaction(f) => f is Finished,
            HandlerState::Gone(f) => f is Finished,
            HandlerState::Edited(f) => f is Finished,
            HandlerState::Idle => true,
        }
    }
}

/// How the starboard begins to handle a gateway event: an added or removed
/// reaction starts the reaction handling, a deleted or edited message the
/// handling of a source message; other events are ignored.
pub fn handle_event(event: GatewayEvent) -> (r: (HandlerState, Action))
    ensures
        r.0.valid(),
        r.1 is Finish ==> r.0.is_finished(),
        match event {
            GatewayEvent::ReactionAdd(reaction) | GatewayEvent::ReactionRemove(reaction) => {
                match reaction.guild_id {
                    None => r.0 == HandlerState::Reaction(ReactionFlow::Finished) && r.1 is Finish,
                    Some(g) => {
                        &&& r.0 == HandlerState::Reaction(ReactionFlow::AwaitSettings { reaction, guild_id: g })
                        &&& r.1 == (Action::LoadSettings { guild_id: g as i64 })
                    },
                }
            },
            GatewayEvent::MessageDelete { message_id } => {
                &&& r.0 == HandlerState::Gone(GoneFlow::AwaitPost)
                &&& r.1 == (Action::FindPost { source_message_id: message_id as i64 })
            },
            GatewayEvent::MessageUpdate { message_id, channel_id } => {
                &&& r.0 == HandlerState::Edited(EditedFlow::AwaitPost { channel_id, message_id })
                &&& r.1 == (Action::FindPost { source_message_id: message_id as i64 })
            },
            GatewayEvent::Other => r.0 == HandlerState::Idle && r.1 is Finish,
        },
{
    match event {
        GatewayEvent::ReactionAdd(reaction) => {
            let (f, a) = start_reaction_change(reaction);
            (HandlerState::Reaction(f), a)
        },
        GatewayEvent::ReactionRemove(reaction) => {
            let (f, a) = start_reaction_change(reaction);
            (HandlerState::Reaction(f), a)
        },
        GatewayEvent::MessageDelete { message_id } => {
            let (f, a) = start_source_message_gone(message_id);
            (HandlerState::Gone(f), a)
        },
        GatewayEvent::MessageUpdate { message_id, channel_id } => {
            let (f, a) = start_source_message_edited(message_id, channel_id);
            (HandlerState::Edited(f), a)
        },
        GatewayEvent::Other => (HandlerState::Idle, Action::Finish),
    }
}

/// One step of handling a gateway event: the step of the flow it stands in.
pub fn step(state: HandlerState, reply: Reply) -> (r: (HandlerState, Action))
    requires
        state.valid(),
        reply_valid(reply),
    ensures
        r.0.valid(),
        r.0.remaining() < state.remaining() || (state.is_finished() && r.0.is_finished()),
        (r.1 is Finish || r.1 is ReportBadEmoji) ==> r.0.is_finished(),
        match state {
            HandlerState::Reaction(f) => r.0 matches HandlerState::Reaction(g) && reaction_step(f, reply, g, r.1),
            HandlerState::Gone(f) => r.0 matches HandlerState::Gone(g) && gone_step(f, reply, g, r.1),
            HandlerState::Edited(f) => r.0 matches HandlerState::Edited(g) && edited_step(f, reply, g, r.1),
            HandlerState::Idle => r.0 == HandlerState::Idle && r.1 is Finish,
        },
{
    match state {
        HandlerState::Reaction(f) => {
            let (g, a) = on_reaction_change(f, reply);
            (HandlerState::Reaction(g), a)
        },
        HandlerState::Gone(f) => {
            let (g, a) = on_source_message_gone(f, reply);
            (HandlerState::Gone(g), a)
        },
        HandlerState::Edited(f) => {
            let (g, a) = on_source_message_edited(f, reply);
            (HandlerState::Edited(g), a)
        },
        HandlerState::Idle => (HandlerState::Idle, Action::Finish),
    }
}

/// A message is sent to or edited on the starboard only when the reactions of
/// users other than its author reach the server's threshold.
pub proof fn lemma_posted_only_at_threshold(flow: ReactionFlow, reply: Reply, next: ReactionFlow, action: Action)
    requires
        reaction_step(flow, reply, next, action),
        action is SendPost || action is EditPost,
    ensures
        flow matches ReactionFlow::AwaitPost { settings, count, .. } && count >= settings.threshold,
{
}

/// A reaction change removes a starboard post only when the count has fallen
/// below the threshold, and only a post that exists.
pub proof fn lemma_removed_only_below_threshold(flow: ReactionFlow, reply: Reply, next: ReactionFlow, action: Action)
    requires
        reaction_step(flow, reply, next, action),
        action is RemovePost,
    ensures
        flow matches ReactionFlow::AwaitPost { settings, count, .. } && count < settings.threshold,
        reply matches Reply::Post(Some(p)) && action->RemovePost_source_message_id == p.source_message_id
            && action->RemovePost_starboard_message_id == p.starboard_message_id as u64,
{
}

/// A disabled starboard, one without a channel, and a reaction with another
/// emoji than the server's end the handling of a reaction at once; a stored
/// emoji that is no emoji is reported as it ends.
pub proof fn lemma_ignored_reactions(reaction: ReactionData, guild_id: u64, s: StarboardSettings, next: ReactionFlow, action: Action)
    requires
        reaction_step(ReactionFlow::AwaitSettings { reaction, guild_id }, Reply::Settings(s), next, action),
        !s.enabled || s.channel_id is None || emoji_text(s.emoji@) != Some(reaction.emoji@),
    ensures
        next is Finished,
        action is Finish || (action is ReportBadEmoji && s.enabled && s.channel_id is Some && emoji_text(s.emoji@) is None),
{
}

/// Reactions to a message by a bot never bring it to the starboard.
pub proof fn lemma_bots_ignored(flow: ReactionFlow, m: SourceMessage, next: ReactionFlow, action: Action)
    requires
        flow is AwaitMessage,
        reaction_step(flow, Reply::Message(m), next, action),
        m.author_bot,
    ensures
        next is Finished,
        action is Finish,
{
}

/// The count stored with an edited starboard post is the number of users
/// other than the author that reacted with the emoji.
pub proof fn lemma_edited_post_count(
    flow: ReactionFlow,
    users: Vec<u64>,
    mid: ReactionFlow,
    action1: Action,
    existing: Option<StarboardPost>,
    next: ReactionFlow,
    action2: Action,
)
    requires
        reaction_step(flow, Reply::Reactors(users), mid, action1),
        reaction_step(mid, Reply::Post(existing), next, action2),
        action2 matches Action::EditPost { save: Some(_), .. },
    ensures
        flow matches ReactionFlow::AwaitReactors { message, .. }
            && action2->EditPost_save->Some_0.reaction_count == reactors_besides(users@, message.author_id) as i64
            && action2->EditPost_save->Some_0.source_message_id == message.id as i64,
{
}

/// The count stored with a newly sent starboard post is the number of users
/// other than the author that reacted with the emoji, and the post records the
/// id of the message that was sent.
pub proof fn lemma_sent_post_count(
    flow: ReactionFlow,
    users: Vec<u64>,
    s1: ReactionFlow,
    a1: Action,
    existing: Option<StarboardPost>,
    s2: ReactionFlow,
    a2: Action,
    sent: u64,
    s3: ReactionFlow,
    a3: Action,
)
    requires
        reaction_step(flow, Reply::Reactors(users), s1, a1),
        reaction_step(s1, Reply::Post(existing), s2, a2),
        a2 is SendPost,
        reaction_step(s2, Reply::Sent(sent), s3, a3),
    ensures
        flow matches ReactionFlow::AwaitReactors { message, .. }
            && a3 matches Action::SavePost(row)
            && row.reaction_count == reactors_besides(users@, message.author_id) as i64
            && row.starboard_message_id == sent as i64
            && row.source_message_id == message.id as i64,
{
}

/// The posts table: rows by source message id.
pub open spec fn lookup_post(table: Map<i64, StarboardPost>, source_message_id: i64) -> Option<StarboardPost> {
    if table.contains_key(source_message_id) {
        Some(table[source_message_id])
    } else {
        None
    }
}

/// Each row of the posts table stands under its own source message id.
pub open spec fn keyed_by_source(table: Map<i64, StarboardPost>) -> bool {
    forall|k: i64| table.contains_key(k) ==> #[trigger] table[k].source_message_id == k
}

/// Storing a post row: a new row is inserted; a row of the same source
/// message gets the new count and keeps the rest.
pub open spec fn upsert_post(table: Map<i64, StarboardPost>, row: StarboardPost) -> Map<i64, StarboardPost> {
    let k = row.source_message_id;
    if table.contains_key(k) {
        table.insert(k, StarboardPost { reaction_count: row.reaction_count, ..table[k] })
    } else {
        table.insert(k, row)
    }
}

/// What an action does to the posts table.
pub open spec fn posts_after(table: Map<i64, StarboardPost>, action: Action) -> Map<i64, StarboardPost> {
    match action {
        Action::RemovePost { source_message_id, .. } => table.remove(source_message_id),
        Action::SavePost(row) => upsert_post(table, row),
        Action::EditPost { save: Some(row), .. } => upsert_post(table, row),
        _ => table,
    }
}

/// After a reaction to a message that counts (the starboard enabled, with a
/// channel, the reaction with its emoji, the message not by a bot) has been
/// handled, with the post looked up in the posts table and the actions done to
/// it, the table holds a row for the message exactly when the reactions of
/// users other than its author reach the threshold, with that count; no other
/// row changes, and one row at most stands for a message. The last answer
/// stands for the id of the message sent to the starboard, where one was sent.
pub proof fn lemma_posts_follow_threshold(
    reaction: ReactionData,
    guild_id: u64,
    s: StarboardSettings,
    f1: ReactionFlow,
    a1: Action,
    m: SourceMessage,
    f2: ReactionFlow,
    a2: Action,
    users: Vec<u64>,
    f3: ReactionFlow,
    a3: Action,
    table: Map<i64, StarboardPost>,
    f4: ReactionFlow,
    a4: Action,
    sent: u64,
    f5: ReactionFlow,
    a5: Action,
)
    requires
        keyed_by_source(table),
        s.enabled,
        s.channel_id is Some,
        emoji_text(s.emoji@) == Some(reaction.emoji@),
        !m.author_bot,
        reaction_step(ReactionFlow::AwaitSettings { reaction, guild_id }, Reply::Settings(s), f1, a1),
        reaction_step(f1, Reply::Message(m), f2, a2),
        reaction_step(f2, Reply::Reactors(users), f3, a3),
        reaction_step(f3, Reply::Post(lookup_post(table, m.id as i64)), f4, a4),
        reaction_step(f4, Reply::Sent(sent), f5, a5),
    ensures
        ({
            let after = posts_after(posts_after(table, a4), a5);
            let k = m.id as i64;
            let count = reactors_besides(users@, m.author_id) as i64;
            &&& after.contains_key(k) <==> count >= s.threshold
            &&& after.contains_key(k) ==> after[k].reaction_count == count
            &&& keyed_by_source(after)
            &&& forall|j: i64| j != k ==> (#[trigger] after.contains_key(j) == table.contains_key(j)
                && (table.contains_key(j) ==> after[j] == table[j]))
        }),
        f5 is Finished,
{
    let k = m.id as i64;
    let after = posts_after(posts_after(table, a4), a5);
    assert(forall|j: i64| j != k ==> (#[trigger] after.contains_key(j) == table.contains_key(j)
        && (table.contains_key(j) ==> after[j] == table[j])));
}

/// What it is for an embed to show a message, stated from its parts: the
/// message's author, avatar, text and time in colour 0xE8B86D, and its first
/// attachment as the image exactly when its content type begins with `image/`.
pub open spec fn embed_of_message(embed: EmbedPlan, message: SourceMessage) -> bool {
    &&& embed.colour == 0xE8B86Du32
    &&& embed.author_name@ == message.author_name@
    &&& embed.author_icon@ == message.author_face@
    &&& embed.description@ == message.content@
    &&& embed.timestamp@ == message.timestamp@
    &&& match message.first_attachment {
        Some(a) => if (a.content_type matches Some(ct) && ct@.len() >= 6
            && ct@.subrange(0, 6) == seq!['i', 'm', 'a', 'g', 'e', '/']) {
            embed.image matches Some(url) && url@ == a.url@
        } else {
            embed.image is None
        },
        None => embed.image is None,
    }
}

/// A starboard message for the message a reaction flow stands at: on the
/// server's channel, headed by the server's emoji, the count and the link, with
/// the embed of the message itself.
pub open spec fn post_for(flow: ReactionFlow, channel: u64, content: String, embed: EmbedPlan) -> bool {
    match flow {
        ReactionFlow::AwaitPost { settings, channel_id, message, count, .. } => {
            &&& channel == channel_id as u64
            &&& content@ == header_text(message, count, settings.emoji@)
            &&& embed_of_message(embed, message)
        },
        _ => false,
    }
}

/// Every starboard message that a reaction sends or edits carries the embed
/// of the source message itself, its image included, with the header of the
/// server's emoji, the count and the message's link, on the server's channel.
pub proof fn lemma_reaction_post_shows_message(flow: ReactionFlow, reply: Reply, next: ReactionFlow, action: Action)
    requires
        reaction_step(flow, reply, next, action),
    ensures
        action matches Action::SendPost { channel_id, content, embed } ==> post_for(flow, channel_id, content, embed),
        action matches Action::EditPost { channel_id, content, embed, .. } ==> post_for(flow, channel_id, content, embed),
{
    match (flow, action) {
        (ReactionFlow::AwaitPost { message, .. }, Action::SendPost { embed, .. }) => {
            lemma_embed_contents(embed, message);
        },
        (ReactionFlow::AwaitPost { message, .. }, Action::EditPost { embed, .. }) => {
            lemma_embed_contents(embed, message);
        },
        _ => {},
    }
}

/// A deleted or edited message loads the settings of the server its starboard
/// post belongs to.
pub proof fn lemma_settings_of_the_right_server(
    post: StarboardPost,
    channel_id: u64,
    message_id: u64,
    g: (GoneFlow, Action),
    e: (EditedFlow, Action),
)
    requires
        gone_step(GoneFlow::AwaitPost, Reply::Post(Some(post)), g.0, g.1),
        edited_step(EditedFlow::AwaitPost { channel_id, message_id }, Reply::Post(Some(post)), e.0, e.1),
    ensures
        g.1 == (Action::LoadSettings { guild_id: post.guild_id }),
        e.1 == (Action::LoadSettings { guild_id: post.guild_id }),
{
}

/// Handling an edited source message that has a starboard post, with the
/// settings of the server asked for and a starboard channel there: the post's
/// server is the one asked for, and its starboard message is rewritten on that
/// channel with the stored count and the embed of the message as it now is;
/// nothing is stored.
pub proof fn lemma_edited_message_rewritten(
    channel_id: u64,
    message_id: u64,
    post: StarboardPost,
    f1: EditedFlow,
    a1: Action,
    s: StarboardSettings,
    f2: EditedFlow,
    a2: Action,
    m: SourceMessage,
    f3: EditedFlow,
    a3: Action,
)
    requires
        edited_step(EditedFlow::AwaitPost { channel_id, message_id }, Reply::Post(Some(post)), f1, a1),
        a1 is LoadSettings && s.guild_id == a1->LoadSettings_guild_id,
        s.channel_id is Some,
        edited_step(f1, Reply::Settings(s), f2, a2),
        edited_step(f2, Reply::Message(m), f3, a3),
    ensures
        s.guild_id == post.guild_id,
        a2 == (Action::FetchMessage { channel_id, message_id }),
        a3 matches Action::EditPost { channel_id: c, starboard_message_id, content, embed, save }
            && c == s.channel_id->Some_0 as u64
            && starboard_message_id == post.starboard_message_id as u64
            && content@ == header_text(m, post.reaction_count, s.emoji@)
            && embed_of_message(embed, m)
            && save is None,
        f3 is Finished,
{
    if let Action::EditPost { embed, .. } = a3 {
        lemma_embed_contents(embed, m);
    }
}

/// The count of reactors leaves the author out and counts everyone else once
/// per reaction: none for no users, the same after the author, one more after
/// anyone else.
pub proof fn lemma_reactors_counted(users: Seq<u64>, author: u64, user: u64)
    ensures
        reactors_besides(Seq::<u64>::empty(), author) == 0,
        reactors_besides(users.push(author), author) == reactors_besides(users, author),
        user != author ==> reactors_besides(users.push(user), author) == reactors_besides(users, author) + 1,
{
    users.lemma_filter_push(author, other_than(author));
    users.lemma_filter_push(user, other_than(author));
    assert(Seq::<u64>::empty().filter(other_than(author)) =~= Seq::<u64>::empty());
}

/// Deleting a source message that stands on the starboard, where its server
/// has a starboard channel, removes its starboard message from that channel
/// and its row from the posts table, and no other row.
pub proof fn lemma_deleted_message_unposted(
    message_id: u64,
    table: Map<i64, StarboardPost>,
    f1: GoneFlow,
    a1: Action,
    s: StarboardSettings,
    f2: GoneFlow,
    a2: Action,
)
    requires
        keyed_by_source(table),
        table.contains_key(message_id as i64),
        gone_step(GoneFlow::AwaitPost, Reply::Post(lookup_post(table, message_id as i64)), f1, a1),
        a1 is LoadSettings && s.guild_id == a1->LoadSettings_guild_id,
        s.channel_id is Some,
        gone_step(f1, Reply::Settings(s), f2, a2),
    ensures
        ({
            let k = message_id as i64;
            let after = posts_after(table, a2);
            &&& s.guild_id == table[k].guild_id
            &&& a2 matches Action::RemovePost { channel_id: c, starboard_message_id: sm, .. }
                && c == s.channel_id->Some_0 as u64 && sm == table[k].starboard_message_id as u64
            &&& !after.contains_key(k)
            &&& forall|j: i64| j != k ==> (#[trigger] after.contains_key(j) == table.contains_key(j)
                && (table.contains_key(j) ==> after[j] == table[j]))
        }),
        f2 is Finished,
{
}

} // verus!
