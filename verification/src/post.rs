use vstd::prelude::*;

use poise::serenity_prelude::{ChannelId, GuildId, MessageId};

use crate::fmt::{decimal, push_signed_decimal, signed_decimal};

verus! {

/// A file attached to a message.
pub struct Attachment {
    pub url: String,
    pub content_type: Option<String>,
}

/// What the starboard reads of a message that drew reactions.
pub struct SourceMessage {
    pub id: u64,
    pub channel_id: u64,
    pub guild_id: Option<u64>,
    pub author_id: u64,
    pub author_bot: bool,
    pub author_name: String,
    /// The author's avatar URL, or the default avatar's where there is none.
    pub author_face: String,
    pub content: String,
    /// When the message was sent, in RFC 3339.
    pub timestamp: String,
    pub first_attachment: Option<Attachment>,
}

impl SourceMessage {
    /// Discord ids are never zero.
    pub open spec fn ids_valid(self) -> bool {
        &&& self.id != 0
        &&& self.channel_id != 0
        &&& (self.guild_id matches Some(g) ==> g != 0)
    }
}

/// The colour of the starboard's embeds.
pub const STARBOARD_EMBED_COLOUR: u32 = 0xE8B86D;

/// The embed that shows a message on the starboard.
pub struct EmbedPlan {
    pub colour: u32,
    pub author_name: String,
    pub author_icon: String,
    pub description: String,
    pub timestamp: String,
    pub image: Option<String>,
}

/// The link to a message: its server (or `@me` outside a server), its channel
/// and its id, under `https://discord.com/channels/`.
pub open spec fn message_link_text(id: u64, channel_id: u64, guild_id: Option<u64>) -> Seq<char> {
    "https://discord.com/channels/"@ + match guild_id {
        Some(g) => decimal(g as nat),
        None => "@me"@,
    } + "/"@ + decimal(channel_id as nat) + "/"@ + decimal(id as nat)
}

/// The link to a message, from serenity's `MessageId::link`; its whole result is
/// stated. The ids must be nonzero: serenity's id constructors panic on zero.
#[verifier::external_body]
fn message_link(id: u64, channel_id: u64, guild_id: Option<u64>) -> (r: String)
    requires
        id != 0,
        channel_id != 0,
        guild_id matches Some(g) ==> g != 0,
    ensures
        r@ == message_link_text(id, channel_id, guild_id),
{
    MessageId::new(id).link(ChannelId::new(channel_id), guild_id.map(GuildId::new))
}

/// The text above a starboard embed: the emoji, the count and the link to the
/// source message.
pub open spec fn header_text(message: SourceMessage, count: i64, emoji: Seq<char>) -> Seq<char> {
    emoji + " "@ + signed_decimal(count as int) + " \u{2022} "@ + message_link_text(
        message.id,
        message.channel_id,
        message.guild_id,
    )
}

/// The text above a starboard embed.
pub fn build_header_content(message: &SourceMessage, count: i64, emoji: &str) -> (r: String)
    requires
        message.ids_valid(),
    ensures
        r@ == header_text(*message, count, emoji@),
{
    let link = message_link(message.id, message.channel_id, message.guild_id);
    let mut r = String::from_str(emoji);
    r.append(" ");
    push_signed_decimal(&mut r, count);
    r.append(" \u{2022} ");
    r.append(link.as_str());
    r
}

/// Whether `text` begins with `prefix`.
pub fn has_prefix(text: &str, prefix: &str) -> (r: bool)
    ensures
        r == prefix@.is_prefix_of(text@),
{
    let n = prefix.unicode_len();
    let m = text.unicode_len();
    if n > m {
        return false;
    }
    let mut i: usize = 0;
    while i < n
        invariant
            n == prefix@.len(),
            m == text@.len(),
            n <= m,
            i <= n,
            forall|j: int| 0 <= j < i ==> prefix@[j] == text@[j],
        decreases n - i,
    {
        if prefix.get_char(i) != text.get_char(i) {
            return false;
        }
        i = i + 1;
    }
    true
}

/// Whether an attachment is shown as the embed's image: its content type
/// starts with `image/`.
pub open spec fn shows_as_image(a: Attachment) -> bool {
    a.content_type matches Some(ct) && "image/"@.is_prefix_of(ct@)
}

impl EmbedPlan {
    /// Whether this embed shows `message` on the starboard: its author with
    /// avatar, its text and time, in the starboard's colour, and its first
    /// attachment as the image where that is an image.
    pub open spec fn shows(self, message: SourceMessage) -> bool {
        &&& self.colour == STARBOARD_EMBED_COLOUR
        &&& self.author_name@ == message.author_name@
        &&& self.author_icon@ == message.author_face@
        &&& self.description@ == message.content@
        &&& self.timestamp@ == message.timestamp@
        &&& match message.first_attachment {
            Some(a) => if shows_as_image(a) {
                self.image matches Some(url) && url@ == a.url@
            } else {
                self.image is None
            },
            None => self.image is None,
        }
    }
}

/// The embed that shows a message on the starboard.
pub fn build_embed(message: &SourceMessage) -> (r: EmbedPlan)
    ensures
        r.shows(*message),
{
    let mut image: Option<String> = None;
    match &message.first_attachment {
        Some(a) => {
            match &a.content_type {
                Some(ct) => {
                    if has_prefix(ct.as_str(), "image/") {
                        image = Some(a.url.clone());
                    }
                },
                None => {},
            }
        },
        None => {},
    }
    EmbedPlan {
        colour: STARBOARD_EMBED_COLOUR,
        author_name: message.author_name.clone(),
        author_icon: message.author_face.clone(),
        description: message.content.clone(),
        timestamp: message.timestamp.clone(),
        image,
    }
}

/// An embed that shows a message carries the message's author, avatar, text
/// and time, in colour 0xE8B86D, and shows the first attachment as its image
/// exactly when that attachment's content type begins with `image/` (an
/// `image/jpeg` photo as much as an `image/png` one).
pub proof fn lemma_embed_contents(embed: EmbedPlan, message: SourceMessage)
    requires
        embed.shows(message),
    ensures
        embed.colour == 0xE8B86Du32,
        embed.author_name@ == message.author_name@,
        embed.author_icon@ == message.author_face@,
        embed.description@ == message.content@,
        embed.timestamp@ == message.timestamp@,
        match message.first_attachment {
            Some(a) => if (a.content_type matches Some(ct) && ct@.len() >= 6
                && ct@.subrange(0, 6) == seq!['i', 'm', 'a', 'g', 'e', '/']) {
                embed.image matches Some(url) && url@ == a.url@
            } else {
                embed.image is None
            },
            None => embed.image is None,
        },
{
    reveal_strlit("image/");
    assert("image/"@ =~= seq!['i', 'm', 'a', 'g', 'e', '/']);
    if let Some(a) = message.first_attachment {
        if let Some(ct) = a.content_type {
            if ct@.len() >= 6 {
                assert("image/"@.is_prefix_of(ct@) == (ct@.subrange(0, 6) =~= seq!['i', 'm', 'a', 'g', 'e', '/']));
            }
        }
    }
}

} // verus!
