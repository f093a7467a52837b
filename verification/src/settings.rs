use vstd::prelude::*;

verus! {

/// The reaction count at which a message reaches the starboard, for a server
/// that has not chosen one.
pub const DEFAULT_THRESHOLD: i64 = 3;

/// The emoji that counts, for a server that has not chosen one: a star.
pub open spec fn default_emoji() -> Seq<char> {
    seq!['\u{2B50}']
}

/// The starboard settings of one server, as the database row holds them.
pub struct StarboardSettings {
    pub guild_id: i64,
    pub enabled: bool,
    pub threshold: i64,
    pub emoji: String,
    pub channel_id: Option<i64>,
}

/// A message that stands on the starboard: its source and its copy there.
pub struct StarboardPost {
    pub source_message_id: i64,
    pub guild_id: i64,
    pub source_channel_id: i64,
    pub starboard_message_id: i64,
    pub reaction_count: i64,
}

impl StarboardSettings {
    /// The settings a server starts with: disabled, no channel, a star counted
    /// from three reactions.
    pub open spec fn is_default_for(self, guild_id: i64) -> bool {
        &&& self.guild_id == guild_id
        &&& !self.enabled
        &&& self.threshold == DEFAULT_THRESHOLD
        &&& self.emoji@ == default_emoji()
        &&& self.channel_id is None
    }

    /// The default settings of a server.
    pub fn default_for(guild_id: i64) -> (r: StarboardSettings)
        ensures
            r.is_default_for(guild_id),
    {
        let star = "⭐";
        proof {
            reveal_strlit("⭐");
            assert(star@.len() == 1);
            assert(star@[0] == '\u{2B50}');
            assert(star@ =~= default_emoji());
        }
        StarboardSettings {
            guild_id,
            enabled: false,
            threshold: DEFAULT_THRESHOLD,
            emoji: String::from_str(star),
            channel_id: None,
        }
    }
}

/// The settings of a server, and whether they are new, given what the
/// database holds for it.
pub open spec fn settings_of(existing: Option<StarboardSettings>, guild_id: i64, r: (StarboardSettings, bool)) -> bool {
    &&& r.1 == existing is None
    &&& existing matches Some(s) ==> r.0 == s
    &&& existing is None ==> r.0.is_default_for(guild_id)
}

/// The settings table: rows by server id.
pub open spec fn lookup_settings(table: Map<i64, StarboardSettings>, guild_id: i64) -> Option<StarboardSettings> {
    if table.contains_key(guild_id) {
        Some(table[guild_id])
    } else {
        None
    }
}

/// Each row of the settings table stands under its own server id.
pub open spec fn keyed_by_guild(table: Map<i64, StarboardSettings>) -> bool {
    forall|k: i64| table.contains_key(k) ==> #[trigger] table[k].guild_id == k
}

/// The settings table after settings were looked up: new ones are stored.
pub open spec fn stored_after(table: Map<i64, StarboardSettings>, guild_id: i64, r: (StarboardSettings, bool)) -> Map<i64, StarboardSettings> {
    if r.1 {
        table.insert(guild_id, r.0)
    } else {
        table
    }
}

/// Looking up a server's settings twice, storing new ones in between, gives
/// the same settings twice, of that server; the second lookup stores nothing.
pub proof fn lemma_get_or_default_settles(
    table: Map<i64, StarboardSettings>,
    guild_id: i64,
    first: (StarboardSettings, bool),
    second: (StarboardSettings, bool),
)
    requires
        keyed_by_guild(table),
        settings_of(lookup_settings(table, guild_id), guild_id, first),
        settings_of(lookup_settings(stored_after(table, guild_id, first), guild_id), guild_id, second),
    ensures
        second.0 == first.0,
        first.0.guild_id == guild_id,
        !second.1,
        stored_after(stored_after(table, guild_id, first), guild_id, second) == stored_after(table, guild_id, first),
        keyed_by_guild(stored_after(table, guild_id, first)),
{
}

/// The settings of a server given what the database holds for it: the stored
/// row where there is one, else the defaults, together with whether they are
/// new and must be stored.
pub fn get_or_default(existing: Option<StarboardSettings>, guild_id: i64) -> (r: (StarboardSettings, bool))
    ensures
        settings_of(existing, guild_id, r),
{
    match existing {
        Some(s) => (s, false),
        None => (StarboardSettings::default_for(guild_id), true),
    }
}

} // verus!
