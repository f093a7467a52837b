use vstd::prelude::*;

verus! {

/// The bot's configuration: where its database is and how it logs in.
#[derive(Debug, Clone)]
pub struct Config {
    pub database: Database,
    pub discord: Discord,
}

/// Where the database is.
#[derive(Debug, Clone)]
pub struct Database {
    pub url: String,
}

/// How the bot logs in to Discord.
#[derive(Debug, Clone)]
pub struct Discord {
    pub token: String,
}

impl Default for Database {
    /// An empty URL.
    fn default() -> (r: Database)
        ensures
            r.url@ == Seq::<char>::empty(),
    {
        Database { url: String::new() }
    }
}

impl Default for Discord {
    /// An empty token.
    fn default() -> (r: Discord)
        ensures
            r.token@ == Seq::<char>::empty(),
    {
        Discord { token: String::new() }
    }
}

impl Default for Config {
    /// Every field empty.
    fn default() -> (r: Config)
        ensures
            r.database.url@ == Seq::<char>::empty(),
            r.discord.token@ == Seq::<char>::empty(),
    {
        Config { database: Database::default(), discord: Discord::default() }
    }
}

} // verus!
