//! Static configuration: API credentials, the ordered list of tracked
//! players, and the guilds the command is registered in. The configuration is
//! built once at startup and passed by shared reference afterwards.

use vstd::prelude::*;

verus! {

/// One tracked player: the in-game name the statistics API knows, and the
/// display name used in chat.
pub struct User {
    /// In-game summoner name, without the region tag.
    pub summoner_name: String,
    pub discord_name: String,
}

/// Process-wide settings, loaded once at startup and immutable afterwards.
pub struct Config {
    pub riot_apikey: String,
    pub gemini_apikey: String,
    pub discord_token: String,
    /// Players whose matches will be processed.
    pub players: Vec<User>,
    /// Guilds which the bot will register the command to.
    pub guild_ids: Vec<u64>,
}

impl Config {
    /// Returns the configuration itself. Callers hold a shared reference to
    /// the one configuration built at startup.
    pub fn get(&self) -> (r: &Config)
        ensures
            r == self,
    {
        self
    }
}

} // verus!
