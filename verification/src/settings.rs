use crate::snowflake::Snowflake;
use vstd::prelude::*;

verus! {

/// The channels that the community has set aside.
#[derive(Clone, Copy, Debug)]
pub struct Channels {
    pub welcome: Snowflake,
    pub main: Snowflake,
    pub logs_public: Snowflake,
    pub logs_mod: Snowflake,
    pub starboard: Snowflake,
}

/// The roles that the workflows ask about or hand out.
#[derive(Clone, Copy, Debug)]
pub struct Roles {
    /// Who may approve and deny.
    pub admin: Snowflake,
    /// What a vetted member holds.
    pub silly_role: Snowflake,
}

/// Where the community lives and what it calls its channels and roles.
#[derive(Clone, Copy, Debug)]
pub struct Config {
    pub main_guild_id: Snowflake,
    pub channels: Channels,
    pub roles: Roles,
}

impl Config {
    /// The settings with these identifiers, or nothing where one of them is
    /// zero, which the platform hands out to nobody.
    pub fn from_raw(
        main_guild_id: u64,
        welcome: u64,
        main: u64,
        logs_public: u64,
        logs_mod: u64,
        starboard: u64,
        admin: u64,
        silly_role: u64,
    ) -> (config: Option<Config>)
        ensures
            config is Some <==> main_guild_id != 0 && welcome != 0 && main != 0 && logs_public != 0
                && logs_mod != 0 && starboard != 0 && admin != 0 && silly_role != 0,
            config matches Some(c) ==> c.main_guild_id@ == main_guild_id && c.channels.welcome@
                == welcome && c.channels.main@ == main && c.channels.logs_public@ == logs_public
                && c.channels.logs_mod@ == logs_mod && c.channels.starboard@ == starboard
                && c.roles.admin@ == admin && c.roles.silly_role@ == silly_role,
    {
        let main_guild_id = Snowflake::new(main_guild_id)?;
        let welcome = Snowflake::new(welcome)?;
        let main = Snowflake::new(main)?;
        let logs_public = Snowflake::new(logs_public)?;
        let logs_mod = Snowflake::new(logs_mod)?;
        let starboard = Snowflake::new(starboard)?;
        let admin = Snowflake::new(admin)?;
        let silly_role = Snowflake::new(silly_role)?;
        Some(
            Config {
                main_guild_id,
                channels: Channels { welcome, main, logs_public, logs_mod, starboard },
                roles: Roles { admin, silly_role },
            },
        )
    }
}

/// Whether `role` is among `held`.
pub fn holds_role(held: &Vec<u64>, role: Snowflake) -> (found: bool)
    ensures
        found == held@.contains(role@),
{
    let wanted = role.get();
    let mut i: usize = 0;
    while i < held.len()
        invariant
            i <= held.len(),
            wanted == role@,
            forall|k: int| 0 <= k < i ==> held@[k] != wanted,
        decreases held.len() - i,
    {
        if held[i] == wanted {
            return true;
        }
        i += 1;
    }
    false
}

} // verus!
