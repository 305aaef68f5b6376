//! Rows of the bot's database.
use vstd::prelude::*;

verus! {

/// A Discord role that is mirrored to a role on the game server.
#[derive(Debug)]
pub struct Role {
    /// The role's id on the game server.
    pub id: String,
    /// The Discord role's id.
    pub discord_id: i64,
}

/// A Discord user linked to a Geometry Dash account.
#[derive(Debug)]
pub struct LinkedUser {
    /// The Discord user's id.
    pub id: i64,
    /// The Geometry Dash account's id.
    pub gd_account_id: i64,
}

} // verus!
