use vstd::prelude::*;

use crate::models::Id;

verus! {

/// A public bot.
#[derive(Clone, Debug)]
pub struct PublicBot {
    /// The ID of the bot.
    pub id: Id,
    /// The username of the bot.
    pub username: String,
    /// The avatar of the bot.
    pub avatar: Option<String>,
    /// The description of the bot.
    pub description: Option<String>,
}

} // verus!
