//! The profile of a player.

use vstd::prelude::*;

verus! {

/// A named property of a profile, such as the player's textures.
#[derive(Clone, Debug)]
pub struct Property {
    pub name: String,
    pub value: String,
    pub signature: Option<String>,
}

/// The profile under which a player joins the game.
#[derive(Clone, Debug)]
pub struct GameProfile {
    /// The player's UUID as a number, its first octet in the highest bits.
    pub id: u128,
    pub name: String,
    pub properties: Vec<Property>,
    /// Measures that the authentication service took against the profile.
    pub profile_actions: Option<Vec<String>>,
}

} // verus!
