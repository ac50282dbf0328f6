//! One playable-character record of the catalog, identified by its numeric id.
use vstd::prelude::*;

verus! {

/// How a champion plays, as the catalog rates it.
#[derive(Clone, Debug)]
pub struct TacticalInfo {
    pub style: u64,
    pub difficulty: u64,
    pub damage_type: String,
}

/// The catalog's ratings of a champion's strengths.
#[derive(Clone, Copy, Debug, PartialEq, Eq, Structural)]
pub struct PlaystyleInfo {
    pub damage: u64,
    pub durability: u64,
    pub crowd_control: u64,
    pub mobility: u64,
    pub utility: u64,
}

/// An immutable entity record; `id` is its primary key.
#[derive(Clone, Debug)]
pub struct Champion {
    pub id: u64,
    pub name: String,
    pub alias: String,
    pub title: String,
    pub short_bio: String,
    pub tactical_info: TacticalInfo,
    pub playstyle_info: PlaystyleInfo,
    pub square_portrait_path: String,
    pub stinger_sfx_path: String,
    pub choose_vo_path: String,
    pub ban_vo_path: String,
    pub roles: Vec<String>,
}

} // verus!
