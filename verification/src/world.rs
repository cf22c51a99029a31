//! The documents of a world, as far as they are the same for every game
//! system.

use vstd::prelude::*;
use crate::json::Json;

verus! {

/// A world: who is online, and the documents it holds.
#[derive(Debug, PartialEq, Eq)]
pub struct World<ActorType, ItemType, TokenType> {
    pub active_users: Vec<String>,
    pub actors: Vec<ActorType>,
    pub items: Vec<ItemType>,
    pub scenes: Vec<Scene<TokenType>>,
}

/// One scene of a world, with the tokens placed on it.
#[derive(Debug, PartialEq, Eq)]
pub struct Scene<TokenType> {
    pub active: bool,
    pub background: Json,
    pub tokens: Vec<TokenType>,
}

/// What every document carries.
#[derive(Debug, PartialEq, Eq)]
pub struct Document {
    pub id: Option<String>,
    pub img: Option<String>,
    pub name: String,
    pub flags: Json,
    pub folder: Option<String>,
    pub ownership: OwnershipMap,
}

/// What a player may do with a document.
#[derive(Debug, Clone, Copy, PartialEq, Eq, Structural)]
pub enum Permissions {
    Inherit,
    /// No access at all.
    NoAccess,
    Limited,
    Observer,
    Owner,
}

impl Permissions {
    /// The number that stands for a permission on the wire.
    pub open spec fn level_of(self) -> int {
        match self {
            Permissions::Inherit => -1,
            Permissions::NoAccess => 0,
            Permissions::Limited => 1,
            Permissions::Observer => 2,
            Permissions::Owner => 3,
        }
    }

    /// The number that stands for this permission on the wire.
    pub fn level(self) -> (level: i8)
        ensures
            level == self.level_of(),
    {
        match self {
            Permissions::Inherit => -1,
            Permissions::NoAccess => 0,
            Permissions::Limited => 1,
            Permissions::Observer => 2,
            Permissions::Owner => 3,
        }
    }

    /// The permission that `level` stands for on the wire, if it stands for
    /// one.
    pub fn from_level(level: i8) -> (permission: Option<Permissions>)
        ensures
            match permission {
                Some(permission) => permission.level_of() == level,
                None => level < -1 || level > 3,
            },
    {
        if level == -1 {
            Some(Permissions::Inherit)
        } else if level == 0 {
            Some(Permissions::NoAccess)
        } else if level == 1 {
            Some(Permissions::Limited)
        } else if level == 2 {
            Some(Permissions::Observer)
        } else if level == 3 {
            Some(Permissions::Owner)
        } else {
            None
        }
    }
}

/// Who may do what with a document.
#[derive(Debug, PartialEq, Eq)]
pub struct OwnershipMap {
    /// The permission of a player that `players` does not list.
    pub default: Permissions,
    /// The permission of each player listed, by player id; no id is listed
    /// twice.
    pub players: Vec<(String, Permissions)>,
}

impl OwnershipMap {
    /// No player is listed twice.
    pub open spec fn well_formed(self) -> bool {
        forall|i: int, j: int|
            0 <= i < j < self.players@.len() ==> self.players@[i].0@ != self.players@[j].0@
    }
}

/// The flags that modules attach to a document.
#[derive(Debug, PartialEq, Eq)]
pub struct Flags {
    /// The value of each flag, by name; no name occurs twice.
    pub items: Vec<(String, Json)>,
}

impl Flags {
    /// No flag occurs twice.
    pub open spec fn well_formed(self) -> bool {
        forall|i: int, j: int|
            0 <= i < j < self.items@.len() ==> self.items@[i].0@ != self.items@[j].0@
    }
}

/// What every actor carries, whatever the game system.
#[derive(Debug, PartialEq, Eq)]
pub struct BaseActor<ItemType, TokenType> {
    pub document: Document,
    pub items: Vec<ItemType>,
    pub prototype_token: TokenType,
}

/// What every item carries, whatever the game system.
#[derive(Debug, PartialEq, Eq)]
pub struct BaseItem {
    pub document: Document,
}

/// What every token carries, whatever the game system.
#[derive(Debug, PartialEq, Eq)]
pub struct BaseToken {
    pub document: Document,
}

} // verus!
