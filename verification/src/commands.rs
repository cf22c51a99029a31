//! The rules behind the chat commands: which character a player is
//! associated with, and what is rolled for an attribute.
//!
//! The dice themselves are rolled elsewhere. What is decided here is the
//! formula that is rolled.

use vstd::prelude::*;
use vstd::string::StringExecFns;
use crate::dnd5e::{Abilities, DND5EActor, DND5EItem};
use crate::error::{CommandError, CommandFault};
use crate::text::{decimal, decimal_text, join3, signed_decimal, signed_decimal_text, str_eq};

verus! {

/// The six abilities.
#[derive(Debug, Clone, Copy, PartialEq, Eq, Structural)]
pub enum Ability {
    Strength,
    Dexterity,
    Constitution,
    Intelligence,
    Wisdom,
    Charisma,
}

/// The skills.
#[derive(Debug, Clone, Copy, PartialEq, Eq, Structural)]
pub enum SkillName {
    Acrobatics,
    AnimalHandling,
    Arcana,
    Athletics,
    Deception,
    History,
    Insight,
    Investigation,
    Intimidation,
    Medicine,
    Nature,
    Persuasion,
    Perception,
    Performance,
    Religion,
    SleightOfHand,
    Stealth,
    Survival,
}

/// What can be rolled for: an ability, or a skill.
#[derive(Debug, Clone, Copy, PartialEq, Eq, Structural)]
pub enum Stat {
    Ability(Ability),
    Skill(SkillName),
}

/// The attribute that a name or an abbreviation stands for.
pub open spec fn stat_named(name: Seq<char>) -> Option<Stat> {
    if name == "str"@ || name == "strength"@ {
        Some(Stat::Ability(Ability::Strength))
    } else if name == "dex"@ || name == "dexterity"@ {
        Some(Stat::Ability(Ability::Dexterity))
    } else if name == "cha"@ || name == "charisma"@ {
        Some(Stat::Ability(Ability::Charisma))
    } else if name == "int"@ || name == "intelligence"@ {
        Some(Stat::Ability(Ability::Intelligence))
    } else if name == "wis"@ || name == "wisdom"@ {
        Some(Stat::Ability(Ability::Wisdom))
    } else if name == "con"@ || name == "constitution"@ {
        Some(Stat::Ability(Ability::Constitution))
    } else if name == "acr"@ || name == "acrobatics"@ {
        Some(Stat::Skill(SkillName::Acrobatics))
    } else if name == "ani"@ || name == "animal"@ || name == "animals"@ {
        Some(Stat::Skill(SkillName::AnimalHandling))
    } else if name == "arc"@ || name == "arcana"@ {
        Some(Stat::Skill(SkillName::Arcana))
    } else if name == "ath"@ || name == "athletics"@ {
        Some(Stat::Skill(SkillName::Athletics))
    } else if name == "dec"@ || name == "deception"@ {
        Some(Stat::Skill(SkillName::Deception))
    } else if name == "his"@ || name == "history"@ {
        Some(Stat::Skill(SkillName::History))
    } else if name == "ins"@ || name == "insight"@ {
        Some(Stat::Skill(SkillName::Insight))
    } else if name == "inv"@ || name == "investigation"@ {
        Some(Stat::Skill(SkillName::Investigation))
    } else if name == "itm"@ || name == "intimidation"@ {
        Some(Stat::Skill(SkillName::Intimidation))
    } else if name == "med"@ || name == "medicine"@ {
        Some(Stat::Skill(SkillName::Medicine))
    } else if name == "nat"@ || name == "nature"@ {
        Some(Stat::Skill(SkillName::Nature))
    } else if name == "per"@ || name == "persuasion"@ {
        Some(Stat::Skill(SkillName::Persuasion))
    } else if name == "prc"@ || name == "perception"@ {
        Some(Stat::Skill(SkillName::Perception))
    } else if name == "prf"@ || name == "performance"@ {
        Some(Stat::Skill(SkillName::Performance))
    } else if name == "rel"@ || name == "religion"@ {
        Some(Stat::Skill(SkillName::Religion))
    } else if name == "slt"@ || name == "sleight"@ || name == "sleight of hand"@ {
        Some(Stat::Skill(SkillName::SleightOfHand))
    } else if name == "ste"@ || name == "stealth"@ {
        Some(Stat::Skill(SkillName::Stealth))
    } else if name == "sur"@ || name == "survival"@ {
        Some(Stat::Skill(SkillName::Survival))
    } else {
        None
    }
}

fn either(name: &str, short: &str, long: &str) -> (is: bool)
    ensures
        is == (name@ == short@ || name@ == long@),
{
    str_eq(name, short) || str_eq(name, long)
}

impl Stat {
    /// The attribute that `name` stands for; `InvalidAttribute` where it
    /// stands for none.
    pub fn parse(name: &str) -> (stat: Result<Stat, CommandError>)
        ensures
            match stat {
                Ok(stat) => stat_named(name@) == Some(stat),
                Err(fault) => stat_named(name@) is None && fault@
                    == CommandFault::InvalidAttribute(name@),
            },
    {
        if either(name, "str", "strength") {
            Ok(Stat::Ability(Ability::Strength))
        } else if either(name, "dex", "dexterity") {
            Ok(Stat::Ability(Ability::Dexterity))
        } else if either(name, "cha", "charisma") {
            Ok(Stat::Ability(Ability::Charisma))
        } else if either(name, "int", "intelligence") {
            Ok(Stat::Ability(Ability::Intelligence))
        } else if either(name, "wis", "wisdom") {
            Ok(Stat::Ability(Ability::Wisdom))
        } else if either(name, "con", "constitution") {
            Ok(Stat::Ability(Ability::Constitution))
        } else if either(name, "acr", "acrobatics") {
            Ok(Stat::Skill(SkillName::Acrobatics))
        } else if either(name, "ani", "animal") || str_eq(name, "animals") {
            Ok(Stat::Skill(SkillName::AnimalHandling))
        } else if either(name, "arc", "arcana") {
            Ok(Stat::Skill(SkillName::Arcana))
        } else if either(name, "ath", "athletics") {
            Ok(Stat::Skill(SkillName::Athletics))
        } else if either(name, "dec", "deception") {
            Ok(Stat::Skill(SkillName::Deception))
        } else if either(name, "his", "history") {
            Ok(Stat::Skill(SkillName::History))
        } else if either(name, "ins", "insight") {
            Ok(Stat::Skill(SkillName::Insight))
        } else if either(name, "inv", "investigation") {
            Ok(Stat::Skill(SkillName::Investigation))
        } else if either(name, "itm", "intimidation") {
            Ok(Stat::Skill(SkillName::Intimidation))
        } else if either(name, "med", "medicine") {
            Ok(Stat::Skill(SkillName::Medicine))
        } else if either(name, "nat", "nature") {
            Ok(Stat::Skill(SkillName::Nature))
        } else if either(name, "per", "persuasion") {
            Ok(Stat::Skill(SkillName::Persuasion))
        } else if either(name, "prc", "perception") {
            Ok(Stat::Skill(SkillName::Perception))
        } else if either(name, "prf", "performance") {
            Ok(Stat::Skill(SkillName::Performance))
        } else if either(name, "rel", "religion") {
            Ok(Stat::Skill(SkillName::Religion))
        } else if either(name, "slt", "sleight") || str_eq(name, "sleight of hand") {
            Ok(Stat::Skill(SkillName::SleightOfHand))
        } else if either(name, "ste", "stealth") {
            Ok(Stat::Skill(SkillName::Stealth))
        } else if either(name, "sur", "survival") {
            Ok(Stat::Skill(SkillName::Survival))
        } else {
            Err(CommandError::InvalidAttribute(String::from_str(name)))
        }
    }

    /// The ability whose score a roll for this attribute goes by.
    ///
    /// A skill goes by the ability that governs it. A bare ability check goes
    /// by the strength score, whichever ability is named.
    pub open spec fn score_source(self) -> Ability {
        match self {
            Stat::Ability(_) => Ability::Strength,
            Stat::Skill(skill) => match skill {
                SkillName::Acrobatics => Ability::Dexterity,
                SkillName::AnimalHandling => Ability::Wisdom,
                SkillName::Arcana => Ability::Intelligence,
                SkillName::Athletics => Ability::Strength,
                SkillName::Deception => Ability::Charisma,
                SkillName::History => Ability::Intelligence,
                SkillName::Insight => Ability::Wisdom,
                SkillName::Investigation => Ability::Intelligence,
                SkillName::Intimidation => Ability::Charisma,
                SkillName::Medicine => Ability::Wisdom,
                SkillName::Nature => Ability::Intelligence,
                SkillName::Persuasion => Ability::Charisma,
                SkillName::Perception => Ability::Wisdom,
                SkillName::Performance => Ability::Charisma,
                SkillName::Religion => Ability::Intelligence,
                SkillName::SleightOfHand => Ability::Dexterity,
                SkillName::Stealth => Ability::Dexterity,
                SkillName::Survival => Ability::Wisdom,
            },
        }
    }

    /// The ability whose score a roll for this attribute goes by.
    pub fn ability(self) -> (ability: Ability)
        ensures
            ability == self.score_source(),
    {
        match self {
            Stat::Ability(_) => Ability::Strength,
            Stat::Skill(skill) => match skill {
                SkillName::Acrobatics | SkillName::SleightOfHand | SkillName::Stealth =>
                    Ability::Dexterity,
                SkillName::AnimalHandling
                | SkillName::Insight
                | SkillName::Medicine
                | SkillName::Perception
                | SkillName::Survival => Ability::Wisdom,
                SkillName::Arcana
                | SkillName::History
                | SkillName::Investigation
                | SkillName::Nature
                | SkillName::Religion => Ability::Intelligence,
                SkillName::Athletics => Ability::Strength,
                SkillName::Deception
                | SkillName::Intimidation
                | SkillName::Persuasion
                | SkillName::Performance => Ability::Charisma,
            },
        }
    }

    /// Whether proficiency counts towards a roll for this attribute: it does
    /// for a skill, by the share that the character has of it, and does not
    /// for a bare ability check.
    pub fn uses_proficiency(self) -> (uses: bool)
        ensures
            uses == self is Skill,
    {
        match self {
            Stat::Ability(_) => false,
            Stat::Skill(_) => true,
        }
    }
}

impl Abilities {
    /// The score of `ability`.
    pub open spec fn score_of(self, ability: Ability) -> u8 {
        match ability {
            Ability::Strength => self.str.value,
            Ability::Dexterity => self.dex.value,
            Ability::Constitution => self.con.value,
            Ability::Intelligence => self.int.value,
            Ability::Wisdom => self.wis.value,
            Ability::Charisma => self.cha.value,
        }
    }

    /// The score of `ability`.
    pub fn score(&self, ability: Ability) -> (score: u8)
        ensures
            score == self.score_of(ability),
    {
        match ability {
            Ability::Strength => self.str.value,
            Ability::Dexterity => self.dex.value,
            Ability::Constitution => self.con.value,
            Ability::Intelligence => self.int.value,
            Ability::Wisdom => self.wis.value,
            Ability::Charisma => self.cha.value,
        }
    }
}

/// A sum held within the range of `i64`.
pub open spec fn held(sum: int) -> int {
    if sum > i64::MAX {
        i64::MAX as int
    } else if sum < i64::MIN {
        i64::MIN as int
    } else {
        sum
    }
}

/// The levels that an item counts for: those of a class, none where the class
/// does not say or the item is no class.
pub open spec fn levels_of(item: DND5EItem) -> int {
    if item.kind@ == "class"@ {
        match item.levels {
            Some(levels) => levels as int,
            None => 0,
        }
    } else {
        0
    }
}

/// The levels of the classes among `items`, added up and held within the
/// range of `i64` as the sum grows.
pub open spec fn levels_sum(items: Seq<DND5EItem>) -> int
    decreases items.len(),
{
    if items.len() == 0 {
        0
    } else {
        held(levels_sum(items.drop_last()) + levels_of(items.last()))
    }
}

/// The total level of a character: the sum of the levels of the classes among
/// its items.
pub fn total_level(items: &Vec<DND5EItem>) -> (total: i64)
    ensures
        total == levels_sum(items@),
{
    let mut total: i64 = 0;
    let mut i: usize = 0;
    assert(items@.take(0) =~= Seq::empty());
    while i < items.len()
        invariant
            i <= items@.len(),
            total == levels_sum(items@.take(i as int)),
        decreases items@.len() - i,
    {
        let levels: i128 = if str_eq(items[i].kind.as_str(), "class") {
            match items[i].levels {
                Some(levels) => levels as i128,
                None => 0,
            }
        } else {
            0
        };
        proof {
            assert(items@.take(i + 1).drop_last() =~= items@.take(i as int));
            assert(items@.take(i + 1).last() == items@[i as int]);
        }
        let sum: i128 = total as i128 + levels;
        total = if sum > i64::MAX as i128 {
            i64::MAX
        } else if sum < i64::MIN as i128 {
            i64::MIN
        } else {
            sum as i64
        };
        i += 1;
    }
    assert(items@.take(i as int) =~= items@);
    total
}

/// The proficiency bonus at a total level: 2 up to level 4, and one more for
/// every four levels after that up to level 20; 7 at any other level.
pub open spec fn bonus_at(total_level: int) -> int {
    if 0 <= total_level <= 4 {
        2
    } else if 5 <= total_level <= 8 {
        3
    } else if 9 <= total_level <= 12 {
        4
    } else if 13 <= total_level <= 16 {
        5
    } else if 17 <= total_level <= 20 {
        6
    } else {
        7
    }
}

/// The proficiency bonus at a total level.
pub fn proficiency_bonus(total_level: i64) -> (bonus: i32)
    ensures
        bonus == bonus_at(total_level as int),
{
    if 0 <= total_level && total_level <= 4 {
        2
    } else if 5 <= total_level && total_level <= 8 {
        3
    } else if 9 <= total_level && total_level <= 12 {
        4
    } else if 13 <= total_level && total_level <= 16 {
        5
    } else if 17 <= total_level && total_level <= 20 {
        6
    } else {
        7
    }
}

/// The modifier that an ability score gives: half of what it has over ten,
/// rounded down.
pub open spec fn modifier_of(score: u8) -> int {
    (score - 10) / 2
}

/// The modifier that an ability score gives.
pub fn ability_modifier(score: u8) -> (modifier: i32)
    ensures
        modifier == modifier_of(score),
{
    let over: i32 = score as i32 - 10;
    if over >= 0 {
        over / 2
    } else {
        -((1 - over) / 2)
    }
}

/// The dice for a roll: one d20; two of which the higher is kept with
/// advantage, two of which the lower is kept with disadvantage, and two of
/// which the lowest is kept with any other word.
pub open spec fn dice_of(mode: Option<Seq<char>>) -> Seq<char> {
    match mode {
        None => "1d20"@,
        Some(word) => if word == "adv"@ || word == "advantage"@ {
            "2d20K1"@
        } else if word == "dis"@ || word == "disadvantage"@ {
            "2d20k1"@
        } else {
            "2d20kl1"@
        },
    }
}

/// The dice for a roll under `mode`.
pub fn dice_for(mode: Option<&str>) -> (dice: &'static str)
    ensures
        dice@ == dice_of(
            match mode {
                Some(word) => Some(word@),
                None => None,
            },
        ),
{
    match mode {
        None => "1d20",
        Some(word) => if either(word, "adv", "advantage") {
            "2d20K1"
        } else if either(word, "dis", "disadvantage") {
            "2d20k1"
        } else {
            "2d20kl1"
        },
    }
}

/// The formula of a roll: the dice, and the bonus added to them.
pub open spec fn formula_of(dice: Seq<char>, bonus: int) -> Seq<char> {
    dice + " + "@ + signed_decimal_text(bonus)
}

/// The formula that is rolled: `dice`, plus the character's share of the
/// proficiency bonus and the modifier of the ability.
pub fn roll_formula(dice: &str, proficiency_share: i32, ability_modifier: i32) -> (formula: String)
    ensures
        formula@ == formula_of(dice@, proficiency_share + ability_modifier),
{
    let bonus: i64 = proficiency_share as i64 + ability_modifier as i64;
    let digits = signed_decimal(bonus);
    join3(dice, " + ", digits.as_str())
}

/// Whether an actor is a player character of that name that has an id.
pub open spec fn is_character_named(actor: DND5EActor, name: Seq<char>) -> bool {
    actor matches DND5EActor::character { base, .. } && base.document.name@ == name
        && base.document.id is Some
}

/// Whether an actor is the player character with that id.
pub open spec fn is_character_with_id(actor: DND5EActor, id: Seq<char>) -> bool {
    actor matches DND5EActor::character { base, .. } && base.document.id matches Some(own)
        && own@ == id
}

/// Whether `i` is the first position of `actors` that holds a player
/// character of that name that has an id.
pub open spec fn is_first_named(actors: Seq<DND5EActor>, name: Seq<char>, i: int) -> bool {
    &&& 0 <= i < actors.len()
    &&& is_character_named(actors[i], name)
    &&& forall|j: int| 0 <= j < i ==> !is_character_named(actors[j], name)
}

/// Whether `i` is the first position of `actors` that holds the player
/// character with that id.
pub open spec fn is_first_with_id(actors: Seq<DND5EActor>, id: Seq<char>, i: int) -> bool {
    &&& 0 <= i < actors.len()
    &&& is_character_with_id(actors[i], id)
    &&& forall|j: int| 0 <= j < i ==> !is_character_with_id(actors[j], id)
}

/// The id of the character that a player who names `name` is associated
/// with: that of the first player character of that name that has one.
///
/// Fails with `CharacterNotFound` exactly where there is no such character.
pub fn character_named(actors: &Vec<DND5EActor>, name: &str) -> (id: Result<String, CommandError>)
    ensures
        match id {
            Ok(id) => exists|i: int|
                is_first_named(actors@, name@, i) && (
                #[trigger] actors@[i])->character_base.document.id->Some_0@ == id@,
            Err(fault) => (forall|i: int|
                0 <= i < actors@.len() ==> !is_character_named(#[trigger] actors@[i], name@))
                && fault@ == CommandFault::CharacterNotFound(name@),
        },
{
    let mut i: usize = 0;
    while i < actors.len()
        invariant
            i <= actors@.len(),
            forall|j: int| 0 <= j < i ==> !is_character_named(#[trigger] actors@[j], name@),
        decreases actors@.len() - i,
    {
        match &actors[i] {
            DND5EActor::character { base, .. } => {
                if str_eq(base.document.name.as_str(), name) {
                    match &base.document.id {
                        Some(id) => {
                            assert(is_first_named(actors@, name@, i as int));
                            return Ok(id.clone());
                        },
                        None => {},
                    }
                }
            },
            _ => {},
        }
        i += 1;
    }
    Err(CommandError::CharacterNotFound(String::from_str(name)))
}

/// Where the character that a player is associated with stands among the
/// actors: the first player character with the associated id.
///
/// Fails with `MissingAssocChar` where the player is associated with none,
/// and with `InvalidAssocChar` where no player character has that id.
pub fn associated_character(actors: &Vec<DND5EActor>, actor_id: &Option<String>) -> (at: Result<
    usize,
    CommandError,
>)
    ensures
        match at {
            Ok(i) => actor_id matches Some(id) && is_first_with_id(actors@, id@, i as int),
            Err(fault) => match actor_id {
                None => fault@ == CommandFault::MissingAssocChar,
                Some(id) => (forall|i: int|
                    0 <= i < actors@.len() ==> !is_character_with_id(#[trigger] actors@[i], id@))
                    && fault@ == CommandFault::InvalidAssocChar,
            },
        },
{
    let id = match actor_id {
        None => {
            return Err(CommandError::MissingAssocChar);
        },
        Some(id) => id,
    };
    let mut i: usize = 0;
    while i < actors.len()
        invariant
            i <= actors@.len(),
            *actor_id == Some(*id),
            forall|j: int| 0 <= j < i ==> !is_character_with_id(#[trigger] actors@[j], id@),
        decreases actors@.len() - i,
    {
        match &actors[i] {
            DND5EActor::character { base, .. } => {
                match &base.document.id {
                    Some(own) => {
                        if str_eq(own.as_str(), id.as_str()) {
                            return Ok(i);
                        }
                    },
                    None => {},
                }
            },
            _ => {},
        }
        i += 1;
    }
    Err(CommandError::InvalidAssocChar)
}

/// The key under which a player's association is stored: the player's id,
/// in decimal.
pub fn association_key(user_id: u64) -> (key: String)
    ensures
        key@ == decimal_text(user_id as nat),
{
    decimal(user_id)
}

/// What a player is told after an association.
pub open spec fn association_notice(user_id: u64, actor_id: Seq<char>) -> Seq<char> {
    "Successfully associated user id "@ + decimal_text(user_id as nat) + " with actor id "@
        + actor_id
}

/// What a player is told after being associated with the actor `actor_id`.
pub fn association_reply(user_id: u64, actor_id: &str) -> (reply: String)
    ensures
        reply@ == association_notice(user_id, actor_id@),
{
    let digits = decimal(user_id);
    let mut reply = join3("Successfully associated user id ", digits.as_str(), " with actor id ");
    reply.append(actor_id);
    reply
}

} // verus!
