use vstd::prelude::*;

verus! {

/// Default quantity assigned to an item record when none is given.
pub fn default_qty() -> (r: i32)
    ensures
        r == 1,
{
    1
}

/// A monster template: read-only source of stats for combatants.
#[derive(Clone, Debug)]
pub struct Monster {
    pub id: i32,
    pub name: String,
    pub typ: String,
    pub armor_class: i32,
    pub hit_points: i32,
    pub strength: i32,
    pub intelligence: i32,
    pub dexterity: i32,
    pub constitution: i32,
    pub wisdom: i32,
    pub charisma: i32,
    pub challenge_rating: String,
    pub room_id: Vec<i32>,
}

/// A monster record before it has been assigned an id by storage.
#[derive(Clone, Debug)]
pub struct NewMonster {
    pub name: String,
    pub typ: String,
    pub armor_class: i32,
    pub hit_points: i32,
    pub strength: i32,
    pub intelligence: i32,
    pub dexterity: i32,
    pub constitution: i32,
    pub wisdom: i32,
    pub charisma: i32,
    pub challenge_rating: String,
    pub room_id: Vec<i32>,
}

/// A player template: read-only source of stats for combatants.
#[derive(Clone, Debug)]
pub struct Player {
    pub id: i32,
    pub name: String,
    pub nick: String,
    pub typ: String,
    pub armor_class: i32,
    pub hit_points: i32,
    pub strength: i32,
    pub intelligence: i32,
    pub dexterity: i32,
    pub constitution: i32,
    pub wisdom: i32,
    pub charisma: i32,
    pub initiative_bonus: i32,
    pub buffs: Vec<String>,
}

/// A player record before it has been assigned an id by storage.
#[derive(Clone, Debug)]
pub struct NewPlayer {
    pub id: Option<i32>,
    pub name: String,
    pub nick: String,
    pub typ: String,
    pub armor_class: i32,
    pub hit_points: i32,
    pub strength: i32,
    pub intelligence: i32,
    pub dexterity: i32,
    pub constitution: i32,
    pub wisdom: i32,
    pub charisma: i32,
    pub initiative_bonus: i32,
}

/// A named action that may override a combatant's attack expression or
/// to-hit bonus. `uses_left == -1` means unlimited uses.
#[derive(Clone, Debug)]
pub struct Ability {
    pub id: i32,
    pub name: String,
    pub descrip: String,
    pub damage_dice: Option<String>,
    pub attack_bonus: Option<i32>,
    pub uses_left: i32,
    pub uses: i32,
    pub monster_id: Option<i32>,
    pub player_id: Option<i32>,
    pub item_id: Option<i32>,
}

/// An ability record before it has been assigned an id by storage.
#[derive(Clone, Debug)]
pub struct NewAbility {
    pub name: String,
    pub descrip: String,
    pub damage_dice: Option<String>,
    pub attack_bonus: Option<i32>,
    pub uses_left: i32,
    pub uses: i32,
    pub monster_id: Option<i32>,
    pub player_id: Option<i32>,
}

/// A room of the game world; narrative context for encounters.
#[derive(Clone, Debug)]
pub struct Room {
    pub id: i32,
    pub shortid: String,
    pub name: String,
    pub descrip: String,
}

/// A room record before it has been assigned an id by storage.
#[derive(Clone, Debug)]
pub struct NewRoom {
    pub shortid: String,
    pub name: String,
    pub descrip: String,
}

/// An item that a player or room may hold. `qty == -1` means unlimited.
#[derive(Clone, Debug)]
pub struct Item {
    pub id: i32,
    pub name: String,
    pub descrip: String,
    pub qty: i32,
    pub player_id: Option<i32>,
    pub room_id: Option<i32>,
}

/// An item record before it has been assigned an id by storage.
#[derive(Clone, Debug)]
pub struct NewItem {
    pub name: String,
    pub descrip: String,
    pub qty: i32,
    pub player_id: Option<i32>,
    pub room_id: Option<i32>,
}

/// A live participant of the current encounter. Exactly one of
/// `player_id` and `monster_id` is set for template-derived combatants;
/// both are `None` for freeform ones. `initiative` is 0 until rolled,
/// and `cur_hp` may go negative: nothing removes a combatant on death.
#[derive(Clone, Debug)]
pub struct Combatant {
    pub id: i64,
    pub name: String,
    pub initiative: i64,
    pub cur_hp: i64,
    pub max_hp: i64,
    pub armor_class: i32,
    pub attack: String,
    pub attack_bonus: i32,
    pub player_id: Option<i32>,
    pub monster_id: Option<i32>,
}

/// A combatant record before the roster has assigned it an id.
#[derive(Clone, Debug)]
pub struct NewCombatant<'a> {
    pub name: &'a str,
    pub attack: &'a str,
    pub max_hp: i32,
    pub cur_hp: i32,
    pub armor_class: i32,
    pub monster_id: Option<i32>,
    pub player_id: Option<i32>,
}

/// A free-form key/value configuration record.
#[derive(Clone, Debug)]
pub struct Property {
    pub id: i32,
    pub name: String,
    pub value: String,
}

/// A property record before it has been assigned an id by storage.
#[derive(Clone, Debug)]
pub struct NewProperty<'a> {
    pub name: &'a str,
    pub value: &'a str,
}

/// A spell that can be taught to a player as an ability.
#[derive(Clone, Debug)]
pub struct Spell {
    pub id: i32,
    pub name: String,
    pub typ: String,
    pub ritual: bool,
    pub level: String,
    pub school: String,
    pub casting_time: String,
    pub range: String,
    pub duration: String,
    pub descrip: String,
}

/// A spell record before it has been assigned an id by storage.
#[derive(Clone, Debug)]
pub struct NewSpell {
    pub name: String,
    pub typ: String,
    pub ritual: bool,
    pub level: String,
    pub school: String,
    pub casting_time: String,
    pub range: String,
    pub duration: String,
    pub descrip: String,
}

} // verus!
