use vstd::prelude::*;

use crate::models::{NewAbility, NewItem, NewMonster, NewPlayer, NewRoom, NewSpell};

verus! {

/// A weapon entry of a bulk data file; it unfolds into an item and an
/// attack ability for its owner.
#[derive(Clone, Debug)]
pub struct Weapon {
    pub name: String,
    pub descrip: String,
    pub qty: i32,
    pub damage_dice: Option<String>,
    pub attack_bonus: Option<i32>,
    pub player_id: Option<i32>,
}

/// A bulk data file: record lists to be loaded into storage wholesale.
#[derive(Clone, Debug)]
pub struct Datafile {
    pub items: Vec<NewItem>,
    pub rooms: Vec<NewRoom>,
    pub abilities: Vec<NewAbility>,
    pub players: Vec<NewPlayer>,
    pub monsters: Vec<NewMonster>,
    pub weapons: Vec<Weapon>,
}

/// One ability of a monster as the reference data lists it.
#[derive(Clone, Debug)]
pub struct MonsterAbility {
    pub name: String,
    pub desc: String,
    pub damage_dice: Option<String>,
    pub attack_bonus: Option<i32>,
}

/// A monster as the reference data lists it: the stat block together
/// with its special abilities and actions.
#[derive(Clone, Debug)]
pub struct SrdMonster {
    pub name: String,
    pub typ: String,
    pub armor_class: i32,
    pub hit_points: i32,
    pub strength: i32,
    pub intelligence: i32,
    pub dexterity: i32,
    pub constitution: i32,
    pub wisdom: i32,
    pub charisma: i32,
    pub challenge_rating: String,
    pub special_abilities: Vec<MonsterAbility>,
    pub actions: Vec<MonsterAbility>,
}

/// `o2` holds the same text as `o1`, or both are absent.
pub open spec fn same_opt_text(o2: Option<String>, o1: Option<String>) -> bool {
    match o1 {
        Some(s1) => o2 matches Some(s2) && s2@ == s1@,
        None => o2 is None,
    }
}

/// The monster record a reference entry becomes: the stat block copied
/// field for field, placed in no room yet.
pub open spec fn is_monster_record(r: NewMonster, m: SrdMonster) -> bool {
    &&& r.name@ == m.name@
    &&& r.typ@ == m.typ@
    &&& r.armor_class == m.armor_class
    &&& r.hit_points == m.hit_points
    &&& r.strength == m.strength
    &&& r.intelligence == m.intelligence
    &&& r.dexterity == m.dexterity
    &&& r.constitution == m.constitution
    &&& r.wisdom == m.wisdom
    &&& r.charisma == m.charisma
    &&& r.challenge_rating@ == m.challenge_rating@
    &&& r.room_id@.len() == 0
}

/// Builds the monster record a reference entry inserts.
pub fn srd_to_new_monster(m: &SrdMonster) -> (r: NewMonster)
    ensures
        is_monster_record(r, *m),
{
    NewMonster {
        name: m.name.clone(),
        typ: m.typ.clone(),
        armor_class: m.armor_class,
        hit_points: m.hit_points,
        strength: m.strength,
        intelligence: m.intelligence,
        dexterity: m.dexterity,
        constitution: m.constitution,
        wisdom: m.wisdom,
        charisma: m.charisma,
        challenge_rating: m.challenge_rating.clone(),
        room_id: Vec::new(),
    }
}

/// The ability record a monster's reference ability becomes: unlimited
/// uses, owned by the monster with the given id.
pub open spec fn is_monster_ability_record(r: NewAbility, a: MonsterAbility, monster_id: i32) -> bool {
    &&& r.name@ == a.name@
    &&& r.descrip@ == a.desc@
    &&& same_opt_text(r.damage_dice, a.damage_dice)
    &&& r.attack_bonus == a.attack_bonus
    &&& r.uses_left == -1
    &&& r.uses == -1
    &&& r.monster_id == Some(monster_id)
    &&& r.player_id is None
}

/// Builds the ability record for one reference ability of a monster.
pub fn monster_ability_to_new(a: &MonsterAbility, monster_id: i32) -> (r: NewAbility)
    ensures
        is_monster_ability_record(r, *a, monster_id),
{
    let damage_dice = match &a.damage_dice {
        Some(d) => Some(d.clone()),
        None => None,
    };
    NewAbility {
        name: a.name.clone(),
        descrip: a.desc.clone(),
        damage_dice,
        attack_bonus: a.attack_bonus,
        uses_left: -1,
        uses: -1,
        monster_id: Some(monster_id),
        player_id: None,
    }
}

/// Builds the ability records of a reference monster once it has been
/// assigned an id: its special abilities first, then its actions.
pub fn srd_monster_abilities(m: &SrdMonster, monster_id: i32) -> (r: Vec<NewAbility>)
    ensures
        r@.len() == m.special_abilities@.len() + m.actions@.len(),
        forall|i: int|
            0 <= i < m.special_abilities@.len() ==> is_monster_ability_record(
                #[trigger] r@[i],
                m.special_abilities@[i],
                monster_id,
            ),
        forall|i: int|
            0 <= i < m.actions@.len() ==> is_monster_ability_record(
                #[trigger] r@[m.special_abilities@.len() + i],
                m.actions@[i],
                monster_id,
            ),
{
    let mut out: Vec<NewAbility> = Vec::new();
    let ns = m.special_abilities.len();
    let mut i: usize = 0;
    while i < ns
        invariant
            ns == m.special_abilities@.len(),
            i <= ns,
            out@.len() == i,
            forall|j: int|
                0 <= j < i ==> is_monster_ability_record(
                    #[trigger] out@[j],
                    m.special_abilities@[j],
                    monster_id,
                ),
        decreases ns - i,
    {
        let a = monster_ability_to_new(&m.special_abilities[i], monster_id);
        out.push(a);
        i += 1;
    }
    let na = m.actions.len();
    let mut k: usize = 0;
    while k < na
        invariant
            ns == m.special_abilities@.len(),
            na == m.actions@.len(),
            k <= na,
            out@.len() == ns + k,
            forall|j: int|
                0 <= j < ns ==> is_monster_ability_record(
                    #[trigger] out@[j],
                    m.special_abilities@[j],
                    monster_id,
                ),
            forall|j: int|
                0 <= j < k ==> is_monster_ability_record(
                    #[trigger] out@[ns + j],
                    m.actions@[j],
                    monster_id,
                ),
        decreases na - k,
    {
        let a = monster_ability_to_new(&m.actions[k], monster_id);
        out.push(a);
        k += 1;
    }
    out
}

/// The attack ability a weapon entry unfolds into: unlimited uses,
/// owned by the weapon's owner, named after the weapon.
pub open spec fn is_weapon_ability(r: NewAbility, w: Weapon) -> bool {
    &&& r.name@ == "Attack using "@ + w.name@
    &&& r.descrip@ == "Weapon: "@ + w.descrip@
    &&& same_opt_text(r.damage_dice, w.damage_dice)
    &&& r.attack_bonus == w.attack_bonus
    &&& r.uses_left == -1
    &&& r.uses == -1
    &&& r.monster_id is None
    &&& r.player_id == w.player_id
}

/// Builds the attack ability a weapon entry inserts.
pub fn weapon_to_ability(w: &Weapon) -> (r: NewAbility)
    ensures
        is_weapon_ability(r, *w),
{
    let mut name = "Attack using ".to_owned();
    name.append(w.name.as_str());
    let mut descrip = "Weapon: ".to_owned();
    descrip.append(w.descrip.as_str());
    let damage_dice = match &w.damage_dice {
        Some(d) => Some(d.clone()),
        None => None,
    };
    NewAbility {
        name,
        descrip,
        damage_dice,
        attack_bonus: w.attack_bonus,
        uses_left: -1,
        uses: -1,
        monster_id: None,
        player_id: w.player_id,
    }
}

/// The item record a weapon entry inserts, placed in no room.
pub open spec fn is_weapon_item(r: NewItem, w: Weapon) -> bool {
    &&& r.name@ == w.name@
    &&& r.descrip@ == w.descrip@
    &&& r.qty == w.qty
    &&& r.player_id == w.player_id
    &&& r.room_id is None
}

/// Builds the item record a weapon entry inserts.
pub fn weapon_to_item(w: &Weapon) -> (r: NewItem)
    ensures
        is_weapon_item(r, *w),
{
    NewItem {
        name: w.name.clone(),
        descrip: w.descrip.clone(),
        qty: w.qty,
        player_id: w.player_id,
        room_id: None,
    }
}

} // verus!
