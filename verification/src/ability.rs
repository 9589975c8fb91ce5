use vstd::prelude::*;

use crate::encounter::Encounter;
use crate::errors::EngineError;
use crate::models::{Ability, Combatant, NewAbility, Player, Spell};

verus! {

/// `a2` is `a1` after one use: `uses_left` went down by one unless it
/// was the unlimited sentinel -1, which is never decremented; nothing
/// else changed.
pub open spec fn is_ability_used(a2: Ability, a1: Ability) -> bool {
    &&& a2.id == a1.id
    &&& a2.name == a1.name
    &&& a2.descrip == a1.descrip
    &&& a2.damage_dice == a1.damage_dice
    &&& a2.attack_bonus == a1.attack_bonus
    &&& a2.uses_left == (if a1.uses_left == -1 {
        -1int
    } else {
        a1.uses_left - 1
    })
    &&& a2.uses == a1.uses
    &&& a2.monster_id == a1.monster_id
    &&& a2.player_id == a1.player_id
    &&& a2.item_id == a1.item_id
}

/// `c2` is `c` with the ability's overrides written on: its attack
/// expression replaced when the ability carries a damage-dice override,
/// its to-hit bonus replaced when the ability carries an attack-bonus
/// override; everything else untouched. The overrides are independent:
/// an ability may carry neither, either, or both.
pub open spec fn is_combatant_overridden(c2: Combatant, c: Combatant, ab: Ability) -> bool {
    &&& c2.id == c.id
    &&& c2.name == c.name
    &&& c2.initiative == c.initiative
    &&& c2.cur_hp == c.cur_hp
    &&& c2.max_hp == c.max_hp
    &&& c2.armor_class == c.armor_class
    &&& (match ab.damage_dice {
        Some(dd) => c2.attack@ == dd@,
        None => c2.attack == c.attack,
    })
    &&& c2.attack_bonus == (match ab.attack_bonus {
        Some(b) => b,
        None => c.attack_bonus,
    })
    &&& c2.player_id == c.player_id
    &&& c2.monster_id == c.monster_id
}

impl Encounter {
    /// Uses an ability for a roster combatant. An exhausted ability
    /// (`uses_left == 0`) always fails with `NoUsesLeft` and changes
    /// nothing — neither the ability nor the combatant. Otherwise the
    /// ability's overrides are written onto the combatant, where they
    /// persist until overwritten or the encounter ends (no expiry), and
    /// a finite use counter is decremented; -1 means unlimited and is
    /// never decremented. A missing combatant id fails with `NotFound`
    /// and changes nothing.
    pub fn use_ability(&mut self, ability: &mut Ability, combatant_id: i64) -> (r: Result<
        (),
        EngineError,
    >)
        requires
            old(self).wf(),
            old(ability).uses_left >= -1,
        ensures
            final(self).wf(),
            final(self).current_turn == old(self).current_turn,
            final(self).last_dice_spec == old(self).last_dice_spec,
            old(ability).uses_left == 0 ==> {
                &&& r == Err::<(), EngineError>(EngineError::NoUsesLeft)
                &&& *final(ability) == *old(ability)
                &&& final(self).combatants@ == old(self).combatants@
            },
            old(ability).uses_left != 0 && !(1 <= combatant_id as int <= old(self).combatants@.len()) ==> {
                &&& r == Err::<(), EngineError>(EngineError::NotFound)
                &&& *final(ability) == *old(ability)
                &&& final(self).combatants@ == old(self).combatants@
            },
            old(ability).uses_left != 0 && 1 <= combatant_id as int <= old(self).combatants@.len() ==> {
                &&& r == Ok::<(), EngineError>(())
                &&& is_ability_used(*final(ability), *old(ability))
                &&& final(self).combatants@.len() == old(self).combatants@.len()
                &&& forall|j: int|
                    0 <= j < old(self).combatants@.len() && j != combatant_id - 1
                        ==> final(self).combatants@[j] == old(self).combatants@[j]
                &&& is_combatant_overridden(
                    final(self).combatants@[combatant_id - 1],
                    old(self).combatants@[combatant_id - 1],
                    *old(ability),
                )
            },
    {
        if ability.uses_left == 0 {
            return Err(EngineError::NoUsesLeft);
        }
        let n = self.combatants.len();
        if !(1 <= combatant_id && combatant_id <= n as i64) {
            return Err(EngineError::NotFound);
        }
        let idx: usize = (combatant_id - 1) as usize;
        match &ability.damage_dice {
            Some(dd) => {
                self.combatants[idx].attack = dd.clone();
            },
            None => {},
        }
        match ability.attack_bonus {
            Some(b) => {
                self.combatants[idx].attack_bonus = b;
            },
            None => {},
        }
        if ability.uses_left != -1 {
            ability.uses_left = ability.uses_left - 1;
        }
        Ok(())
    }
}

/// `a2` is `a1` with its remaining uses restored to its full count.
pub open spec fn is_ability_recovered(a2: Ability, a1: Ability) -> bool {
    &&& a2.id == a1.id
    &&& a2.name == a1.name
    &&& a2.descrip == a1.descrip
    &&& a2.damage_dice == a1.damage_dice
    &&& a2.attack_bonus == a1.attack_bonus
    &&& a2.uses_left == a1.uses
    &&& a2.uses == a1.uses
    &&& a2.monster_id == a1.monster_id
    &&& a2.player_id == a1.player_id
    &&& a2.item_id == a1.item_id
}

/// Restores every ability's remaining uses to its full count (a long
/// rest); reports how many records were touched.
pub fn recover_uses(abilities: &mut Vec<Ability>) -> (n: usize)
    ensures
        n == old(abilities)@.len(),
        final(abilities)@.len() == old(abilities)@.len(),
        forall|i: int|
            0 <= i < old(abilities)@.len() ==> is_ability_recovered(
                #[trigger] final(abilities)@[i],
                old(abilities)@[i],
            ),
{
    let n = abilities.len();
    let mut i: usize = 0;
    while i < n
        invariant
            n == old(abilities)@.len(),
            abilities@.len() == n,
            i <= n,
            forall|j: int| i <= j < n ==> abilities@[j] == old(abilities)@[j],
            forall|j: int|
                0 <= j < i ==> is_ability_recovered(#[trigger] abilities@[j], old(abilities)@[j]),
        decreases n - i,
    {
        let full = abilities[i].uses;
        abilities[i].uses_left = full;
        i += 1;
    }
    n
}

/// The ability record a spell becomes when a player learns it: an
/// unlimited-use ability owned by the player, without overrides, whose
/// name and description cite the spell.
pub open spec fn is_spell_ability(a: NewAbility, p: Player, s: Spell) -> bool {
    &&& a.name@ == "Spell: "@ + s.name@ + " ("@ + s.typ@ + ")"@
    &&& a.descrip@ == "range "@ + s.range@ + " | time "@ + s.casting_time@ + "\n\n"@ + s.descrip@
    &&& a.damage_dice is None
    &&& a.attack_bonus is None
    &&& a.uses_left == -1
    &&& a.uses == -1
    &&& a.monster_id is None
    &&& a.player_id == Some(p.id)
}

/// Builds the ability record that teaching spell `s` to player `p`
/// creates.
pub fn spell_to_player_ability(p: &Player, s: &Spell) -> (a: NewAbility)
    ensures
        is_spell_ability(a, *p, *s),
{
    let mut name = "Spell: ".to_owned();
    name.append(s.name.as_str());
    name.append(" (");
    name.append(s.typ.as_str());
    name.append(")");
    let mut descrip = "range ".to_owned();
    descrip.append(s.range.as_str());
    descrip.append(" | time ");
    descrip.append(s.casting_time.as_str());
    descrip.append("\n\n");
    descrip.append(s.descrip.as_str());
    NewAbility {
        name,
        descrip,
        damage_dice: None,
        attack_bonus: None,
        uses_left: -1,
        uses: -1,
        monster_id: None,
        player_id: Some(p.id),
    }
}

} // verus!
