use vstd::prelude::*;

use crate::dice;
use crate::errors::EngineError;
use crate::models::{Combatant, Monster, Player};

verus! {

/// A combatant's origin tags are mutually exclusive: it stems from a
/// player, from a monster, or from neither, never from both.
pub open spec fn combatant_wf(c: Combatant) -> bool {
    !(c.player_id is Some && c.monster_id is Some)
}

/// The roster assigns ids 1, 2, ... in insertion order, and every entry
/// keeps its origin tags exclusive.
pub open spec fn roster_wf(roster: Seq<Combatant>) -> bool {
    &&& roster.len() <= i64::MAX as int
    &&& forall|i: int| 0 <= i < roster.len() ==> (#[trigger] roster[i]).id == i + 1
    &&& forall|i: int| 0 <= i < roster.len() ==> combatant_wf(#[trigger] roster[i])
}

/// One encounter: the roster of active combatants, whose turn it is,
/// and the most recently rolled dice expression (for rerolls). Nothing
/// removes a combatant mid-encounter; the roster only grows until the
/// encounter ends.
pub struct Encounter {
    pub combatants: Vec<Combatant>,
    pub current_turn: Option<i64>,
    pub last_dice_spec: Option<String>,
}

impl Encounter {
    /// Well-formedness: the roster numbering holds, the turn pointer
    /// names a roster id, and any remembered dice expression is valid
    /// (only successfully evaluated expressions are remembered).
    pub open spec fn wf(&self) -> bool {
        &&& roster_wf(self.combatants@)
        &&& match self.current_turn {
            Some(id) => 1 <= id as int <= self.combatants@.len(),
            None => true,
        }
        &&& match self.last_dice_spec {
            Some(s) => dice::spec_valid_dice(s@),
            None => true,
        }
    }

    /// A fresh encounter: empty roster, nobody's turn, nothing rolled.
    pub fn new() -> (e: Encounter)
        ensures
            e.wf(),
            e.combatants@.len() == 0,
            e.current_turn is None,
            e.last_dice_spec is None,
    {
        Encounter { combatants: Vec::new(), current_turn: None, last_dice_spec: None }
    }

    /// Evaluates a dice expression and remembers it as the most recent
    /// roll, enabling a later reroll. Fails with `InvalidDiceSpec`
    /// exactly when the text is invalid, in which case nothing changes.
    pub fn roll_dice(&mut self, spec: &str) -> (r: Result<i64, EngineError>)
        requires
            old(self).wf(),
        ensures
            final(self).wf(),
            final(self).combatants@ == old(self).combatants@,
            final(self).current_turn == old(self).current_turn,
            dice::spec_valid_dice(spec@) ==> {
                &&& r matches Ok(v) && dice::dice_min(spec@) <= v as int <= dice::dice_max(spec@)
                &&& final(self).last_dice_spec matches Some(s) && s@ == spec@
            },
            !dice::spec_valid_dice(spec@) ==> r == Err::<i64, EngineError>(
                EngineError::InvalidDiceSpec,
            ) && final(self).last_dice_spec == old(self).last_dice_spec,
    {
        match dice::roll_dice(spec) {
            Ok(v) => {
                self.last_dice_spec = Some(spec.to_owned());
                Ok(v)
            },
            Err(e) => Err(e),
        }
    }

    /// Rolls the most recently rolled expression again, or reports
    /// `None` when nothing has been rolled yet. A remembered expression
    /// is always valid, so a reroll cannot fail.
    pub fn reroll(&self) -> (r: Option<i64>)
        requires
            self.wf(),
        ensures
            match r {
                Some(v) => self.last_dice_spec matches Some(s) && dice::dice_min(s@) <= v as int
                    <= dice::dice_max(s@),
                None => self.last_dice_spec is None,
            },
    {
        match &self.last_dice_spec {
            Some(s) => {
                match dice::roll_dice(s.as_str()) {
                    Ok(v) => Some(v),
                    Err(_) => None,  // cannot happen: the expression was valid when remembered
                }
            },
            None => None,
        }
    }
}

/// The combatant a player template seeds: full hit points, the player's
/// armor class, the bare-fist attack "1d1" (always 1 damage), no to-hit
/// bonus, and an initiative of 0 until one is rolled.
pub open spec fn is_player_combatant(c: Combatant, p: Player, id: int) -> bool {
    &&& c.id == id
    &&& c.name@ == p.name@
    &&& c.initiative == 0
    &&& c.cur_hp == p.hit_points as int
    &&& c.max_hp == p.hit_points as int
    &&& c.armor_class == p.armor_class
    &&& c.attack@ == "1d1"@
    &&& c.attack_bonus == 0
    &&& c.player_id == Some(p.id)
    &&& c.monster_id is None
}

/// The combatant a monster template seeds; symmetric to the player case.
pub open spec fn is_monster_combatant(c: Combatant, m: Monster, id: int) -> bool {
    &&& c.id == id
    &&& c.name@ == m.name@
    &&& c.initiative == 0
    &&& c.cur_hp == m.hit_points as int
    &&& c.max_hp == m.hit_points as int
    &&& c.armor_class == m.armor_class
    &&& c.attack@ == "1d1"@
    &&& c.attack_bonus == 0
    &&& c.player_id is None
    &&& c.monster_id == Some(m.id)
}

/// A freeform combatant: no origin template at all.
pub open spec fn is_freeform_combatant(
    c: Combatant,
    name: Seq<char>,
    attack: Seq<char>,
    max_hp: int,
    armor_class: int,
    id: int,
) -> bool {
    &&& c.id == id
    &&& c.name@ == name
    &&& c.initiative == 0
    &&& c.cur_hp == max_hp
    &&& c.max_hp == max_hp
    &&& c.armor_class == armor_class
    &&& c.attack@ == attack
    &&& c.attack_bonus == 0
    &&& c.player_id is None
    &&& c.monster_id is None
}

impl Encounter {
    /// Seeds a combatant from a player template and adds it to the
    /// roster; returns the new combatant's id.
    pub fn add_from_player(&mut self, p: &Player) -> (id: i64)
        requires
            old(self).wf(),
            old(self).combatants@.len() < i64::MAX as int,
        ensures
            final(self).wf(),
            final(self).combatants@.len() == old(self).combatants@.len() as int + 1,
            forall|i: int|
                0 <= i < old(self).combatants@.len() ==> final(self).combatants@[i] == old(
                    self,
                ).combatants@[i],
            is_player_combatant(
                final(self).combatants@.last(),
                *p,
                old(self).combatants@.len() as int + 1,
            ),
            id == old(self).combatants@.len() as int + 1,
            final(self).current_turn == old(self).current_turn,
            final(self).last_dice_spec == old(self).last_dice_spec,
    {
        let id: i64 = (self.combatants.len() as i64) + 1;
        self.combatants.push(
            Combatant {
                id,
                name: p.name.clone(),
                initiative: 0,
                cur_hp: p.hit_points as i64,
                max_hp: p.hit_points as i64,
                armor_class: p.armor_class,
                attack: "1d1".to_owned(),
                attack_bonus: 0,
                player_id: Some(p.id),
                monster_id: None,
            },
        );
        id
    }

    /// Seeds a combatant from a monster template and adds it to the
    /// roster; returns the new combatant's id.
    pub fn add_from_monster(&mut self, m: &Monster) -> (id: i64)
        requires
            old(self).wf(),
            old(self).combatants@.len() < i64::MAX as int,
        ensures
            final(self).wf(),
            final(self).combatants@.len() == old(self).combatants@.len() as int + 1,
            forall|i: int|
                0 <= i < old(self).combatants@.len() ==> final(self).combatants@[i] == old(
                    self,
                ).combatants@[i],
            is_monster_combatant(
                final(self).combatants@.last(),
                *m,
                old(self).combatants@.len() as int + 1,
            ),
            id == old(self).combatants@.len() as int + 1,
            final(self).current_turn == old(self).current_turn,
            final(self).last_dice_spec == old(self).last_dice_spec,
    {
        let id: i64 = (self.combatants.len() as i64) + 1;
        self.combatants.push(
            Combatant {
                id,
                name: m.name.clone(),
                initiative: 0,
                cur_hp: m.hit_points as i64,
                max_hp: m.hit_points as i64,
                armor_class: m.armor_class,
                attack: "1d1".to_owned(),
                attack_bonus: 0,
                player_id: None,
                monster_id: Some(m.id),
            },
        );
        id
    }

    /// Adds a combatant with no origin template. The attack expression
    /// is validated first by rolling it once (fail fast); an invalid
    /// expression fails with `InvalidDiceSpec` and changes nothing.
    pub fn add_freeform(&mut self, name: &str, attack: &str, max_hp: i64, armor_class: i32) -> (r:
        Result<i64, EngineError>)
        requires
            old(self).wf(),
            old(self).combatants@.len() < i64::MAX as int,
        ensures
            final(self).wf(),
            final(self).current_turn == old(self).current_turn,
            dice::spec_valid_dice(attack@) ==> {
                &&& r == Ok::<i64, EngineError>((old(self).combatants@.len() + 1) as i64)
                &&& final(self).combatants@.len() == old(self).combatants@.len() + 1
                &&& forall|i: int|
                    0 <= i < old(self).combatants@.len() ==> final(self).combatants@[i] == old(
                        self,
                    ).combatants@[i]
                &&& is_freeform_combatant(
                    final(self).combatants@.last(),
                    name@,
                    attack@,
                    max_hp as int,
                    armor_class as int,
                    old(self).combatants@.len() as int + 1,
                )
                &&& final(self).last_dice_spec matches Some(s) && s@ == attack@
            },
            !dice::spec_valid_dice(attack@) ==> {
                &&& r == Err::<i64, EngineError>(EngineError::InvalidDiceSpec)
                &&& final(self).combatants@ == old(self).combatants@
                &&& final(self).last_dice_spec == old(self).last_dice_spec
            },
    {
        match self.roll_dice(attack) {
            Ok(_) => {
                let id: i64 = (self.combatants.len() as i64) + 1;
                self.combatants.push(
                    Combatant {
                        id,
                        name: name.to_owned(),
                        initiative: 0,
                        cur_hp: max_hp,
                        max_hp,
                        armor_class,
                        attack: attack.to_owned(),
                        attack_bonus: 0,
                        player_id: None,
                        monster_id: None,
                    },
                );
                Ok(id)
            },
            Err(e) => Err(e),
        }
    }

    /// Ends the encounter: removes every combatant and resets the turn
    /// pointer. Called explicitly, and implicitly on a room transition,
    /// so a stale roster never bleeds into a new encounter.
    pub fn end_encounter(&mut self)
        requires
            old(self).wf(),
        ensures
            final(self).wf(),
            final(self).combatants@.len() == 0,
            final(self).current_turn is None,
            final(self).last_dice_spec == old(self).last_dice_spec,
    {
        self.combatants = Vec::new();
        self.current_turn = None;
    }

    /// Rolls a twenty-sided die through the dice evaluator, remembering
    /// "1d20" as the most recent roll. "1d20" is valid, so this cannot
    /// fail; the result always lands between 1 and 20.
    pub fn roll_d20(&mut self) -> (r: i64)
        requires
            old(self).wf(),
        ensures
            final(self).wf(),
            final(self).combatants@ == old(self).combatants@,
            final(self).current_turn == old(self).current_turn,
            final(self).last_dice_spec matches Some(s) && s@ == "1d20"@,
            1 <= r <= 20,
    {
        proof {
            dice::lemma_fixed_dice_specs();
        }
        match self.roll_dice("1d20") {
            Ok(v) => v,
            Err(_) => 1,  // unreachable: "1d20" is a valid expression
        }
    }

    /// Hands the turn to the combatant with the given id. Unlike the
    /// roster queries this is a manual override; an id no combatant
    /// holds fails with `NotFound` and changes nothing.
    pub fn set_current_turn(&mut self, id: i64) -> (r: Result<(), EngineError>)
        requires
            old(self).wf(),
        ensures
            final(self).wf(),
            final(self).combatants@ == old(self).combatants@,
            final(self).last_dice_spec == old(self).last_dice_spec,
            if 1 <= id as int <= old(self).combatants@.len() {
                r == Ok::<(), EngineError>(()) && final(self).current_turn == Some(id)
            } else {
                r == Err::<(), EngineError>(EngineError::NotFound) && final(self).current_turn
                    == old(self).current_turn
            },
    {
        let n = self.combatants.len();
        if 1 <= id && id <= n as i64 {
            self.current_turn = Some(id);
            Ok(())
        } else {
            Err(EngineError::NotFound)
        }
    }

    /// Finds a combatant by name: the first roster entry whose name
    /// contains the pattern, ignoring ASCII case. Roster order makes
    /// the first match deterministic; no match fails with `NotFound`.
    pub fn find_by_name_pattern(&self, pattern: &str) -> (r: Result<i64, EngineError>)
        requires
            self.wf(),
        ensures
            match r {
                Ok(id) => {
                    &&& 1 <= id as int <= self.combatants@.len()
                    &&& crate::text::contains_ci(self.combatants@[id - 1].name@, pattern@)
                    &&& forall|j: int|
                        0 <= j < id - 1 ==> !crate::text::contains_ci(
                            (#[trigger] self.combatants@[j]).name@,
                            pattern@,
                        )
                },
                Err(e) => {
                    &&& e == EngineError::NotFound
                    &&& forall|j: int|
                        0 <= j < self.combatants@.len() ==> !crate::text::contains_ci(
                            (#[trigger] self.combatants@[j]).name@,
                            pattern@,
                        )
                },
            },
    {
        let n = self.combatants.len();
        let mut i: usize = 0;
        while i < n
            invariant
                self.wf(),
                n == self.combatants@.len(),
                i <= n,
                forall|j: int|
                    0 <= j < i ==> !crate::text::contains_ci(
                        (#[trigger] self.combatants@[j]).name@,
                        pattern@,
                    ),
            decreases n - i,
        {
            if crate::text::contains_ignore_case(self.combatants[i].name.as_str(), pattern) {
                return Ok((i as i64) + 1);
            }
            i += 1;
        }
        Err(EngineError::NotFound)
    }

    /// The combatant whose turn it is, or `NoActiveTurn` when no
    /// encounter is running.
    pub fn current_combatant(&self) -> (r: Result<&Combatant, EngineError>)
        requires
            self.wf(),
        ensures
            match r {
                Ok(c) => self.current_turn matches Some(id) && *c == self.combatants@[id - 1],
                Err(e) => e == EngineError::NoActiveTurn && self.current_turn is None,
            },
    {
        match self.current_turn {
            Some(id) => {
                let n = self.combatants.len();
                let idx: usize = (id - 1) as usize;
                assert(idx < n);
                Ok(&self.combatants[idx])
            },
            None => Err(EngineError::NoActiveTurn),
        }
    }
}

} // verus!
