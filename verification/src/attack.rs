use vstd::prelude::*;

use crate::dice;
use crate::encounter::Encounter;
use crate::errors::EngineError;
use crate::models::Combatant;

verus! {

/// How an attack roll came out.
#[derive(Clone, Copy, Debug, PartialEq, Eq, Structural)]
pub enum AttackKind {
    /// A natural 1: always a failure, whatever the target.
    CriticalFailure,
    /// The roll fell short of the target.
    Miss,
    /// The roll met or beat the target.
    Hit,
    /// A natural 20: always a success, with a second damage roll.
    CriticalHit,
}

/// Everything an attack reports: the die roll the attacker had to meet,
/// the actual roll, its classification, the damage dealt (if any), and
/// the defender's hit points after the attack.
#[derive(Clone, Copy, Debug, PartialEq, Eq, Structural)]
pub struct AttackOutcome {
    pub target: i64,
    pub roll: i64,
    pub kind: AttackKind,
    pub damage: Option<i64>,
    pub defender_hp_after: i64,
}

/// The die roll the attacker must meet or exceed: the defender's armor
/// class minus the attacker's to-hit bonus.
pub open spec fn spec_attack_target(attacker: Combatant, defender: Combatant) -> int {
    defender.armor_class - attacker.attack_bonus
}

/// Classifies a d20 roll against a target: a natural 1 always fails
/// critically, a natural 20 always succeeds critically (even when the
/// target is above 20), anything else hits exactly when it meets the
/// target.
pub open spec fn spec_attack_kind(target: int, roll: int) -> AttackKind {
    if roll == 1 {
        AttackKind::CriticalFailure
    } else if roll == 20 {
        AttackKind::CriticalHit
    } else if roll < target {
        AttackKind::Miss
    } else {
        AttackKind::Hit
    }
}

/// A forced roll of 1 is a critical failure for every target.
pub proof fn lemma_roll_one_always_critical_failure(target: int)
    ensures
        spec_attack_kind(target, 1) == AttackKind::CriticalFailure,
{
}

/// A forced roll of 20 always succeeds, even when the target is
/// unreachable otherwise (armor class minus to-hit bonus above 20).
pub proof fn lemma_natural_twenty_always_hits(target: int)
    ensures
        spec_attack_kind(target, 20) == AttackKind::CriticalHit,
{
}

/// Clips a mathematical integer into the `i64` range.
pub open spec fn clamp64(v: int) -> int {
    if v > i64::MAX as int {
        i64::MAX as int
    } else if v < i64::MIN as int {
        i64::MIN as int
    } else {
        v
    }
}

/// `c2` is `c` with only its current hit points changed to `hp`.
pub open spec fn is_with_hp(c2: Combatant, c: Combatant, hp: int) -> bool {
    &&& c2.id == c.id
    &&& c2.name == c.name
    &&& c2.initiative == c.initiative
    &&& c2.cur_hp == hp
    &&& c2.max_hp == c.max_hp
    &&& c2.armor_class == c.armor_class
    &&& c2.attack == c.attack
    &&& c2.attack_bonus == c.attack_bonus
    &&& c2.player_id == c.player_id
    &&& c2.monster_id == c.monster_id
}

/// Clips an `i128` value into the `i64` range.
fn clamp_to_i64(v: i128) -> (r: i64)
    ensures
        r as int == clamp64(v as int),
{
    if v > i64::MAX as i128 {
        i64::MAX
    } else if v < i64::MIN as i128 {
        i64::MIN
    } else {
        v as i64
    }
}

impl AttackKind {
    /// The line announcing a failed attack; empty for a success.
    pub fn headline(&self) -> (r: &'static str)
        ensures
            *self is CriticalFailure ==> r@ == "CRITICAL FAILURE!"@,
            *self is Miss ==> r@ == "Attack failed."@,
            *self is Hit ==> r@ == "Hit!"@,
            *self is CriticalHit ==> r@ == "Critical hit! Dealing extra damage."@,
    {
        match self {
            AttackKind::CriticalFailure => "CRITICAL FAILURE!",
            AttackKind::Miss => "Attack failed.",
            AttackKind::Hit => "Hit!",
            AttackKind::CriticalHit => "Critical hit! Dealing extra damage.",
        }
    }
}

/// What resolving an attack with the given forced roll must do, given
/// the two combatants as they stood before the attack. On a critical
/// failure or a miss nothing is touched. On a success the attack
/// expression is evaluated once — twice, independently, on a critical
/// hit — and the damage comes off the defender's hit points with no
/// floor at zero (the subtraction clips only at the `i64` range).
pub open spec fn attack_post(
    pre: Encounter,
    post: Encounter,
    r: Result<AttackOutcome, EngineError>,
    a: Combatant,
    d: Combatant,
    di: int,
    roll: int,
) -> bool {
    let target = spec_attack_target(a, d);
    let kind = spec_attack_kind(target, roll);
    if kind is CriticalFailure || kind is Miss {
        &&& r == Ok::<AttackOutcome, EngineError>(
            AttackOutcome {
                target: target as i64,
                roll: roll as i64,
                kind: kind,
                damage: None,
                defender_hp_after: d.cur_hp,
            },
        )
        &&& post.combatants@ == pre.combatants@
        &&& post.last_dice_spec == pre.last_dice_spec
    } else if !dice::spec_valid_dice(a.attack@) {
        &&& r == Err::<AttackOutcome, EngineError>(EngineError::InvalidDiceSpec)
        &&& post.combatants@ == pre.combatants@
        &&& post.last_dice_spec == pre.last_dice_spec
    } else {
        exists|d1: i64, d2: i64|
            {
                &&& dice::dice_min(a.attack@) <= d1 as int <= dice::dice_max(a.attack@)
                &&& (kind is CriticalHit ==> dice::dice_min(a.attack@) <= d2 as int
                    <= dice::dice_max(a.attack@))
                &&& (kind is Hit ==> d2 == 0)
                &&& #[trigger] attack_applied(pre, post, r, a, d, di, roll, d1 as int, d2 as int)
            }
    }
}

/// The state and outcome after a successful attack with damage rolls
/// `d1` and `d2`.
pub open spec fn attack_applied(
    pre: Encounter,
    post: Encounter,
    r: Result<AttackOutcome, EngineError>,
    a: Combatant,
    d: Combatant,
    di: int,
    roll: int,
    d1: int,
    d2: int,
) -> bool {
    let target = spec_attack_target(a, d);
    let kind = spec_attack_kind(target, roll);
    let dmg = d1 + d2;
    let new_hp = clamp64(d.cur_hp - dmg);
    &&& r == Ok::<AttackOutcome, EngineError>(
        AttackOutcome {
            target: target as i64,
            roll: roll as i64,
            kind: kind,
            damage: Some(clamp64(dmg) as i64),
            defender_hp_after: new_hp as i64,
        },
    )
    &&& post.combatants@.len() == pre.combatants@.len()
    &&& forall|j: int|
        0 <= j < pre.combatants@.len() && j != di ==> post.combatants@[j] == pre.combatants@[j]
    &&& is_with_hp(post.combatants@[di], d, new_hp)
    &&& post.last_dice_spec matches Some(s) && s@ == a.attack@
}

impl Encounter {
    /// Resolves an attack between two roster combatants with a forced
    /// d20 roll: computes the target (defender's armor class minus
    /// attacker's to-hit bonus), classifies the roll, and on success
    /// evaluates the attacker's attack expression for damage — twice,
    /// independently, on a natural 20 — subtracting it from the
    /// defender's hit points, which may go negative and stay there. A
    /// missing combatant id fails with `NotFound`; an invalid attack
    /// expression surfaces as `InvalidDiceSpec` with the defender's hit
    /// points untouched. The failure cases roll no dice and change
    /// nothing.
    pub fn resolve_attack_with_roll(
        &mut self,
        attacker_id: i64,
        defender_id: i64,
        roll: i64,
    ) -> (r: Result<AttackOutcome, EngineError>)
        requires
            old(self).wf(),
            1 <= roll <= 20,
        ensures
            final(self).wf(),
            final(self).current_turn == old(self).current_turn,
            !(1 <= attacker_id as int <= old(self).combatants@.len() && 1 <= defender_id as int
                <= old(self).combatants@.len()) ==> {
                &&& r == Err::<AttackOutcome, EngineError>(EngineError::NotFound)
                &&& final(self).combatants@ == old(self).combatants@
                &&& final(self).last_dice_spec == old(self).last_dice_spec
            },
            (1 <= attacker_id as int <= old(self).combatants@.len() && 1 <= defender_id as int
                <= old(self).combatants@.len()) ==> attack_post(
                *old(self),
                *final(self),
                r,
                old(self).combatants@[attacker_id - 1],
                old(self).combatants@[defender_id - 1],
                defender_id - 1,
                roll as int,
            ),
    {
        let n = self.combatants.len();
        if !(1 <= attacker_id && attacker_id <= n as i64 && 1 <= defender_id && defender_id
            <= n as i64) {
            return Err(EngineError::NotFound);
        }
        let ai: usize = (attacker_id - 1) as usize;
        let di: usize = (defender_id - 1) as usize;
        let target: i64 = (self.combatants[di].armor_class as i64) - (
        self.combatants[ai].attack_bonus as i64);
        let kind = if roll == 1 {
            AttackKind::CriticalFailure
        } else if roll == 20 {
            AttackKind::CriticalHit
        } else if roll < target {
            AttackKind::Miss
        } else {
            AttackKind::Hit
        };
        if kind == AttackKind::CriticalFailure || kind == AttackKind::Miss {
            return Ok(
                AttackOutcome {
                    target,
                    roll,
                    kind,
                    damage: None,
                    defender_hp_after: self.combatants[di].cur_hp,
                },
            );
        }
        let attack_expr = self.combatants[ai].attack.clone();
        let d1 = match self.roll_dice(attack_expr.as_str()) {
            Ok(v) => v,
            Err(e) => {
                return Err(e);
            },
        };
        let d2: i64 = if roll == 20 {
            match self.roll_dice(attack_expr.as_str()) {
                Ok(v) => v,
                Err(_) => 0,  // unreachable: the expression just evaluated
            }
        } else {
            0
        };
        let dmg: i128 = d1 as i128 + d2 as i128;
        let old_hp = self.combatants[di].cur_hp;
        let new_hp = clamp_to_i64((old_hp as i128) - dmg);
        self.combatants[di].cur_hp = new_hp;
        let out = AttackOutcome {
            target,
            roll,
            kind,
            damage: Some(clamp_to_i64(dmg)),
            defender_hp_after: new_hp,
        };
        proof {
            let a = old(self).combatants@[attacker_id - 1];
            let d = old(self).combatants@[defender_id - 1];
            assert(attack_applied(
                *old(self),
                *self,
                Ok::<AttackOutcome, EngineError>(out),
                a,
                d,
                defender_id - 1,
                roll as int,
                d1 as int,
                d2 as int,
            ));
        }
        Ok(out)
    }

    /// Resolves an attack between two roster combatants, rolling the
    /// d20 through the dice evaluator. Everything else is as in the
    /// forced-roll variant; on a critical failure or a miss the only
    /// trace left behind is "1d20" as the most recent roll.
    pub fn resolve_attack(&mut self, attacker_id: i64, defender_id: i64) -> (r: Result<
        AttackOutcome,
        EngineError,
    >)
        requires
            old(self).wf(),
        ensures
            final(self).wf(),
            final(self).current_turn == old(self).current_turn,
            !(1 <= attacker_id as int <= old(self).combatants@.len() && 1 <= defender_id as int
                <= old(self).combatants@.len()) ==> {
                &&& r == Err::<AttackOutcome, EngineError>(EngineError::NotFound)
                &&& final(self).combatants@ == old(self).combatants@
                &&& final(self).last_dice_spec == old(self).last_dice_spec
            },
            (1 <= attacker_id as int <= old(self).combatants@.len() && 1 <= defender_id as int
                <= old(self).combatants@.len()) ==> exists|roll: int|
                {
                    &&& 1 <= roll <= 20
                    &&& #[trigger] attack_post_after_d20(
                        *old(self),
                        *final(self),
                        r,
                        old(self).combatants@[attacker_id - 1],
                        old(self).combatants@[defender_id - 1],
                        defender_id - 1,
                        roll,
                    )
                },
    {
        let n = self.combatants.len();
        if !(1 <= attacker_id && attacker_id <= n as i64 && 1 <= defender_id && defender_id
            <= n as i64) {
            return Err(EngineError::NotFound);
        }
        let ghost pre = *self;
        let roll = self.roll_d20();
        let ghost mid = *self;
        let r = self.resolve_attack_with_roll(attacker_id, defender_id, roll);
        proof {
            assert(mid.combatants@ == pre.combatants@);
            let a = pre.combatants@[attacker_id - 1];
            let d = pre.combatants@[defender_id - 1];
            let di = defender_id - 1;
            let target = spec_attack_target(a, d);
            let kind = spec_attack_kind(target, roll as int);
            if !(kind is CriticalFailure || kind is Miss) && dice::spec_valid_dice(a.attack@) {
                let (d1, d2) = choose|d1: i64, d2: i64|
                    {
                        &&& dice::dice_min(a.attack@) <= d1 as int <= dice::dice_max(a.attack@)
                        &&& (kind is CriticalHit ==> dice::dice_min(a.attack@) <= d2 as int
                            <= dice::dice_max(a.attack@))
                        &&& (kind is Hit ==> d2 == 0)
                        &&& #[trigger] attack_applied(
                            mid,
                            *self,
                            r,
                            a,
                            d,
                            di,
                            roll as int,
                            d1 as int,
                            d2 as int,
                        )
                    };
                assert(attack_applied(pre, *self, r, a, d, di, roll as int, d1 as int, d2 as int));
            }
            assert(attack_post_after_d20(pre, *self, r, a, d, di, roll as int));
        }
        r
    }
}

/// As `attack_post`, except that the d20 roll itself went through the
/// dice evaluator first: on a critical failure or a miss the roster is
/// untouched but "1d20" is remembered as the most recent roll.
pub open spec fn attack_post_after_d20(
    pre: Encounter,
    post: Encounter,
    r: Result<AttackOutcome, EngineError>,
    a: Combatant,
    d: Combatant,
    di: int,
    roll: int,
) -> bool {
    let target = spec_attack_target(a, d);
    let kind = spec_attack_kind(target, roll);
    if kind is CriticalFailure || kind is Miss {
        &&& r == Ok::<AttackOutcome, EngineError>(
            AttackOutcome {
                target: target as i64,
                roll: roll as i64,
                kind: kind,
                damage: None,
                defender_hp_after: d.cur_hp,
            },
        )
        &&& post.combatants@ == pre.combatants@
        &&& post.last_dice_spec matches Some(s) && s@ == "1d20"@
    } else if !dice::spec_valid_dice(a.attack@) {
        &&& r == Err::<AttackOutcome, EngineError>(EngineError::InvalidDiceSpec)
        &&& post.combatants@ == pre.combatants@
        &&& post.last_dice_spec matches Some(s) && s@ == "1d20"@
    } else {
        exists|d1: i64, d2: i64|
            {
                &&& dice::dice_min(a.attack@) <= d1 as int <= dice::dice_max(a.attack@)
                &&& (kind is CriticalHit ==> dice::dice_min(a.attack@) <= d2 as int
                    <= dice::dice_max(a.attack@))
                &&& (kind is Hit ==> d2 == 0)
                &&& #[trigger] attack_applied(pre, post, r, a, d, di, roll, d1 as int, d2 as int)
            }
    }
}

} // verus!
