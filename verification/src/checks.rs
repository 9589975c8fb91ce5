use vstd::prelude::*;

use crate::encounter::Encounter;
use crate::errors::EngineError;
use crate::models::Player;
use crate::stats;
use crate::text;

verus! {

/// The six ability scores a check can be rolled against.
#[derive(Clone, Copy, Debug, PartialEq, Eq, Structural)]
pub enum Attribute {
    Strength,
    Intelligence,
    Dexterity,
    Constitution,
    Wisdom,
    Charisma,
}

/// Which attribute a chat token names: the short or long form of each
/// score, ignoring ASCII case; anything else names none.
pub open spec fn spec_attr_of(s: Seq<char>) -> Option<Attribute> {
    let l = text::lower_seq(s);
    if l == "str"@ || l == "strength"@ {
        Some(Attribute::Strength)
    } else if l == "dex"@ || l == "dexterity"@ {
        Some(Attribute::Dexterity)
    } else if l == "wis"@ || l == "wisdom"@ {
        Some(Attribute::Wisdom)
    } else if l == "int"@ || l == "intelligence"@ {
        Some(Attribute::Intelligence)
    } else if l == "cha"@ || l == "charisma"@ {
        Some(Attribute::Charisma)
    } else if l == "con"@ || l == "constitution"@ {
        Some(Attribute::Constitution)
    } else {
        None
    }
}

/// The player's raw score for an attribute.
pub open spec fn spec_attr_score(p: Player, a: Attribute) -> int {
    match a {
        Attribute::Strength => p.strength as int,
        Attribute::Intelligence => p.intelligence as int,
        Attribute::Dexterity => p.dexterity as int,
        Attribute::Constitution => p.constitution as int,
        Attribute::Wisdom => p.wisdom as int,
        Attribute::Charisma => p.charisma as int,
    }
}

/// Parses an attribute name.
pub fn attr_of(s: &str) -> (r: Option<Attribute>)
    ensures
        r == spec_attr_of(s@),
{
    proof {
        reveal_strlit("str");
        reveal_strlit("strength");
        reveal_strlit("dex");
        reveal_strlit("dexterity");
        reveal_strlit("wis");
        reveal_strlit("wisdom");
        reveal_strlit("int");
        reveal_strlit("intelligence");
        reveal_strlit("cha");
        reveal_strlit("charisma");
        reveal_strlit("con");
        reveal_strlit("constitution");
        assert(text::lower_seq("str"@) =~= "str"@);
        assert(text::lower_seq("strength"@) =~= "strength"@);
        assert(text::lower_seq("dex"@) =~= "dex"@);
        assert(text::lower_seq("dexterity"@) =~= "dexterity"@);
        assert(text::lower_seq("wis"@) =~= "wis"@);
        assert(text::lower_seq("wisdom"@) =~= "wisdom"@);
        assert(text::lower_seq("int"@) =~= "int"@);
        assert(text::lower_seq("intelligence"@) =~= "intelligence"@);
        assert(text::lower_seq("cha"@) =~= "cha"@);
        assert(text::lower_seq("charisma"@) =~= "charisma"@);
        assert(text::lower_seq("con"@) =~= "con"@);
        assert(text::lower_seq("constitution"@) =~= "constitution"@);
    }
    if text::eq_ignore_case(s, "str") || text::eq_ignore_case(s, "strength") {
        Some(Attribute::Strength)
    } else if text::eq_ignore_case(s, "dex") || text::eq_ignore_case(s, "dexterity") {
        Some(Attribute::Dexterity)
    } else if text::eq_ignore_case(s, "wis") || text::eq_ignore_case(s, "wisdom") {
        Some(Attribute::Wisdom)
    } else if text::eq_ignore_case(s, "int") || text::eq_ignore_case(s, "intelligence") {
        Some(Attribute::Intelligence)
    } else if text::eq_ignore_case(s, "cha") || text::eq_ignore_case(s, "charisma") {
        Some(Attribute::Charisma)
    } else if text::eq_ignore_case(s, "con") || text::eq_ignore_case(s, "constitution") {
        Some(Attribute::Constitution)
    } else {
        None
    }
}

/// The player's raw score for an attribute.
pub fn attr_score(p: &Player, a: Attribute) -> (r: i32)
    ensures
        r as int == spec_attr_score(*p, a),
{
    match a {
        Attribute::Strength => p.strength,
        Attribute::Intelligence => p.intelligence,
        Attribute::Dexterity => p.dexterity,
        Attribute::Constitution => p.constitution,
        Attribute::Wisdom => p.wisdom,
        Attribute::Charisma => p.charisma,
    }
}

/// How an ability check came out.
#[derive(Clone, Copy, Debug, PartialEq, Eq, Structural)]
pub enum CheckKind {
    /// A natural 1.
    CheckCriticalFailure,
    /// A natural 20.
    CheckGreatSuccess,
    /// Anything in between: the check reports roll plus modifier.
    CheckNormal,
}

/// An ability check's result: the d20 roll, the score's modifier, their
/// sum, and the classification (a natural 1 or 20 is special).
#[derive(Clone, Copy, Debug, PartialEq, Eq, Structural)]
pub struct CheckOutcome {
    pub kind: CheckKind,
    pub roll: i64,
    pub modifier: i64,
    pub total: i64,
}

/// The check outcome a roll and modifier must produce.
pub open spec fn spec_check_outcome(roll: int, modifier: int) -> CheckOutcome {
    CheckOutcome {
        kind: if roll == 1 {
            CheckKind::CheckCriticalFailure
        } else if roll == 20 {
            CheckKind::CheckGreatSuccess
        } else {
            CheckKind::CheckNormal
        },
        roll: roll as i64,
        modifier: modifier as i64,
        total: (roll + modifier) as i64,
    }
}

/// Performs an ability check with a forced d20 roll: looks the named
/// attribute up on the player, takes its modifier, and classifies the
/// roll (a natural 1 always fails, a natural 20 always succeeds). An
/// unknown attribute name fails with `NotFound`.
pub fn check_with_roll(p: &Player, attribute: &str, roll: i64) -> (r: Result<
    CheckOutcome,
    EngineError,
>)
    requires
        1 <= roll <= 20,
    ensures
        match spec_attr_of(attribute@) {
            Some(a) => r == Ok::<CheckOutcome, EngineError>(
                spec_check_outcome(
                    roll as int,
                    stats::spec_score_to_mod(spec_attr_score(*p, a)),
                ),
            ),
            None => r == Err::<CheckOutcome, EngineError>(EngineError::NotFound),
        },
{
    let a = match attr_of(attribute) {
        Some(a) => a,
        None => {
            return Err(EngineError::NotFound);
        },
    };
    let md = stats::score_to_mod(attr_score(p, a));
    proof {
        assert(-5 <= md <= 10);
    }
    let kind = if roll == 1 {
        CheckKind::CheckCriticalFailure
    } else if roll == 20 {
        CheckKind::CheckGreatSuccess
    } else {
        CheckKind::CheckNormal
    };
    Ok(CheckOutcome { kind, roll, modifier: md, total: roll + md })
}

impl Encounter {
    /// Performs an ability check, rolling the d20 through the dice
    /// evaluator (so "1d20" becomes the most recent roll). An unknown
    /// attribute name fails with `NotFound` before any die is rolled.
    pub fn check(&mut self, p: &Player, attribute: &str) -> (r: Result<CheckOutcome, EngineError>)
        requires
            old(self).wf(),
        ensures
            final(self).wf(),
            final(self).combatants@ == old(self).combatants@,
            final(self).current_turn == old(self).current_turn,
            match spec_attr_of(attribute@) {
                Some(a) => {
                    &&& exists|roll: int|
                        1 <= roll <= 20 && r == Ok::<CheckOutcome, EngineError>(
                            #[trigger] spec_check_outcome(
                                roll,
                                stats::spec_score_to_mod(spec_attr_score(*p, a)),
                            ),
                        )
                    &&& final(self).last_dice_spec matches Some(s) && s@ == "1d20"@
                },
                None => {
                    &&& r == Err::<CheckOutcome, EngineError>(EngineError::NotFound)
                    &&& final(self).last_dice_spec == old(self).last_dice_spec
                },
            },
    {
        match attr_of(attribute) {
            Some(_) => {},
            None => {
                return Err(EngineError::NotFound);
            },
        }
        let roll = self.roll_d20();
        check_with_roll(p, attribute, roll)
    }
}

/// Grants an operation only to the configured game master: any other
/// nick fails with `PermissionDenied`.
pub fn check_admin(nick: &str, admin: &str) -> (r: Result<(), EngineError>)
    ensures
        nick@ == admin@ ==> r == Ok::<(), EngineError>(()),
        nick@ != admin@ ==> r == Err::<(), EngineError>(EngineError::PermissionDenied),
{
    if text::str_equal(nick, admin) {
        Ok(())
    } else {
        Err(EngineError::PermissionDenied)
    }
}

} // verus!
