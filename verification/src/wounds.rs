use vstd::prelude::*;

verus! {

/// The fixed, ordered set of wound bands a combatant can be narrated in.
#[derive(Clone, Copy, Debug, PartialEq, Eq, Structural)]
pub enum WoundBand {
    Overhealed,
    Unharmed,
    LightlyWounded,
    Wounded,
    BadlyWounded,
    Critical,
    Dead,
}

/// The integer percentage of health left: the floor of
/// `cur_hp / max_hp * 100`. Meaningful only for `max_hp >= 1`.
pub open spec fn wound_percent(cur_hp: int, max_hp: int) -> int {
    (cur_hp * 100) / max_hp
}

/// Which wound band a pair of current and maximum hit points falls in,
/// by the percentage of health left. A non-positive `max_hp` never
/// describes a live stat block; such a value defaults to `Dead` instead
/// of dividing by zero.
pub open spec fn spec_wound_band(cur_hp: int, max_hp: int) -> WoundBand {
    if max_hp <= 0 {
        WoundBand::Dead
    } else {
        let p = wound_percent(cur_hp, max_hp);
        if p > 100 {
            WoundBand::Overhealed
        } else if p == 100 {
            WoundBand::Unharmed
        } else if 75 <= p <= 99 {
            WoundBand::LightlyWounded
        } else if 40 <= p <= 74 {
            WoundBand::Wounded
        } else if 20 <= p <= 39 {
            WoundBand::BadlyWounded
        } else if 1 <= p <= 19 {
            WoundBand::Critical
        } else {
            WoundBand::Dead
        }
    }
}

/// Classifies hit points into a wound band; the pure heart of status
/// narration. No side effects, and division by zero is guarded.
pub fn classify_wounds(cur_hp: i64, max_hp: i64) -> (band: WoundBand)
    ensures
        band == spec_wound_band(cur_hp as int, max_hp as int),
{
    if max_hp <= 0 {
        WoundBand::Dead
    } else if cur_hp < 0 {
        proof {
            let c100 = cur_hp as int * 100;
            let m = max_hp as int;
            assert(c100 <= -100) by (nonlinear_arith)
                requires cur_hp <= -1 && c100 == cur_hp as int * 100,
            ;
            vstd::arithmetic::div_mod::lemma_fundamental_div_mod(c100, m);
            vstd::arithmetic::div_mod::lemma_mod_bound(c100, m);
            assert(c100 / m < 0) by (nonlinear_arith)
                requires
                    c100 == m * (c100 / m) + c100 % m,
                    0 <= c100 % m < m,
                    c100 < 0,
                    m >= 1,
            ;
        }
        WoundBand::Dead
    } else {
        let p: i128 = (cur_hp as i128) * 100 / (max_hp as i128);
        proof {
            assert(0 <= cur_hp as i128 * 100 <= i128::MAX) by (nonlinear_arith)
                requires 0 <= cur_hp <= i64::MAX,
            ;
            vstd::arithmetic::div_mod::lemma_div_pos_is_pos(cur_hp * 100, max_hp as int);
        }
        if p > 100 {
            WoundBand::Overhealed
        } else if p == 100 {
            WoundBand::Unharmed
        } else if 75 <= p {
            WoundBand::LightlyWounded
        } else if 40 <= p {
            WoundBand::Wounded
        } else if 20 <= p {
            WoundBand::BadlyWounded
        } else if 1 <= p {
            WoundBand::Critical
        } else {
            WoundBand::Dead
        }
    }
}

impl WoundBand {
    /// The plain name of the band.
    pub fn name(&self) -> (r: &'static str)
        ensures
            r@ == spec_band_name(*self),
    {
        match self {
            WoundBand::Overhealed => "overhealed",
            WoundBand::Unharmed => "unharmed",
            WoundBand::LightlyWounded => "lightly wounded",
            WoundBand::Wounded => "wounded",
            WoundBand::BadlyWounded => "badly wounded",
            WoundBand::Critical => "critical",
            WoundBand::Dead => "dead",
        }
    }

    /// The flavored description used when narrating a monster's state.
    pub fn description(&self) -> (r: &'static str)
        ensures
            r@ == spec_band_description(*self),
    {
        match self {
            WoundBand::Overhealed => "<font color=\"green\">radiating health</font>",
            WoundBand::Unharmed => "<font color=\"green\">completely unscathed</font>",
            WoundBand::LightlyWounded => "<font color=\"blue\">a trifle bashed up</font>",
            WoundBand::Wounded => "<font color=\"orange\">mildly bleeding</font>",
            WoundBand::BadlyWounded => "<font color=\"red\">heavily bleeding</font>",
            WoundBand::Critical => "<font color=\"darkred\">on the road to Deadsville</font>",
            WoundBand::Dead => "<font color=\"darkred\">slightly dead</font>",
        }
    }
}

/// The plain name of each wound band.
pub open spec fn spec_band_name(b: WoundBand) -> Seq<char> {
    match b {
        WoundBand::Overhealed => "overhealed"@,
        WoundBand::Unharmed => "unharmed"@,
        WoundBand::LightlyWounded => "lightly wounded"@,
        WoundBand::Wounded => "wounded"@,
        WoundBand::BadlyWounded => "badly wounded"@,
        WoundBand::Critical => "critical"@,
        WoundBand::Dead => "dead"@,
    }
}

/// The flavored description of each wound band.
pub open spec fn spec_band_description(b: WoundBand) -> Seq<char> {
    match b {
        WoundBand::Overhealed => "<font color=\"green\">radiating health</font>"@,
        WoundBand::Unharmed => "<font color=\"green\">completely unscathed</font>"@,
        WoundBand::LightlyWounded => "<font color=\"blue\">a trifle bashed up</font>"@,
        WoundBand::Wounded => "<font color=\"orange\">mildly bleeding</font>"@,
        WoundBand::BadlyWounded => "<font color=\"red\">heavily bleeding</font>"@,
        WoundBand::Critical => "<font color=\"darkred\">on the road to Deadsville</font>"@,
        WoundBand::Dead => "<font color=\"darkred\">slightly dead</font>"@,
    }
}

/// Full health is narrated as unharmed, zero hit points as dead, and an
/// even split of half the maximum as wounded, for every positive maximum.
pub proof fn lemma_wound_band_anchors(max_hp: int)
    requires
        max_hp >= 1,
    ensures
        spec_wound_band(max_hp, max_hp) == WoundBand::Unharmed,
        spec_wound_band(0, max_hp) == WoundBand::Dead,
        max_hp % 2 == 0 ==> spec_wound_band(max_hp / 2, max_hp) == WoundBand::Wounded,
{
    vstd::arithmetic::div_mod::lemma_div_by_multiple(100, max_hp);
    assert(max_hp * 100 == 100 * max_hp) by (nonlinear_arith);
    assert(wound_percent(max_hp, max_hp) == 100);
    assert(wound_percent(0, max_hp) == 0) by {
        vstd::arithmetic::div_mod::lemma_basic_div(0, max_hp);
    }
    if max_hp % 2 == 0 {
        let h = max_hp / 2;
        assert(h * 2 == max_hp);
        assert(h * 100 == 50 * max_hp) by (nonlinear_arith)
            requires h * 2 == max_hp,
        ;
        assert((50 * max_hp) / max_hp == 50) by {
            vstd::arithmetic::div_mod::lemma_div_by_multiple(50, max_hp);
        }
    }
}

} // verus!
