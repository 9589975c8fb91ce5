use vstd::prelude::*;

use crate::encounter::Encounter;
use crate::errors::EngineError;
use crate::models::{Combatant, Monster, Player};
use crate::stats;

verus! {

/// The index of the first player template with the given id, if any.
pub open spec fn find_player_index(players: Seq<Player>, id: i32) -> Option<int>
    decreases players.len(),
{
    if players.len() == 0 {
        None
    } else if players[0].id == id {
        Some(0)
    } else {
        match find_player_index(players.drop_first(), id) {
            Some(i) => Some(i + 1),
            None => None,
        }
    }
}

/// The index of the first monster template with the given id, if any.
pub open spec fn find_monster_index(monsters: Seq<Monster>, id: i32) -> Option<int>
    decreases monsters.len(),
{
    if monsters.len() == 0 {
        None
    } else if monsters[0].id == id {
        Some(0)
    } else {
        match find_monster_index(monsters.drop_first(), id) {
            Some(i) => Some(i + 1),
            None => None,
        }
    }
}

/// The fixed part of a combatant's initiative: dexterity modifier plus
/// initiative bonus for a player, dexterity modifier for a monster,
/// nothing for a freeform combatant. `None` when the origin template
/// cannot be found.
pub open spec fn init_base(c: Combatant, players: Seq<Player>, monsters: Seq<Monster>) -> Option<
    int,
> {
    match c.player_id {
        Some(pid) => match find_player_index(players, pid) {
            Some(i) => Some(
                stats::spec_score_to_mod(players[i].dexterity as int)
                    + players[i].initiative_bonus as int,
            ),
            None => None,
        },
        None => match c.monster_id {
            Some(mid) => match find_monster_index(monsters, mid) {
                Some(i) => Some(stats::spec_score_to_mod(monsters[i].dexterity as int)),
                None => None,
            },
            None => Some(0),
        },
    }
}

/// The first roster position whose origin template cannot be found,
/// starting the search at `from`; the roster length when every entry
/// from there on resolves.
pub open spec fn first_unresolved_from(
    roster: Seq<Combatant>,
    players: Seq<Player>,
    monsters: Seq<Monster>,
    from: int,
) -> int
    decreases roster.len() - from,
{
    if from < 0 || from >= roster.len() {
        roster.len() as int
    } else if init_base(roster[from], players, monsters) is None {
        from
    } else {
        first_unresolved_from(roster, players, monsters, from + 1)
    }
}

/// Pins down `first_unresolved_from` by its characterization: every
/// entry before `k` resolves and `k` itself (if in range) does not.
pub proof fn lemma_first_unresolved(
    roster: Seq<Combatant>,
    players: Seq<Player>,
    monsters: Seq<Monster>,
    k: int,
)
    requires
        0 <= k <= roster.len(),
        forall|j: int| 0 <= j < k ==> init_base(#[trigger] roster[j], players, monsters) is Some,
        k < roster.len() ==> init_base(roster[k], players, monsters) is None,
    ensures
        first_unresolved_from(roster, players, monsters, 0) == k,
{
    lemma_first_unresolved_step(roster, players, monsters, k, 0);
}

/// The first unresolved position never lies outside the roster.
pub proof fn lemma_first_unresolved_in_range(
    roster: Seq<Combatant>,
    players: Seq<Player>,
    monsters: Seq<Monster>,
    from: int,
)
    requires
        0 <= from <= roster.len(),
    ensures
        from <= first_unresolved_from(roster, players, monsters, from) <= roster.len(),
    decreases roster.len() - from,
{
    if from < roster.len() && init_base(roster[from], players, monsters) is Some {
        lemma_first_unresolved_in_range(roster, players, monsters, from + 1);
    }
}

proof fn lemma_first_unresolved_step(
    roster: Seq<Combatant>,
    players: Seq<Player>,
    monsters: Seq<Monster>,
    k: int,
    from: int,
)
    requires
        0 <= from <= k <= roster.len(),
        forall|j: int| from <= j < k ==> init_base(#[trigger] roster[j], players, monsters) is Some,
        k < roster.len() ==> init_base(roster[k], players, monsters) is None,
    ensures
        first_unresolved_from(roster, players, monsters, from) == k,
    decreases k - from,
{
    if from < k {
        lemma_first_unresolved_step(roster, players, monsters, k, from + 1);
    }
}

/// How the roster reads a combatant's origin for the trace.
#[derive(Clone, Copy, Debug, PartialEq, Eq, Structural)]
pub enum InitKind {
    PlayerRoll,
    MonsterRoll,
    FreeformRoll,
}

/// One line of the initiative trace: who rolled, what came up, which
/// modifiers applied, and the resulting initiative. This trace is a
/// required output of rolling initiative, not optional logging.
#[derive(Clone, Debug)]
pub struct InitTraceEntry {
    pub name: String,
    pub kind: InitKind,
    pub roll: i64,
    pub dex_mod: i64,
    pub init_bonus: i64,
    pub total: i64,
}

/// The trace line that combatant `c` with roll `roll` must produce.
pub open spec fn is_trace_entry(
    e: InitTraceEntry,
    c: Combatant,
    players: Seq<Player>,
    monsters: Seq<Monster>,
    roll: int,
) -> bool {
    match c.player_id {
        Some(pid) => match find_player_index(players, pid) {
            Some(i) => {
                &&& e.name@ == players[i].name@
                &&& e.kind == InitKind::PlayerRoll
                &&& e.roll == roll
                &&& e.dex_mod == stats::spec_score_to_mod(players[i].dexterity as int)
                &&& e.init_bonus == players[i].initiative_bonus as int
                &&& e.total == roll + stats::spec_score_to_mod(players[i].dexterity as int)
                    + players[i].initiative_bonus as int
            },
            None => false,
        },
        None => match c.monster_id {
            Some(mid) => match find_monster_index(monsters, mid) {
                Some(i) => {
                    &&& e.name@ == monsters[i].name@
                    &&& e.kind == InitKind::MonsterRoll
                    &&& e.roll == roll
                    &&& e.dex_mod == stats::spec_score_to_mod(monsters[i].dexterity as int)
                    &&& e.init_bonus == 0
                    &&& e.total == roll + stats::spec_score_to_mod(monsters[i].dexterity as int)
                },
                None => false,
            },
            None => {
                &&& e.name@ == c.name@
                &&& e.kind == InitKind::FreeformRoll
                &&& e.roll == roll
                &&& e.dex_mod == 0
                &&& e.init_bonus == 0
                &&& e.total == roll
            },
        },
    }
}

/// `c2` is `c` with only its initiative changed to `v`.
pub open spec fn is_with_initiative(c2: Combatant, c: Combatant, v: int) -> bool {
    &&& c2.id == c.id
    &&& c2.name == c.name
    &&& c2.initiative == v
    &&& c2.cur_hp == c.cur_hp
    &&& c2.max_hp == c.max_hp
    &&& c2.armor_class == c.armor_class
    &&& c2.attack == c.attack
    &&& c2.attack_bonus == c.attack_bonus
    &&& c2.player_id == c.player_id
    &&& c2.monster_id == c.monster_id
}

/// Finds the first player template with the given id.
fn find_player(players: &Vec<Player>, id: i32) -> (r: Option<usize>)
    ensures
        match r {
            Some(i) => i < players@.len() && players@[i as int].id == id && find_player_index(
                players@,
                id,
            ) == Some(i as int),
            None => find_player_index(players@, id) is None,
        },
{
    let mut i: usize = 0;
    while i < players.len()
        invariant
            i <= players@.len(),
            forall|j: int| 0 <= j < i ==> (#[trigger] players@[j]).id != id,
        decreases players@.len() - i,
    {
        if players[i].id == id {
            proof {
                lemma_find_player_prefix(players@, id, i as int);
            }
            return Some(i);
        }
        i += 1;
    }
    proof {
        lemma_find_player_none(players@, id);
    }
    None
}

proof fn lemma_find_player_prefix(players: Seq<Player>, id: i32, i: int)
    requires
        0 <= i < players.len(),
        players[i].id == id,
        forall|j: int| 0 <= j < i ==> (#[trigger] players[j]).id != id,
    ensures
        find_player_index(players, id) == Some(i),
    decreases players.len(),
{
    if i == 0 {
    } else {
        assert forall|j: int| 0 <= j < i - 1 implies (#[trigger] players.drop_first()[j]).id
            != id by {
            assert(players.drop_first()[j] == players[j + 1]);
        }
        assert(players.drop_first()[i - 1] == players[i]);
        lemma_find_player_prefix(players.drop_first(), id, i - 1);
    }
}

proof fn lemma_find_player_none(players: Seq<Player>, id: i32)
    requires
        forall|j: int| 0 <= j < players.len() ==> (#[trigger] players[j]).id != id,
    ensures
        find_player_index(players, id) is None,
    decreases players.len(),
{
    if players.len() > 0 {
        assert forall|j: int| 0 <= j < players.drop_first().len() implies (#[trigger] players
            .drop_first()[j]).id != id by {
            assert(players.drop_first()[j] == players[j + 1]);
        }
        lemma_find_player_none(players.drop_first(), id);
    }
}

/// Finds the first monster template with the given id.
fn find_monster(monsters: &Vec<Monster>, id: i32) -> (r: Option<usize>)
    ensures
        match r {
            Some(i) => i < monsters@.len() && monsters@[i as int].id == id && find_monster_index(
                monsters@,
                id,
            ) == Some(i as int),
            None => find_monster_index(monsters@, id) is None,
        },
{
    let mut i: usize = 0;
    while i < monsters.len()
        invariant
            i <= monsters@.len(),
            forall|j: int| 0 <= j < i ==> (#[trigger] monsters@[j]).id != id,
        decreases monsters@.len() - i,
    {
        if monsters[i].id == id {
            proof {
                lemma_find_monster_prefix(monsters@, id, i as int);
            }
            return Some(i);
        }
        i += 1;
    }
    proof {
        lemma_find_monster_none(monsters@, id);
    }
    None
}

proof fn lemma_find_monster_prefix(monsters: Seq<Monster>, id: i32, i: int)
    requires
        0 <= i < monsters.len(),
        monsters[i].id == id,
        forall|j: int| 0 <= j < i ==> (#[trigger] monsters[j]).id != id,
    ensures
        find_monster_index(monsters, id) == Some(i),
    decreases monsters.len(),
{
    if i == 0 {
    } else {
        assert forall|j: int| 0 <= j < i - 1 implies (#[trigger] monsters.drop_first()[j]).id
            != id by {
            assert(monsters.drop_first()[j] == monsters[j + 1]);
        }
        assert(monsters.drop_first()[i - 1] == monsters[i]);
        lemma_find_monster_prefix(monsters.drop_first(), id, i - 1);
    }
}

proof fn lemma_find_monster_none(monsters: Seq<Monster>, id: i32)
    requires
        forall|j: int| 0 <= j < monsters.len() ==> (#[trigger] monsters[j]).id != id,
    ensures
        find_monster_index(monsters, id) is None,
    decreases monsters.len(),
{
    if monsters.len() > 0 {
        assert forall|j: int| 0 <= j < monsters.drop_first().len() implies (#[trigger] monsters
            .drop_first()[j]).id != id by {
            assert(monsters.drop_first()[j] == monsters[j + 1]);
        }
        lemma_find_monster_none(monsters.drop_first(), id);
    }
}

/// If some template in `players` carries the id, the search finds one.
pub proof fn lemma_find_player_present(players: Seq<Player>, id: i32)
    requires
        exists|j: int| 0 <= j < players.len() && (#[trigger] players[j]).id == id,
    ensures
        find_player_index(players, id) is Some,
    decreases players.len(),
{
    if players.len() > 0 && players[0].id != id {
        let j = choose|j: int| 0 <= j < players.len() && (#[trigger] players[j]).id == id;
        assert(players.drop_first()[j - 1] == players[j]);
        lemma_find_player_present(players.drop_first(), id);
    }
}

/// Rewriting initiative values entry by entry keeps the roster well
/// formed: ids and origin tags are untouched.
proof fn lemma_initiative_roster_wf(
    orig: Seq<Combatant>,
    cur: Seq<Combatant>,
    players: Seq<Player>,
    monsters: Seq<Monster>,
    rolls: Seq<i64>,
    i: int,
)
    requires
        crate::encounter::roster_wf(orig),
        cur.len() == orig.len(),
        0 <= i <= orig.len(),
        forall|j: int|
            0 <= j < i ==> is_with_initiative(
                #[trigger] cur[j],
                orig[j],
                rolls[j] + init_base(orig[j], players, monsters).unwrap(),
            ),
        forall|j: int| i <= j < orig.len() ==> cur[j] == orig[j],
    ensures
        crate::encounter::roster_wf(cur),
{
    assert forall|j: int|
        0 <= j < cur.len() implies ((#[trigger] cur[j]).id == j + 1
        && crate::encounter::combatant_wf(cur[j])) by {
        assert(orig[j].id == j + 1);
        assert(crate::encounter::combatant_wf(orig[j]));
        if j < i {
            assert(is_with_initiative(
                cur[j],
                orig[j],
                rolls[j] + init_base(orig[j], players, monsters).unwrap(),
            ));
        }
    }
}

impl Encounter {
    /// Rolls initiative for every combatant with the given d20 results,
    /// one per roster entry in roster order: a player-origin combatant
    /// gains its player's dexterity modifier and initiative bonus, a
    /// monster-origin combatant its monster's dexterity modifier, a
    /// freeform combatant nothing. Initiative values are written back
    /// onto the roster and a trace entry per combatant is returned.
    ///
    /// A combatant whose origin template is missing fails the operation
    /// with `NotFound`; initiative already written to earlier roster
    /// entries stays written (single field updates are not rolled back).
    pub fn roll_initiative_with(
        &mut self,
        players: &Vec<Player>,
        monsters: &Vec<Monster>,
        rolls: &Vec<i64>,
    ) -> (r: Result<Vec<InitTraceEntry>, EngineError>)
        requires
            old(self).wf(),
            rolls@.len() == old(self).combatants@.len(),
            forall|i: int| 0 <= i < rolls@.len() ==> 1 <= #[trigger] rolls@[i] <= 20,
        ensures
            final(self).wf(),
            final(self).current_turn == old(self).current_turn,
            final(self).last_dice_spec == old(self).last_dice_spec,
            final(self).combatants@.len() == old(self).combatants@.len(),
            ({
                let orig = old(self).combatants@;
                let k = first_unresolved_from(orig, players@, monsters@, 0);
                &&& forall|i: int|
                    0 <= i < k ==> is_with_initiative(
                        #[trigger] final(self).combatants@[i],
                        orig[i],
                        rolls@[i] + init_base(orig[i], players@, monsters@).unwrap(),
                    )
                &&& forall|i: int| k <= i < orig.len() ==> final(self).combatants@[i] == orig[i]
                &&& if k == orig.len() {
                    r matches Ok(tr) && tr@.len() == orig.len() && forall|i: int|
                        0 <= i < orig.len() ==> is_trace_entry(
                            #[trigger] tr@[i],
                            orig[i],
                            players@,
                            monsters@,
                            rolls@[i] as int,
                        )
                } else {
                    r == Err::<Vec<InitTraceEntry>, EngineError>(EngineError::NotFound)
                }
            }),
    {
        let ghost orig = old(self).combatants@;
        let n = self.combatants.len();
        let mut trace: Vec<InitTraceEntry> = Vec::new();
        let mut i: usize = 0;
        while i < n
            invariant
                old(self).wf(),
                orig == old(self).combatants@,
                n == orig.len(),
                self.combatants@.len() == n,
                i <= n,
                rolls@.len() == n,
                forall|j: int| 0 <= j < n ==> 1 <= #[trigger] rolls@[j] <= 20,
                self.current_turn == old(self).current_turn,
                self.last_dice_spec == old(self).last_dice_spec,
                forall|j: int| i <= j < n ==> self.combatants@[j] == orig[j],
                forall|j: int|
                    0 <= j < i ==> init_base(#[trigger] orig[j], players@, monsters@) is Some,
                forall|j: int|
                    0 <= j < i ==> is_with_initiative(
                        #[trigger] self.combatants@[j],
                        orig[j],
                        rolls@[j] + init_base(orig[j], players@, monsters@).unwrap(),
                    ),
                trace@.len() == i,
                forall|j: int|
                    0 <= j < i ==> is_trace_entry(
                        #[trigger] trace@[j],
                        orig[j],
                        players@,
                        monsters@,
                        rolls@[j] as int,
                    ),
            decreases n - i,
        {
            let pid_opt = self.combatants[i].player_id;
            let mid_opt = self.combatants[i].monster_id;
            if let Some(pid) = pid_opt {
                match find_player(players, pid) {
                    Some(pi) => {
                        let dm = stats::score_to_mod(players[pi].dexterity);
                        let ib = players[pi].initiative_bonus as i64;
                        assert(-5 <= dm <= 10);
                        let total = rolls[i] + dm + ib;
                        self.combatants[i].initiative = total;
                        trace.push(
                            InitTraceEntry {
                                name: players[pi].name.clone(),
                                kind: InitKind::PlayerRoll,
                                roll: rolls[i],
                                dex_mod: dm,
                                init_bonus: ib,
                                total,
                            },
                        );
                    },
                    None => {
                        proof {
                            assert(init_base(orig[i as int], players@, monsters@) is None);
                            lemma_first_unresolved(orig, players@, monsters@, i as int);
                            lemma_initiative_roster_wf(
                                orig,
                                self.combatants@,
                                players@,
                                monsters@,
                                rolls@,
                                i as int,
                            );
                        }
                        return Err(EngineError::NotFound);
                    },
                }
            } else if let Some(mid) = mid_opt {
                match find_monster(monsters, mid) {
                    Some(mi) => {
                        let dm = stats::score_to_mod(monsters[mi].dexterity);
                        assert(-5 <= dm <= 10);
                        let total = rolls[i] + dm;
                        self.combatants[i].initiative = total;
                        trace.push(
                            InitTraceEntry {
                                name: monsters[mi].name.clone(),
                                kind: InitKind::MonsterRoll,
                                roll: rolls[i],
                                dex_mod: dm,
                                init_bonus: 0,
                                total,
                            },
                        );
                    },
                    None => {
                        proof {
                            assert(init_base(orig[i as int], players@, monsters@) is None);
                            lemma_first_unresolved(orig, players@, monsters@, i as int);
                            lemma_initiative_roster_wf(
                                orig,
                                self.combatants@,
                                players@,
                                monsters@,
                                rolls@,
                                i as int,
                            );
                        }
                        return Err(EngineError::NotFound);
                    },
                }
            } else {
                let nm = self.combatants[i].name.clone();
                let total = rolls[i];
                self.combatants[i].initiative = total;
                trace.push(
                    InitTraceEntry {
                        name: nm,
                        kind: InitKind::FreeformRoll,
                        roll: rolls[i],
                        dex_mod: 0,
                        init_bonus: 0,
                        total,
                    },
                );
            }
            i += 1;
        }
        proof {
            lemma_first_unresolved(orig, players@, monsters@, n as int);
            lemma_initiative_roster_wf(
                orig,
                self.combatants@,
                players@,
                monsters@,
                rolls@,
                n as int,
            );
        }
        Ok(trace)
    }
}

impl Encounter {
    /// Rolls initiative for every roster combatant, drawing one d20
    /// per combatant through the dice evaluator up front and then
    /// applying the entity-specific modifiers, as in the forced-roll
    /// variant. On a non-empty roster "1d20" stays remembered as the
    /// most recent roll.
    pub fn roll_initiative(&mut self, players: &Vec<Player>, monsters: &Vec<Monster>) -> (r:
        Result<Vec<InitTraceEntry>, EngineError>)
        requires
            old(self).wf(),
        ensures
            final(self).wf(),
            final(self).current_turn == old(self).current_turn,
            final(self).combatants@.len() == old(self).combatants@.len(),
            old(self).combatants@.len() > 0 ==> (final(self).last_dice_spec matches Some(s) && s@
                == "1d20"@),
            old(self).combatants@.len() == 0 ==> final(self).last_dice_spec == old(self).last_dice_spec,
            ({
                let orig = old(self).combatants@;
                let k = first_unresolved_from(orig, players@, monsters@, 0);
                &&& forall|i: int|
                    0 <= i < k ==> {
                        &&& is_with_initiative(
                            #[trigger] final(self).combatants@[i],
                            orig[i],
                            final(self).combatants@[i].initiative as int,
                        )
                        &&& init_base(orig[i], players@, monsters@).unwrap() + 1
                            <= final(self).combatants@[i].initiative as int
                            <= init_base(orig[i], players@, monsters@).unwrap() + 20
                    }
                &&& forall|i: int| k <= i < orig.len() ==> final(self).combatants@[i] == orig[i]
                &&& if k == orig.len() {
                    r matches Ok(tr) && tr@.len() == orig.len() && forall|i: int|
                        0 <= i < orig.len() ==> is_trace_entry(
                            #[trigger] tr@[i],
                            orig[i],
                            players@,
                            monsters@,
                            final(self).combatants@[i].initiative as int - init_base(
                                orig[i],
                                players@,
                                monsters@,
                            ).unwrap(),
                        )
                } else {
                    r == Err::<Vec<InitTraceEntry>, EngineError>(EngineError::NotFound)
                }
            }),
    {
        let n = self.combatants.len();
        let mut rolls: Vec<i64> = Vec::new();
        let mut i: usize = 0;
        while i < n
            invariant
                old(self).wf(),
                n == old(self).combatants@.len(),
                i <= n,
                rolls@.len() == i,
                forall|j: int| 0 <= j < i ==> 1 <= #[trigger] rolls@[j] <= 20,
                self.wf(),
                self.combatants@ == old(self).combatants@,
                self.current_turn == old(self).current_turn,
                i == 0 ==> self.last_dice_spec == old(self).last_dice_spec,
                i > 0 ==> (self.last_dice_spec matches Some(s) && s@ == "1d20"@),
            decreases n - i,
        {
            let v = self.roll_d20();
            rolls.push(v);
            i += 1;
        }
        let ghost mid = *self;
        let r = self.roll_initiative_with(players, monsters, &rolls);
        proof {
            let orig = old(self).combatants@;
            assert(mid.combatants@ == orig);
            let k = first_unresolved_from(orig, players@, monsters@, 0);
            lemma_first_unresolved_in_range(orig, players@, monsters@, 0);
            assert forall|j: int| 0 <= j < k implies {
                &&& is_with_initiative(
                    #[trigger] self.combatants@[j],
                    orig[j],
                    self.combatants@[j].initiative as int,
                )
                &&& init_base(orig[j], players@, monsters@).unwrap() + 1
                    <= self.combatants@[j].initiative as int <= init_base(
                    orig[j],
                    players@,
                    monsters@,
                ).unwrap() + 20
            } by {
                assert(k == first_unresolved_from(mid.combatants@, players@, monsters@, 0));
                assert(1 <= rolls@[j] <= 20);
                assert(is_with_initiative(
                    self.combatants@[j],
                    mid.combatants@[j],
                    rolls@[j] + init_base(mid.combatants@[j], players@, monsters@).unwrap(),
                ));
                assert(mid.combatants@[j] == orig[j]);
            }
            if k == orig.len() {
                let tr = r.unwrap();
                assert forall|j: int| 0 <= j < orig.len() implies is_trace_entry(
                    #[trigger] tr@[j],
                    orig[j],
                    players@,
                    monsters@,
                    self.combatants@[j].initiative as int - init_base(
                        orig[j],
                        players@,
                        monsters@,
                    ).unwrap(),
                ) by {
                    assert(is_trace_entry(tr@[j], orig[j], players@, monsters@, rolls@[j] as int));
                    assert(is_with_initiative(
                        self.combatants@[j],
                        orig[j],
                        rolls@[j] + init_base(orig[j], players@, monsters@).unwrap(),
                    ));
                }
            }
        }
        r
    }
}

/// Each player's id, in input order: the keys that define the seeding
/// order of an encounter (reverse by id, most recently created first).
pub open spec fn player_id_keys(players: Seq<Player>) -> Seq<i64> {
    players.map_values(|p: Player| p.id as i64)
}

/// `ord` lists the players in seeding order: descending id, ties in
/// input order.
pub open spec fn is_player_order(players: Seq<Player>, ord: Seq<usize>) -> bool {
    crate::schedule::is_key_order(player_id_keys(players), ord)
}

/// The combatant seeded for player `p`, after initiative was rolled:
/// all fields as freshly seeded, the initiative as written.
pub open spec fn is_rolled_player_combatant(c: Combatant, p: Player, id: int, init: int) -> bool {
    &&& c.id == id
    &&& c.name@ == p.name@
    &&& c.initiative == init
    &&& c.cur_hp == p.hit_points as int
    &&& c.max_hp == p.hit_points as int
    &&& c.armor_class == p.armor_class
    &&& c.attack@ == "1d1"@
    &&& c.attack_bonus == 0
    &&& c.player_id == Some(p.id)
    &&& c.monster_id is None
}

impl Encounter {
    /// Begins an encounter with the given d20 initiative rolls, one per
    /// player: clears any prior roster, seeds one combatant per player
    /// template in reverse-by-id order (the most recently created player
    /// first, for a deterministic trace), writes each one's initiative,
    /// and hands the first turn to the strictly highest initiative,
    /// ties going to the earlier roster entry. Beginning with no
    /// players fails with `NotFound` and leaves the encounter ended.
    pub fn begin_encounter_with(&mut self, players: &Vec<Player>, rolls: &Vec<i64>) -> (r: Result<
        Vec<InitTraceEntry>,
        EngineError,
    >)
        requires
            old(self).wf(),
            rolls@.len() == players@.len(),
            players@.len() < i64::MAX as int,
            forall|i: int| 0 <= i < rolls@.len() ==> 1 <= #[trigger] rolls@[i] <= 20,
        ensures
            final(self).wf(),
            final(self).last_dice_spec == old(self).last_dice_spec,
            players@.len() == 0 ==> {
                &&& r == Err::<Vec<InitTraceEntry>, EngineError>(EngineError::NotFound)
                &&& final(self).combatants@.len() == 0
                &&& final(self).current_turn is None
            },
            players@.len() > 0 ==> {
                &&& r matches Ok(tr) && tr@.len() == players@.len() && forall|i: int|
                    0 <= i < players@.len() ==> is_trace_entry(
                        #[trigger] tr@[i],
                        final(self).combatants@[i],
                        players@,
                        Seq::<Monster>::empty(),
                        rolls@[i] as int,
                    )
                &&& final(self).combatants@.len() == players@.len()
                &&& forall|pord: Seq<usize>, i: int|
                    #![trigger is_player_order(players@, pord), final(self).combatants@[i]]
                    is_player_order(players@, pord) && 0 <= i < players@.len()
                        ==> is_rolled_player_combatant(
                        final(self).combatants@[i],
                        players@[pord[i] as int],
                        i + 1,
                        rolls@[i] + init_base(
                            final(self).combatants@[i],
                            players@,
                            Seq::<Monster>::empty(),
                        ).unwrap(),
                    )
                &&& forall|i: int|
                    0 <= i < players@.len() ==> {
                        &&& init_base(
                            #[trigger] final(self).combatants@[i],
                            players@,
                            Seq::<Monster>::empty(),
                        ) is Some
                        &&& final(self).combatants@[i].initiative as int == rolls@[i] + init_base(
                            final(self).combatants@[i],
                            players@,
                            Seq::<Monster>::empty(),
                        ).unwrap()
                    }
                &&& forall|tord: Seq<usize>|
                    crate::schedule::is_turn_order(final(self).combatants@, tord)
                        ==> final(self).current_turn == Some((((#[trigger] tord[0]) + 1) as i64))
            },
    {
        self.end_encounter();
        let n = players.len();
        if n == 0 {
            return Err(EngineError::NotFound);
        }
        let no_monsters: Vec<Monster> = Vec::new();
        // seed one combatant per player, most recent (highest id) first
        let mut keys: Vec<i64> = Vec::new();
        let mut i: usize = 0;
        while i < n
            invariant
                n == players@.len(),
                i <= n,
                keys@.len() == i,
                forall|j: int| 0 <= j < i ==> #[trigger] keys@[j] == players@[j].id as i64,
            decreases n - i,
        {
            keys.push(players[i].id as i64);
            i += 1;
        }
        proof {
            assert(keys@ =~= player_id_keys(players@));
        }
        let pord = crate::schedule::order_by_keys(&keys);
        let ghost porder = pord@;
        let mut k: usize = 0;
        while k < n
            invariant
                old(self).wf(),
                n == players@.len(),
                n < i64::MAX as int,
                k <= n,
                pord@ == porder,
                crate::schedule::is_key_order(player_id_keys(players@), porder),
                self.wf(),
                self.combatants@.len() == k,
                self.current_turn is None,
                self.last_dice_spec == old(self).last_dice_spec,
                forall|j: int|
                    0 <= j < k ==> crate::encounter::is_player_combatant(
                        #[trigger] self.combatants@[j],
                        players@[porder[j] as int],
                        j + 1,
                    ),
            decreases n - k,
        {
            self.add_from_player(&players[pord[k]]);
            k += 1;
        }
        let ghost seeded = self.combatants@;
        let r = self.roll_initiative_with(players, &no_monsters, rolls);
        let tr = match r {
            Ok(tr) => tr,
            Err(e) => {
                proof {
                    assert forall|j: int|
                        0 <= j < seeded.len() implies init_base(
                        #[trigger] seeded[j],
                        players@,
                        no_monsters@,
                    ) is Some by {
                        let pj = porder[j] as int;
                        assert(seeded[j].player_id == Some(players@[pj].id));
                        lemma_find_player_present(players@, players@[pj].id);
                    }
                    lemma_first_unresolved(seeded, players@, no_monsters@, seeded.len() as int);
                }
                return Err(e);
            },
        };
        proof {
            assert forall|j: int|
                0 <= j < seeded.len() implies init_base(
                #[trigger] seeded[j],
                players@,
                no_monsters@,
            ) is Some by {
                let pj = porder[j] as int;
                assert(seeded[j].player_id == Some(players@[pj].id));
                lemma_find_player_present(players@, players@[pj].id);
            }
            lemma_first_unresolved(seeded, players@, no_monsters@, seeded.len() as int);
        }
        let tord = self.ordered_indices();
        let first = tord[0];
        let nid: i64 = (first as i64) + 1;
        self.current_turn = Some(nid);
        proof {
            assert(no_monsters@ =~= Seq::<Monster>::empty());
            let fin = self.combatants@;
            assert forall|pord2: Seq<usize>, j: int|
                #![trigger is_player_order(players@, pord2), fin[j]]
                is_player_order(players@, pord2) && 0 <= j < players@.len()
                    implies is_rolled_player_combatant(
                fin[j],
                players@[pord2[j] as int],
                j + 1,
                rolls@[j] + init_base(fin[j], players@, Seq::<Monster>::empty()).unwrap(),
            ) by {
                crate::schedule::lemma_key_order_unique(player_id_keys(players@), porder, pord2);
                assert(is_with_initiative(
                    fin[j],
                    seeded[j],
                    rolls@[j] + init_base(seeded[j], players@, no_monsters@).unwrap(),
                ));
                assert(init_base(fin[j], players@, no_monsters@) == init_base(
                    seeded[j],
                    players@,
                    no_monsters@,
                ));
            }
            assert forall|tord2: Seq<usize>|
                crate::schedule::is_turn_order(self.combatants@, tord2) implies self.current_turn
                == Some((((#[trigger] tord2[0]) + 1) as i64)) by {
                crate::schedule::lemma_turn_order_unique(self.combatants@, tord@, tord2);
            }
            assert forall|j: int|
                0 <= j < players@.len() implies (init_base(
                #[trigger] fin[j],
                players@,
                Seq::<Monster>::empty(),
            ) is Some && fin[j].initiative as int == rolls@[j] + init_base(
                fin[j],
                players@,
                Seq::<Monster>::empty(),
            ).unwrap()) by {
                assert(is_with_initiative(
                    fin[j],
                    seeded[j],
                    rolls@[j] + init_base(seeded[j], players@, no_monsters@).unwrap(),
                ));
                assert(init_base(fin[j], players@, no_monsters@) == init_base(
                    seeded[j],
                    players@,
                    no_monsters@,
                ));
            }
            assert forall|j: int|
                0 <= j < players@.len() implies is_trace_entry(
                #[trigger] tr@[j],
                fin[j],
                players@,
                Seq::<Monster>::empty(),
                rolls@[j] as int,
            ) by {
                assert(is_trace_entry(tr@[j], seeded[j], players@, no_monsters@, rolls@[j] as int));
                assert(fin[j].player_id == seeded[j].player_id);
                assert(fin[j].monster_id == seeded[j].monster_id);
                assert(fin[j].name == seeded[j].name);
            }
        }
        Ok(tr)
    }

    /// Begins an encounter, rolling a d20 for each player's initiative
    /// through the dice evaluator (the rolls are drawn up front, one
    /// per player). Everything else is as in the forced-roll variant.
    pub fn begin_encounter(&mut self, players: &Vec<Player>) -> (r: Result<
        Vec<InitTraceEntry>,
        EngineError,
    >)
        requires
            old(self).wf(),
            players@.len() < i64::MAX as int,
        ensures
            final(self).wf(),
            players@.len() == 0 ==> {
                &&& r == Err::<Vec<InitTraceEntry>, EngineError>(EngineError::NotFound)
                &&& final(self).combatants@.len() == 0
                &&& final(self).current_turn is None
                &&& final(self).last_dice_spec == old(self).last_dice_spec
            },
            players@.len() > 0 ==> {
                &&& final(self).last_dice_spec matches Some(s) && s@ == "1d20"@
                &&& r matches Ok(tr) && tr@.len() == players@.len() && forall|i: int|
                    0 <= i < players@.len() ==> is_trace_entry(
                        #[trigger] tr@[i],
                        final(self).combatants@[i],
                        players@,
                        Seq::<Monster>::empty(),
                        final(self).combatants@[i].initiative as int - init_base(
                            final(self).combatants@[i],
                            players@,
                            Seq::<Monster>::empty(),
                        ).unwrap(),
                    )
                &&& final(self).combatants@.len() == players@.len()
                &&& forall|pord: Seq<usize>, i: int|
                    #![trigger is_player_order(players@, pord), final(self).combatants@[i]]
                    is_player_order(players@, pord) && 0 <= i < players@.len()
                        ==> is_rolled_player_combatant(
                        final(self).combatants@[i],
                        players@[pord[i] as int],
                        i + 1,
                        final(self).combatants@[i].initiative as int,
                    ) && {
                        let b = init_base(
                            final(self).combatants@[i],
                            players@,
                            Seq::<Monster>::empty(),
                        ).unwrap();
                        b + 1 <= final(self).combatants@[i].initiative as int <= b + 20
                    }
                &&& forall|tord: Seq<usize>|
                    crate::schedule::is_turn_order(final(self).combatants@, tord)
                        ==> final(self).current_turn == Some((((#[trigger] tord[0]) + 1) as i64))
            },
    {
        let n = players.len();
        let mut rolls: Vec<i64> = Vec::new();
        let mut i: usize = 0;
        while i < n
            invariant
                old(self).wf(),
                n == players@.len(),
                i <= n,
                rolls@.len() == i,
                forall|j: int| 0 <= j < i ==> 1 <= #[trigger] rolls@[j] <= 20,
                self.wf(),
                self.combatants@ == old(self).combatants@,
                self.current_turn == old(self).current_turn,
                i == 0 ==> self.last_dice_spec == old(self).last_dice_spec,
                i > 0 ==> (self.last_dice_spec matches Some(s) && s@ == "1d20"@),
            decreases n - i,
        {
            let v = self.roll_d20();
            rolls.push(v);
            i += 1;
        }
        self.begin_encounter_with(players, &rolls)
    }
}

} // verus!
