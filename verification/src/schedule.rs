use vstd::prelude::*;

use crate::encounter::Encounter;
use crate::errors::EngineError;
use crate::models::Combatant;

verus! {

/// The strict order a key sequence induces on its indices: the larger
/// key first, ties going to the smaller index. For distinct in-range
/// indices exactly one direction holds.
pub open spec fn key_before(keys: Seq<i64>, i: int, j: int) -> bool {
    ||| keys[i] > keys[j]
    ||| (keys[i] == keys[j] && i < j)
}

/// Some position of `ord` holds the index `v`.
pub open spec fn ord_contains(ord: Seq<usize>, v: int) -> bool {
    exists|k: int| 0 <= k < ord.len() && (#[trigger] ord[k]) as int == v
}

/// `ord` lists every index of `keys` exactly once, sorted: descending
/// keys, ties in index order.
pub open spec fn is_key_order(keys: Seq<i64>, ord: Seq<usize>) -> bool {
    &&& ord.len() == keys.len()
    &&& forall|k: int| 0 <= k < ord.len() ==> (#[trigger] ord[k]) < keys.len()
    &&& forall|v: int| 0 <= v < keys.len() ==> #[trigger] ord_contains(ord, v)
    &&& forall|k: int, l: int|
        0 <= k < l < ord.len() ==> key_before(keys, #[trigger] ord[k] as int, #[trigger] ord[l] as int)
}

/// Each combatant's initiative, in roster order: the keys that define
/// the acting order.
pub open spec fn initiative_keys(roster: Seq<Combatant>) -> Seq<i64> {
    roster.map_values(|c: Combatant| c.initiative)
}

/// The acting order of an encounter: combatant `i` acts before `j` when
/// its initiative is higher, ties going to the earlier roster entry.
pub open spec fn acts_before(roster: Seq<Combatant>, i: int, j: int) -> bool {
    key_before(initiative_keys(roster), i, j)
}

/// `ord` lists every roster index exactly once, in acting order.
pub open spec fn is_turn_order(roster: Seq<Combatant>, ord: Seq<usize>) -> bool {
    is_key_order(initiative_keys(roster), ord)
}

/// There is only one sorted order: any two sequences that both order
/// the same keys are equal.
pub proof fn lemma_key_order_unique(keys: Seq<i64>, ord1: Seq<usize>, ord2: Seq<usize>)
    requires
        is_key_order(keys, ord1),
        is_key_order(keys, ord2),
    ensures
        ord1 =~= ord2,
{
    lemma_key_order_agree_from(keys, ord1, ord2, 0);
}

/// The same, stated for an encounter roster.
pub proof fn lemma_turn_order_unique(roster: Seq<Combatant>, ord1: Seq<usize>, ord2: Seq<usize>)
    requires
        is_turn_order(roster, ord1),
        is_turn_order(roster, ord2),
    ensures
        ord1 =~= ord2,
{
    lemma_key_order_unique(initiative_keys(roster), ord1, ord2);
}

proof fn lemma_key_order_agree_from(keys: Seq<i64>, ord1: Seq<usize>, ord2: Seq<usize>, k: int)
    requires
        is_key_order(keys, ord1),
        is_key_order(keys, ord2),
        0 <= k <= ord1.len(),
        forall|j: int| 0 <= j < k ==> ord1[j] == ord2[j],
    ensures
        forall|j: int| 0 <= j < ord1.len() ==> ord1[j] == ord2[j],
    decreases ord1.len() - k,
{
    if k < ord1.len() {
        let a = ord1[k];
        let b = ord2[k];
        if a != b {
            // `a` occurs somewhere in ord2; it cannot be before
            // position k (the prefixes agree and ord1 repeats nothing),
            // so ord2 places `b` strictly before `a` — and symmetrically
            // ord1 places `a` strictly before `b`.
            assert(ord_contains(ord2, a as int));
            let la = choose|la: int| 0 <= la < ord2.len() && (#[trigger] ord2[la]) as int == a as int;
            if la < k {
                assert(ord1[la] == ord2[la]);
                assert(key_before(keys, ord1[la] as int, ord1[k] as int));
                assert(false);
            } else if la == k {
                assert(false);
            }
            assert(key_before(keys, b as int, a as int));
            assert(ord_contains(ord1, b as int));
            let lb = choose|lb: int| 0 <= lb < ord1.len() && (#[trigger] ord1[lb]) as int == b as int;
            if lb < k {
                assert(ord1[lb] == ord2[lb]);
                assert(key_before(keys, ord2[lb] as int, ord2[k] as int));
                assert(false);
            } else if lb == k {
                assert(false);
            }
            assert(key_before(keys, a as int, b as int));
            assert(false);
        }
        lemma_key_order_agree_from(keys, ord1, ord2, k + 1);
    }
}

/// Whether index `i` of the key sequence sorts before index `j`.
fn key_before_at(keys: &Vec<i64>, i: usize, j: usize) -> (r: bool)
    requires
        i < keys@.len(),
        j < keys@.len(),
    ensures
        r == key_before(keys@, i as int, j as int),
{
    let a = keys[i];
    let b = keys[j];
    a > b || (a == b && i < j)
}

/// Sorts the indices of a key sequence: every index once, descending
/// keys, ties in index order (a stable descending sort).
pub fn order_by_keys(keys: &Vec<i64>) -> (ord: Vec<usize>)
    ensures
        is_key_order(keys@, ord@),
{
    let n = keys.len();
    let mut ord: Vec<usize> = Vec::new();
    let mut idx: usize = 0;
    while idx < n
        invariant
            n == keys@.len(),
            idx <= n,
            ord@.len() == idx,
            forall|k: int| 0 <= k < ord@.len() ==> (#[trigger] ord@[k]) < idx,
            forall|v: int| 0 <= v < idx ==> #[trigger] ord_contains(ord@, v),
            forall|k: int, l: int|
                0 <= k < l < ord@.len() ==> key_before(
                    keys@,
                    #[trigger] ord@[k] as int,
                    #[trigger] ord@[l] as int,
                ),
        decreases n - idx,
    {
        let ghost prev = ord@;
        let mut p: usize = 0;
        while p < ord.len() && !key_before_at(keys, idx, ord[p])
            invariant
                n == keys@.len(),
                idx < n,
                ord@ == prev,
                ord@.len() == idx,
                forall|k: int| 0 <= k < ord@.len() ==> (#[trigger] ord@[k]) < idx,
                p <= ord@.len(),
                forall|k: int|
                    0 <= k < p ==> !key_before(keys@, idx as int, #[trigger] ord@[k] as int),
            decreases ord@.len() - p,
        {
            p += 1;
        }
        // Every earlier entry sorts before the new one, and from
        // position p on the new one sorts first (ties go to the smaller
        // index, and every index already placed is smaller than idx).
        proof {
            if p < ord@.len() {
                assert(key_before(keys@, idx as int, ord@[p as int] as int));
            }
        }
        ord.insert(p, idx);
        proof {
            let cur = ord@;
            assert(cur == prev.insert(p as int, idx));
            assert forall|v: int| 0 <= v < idx + 1 implies #[trigger] ord_contains(cur, v) by {
                if v == idx as int {
                    assert(cur[p as int] as int == v);
                } else {
                    assert(ord_contains(prev, v));
                    let k0 = choose|k0: int| 0 <= k0 < prev.len() && (#[trigger] prev[k0]) as int == v;
                    if k0 < p {
                        assert(cur[k0] as int == v);
                    } else {
                        assert(cur[k0 + 1] as int == v);
                    }
                }
            }
            assert forall|k: int, l: int|
                0 <= k < l < cur.len() implies key_before(keys@, cur[k] as int, cur[l] as int) by {
                let pi = p as int;
                if k < pi && l < pi {
                    assert(cur[k] == prev[k] && cur[l] == prev[l]);
                } else if k < pi && l == pi {
                    assert(cur[k] == prev[k]);
                    assert(!key_before(keys@, idx as int, prev[k] as int));
                    assert(prev[k] as int != idx as int);
                } else if k < pi && l > pi {
                    assert(cur[k] == prev[k] && cur[l] == prev[l - 1]);
                } else if k == pi {
                    assert(cur[l] == prev[l - 1]);
                    assert(key_before(keys@, idx as int, prev[pi] as int));
                    if l - 1 > pi {
                        assert(key_before(keys@, prev[pi] as int, prev[l - 1] as int));
                    }
                } else {
                    assert(cur[k] == prev[k - 1] && cur[l] == prev[l - 1]);
                }
            }
        }
        idx += 1;
    }
    ord
}

/// Computes the acting order of the roster: every index once, sorted by
/// descending initiative with ties in roster order.
pub fn compute_turn_order(combatants: &Vec<Combatant>) -> (ord: Vec<usize>)
    ensures
        is_turn_order(combatants@, ord@),
{
    let n = combatants.len();
    let mut keys: Vec<i64> = Vec::new();
    let mut i: usize = 0;
    while i < n
        invariant
            n == combatants@.len(),
            i <= n,
            keys@.len() == i,
            forall|j: int| 0 <= j < i ==> #[trigger] keys@[j] == combatants@[j].initiative,
        decreases n - i,
    {
        keys.push(combatants[i].initiative);
        i += 1;
    }
    proof {
        assert(keys@ =~= initiative_keys(combatants@));
    }
    order_by_keys(&keys)
}

impl Encounter {
    /// The roster indices in acting order, highest initiative first;
    /// the ordered listing the encounter reports its combatants in.
    pub fn ordered_indices(&self) -> (ord: Vec<usize>)
        ensures
            is_turn_order(self.combatants@, ord@),
    {
        compute_turn_order(&self.combatants)
    }

    /// Moves the turn to the next combatant in acting order, wrapping
    /// from the last back to the first, and reports the new holder's
    /// id. Fails with `NoActiveTurn` when no encounter is running.
    /// Nothing else changes: the roster is untouched.
    pub fn advance_turn(&mut self) -> (r: Result<i64, EngineError>)
        requires
            old(self).wf(),
        ensures
            final(self).wf(),
            final(self).combatants@ == old(self).combatants@,
            final(self).last_dice_spec == old(self).last_dice_spec,
            old(self).current_turn is None ==> r == Err::<i64, EngineError>(
                EngineError::NoActiveTurn,
            ) && final(self).current_turn is None,
            old(self).current_turn matches Some(cur) ==> {
                &&& r matches Ok(nid)
                &&& final(self).current_turn == Some(nid)
                &&& forall|ord: Seq<usize>, p: int|
                    is_turn_order(old(self).combatants@, ord) && 0 <= p < ord.len() && (
                    #[trigger] ord[p]) as int == cur - 1 ==> nid as int == ord[(p + 1) % (
                    ord.len() as int)] as int + 1
            },
    {
        let cur = match self.current_turn {
            Some(c) => c,
            None => {
                return Err(EngineError::NoActiveTurn);
            },
        };
        let ord = compute_turn_order(&self.combatants);
        let n = ord.len();
        let curidx: usize = (cur - 1) as usize;
        let mut p: usize = 0;
        while p < n && ord[p] != curidx
            invariant
                n == ord@.len(),
                is_turn_order(self.combatants@, ord@),
                p <= n,
                curidx as int == cur - 1,
                0 <= curidx < self.combatants@.len(),
                forall|k: int| 0 <= k < p ==> (#[trigger] ord@[k]) != curidx,
            decreases n - p,
        {
            p += 1;
        }
        proof {
            if p == n {
                assert(ord_contains(ord@, curidx as int));
                let k = choose|k: int|
                    0 <= k < ord@.len() && (#[trigger] ord@[k]) as int == curidx as int;
                assert(false);
            }
        }
        let np: usize = if p + 1 == n {
            0
        } else {
            p + 1
        };
        let nidx = ord[np];
        let nid: i64 = (nidx as i64) + 1;
        self.current_turn = Some(nid);
        proof {
            assert(np as int == (p as int + 1) % (n as int)) by {
                if p + 1 == n {
                    assert((p as int + 1) % (n as int) == 0) by {
                        vstd::arithmetic::div_mod::lemma_mod_self_0(n as int);
                    }
                } else {
                    assert((p as int + 1) % (n as int) == p as int + 1) by {
                        vstd::arithmetic::div_mod::lemma_small_mod((p + 1) as nat, n as nat);
                    }
                }
            }
            assert forall|ord2: Seq<usize>, p2: int|
                is_turn_order(old(self).combatants@, ord2) && 0 <= p2 < ord2.len() && (
                #[trigger] ord2[p2]) as int == cur - 1 implies nid as int == ord2[(p2 + 1) % (
                ord2.len() as int)] as int + 1 by {
                lemma_turn_order_unique(old(self).combatants@, ord@, ord2);
                if p2 != p as int {
                    assert(ord@[p2] as int == cur - 1);
                    if p2 < p as int {
                        assert(acts_before(old(self).combatants@, ord@[p2] as int, ord@[p as int] as int));
                    } else {
                        assert(acts_before(old(self).combatants@, ord@[p as int] as int, ord@[p2] as int));
                    }
                    assert(false);
                }
            }
        }
        Ok(nid)
    }
}

/// The id holding the turn after one advance, read off the acting
/// order: the entry after position `p`, wrapping at the end.
pub open spec fn next_in_order(ord: Seq<usize>, p: int) -> int {
    ord[(p + 1) % (ord.len() as int)] as int + 1
}

/// Where an id's roster index sits in the acting order.
pub open spec fn order_position(ord: Seq<usize>, id: int) -> int {
    choose|p: int| 0 <= p < ord.len() && (#[trigger] ord[p]) as int == id - 1
}

/// The id holding the turn after `k` advances from id `cur`.
pub open spec fn turn_after(ord: Seq<usize>, cur: int, k: nat) -> int
    decreases k,
{
    if k == 0 {
        cur
    } else {
        next_in_order(ord, order_position(ord, turn_after(ord, cur, (k - 1) as nat)))
    }
}

/// Advancing the turn as many times as the roster has combatants comes
/// back to the combatant it started from: the acting order closes into
/// a round robin.
pub proof fn lemma_round_robin(roster: Seq<Combatant>, ord: Seq<usize>, p: int)
    requires
        is_turn_order(roster, ord),
        0 <= p < ord.len(),
    ensures
        turn_after(ord, ord[p] as int + 1, ord.len()) == ord[p] as int + 1,
{
    lemma_turn_after_shifts(roster, ord, p, ord.len());
    assert((p + ord.len()) % (ord.len() as int) == p % (ord.len() as int)) by {
        vstd::arithmetic::div_mod::lemma_mod_multiples_vanish(1, p, ord.len() as int);
    }
    assert(p % (ord.len() as int) == p) by {
        vstd::arithmetic::div_mod::lemma_small_mod(p as nat, ord.len() as nat);
    }
}

/// After `k` advances from the combatant at order position `p`, the
/// turn sits at order position `(p + k) % n`.
proof fn lemma_turn_after_shifts(roster: Seq<Combatant>, ord: Seq<usize>, p: int, k: nat)
    requires
        is_turn_order(roster, ord),
        0 <= p < ord.len(),
    ensures
        turn_after(ord, ord[p] as int + 1, k) == ord[(p + k) % (ord.len() as int)] as int + 1,
    decreases k,
{
    let n = ord.len() as int;
    if k == 0 {
        assert(p % n == p) by {
            vstd::arithmetic::div_mod::lemma_small_mod(p as nat, n as nat);
        }
    } else {
        lemma_turn_after_shifts(roster, ord, p, (k - 1) as nat);
        let q = (p + (k - 1)) % n;
        assert(0 <= q < n) by {
            vstd::arithmetic::div_mod::lemma_mod_bound(p + (k - 1), n);
        }
        let prev_id = turn_after(ord, ord[p] as int + 1, (k - 1) as nat);
        assert(prev_id == ord[q] as int + 1);
        // the order position of prev_id is exactly q, because the
        // acting order never repeats an index
        assert(ord[q] as int == prev_id - 1);
        let q2 = order_position(ord, prev_id);
        assert(0 <= q2 < n && ord[q2] as int == prev_id - 1);
        if q2 != q {
            if q2 < q {
                assert(acts_before(roster, ord[q2] as int, ord[q] as int));
            } else {
                assert(acts_before(roster, ord[q] as int, ord[q2] as int));
            }
            assert(false);
        }
        assert(turn_after(ord, ord[p] as int + 1, k) == next_in_order(ord, q));
        assert((q + 1) % n == (p + k) % n) by {
            vstd::arithmetic::div_mod::lemma_mod_adds(p + (k - 1), 1, n);
            vstd::arithmetic::div_mod::lemma_mod_adds(q, 1, n);
            assert(q % n == q) by {
                vstd::arithmetic::div_mod::lemma_small_mod(q as nat, n as nat);
            }
            vstd::arithmetic::div_mod::lemma_mod_twice(p + (k - 1), n);
        }
    }
}

} // verus!
