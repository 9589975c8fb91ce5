use vstd::prelude::*;

use crate::errors::EngineError;

verus! {

// Dice notation, e.g. "2d6+3": one or more terms joined by '+' or '-',
// where a term is either a dice roll `NdM` ('d' or 'D', count and sides
// at least 1) or a plain number. Numbers have no sign and no leading
// zero, and top out at 999_999_999. The grammar is a strict subset of
// the one the `rouler` crate accepts, with the same meaning; validating
// here first keeps every call into `rouler` on ground where its
// documented behaviour applies.

/// One term of a dice expression: a roll of `count` dice with `sides`
/// faces each, or a constant.
#[derive(Clone, Copy, Debug, PartialEq, Eq, Structural)]
pub enum DiceTerm {
    Roll { count: u32, sides: u32 },
    Flat { value: u32 },
}

/// A term together with the sign it is summed with.
#[derive(Clone, Copy, Debug, PartialEq, Eq, Structural)]
pub struct SignedTerm {
    pub positive: bool,
    pub term: DiceTerm,
}

/// Where the scanner stands inside the expression text.
#[derive(Clone, Copy, Debug, PartialEq, Eq, Structural)]
pub enum ScanPos {
    /// Expecting the first digit of a number.
    NumStart,
    /// Inside a number, at least one digit read.
    InNum,
    /// The text can no longer match the grammar.
    Fail,
}

/// The full scanner state after some prefix of the input.
pub ghost struct ScanState {
    pub terms: Seq<SignedTerm>,
    pub positive: bool,
    pub after_d: bool,
    pub first_val: nat,
    pub cur_val: nat,
    pub zero_start: bool,
    pub pos: ScanPos,
}

/// Scanner state before any character has been read.
pub open spec fn scan_init() -> ScanState {
    ScanState {
        terms: Seq::empty(),
        positive: true,
        after_d: false,
        first_val: 0,
        cur_val: 0,
        zero_start: false,
        pos: ScanPos::NumStart,
    }
}

/// The same state with the scan marked as failed.
pub open spec fn fail_state(st: ScanState) -> ScanState {
    ScanState { pos: ScanPos::Fail, ..st }
}

/// Closes the term currently being read, if it is well formed: a dice
/// term needs both its count and its side count to be at least 1.
pub open spec fn finish_term(st: ScanState) -> Option<SignedTerm> {
    if st.after_d {
        if 1 <= st.first_val <= 999_999_999 && 1 <= st.cur_val <= 999_999_999 {
            Some(
                SignedTerm {
                    positive: st.positive,
                    term: DiceTerm::Roll { count: st.first_val as u32, sides: st.cur_val as u32 },
                },
            )
        } else {
            None
        }
    } else {
        if st.cur_val <= 999_999_999 {
            Some(SignedTerm { positive: st.positive, term: DiceTerm::Flat { value: st.cur_val as u32 } })
        } else {
            None
        }
    }
}

/// One step of the scanner: how the state changes on reading `c`.
pub open spec fn scan_step(st: ScanState, c: char) -> ScanState {
    let u = c as u32;
    if st.pos is Fail {
        st
    } else if 48 <= u <= 57 {
        // a digit
        let d = (u - 48) as nat;
        if st.pos is NumStart {
            ScanState { pos: ScanPos::InNum, cur_val: d, zero_start: d == 0, ..st }
        } else {
            if st.zero_start || st.cur_val > 99_999_999 {
                fail_state(st)
            } else {
                ScanState { cur_val: st.cur_val * 10 + d, ..st }
            }
        }
    } else if u == 100 || u == 68 {
        // 'd' or 'D'
        if st.pos is InNum && !st.after_d {
            ScanState {
                after_d: true,
                first_val: st.cur_val,
                cur_val: 0,
                zero_start: false,
                pos: ScanPos::NumStart,
                ..st
            }
        } else {
            fail_state(st)
        }
    } else if u == 43 || u == 45 {
        // '+' or '-'
        if st.pos is InNum {
            match finish_term(st) {
                Some(t) => ScanState {
                    terms: st.terms.push(t),
                    positive: u == 43,
                    after_d: false,
                    first_val: 0,
                    cur_val: 0,
                    zero_start: false,
                    pos: ScanPos::NumStart,
                },
                None => fail_state(st),
            }
        } else {
            fail_state(st)
        }
    } else {
        fail_state(st)
    }
}

/// Scanner state after the first `n` characters of `s`.
pub open spec fn scan_upto(s: Seq<char>, n: int) -> ScanState
    decreases n,
{
    if n <= 0 {
        scan_init()
    } else {
        scan_step(scan_upto(s, n - 1), s[n - 1])
    }
}

/// The terms of a dice expression, or `None` when the text does not
/// match the grammar.
pub open spec fn spec_parse_terms(s: Seq<char>) -> Option<Seq<SignedTerm>> {
    let st = scan_upto(s, s.len() as int);
    if st.pos is InNum {
        match finish_term(st) {
            Some(t) => Some(st.terms.push(t)),
            None => None,
        }
    } else {
        None
    }
}

/// Number bounds of a single well-formed term.
pub open spec fn term_bounded(t: SignedTerm) -> bool {
    match t.term {
        DiceTerm::Roll { count, sides } => 1 <= count <= 999_999_999 && 1 <= sides <= 999_999_999,
        DiceTerm::Flat { value } => value <= 999_999_999,
    }
}

/// Number bounds of every term of a parsed expression.
pub open spec fn terms_bounded(ts: Seq<SignedTerm>) -> bool {
    forall|i: int| 0 <= i < ts.len() ==> term_bounded(#[trigger] ts[i])
}

/// The least value a term can evaluate to, ignoring its sign.
pub open spec fn term_min_val(t: DiceTerm) -> int {
    match t {
        DiceTerm::Roll { count, sides: _ } => count as int,
        DiceTerm::Flat { value } => value as int,
    }
}

/// The greatest value a term can evaluate to, ignoring its sign.
pub open spec fn term_max_val(t: DiceTerm) -> int {
    match t {
        DiceTerm::Roll { count, sides } => count as int * sides as int,
        DiceTerm::Flat { value } => value as int,
    }
}

/// The least value a signed term can contribute.
pub open spec fn sterm_min(t: SignedTerm) -> int {
    if t.positive {
        term_min_val(t.term)
    } else {
        -term_max_val(t.term)
    }
}

/// The greatest value a signed term can contribute.
pub open spec fn sterm_max(t: SignedTerm) -> int {
    if t.positive {
        term_max_val(t.term)
    } else {
        -term_min_val(t.term)
    }
}

/// The least total the whole expression can evaluate to.
pub open spec fn expr_min(ts: Seq<SignedTerm>) -> int
    decreases ts.len(),
{
    if ts.len() == 0 {
        0
    } else {
        expr_min(ts.drop_last()) + sterm_min(ts.last())
    }
}

/// The greatest total the whole expression can evaluate to.
pub open spec fn expr_max(ts: Seq<SignedTerm>) -> int
    decreases ts.len(),
{
    if ts.len() == 0 {
        0
    } else {
        expr_max(ts.drop_last()) + sterm_max(ts.last())
    }
}

/// A bound on the magnitude of any partial or total sum of the
/// expression: the sum of every term's greatest magnitude.
pub open spec fn expr_abs(ts: Seq<SignedTerm>) -> int
    decreases ts.len(),
{
    if ts.len() == 0 {
        0
    } else {
        expr_abs(ts.drop_last()) + term_max_val(ts.last().term)
    }
}

/// A dice expression is valid when it matches the grammar and every
/// total it can produce stays inside a 64-bit signed integer.
pub open spec fn spec_valid_dice(s: Seq<char>) -> bool {
    match spec_parse_terms(s) {
        Some(ts) => expr_abs(ts) <= i64::MAX as int,
        None => false,
    }
}

/// The least total a valid expression can produce.
pub open spec fn dice_min(s: Seq<char>) -> int {
    expr_min(spec_parse_terms(s).unwrap())
}

/// The greatest total a valid expression can produce.
pub open spec fn dice_max(s: Seq<char>) -> int {
    expr_max(spec_parse_terms(s).unwrap())
}

/// Every state the scanner can reach keeps its numbers bounded.
proof fn lemma_scan_wf(s: Seq<char>, n: int)
    ensures
        scan_upto(s, n).cur_val <= 999_999_999,
        scan_upto(s, n).first_val <= 999_999_999,
        terms_bounded(scan_upto(s, n).terms),
    decreases n,
{
    if n > 0 {
        lemma_scan_wf(s, n - 1);
        let st = scan_upto(s, n - 1);
        let st2 = scan_step(st, s[n - 1]);
        assert forall|i: int| 0 <= i < st2.terms.len() implies term_bounded(#[trigger] st2.terms[i]) by {
            if i < st.terms.len() {
                assert(term_bounded(st.terms[i]));
            }
        }
    }
}

/// The terms of any successfully parsed expression are bounded.
pub proof fn lemma_parse_terms_bounded(s: Seq<char>)
    requires
        spec_parse_terms(s) is Some,
    ensures
        terms_bounded(spec_parse_terms(s).unwrap()),
{
    lemma_scan_wf(s, s.len() as int);
    let st = scan_upto(s, s.len() as int);
    let ts = spec_parse_terms(s).unwrap();
    assert forall|i: int| 0 <= i < ts.len() implies term_bounded(#[trigger] ts[i]) by {
        if i < st.terms.len() {
            assert(term_bounded(st.terms[i]));
        }
    }
}

/// Parses dice notation into its signed terms, or `None` when the text
/// does not match the grammar.
pub fn parse_dice_spec(s: &str) -> (r: Option<Vec<SignedTerm>>)
    ensures
        match r {
            Some(v) => spec_parse_terms(s@) == Some(v@) && terms_bounded(v@),
            None => spec_parse_terms(s@) is None,
        },
{
    let n = s.unicode_len();
    let mut terms: Vec<SignedTerm> = Vec::new();
    let mut positive: bool = true;
    let mut after_d: bool = false;
    let mut first_val: u32 = 0;
    let mut cur_val: u32 = 0;
    let mut zero_start: bool = false;
    let mut pos = ScanPos::NumStart;
    let mut i: usize = 0;
    while i < n
        invariant
            n == s@.len(),
            i <= n,
            scan_upto(s@, i as int) == (ScanState {
                terms: terms@,
                positive: positive,
                after_d: after_d,
                first_val: first_val as nat,
                cur_val: cur_val as nat,
                zero_start: zero_start,
                pos: pos,
            }),
        decreases n - i,
    {
        proof {
            lemma_scan_wf(s@, i as int);
        }
        let c = s.get_char(i);
        let u = c as u32;
        if pos == ScanPos::Fail {
            // stays failed
        } else if 48 <= u && u <= 57 {
            let d = u - 48;
            if pos == ScanPos::NumStart {
                pos = ScanPos::InNum;
                cur_val = d;
                zero_start = d == 0;
            } else {
                if zero_start || cur_val > 99_999_999 {
                    pos = ScanPos::Fail;
                } else {
                    cur_val = cur_val * 10 + d;
                }
            }
        } else if u == 100 || u == 68 {
            if pos == ScanPos::InNum && !after_d {
                after_d = true;
                first_val = cur_val;
                cur_val = 0;
                zero_start = false;
                pos = ScanPos::NumStart;
            } else {
                pos = ScanPos::Fail;
            }
        } else if u == 43 || u == 45 {
            if pos == ScanPos::InNum {
                let mut closed: Option<SignedTerm> = None;
                if after_d {
                    if 1 <= first_val && first_val <= 999_999_999 && 1 <= cur_val && cur_val
                        <= 999_999_999 {
                        closed = Some(
                            SignedTerm {
                                positive,
                                term: DiceTerm::Roll { count: first_val, sides: cur_val },
                            },
                        );
                    }
                } else {
                    if cur_val <= 999_999_999 {
                        closed = Some(
                            SignedTerm { positive, term: DiceTerm::Flat { value: cur_val } },
                        );
                    }
                }
                match closed {
                    Some(t) => {
                        terms.push(t);
                        positive = u == 43;
                        after_d = false;
                        first_val = 0;
                        cur_val = 0;
                        zero_start = false;
                        pos = ScanPos::NumStart;
                    },
                    None => {
                        pos = ScanPos::Fail;
                    },
                }
            } else {
                pos = ScanPos::Fail;
            }
        } else {
            pos = ScanPos::Fail;
        }
        i += 1;
    }
    proof {
        lemma_scan_wf(s@, n as int);
    }
    if pos == ScanPos::InNum {
        let mut closed: Option<SignedTerm> = None;
        if after_d {
            if 1 <= first_val && first_val <= 999_999_999 && 1 <= cur_val && cur_val
                <= 999_999_999 {
                closed = Some(
                    SignedTerm { positive, term: DiceTerm::Roll { count: first_val, sides: cur_val } },
                );
            }
        } else {
            if cur_val <= 999_999_999 {
                closed = Some(SignedTerm { positive, term: DiceTerm::Flat { value: cur_val } });
            }
        }
        match closed {
            Some(t) => {
                terms.push(t);
                proof {
                    lemma_parse_terms_bounded(s@);
                }
                Some(terms)
            },
            None => None,
        }
    } else {
        None
    }
}

/// Whether every possible total of the parsed expression fits in an
/// `i64`; true exactly when the sum of all term magnitudes does.
fn dice_bound_ok(terms: &Vec<SignedTerm>) -> (b: bool)
    requires
        terms_bounded(terms@),
    ensures
        b == (expr_abs(terms@) <= i64::MAX as int),
{
    let mut acc: u128 = 0;
    let mut i: usize = 0;
    while i < terms.len()
        invariant
            i <= terms@.len(),
            terms_bounded(terms@),
            acc as int == expr_abs(terms@.subrange(0, i as int)),
            acc as int <= i as int * 1_000_000_000_000_000_000,
        decreases terms@.len() - i,
    {
        let t = terms[i];
        let tm: u64 = match t.term {
            DiceTerm::Roll { count, sides } => {
                proof {
                    assert(term_bounded(terms@[i as int]));
                    assert(count as int * sides as int <= 999_999_999_999_999_999)
                        by (nonlinear_arith)
                        requires 1 <= count <= 999_999_999 && 1 <= sides <= 999_999_999,
                    ;
                }
                (count as u64) * (sides as u64)
            },
            DiceTerm::Flat { value } => {
                proof {
                    assert(term_bounded(terms@[i as int]));
                }
                value as u64
            },
        };
        proof {
            assert(terms@.subrange(0, i as int + 1).drop_last() =~= terms@.subrange(0, i as int));
            assert(terms@.subrange(0, i as int + 1).last() == terms@[i as int]);
        }
        acc = acc + tm as u128;
        i += 1;
    }
    proof {
        assert(terms@.subrange(0, terms@.len() as int) =~= terms@);
    }
    acc <= i64::MAX as u128
}

/// Relies on rouler::roll_dice_or_fail: the library's dice grammar is a
/// subset of rouler's, so a validated expression parses there, and the
/// computed total is the signed sum of its terms, each die drawn between
/// 1 and its side count. The validity bound keeps every partial sum
/// inside `i64`, which is the ground on which rouler's arithmetic and
/// its per-term dice sums stay free of overflow and of its documented
/// panics (zero dice, zero sides, division).
#[verifier::external_body]
fn rouler_total(spec: &str) -> (r: i64)
    requires
        spec_valid_dice(spec@),
    ensures
        dice_min(spec@) <= r as int <= dice_max(spec@),
{
    match rouler::roll_dice_or_fail(spec) {
        Ok(t) => t,
        Err(_) => 0,
    }
}

/// The two fixed expressions the engine itself rolls: "1d20" for checks
/// and initiative, and "1d1" as the default attack of a fresh combatant.
/// Both are valid; a d20 totals between 1 and 20, and "1d1" is always 1.
pub proof fn lemma_fixed_dice_specs()
    ensures
        spec_valid_dice("1d20"@),
        dice_min("1d20"@) == 1,
        dice_max("1d20"@) == 20,
        spec_valid_dice("1d1"@),
        dice_min("1d1"@) == 1,
        dice_max("1d1"@) == 1,
{
    reveal_strlit("1d20");
    reveal_strlit("1d1");
    reveal_with_fuel(scan_upto, 6);
    reveal_with_fuel(expr_min, 3);
    reveal_with_fuel(expr_max, 3);
    reveal_with_fuel(expr_abs, 3);
    let s20 = "1d20"@;
    assert(s20.len() == 4);
    assert(scan_upto(s20, 4) == scan_step(scan_upto(s20, 3), '0'));
    let ts20 = spec_parse_terms(s20).unwrap();
    assert(ts20.len() == 1);
    assert(ts20.last() == SignedTerm { positive: true, term: DiceTerm::Roll { count: 1, sides: 20 } });
    assert(ts20.drop_last().len() == 0);
    assert(term_max_val(ts20.last().term) == 20) by (nonlinear_arith)
        requires ts20.last().term == (DiceTerm::Roll { count: 1u32, sides: 20u32 }),
    ;
    assert(expr_max(ts20) == 20);
    assert(expr_abs(ts20) == 20);
    let s1 = "1d1"@;
    assert(s1.len() == 3);
    assert(scan_upto(s1, 3) == scan_step(scan_upto(s1, 2), '1'));
    let ts1 = spec_parse_terms(s1).unwrap();
    assert(ts1.len() == 1);
    assert(ts1.last() == SignedTerm { positive: true, term: DiceTerm::Roll { count: 1, sides: 1 } });
    assert(ts1.drop_last().len() == 0);
    assert(term_max_val(ts1.last().term) == 1) by (nonlinear_arith)
        requires ts1.last().term == (DiceTerm::Roll { count: 1u32, sides: 1u32 }),
    ;
    assert(expr_max(ts1) == 1);
    assert(expr_abs(ts1) == 1);
}

/// Evaluates a dice expression to a randomized total. Fails with
/// `InvalidDiceSpec` exactly when the text is not a valid expression;
/// otherwise the total lies between the least and greatest sums the
/// expression can produce.
pub fn roll_dice(spec: &str) -> (r: Result<i64, EngineError>)
    ensures
        spec_valid_dice(spec@) ==> (r matches Ok(v) && dice_min(spec@) <= v as int <= dice_max(
            spec@,
        )),
        !spec_valid_dice(spec@) ==> r == Err::<i64, EngineError>(EngineError::InvalidDiceSpec),
{
    match parse_dice_spec(spec) {
        Some(terms) => {
            if dice_bound_ok(&terms) {
                Ok(rouler_total(spec))
            } else {
                Err(EngineError::InvalidDiceSpec)
            }
        },
        None => Err(EngineError::InvalidDiceSpec),
    }
}

} // verus!
