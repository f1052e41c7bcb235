//! The arithmetic of a cursor that walks round a fixed number of slots.
//!
//! A cursor over `len` slots is either unset or an index below `len`. Moving
//! forward from the last slot lands on the first, moving back from the first
//! lands on the last, and an unset cursor lands on slot 0 whichever way it is
//! moved. Over no slots at all a cursor has nowhere to go and stays as it is.

use vstd::arithmetic::div_mod::{
    lemma_add_mod_noop, lemma_mod_add_multiples_vanish, lemma_small_mod,
};
use vstd::prelude::*;

verus! {

/// Whether `cursor` is a legal cursor over `len` slots.
pub open spec fn cursor_valid(len: nat, cursor: Option<nat>) -> bool {
    match cursor {
        Some(i) => i < len,
        None => true,
    }
}

/// The cursor after one step forward.
pub open spec fn step_forward(len: nat, cursor: Option<nat>) -> Option<nat> {
    if len == 0 {
        cursor
    } else {
        match cursor {
            Some(i) => Some((i + 1) % len),
            None => Some(0),
        }
    }
}

/// The cursor after one step back.
pub open spec fn step_back(len: nat, cursor: Option<nat>) -> Option<nat> {
    if len == 0 {
        cursor
    } else {
        match cursor {
            Some(i) => Some(((i + len - 1) as nat) % len),
            None => Some(0),
        }
    }
}

/// The cursor after `steps` steps forward.
pub open spec fn forward_by(len: nat, cursor: Option<nat>, steps: nat) -> Option<nat>
    decreases steps,
{
    if steps == 0 {
        cursor
    } else {
        step_forward(len, forward_by(len, cursor, (steps - 1) as nat))
    }
}

/// How many steps forward lead from slot `from` to slot `to`.
pub open spec fn steps_between(len: nat, from: nat, to: nat) -> nat {
    ((to + len - from) as nat) % len
}

/// A number below twice the modulus is reduced by taking the modulus off at
/// most once.
pub proof fn lemma_mod_wraps_once(x: nat, len: nat)
    requires
        0 < len,
        x < 2 * len,
    ensures
        x % len == if x < len {
            x
        } else {
            (x - len) as nat
        },
{
    if x < len {
        lemma_small_mod(x, len);
    } else {
        lemma_mod_add_multiples_vanish(x - len, len as int);
        lemma_small_mod((x - len) as nat, len);
    }
}

/// Stepping forward `steps` times from slot `start` lands on the slot
/// `start + steps`, counted round the ring.
pub proof fn lemma_forward_by_lands(len: nat, start: nat, steps: nat)
    requires
        start < len,
    ensures
        forward_by(len, Some(start), steps) == Some((start + steps) % len),
    decreases steps,
{
    if steps == 0 {
        lemma_small_mod(start, len);
    } else {
        let before = (start + steps - 1) as nat;
        lemma_forward_by_lands(len, start, (steps - 1) as nat);
        let at = before % len;
        assert(at < len) by (nonlinear_arith)
            requires
                at == before % len,
                0 < len,
        ;
        lemma_mod_wraps_once(at + 1, len);
        assert((before + 1) % len == (at + 1) % len) by {
            lemma_add_mod_noop(before as int, 1, len as int);
            if len > 1 {
                lemma_small_mod(1, len);
                lemma_small_mod(at, len);
            }
        }
    }
}

/// Over at least one slot, stepping forward from any slot passes through every
/// slot exactly once in `len` steps, and the step after those is back on the
/// slot it started from.
pub proof fn law_forward_visits_each_slot_once(len: nat, start: nat)
    requires
        start < len,
    ensures
        forward_by(len, Some(start), len) == Some(start),
        forall|to: nat|
            to < len ==> {
                &&& #[trigger] steps_between(len, start, to) < len
                &&& forward_by(len, Some(start), steps_between(len, start, to)) == Some(to)
            },
        forall|a: nat, b: nat|
            #![trigger forward_by(len, Some(start), a), forward_by(len, Some(start), b)]
            a < b < len ==> forward_by(len, Some(start), a) != forward_by(len, Some(start), b),
{
    lemma_forward_by_lands(len, start, len);
    lemma_mod_wraps_once(start + len, len);
    assert forall|to: nat| to < len implies {
        &&& #[trigger] steps_between(len, start, to) < len
        &&& forward_by(len, Some(start), steps_between(len, start, to)) == Some(to)
    } by {
        let steps = steps_between(len, start, to);
        lemma_mod_wraps_once((to + len - start) as nat, len);
        lemma_forward_by_lands(len, start, steps);
        lemma_mod_wraps_once(start + steps, len);
    }
    assert forall|a: nat, b: nat|
        #![trigger forward_by(len, Some(start), a), forward_by(len, Some(start), b)]
        a < b < len implies forward_by(len, Some(start), a) != forward_by(len, Some(start), b) by {
        lemma_forward_by_lands(len, start, a);
        lemma_forward_by_lands(len, start, b);
        lemma_mod_wraps_once(start + a, len);
        lemma_mod_wraps_once(start + b, len);
    }
}

/// Over at least one slot, an unset cursor that steps forward lands on slot 0
/// and then walks the slots in order: the first `len` steps visit each slot
/// once, and the next step is on slot 0 again.
pub proof fn law_forward_from_unset(len: nat)
    requires
        0 < len,
    ensures
        forall|steps: nat|
            0 < steps <= len ==> #[trigger] forward_by(len, None, steps) == Some(
                (steps - 1) as nat,
            ),
        forward_by(len, None, len + 1) == Some(0nat),
{
    assert forall|steps: nat| 0 < steps implies #[trigger] forward_by(len, None, steps)
        == forward_by(len, Some(0), (steps - 1) as nat) by {
        lemma_forward_unset_is_from_first(len, steps);
    }
    assert forall|steps: nat| 0 < steps <= len implies #[trigger] forward_by(len, None, steps)
        == Some((steps - 1) as nat) by {
        lemma_forward_by_lands(len, 0, (steps - 1) as nat);
        lemma_small_mod((steps - 1) as nat, len);
    }
    lemma_forward_by_lands(len, 0, len);
    lemma_mod_wraps_once(len, len);
}

/// The first step of an unset cursor puts it on slot 0; what follows is a walk
/// from there.
pub proof fn lemma_forward_unset_is_from_first(len: nat, steps: nat)
    requires
        0 < len,
        0 < steps,
    ensures
        forward_by(len, None, steps) == forward_by(len, Some(0), (steps - 1) as nat),
    decreases steps,
{
    if steps == 1 {
        assert(forward_by(len, None, 0) == None::<nat>);
        assert(forward_by(len, Some(0), 0) == Some(0nat));
    } else {
        lemma_forward_unset_is_from_first(len, (steps - 1) as nat);
    }
}

/// A step back undoes a step forward, and a step forward undoes a step back,
/// wherever the cursor is set or there are no slots. (An unset cursor over
/// some slots is set by the first step and never unset by a second.)
pub proof fn law_back_undoes_forward(len: nat, cursor: Option<nat>)
    requires
        cursor_valid(len, cursor),
        cursor is Some || len == 0,
    ensures
        step_back(len, step_forward(len, cursor)) == cursor,
        step_forward(len, step_back(len, cursor)) == cursor,
{
    if let Some(i) = cursor {
        lemma_mod_wraps_once(i + 1, len);
        let ahead = (i + 1) % len;
        lemma_mod_wraps_once((ahead + len - 1) as nat, len);
        lemma_mod_wraps_once((i + len - 1) as nat, len);
        let behind = ((i + len - 1) as nat) % len;
        lemma_mod_wraps_once(behind + 1, len);
    }
}

} // verus!
