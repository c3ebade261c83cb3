use vstd::prelude::*;
use crate::face::FacialExpression;
use crate::pet::{is_eat_token, is_light_token, refuses, PetState, MEMORY_LEN, RECOVERY_SECS, SCALE_MAX};

verus! {

/// The state after the same token is submitted `n` times at second `now`.
pub open spec fn submit_repeatedly(s: PetState, t: Seq<char>, now: int, n: nat) -> PetState
    decreases n,
{
    if n == 0 {
        s
    } else {
        submit_repeatedly(s, t, now, (n - 1) as nat).after_action(t, now)
    }
}

/// One thing that can happen to a pet: an action token submitted at a
/// second, or a recovery tick at a second.
pub enum PetEvent {
    Action(Seq<char>, int),
    Recovery(int),
}

/// The state after one event. A recovery tick is only made while the pet
/// sleeps with the light off; at any other time there is none.
pub open spec fn step(s: PetState, e: PetEvent) -> PetState {
    match e {
        PetEvent::Action(t, now) => s.after_action(t, now),
        PetEvent::Recovery(now) => if !s.light_on && s.face == FacialExpression::Sleeping {
            s.after_recovery(now)
        } else {
            s
        },
    }
}

/// The state after a sequence of events, in order.
pub open spec fn run(s: PetState, events: Seq<PetEvent>) -> PetState
    decreases events.len(),
{
    if events.len() == 0 {
        s
    } else {
        step(run(s, events.drop_last()), events.last())
    }
}

/// Eating raises pleasure by one, up to the top of the scale, as long as the
/// pet does not refuse the token; a refused token costs exactly one point,
/// down to 0.
pub proof fn eat_moves_pleasure(s: PetState, t: Seq<char>, now: int)
    requires
        s.wf(),
        is_eat_token(t),
    ensures
        !refuses(s.memory, t) ==> s.after_action(t, now).pleasure >= s.pleasure,
        !refuses(s.memory, t) ==> s.after_action(t, now).pleasure == if s.pleasure < SCALE_MAX {
            s.pleasure + 1
        } else {
            SCALE_MAX as int
        },
        refuses(s.memory, t) ==> s.after_action(t, now).pleasure == if s.pleasure > 0 {
            s.pleasure - 1
        } else {
            0
        },
{
}

/// Once an eat token has been submitted three times in a row, every further
/// submission of it makes the pet angry and leaves the history as it is.
pub proof fn repeated_eat_is_refused(s: PetState, t: Seq<char>, now: int, n: nat)
    requires
        s.wf(),
        is_eat_token(t),
        n >= MEMORY_LEN,
    ensures
        refuses(submit_repeatedly(s, t, now, n).memory, t),
        submit_repeatedly(s, t, now, n + 1).face == FacialExpression::Angry,
        submit_repeatedly(s, t, now, n + 1).memory == submit_repeatedly(s, t, now, n).memory,
{
    lemma_repeat_fills_memory(s, t, now, n);
}

/// After `k` submissions of the same eat token, the newest `k` entries of the
/// history (all of it, once full) are that token.
proof fn lemma_repeat_fills_memory(s: PetState, t: Seq<char>, now: int, k: nat)
    requires
        s.wf(),
        is_eat_token(t),
    ensures
        submit_repeatedly(s, t, now, k).wf(),
        k <= MEMORY_LEN ==> submit_repeatedly(s, t, now, k).memory.len() >= k,
        k >= MEMORY_LEN ==> submit_repeatedly(s, t, now, k).memory.len() == MEMORY_LEN,
        forall|i: int|
            #![trigger submit_repeatedly(s, t, now, k).memory[i]]
            0 <= i && submit_repeatedly(s, t, now, k).memory.len() - k <= i
                < submit_repeatedly(s, t, now, k).memory.len()
                ==> submit_repeatedly(s, t, now, k).memory[i] == t,
    decreases k,
{
    if k > 0 {
        lemma_repeat_fills_memory(s, t, now, (k - 1) as nat);
        let p = submit_repeatedly(s, t, now, (k - 1) as nat);
        let q = submit_repeatedly(s, t, now, k);
        action_keeps_wf(p, t, now);
        assert(q == p.after_action(t, now));
        if !refuses(p.memory, t) {
            assert(q.memory == crate::pet::remember(p.memory, t));
            assert forall|i: int| 0 <= i && q.memory.len() - k <= i < q.memory.len()
                implies #[trigger] q.memory[i] == t by {
                if i < q.memory.len() - 1 {
                    if p.memory.len() >= MEMORY_LEN {
                        assert(q.memory[i] == p.memory[i + 1]);
                    } else {
                        assert(q.memory[i] == p.memory[i]);
                    }
                }
            }
        }
    }
}

/// Turning the light off puts the pet to sleep; turning it on wakes a sleeping
/// pet calm; turning it on leaves any other mood as it is.
pub proof fn light_toggle_sets_mood(s: PetState, t: Seq<char>, now: int)
    requires
        s.wf(),
        is_light_token(t),
    ensures
        s.light_on ==> s.after_action(t, now).face == FacialExpression::Sleeping,
        !s.light_on && s.face == FacialExpression::Sleeping
            ==> s.after_action(t, now).face == FacialExpression::Calm,
        !s.light_on && s.face != FacialExpression::Sleeping
            ==> s.after_action(t, now).face == s.face,
        s.after_action(t, now).light_on == !s.light_on,
{
    lemma_light_is_not_eat(t);
    if s.memory.len() >= MEMORY_LEN {
        assert(is_eat_token(s.memory[0]));
        assert(s.memory[0] != t);
    }
    assert(!refuses(s.memory, t));
}

/// No light token is an eat token.
proof fn lemma_light_is_not_eat(t: Seq<char>)
    requires
        is_light_token(t),
    ensures
        !is_eat_token(t),
{
    reveal_strlit("E");
    reveal_strlit("e");
    reveal_strlit("L");
    reveal_strlit("l");
    assert("E"@[0] != t[0]);
    assert("e"@[0] != t[0]);
}

/// A recovery tick before the pet has slept long enough changes nothing;
/// after that it adds exactly one health point, up to the top, and restarts
/// the sleep clock.
pub proof fn recovery_timing(s: PetState, now: int)
    requires
        s.wf(),
    ensures
        now - s.sleep_since < RECOVERY_SECS ==> s.after_recovery(now) == s,
        now - s.sleep_since >= RECOVERY_SECS ==> s.after_recovery(now).hp == if s.hp < SCALE_MAX {
            s.hp + 1
        } else {
            SCALE_MAX as int
        },
        now - s.sleep_since >= RECOVERY_SECS ==> s.after_recovery(now).sleep_since == now,
{
}

/// Every action keeps a well-formed state well-formed.
pub proof fn action_keeps_wf(s: PetState, t: Seq<char>, now: int)
    requires
        s.wf(),
    ensures
        s.after_action(t, now).wf(),
{
    if !refuses(s.memory, t) && is_eat_token(t) {
        let m = crate::pet::remember(s.memory, t);
        assert forall|i: int| 0 <= i < m.len() implies is_eat_token(#[trigger] m[i]) by {
            if s.memory.len() >= MEMORY_LEN {
                if i < m.len() - 1 {
                    assert(m[i] == s.memory[i + 1]);
                }
            } else if i < s.memory.len() {
                assert(m[i] == s.memory[i]);
            }
        }
    }
}

/// Health and pleasure stay between 0 and the top of the scale after any
/// sequence of actions and recovery ticks.
pub proof fn levels_stay_in_range(s: PetState, events: Seq<PetEvent>)
    requires
        s.wf(),
    ensures
        run(s, events).wf(),
        0 <= run(s, events).hp <= SCALE_MAX,
        0 <= run(s, events).pleasure <= SCALE_MAX,
    decreases events.len(),
{
    if events.len() > 0 {
        let p = run(s, events.drop_last());
        levels_stay_in_range(s, events.drop_last());
        if let PetEvent::Action(t, now) = events.last() {
            action_keeps_wf(p, t, now);
        }
    }
}

} // verus!
