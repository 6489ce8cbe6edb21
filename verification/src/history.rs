use vstd::prelude::*;
use crate::states::LockBox;

verus! {

/// One successful balance-moving instruction, recorded with the amount the
/// matching external transfer settled.
pub enum Event {
    Deposit { amount: u64 },
    Withdraw { amount: u64 },
    Emergency { amount: u64 },
}

/// The relation a successful handler establishes between the entity state it
/// was given and the state it returned.
///
/// Owner, target, creation time, and derivation nonce never change; the
/// target latch never falls; activity never rises; and the balance moves by
/// exactly the settled amount.
pub open spec fn lockbox_step(pre: LockBox, ev: Event, post: LockBox) -> bool {
    &&& post.owner@ == pre.owner@
    &&& post.target_amount == pre.target_amount
    &&& post.created_at == pre.created_at
    &&& post.derivation_nonce == pre.derivation_nonce
    &&& (pre.has_reached_target ==> post.has_reached_target)
    &&& (post.is_active ==> pre.is_active)
    &&& match ev {
        Event::Deposit { amount } => {
            &&& amount > 0
            &&& pre.is_active
            &&& post.is_active
            &&& post.current_balance == pre.current_balance + amount
            &&& post.has_reached_target == (pre.has_reached_target
                || post.current_balance >= pre.target_amount)
        },
        Event::Withdraw { amount } => {
            &&& pre.has_reached_target
            &&& amount <= pre.current_balance
            &&& post.current_balance == pre.current_balance - amount
            &&& post.has_reached_target == pre.has_reached_target
            &&& post.is_active == pre.is_active
        },
        Event::Emergency { amount } => {
            &&& pre.is_active
            &&& amount == pre.current_balance
            &&& amount > 0
            &&& post.current_balance == 0
            &&& !post.is_active
            &&& post.has_reached_target == pre.has_reached_target
        },
    }
}

/// The sum of the deposited amounts in a run of events.
pub open spec fn sum_deposits(events: Seq<Event>) -> int
    decreases events.len(),
{
    if events.len() == 0 {
        0
    } else {
        sum_deposits(events.drop_last()) + match events.last() {
            Event::Deposit { amount } => amount as int,
            Event::Withdraw { amount: _ } => 0,
            Event::Emergency { amount: _ } => 0,
        }
    }
}

/// The sum of the withdrawn amounts in a run of events; an emergency
/// withdrawal counts with the whole balance it paid out.
pub open spec fn sum_withdrawals(events: Seq<Event>) -> int
    decreases events.len(),
{
    if events.len() == 0 {
        0
    } else {
        sum_withdrawals(events.drop_last()) + match events.last() {
            Event::Deposit { amount: _ } => 0,
            Event::Withdraw { amount } => amount as int,
            Event::Emergency { amount } => amount as int,
        }
    }
}

/// A run of an entity: `states` are the snapshots between instructions and
/// each `events[i]` is the successful instruction that took `states[i]` to
/// `states[i + 1]`.
pub open spec fn valid_run(states: Seq<LockBox>, events: Seq<Event>) -> bool {
    &&& states.len() == events.len() + 1
    &&& forall|i: int|
        0 <= i < events.len() ==> lockbox_step(states[i], events[i], states[i + 1])
}

/// Balance accounting: over any run, the final tracked balance is the
/// starting balance plus the deposits settled, minus the withdrawals
/// settled. Starting from a freshly created entity (balance zero) the
/// balance is therefore exactly the sum of successful deposit amounts minus
/// the sum of successful withdrawal amounts — and, being unsigned, never
/// negative.
pub proof fn lemma_balance_accounting(states: Seq<LockBox>, events: Seq<Event>)
    requires
        valid_run(states, events),
    ensures
        states.last().current_balance ==
            states.first().current_balance + sum_deposits(events) - sum_withdrawals(events),
    decreases events.len(),
{
    if events.len() > 0 {
        let n = events.len() as int;
        assert(valid_run(states.drop_last(), events.drop_last()));
        lemma_balance_accounting(states.drop_last(), events.drop_last());
        assert(states.drop_last().last() == states[n - 1]);
        assert(lockbox_step(states[n - 1], events[n - 1], states[n]));
    }
}

/// From a freshly created entity, whose balance is zero, no run ever
/// withdraws more than was deposited: the tracked balance is unsigned and
/// accounts exactly for the settled amounts.
pub proof fn lemma_deposits_cover_withdrawals(states: Seq<LockBox>, events: Seq<Event>)
    requires
        valid_run(states, events),
        states.first().current_balance == 0,
    ensures
        sum_withdrawals(events) <= sum_deposits(events),
{
    lemma_balance_accounting(states, events);
}

/// The target latch is monotonic: once set in some state of a run, it stays
/// set in every later state.
pub proof fn lemma_latch_monotonic(states: Seq<LockBox>, events: Seq<Event>)
    requires
        valid_run(states, events),
    ensures
        forall|i: int, j: int|
            0 <= i <= j < states.len() && states[i].has_reached_target
                ==> states[j].has_reached_target,
    decreases events.len(),
{
    if events.len() > 0 {
        let n = events.len() as int;
        assert(valid_run(states.drop_last(), events.drop_last()));
        lemma_latch_monotonic(states.drop_last(), events.drop_last());
        assert(lockbox_step(states[n - 1], events[n - 1], states[n]));
        assert forall|i: int, j: int|
            0 <= i <= j < states.len() && states[i].has_reached_target
                implies states[j].has_reached_target by {
            if j < n {
                assert(states.drop_last()[i] == states[i]);
                assert(states.drop_last()[j] == states[j]);
            } else {
                if i < n {
                    assert(states.drop_last()[i] == states[i]);
                    assert(states.drop_last()[n - 1] == states[n - 1]);
                }
            }
        }
    }
}

/// Activity is monotonic the other way: once a state of a run is inactive,
/// every later state is inactive too.
pub proof fn lemma_active_monotonic(states: Seq<LockBox>, events: Seq<Event>)
    requires
        valid_run(states, events),
    ensures
        forall|i: int, j: int|
            0 <= i <= j < states.len() && states[j].is_active ==> states[i].is_active,
    decreases events.len(),
{
    if events.len() > 0 {
        let n = events.len() as int;
        assert(valid_run(states.drop_last(), events.drop_last()));
        lemma_active_monotonic(states.drop_last(), events.drop_last());
        assert(lockbox_step(states[n - 1], events[n - 1], states[n]));
        assert forall|i: int, j: int|
            0 <= i <= j < states.len() && states[j].is_active
                implies states[i].is_active by {
            if j < n {
                assert(states.drop_last()[i] == states[i]);
                assert(states.drop_last()[j] == states[j]);
            } else {
                if i < n {
                    assert(states.drop_last()[i] == states[i]);
                    assert(states.drop_last()[n - 1] == states[n - 1]);
                }
            }
        }
    }
}

/// No instruction after creation ever changes the owner or the target: both
/// are fixed across every state of a run.
pub proof fn lemma_owner_target_fixed(states: Seq<LockBox>, events: Seq<Event>)
    requires
        valid_run(states, events),
    ensures
        forall|i: int|
            0 <= i < states.len()
                ==> #[trigger] states[i].owner@ == states[0].owner@
                    && states[i].target_amount == states[0].target_amount,
    decreases events.len(),
{
    if events.len() > 0 {
        let n = events.len() as int;
        assert(valid_run(states.drop_last(), events.drop_last()));
        lemma_owner_target_fixed(states.drop_last(), events.drop_last());
        assert(lockbox_step(states[n - 1], events[n - 1], states[n]));
        assert forall|i: int|
            0 <= i < states.len()
                implies #[trigger] states[i].owner@ == states[0].owner@
                    && states[i].target_amount == states[0].target_amount by {
            if i < n {
                assert(states.drop_last()[i] == states[i]);
                assert(states.drop_last()[0] == states[0]);
            } else {
                assert(states.drop_last()[n - 1] == states[n - 1]);
                assert(states.drop_last()[0] == states[0]);
            }
        }
    }
}

} // verus!
