use vstd::prelude::*;

use crate::input::KeyboardInput;

verus! {

/// Receives a batch of raw events for injection and returns how many were
/// accepted.
pub trait SendInputApi {
    fn send_input(&self, input_list: &[KeyboardInput]) -> u32;
}

/// How a batch of raw events is handed to the system.
#[derive(Debug, PartialEq, Eq, Structural, Clone, Copy)]
pub enum SendInputType {
    /// All events in one call.
    Fast,
    /// One event per call, without pause.
    Normal,
    /// One event per call, each followed by a pause of the given milliseconds.
    Slow(u64),
}

/// One step of a dispatch.
#[derive(Debug, PartialEq, Eq, Structural, Clone, Copy)]
pub enum SendStep {
    /// Submit the events from `start` up to, not including, `end`.
    Submit { start: usize, end: usize },
    /// Pause for the given milliseconds.
    Sleep(u64),
}

/// The step that submits event `i` alone.
pub open spec fn submit_one(i: int) -> SendStep {
    SendStep::Submit { start: i as usize, end: (i + 1) as usize }
}

/// The steps that deliver event `i` one by one, with a pause of `delay`
/// milliseconds after it where `delay` is not 0.
pub open spec fn single_event_steps(i: int, delay: u64) -> Seq<SendStep> {
    if delay > 0 {
        seq![submit_one(i), SendStep::Sleep(delay)]
    } else {
        seq![submit_one(i)]
    }
}

/// The steps that deliver the first `n` events one by one.
pub open spec fn per_event_steps(n: nat, delay: u64) -> Seq<SendStep>
    decreases n,
{
    if n == 0 {
        seq![]
    } else {
        per_event_steps((n - 1) as nat, delay) + single_event_steps(n - 1, delay)
    }
}

/// The steps that deliver `n` events with strategy `ty`. The one-call
/// strategy submits the whole batch in one call, even an empty one; the
/// per-event strategies submit nothing for an empty batch.
pub open spec fn dispatch_steps(ty: SendInputType, n: nat) -> Seq<SendStep> {
    match ty {
        SendInputType::Fast => seq![SendStep::Submit { start: 0, end: n as usize }],
        SendInputType::Normal => per_event_steps(n, 0),
        SendInputType::Slow(delay) => per_event_steps(n, delay),
    }
}

/// The total pause of a list of steps, in milliseconds.
pub open spec fn total_sleep(steps: Seq<SendStep>) -> nat
    decreases steps.len(),
{
    if steps.len() == 0 {
        0
    } else {
        total_sleep(steps.drop_last()) + match steps.last() {
            SendStep::Sleep(ms) => ms as nat,
            SendStep::Submit { .. } => 0,
        }
    }
}

/// The steps that deliver `n` events with strategy `ty`.
pub fn dispatch_plan(ty: SendInputType, n: usize) -> (r: Vec<SendStep>)
    ensures
        r@ == dispatch_steps(ty, n as nat),
{
    let mut steps: Vec<SendStep> = Vec::new();
    match ty {
        SendInputType::Fast => {
            steps.push(SendStep::Submit { start: 0, end: n });
            proof {
                assert(steps@ =~= dispatch_steps(ty, n as nat));
            }
        },
        SendInputType::Normal | SendInputType::Slow(_) => {
            let delay: u64 = match ty {
                SendInputType::Slow(d) => d,
                _ => 0,
            };
            let mut i: usize = 0;
            while i < n
                invariant
                    i <= n,
                    steps@ == per_event_steps(i as nat, delay),
                decreases n - i,
            {
                steps.push(SendStep::Submit { start: i, end: i + 1 });
                if delay > 0 {
                    steps.push(SendStep::Sleep(delay));
                }
                proof {
                    assert(steps@ =~= per_event_steps((i + 1) as nat, delay));
                }
                i = i + 1;
            }
        },
    }
    steps
}

/// With a pause of `delay` milliseconds, `n` events are delivered one per step,
/// each submission directly followed by its pause: the caller is held for
/// `n * delay` milliseconds in all, so at least `(n - 1) * delay` pass between
/// the first event and the last.
pub proof fn lemma_slow_plan(n: nat, delay: u64)
    requires
        delay > 0,
    ensures
        dispatch_steps(SendInputType::Slow(delay), n).len() == 2 * n,
        forall|i: int|
            0 <= i < n ==> #[trigger] dispatch_steps(SendInputType::Slow(delay), n)[2 * i]
                == submit_one(i),
        forall|i: int|
            0 <= i < n ==> #[trigger] dispatch_steps(SendInputType::Slow(delay), n)[2 * i + 1]
                == SendStep::Sleep(delay),
        total_sleep(dispatch_steps(SendInputType::Slow(delay), n)) == n * delay,
    decreases n,
{
    if n > 0 {
        let m = (n - 1) as nat;
        lemma_slow_plan(m, delay);
        let prev = per_event_steps(m, delay);
        let steps = per_event_steps(n, delay);
        assert(steps == prev + single_event_steps(m as int, delay));
        assert(steps.drop_last() =~= prev.push(submit_one(m as int)));
        assert(steps.drop_last().drop_last() =~= prev);
        assert(total_sleep(steps) == total_sleep(prev) + delay) by {
            assert(steps.last() == SendStep::Sleep(delay));
            assert(steps.drop_last().last() == submit_one(m as int));
            assert(total_sleep(steps.drop_last()) == total_sleep(prev));
        }
        assert(n * delay == m * delay + delay) by (nonlinear_arith)
            requires
                m + 1 == n,
        ;
        assert forall|i: int| 0 <= i < n implies #[trigger] steps[2 * i] == submit_one(i) && steps[2 * i + 1] == SendStep::Sleep(delay) by {
            if i < m {
                assert(prev[2 * i] == submit_one(i));
                assert(prev[2 * i + 1] == SendStep::Sleep(delay));
            }
        }
    }
}

} // verus!
