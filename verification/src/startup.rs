//! Startup: connect to the broker, retrying for as long as it takes, then
//! declare the topology, where the first failure is final.
//!
//! The machine is driven from outside. Its phase says which action is due; the
//! caller performs the action and reports how it ended, which moves the
//! machine to its next phase.

use crate::topology::{plan, step_at, Step, PLAN_LEN};
use vstd::prelude::*;

verus! {

/// Milliseconds between two attempts to connect.
pub const RETRY_DELAY_MILLIS: u64 = 2000;

/// Milliseconds the process waits before its first attempt.
pub const STARTUP_DELAY_MILLIS: u64 = 2000;

/// The broker address to connect to. Where none was configured it is the
/// empty string: no broker answers to that, so startup keeps retrying.
pub fn broker_address(configured: Option<String>) -> (address: String)
    ensures
        address@ == match configured {
            Some(given) => given@,
            None => Seq::<char>::empty(),
        },
{
    match configured {
        Some(given) => given,
        None => String::new(),
    }
}

/// How connecting is retried. The pause between attempts never grows.
#[derive(Clone, Copy, Debug, PartialEq, Eq)]
pub struct RetryPolicy {
    /// Pause before each attempt but the first.
    pub delay_millis: u64,
    /// Most attempts made before giving up, or `None` for no limit. One
    /// attempt is made even where the limit is lower.
    pub max_attempts: Option<u64>,
}

impl RetryPolicy {
    /// Whether another attempt follows once `failures` attempts have failed.
    pub open spec fn allows_retry(self, failures: int) -> bool {
        match self.max_attempts {
            None => true,
            Some(limit) => failures < limit,
        }
    }

    /// The policy of the running service: an attempt every two seconds, for
    /// however long the broker stays away.
    pub fn standard() -> (policy: RetryPolicy)
        ensures
            policy.delay_millis == RETRY_DELAY_MILLIS,
            policy.max_attempts is None,
    {
        RetryPolicy { delay_millis: RETRY_DELAY_MILLIS, max_attempts: None }
    }
}

/// Where startup stands.
#[derive(Clone, Copy, Debug, PartialEq, Eq)]
pub enum Phase {
    /// An attempt to connect is due; `failures` attempts have failed so far
    /// (the count stops at `u64::MAX`).
    Connecting { failures: u64 },
    /// Connected; step `index` of the plan is due.
    Declaring { index: usize },
    /// The topology stands. The service can start serving.
    Ready,
    /// Step `index` of the plan failed. Startup is over.
    Aborted { index: usize },
    /// The policy's limit was reached after `failures` failed attempts.
    GaveUp { failures: u64 },
}

/// How the action that was due ended.
#[derive(Clone, Copy, Debug, PartialEq, Eq)]
pub enum Outcome {
    Succeeded,
    Failed,
}

/// What the caller is to do next.
#[derive(Clone, Copy, Debug, PartialEq, Eq)]
pub enum Action {
    /// Wait `delay_millis`, then try to connect.
    Connect { delay_millis: u64 },
    /// Send this request to the broker.
    Run { step: Step },
    /// Start the forwarding loop and the HTTP listener.
    Serve,
    /// End the process with a failure.
    Abort,
}

/// A phase is well formed when the step it names is in the plan.
pub open spec fn phase_wf(phase: Phase) -> bool {
    match phase {
        Phase::Declaring { index } => index < PLAN_LEN,
        Phase::Aborted { index } => index < PLAN_LEN,
        _ => true,
    }
}

/// One more failure, counted up to `u64::MAX`.
pub open spec fn count_failure(failures: u64) -> u64 {
    if failures < u64::MAX {
        (failures + 1) as u64
    } else {
        failures
    }
}

/// The phase that follows `phase` once its action ended with `outcome`.
pub open spec fn next_phase(policy: RetryPolicy, phase: Phase, outcome: Outcome) -> Phase {
    match phase {
        Phase::Connecting { failures } => match outcome {
            Outcome::Succeeded => Phase::Declaring { index: 0 },
            Outcome::Failed => {
                let failures = count_failure(failures);
                if policy.allows_retry(failures as int) {
                    Phase::Connecting { failures }
                } else {
                    Phase::GaveUp { failures }
                }
            },
        },
        Phase::Declaring { index } => match outcome {
            Outcome::Succeeded => if index + 1 < PLAN_LEN {
                Phase::Declaring { index: (index + 1) as usize }
            } else {
                Phase::Ready
            },
            Outcome::Failed => Phase::Aborted { index },
        },
        Phase::Ready => phase,
        Phase::Aborted { .. } => phase,
        Phase::GaveUp { .. } => phase,
    }
}

/// The action that is due in `phase`.
pub open spec fn action_of(policy: RetryPolicy, phase: Phase) -> Action {
    match phase {
        Phase::Connecting { failures } => Action::Connect {
            delay_millis: if failures == 0 {
                0
            } else {
                policy.delay_millis
            },
        },
        Phase::Declaring { index } => Action::Run { step: plan()[index as int] },
        Phase::Ready => Action::Serve,
        Phase::Aborted { .. } => Action::Abort,
        Phase::GaveUp { .. } => Action::Abort,
    }
}

/// The phase reached from `phase` after the actions due ended, one after the
/// other, with `outcomes`.
pub open spec fn run(policy: RetryPolicy, phase: Phase, outcomes: Seq<Outcome>) -> Phase
    decreases outcomes.len(),
{
    if outcomes.len() == 0 {
        phase
    } else {
        run(policy, next_phase(policy, phase, outcomes[0]), outcomes.drop_first())
    }
}

/// The startup machine.
pub struct Startup {
    policy: RetryPolicy,
    phase: Phase,
}

impl Startup {
    #[verifier::type_invariant]
    spec fn well_formed(self) -> bool {
        phase_wf(self.phase)
    }

    /// The policy the machine was made with.
    pub closed spec fn policy(self) -> RetryPolicy {
        self.policy
    }

    /// The phase the machine is in.
    pub closed spec fn phase(self) -> Phase {
        self.phase
    }

    /// A machine about to make its first attempt to connect.
    pub fn new(policy: RetryPolicy) -> (machine: Startup)
        ensures
            machine.policy() == policy,
            machine.phase() == (Phase::Connecting { failures: 0 }),
    {
        Startup { policy, phase: Phase::Connecting { failures: 0 } }
    }

    /// The phase the machine is in.
    pub fn current(&self) -> (phase: Phase)
        ensures
            phase == self.phase(),
            phase_wf(phase),
    {
        proof {
            use_type_invariant(self);
        }
        self.phase
    }

    /// The action that is due.
    pub fn action(&self) -> (action: Action)
        ensures
            action == action_of(self.policy(), self.phase()),
    {
        proof {
            use_type_invariant(self);
        }
        match self.phase {
            Phase::Connecting { failures } => {
                let delay_millis: u64 = if failures == 0 {
                    0
                } else {
                    self.policy.delay_millis
                };
                Action::Connect { delay_millis }
            },
            Phase::Declaring { index } => {
                match step_at(index) {
                    Some(step) => Action::Run { step },
                    None => Action::Abort,
                }
            },
            Phase::Ready => Action::Serve,
            Phase::Aborted { .. } => Action::Abort,
            Phase::GaveUp { .. } => Action::Abort,
        }
    }

    /// Takes in how the action that was due ended.
    pub fn advance(&mut self, outcome: Outcome)
        ensures
            final(self).policy() == old(self).policy(),
            final(self).phase() == next_phase(old(self).policy(), old(self).phase(), outcome),
    {
        proof {
            use_type_invariant(&*self);
        }
        let next: Phase = match self.phase {
            Phase::Connecting { failures } => match outcome {
                Outcome::Succeeded => Phase::Declaring { index: 0 },
                Outcome::Failed => {
                    let failures: u64 = if failures < u64::MAX {
                        failures + 1
                    } else {
                        failures
                    };
                    let retry: bool = match self.policy.max_attempts {
                        None => true,
                        Some(limit) => failures < limit,
                    };
                    if retry {
                        Phase::Connecting { failures }
                    } else {
                        Phase::GaveUp { failures }
                    }
                },
            },
            Phase::Declaring { index } => match outcome {
                Outcome::Succeeded => if index + 1 < PLAN_LEN {
                    Phase::Declaring { index: index + 1 }
                } else {
                    Phase::Ready
                },
                Outcome::Failed => Phase::Aborted { index },
            },
            Phase::Ready => Phase::Ready,
            Phase::Aborted { index } => Phase::Aborted { index },
            Phase::GaveUp { failures } => Phase::GaveUp { failures },
        };
        self.phase = next;
    }
}

/// The same outcome, `count` times over.
pub open spec fn repeated(outcome: Outcome, count: nat) -> Seq<Outcome> {
    Seq::new(count, |i: int| outcome)
}

/// The phase in which startup begins.
pub open spec fn initial_phase() -> Phase {
    Phase::Connecting { failures: 0 }
}

/// One more outcome at the end of a run is one more step from where the run
/// ended.
pub proof fn run_one_more(policy: RetryPolicy, phase: Phase, outcomes: Seq<Outcome>, last: Outcome)
    ensures
        run(policy, phase, outcomes.push(last)) == next_phase(
            policy,
            run(policy, phase, outcomes),
            last,
        ),
    decreases outcomes.len(),
{
    let longer = outcomes.push(last);
    if outcomes.len() == 0 {
        assert(run(policy, next_phase(policy, phase, last), longer.drop_first()) == next_phase(
            policy,
            phase,
            last,
        ));
    } else {
        assert(longer.drop_first() =~= outcomes.drop_first().push(last));
        run_one_more(policy, next_phase(policy, phase, outcomes[0]), outcomes.drop_first(), last);
    }
}

/// A run over two stretches of outcomes is the run over the second from
/// where the run over the first ended.
pub proof fn run_in_two_parts(
    policy: RetryPolicy,
    phase: Phase,
    first: Seq<Outcome>,
    second: Seq<Outcome>,
)
    ensures
        run(policy, phase, first + second) == run(policy, run(policy, phase, first), second),
    decreases first.len(),
{
    if first.len() == 0 {
        assert(first + second =~= second);
    } else {
        assert((first + second).drop_first() =~= first.drop_first() + second);
        run_in_two_parts(policy, next_phase(policy, phase, first[0]), first.drop_first(), second);
    }
}

/// Well-formed phases lead to well-formed phases.
pub proof fn next_phase_is_well_formed(policy: RetryPolicy, phase: Phase, outcome: Outcome)
    requires
        phase_wf(phase),
    ensures
        phase_wf(next_phase(policy, phase, outcome)),
{
}

/// Under a policy without a limit, connecting is retried for as long as it
/// fails: after any number of failures in a row the machine is still
/// connecting, the pause before the next attempt is the policy's, the same
/// each time, and the first success moves on to the first step of the plan.
pub proof fn retry_never_gives_up(policy: RetryPolicy, failures: nat)
    requires
        policy.max_attempts is None,
    ensures
        run(policy, initial_phase(), repeated(Outcome::Failed, failures)) == (Phase::Connecting {
            failures: if failures < u64::MAX {
                failures as u64
            } else {
                u64::MAX
            },
        }),
        failures > 0 ==> action_of(
            policy,
            run(policy, initial_phase(), repeated(Outcome::Failed, failures)),
        ) == (Action::Connect { delay_millis: policy.delay_millis }),
        next_phase(
            policy,
            run(policy, initial_phase(), repeated(Outcome::Failed, failures)),
            Outcome::Succeeded,
        ) == (Phase::Declaring { index: 0 }),
        action_of(policy, Phase::Declaring { index: 0 }) == (Action::Run { step: plan()[0] }),
    decreases failures,
{
    if failures > 0 {
        let before = (failures - 1) as nat;
        retry_never_gives_up(policy, before);
        assert(repeated(Outcome::Failed, failures) =~= repeated(Outcome::Failed, before).push(
            Outcome::Failed,
        ));
        run_one_more(
            policy,
            initial_phase(),
            repeated(Outcome::Failed, before),
            Outcome::Failed,
        );
    } else {
        assert(repeated(Outcome::Failed, 0) =~= Seq::<Outcome>::empty());
    }
}

/// Under a policy with a limit, the attempt that reaches the limit is the
/// last: the machine gives up exactly when the limit's worth of attempts have
/// failed, and not before. A limit below one counts as one.
pub proof fn retry_stops_at_limit(policy: RetryPolicy, failures: nat)
    requires
        policy.max_attempts is Some,
    ensures
        ({
            let limit = policy.max_attempts->0;
            let reached = run(policy, initial_phase(), repeated(Outcome::Failed, failures));
            let last = if limit == 0 { 1 } else { limit as int };
            if failures < last {
                reached == (Phase::Connecting { failures: failures as u64 })
            } else {
                reached == (Phase::GaveUp { failures: last as u64 })
            }
        }),
    decreases failures,
{
    if failures > 0 {
        let before = (failures - 1) as nat;
        retry_stops_at_limit(policy, before);
        assert(repeated(Outcome::Failed, failures) =~= repeated(Outcome::Failed, before).push(
            Outcome::Failed,
        ));
        run_one_more(
            policy,
            initial_phase(),
            repeated(Outcome::Failed, before),
            Outcome::Failed,
        );
    } else {
        assert(repeated(Outcome::Failed, 0) =~= Seq::<Outcome>::empty());
    }
}

/// Once connected, the plan is carried out step by step in its order, and
/// when its last step has succeeded the service is ready: after the
/// connection and `done` further successes, step `done` is due, or, at the
/// end of the plan, serving is.
pub proof fn plan_is_followed_in_order(policy: RetryPolicy, connecting: Phase, done: nat)
    requires
        connecting is Connecting,
        done <= PLAN_LEN,
    ensures
        ({
            let reached = run(policy, connecting, repeated(Outcome::Succeeded, done + 1));
            if done < PLAN_LEN {
                &&& reached == (Phase::Declaring { index: done as usize })
                &&& action_of(policy, reached) == (Action::Run { step: plan()[done as int] })
            } else {
                &&& reached == Phase::Ready
                &&& action_of(policy, reached) == Action::Serve
            }
        }),
    decreases done,
{
    let successes = repeated(Outcome::Succeeded, done);
    assert(repeated(Outcome::Succeeded, done + 1) =~= successes.push(Outcome::Succeeded));
    run_one_more(policy, connecting, successes, Outcome::Succeeded);
    if done > 0 {
        plan_is_followed_in_order(policy, connecting, (done - 1) as nat);
    } else {
        assert(successes =~= Seq::<Outcome>::empty());
    }
}

/// The service makes progress as soon as the broker is there. Under a policy
/// without a limit, however many attempts have failed, the first one that
/// succeeds is followed by the whole plan, and when every step of it has
/// succeeded the service is ready to serve.
pub proof fn startup_completes_once_broker_is_up(policy: RetryPolicy, failures: nat)
    requires
        policy.max_attempts is None,
    ensures
        run(
            policy,
            initial_phase(),
            repeated(Outcome::Failed, failures) + repeated(
                Outcome::Succeeded,
                (1 + PLAN_LEN) as nat,
            ),
        ) == Phase::Ready,
        action_of(policy, Phase::Ready) == Action::Serve,
{
    let waiting = run(policy, initial_phase(), repeated(Outcome::Failed, failures));
    retry_never_gives_up(policy, failures);
    plan_is_followed_in_order(policy, waiting, PLAN_LEN as nat);
    run_in_two_parts(
        policy,
        initial_phase(),
        repeated(Outcome::Failed, failures),
        repeated(Outcome::Succeeded, (1 + PLAN_LEN) as nat),
    );
}

/// There is one connection for the lifetime of the process: once connected,
/// the machine never asks to connect again, whatever is reported to it.
pub proof fn connects_only_once(policy: RetryPolicy, phase: Phase, later: Seq<Outcome>)
    requires
        !(phase is Connecting),
    ensures
        !(run(policy, phase, later) is Connecting),
        !(action_of(policy, run(policy, phase, later)) is Connect),
    decreases later.len(),
{
    if later.len() > 0 {
        connects_only_once(policy, next_phase(policy, phase, later[0]), later.drop_first());
    }
}

/// A step of the plan that fails ends startup, and nothing that is reported
/// afterwards revives it: the failure is not retried.
pub proof fn failed_step_is_final(policy: RetryPolicy, index: usize, later: Seq<Outcome>)
    ensures
        next_phase(policy, Phase::Declaring { index }, Outcome::Failed) == (Phase::Aborted {
            index,
        }),
        action_of(policy, Phase::Aborted { index }) == Action::Abort,
        run(policy, Phase::Aborted { index }, later) == (Phase::Aborted { index }),
    decreases later.len(),
{
    if later.len() > 0 {
        failed_step_is_final(policy, index, later.drop_first());
    }
}

} // verus!
