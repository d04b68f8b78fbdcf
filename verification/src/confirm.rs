use crate::error::LedgerError;
use crate::transaction::FreshnessToken;
use vstd::prelude::*;

verus! {

/// How settled a transaction must be before the caller goes on.
#[derive(Clone, Copy, Debug, PartialEq, Eq, Structural)]
pub enum Commitment {
    Unconfirmed,
    Confirmed,
    Finalized,
}

/// What the ledger says of a signature when asked.
#[derive(Clone, Copy, Debug, PartialEq, Eq, Structural)]
pub enum SignatureStatus {
    /// The ledger has not seen the transaction.
    Unseen,
    /// Seen, but not yet confirmed.
    Unconfirmed,
    Confirmed,
    Finalized,
}

/// The bound on waiting: how many status polls, how long between them, and
/// the commitment that ends the wait.
#[derive(Clone, Copy, Debug, PartialEq, Eq, Structural)]
pub struct RetryPolicy {
    pub max_attempts: u32,
    pub interval_millis: u64,
    pub commitment: Commitment,
}

/// Why the ledger refused or failed a transaction.
#[derive(Clone, Copy, Debug, PartialEq, Eq, Structural)]
pub enum Refusal {
    /// The freshness token is no longer valid.
    Expired,
    /// An account lacks the balance the transaction needs.
    InsufficientBalance,
}

/// Where a submission stands.
#[derive(Clone, Copy, Debug, PartialEq, Eq, Structural)]
pub enum Phase {
    /// Nothing has been sent.
    Ready,
    /// The transaction is on its way to the ledger.
    Submitting,
    /// The ledger took the transaction; `polls_made` status polls have been answered.
    Polling { polls_made: u32 },
    /// The required commitment was seen.
    Succeeded { status: SignatureStatus },
    /// The submission ended without success.
    Failed { error: LedgerError },
}

/// What the driver reports back.
#[derive(Clone, Copy, Debug, PartialEq, Eq, Structural)]
pub enum Event {
    /// The driver is about to submit and has read the ledger's block height.
    Begin { current_height: u64 },
    /// The ledger took the transaction.
    Accepted,
    /// The ledger refused the transaction, or reports that it failed.
    Refused { reason: Refusal },
    /// The ledger answered a status poll.
    Observed { status: SignatureStatus },
}

/// What the driver must do next.
#[derive(Clone, Copy, Debug, PartialEq, Eq, Structural)]
pub enum Action {
    /// Send the transaction, once.
    Submit,
    /// Sleep for `after_millis`, then ask for the signature's status.
    Poll { after_millis: u64 },
    /// Stop: the phase is final.
    Stop,
    /// The event does not belong to the phase; nothing changed.
    Ignore,
}

impl RetryPolicy {
    /// The longest time a submission under this policy spends asleep, in
    /// milliseconds: the interval before every poll but the first.
    pub open spec fn spec_longest_wait(self) -> int {
        if self.max_attempts == 0 {
            0
        } else {
            (self.max_attempts - 1) * self.interval_millis
        }
    }

    /// The longest time a submission under this policy spends asleep.
    pub fn longest_wait_millis(&self) -> (w: u128)
        ensures
            w == self.spec_longest_wait(),
    {
        if self.max_attempts == 0 {
            0
        } else {
            let polls: u128 = (self.max_attempts - 1) as u128;
            let interval: u128 = self.interval_millis as u128;
            assert(polls * interval <= 0xffff_ffff * 0xffff_ffff_ffff_ffff) by (nonlinear_arith)
                requires
                    0 <= polls <= 0xffff_ffff,
                    0 <= interval <= 0xffff_ffff_ffff_ffff,
            ;
            polls * interval
        }
    }
}

impl Commitment {
    /// Position of a commitment among the three levels.
    pub open spec fn level(self) -> int {
        match self {
            Commitment::Unconfirmed => 1,
            Commitment::Confirmed => 2,
            Commitment::Finalized => 3,
        }
    }
}

impl SignatureStatus {
    /// Position of a status among the levels; an unseen transaction is below all of them.
    pub open spec fn level(self) -> int {
        match self {
            SignatureStatus::Unseen => 0,
            SignatureStatus::Unconfirmed => 1,
            SignatureStatus::Confirmed => 2,
            SignatureStatus::Finalized => 3,
        }
    }

    /// Whether a status is at least as settled as a commitment asks.
    pub open spec fn spec_reaches(self, commitment: Commitment) -> bool {
        self.level() >= commitment.level()
    }

    #[verifier::when_used_as_spec(spec_reaches)]
    pub fn reaches(self, commitment: Commitment) -> (r: bool)
        ensures
            r == self.spec_reaches(commitment),
    {
        match (self, commitment) {
            (SignatureStatus::Unseen, _) => false,
            (SignatureStatus::Unconfirmed, Commitment::Unconfirmed) => true,
            (SignatureStatus::Unconfirmed, _) => false,
            (SignatureStatus::Confirmed, Commitment::Finalized) => false,
            (SignatureStatus::Confirmed, _) => true,
            (SignatureStatus::Finalized, _) => true,
        }
    }
}

impl Refusal {
    /// The error under which a refusal is reported, unchanged in meaning.
    pub open spec fn spec_error(self) -> LedgerError {
        match self {
            Refusal::Expired => LedgerError::ExpiredTransaction,
            Refusal::InsufficientBalance => LedgerError::InsufficientBalance,
        }
    }

    #[verifier::when_used_as_spec(spec_error)]
    pub fn error(self) -> (e: LedgerError)
        ensures
            e == self.spec_error(),
    {
        match self {
            Refusal::Expired => LedgerError::ExpiredTransaction,
            Refusal::InsufficientBalance => LedgerError::InsufficientBalance,
        }
    }
}

impl FreshnessToken {
    /// Whether the ledger, at the given block height, no longer accepts a
    /// transaction bound to this token.
    pub open spec fn spec_is_expired_at(&self, current_height: u64) -> bool {
        current_height > self.last_valid_height
    }

    #[verifier::when_used_as_spec(spec_is_expired_at)]
    pub fn is_expired_at(&self, current_height: u64) -> (r: bool)
        ensures
            r == self.spec_is_expired_at(current_height),
    {
        current_height > self.last_valid_height
    }
}

impl Phase {
    /// Whether a phase is final.
    pub open spec fn spec_is_final(self) -> bool {
        self is Succeeded || self is Failed
    }

    #[verifier::when_used_as_spec(spec_is_final)]
    pub fn is_final(self) -> (r: bool)
        ensures
            r == self.spec_is_final(),
    {
        match self {
            Phase::Succeeded { .. } => true,
            Phase::Failed { .. } => true,
            _ => false,
        }
    }

    /// Whether a phase can occur under a policy: while polling, fewer polls
    /// have been answered than the policy allows.
    pub open spec fn within(self, policy: RetryPolicy) -> bool {
        self matches Phase::Polling { polls_made } ==> polls_made < policy.max_attempts
    }

    /// Most milliseconds of sleep that can still be asked for.
    pub open spec fn wait_left(self, policy: RetryPolicy) -> int {
        match self {
            Phase::Ready => policy.spec_longest_wait(),
            Phase::Submitting => policy.spec_longest_wait(),
            Phase::Polling { polls_made } => (policy.max_attempts - 1 - polls_made)
                * policy.interval_millis,
            Phase::Succeeded { .. } => 0,
            Phase::Failed { .. } => 0,
        }
    }

    /// Most events that can still change the phase: one to begin, one to be
    /// accepted, and one for each poll that is left.
    pub open spec fn steps_left(self, policy: RetryPolicy) -> int {
        match self {
            Phase::Ready => policy.max_attempts + 2,
            Phase::Submitting => policy.max_attempts + 1,
            Phase::Polling { polls_made } => policy.max_attempts - polls_made,
            Phase::Succeeded { .. } => 0,
            Phase::Failed { .. } => 0,
        }
    }
}

/// The phase and action that follow an event.
///
/// A stale token fails before anything is sent. Acceptance starts polling, at
/// once; each later poll waits for the policy's interval. A status that
/// reaches the commitment succeeds; one that does not uses up an attempt,
/// and the last attempt ends in a timeout. A refusal is final. An event
/// that does not belong to the phase changes nothing.
pub open spec fn transition(
    policy: RetryPolicy,
    token: FreshnessToken,
    phase: Phase,
    event: Event,
) -> (Phase, Action) {
    match (phase, event) {
        (Phase::Ready, Event::Begin { current_height }) => if token.spec_is_expired_at(
            current_height,
        ) {
            (Phase::Failed { error: LedgerError::ExpiredTransaction }, Action::Stop)
        } else {
            (Phase::Submitting, Action::Submit)
        },
        (Phase::Submitting, Event::Accepted) => if policy.max_attempts == 0 {
            (Phase::Failed { error: LedgerError::ConfirmationTimeout }, Action::Stop)
        } else {
            (Phase::Polling { polls_made: 0 }, Action::Poll { after_millis: 0 })
        },
        (Phase::Submitting, Event::Refused { reason }) => (
            Phase::Failed { error: reason.spec_error() },
            Action::Stop,
        ),
        (Phase::Polling { polls_made }, Event::Observed { status }) => if status.spec_reaches(
            policy.commitment,
        ) {
            (Phase::Succeeded { status }, Action::Stop)
        } else if polls_made + 1 >= policy.max_attempts {
            (Phase::Failed { error: LedgerError::ConfirmationTimeout }, Action::Stop)
        } else {
            (
                Phase::Polling { polls_made: (polls_made + 1) as u32 },
                Action::Poll { after_millis: policy.interval_millis },
            )
        },
        (Phase::Polling { .. }, Event::Refused { reason }) => (
            Phase::Failed { error: reason.spec_error() },
            Action::Stop,
        ),
        (Phase::Succeeded { .. }, _) => (phase, Action::Stop),
        (Phase::Failed { .. }, _) => (phase, Action::Stop),
        _ => (phase, Action::Ignore),
    }
}

/// Decides what follows an event: the next phase and what the driver must do.
pub fn step(policy: &RetryPolicy, token: &FreshnessToken, phase: Phase, event: Event) -> (r: (
    Phase,
    Action,
))
    ensures
        r == transition(*policy, *token, phase, event),
        phase.within(*policy) ==> r.0.within(*policy),
{
    match phase {
        Phase::Ready => match event {
            Event::Begin { current_height } => {
                if token.is_expired_at(current_height) {
                    (Phase::Failed { error: LedgerError::ExpiredTransaction }, Action::Stop)
                } else {
                    (Phase::Submitting, Action::Submit)
                }
            },
            _ => (phase, Action::Ignore),
        },
        Phase::Submitting => match event {
            Event::Accepted => {
                if policy.max_attempts == 0 {
                    (Phase::Failed { error: LedgerError::ConfirmationTimeout }, Action::Stop)
                } else {
                    (Phase::Polling { polls_made: 0 }, Action::Poll { after_millis: 0 })
                }
            },
            Event::Refused { reason } => (Phase::Failed { error: reason.error() }, Action::Stop),
            _ => (phase, Action::Ignore),
        },
        Phase::Polling { polls_made } => match event {
            Event::Observed { status } => {
                if status.reaches(policy.commitment) {
                    (Phase::Succeeded { status }, Action::Stop)
                } else if polls_made >= policy.max_attempts || polls_made + 1
                    >= policy.max_attempts {
                    (Phase::Failed { error: LedgerError::ConfirmationTimeout }, Action::Stop)
                } else {
                    (
                        Phase::Polling { polls_made: polls_made + 1 },
                        Action::Poll { after_millis: policy.interval_millis },
                    )
                }
            },
            Event::Refused { reason } => (Phase::Failed { error: reason.error() }, Action::Stop),
            _ => (phase, Action::Ignore),
        },
        Phase::Succeeded { .. } => (phase, Action::Stop),
        Phase::Failed { .. } => (phase, Action::Stop),
    }
}

/// The phase after a whole series of events, starting from `phase`.
pub open spec fn phase_after(
    policy: RetryPolicy,
    token: FreshnessToken,
    phase: Phase,
    events: Seq<Event>,
) -> Phase
    decreases events.len(),
{
    if events.len() == 0 {
        phase
    } else {
        phase_after(policy, token, transition(policy, token, phase, events[0]).0, events.drop_first())
    }
}

/// Replays a recorded series of events from the start and tells where the
/// submission stands after them.
pub fn replay(policy: &RetryPolicy, token: &FreshnessToken, events: &Vec<Event>) -> (phase: Phase)
    ensures
        phase == phase_after(*policy, *token, Phase::Ready, events@),
        phase.within(*policy),
{
    let mut phase = Phase::Ready;
    let mut i: usize = 0;
    assert(events@.subrange(0, events@.len() as int) =~= events@);
    while i < events.len()
        invariant
            i <= events.len(),
            phase.within(*policy),
            phase_after(*policy, *token, phase, events@.subrange(i as int, events@.len() as int))
                == phase_after(*policy, *token, Phase::Ready, events@),
        decreases events.len() - i,
    {
        let ghost rest = events@.subrange(i as int, events@.len() as int);
        let (next, _) = step(policy, token, phase, events[i]);
        proof {
            assert(rest[0] == events@[i as int]);
            assert(rest.drop_first() =~= events@.subrange(i + 1, events@.len() as int));
        }
        phase = next;
        i = i + 1;
    }
    assert(events@.subrange(events@.len() as int, events@.len() as int) =~= Seq::<Event>::empty());
    phase
}

/// A transaction bound to a stale token is never sent: from the start, the
/// first event that can change the phase finds the token expired, fails
/// with an expired-transaction error and asks for no submission.
pub proof fn law_expired_token_is_not_submitted(
    policy: RetryPolicy,
    token: FreshnessToken,
    current_height: u64,
)
    requires
        token.spec_is_expired_at(current_height),
    ensures
        transition(policy, token, Phase::Ready, Event::Begin { current_height }) == (
            Phase::Failed { error: LedgerError::ExpiredTransaction },
            Action::Stop,
        ),
{
}

/// A submission is asked for in one situation only: at the start, with a
/// token that is still valid. In particular it is never asked for twice.
pub proof fn law_submit_only_once_and_fresh(
    policy: RetryPolicy,
    token: FreshnessToken,
    phase: Phase,
    event: Event,
)
    requires
        transition(policy, token, phase, event).1 == Action::Submit,
    ensures
        phase == Phase::Ready,
        event matches Event::Begin { current_height } && !token.spec_is_expired_at(current_height),
        transition(policy, token, phase, event).0 == Phase::Submitting,
{
}

/// Success means that the required commitment was observed: an unseen
/// transaction never counts, and an unconfirmed one only where no more is
/// asked.
pub proof fn law_success_reaches_commitment(
    policy: RetryPolicy,
    token: FreshnessToken,
    phase: Phase,
    event: Event,
)
    requires
        !phase.spec_is_final(),
        transition(policy, token, phase, event).0 is Succeeded,
    ensures
        event matches Event::Observed { status } && status.spec_reaches(policy.commitment)
            && status != SignatureStatus::Unseen && transition(policy, token, phase, event).0
            == (Phase::Succeeded { status }),
{
}

/// Waiting is bounded: every event that is not ignored brings the end
/// nearer, so that a submission sees at most `max_attempts` polls answered
/// after one begin and one acceptance.
pub proof fn law_every_step_counts(
    policy: RetryPolicy,
    token: FreshnessToken,
    phase: Phase,
    event: Event,
)
    requires
        phase.within(policy),
        !phase.spec_is_final(),
        transition(policy, token, phase, event).1 != Action::Ignore,
    ensures
        transition(policy, token, phase, event).0.within(policy),
        0 <= transition(policy, token, phase, event).0.steps_left(policy) < phase.steps_left(
            policy,
        ),
{
}

/// A timeout is reported only when the last allowed poll has been answered
/// without the required commitment, or when no poll is allowed at all.
pub proof fn law_timeout_after_last_attempt(
    policy: RetryPolicy,
    token: FreshnessToken,
    phase: Phase,
    event: Event,
)
    requires
        phase.within(policy),
        !phase.spec_is_final(),
        transition(policy, token, phase, event).0 == (Phase::Failed {
            error: LedgerError::ConfirmationTimeout,
        }),
    ensures
        match phase {
            Phase::Submitting => event == Event::Accepted && policy.max_attempts == 0,
            Phase::Polling { polls_made } => polls_made + 1 == policy.max_attempts && (
            event matches Event::Observed { status } && !status.spec_reaches(policy.commitment)),
            _ => false,
        },
{
}

/// A final phase stays as it is, whatever is reported afterwards.
pub proof fn law_final_phase_is_stable(
    policy: RetryPolicy,
    token: FreshnessToken,
    phase: Phase,
    events: Seq<Event>,
)
    requires
        phase.spec_is_final(),
    ensures
        phase_after(policy, token, phase, events) == phase,
    decreases events.len(),
{
    if events.len() > 0 {
        law_final_phase_is_stable(policy, token, phase, events.drop_first());
    }
}

/// The milliseconds of sleep asked for over a whole series of events,
/// starting from `phase`.
pub open spec fn waited(
    policy: RetryPolicy,
    token: FreshnessToken,
    phase: Phase,
    events: Seq<Event>,
) -> int
    decreases events.len(),
{
    if events.len() == 0 {
        0
    } else {
        let (next, action) = transition(policy, token, phase, events[0]);
        let now: int = match action {
            Action::Poll { after_millis } => after_millis as int,
            _ => 0,
        };
        now + waited(policy, token, next, events.drop_first())
    }
}

/// From any phase that can occur, the sleep still asked for stays within
/// what the phase has left.
proof fn lemma_wait_stays_within(
    policy: RetryPolicy,
    token: FreshnessToken,
    phase: Phase,
    events: Seq<Event>,
)
    requires
        phase.within(policy),
    ensures
        0 <= waited(policy, token, phase, events) <= phase.wait_left(policy),
    decreases events.len(),
{
    let m: int = policy.max_attempts as int;
    let t: int = policy.interval_millis as int;
    assert(phase.wait_left(policy) >= 0) by (nonlinear_arith)
        requires
            phase.within(policy),
            phase.wait_left(policy) == match phase {
                Phase::Polling { polls_made } => (m - 1 - polls_made) * t,
                Phase::Ready => if m == 0 {
                    0
                } else {
                    (m - 1) * t
                },
                Phase::Submitting => if m == 0 {
                    0
                } else {
                    (m - 1) * t
                },
                _ => 0,
            },
            phase matches Phase::Polling { polls_made } ==> polls_made < m,
            m >= 0,
            t >= 0,
    ;
    if events.len() > 0 {
        let (next, action) = transition(policy, token, phase, events[0]);
        lemma_wait_stays_within(policy, token, next, events.drop_first());
        match (phase, events[0]) {
            (Phase::Polling { polls_made }, Event::Observed { status }) => {
                if !status.spec_reaches(policy.commitment) && polls_made + 1 < m {
                    assert((m - 1 - polls_made) * t == (m - 1 - (polls_made + 1)) * t + t)
                        by (nonlinear_arith);
                }
            },
            (Phase::Submitting, Event::Accepted) => {
                if m != 0 {
                    assert((m - 1 - 0) * t == (m - 1) * t);
                }
            },
            _ => {},
        }
    }
}

/// The wait is bounded in time as well as in polls: whatever the ledger
/// answers, a submission sleeps for no longer than the policy's longest wait.
pub proof fn law_wait_is_bounded(policy: RetryPolicy, token: FreshnessToken, events: Seq<Event>)
    ensures
        0 <= waited(policy, token, Phase::Ready, events) <= policy.spec_longest_wait(),
{
    lemma_wait_stays_within(policy, token, Phase::Ready, events);
}

} // verus!
