use ledger_core::confirm::{
    replay, step, Action, Commitment, Event, Phase, Refusal, RetryPolicy, SignatureStatus,
};
use ledger_core::error::LedgerError;
use ledger_core::transaction::FreshnessToken;

fn policy(max_attempts: u32, commitment: Commitment) -> RetryPolicy {
    RetryPolicy { max_attempts, interval_millis: 500, commitment }
}

fn token() -> FreshnessToken {
    FreshnessToken { hash: [1; 32], last_valid_height: 150 }
}

#[test]
fn expired_token_fails_before_anything_is_sent() {
    let p = policy(3, Commitment::Confirmed);
    let (phase, action) = step(&p, &token(), Phase::Ready, Event::Begin { current_height: 151 });
    assert_eq!(phase, Phase::Failed { error: LedgerError::ExpiredTransaction });
    assert_eq!(action, Action::Stop);
    assert_ne!(action, Action::Submit);
    assert!(token().is_expired_at(151));
    assert!(!token().is_expired_at(150));
}

#[test]
fn fresh_token_is_submitted_once() {
    let p = policy(3, Commitment::Confirmed);
    let (phase, action) = step(&p, &token(), Phase::Ready, Event::Begin { current_height: 150 });
    assert_eq!(phase, Phase::Submitting);
    assert_eq!(action, Action::Submit);
    let (phase, action) = step(&p, &token(), phase, Event::Begin { current_height: 100 });
    assert_eq!(phase, Phase::Submitting);
    assert_eq!(action, Action::Ignore);
}

#[test]
fn acceptance_starts_polling_at_once() {
    let p = policy(3, Commitment::Confirmed);
    let (phase, action) = step(&p, &token(), Phase::Submitting, Event::Accepted);
    assert_eq!(phase, Phase::Polling { polls_made: 0 });
    assert_eq!(action, Action::Poll { after_millis: 0 });
}

#[test]
fn ledger_refusal_of_a_stale_token_is_reported_as_expired() {
    let p = policy(3, Commitment::Confirmed);
    let (phase, action) =
        step(&p, &token(), Phase::Submitting, Event::Refused { reason: Refusal::Expired });
    assert_eq!(phase, Phase::Failed { error: LedgerError::ExpiredTransaction });
    assert_eq!(action, Action::Stop);
}

#[test]
fn insufficient_balance_is_surfaced_as_it_is() {
    let p = policy(3, Commitment::Confirmed);
    let refused = Event::Refused { reason: Refusal::InsufficientBalance };
    let (phase, _) = step(&p, &token(), Phase::Submitting, refused);
    assert_eq!(phase, Phase::Failed { error: LedgerError::InsufficientBalance });
    let (phase, action) = step(&p, &token(), Phase::Polling { polls_made: 1 }, refused);
    assert_eq!(phase, Phase::Failed { error: LedgerError::InsufficientBalance });
    assert_eq!(action, Action::Stop);
    assert_eq!(Refusal::InsufficientBalance.error(), LedgerError::InsufficientBalance);
    assert_eq!(Refusal::Expired.error(), LedgerError::ExpiredTransaction);
}

#[test]
fn commitment_levels_are_ordered() {
    assert!(!SignatureStatus::Unseen.reaches(Commitment::Unconfirmed));
    assert!(!SignatureStatus::Unseen.reaches(Commitment::Confirmed));
    assert!(!SignatureStatus::Unseen.reaches(Commitment::Finalized));
    assert!(SignatureStatus::Unconfirmed.reaches(Commitment::Unconfirmed));
    assert!(!SignatureStatus::Unconfirmed.reaches(Commitment::Confirmed));
    assert!(!SignatureStatus::Unconfirmed.reaches(Commitment::Finalized));
    assert!(SignatureStatus::Confirmed.reaches(Commitment::Unconfirmed));
    assert!(SignatureStatus::Confirmed.reaches(Commitment::Confirmed));
    assert!(!SignatureStatus::Confirmed.reaches(Commitment::Finalized));
    assert!(SignatureStatus::Finalized.reaches(Commitment::Unconfirmed));
    assert!(SignatureStatus::Finalized.reaches(Commitment::Confirmed));
    assert!(SignatureStatus::Finalized.reaches(Commitment::Finalized));
}

#[test]
fn observed_commitment_ends_the_wait() {
    let p = policy(3, Commitment::Confirmed);
    let observed = Event::Observed { status: SignatureStatus::Finalized };
    let (phase, action) = step(&p, &token(), Phase::Polling { polls_made: 2 }, observed);
    assert_eq!(phase, Phase::Succeeded { status: SignatureStatus::Finalized });
    assert_eq!(action, Action::Stop);
    assert!(phase.is_final());
}

#[test]
fn unmet_commitment_waits_for_the_interval() {
    let p = policy(3, Commitment::Confirmed);
    let observed = Event::Observed { status: SignatureStatus::Unconfirmed };
    let (phase, action) = step(&p, &token(), Phase::Polling { polls_made: 0 }, observed);
    assert_eq!(phase, Phase::Polling { polls_made: 1 });
    assert_eq!(action, Action::Poll { after_millis: 500 });
    assert!(!phase.is_final());
}

#[test]
fn the_last_attempt_ends_in_a_timeout() {
    let p = policy(3, Commitment::Finalized);
    let events = vec![
        Event::Begin { current_height: 10 },
        Event::Accepted,
        Event::Observed { status: SignatureStatus::Unseen },
        Event::Observed { status: SignatureStatus::Unconfirmed },
    ];
    assert_eq!(replay(&p, &token(), &events), Phase::Polling { polls_made: 2 });
    let mut events = events;
    events.push(Event::Observed { status: SignatureStatus::Confirmed });
    assert_eq!(
        replay(&p, &token(), &events),
        Phase::Failed { error: LedgerError::ConfirmationTimeout }
    );
    events.push(Event::Observed { status: SignatureStatus::Finalized });
    assert_eq!(
        replay(&p, &token(), &events),
        Phase::Failed { error: LedgerError::ConfirmationTimeout }
    );
}

#[test]
fn no_attempts_allowed_times_out_on_acceptance() {
    let p = policy(0, Commitment::Unconfirmed);
    let (phase, action) = step(&p, &token(), Phase::Submitting, Event::Accepted);
    assert_eq!(phase, Phase::Failed { error: LedgerError::ConfirmationTimeout });
    assert_eq!(action, Action::Stop);
}

#[test]
fn replay_of_a_successful_submission() {
    let p = policy(5, Commitment::Confirmed);
    let events = vec![
        Event::Begin { current_height: 149 },
        Event::Accepted,
        Event::Observed { status: SignatureStatus::Unseen },
        Event::Observed { status: SignatureStatus::Unconfirmed },
        Event::Observed { status: SignatureStatus::Confirmed },
    ];
    assert_eq!(
        replay(&p, &token(), &events),
        Phase::Succeeded { status: SignatureStatus::Confirmed }
    );
    assert_eq!(replay(&p, &token(), &vec![]), Phase::Ready);
}

#[test]
fn replay_of_an_expired_submission_never_polls() {
    let p = policy(5, Commitment::Confirmed);
    let events = vec![
        Event::Begin { current_height: 1_000 },
        Event::Accepted,
        Event::Observed { status: SignatureStatus::Finalized },
    ];
    assert_eq!(
        replay(&p, &token(), &events),
        Phase::Failed { error: LedgerError::ExpiredTransaction }
    );
}

#[test]
fn final_phases_do_not_change() {
    let p = policy(5, Commitment::Confirmed);
    let done = Phase::Succeeded { status: SignatureStatus::Confirmed };
    let failed = Phase::Failed { error: LedgerError::ConfirmationTimeout };
    let events = [
        Event::Begin { current_height: 1 },
        Event::Accepted,
        Event::Refused { reason: Refusal::Expired },
        Event::Observed { status: SignatureStatus::Finalized },
    ];
    for event in events.iter() {
        assert_eq!(step(&p, &token(), done, *event), (done, Action::Stop));
        assert_eq!(step(&p, &token(), failed, *event), (failed, Action::Stop));
    }
}

#[test]
fn events_out_of_place_are_ignored() {
    let p = policy(5, Commitment::Confirmed);
    let observed = Event::Observed { status: SignatureStatus::Finalized };
    assert_eq!(step(&p, &token(), Phase::Ready, observed), (Phase::Ready, Action::Ignore));
    assert_eq!(step(&p, &token(), Phase::Ready, Event::Accepted), (Phase::Ready, Action::Ignore));
    assert_eq!(
        step(&p, &token(), Phase::Submitting, observed),
        (Phase::Submitting, Action::Ignore)
    );
    let polling = Phase::Polling { polls_made: 1 };
    assert_eq!(step(&p, &token(), polling, Event::Accepted), (polling, Action::Ignore));
}

#[test]
fn polling_beyond_the_budget_times_out() {
    let p = policy(2, Commitment::Confirmed);
    let observed = Event::Observed { status: SignatureStatus::Unseen };
    let stray = Phase::Polling { polls_made: u32::MAX };
    assert_eq!(
        step(&p, &token(), stray, observed),
        (Phase::Failed { error: LedgerError::ConfirmationTimeout }, Action::Stop)
    );
}

#[test]
fn longest_wait_is_the_interval_before_every_poll_but_the_first() {
    assert_eq!(policy(60, Commitment::Confirmed).longest_wait_millis(), 59 * 500);
    assert_eq!(policy(1, Commitment::Confirmed).longest_wait_millis(), 0);
    assert_eq!(policy(0, Commitment::Confirmed).longest_wait_millis(), 0);
    let widest =
        RetryPolicy { max_attempts: u32::MAX, interval_millis: u64::MAX, commitment: Commitment::Finalized };
    assert_eq!(widest.longest_wait_millis(), (u32::MAX as u128 - 1) * (u64::MAX as u128));
}

#[test]
fn a_whole_submission_sleeps_no_longer_than_the_longest_wait() {
    let p = policy(4, Commitment::Finalized);
    let mut phase = Phase::Ready;
    let mut event = Event::Begin { current_height: 1 };
    let mut slept: u128 = 0;
    let mut polls = 0;
    let mut submissions = 0;
    loop {
        let (next, action) = step(&p, &token(), phase, event);
        phase = next;
        event = match action {
            Action::Submit => {
                submissions += 1;
                Event::Accepted
            }
            Action::Poll { after_millis } => {
                slept += after_millis as u128;
                polls += 1;
                Event::Observed { status: SignatureStatus::Confirmed }
            }
            Action::Stop | Action::Ignore => break,
        };
    }
    assert_eq!(phase, Phase::Failed { error: LedgerError::ConfirmationTimeout });
    assert_eq!(submissions, 1);
    assert_eq!(polls, 4);
    assert_eq!(slept, 1_500);
    assert_eq!(slept, p.longest_wait_millis());
}
