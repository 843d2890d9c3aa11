use relay_submit::error_events::ErrorCategory;
use relay_submit::relay_submission::{
    may_submit, submit_bid_to_the_relay, RelayEffect, RelayError, SubmissionOutcome, SubmitBlockErr,
};

fn refused(err: SubmitBlockErr) -> Vec<RelayEffect> {
    submit_bid_to_the_relay(SubmissionOutcome::Answered(Err(err)), true)
}

#[test]
fn rate_limit_decides_on_submitting() {
    assert!(may_submit(None));
    assert!(may_submit(Some(true)));
    assert!(!may_submit(Some(false)));
}

#[test]
fn accepted_submission_is_counted() {
    for kind in [false, true] {
        let effects = submit_bid_to_the_relay(SubmissionOutcome::Answered(Ok(())), kind);
        assert_eq!(effects.len(), 2);
        assert!(matches!(effects[0], RelayEffect::AddRelaySubmitTime));
        assert!(matches!(
            effects[1],
            RelayEffect::IncRelayAcceptedSubmissions { optimistic } if optimistic == kind
        ));
    }
}

#[test]
fn skipped_submissions_have_no_effect() {
    assert!(submit_bid_to_the_relay(SubmissionOutcome::RateLimited, true).is_empty());
    assert!(submit_bid_to_the_relay(SubmissionOutcome::Cancelled, true).is_empty());
}

#[test]
fn decided_slot_is_cancelled() {
    for err in [SubmitBlockErr::PayloadDelivered, SubmitBlockErr::PastSlot] {
        let effects = refused(err);
        assert_eq!(effects.len(), 1);
        assert!(matches!(effects[0], RelayEffect::Cancel));
    }
}

#[test]
fn failed_simulation_is_kept_and_cancels() {
    let effects = refused(SubmitBlockErr::SimError("invalid nonce".to_string()));
    assert_eq!(effects.len(), 3);
    assert!(matches!(effects[0], RelayEffect::IncFailedBlockSimulations));
    match &effects[1] {
        RelayEffect::StoreErrorEvent { category, error } => {
            assert_eq!(*category, ErrorCategory::SubmitBlockSimulation);
            assert_eq!(category.name(), "submit_block_simulation");
            assert_eq!(error, "invalid nonce");
        }
        other => panic!("{:?}", other),
    }
    assert!(matches!(effects[2], RelayEffect::Cancel));
}

#[test]
fn relay_errors_are_counted_by_kind() {
    let busy = refused(SubmitBlockErr::RelayError(RelayError::TooManyRequests));
    assert_eq!(busy.len(), 1);
    assert!(matches!(busy[0], RelayEffect::IncTooManyReqRelayErrors));
    let lost = refused(SubmitBlockErr::RelayError(RelayError::ConnectionError));
    assert_eq!(lost.len(), 1);
    assert!(matches!(lost[0], RelayEffect::IncConnRelayErrors));
    let bad = refused(SubmitBlockErr::RelayError(RelayError::RequestError("x".to_string())));
    assert_eq!(bad.len(), 1);
    assert!(matches!(bad[0], RelayEffect::IncConnRelayErrors));
    let other = refused(SubmitBlockErr::RelayError(RelayError::Other("x".to_string())));
    assert_eq!(other.len(), 1);
    assert!(matches!(other[0], RelayEffect::IncOtherRelayErrors));
}

#[test]
fn other_refusals_have_no_effect() {
    assert!(refused(SubmitBlockErr::BidBelowFloor).is_empty());
    assert!(refused(SubmitBlockErr::PayloadAttributesNotKnown).is_empty());
    assert!(refused(SubmitBlockErr::BlockKnown).is_empty());
    assert!(refused(SubmitBlockErr::RPCConversionError("x".to_string())).is_empty());
    assert!(refused(SubmitBlockErr::RPCSerializationError("x".to_string())).is_empty());
    assert!(refused(SubmitBlockErr::InvalidHeader).is_empty());
}
