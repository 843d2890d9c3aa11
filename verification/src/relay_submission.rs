//! The submission of one block to one relay.

use vstd::prelude::*;

use crate::error_events::ErrorCategory;

verus! {

/// Why talking to a relay has failed.
#[derive(Debug)]
pub enum RelayError {
    TooManyRequests,
    ConnectionError,
    RequestError(String),
    Other(String),
}

/// Why a relay has not accepted a block.
#[derive(Debug)]
pub enum SubmitBlockErr {
    /// The relay has delivered a payload for the slot already.
    PayloadDelivered,
    /// The slot is over.
    PastSlot,
    /// The bid is below the floor of the relay.
    BidBelowFloor,
    /// The relay does not know the payload attributes.
    PayloadAttributesNotKnown,
    /// The simulation of the block has failed.
    SimError(String),
    /// Talking to the relay has failed.
    RelayError(RelayError),
    /// The relay has the block already.
    BlockKnown,
    RPCConversionError(String),
    RPCSerializationError(String),
    InvalidHeader,
}

/// What has become of a submission.
#[derive(Debug)]
pub enum SubmissionOutcome {
    /// The rate limit of the relay did not allow it.
    RateLimited,
    /// It was cancelled before the relay answered.
    Cancelled,
    /// The relay has answered.
    Answered(Result<(), SubmitBlockErr>),
}

/// What is to be done about a submission.
#[derive(Debug)]
pub enum RelayEffect {
    /// Record how long the relay took to answer.
    AddRelaySubmitTime,
    /// Count an accepted submission.
    IncRelayAcceptedSubmissions { optimistic: bool },
    /// Cancel everything that is under way for the slot.
    Cancel,
    /// Count a failed simulation.
    IncFailedBlockSimulations,
    /// Keep the error and the submission under a category.
    StoreErrorEvent { category: ErrorCategory, error: String },
    /// Count a request that the relay has turned away for their number.
    IncTooManyReqRelayErrors,
    /// Count a failed connection.
    IncConnRelayErrors,
    /// Count another error of the relay.
    IncOtherRelayErrors,
}

/// Whether a block may be submitted to a relay: the relay has no rate limit, or its limit allows
/// one more submission.
pub fn may_submit(limiter_allows: Option<bool>) -> (r: bool)
    ensures
        r == (limiter_allows != Some(false)),
{
    match limiter_allows {
        Some(allowed) => allowed,
        None => true,
    }
}

/// What is to be done about a submission.
pub open spec fn effects(outcome: SubmissionOutcome, optimistic: bool) -> Seq<RelayEffect> {
    match outcome {
        SubmissionOutcome::RateLimited | SubmissionOutcome::Cancelled => seq![],
        SubmissionOutcome::Answered(Ok(())) => seq![
            RelayEffect::AddRelaySubmitTime,
            RelayEffect::IncRelayAcceptedSubmissions { optimistic },
        ],
        SubmissionOutcome::Answered(Err(err)) => match err {
            SubmitBlockErr::PayloadDelivered | SubmitBlockErr::PastSlot => seq![
                RelayEffect::Cancel,
            ],
            SubmitBlockErr::SimError(error) => seq![
                RelayEffect::IncFailedBlockSimulations,
                RelayEffect::StoreErrorEvent {
                    category: ErrorCategory::SubmitBlockSimulation,
                    error,
                },
                RelayEffect::Cancel,
            ],
            SubmitBlockErr::RelayError(RelayError::TooManyRequests) => seq![
                RelayEffect::IncTooManyReqRelayErrors,
            ],
            SubmitBlockErr::RelayError(RelayError::ConnectionError)
            | SubmitBlockErr::RelayError(RelayError::RequestError(_)) => seq![
                RelayEffect::IncConnRelayErrors,
            ],
            SubmitBlockErr::RelayError(RelayError::Other(_)) => seq![
                RelayEffect::IncOtherRelayErrors,
            ],
            SubmitBlockErr::BidBelowFloor
            | SubmitBlockErr::PayloadAttributesNotKnown
            | SubmitBlockErr::BlockKnown
            | SubmitBlockErr::RPCConversionError(_)
            | SubmitBlockErr::RPCSerializationError(_)
            | SubmitBlockErr::InvalidHeader => seq![],
        },
    }
}

/// What is to be done about a submission, in this order.
pub fn submit_bid_to_the_relay(outcome: SubmissionOutcome, optimistic: bool) -> (r: Vec<
    RelayEffect,
>)
    ensures
        r@ == effects(outcome, optimistic),
{
    let mut r: Vec<RelayEffect> = Vec::new();
    match outcome {
        SubmissionOutcome::RateLimited | SubmissionOutcome::Cancelled => {},
        SubmissionOutcome::Answered(Ok(())) => {
            r.push(RelayEffect::AddRelaySubmitTime);
            r.push(RelayEffect::IncRelayAcceptedSubmissions { optimistic });
        },
        SubmissionOutcome::Answered(Err(err)) => match err {
            SubmitBlockErr::PayloadDelivered | SubmitBlockErr::PastSlot => {
                r.push(RelayEffect::Cancel);
            },
            SubmitBlockErr::BidBelowFloor | SubmitBlockErr::PayloadAttributesNotKnown => {},
            SubmitBlockErr::SimError(error) => {
                r.push(RelayEffect::IncFailedBlockSimulations);
                r.push(
                    RelayEffect::StoreErrorEvent {
                        category: ErrorCategory::SubmitBlockSimulation,
                        error,
                    },
                );
                r.push(RelayEffect::Cancel);
            },
            SubmitBlockErr::RelayError(RelayError::TooManyRequests) => {
                r.push(RelayEffect::IncTooManyReqRelayErrors);
            },
            SubmitBlockErr::RelayError(RelayError::ConnectionError)
            | SubmitBlockErr::RelayError(RelayError::RequestError(_)) => {
                r.push(RelayEffect::IncConnRelayErrors);
            },
            SubmitBlockErr::BlockKnown => {},
            SubmitBlockErr::RelayError(RelayError::Other(_)) => {
                r.push(RelayEffect::IncOtherRelayErrors);
            },
            SubmitBlockErr::RPCConversionError(_) => {},
            SubmitBlockErr::RPCSerializationError(_) => {},
            SubmitBlockErr::InvalidHeader => {},
        },
    }
    r
}

/// What is under way for the slot is cancelled exactly when the relay says that the slot is
/// decided or that the block does not simulate.
pub proof fn cancels_when_the_slot_is_decided(outcome: SubmissionOutcome, optimistic: bool)
    ensures
        effects(outcome, optimistic).contains(RelayEffect::Cancel) <==> (outcome matches
            SubmissionOutcome::Answered(Err(err)) && (err is PayloadDelivered || err is PastSlot
            || err is SimError)),
{
    let all = effects(outcome, optimistic);
    if let SubmissionOutcome::Answered(Err(err)) = outcome {
        if err is PayloadDelivered || err is PastSlot {
            assert(all[0] == RelayEffect::Cancel);
        } else if err is SimError {
            assert(all[2] == RelayEffect::Cancel);
        }
    }
}

/// A submission is counted as accepted exactly when the relay accepts it, and then under the
/// kind of submission that it was.
pub proof fn counts_accepted_submissions(outcome: SubmissionOutcome, optimistic: bool, kind: bool)
    ensures
        effects(outcome, optimistic).contains(
            RelayEffect::IncRelayAcceptedSubmissions { optimistic: kind },
        ) <==> (outcome matches SubmissionOutcome::Answered(Ok(_))) && kind == optimistic,
{
    let all = effects(outcome, optimistic);
    if let SubmissionOutcome::Answered(Ok(_)) = outcome {
        assert(all[1] == RelayEffect::IncRelayAcceptedSubmissions { optimistic });
    }
}

/// Whether `effect` counts an error of the relay.
pub open spec fn counts_relay_error(effect: RelayEffect) -> bool {
    effect is IncTooManyReqRelayErrors || effect is IncConnRelayErrors
        || effect is IncOtherRelayErrors
}

/// An error of the relay is counted once and nothing else is done about it; nothing else is
/// counted as an error of the relay.
pub proof fn counts_relay_errors_once(outcome: SubmissionOutcome, optimistic: bool)
    ensures
        (outcome matches SubmissionOutcome::Answered(Err(SubmitBlockErr::RelayError(_))))
            ==> effects(outcome, optimistic).len() == 1 && counts_relay_error(
            effects(outcome, optimistic)[0],
        ),
        !(outcome matches SubmissionOutcome::Answered(Err(SubmitBlockErr::RelayError(_))))
            ==> forall|i: int|
            0 <= i < effects(outcome, optimistic).len() ==> !counts_relay_error(
                #[trigger] effects(outcome, optimistic)[i],
            ),
{
}

/// What is done about a submission that was not accepted does not depend on its kind.
pub proof fn refusals_of_either_kind_are_handled_alike(outcome: SubmissionOutcome)
    requires
        !(outcome matches SubmissionOutcome::Answered(Ok(_))),
    ensures
        effects(outcome, true) == effects(outcome, false),
{
}

/// Whichever kind the submission was of, a failed simulation is counted and its error kept with
/// the submission, under the category of submissions, exactly when the relay answers with one.
pub proof fn failed_simulations_are_counted_and_kept(
    outcome: SubmissionOutcome,
    optimistic: bool,
    category: ErrorCategory,
    kept: String,
)
    ensures
        effects(outcome, optimistic).contains(RelayEffect::IncFailedBlockSimulations) <==> (
        outcome matches SubmissionOutcome::Answered(Err(SubmitBlockErr::SimError(_)))),
        effects(outcome, optimistic).contains(
            RelayEffect::StoreErrorEvent { category, error: kept },
        ) <==> (outcome matches SubmissionOutcome::Answered(Err(SubmitBlockErr::SimError(error)))
            && error == kept && category == ErrorCategory::SubmitBlockSimulation),
{
    let all = effects(outcome, optimistic);
    if let SubmissionOutcome::Answered(Err(SubmitBlockErr::SimError(error))) = outcome {
        assert(all[0] == RelayEffect::IncFailedBlockSimulations);
        assert(all[1] == RelayEffect::StoreErrorEvent {
            category: ErrorCategory::SubmitBlockSimulation,
            error,
        });
    }
}

/// How long the relay took is recorded exactly when it accepts the submission.
pub proof fn time_of_accepted_submissions_is_recorded(outcome: SubmissionOutcome, optimistic: bool)
    ensures
        effects(outcome, optimistic).contains(RelayEffect::AddRelaySubmitTime) <==> (outcome matches
            SubmissionOutcome::Answered(Ok(_))),
{
    let all = effects(outcome, optimistic);
    if let SubmissionOutcome::Answered(Ok(_)) = outcome {
        assert(all[0] == RelayEffect::AddRelaySubmitTime);
    }
}

/// Each error of the relay is counted under its own kind, and failed requests under that of
/// failed connections.
pub proof fn relay_errors_are_told_apart(outcome: SubmissionOutcome, optimistic: bool)
    ensures
        effects(outcome, optimistic).contains(RelayEffect::IncTooManyReqRelayErrors) <==> (
        outcome matches SubmissionOutcome::Answered(
            Err(SubmitBlockErr::RelayError(RelayError::TooManyRequests)),
        )),
        effects(outcome, optimistic).contains(RelayEffect::IncConnRelayErrors) <==> (outcome matches
            SubmissionOutcome::Answered(Err(SubmitBlockErr::RelayError(error))) && (
        error is ConnectionError || error is RequestError)),
        effects(outcome, optimistic).contains(RelayEffect::IncOtherRelayErrors) <==> (outcome
            matches SubmissionOutcome::Answered(Err(SubmitBlockErr::RelayError(error)))
            && error is Other),
{
    let all = effects(outcome, optimistic);
    if let SubmissionOutcome::Answered(Err(SubmitBlockErr::RelayError(error))) = outcome {
        match error {
            RelayError::TooManyRequests => {
                assert(all[0] == RelayEffect::IncTooManyReqRelayErrors);
            },
            RelayError::ConnectionError | RelayError::RequestError(_) => {
                assert(all[0] == RelayEffect::IncConnRelayErrors);
            },
            RelayError::Other(_) => {
                assert(all[0] == RelayEffect::IncOtherRelayErrors);
            },
        }
    }
}

/// Nothing is done twice about a submission. A failed simulation is counted before its error is
/// kept, and both happen before the slot is cancelled; the time of an accepted submission is
/// recorded before it is counted.
pub proof fn effects_happen_once_and_in_order(
    outcome: SubmissionOutcome,
    optimistic: bool,
    i: int,
    j: int,
)
    requires
        0 <= i < j < effects(outcome, optimistic).len(),
    ensures
        effects(outcome, optimistic)[i] != effects(outcome, optimistic)[j],
        effects(outcome, optimistic)[j] is IncRelayAcceptedSubmissions ==> effects(
            outcome,
            optimistic,
        )[i] is AddRelaySubmitTime,
        effects(outcome, optimistic)[j] is StoreErrorEvent ==> effects(
            outcome,
            optimistic,
        )[i] is IncFailedBlockSimulations,
        effects(outcome, optimistic)[j] is StoreErrorEvent || effects(
            outcome,
            optimistic,
        )[j] is Cancel || effects(outcome, optimistic)[j] is IncRelayAcceptedSubmissions,
        !(effects(outcome, optimistic)[i] is Cancel),
{
}

/// Nothing is done about a submission that the rate limit did not allow or that was cancelled,
/// nor about a block that the relay turns away without a failure.
pub proof fn nothing_is_done_about_the_rest(outcome: SubmissionOutcome, optimistic: bool)
    ensures
        effects(outcome, optimistic).len() == 0 <==> {
            ||| outcome is RateLimited
            ||| outcome is Cancelled
            ||| outcome matches SubmissionOutcome::Answered(Err(err)) && (err is BidBelowFloor
                || err is PayloadAttributesNotKnown || err is BlockKnown
                || err is RPCConversionError || err is RPCSerializationError
                || err is InvalidHeader)
        },
{
}

} // verus!
