//! What one step of the job that submits the blocks of a slot does.

use vstd::prelude::*;

use crate::error_events::ErrorCategory;
use crate::relays::{positions, positions_ascend, relays_are_divided, MevBoostRelay};
use crate::submit_job::{
    BuiltBlockInfo, JobCommand, JobEvent, JobPhase, JobState, SigningKey, SubmissionConfig,
    ValidationOutcome,
};
use crate::u256::U256;

verus! {

/// A job has made no bid and competed with none before it is started.
pub proof fn job_begins_with_nothing(config: SubmissionConfig, relays: Seq<MevBoostRelay>)
    ensures
        JobState::fresh(config, relays).config == config,
        JobState::fresh(config, relays).relays == relays,
        JobState::fresh(config, relays).last_bid_value == 0,
        JobState::fresh(config, relays).best_bid_made is None,
        JobState::fresh(config, relays).phase is Unstarted,
{
}

/// Whether a point in time lies in the years from -9999 to 9999 is all that is asked of the times
/// at a start; any other event is expected by what the job is at alone.
pub proof fn job_expects_what_it_is_at(job: JobState, event: JobEvent)
    ensures
        event matches JobEvent::Started { slot_timestamp, now } ==> (job.expects(event) <==> {
            let start = slot_timestamp + job.config.slot_delta_to_start_submits;
            &&& job.phase is Unstarted
            &&& -377_705_116_800_000_000_000 <= slot_timestamp < 253_402_300_800_000_000_000
            &&& -377_705_116_800_000_000_000 <= start < 253_402_300_800_000_000_000
            &&& -377_705_116_800_000_000_000 <= now < 253_402_300_800_000_000_000
        }),
        event is SleepOver ==> (job.expects(event) <==> job.phase is Sleeping),
        event is BestBidChanged || event is PollDue || event is BlockBuilt || event is Cancelled
            ==> (job.expects(event) <==> job.phase is Idle),
        event is Signed ==> (job.expects(event) <==> job.phase is SigningNormal
            || job.phase is SigningOptimistic),
        event is Validated ==> (job.expects(event) <==> job.phase is ValidatingDryRun
            || job.phase is Prevalidating),
{
}

/// The job sleeps for exactly the time from its start to that of the submissions, where that lies
/// ahead, and waits for blocks at once where it does not.
pub proof fn job_sleeps_until_the_submissions_start(job: JobState, slot_timestamp: i128, now: i128)
    requires
        job.expects(JobEvent::Started { slot_timestamp, now }),
    ensures
        ({
            let event = JobEvent::Started { slot_timestamp, now };
            let ahead = slot_timestamp + job.config.slot_delta_to_start_submits - now;
            &&& job.commands(event).len() == 1
            &&& ahead > 0 ==> (job.commands(event)[0] matches JobCommand::Sleep { nanos } && nanos
                == ahead) && job.next(event).phase is Sleeping
            &&& ahead <= 0 ==> job.commands(event)[0] == (JobCommand::AwaitBlock {
                poll_millis: 50,
            }) && job.next(event).phase is Idle
        }),
{
}

/// Once the sleep is over the job waits for blocks.
pub proof fn job_waits_after_its_sleep(job: JobState)
    requires
        job.phase is Sleeping,
    ensures
        job.commands(JobEvent::SleepOver) == seq![JobCommand::AwaitBlock { poll_millis: 50 }],
        job.next(JobEvent::SleepOver).phase is Idle,
{
}

/// The configuration and the relays never change, and the bid that is competed with changes only
/// when a block comes.
pub proof fn step_keeps_what_it_is_not_about(job: JobState, event: JobEvent)
    requires
        job.expects(event),
    ensures
        job.next(event).config == job.config,
        job.next(event).relays == job.relays,
        !(event is BestBidChanged || event is PollDue || event is BlockBuilt) ==> job.next(
            event,
        ).last_bid_value == job.last_bid_value,
        event matches JobEvent::BestBidChanged { taken: None, .. } ==> job.next(event) == job,
        event matches JobEvent::PollDue { taken: None, .. } ==> job.next(event) == job,
{
}

/// A look that finds no block changes nothing but that the job waits again.
pub proof fn look_without_a_block_waits_again(job: JobState, best: U256)
    requires
        job.phase is Idle,
    ensures
        job.commands(JobEvent::BestBidChanged { best_bid: best, taken: None }) == seq![
            JobCommand::AwaitBlock { poll_millis: 50 },
        ],
        job.commands(JobEvent::PollDue { best_bid: best, taken: None }) == seq![
            JobCommand::AwaitBlock { poll_millis: 50 },
        ],
{
}

/// A block that was built sets the bid that is competed with to the least of its own bid, the best
/// bid of others and a millionth of an ether, whatever it was before.
pub proof fn built_block_sets_the_bid_competed_with(
    job: JobState,
    best: U256,
    block: BuiltBlockInfo,
)
    requires
        job.phase is Idle,
    ensures
        ({
            let bid = job.next(JobEvent::BlockBuilt { best_bid: best, block }).last_bid_value;
            &&& bid <= block.bid_value@
            &&& bid <= best@
            &&& bid <= 1_000_000_000_000
            &&& bid == block.bid_value@ || bid == best@ || bid == 1_000_000_000_000
        }),
{
}

/// A block that was taken on a look, whatever the look was for, raises the bid that is competed
/// with to what it would be had the block been built just then, and does not lower it.
pub proof fn taken_block_raises_the_bid_competed_with(
    job: JobState,
    best: U256,
    block: BuiltBlockInfo,
)
    requires
        job.phase is Idle,
    ensures
        ({
            let taken = Some(block);
            let least = job.next(JobEvent::BlockBuilt { best_bid: best, block }).last_bid_value;
            let changed = job.next(JobEvent::BestBidChanged { best_bid: best, taken });
            let polled = job.next(JobEvent::PollDue { best_bid: best, taken });
            &&& changed.last_bid_value >= job.last_bid_value
            &&& changed.last_bid_value >= least
            &&& changed.last_bid_value == job.last_bid_value || changed.last_bid_value == least
            &&& polled == changed
        }),
{
}

/// Whether `event` brings `block`, by whichever way.
pub open spec fn arrives(event: JobEvent, block: BuiltBlockInfo) -> bool {
    ||| event matches JobEvent::BlockBuilt { block: built, .. } && built == block
    ||| event matches JobEvent::BestBidChanged { taken, .. } && taken == Some(block)
    ||| event matches JobEvent::PollDue { taken, .. } && taken == Some(block)
}

/// Every way by which a block can come counts.
pub proof fn blocks_arrive_in_three_ways(best: U256, block: BuiltBlockInfo)
    ensures
        arrives(JobEvent::BlockBuilt { best_bid: best, block }, block),
        arrives(JobEvent::BestBidChanged { best_bid: best, taken: Some(block) }, block),
        arrives(JobEvent::PollDue { best_bid: best, taken: Some(block) }, block),
{
}

/// A block that has come is counted as one that is submitted optimistically exactly if that is
/// enabled and its bid is below the maximum, and is then signed by the normal key with its own bid.
pub proof fn block_is_counted_and_signed(job: JobState, event: JobEvent, block: BuiltBlockInfo)
    requires
        job.phase is Idle,
        arrives(event, block),
    ensures
        job.commands(event).len() == 2,
        job.commands(event)[0] matches JobCommand::IncInitiatedSubmissions { optimistic }
            && optimistic == (job.config.optimistic_enabled && block.bid_value@
            < job.config.optimistic_max_bid_value@),
        job.commands(event)[1] == (JobCommand::Sign {
            key: SigningKey::Normal,
            bid_value: block.bid_value,
        }),
        job.next(event).phase == JobPhase::SigningNormal(block),
        job.next(event).best_bid_made == job.best_bid_made,
{
}

/// A block that the normal key has signed is signed by the optimistic key with the same bid.
pub proof fn first_signature_leads_to_the_second(job: JobState, block: BuiltBlockInfo)
    requires
        job.phase == JobPhase::SigningNormal(block),
    ensures
        job.commands(JobEvent::Signed { ok: true }) == seq![
            JobCommand::Sign { key: SigningKey::Optimistic, bid_value: block.bid_value },
        ],
        job.next(JobEvent::Signed { ok: true }).phase == JobPhase::SigningOptimistic(block),
        job.next(JobEvent::Signed { ok: true }).best_bid_made == job.best_bid_made,
{
}

/// A block that either key fails to sign is given up.
pub proof fn failed_signature_gives_the_block_up(job: JobState)
    requires
        job.phase is SigningNormal || job.phase is SigningOptimistic,
    ensures
        job.commands(JobEvent::Signed { ok: false }) == seq![
            JobCommand::AwaitBlock { poll_millis: 50 },
        ],
        job.next(JobEvent::Signed { ok: false }).phase is Idle,
        job.next(JobEvent::Signed { ok: false }).best_bid_made == job.best_bid_made,
{
}

/// In a dry run a block that both keys have signed is validated as the normal key has signed it,
/// and nothing else is done with it.
pub proof fn dry_run_asks_for_validation_alone(job: JobState, block: BuiltBlockInfo)
    requires
        job.config.dry_run,
        job.phase == JobPhase::SigningOptimistic(block),
    ensures
        job.commands(JobEvent::Signed { ok: true }) == seq![
            JobCommand::Validate(SigningKey::Normal),
        ],
        job.next(JobEvent::Signed { ok: true }).phase is ValidatingDryRun,
        job.next(JobEvent::Signed { ok: true }).best_bid_made == job.best_bid_made,
{
}

/// Whether the commands strictly between positions `a` and `b` submit, in the order of the relays
/// and each exactly once, to the relays of one kind as signed by `key`, and are nothing else.
pub open spec fn submits_to_each(
    commands: Seq<JobCommand>,
    a: int,
    b: int,
    relays: Seq<MevBoostRelay>,
    to_optimistic: bool,
    key: SigningKey,
    optimistic: bool,
) -> bool {
    &&& forall|i: int|
        a < i < b ==> (#[trigger] commands[i] matches JobCommand::Submit {
            relay,
            key: k,
            optimistic: o,
        } && relay < relays.len() && relays[relay as int].optimistic == to_optimistic && k == key
            && o == optimistic)
    &&& forall|i: int, j: int|
        a < i < j < b ==> (#[trigger] commands[i])->relay < (#[trigger] commands[j])->relay
    &&& forall|p: usize|
        p < relays.len() && (#[trigger] relays[p as int]).optimistic == to_optimistic
            ==> exists|i: int| a < i < b && (#[trigger] commands[i])->relay == p
}

/// To submit to each relay of a kind is to submit to exactly those relays.
pub proof fn each_relay_of_the_kind_gets_one(
    commands: Seq<JobCommand>,
    a: int,
    b: int,
    relays: Seq<MevBoostRelay>,
    to_optimistic: bool,
    key: SigningKey,
    optimistic: bool,
    p: usize,
)
    requires
        submits_to_each(commands, a, b, relays, to_optimistic, key, optimistic),
    ensures
        (exists|i: int|
            a < i < b && #[trigger] commands[i] == (JobCommand::Submit {
                relay: p,
                key,
                optimistic,
            })) <==> p < relays.len() && relays[p as int].optimistic == to_optimistic,
        forall|i: int, j: int|
            a < i < b && a < j < b && (#[trigger] commands[i])->relay == p && (
            #[trigger] commands[j])->relay == p ==> i == j,
        forall|i: int| a < i < b ==> #[trigger] commands[i] is Submit,
{
    if p < relays.len() && relays[p as int].optimistic == to_optimistic {
        let i = choose|i: int| a < i < b && (#[trigger] commands[i])->relay == p;
        assert(commands[i] == (JobCommand::Submit { relay: p, key, optimistic }));
    }
}

proof fn part_of_the_commands(
    commands: Seq<JobCommand>,
    a: int,
    part: Seq<JobCommand>,
    relays: Seq<MevBoostRelay>,
    to_optimistic: bool,
    key: SigningKey,
    optimistic: bool,
)
    requires
        relays.len() <= usize::MAX,
        0 <= a + 1,
        a + 1 + part.len() <= commands.len(),
        commands.subrange(a + 1, a + 1 + part.len()) == part,
        part.len() == positions(relays, to_optimistic).len(),
        forall|i: int|
            0 <= i < part.len() ==> #[trigger] part[i] == (JobCommand::Submit {
                relay: positions(relays, to_optimistic)[i],
                key,
                optimistic,
            }),
    ensures
        submits_to_each(
            commands,
            a,
            a + 1 + part.len(),
            relays,
            to_optimistic,
            key,
            optimistic,
        ),
{
    let ps = positions(relays, to_optimistic);
    let b = a + 1 + part.len();
    relays_are_divided(relays, to_optimistic);
    positions_ascend(relays, to_optimistic);
    assert forall|i: int| a < i < b implies #[trigger] commands[i] == (JobCommand::Submit {
        relay: ps[i - a - 1],
        key,
        optimistic,
    }) && ps.contains(ps[i - a - 1]) by {
        assert(commands[i] == commands.subrange(a + 1, b)[i - a - 1]);
        assert(part[i - a - 1] == commands[i]);
    }
    assert forall|i: int, j: int| a < i < j < b implies (#[trigger] commands[i])->relay < (
    #[trigger] commands[j])->relay by {
        assert(ps[i - a - 1] < ps[j - a - 1]);
    }
    assert forall|p: usize|
        p < relays.len() && (#[trigger] relays[p as int]).optimistic
            == to_optimistic implies exists|i: int|
        a < i < b && (#[trigger] commands[i])->relay == p by {
        assert(ps.contains(p));
        let i = choose|i: int| 0 <= i < ps.len() && ps[i] == p;
        assert(commands[a + 1 + i]->relay == p);
    }
}

/// Outside of dry runs, a block that both keys have signed goes to each relay that is not
/// optimistic under the normal key, before the transaction of the builder is looked for at
/// position `found` of the answer. What follows that is all for the optimistic relays: where the
/// block is not to be submitted optimistically, each gets it under the normal key; where it is,
/// each gets it under the optimistic key, or none gets it yet and the block is validated first.
pub proof fn signed_block_is_submitted(job: JobState, block: BuiltBlockInfo) -> (found: int)
    requires
        !job.config.dry_run,
        job.phase == JobPhase::SigningOptimistic(block),
        job.relays.len() <= usize::MAX,
    ensures
        ({
            let all = job.commands(JobEvent::Signed { ok: true });
            let next = job.next(JobEvent::Signed { ok: true });
            let last = all.len() - 1;
            let config = job.config;
            &&& 0 < found < last
            &&& all[0] is MeasureBlockLatency
            &&& submits_to_each(all, 0, found, job.relays, false, SigningKey::Normal, false)
            &&& all[found] is FindBuilderTx
            &&& !config.optimistic_enabled || block.bid_value@ >= config.optimistic_max_bid_value@
                ==> submits_to_each(
                all,
                found,
                last,
                job.relays,
                true,
                SigningKey::Normal,
                false,
            ) && all[last] == (JobCommand::AwaitBlock { poll_millis: 50 }) && next.phase is Idle
            &&& config.optimistic_enabled && block.bid_value@ < config.optimistic_max_bid_value@
                && !config.optimistic_prevalidate_optimistic_blocks ==> submits_to_each(
                all,
                found,
                last,
                job.relays,
                true,
                SigningKey::Optimistic,
                true,
            ) && all[last] == (JobCommand::AwaitBlock { poll_millis: 50 }) && next.phase is Idle
            &&& config.optimistic_enabled && block.bid_value@ < config.optimistic_max_bid_value@
                && config.optimistic_prevalidate_optimistic_blocks ==> last == found + 1
                && all[last] == JobCommand::Validate(SigningKey::Optimistic) && next.phase
                == JobPhase::Prevalidating(block)
        }),
{
    let all = job.commands(JobEvent::Signed { ok: true });
    let normal = job.to_normal_relays();
    let found: int = 1 + normal.len() as int;
    assert(all == job.signed_commands(block));
    assert(all.subrange(1, found) =~= normal);
    part_of_the_commands(all, 0, normal, job.relays, false, SigningKey::Normal, false);
    if !job.prevalidates(block) {
        let optimistic = block.bid_value@ < job.config.optimistic_max_bid_value@
            && job.config.optimistic_enabled;
        let key = if optimistic {
            SigningKey::Optimistic
        } else {
            SigningKey::Normal
        };
        let part = if optimistic {
            job.to_optimistic_relays()
        } else {
            job.to_optimistic_relays_normally()
        };
        assert(all.subrange(found + 1, found + 1 + part.len() as int) =~= part);
        part_of_the_commands(all, found, part, job.relays, true, key, optimistic);
    }
    found
}

/// A block whose bid is not below the maximum, or any block where optimistic submissions are
/// disabled, goes to every relay at once under the normal key and is not validated.
pub proof fn block_at_the_maximum_goes_out_normally(job: JobState, block: BuiltBlockInfo)
    requires
        !job.config.dry_run,
        !job.config.optimistic_enabled || block.bid_value@ >= job.config.optimistic_max_bid_value@,
        job.phase == JobPhase::SigningOptimistic(block),
        job.relays.len() <= usize::MAX,
    ensures
        ({
            let all = job.commands(JobEvent::Signed { ok: true });
            &&& forall|p: usize|
                p < job.relays.len() <==> #[trigger] all.contains(
                    JobCommand::Submit { relay: p, key: SigningKey::Normal, optimistic: false },
                )
            &&& forall|i: int|
                0 <= i < all.len() ==> !(#[trigger] all[i] is Validate) && (
                all[i] matches JobCommand::Submit { key, optimistic, .. } ==> key
                    == SigningKey::Normal && !optimistic)
        }),
{
    let all = job.commands(JobEvent::Signed { ok: true });
    let last = all.len() - 1;
    let found = signed_block_is_submitted(job, block);
    assert forall|p: usize|
        p < job.relays.len() <==> #[trigger] all.contains(
            JobCommand::Submit { relay: p, key: SigningKey::Normal, optimistic: false },
        ) by {
        each_relay_of_the_kind_gets_one(
            all,
            0,
            found,
            job.relays,
            false,
            SigningKey::Normal,
            false,
            p,
        );
        each_relay_of_the_kind_gets_one(
            all,
            found,
            last,
            job.relays,
            true,
            SigningKey::Normal,
            false,
            p,
        );
    }
    assert forall|i: int| 0 <= i < all.len() implies !(#[trigger] all[i] is Validate) && (
    all[i] matches JobCommand::Submit { key, optimistic, .. } ==> key == SigningKey::Normal
        && !optimistic) by {
        assert(i == 0 || i == found || i == last || 0 < i < found || found < i < last);
    }
}

/// A step makes a bid exactly when it submits to some relay, and then with the block that the job
/// is at: the best bid made becomes that block where it bids more than the best one so far, or is
/// the first, and otherwise stays.
pub proof fn best_bid_made_follows_the_submissions(
    job: JobState,
    event: JobEvent,
    block: BuiltBlockInfo,
)
    requires
        job.expects(event),
        job.phase == JobPhase::SigningOptimistic(block) || job.phase == JobPhase::Prevalidating(
            block,
        ),
    ensures
        ({
            let all = job.commands(event);
            let made = job.next(event).best_bid_made;
            let submits = exists|i: int| 0 <= i < all.len() && #[trigger] all[i] is Submit;
            &&& !submits ==> made == job.best_bid_made
            &&& submits && job.best_bid_made is None ==> made == Some(block)
            &&& submits && job.best_bid_made is Some && block.bid_value@
                > job.best_bid_made->0.bid_value@ ==> made == Some(block)
            &&& submits && job.best_bid_made is Some && block.bid_value@
                <= job.best_bid_made->0.bid_value@ ==> made == job.best_bid_made
        }),
{
    let all = job.commands(event);
    match event {
        JobEvent::Signed { ok } => {
            if ok && !job.config.dry_run {
                submission_at_once(job, block);
                assert(all == job.signed_commands(block));
            }
        },
        JobEvent::Validated(outcome) => {
            let part = job.to_optimistic_relays();
            assert(part.len() == positions(job.relays, true).len());
            if outcome is Passed && part.len() > 0 {
                assert(all[0] == part[0]);
                assert(all[0] is Submit);
            } else if outcome is Passed {
                assert(all =~= seq![JobCommand::AwaitBlock { poll_millis: 50 }]);
            }
        },
        _ => {},
    }
}

/// Where the job is at no block that both keys have signed, it submits nothing and makes no bid.
pub proof fn no_bid_is_made_without_a_signed_block(job: JobState, event: JobEvent, i: int)
    requires
        job.expects(event),
        !(job.phase is SigningOptimistic) && !(job.phase is Prevalidating),
    ensures
        job.next(event).best_bid_made == job.best_bid_made,
        0 <= i < job.commands(event).len() ==> !(job.commands(event)[i] is Submit),
{
}

proof fn submission_at_once(job: JobState, block: BuiltBlockInfo)
    requires
        !job.config.dry_run,
        job.phase == JobPhase::SigningOptimistic(block),
    ensures
        job.submits_at_once(block) <==> exists|i: int|
            0 <= i < job.signed_commands(block).len() && #[trigger] job.signed_commands(
                block,
            )[i] is Submit,
{
    let all = job.signed_commands(block);
    let n = job.to_normal_relays().len();
    if n > 0 {
        assert(all[1] == job.to_normal_relays()[0]);
        assert(all[1] is Submit);
    } else if !job.prevalidates(block) && positions(job.relays, true).len() > 0 {
        assert(all[2] is Submit);
    } else {
        assert(all.len() == 3);
        assert(all[0] is MeasureBlockLatency && all[1] is FindBuilderTx && !(all[2] is Submit));
    }
}

/// What is done about a validation. A failed one is counted, and its error kept under the category
/// of validations with the submission that was validated, in a dry run and before an optimistic
/// submission alike; nothing of the kind is done about any other outcome, and nothing at all about
/// a validation that could not be made. Only a block that passes before an optimistic submission
/// goes on, to each optimistic relay. In any case the job then waits for the next block.
pub proof fn validation_is_acted_upon(job: JobState, outcome: ValidationOutcome)
    requires
        job.phase is ValidatingDryRun || job.phase is Prevalidating,
        job.relays.len() <= usize::MAX,
    ensures
        ({
            let all = job.commands(JobEvent::Validated(outcome));
            let last = all.len() - 1;
            &&& last >= 0
            &&& all[last] == (JobCommand::AwaitBlock { poll_millis: 50 })
            &&& job.next(JobEvent::Validated(outcome)).phase is Idle
            &&& outcome is UnableToValidate ==> last == 0
            &&& outcome matches ValidationOutcome::ValidationFailed(failure) ==> last == 2
                && all[0] is IncFailedBlockSimulations && (all[1]
                matches JobCommand::StoreErrorEvent { category, error, submission } && category
                == ErrorCategory::ValidateBlockSimulation && error == failure && submission == (
            if job.phase is ValidatingDryRun {
                SigningKey::Normal
            } else {
                SigningKey::Optimistic
            }))
            &&& outcome is Passed && job.phase is ValidatingDryRun ==> last == 0
            &&& outcome is Passed && job.phase is Prevalidating ==> submits_to_each(
                all,
                -1,
                last,
                job.relays,
                true,
                SigningKey::Optimistic,
                true,
            )
        }),
{
    let all = job.commands(JobEvent::Validated(outcome));
    if outcome is Passed && job.phase is Prevalidating {
        let part = job.to_optimistic_relays();
        assert(all.subrange(0, part.len() as int) =~= part);
        part_of_the_commands(all, -1, part, job.relays, true, SigningKey::Optimistic, true);
    }
}

/// A failed simulation is counted, or an error kept, exactly when a validation has failed.
pub proof fn only_failed_validations_are_reported(job: JobState, event: JobEvent, i: int)
    requires
        job.expects(event),
        job.relays.len() <= usize::MAX,
        0 <= i < job.commands(event).len(),
        job.commands(event)[i] is IncFailedBlockSimulations || job.commands(
            event,
        )[i] is StoreErrorEvent,
    ensures
        event matches JobEvent::Validated(outcome) && outcome is ValidationFailed,
{
    match event {
        JobEvent::Signed { ok } => {
            if let JobPhase::SigningOptimistic(block) = job.phase {
                if ok && !job.config.dry_run {
                    let all = job.commands(event);
                    let last = all.len() - 1;
                    let found = signed_block_is_submitted(job, block);
                    assert(i == 0 || i == found || i == last || 0 < i < found || found < i < last);
                }
            }
        },
        JobEvent::Validated(outcome) => {
            validation_is_acted_upon(job, outcome);
        },
        _ => {},
    }
}

/// A block that both keys have signed is submitted under the optimistic key, or validated for such
/// a submission, only where optimistic submissions are enabled and its bid is below the maximum,
/// whether or not blocks are to be validated before.
pub proof fn optimistic_submissions_are_below_the_maximum(
    job: JobState,
    block: BuiltBlockInfo,
    i: int,
)
    requires
        !job.config.dry_run,
        job.phase == JobPhase::SigningOptimistic(block),
        job.relays.len() <= usize::MAX,
        0 <= i < job.commands(JobEvent::Signed { ok: true }).len(),
        job.commands(JobEvent::Signed { ok: true })[i] == JobCommand::Validate(
            SigningKey::Optimistic,
        ) || (job.commands(JobEvent::Signed { ok: true })[i] matches JobCommand::Submit {
            key: SigningKey::Optimistic,
            ..
        }),
    ensures
        job.config.optimistic_enabled,
        block.bid_value@ < job.config.optimistic_max_bid_value@,
{
    let all = job.commands(JobEvent::Signed { ok: true });
    let last = all.len() - 1;
    let found = signed_block_is_submitted(job, block);
    assert(i == 0 || i == found || i == last || 0 < i < found || found < i < last);
}

/// A cancelled job hands out the best bid that it has made and expects nothing from then on.
pub proof fn cancelled_job_is_over(job: JobState, event: JobEvent)
    requires
        job.phase is Idle,
    ensures
        job.commands(JobEvent::Cancelled) == seq![JobCommand::Finish(job.best_bid_made)],
        job.next(JobEvent::Cancelled).phase is Finished,
        !job.next(JobEvent::Cancelled).expects(event),
{
}

} // verus!
