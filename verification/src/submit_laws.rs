//! What holds of every run of the job that submits the blocks of a slot.

use vstd::prelude::*;

use crate::best_bid::{best_bid, block_bid_limit};
use crate::relays::{positions, relays_are_divided, MevBoostRelay};
use crate::step_laws::arrives;
use crate::submit_job::{
    await_block, better_bid, submissions, submits_optimistically, validation_effects, BuiltBlockInfo,
    JobCommand, JobEvent, JobPhase, JobState, SigningKey, SubmissionConfig, ValidationOutcome,
    BEST_BLOCK_POLL_MILLIS,
};
use crate::u256::U256;

verus! {

/// The job after a series of events.
#[verifier::opaque]
pub open spec fn state_after(job: JobState, events: Seq<JobEvent>) -> JobState
    decreases events.len(),
{
    if events.len() == 0 {
        job
    } else {
        state_after(job, events.drop_last()).next(events.last())
    }
}

/// Whether the job waits for each event of a series when it comes.
#[verifier::opaque]
pub open spec fn admissible(job: JobState, events: Seq<JobEvent>) -> bool
    decreases events.len(),
{
    events.len() > 0 ==> admissible(job, events.drop_last()) && state_after(
        job,
        events.drop_last(),
    ).expects(events.last())
}

/// All that the job does over a series of events.
#[verifier::opaque]
pub open spec fn log(job: JobState, events: Seq<JobEvent>) -> Seq<JobCommand>
    decreases events.len(),
{
    if events.len() == 0 {
        Seq::empty()
    } else {
        log(job, events.drop_last()) + state_after(job, events.drop_last()).commands(events.last())
    }
}

/// The submissions among some commands.
pub open spec fn submitted(commands: Seq<JobCommand>) -> Seq<JobCommand> {
    commands.filter(|command: JobCommand| command is Submit)
}

/// Whether the job can be in its state: what it waits for fits its configuration.
pub open spec fn consistent(job: JobState) -> bool {
    &&& job.last_bid_value <= block_bid_limit()
    &&& job.phase is ValidatingDryRun ==> job.config.dry_run
    &&& job.phase matches JobPhase::Prevalidating(block) ==> !job.config.dry_run
        && job.prevalidates(block)
    &&& job.best_bid_made is Some ==> !job.config.dry_run
}

/// A job keeps its configuration and its relays, its state stays consistent, and the bid that it
/// competed with last is never above the limit.
pub proof fn job_stays_consistent(
    config: SubmissionConfig,
    relays: Seq<MevBoostRelay>,
    events: Seq<JobEvent>,
)
    requires
        admissible(JobState::fresh(config, relays), events),
    ensures
        state_after(JobState::fresh(config, relays), events).config == config,
        state_after(JobState::fresh(config, relays), events).relays == relays,
        consistent(state_after(JobState::fresh(config, relays), events)),
    decreases events.len(),
{
    reveal(state_after);
    reveal(admissible);
    if events.len() > 0 {
        job_stays_consistent(config, relays, events.drop_last());
    }
}

proof fn in_submissions(relays: Seq<usize>, key: SigningKey, optimistic: bool, command: JobCommand)
    requires
        submissions(relays, key, optimistic).contains(command),
    ensures
        command matches JobCommand::Submit { relay, key: k, optimistic: o } && relays.contains(
            relay,
        ) && k == key && o == optimistic,
{
}

/// Every submission is one of a block that both keys have signed, outside of a dry run, and to a
/// relay of the job. Under the optimistic key it counts as optimistic, goes to an optimistic
/// relay, and is of a block that is to be submitted optimistically; under the normal key it does
/// not count as optimistic.
pub proof fn submissions_follow_the_configuration(
    config: SubmissionConfig,
    relays: Seq<MevBoostRelay>,
    events: Seq<JobEvent>,
    event: JobEvent,
    relay: usize,
    key: SigningKey,
    optimistic: bool,
)
    requires
        relays.len() <= usize::MAX,
        admissible(JobState::fresh(config, relays), events.push(event)),
        state_after(JobState::fresh(config, relays), events).commands(event).contains(
            JobCommand::Submit { relay, key, optimistic },
        ),
    ensures
        !config.dry_run,
        relay < relays.len(),
        optimistic == (key == SigningKey::Optimistic),
        key == SigningKey::Optimistic ==> relays[relay as int].optimistic,
        match state_after(JobState::fresh(config, relays), events).phase {
            JobPhase::SigningOptimistic(block) => event == (JobEvent::Signed { ok: true }) && (key
                == SigningKey::Optimistic ==> submits_optimistically(config, block)),
            JobPhase::Prevalidating(block) => event == JobEvent::Validated(
                ValidationOutcome::Passed,
            ) && key == SigningKey::Optimistic && submits_optimistically(config, block),
            _ => false,
        },
        key == SigningKey::Optimistic ==> config.optimistic_enabled,
        key == SigningKey::Optimistic ==> match state_after(
            JobState::fresh(config, relays),
            events,
        ).phase {
            JobPhase::SigningOptimistic(block) => block.bid_value@
                < config.optimistic_max_bid_value@,
            JobPhase::Prevalidating(block) => block.bid_value@ < config.optimistic_max_bid_value@,
            _ => false,
        },
{
    reveal(admissible);
    let start = JobState::fresh(config, relays);
    assert(events.push(event).drop_last() =~= events);
    job_stays_consistent(config, relays, events);
    relays_are_divided(relays, true);
    relays_are_divided(relays, false);
    let job = state_after(start, events);
    let command = JobCommand::Submit { relay, key, optimistic };
    let i = choose|i: int| 0 <= i < job.commands(event).len() && job.commands(event)[i] == command;
    match event {
        JobEvent::Signed { ok } => {
            if let JobPhase::SigningOptimistic(block) = job.phase {
                let n = job.to_normal_relays().len();
                if ok && !config.dry_run {
                    if 1 <= i < 1 + n {
                        assert(job.to_normal_relays()[i - 1] == command);
                        in_submissions(positions(relays, false), SigningKey::Normal, false, command);
                    } else if i >= n + 2 && !job.prevalidates(block) {
                        if submits_optimistically(config, block) {
                            assert(job.to_optimistic_relays()[i - n - 2] == command);
                            in_submissions(
                                positions(relays, true),
                                SigningKey::Optimistic,
                                true,
                                command,
                            );
                        } else {
                            assert(job.to_optimistic_relays_normally()[i - n - 2] == command);
                            in_submissions(
                                positions(relays, true),
                                SigningKey::Normal,
                                false,
                                command,
                            );
                        }
                    }
                }
            }
        },
        JobEvent::Validated(outcome) => {
            if job.phase is Prevalidating && outcome is Passed {
                assert(job.to_optimistic_relays()[i] == command);
                in_submissions(positions(relays, true), SigningKey::Optimistic, true, command);
            }
        },
        _ => {},
    }
}

/// A dry run submits nothing, and no bid is made in it.
pub proof fn dry_run_submits_nothing(
    config: SubmissionConfig,
    relays: Seq<MevBoostRelay>,
    events: Seq<JobEvent>,
)
    requires
        config.dry_run,
        admissible(JobState::fresh(config, relays), events),
    ensures
        submitted(log(JobState::fresh(config, relays), events)) == Seq::<JobCommand>::empty(),
        state_after(JobState::fresh(config, relays), events).best_bid_made is None,
    decreases events.len(),
{
    reveal(state_after);
    reveal(log);
    reveal(admissible);
    let start = JobState::fresh(config, relays);
    job_stays_consistent(config, relays, events);
    if events.len() > 0 {
        let before = events.drop_last();
        dry_run_submits_nothing(config, relays, before);
        job_stays_consistent(config, relays, before);
        let commands = state_after(start, before).commands(events.last());
        quiet_step(state_after(start, before), events.last());
        submitted_of_sum(log(start, before), commands);
    } else {
        nothing_submitted(Seq::empty());
    }
}

proof fn submitted_of_sum(a: Seq<JobCommand>, b: Seq<JobCommand>)
    ensures
        submitted(a + b) == submitted(a) + submitted(b),
{
    Seq::filter_distributes_over_add(a, b, |command: JobCommand| command is Submit);
}

proof fn nothing_submitted(commands: Seq<JobCommand>)
    requires
        forall|i: int| 0 <= i < commands.len() ==> !(#[trigger] commands[i] is Submit),
    ensures
        submitted(commands) == Seq::<JobCommand>::empty(),
    decreases commands.len(),
{
    reveal(Seq::filter);
    if commands.len() > 0 {
        nothing_submitted(commands.drop_last());
        assert(!(commands[commands.len() - 1] is Submit));
    }
}

proof fn quiet_step(job: JobState, event: JobEvent)
    requires
        job.expects(event),
        job.phase is SigningOptimistic ==> job.config.dry_run || event == (JobEvent::Signed {
            ok: false,
        }),
        job.phase is Prevalidating ==> event != JobEvent::Validated(ValidationOutcome::Passed),
    ensures
        submitted(job.commands(event)) == Seq::<JobCommand>::empty(),
{
    match event {
        JobEvent::Validated(outcome) => {
            let wait = seq![await_block()];
            let key = if job.phase is ValidatingDryRun {
                SigningKey::Normal
            } else {
                SigningKey::Optimistic
            };
            let effects = validation_effects(outcome, key);
            assert(job.commands(event) == effects + wait);
            nothing_submitted(effects);
            nothing_submitted(wait);
            submitted_of_sum(effects, wait);
        },
        _ => {
            nothing_submitted(job.commands(event));
        },
    }
}

proof fn all_submitted(commands: Seq<JobCommand>)
    requires
        forall|i: int| 0 <= i < commands.len() ==> #[trigger] commands[i] is Submit,
    ensures
        submitted(commands) == commands,
    decreases commands.len(),
{
    reveal(Seq::filter);
    if commands.len() > 0 {
        all_submitted(commands.drop_last());
        assert(commands[commands.len() - 1] is Submit);
        assert(commands =~= commands.drop_last().push(commands.last()));
    }
}

/// Whether `event` brings `block` to the job.
pub open spec fn brings(event: JobEvent, block: BuiltBlockInfo) -> bool {
    match event {
        JobEvent::BestBidChanged { best_bid: _, taken } => taken == Some(block),
        JobEvent::PollDue { best_bid: _, taken } => taken == Some(block),
        JobEvent::BlockBuilt { best_bid: _, block: built } => built == block,
        _ => false,
    }
}

/// The arrival of a block and its two signatures.
pub open spec fn signed_block(arrival: JobEvent) -> Seq<JobEvent> {
    seq![arrival, JobEvent::Signed { ok: true }, JobEvent::Signed { ok: true }]
}

proof fn signed_block_unfolds(job: JobState, arrival: JobEvent)
    ensures
        ({
            let signed = JobEvent::Signed { ok: true };
            let one = job.next(arrival);
            let two = one.next(signed);
            let events = signed_block(arrival);
            &&& state_after(job, events) == two.next(signed)
            &&& log(job, events) == job.commands(arrival) + one.commands(signed) + two.commands(
                signed,
            )
            &&& admissible(job, events) == (job.expects(arrival) && one.expects(signed)
                && two.expects(signed))
        }),
{
    let signed = JobEvent::Signed { ok: true };
    let events = signed_block(arrival);
    let none = Seq::<JobEvent>::empty();
    let one = none.push(arrival);
    let two = one.push(signed);
    no_event(job);
    one_more_event(job, none, arrival);
    one_more_event(job, one, signed);
    one_more_event(job, two, signed);
    assert(events =~= two.push(signed));
    assert(log(job, events) =~= job.commands(arrival) + job.next(arrival).commands(signed)
        + job.next(arrival).next(signed).commands(signed));
}

proof fn no_event(job: JobState)
    ensures
        state_after(job, Seq::empty()) == job,
        log(job, Seq::empty()) == Seq::<JobCommand>::empty(),
        admissible(job, Seq::empty()),
{
    reveal(state_after);
    reveal(log);
    reveal(admissible);
}

proof fn one_more_event(job: JobState, events: Seq<JobEvent>, event: JobEvent)
    ensures
        state_after(job, events.push(event)) == state_after(job, events).next(event),
        log(job, events.push(event)) == log(job, events) + state_after(job, events).commands(event),
        admissible(job, events.push(event)) == (admissible(job, events) && state_after(
            job,
            events,
        ).expects(event)),
{
    reveal(state_after);
    reveal(log);
    reveal(admissible);
    assert(events.push(event).drop_last() =~= events);
}

proof fn quiet_event(job: JobState, events: Seq<JobEvent>, event: JobEvent)
    requires
        admissible(job, events),
        submitted(log(job, events)) == Seq::<JobCommand>::empty(),
        state_after(job, events).expects(event),
        state_after(job, events).phase is SigningOptimistic ==> event == (JobEvent::Signed {
            ok: false,
        }),
        !(state_after(job, events).phase is Prevalidating),
    ensures
        admissible(job, events.push(event)),
        submitted(log(job, events.push(event))) == Seq::<JobCommand>::empty(),
        state_after(job, events.push(event)) == state_after(job, events).next(event),
{
    one_more_event(job, events, event);
    quiet_step(state_after(job, events), event);
    submitted_of_sum(log(job, events), state_after(job, events).commands(event));
}

proof fn block_arrives(job: JobState, arrival: JobEvent, block: BuiltBlockInfo)
    requires
        job.phase is Idle,
        brings(arrival, block),
    ensures
        job.expects(arrival),
        job.commands(arrival) == job.block_commands(block),
        job.next(arrival).phase == JobPhase::SigningNormal(block),
        job.next(arrival).config == job.config,
        job.next(arrival).relays == job.relays,
        job.next(arrival).best_bid_made == job.best_bid_made,
{
}

proof fn signed_block_runs(job: JobState, arrival: JobEvent, block: BuiltBlockInfo)
    requires
        job.phase is Idle,
        brings(arrival, block),
    ensures
        admissible(job, signed_block(arrival)),
        log(job, signed_block(arrival)) == job.block_commands(block) + seq![
            JobCommand::Sign { key: SigningKey::Optimistic, bid_value: block.bid_value },
        ] + job.signed_commands(block),
        state_after(job, signed_block(arrival)).config == job.config,
        state_after(job, signed_block(arrival)).relays == job.relays,
        state_after(job, signed_block(arrival)).phase == (if job.config.dry_run {
            JobPhase::ValidatingDryRun
        } else if job.prevalidates(block) {
            JobPhase::Prevalidating(block)
        } else {
            JobPhase::Idle
        }),
{
    let signed = JobEvent::Signed { ok: true };
    signed_block_unfolds(job, arrival);
    block_arrives(job, arrival, block);
    let two = job.next(arrival).next(signed);
    assert(two.phase == JobPhase::SigningOptimistic(block));
    assert(two.commands(signed) == job.signed_commands(block));
}

proof fn signed_block_ends(job: JobState, arrival: JobEvent, block: BuiltBlockInfo)
    requires
        job.phase is Idle,
        brings(arrival, block),
    ensures
        log(job, signed_block(arrival)).last() == (if job.config.dry_run {
            JobCommand::Validate(SigningKey::Normal)
        } else if job.prevalidates(block) {
            JobCommand::Validate(SigningKey::Optimistic)
        } else {
            await_block()
        }),
{
    signed_block_runs(job, arrival, block);
    signed_answer_ends(job, block);
}

proof fn submitted_after_validation(
    job: JobState,
    arrival: JobEvent,
    block: BuiltBlockInfo,
    outcome: ValidationOutcome,
)
    requires
        job.phase is Idle,
        brings(arrival, block),
        job.config.dry_run || job.prevalidates(block),
    ensures
        ({
            let events = signed_block(arrival).push(JobEvent::Validated(outcome));
            &&& admissible(job, events)
            &&& state_after(job, events).phase is Idle
            &&& submitted(log(job, events)) == submitted(job.signed_commands(block)) + (
            if !job.config.dry_run && outcome is Passed {
                job.to_optimistic_relays()
            } else {
                Seq::empty()
            })
        }),
{
    let events = signed_block(arrival);
    let event = JobEvent::Validated(outcome);
    signed_block_runs(job, arrival, block);
    submitted_of_signed_block(job, arrival, block);
    one_more_event(job, events, event);
    let last = state_after(job, events);
    submitted_of_sum(log(job, events), last.commands(event));
    if !job.config.dry_run && outcome is Passed {
        let wait = seq![await_block()];
        nothing_submitted(wait);
        all_submitted(job.to_optimistic_relays());
        submitted_of_sum(job.to_optimistic_relays(), wait);
        assert(last.commands(event) == job.to_optimistic_relays() + wait);
        assert(submitted(last.commands(event)) =~= job.to_optimistic_relays());
    } else {
        quiet_step(last, event);
    }
}

proof fn submitted_of_signed_commands(job: JobState, block: BuiltBlockInfo)
    ensures
        submitted(job.signed_commands(block)) == (if job.config.dry_run {
            Seq::empty()
        } else if job.prevalidates(block) {
            job.to_normal_relays()
        } else if submits_optimistically(job.config, block) {
            job.to_normal_relays() + job.to_optimistic_relays()
        } else {
            job.to_normal_relays() + job.to_optimistic_relays_normally()
        }),
{
    let head = seq![JobCommand::MeasureBlockLatency];
    let normal = job.to_normal_relays();
    let find = seq![JobCommand::FindBuilderTx];
    let wait = seq![await_block()];
    nothing_submitted(head);
    nothing_submitted(find);
    nothing_submitted(wait);
    all_submitted(normal);
    submitted_of_sum(head, normal);
    submitted_of_sum(head + normal, find);
    assert(submitted(head + normal + find) =~= normal);
    if job.config.dry_run {
        nothing_submitted(job.signed_commands(block));
    } else if job.prevalidates(block) {
        let validate = seq![JobCommand::Validate(SigningKey::Optimistic)];
        nothing_submitted(validate);
        submitted_of_sum(head + normal + find, validate);
        assert(normal + Seq::<JobCommand>::empty() =~= normal);
    } else {
        let tail = if submits_optimistically(job.config, block) {
            job.to_optimistic_relays()
        } else {
            job.to_optimistic_relays_normally()
        };
        all_submitted(tail);
        submitted_of_sum(tail, wait);
        submitted_of_sum(head + normal + find, tail + wait);
        assert(submitted(tail + wait) =~= tail);
        assert(job.signed_commands(block) == head + normal + find + (tail + wait));
    }
}

proof fn submitted_of_signed_block(job: JobState, arrival: JobEvent, block: BuiltBlockInfo)
    requires
        job.phase is Idle,
        brings(arrival, block),
    ensures
        submitted(log(job, signed_block(arrival))) == submitted(job.signed_commands(block)),
{
    signed_block_runs(job, arrival, block);
    let first = job.block_commands(block);
    let second = seq![
        JobCommand::Sign { key: SigningKey::Optimistic, bid_value: block.bid_value },
    ];
    let third = job.signed_commands(block);
    nothing_submitted(first);
    nothing_submitted(second);
    submitted_of_sum(first, second);
    submitted_of_sum(first + second, third);
    assert(Seq::<JobCommand>::empty() + Seq::<JobCommand>::empty() + submitted(third)
        =~= submitted(third));
}

/// In a dry run a block that both keys have signed is validated and not submitted.
pub proof fn dry_run_validates(
    job: JobState,
    arrival: JobEvent,
    block: BuiltBlockInfo,
    outcome: ValidationOutcome,
)
    requires
        job.phase is Idle,
        job.config.dry_run,
        brings(arrival, block),
    ensures
        admissible(job, signed_block(arrival).push(JobEvent::Validated(outcome))),
        log(job, signed_block(arrival)).last() == JobCommand::Validate(SigningKey::Normal),
        submitted(log(job, signed_block(arrival).push(JobEvent::Validated(outcome)))) == Seq::<
            JobCommand,
        >::empty(),
        state_after(job, signed_block(arrival).push(JobEvent::Validated(outcome))).phase is Idle,
{
    signed_block_ends(job, arrival, block);
    submitted_after_validation(job, arrival, block, outcome);
    submitted_of_signed_commands(job, block);
}

/// Outside of dry runs, a block that is not to be submitted optimistically goes to every relay
/// under the normal key.
pub proof fn normal_block_goes_to_every_relay(
    job: JobState,
    arrival: JobEvent,
    block: BuiltBlockInfo,
)
    requires
        job.phase is Idle,
        !job.config.dry_run,
        !job.config.optimistic_enabled || block.bid_value@ >= job.config.optimistic_max_bid_value@,
        brings(arrival, block),
    ensures
        admissible(job, signed_block(arrival)),
        submitted(log(job, signed_block(arrival))) == job.to_normal_relays()
            + job.to_optimistic_relays_normally(),
        state_after(job, signed_block(arrival)).phase is Idle,
{
    signed_block_runs(job, arrival, block);
    submitted_of_signed_block(job, arrival, block);
    submitted_of_signed_commands(job, block);
}

/// Outside of dry runs, a block that is to be submitted optimistically without validation goes
/// to the optimistic relays under the optimistic key and to the others under the normal key.
pub proof fn optimistic_block_goes_to_every_relay(
    job: JobState,
    arrival: JobEvent,
    block: BuiltBlockInfo,
)
    requires
        job.phase is Idle,
        !job.config.dry_run,
        job.config.optimistic_enabled,
        block.bid_value@ < job.config.optimistic_max_bid_value@,
        !job.config.optimistic_prevalidate_optimistic_blocks,
        brings(arrival, block),
    ensures
        admissible(job, signed_block(arrival)),
        submitted(log(job, signed_block(arrival))) == job.to_normal_relays()
            + job.to_optimistic_relays(),
        state_after(job, signed_block(arrival)).phase is Idle,
{
    signed_block_runs(job, arrival, block);
    submitted_of_signed_block(job, arrival, block);
    submitted_of_signed_commands(job, block);
}

/// Outside of dry runs, a block that is to be submitted optimistically after validation goes to
/// the relays that are not optimistic at once, under the normal key; to the optimistic relays it
/// goes under the optimistic key if it passes the validation, and not at all if it does not.
pub proof fn prevalidated_block_goes_to_optimistic_relays_if_valid(
    job: JobState,
    arrival: JobEvent,
    block: BuiltBlockInfo,
    outcome: ValidationOutcome,
)
    requires
        job.phase is Idle,
        !job.config.dry_run,
        job.config.optimistic_enabled,
        block.bid_value@ < job.config.optimistic_max_bid_value@,
        job.config.optimistic_prevalidate_optimistic_blocks,
        brings(arrival, block),
    ensures
        admissible(job, signed_block(arrival).push(JobEvent::Validated(outcome))),
        submitted(log(job, signed_block(arrival))) == job.to_normal_relays(),
        log(job, signed_block(arrival)).last() == JobCommand::Validate(SigningKey::Optimistic),
        submitted(log(job, signed_block(arrival).push(JobEvent::Validated(outcome)))) == (
        if outcome is Passed {
            job.to_normal_relays() + job.to_optimistic_relays()
        } else {
            job.to_normal_relays()
        }),
        state_after(job, signed_block(arrival).push(JobEvent::Validated(outcome))).phase is Idle,
{
    signed_block_ends(job, arrival, block);
    submitted_of_signed_block(job, arrival, block);
    submitted_after_validation(job, arrival, block, outcome);
    submitted_of_signed_commands(job, block);
    assert(job.to_normal_relays() + Seq::<JobCommand>::empty() =~= job.to_normal_relays());
}

/// A block that a key fails to sign is not submitted, and the job waits for the next one.
pub proof fn unsigned_block_goes_nowhere(job: JobState, arrival: JobEvent, block: BuiltBlockInfo)
    requires
        job.phase is Idle,
        brings(arrival, block),
    ensures
        ({
            let unsigned = seq![arrival, JobEvent::Signed { ok: false }];
            &&& admissible(job, unsigned)
            &&& submitted(log(job, unsigned)) == Seq::<JobCommand>::empty()
            &&& state_after(job, unsigned).phase is Idle
            &&& state_after(job, unsigned).best_bid_made == job.best_bid_made
        }),
        ({
            let half = seq![arrival, JobEvent::Signed { ok: true }, JobEvent::Signed { ok: false }];
            &&& admissible(job, half)
            &&& submitted(log(job, half)) == Seq::<JobCommand>::empty()
            &&& state_after(job, half).phase is Idle
            &&& state_after(job, half).best_bid_made == job.best_bid_made
        }),
{
    let none = Seq::<JobEvent>::empty();
    let one = none.push(arrival);
    let two = one.push(JobEvent::Signed { ok: true });
    no_event(job);
    nothing_submitted(Seq::empty());
    block_arrives(job, arrival, block);
    quiet_event(job, none, arrival);
    quiet_event(job, one, JobEvent::Signed { ok: false });
    quiet_event(job, one, JobEvent::Signed { ok: true });
    quiet_event(job, two, JobEvent::Signed { ok: false });
    assert(one.push(JobEvent::Signed { ok: false }) =~= seq![arrival, JobEvent::Signed { ok: false }]);
    assert(two.push(JobEvent::Signed { ok: false }) =~= seq![
        arrival,
        JobEvent::Signed { ok: true },
        JobEvent::Signed { ok: false },
    ]);
}

/// The relays that some submissions go to.
pub open spec fn targets(commands: Seq<JobCommand>) -> Seq<usize> {
    commands.map_values(|command: JobCommand| command->relay)
}

/// The submissions of a block to all relays reach every relay exactly once, whichever key the
/// optimistic relays get.
pub proof fn every_relay_is_reached_once(job: JobState)
    requires
        job.relays.len() <= usize::MAX,
    ensures
        targets(job.to_normal_relays() + job.to_optimistic_relays()) == targets(
            job.to_normal_relays() + job.to_optimistic_relays_normally(),
        ),
        targets(job.to_normal_relays() + job.to_optimistic_relays()).no_duplicates(),
        forall|p: usize|
            #[trigger] targets(job.to_normal_relays() + job.to_optimistic_relays()).contains(p)
                <==> p < job.relays.len(),
{
    let normal = positions(job.relays, false);
    let optimistic = positions(job.relays, true);
    let all = targets(job.to_normal_relays() + job.to_optimistic_relays());
    relays_are_divided(job.relays, false);
    relays_are_divided(job.relays, true);
    assert(all =~= normal + optimistic);
    assert(targets(job.to_normal_relays() + job.to_optimistic_relays_normally()) =~= normal
        + optimistic);
    assert forall|i: int, j: int|
        0 <= i < all.len() && 0 <= j < all.len() && i != j implies all[i] != all[j] by {
        if i < normal.len() && j >= normal.len() {
            assert(normal.contains(normal[i]));
            assert(optimistic.contains(optimistic[j - normal.len()]));
        } else if j < normal.len() && i >= normal.len() {
            assert(normal.contains(normal[j]));
            assert(optimistic.contains(optimistic[i - normal.len()]));
        } else if i >= normal.len() {
            assert(optimistic[i - normal.len()] != optimistic[j - normal.len()]);
        }
    }
    assert forall|p: usize| #[trigger] all.contains(p) <==> p < job.relays.len() by {
        if p < job.relays.len() {
            if job.relays[p as int].optimistic {
                assert(optimistic.contains(p));
                let i = choose|i: int| 0 <= i < optimistic.len() && optimistic[i] == p;
                assert(all[normal.len() + i] == p);
            } else {
                assert(normal.contains(p));
                let i = choose|i: int| 0 <= i < normal.len() && normal[i] == p;
                assert(all[i] == p);
            }
        }
        if all.contains(p) {
            let i = choose|i: int| 0 <= i < all.len() && all[i] == p;
            if i < normal.len() {
                assert(normal.contains(normal[i]));
            } else {
                assert(optimistic.contains(optimistic[i - normal.len()]));
            }
        }
    }
}

/// Whether `command` is one that the job waits for.
pub open spec fn is_waited_for(command: JobCommand) -> bool {
    command is Sleep || command is AwaitBlock || command is Sign || command is Validate
        || command is Finish
}

proof fn signed_answer_ends(job: JobState, block: BuiltBlockInfo)
    ensures
        ({
            let all = job.signed_commands(block);
            &&& all.len() > 0
            &&& forall|i: int| 0 <= i < all.len() - 1 ==> !is_waited_for(#[trigger] all[i])
            &&& all.last() == (if job.config.dry_run {
                JobCommand::Validate(SigningKey::Normal)
            } else if job.prevalidates(block) {
                JobCommand::Validate(SigningKey::Optimistic)
            } else {
                await_block()
            })
        }),
{
}

/// Every answer of the job ends in the one command that it waits for, and that command tells
/// what the job expects next.
pub proof fn answer_ends_in_the_command_waited_for(job: JobState, event: JobEvent)
    requires
        job.expects(event),
    ensures
        job.commands(event).len() > 0,
        forall|i: int|
            0 <= i < job.commands(event).len() - 1 ==> !is_waited_for(
                #[trigger] job.commands(event)[i],
            ),
        match job.commands(event).last() {
            JobCommand::AwaitBlock { poll_millis } => poll_millis == BEST_BLOCK_POLL_MILLIS
                && job.next(event).phase is Idle,
            JobCommand::Sleep { .. } => job.next(event).phase is Sleeping,
            JobCommand::Sign { key: SigningKey::Normal, .. } => job.next(
                event,
            ).phase is SigningNormal,
            JobCommand::Sign { key: SigningKey::Optimistic, .. } => job.next(
                event,
            ).phase is SigningOptimistic,
            JobCommand::Validate(SigningKey::Normal) => job.next(event).phase is ValidatingDryRun,
            JobCommand::Validate(SigningKey::Optimistic) => job.next(event).phase is Prevalidating,
            JobCommand::Finish(_) => job.next(event).phase is Finished,
            _ => false,
        },
{
    match event {
        JobEvent::Signed { ok } => {
            if let JobPhase::SigningOptimistic(block) = job.phase {
                if ok {
                    signed_answer_ends(job, block);
                }
            }
        },
        JobEvent::Validated(outcome) => {
            assert(job.commands(event).last() == await_block());
        },
        _ => {},
    }
}

/// The block that the job is at, where it has signed or validates one.
pub open spec fn current_block(phase: JobPhase) -> Option<BuiltBlockInfo> {
    match phase {
        JobPhase::SigningOptimistic(block) => Some(block),
        JobPhase::Prevalidating(block) => Some(block),
        _ => None,
    }
}

/// The bids that the job makes over a series of events: the block that it is at, each time that
/// it submits something.
pub open spec fn bids_made(job: JobState, events: Seq<JobEvent>) -> Seq<BuiltBlockInfo>
    decreases events.len(),
{
    if events.len() == 0 {
        Seq::empty()
    } else {
        let before = bids_made(job, events.drop_last());
        let at = state_after(job, events.drop_last());
        if submitted(at.commands(events.last())).len() > 0 {
            before.push(current_block(at.phase)->0)
        } else {
            before
        }
    }
}

proof fn signed_step_bids(job: JobState, block: BuiltBlockInfo)
    requires
        !job.config.dry_run,
    ensures
        submitted(job.signed_commands(block)).len() > 0 <==> job.submits_at_once(block),
{
    submitted_of_signed_commands(job, block);
    assert(job.to_normal_relays().len() == positions(job.relays, false).len());
    assert(job.to_optimistic_relays().len() == positions(job.relays, true).len());
    assert(job.to_optimistic_relays_normally().len() == positions(job.relays, true).len());
}

proof fn validated_step_bids(job: JobState)
    ensures
        submitted(job.to_optimistic_relays() + seq![await_block()]).len() == positions(
            job.relays,
            true,
        ).len(),
{
    let wait = seq![await_block()];
    nothing_submitted(wait);
    all_submitted(job.to_optimistic_relays());
    submitted_of_sum(job.to_optimistic_relays(), wait);
}

/// A step makes a bid exactly when it submits something, and then the block that the job is at is
/// the one that it bids with.
pub proof fn submitting_is_bidding(job: JobState, event: JobEvent)
    requires
        job.expects(event),
        consistent(job),
    ensures
        submitted(job.commands(event)).len() > 0 ==> current_block(job.phase) is Some && job.next(
            event,
        ).best_bid_made == better_bid(job.best_bid_made, current_block(job.phase)->0),
        submitted(job.commands(event)).len() == 0 ==> job.next(event).best_bid_made
            == job.best_bid_made,
{
    match job.phase {
        JobPhase::SigningOptimistic(block) if !job.config.dry_run && event == (JobEvent::Signed {
            ok: true,
        }) => {
            assert(job.commands(event) == job.signed_commands(block));
            signed_step_bids(job, block);
        },
        JobPhase::Prevalidating(block) if event == JobEvent::Validated(
            ValidationOutcome::Passed,
        ) => {
            validated_step_bids(job);
        },
        _ => {
            quiet_step(job, event);
        },
    }
}

/// The job knows the best bid that it has made: it is one of them and none of them is higher, and
/// there is none exactly if nothing was submitted to any relay.
pub proof fn job_knows_its_best_bid(
    config: SubmissionConfig,
    relays: Seq<MevBoostRelay>,
    events: Seq<JobEvent>,
)
    requires
        admissible(JobState::fresh(config, relays), events),
    ensures
        ({
            let job = JobState::fresh(config, relays);
            let bids = bids_made(job, events);
            let best_bid_made = state_after(job, events).best_bid_made;
            &&& match best_bid_made {
                Some(best) => bids.contains(best) && forall|i: int|
                    0 <= i < bids.len() ==> (#[trigger] bids[i]).bid_value@ <= best.bid_value@,
                None => bids.len() == 0,
            }
            &&& best_bid_made is None <==> submitted(log(job, events)).len() == 0
        }),
    decreases events.len(),
{
    let job = JobState::fresh(config, relays);
    if events.len() > 0 {
        let before = events.drop_last();
        let event = events.last();
        let at = state_after(job, before);
        assert(before.push(event) =~= events);
        one_more_event(job, before, event);
        job_knows_its_best_bid(config, relays, before);
        job_stays_consistent(config, relays, before);
        submitting_is_bidding(at, event);
        submitted_of_sum(log(job, before), at.commands(event));
        let old_bids = bids_made(job, before);
        let bids = bids_made(job, events);
        let old_best = at.best_bid_made;
        if submitted(at.commands(event)).len() > 0 {
            let block = current_block(at.phase)->0;
            assert(bids == old_bids.push(block));
            assert(bids[bids.len() - 1] == block);
            if let Some(best) = old_best {
                let i = choose|i: int| 0 <= i < old_bids.len() && old_bids[i] == best;
                assert(bids[i] == best);
            }
            assert forall|k: int| 0 <= k < bids.len() implies (#[trigger] bids[k]).bid_value@
                <= better_bid(old_best, block)->0.bid_value@ by {
                if k < old_bids.len() {
                    assert(bids[k] == old_bids[k]);
                }
            }
        }
    } else {
        no_event(job);
        nothing_submitted(log(job, Seq::empty()));
        assert(events =~= Seq::empty());
    }
}

/// A cancelled job ends with the best bid that it has made, and waits for nothing more.
pub proof fn cancelled_job_returns_its_best_bid(job: JobState, event: JobEvent)
    requires
        job.phase is Idle,
    ensures
        job.expects(JobEvent::Cancelled),
        job.commands(JobEvent::Cancelled) == seq![JobCommand::Finish(job.best_bid_made)],
        !job.next(JobEvent::Cancelled).expects(event),
{
}

/// Looking for the best block never lowers the bid that is competed with.
pub proof fn look_never_lowers_the_bid(job: JobState, best: U256, taken: Option<BuiltBlockInfo>)
    ensures
        job.after_look(best, taken).last_bid_value >= job.last_bid_value,
        taken matches Some(block) ==> job.after_look(best, taken).last_bid_value >= best_bid(
            block.bid_value@,
            best@,
        ),
{
}

/// Whether `command` does something with a block.
pub open spec fn handles_block(command: JobCommand) -> bool {
    !(command is Sleep || command is AwaitBlock || command is Finish)
}

/// The first answer of a job that is started at `now` for a slot whose time is `slot_timestamp`.
pub open spec fn first_answer(config: SubmissionConfig, slot_timestamp: i128, now: i128) -> Seq<
    JobCommand,
> {
    let start = slot_timestamp + config.slot_delta_to_start_submits;
    if start > now {
        seq![JobCommand::Sleep { nanos: (start - now) as u128 }]
    } else {
        seq![await_block()]
    }
}

/// Whether the submissions have started after a series of events: the job was started, and if
/// that was before the time at which they start, the sleep until then is over.
pub open spec fn has_started(config: SubmissionConfig, events: Seq<JobEvent>) -> bool {
    &&& events.len() > 0
    &&& events[0] matches JobEvent::Started { slot_timestamp, now }
    &&& slot_timestamp + config.slot_delta_to_start_submits > now ==> events.len() > 1
        && events[1] is SleepOver
}

/// The job does nothing with a block before the submissions of the slot start, and neither sleeps
/// nor waits for anything else where that time has come when it is started.
pub proof fn nothing_happens_before_the_start(
    config: SubmissionConfig,
    relays: Seq<MevBoostRelay>,
    events: Seq<JobEvent>,
)
    requires
        admissible(JobState::fresh(config, relays), events),
    ensures
        ({
            let job = JobState::fresh(config, relays);
            let all = log(job, events);
            &&& events.len() > 0 ==> (events[0] matches JobEvent::Started { slot_timestamp, now }
                && first_answer(config, slot_timestamp, now).is_prefix_of(all))
            &&& state_after(job, events).phase is Unstarted <==> events.len() == 0
            &&& state_after(job, events).phase is Sleeping <==> events.len() == 1 && !has_started(
                config,
                events,
            )
            &&& events.len() > 1 ==> has_started(config, events)
            &&& !has_started(config, events) ==> forall|i: int|
                0 <= i < all.len() ==> !handles_block(#[trigger] all[i])
            &&& events.len() > 0 && !has_started(config, events.drop_last()) ==> forall|i: int|
                0 <= i < all.len() ==> !handles_block(#[trigger] all[i])
        }),
    decreases events.len(),
{
    let job = JobState::fresh(config, relays);
    if events.len() > 0 {
        let before = events.drop_last();
        let event = events.last();
        assert(before.push(event) =~= events);
        one_more_event(job, before, event);
        nothing_happens_before_the_start(config, relays, before);
        job_stays_consistent(config, relays, before);
        let at = state_after(job, before);
        let old_log = log(job, before);
        let all = log(job, events);
        assert(all == old_log + at.commands(event));
        if before.len() == 0 {
            no_event(job);
            assert(before =~= Seq::empty());
            assert(all =~= at.commands(event));
            assert(events[0] == event);
        } else {
            assert(events[0] == before[0]);
            if let JobEvent::Started { slot_timestamp, now } = events[0] {
                let first = first_answer(config, slot_timestamp, now);
                assert(all.take(first.len() as int) =~= old_log.take(first.len() as int));
            }
            if before.len() > 1 {
                assert(events[1] == before[1]);
            } else {
                assert(events[1] == event);
            }
        }
        if !has_started(config, before) {
            assert forall|i: int| 0 <= i < all.len() implies !handles_block(#[trigger] all[i]) by {
                if i < old_log.len() {
                    assert(all[i] == old_log[i]);
                } else {
                    assert(all[i] == at.commands(event)[i - old_log.len()]);
                }
            }
        }
    } else {
        no_event(job);
        assert(events =~= Seq::empty());
    }
}

/// Whenever the job waits for a block, it is to look for a new best block again and again, always
/// after the same time, and on each look it starts on the block that was taken.
pub proof fn job_looks_for_a_block_at_the_poll_interval(
    job: JobState,
    event: JobEvent,
    poll_millis: u64,
    best: U256,
    block: BuiltBlockInfo,
)
    requires
        job.expects(event),
        job.commands(event).contains(JobCommand::AwaitBlock { poll_millis }),
    ensures
        poll_millis == BEST_BLOCK_POLL_MILLIS,
        job.next(event).expects(JobEvent::PollDue { best_bid: best, taken: None }),
        job.next(event).commands(JobEvent::PollDue { best_bid: best, taken: None }) == seq![
            JobCommand::AwaitBlock { poll_millis },
        ],
        job.next(event).expects(JobEvent::PollDue { best_bid: best, taken: Some(block) }),
        job.next(event).commands(JobEvent::PollDue { best_bid: best, taken: Some(block) })
            == job.block_commands(block),
{
    let all = job.commands(event);
    answer_ends_in_the_command_waited_for(job, event);
    let i = choose|i: int|
        0 <= i < all.len() && all[i] == (JobCommand::AwaitBlock { poll_millis });
    assert(is_waited_for(all[i]));
    assert(all.last() == JobCommand::AwaitBlock { poll_millis });
}

/// A block is signed with its own bid, by the normal key when it comes and by the optimistic key
/// once the normal one has signed.
pub proof fn blocks_are_signed_with_their_own_bid(
    job: JobState,
    event: JobEvent,
    key: SigningKey,
    bid_value: U256,
)
    requires
        job.expects(event),
        job.commands(event).contains(JobCommand::Sign { key, bid_value }),
    ensures
        match key {
            SigningKey::Normal => job.next(event).phase matches JobPhase::SigningNormal(block)
                && brings(event, block) && bid_value == block.bid_value,
            SigningKey::Optimistic => job.phase matches JobPhase::SigningNormal(block)
                && job.next(event).phase == JobPhase::SigningOptimistic(block) && bid_value
                == block.bid_value,
        },
{
    let all = job.commands(event);
    answer_ends_in_the_command_waited_for(job, event);
    let i = choose|i: int| 0 <= i < all.len() && all[i] == (JobCommand::Sign { key, bid_value });
    assert(is_waited_for(all[i]));
    assert(all.last() == JobCommand::Sign { key, bid_value });
}

/// The block that a job is at is the one that came last, and nothing but its signatures has come
/// since: none while the normal key is to sign it, one while the optimistic key is, and both when
/// it is validated.
pub proof fn block_in_hand_is_the_one_that_came(
    config: SubmissionConfig,
    relays: Seq<MevBoostRelay>,
    events: Seq<JobEvent>,
)
    requires
        admissible(JobState::fresh(config, relays), events),
    ensures
        ({
            let n = events.len() as int;
            let signed = JobEvent::Signed { ok: true };
            match state_after(JobState::fresh(config, relays), events).phase {
                JobPhase::SigningNormal(block) => n >= 1 && arrives(events[n - 1], block),
                JobPhase::SigningOptimistic(block) => n >= 2 && events[n - 1] == signed && arrives(
                    events[n - 2],
                    block,
                ),
                JobPhase::Prevalidating(block) => n >= 3 && events[n - 1] == signed && events[n - 2]
                    == signed && arrives(events[n - 3], block),
                JobPhase::ValidatingDryRun => n >= 3 && events[n - 1] == signed && events[n - 2]
                    == signed && exists|block: BuiltBlockInfo|
                    #[trigger] arrives(events[n - 3], block),
                _ => true,
            }
        }),
    decreases events.len(),
{
    let job = JobState::fresh(config, relays);
    if events.len() > 0 {
        let before = events.drop_last();
        let event = events.last();
        assert(before.push(event) =~= events);
        one_more_event(job, before, event);
        block_in_hand_is_the_one_that_came(config, relays, before);
        let at = state_after(job, before);
        if let JobPhase::SigningOptimistic(block) = at.phase {
            assert(arrives(events[events.len() - 3], block));
        }
    } else {
        no_event(job);
        assert(events =~= Seq::empty());
    }
}

} // verus!
