//! The job that submits the blocks of a slot to the relays.
//!
//! The job is told what happens (the slot is known, a block was built, a signature was made, ...)
//! and answers with what is to be done. The last command of an answer is the one that the job
//! waits for.

use vstd::prelude::*;

use crate::best_bid::{best_bid, best_bid_algo};
use crate::error_events::ErrorCategory;
use crate::relays::{divide_relays, positions, MevBoostRelay};
use crate::submit_time::{has_timestamps, is_timestamp, sleep_before_submits};
use crate::u256::U256;

verus! {

/// Milliseconds between two looks for a new best block.
pub const BEST_BLOCK_POLL_MILLIS: u64 = 50;

/// How blocks are submitted.
#[derive(Debug, Clone, Copy)]
pub struct SubmissionConfig {
    /// Blocks are validated and not submitted.
    pub dry_run: bool,
    /// Blocks may be submitted optimistically.
    pub optimistic_enabled: bool,
    /// Bids of at least this value are not submitted optimistically.
    pub optimistic_max_bid_value: U256,
    /// Blocks are validated before they are submitted optimistically.
    pub optimistic_prevalidate_optimistic_blocks: bool,
    /// When to start to submit blocks, in nanoseconds after the time of the slot. Usually
    /// negative, for submitting has to start before the time of the slot.
    pub slot_delta_to_start_submits: i128,
}

/// What a block bids.
#[derive(Debug, Clone, Copy, PartialEq, Eq, Structural)]
pub struct BuiltBlockInfo {
    /// The bid.
    pub bid_value: U256,
    /// What the block earns.
    pub true_bid_value: U256,
}

/// By which key a submission is signed.
#[derive(Debug, Clone, Copy, PartialEq, Eq, Structural)]
pub enum SigningKey {
    Normal,
    Optimistic,
}

/// What has come out of the validation of a block.
#[derive(Debug)]
pub enum ValidationOutcome {
    Passed,
    UnableToValidate(String),
    ValidationFailed(String),
}

/// What the job is told.
#[derive(Debug)]
pub enum JobEvent {
    /// The job was started for a slot whose time is `slot_timestamp`, at the time `now`.
    Started { slot_timestamp: i128, now: i128 },
    /// The sleep that was asked for is over.
    SleepOver,
    /// The best bid of others has become `best_bid`; `taken` is the best block that was built
    /// and not taken before.
    BestBidChanged { best_bid: U256, taken: Option<BuiltBlockInfo> },
    /// It is time to look for a new best block.
    PollDue { best_bid: U256, taken: Option<BuiltBlockInfo> },
    /// A block was built while `best_bid` is the best bid of others.
    BlockBuilt { best_bid: U256, block: BuiltBlockInfo },
    /// The signature that was asked for was made, or could not be made.
    Signed { ok: bool },
    /// The validation that was asked for is over.
    Validated(ValidationOutcome),
    /// The slot was cancelled.
    Cancelled,
}

/// What is to be done.
#[derive(Debug)]
pub enum JobCommand {
    /// Sleep for some nanoseconds, until the submissions of the slot start.
    Sleep { nanos: u128 },
    /// Wait for a block, a best bid or the cancellation of the slot, and look for a new best block
    /// every `poll_millis` milliseconds.
    AwaitBlock { poll_millis: u64 },
    /// Count the start of the submission of a block.
    IncInitiatedSubmissions { optimistic: bool },
    /// Sign the block with its bid by a key.
    Sign { key: SigningKey, bid_value: U256 },
    /// Validate the submission that was signed by a key.
    Validate(SigningKey),
    /// Count a failed simulation.
    IncFailedBlockSimulations,
    /// Keep the error and the submission that was signed by a key under a category.
    StoreErrorEvent { category: ErrorCategory, error: String, submission: SigningKey },
    /// Measure the time that the orders of the block have taken.
    MeasureBlockLatency,
    /// Submit the block as signed by `key` to the relay at position `relay`.
    Submit { relay: usize, key: SigningKey, optimistic: bool },
    /// Look for the transaction of the builder in the block.
    FindBuilderTx,
    /// End the job, whose best bid was this one.
    Finish(Option<BuiltBlockInfo>),
}

/// What the job is at.
#[derive(Debug, Clone, Copy, PartialEq, Eq, Structural)]
pub enum JobPhase {
    /// It waits to be started for a slot.
    Unstarted,
    /// It waits until the submissions of the slot start.
    Sleeping,
    /// It waits for a block.
    Idle,
    /// It waits for the normal signature of a block.
    SigningNormal(BuiltBlockInfo),
    /// It waits for the optimistic signature of a block.
    SigningOptimistic(BuiltBlockInfo),
    /// It waits for the validation of a block that it does not submit.
    ValidatingDryRun,
    /// It waits for the validation of a block before it submits it optimistically.
    Prevalidating(BuiltBlockInfo),
    /// It is over.
    Finished,
}

/// The command to wait for a block.
pub open spec fn await_block() -> JobCommand {
    JobCommand::AwaitBlock { poll_millis: BEST_BLOCK_POLL_MILLIS }
}

/// Whether a block is to be submitted optimistically.
pub open spec fn submits_optimistically(config: SubmissionConfig, block: BuiltBlockInfo) -> bool {
    config.optimistic_enabled && block.bid_value@ < config.optimistic_max_bid_value@
}

/// The submissions to the relays at some positions.
pub open spec fn submissions(relays: Seq<usize>, key: SigningKey, optimistic: bool) -> Seq<
    JobCommand,
> {
    relays.map_values(|relay: usize| JobCommand::Submit { relay, key, optimistic })
}

/// What is done about a validation, other than going on.
pub open spec fn validation_effects(outcome: ValidationOutcome, key: SigningKey) -> Seq<
    JobCommand,
> {
    match outcome {
        ValidationOutcome::ValidationFailed(error) => seq![
            JobCommand::IncFailedBlockSimulations,
            JobCommand::StoreErrorEvent {
                category: ErrorCategory::ValidateBlockSimulation,
                error,
                submission: key,
            },
        ],
        _ => seq![],
    }
}

/// The better of the best bid so far and that of `block`; the earlier one where they are equal.
pub open spec fn better_bid(best: Option<BuiltBlockInfo>, block: BuiltBlockInfo) -> Option<
    BuiltBlockInfo,
> {
    match best {
        Some(info) => if info.bid_value@ < block.bid_value@ {
            Some(block)
        } else {
            best
        },
        None => Some(block),
    }
}

/// A job, as far as its behaviour goes.
pub struct JobState {
    pub config: SubmissionConfig,
    pub relays: Seq<MevBoostRelay>,
    /// The bid that was competed with last.
    pub last_bid_value: nat,
    /// The best bid that was made.
    pub best_bid_made: Option<BuiltBlockInfo>,
    pub phase: JobPhase,
}

impl JobState {
    /// A job that has done nothing yet.
    pub open spec fn fresh(config: SubmissionConfig, relays: Seq<MevBoostRelay>) -> JobState {
        JobState {
            config,
            relays,
            last_bid_value: 0,
            best_bid_made: None,
            phase: JobPhase::Unstarted,
        }
    }

    /// When the submissions of a slot start.
    pub open spec fn start_time(self, slot_timestamp: i128) -> int {
        slot_timestamp + self.config.slot_delta_to_start_submits
    }

    /// Whether the job waits for `event`.
    pub open spec fn expects(self, event: JobEvent) -> bool {
        match self.phase {
            JobPhase::Unstarted => event matches JobEvent::Started { slot_timestamp, now }
                && is_timestamp(slot_timestamp as int) && is_timestamp(
                self.start_time(slot_timestamp),
            ) && is_timestamp(now as int),
            JobPhase::Sleeping => event is SleepOver,
            JobPhase::Idle => event is BestBidChanged || event is PollDue || event is BlockBuilt
                || event is Cancelled,
            JobPhase::SigningNormal(_) | JobPhase::SigningOptimistic(_) => event is Signed,
            JobPhase::ValidatingDryRun | JobPhase::Prevalidating(_) => event is Validated,
            JobPhase::Finished => false,
        }
    }

    /// The job with a block to sign.
    pub open spec fn with_block(self, block: BuiltBlockInfo, last_bid_value: nat) -> JobState {
        JobState { last_bid_value, phase: JobPhase::SigningNormal(block), ..self }
    }

    /// The job in another phase.
    pub open spec fn in_phase(self, phase: JobPhase) -> JobState {
        JobState { phase, ..self }
    }

    /// The job after it has looked for the best block.
    pub open spec fn after_look(self, best: U256, taken: Option<BuiltBlockInfo>) -> JobState {
        match taken {
            Some(block) => {
                let bid = best_bid(block.bid_value@, best@);
                self.with_block(
                    block,
                    if bid > self.last_bid_value {
                        bid
                    } else {
                        self.last_bid_value
                    },
                )
            },
            None => self,
        }
    }

    /// The job after `event`.
    pub open spec fn next(self, event: JobEvent) -> JobState {
        match event {
            JobEvent::Started { slot_timestamp, now } => self.in_phase(
                if self.start_time(slot_timestamp) > now {
                    JobPhase::Sleeping
                } else {
                    JobPhase::Idle
                },
            ),
            JobEvent::SleepOver => self.in_phase(JobPhase::Idle),
            JobEvent::BestBidChanged { best_bid: best, taken } => self.after_look(best, taken),
            JobEvent::PollDue { best_bid: best, taken } => self.after_look(best, taken),
            JobEvent::BlockBuilt { best_bid: best, block } => self.with_block(
                block,
                best_bid(block.bid_value@, best@),
            ),
            JobEvent::Cancelled => self.in_phase(JobPhase::Finished),
            JobEvent::Signed { ok } => match self.phase {
                JobPhase::SigningNormal(block) if ok => self.in_phase(
                    JobPhase::SigningOptimistic(block),
                ),
                JobPhase::SigningOptimistic(block) if ok => if self.config.dry_run {
                    self.in_phase(JobPhase::ValidatingDryRun)
                } else {
                    JobState {
                        best_bid_made: if self.submits_at_once(block) {
                            better_bid(self.best_bid_made, block)
                        } else {
                            self.best_bid_made
                        },
                        phase: if self.prevalidates(block) {
                            JobPhase::Prevalidating(block)
                        } else {
                            JobPhase::Idle
                        },
                        ..self
                    }
                },
                _ => self.in_phase(JobPhase::Idle),
            },
            JobEvent::Validated(outcome) => match self.phase {
                JobPhase::Prevalidating(block) if outcome is Passed && positions(
                    self.relays,
                    true,
                ).len() > 0 => JobState {
                    best_bid_made: better_bid(self.best_bid_made, block),
                    phase: JobPhase::Idle,
                    ..self
                },
                _ => self.in_phase(JobPhase::Idle),
            },
        }
    }

    /// Whether some relay gets a block as soon as both keys have signed it.
    pub open spec fn submits_at_once(self, block: BuiltBlockInfo) -> bool {
        positions(self.relays, false).len() > 0 || (!self.prevalidates(block) && positions(
            self.relays,
            true,
        ).len() > 0)
    }

    /// Whether a block is validated before it is submitted optimistically.
    pub open spec fn prevalidates(self, block: BuiltBlockInfo) -> bool {
        submits_optimistically(self.config, block)
            && self.config.optimistic_prevalidate_optimistic_blocks
    }

    /// What is done first with a block.
    pub open spec fn block_commands(self, block: BuiltBlockInfo) -> Seq<JobCommand> {
        seq![
            JobCommand::IncInitiatedSubmissions {
                optimistic: submits_optimistically(self.config, block),
            },
            JobCommand::Sign { key: SigningKey::Normal, bid_value: block.bid_value },
        ]
    }

    /// The submissions to the relays that are not optimistic.
    pub open spec fn to_normal_relays(self) -> Seq<JobCommand> {
        submissions(positions(self.relays, false), SigningKey::Normal, false)
    }

    /// The optimistic submissions to the optimistic relays.
    pub open spec fn to_optimistic_relays(self) -> Seq<JobCommand> {
        submissions(positions(self.relays, true), SigningKey::Optimistic, true)
    }

    /// The submissions to the optimistic relays that are not optimistic.
    pub open spec fn to_optimistic_relays_normally(self) -> Seq<JobCommand> {
        submissions(positions(self.relays, true), SigningKey::Normal, false)
    }

    /// What is done with a block that both keys have signed.
    pub open spec fn signed_commands(self, block: BuiltBlockInfo) -> Seq<JobCommand> {
        if self.config.dry_run {
            seq![JobCommand::Validate(SigningKey::Normal)]
        } else {
            seq![JobCommand::MeasureBlockLatency] + self.to_normal_relays() + seq![
                JobCommand::FindBuilderTx,
            ] + (if self.prevalidates(block) {
                seq![JobCommand::Validate(SigningKey::Optimistic)]
            } else if submits_optimistically(self.config, block) {
                self.to_optimistic_relays() + seq![await_block()]
            } else {
                self.to_optimistic_relays_normally() + seq![await_block()]
            })
        }
    }

    /// What the job does on `event`.
    pub open spec fn commands(self, event: JobEvent) -> Seq<JobCommand> {
        match event {
            JobEvent::Started { slot_timestamp, now } => if self.start_time(slot_timestamp) > now {
                seq![JobCommand::Sleep { nanos: (self.start_time(slot_timestamp) - now) as u128 }]
            } else {
                seq![await_block()]
            },
            JobEvent::SleepOver => seq![await_block()],
            JobEvent::BestBidChanged { best_bid: _, taken }
            | JobEvent::PollDue { best_bid: _, taken } => match taken {
                Some(block) => self.block_commands(block),
                None => seq![await_block()],
            },
            JobEvent::BlockBuilt { best_bid: _, block } => self.block_commands(block),
            JobEvent::Cancelled => seq![JobCommand::Finish(self.best_bid_made)],
            JobEvent::Signed { ok } => match self.phase {
                JobPhase::SigningNormal(block) if ok => seq![
                    JobCommand::Sign {
                        key: SigningKey::Optimistic,
                        bid_value: block.bid_value,
                    },
                ],
                JobPhase::SigningOptimistic(block) if ok => self.signed_commands(block),
                _ => seq![await_block()],
            },
            JobEvent::Validated(outcome) => (if self.phase is ValidatingDryRun {
                validation_effects(outcome, SigningKey::Normal)
            } else if outcome is Passed {
                self.to_optimistic_relays()
            } else {
                validation_effects(outcome, SigningKey::Optimistic)
            }) + seq![await_block()],
        }
    }
}

/// The job that submits the blocks of a slot.
#[derive(Debug)]
pub struct SubmitJob {
    config: SubmissionConfig,
    relays: Vec<MevBoostRelay>,
    normal_relays: Vec<usize>,
    optimistic_relays: Vec<usize>,
    last_bid_value: U256,
    best_bid_made: Option<BuiltBlockInfo>,
    phase: JobPhase,
}

impl View for SubmitJob {
    type V = JobState;

    closed spec fn view(&self) -> JobState {
        JobState {
            config: self.config,
            relays: self.relays@,
            last_bid_value: self.last_bid_value@,
            best_bid_made: self.best_bid_made,
            phase: self.phase,
        }
    }
}

/// Appends the submissions to the relays at some positions.
fn push_submissions(
    commands: &mut Vec<JobCommand>,
    relays: &Vec<usize>,
    key: SigningKey,
    optimistic: bool,
)
    ensures
        final(commands)@ == old(commands)@ + submissions(relays@, key, optimistic),
{
    let ghost before = commands@;
    for i in 0..relays.len()
        invariant
            commands@ == before + submissions(relays@.take(i as int), key, optimistic),
    {
        commands.push(JobCommand::Submit { relay: relays[i], key, optimistic });
        assert(submissions(relays@.take(i + 1), key, optimistic) =~= submissions(
            relays@.take(i as int),
            key,
            optimistic,
        ).push(commands@.last()));
    }
    assert(relays@.take(relays@.len() as int) =~= relays@);
}

/// Appends what is done about a validation, other than going on.
fn push_validation_effects(
    commands: &mut Vec<JobCommand>,
    outcome: ValidationOutcome,
    key: SigningKey,
)
    ensures
        final(commands)@ == old(commands)@ + validation_effects(outcome, key),
{
    match outcome {
        ValidationOutcome::Passed | ValidationOutcome::UnableToValidate(_) => {},
        ValidationOutcome::ValidationFailed(error) => {
            commands.push(JobCommand::IncFailedBlockSimulations);
            commands.push(
                JobCommand::StoreErrorEvent {
                    category: ErrorCategory::ValidateBlockSimulation,
                    error,
                    submission: key,
                },
            );
        },
    }
}

impl SubmitJob {
    #[verifier::type_invariant]
    spec fn relays_divided(self) -> bool {
        self.normal_relays@ == positions(self.relays@, false) && self.optimistic_relays@
            == positions(self.relays@, true)
    }

    /// A job that has done nothing yet.
    pub fn new(config: SubmissionConfig, relays: Vec<MevBoostRelay>) -> (r: Self)
        ensures
            r@ == JobState::fresh(config, relays@),
    {
        let (normal_relays, optimistic_relays) = divide_relays(&relays);
        SubmitJob {
            config,
            relays,
            normal_relays,
            optimistic_relays,
            last_bid_value: U256::zero(),
            best_bid_made: None,
            phase: JobPhase::Unstarted,
        }
    }

    /// How blocks are submitted.
    pub fn config(&self) -> (r: SubmissionConfig)
        ensures
            r == self@.config,
    {
        self.config
    }

    /// The relays, at the positions that the commands speak of.
    pub fn relays(&self) -> (r: &Vec<MevBoostRelay>)
        ensures
            r@ == self@.relays,
    {
        &self.relays
    }

    /// The bid that was competed with last.
    pub fn last_bid_value(&self) -> (r: U256)
        ensures
            r@ == self@.last_bid_value,
    {
        self.last_bid_value
    }

    /// Whether the job waits for `event`.
    pub fn expects(&self, event: &JobEvent) -> (r: bool)
        ensures
            r == self@.expects(*event),
    {
        match self.phase {
            JobPhase::Unstarted => match event {
                JobEvent::Started { slot_timestamp, now } => has_timestamps(
                    *slot_timestamp,
                    self.config.slot_delta_to_start_submits,
                    *now,
                ),
                _ => false,
            },
            JobPhase::Sleeping => match event {
                JobEvent::SleepOver => true,
                _ => false,
            },
            JobPhase::Idle => match event {
                JobEvent::BestBidChanged { .. }
                | JobEvent::PollDue { .. }
                | JobEvent::BlockBuilt { .. }
                | JobEvent::Cancelled => true,
                _ => false,
            },
            JobPhase::SigningNormal(_) | JobPhase::SigningOptimistic(_) => match event {
                JobEvent::Signed { .. } => true,
                _ => false,
            },
            JobPhase::ValidatingDryRun | JobPhase::Prevalidating(_) => match event {
                JobEvent::Validated(_) => true,
                _ => false,
            },
            JobPhase::Finished => false,
        }
    }

    /// Whether a block is to be submitted optimistically.
    fn submits_optimistically(&self, block: BuiltBlockInfo) -> (r: bool)
        ensures
            r == submits_optimistically(self@.config, block),
    {
        self.config.optimistic_enabled && block.bid_value.less_than(
            self.config.optimistic_max_bid_value,
        )
    }

    /// Starts on a block.
    fn start_block(&mut self, block: BuiltBlockInfo, last_bid_value: U256) -> (commands: Vec<
        JobCommand,
    >)
        ensures
            final(self)@ == old(self)@.with_block(block, last_bid_value@),
            commands@ == old(self)@.block_commands(block),
    {
        proof {
            use_type_invariant(&*self);
        }
        let optimistic = self.submits_optimistically(block);
        self.last_bid_value = last_bid_value;
        self.phase = JobPhase::SigningNormal(block);
        let mut commands: Vec<JobCommand> = Vec::new();
        commands.push(JobCommand::IncInitiatedSubmissions { optimistic });
        commands.push(
            JobCommand::Sign { key: SigningKey::Normal, bid_value: block.bid_value },
        );
        commands
    }

    /// Starts on the best block, where there is a new one.
    fn look_for_block(&mut self, best: U256, taken: Option<BuiltBlockInfo>) -> (commands: Vec<
        JobCommand,
    >)
        requires
            old(self)@.phase is Idle,
        ensures
            final(self)@ == old(self)@.after_look(best, taken),
            commands@ == (match taken {
                Some(block) => old(self)@.block_commands(block),
                None => seq![await_block()],
            }),
    {
        match taken {
            Some(block) => {
                let bid = best_bid_algo(block.bid_value, best);
                let last = if self.last_bid_value.less_than(bid) {
                    bid
                } else {
                    self.last_bid_value
                };
                self.start_block(block, last)
            },
            None => {
                let mut commands: Vec<JobCommand> = Vec::new();
                commands.push(JobCommand::AwaitBlock { poll_millis: BEST_BLOCK_POLL_MILLIS });
                commands
            },
        }
    }

    /// Takes note that a bid is made.
    fn note_bid(&mut self, block: BuiltBlockInfo)
        ensures
            final(self)@ == (JobState {
                best_bid_made: better_bid(old(self)@.best_bid_made, block),
                ..old(self)@
            }),
    {
        proof {
            use_type_invariant(&*self);
        }
        let better = match self.best_bid_made {
            Some(info) => info.bid_value.less_than(block.bid_value),
            None => true,
        };
        if better {
            self.best_bid_made = Some(block);
        }
    }

    /// Goes on with a block that both keys have signed.
    fn submit_block(&mut self, block: BuiltBlockInfo) -> (commands: Vec<JobCommand>)
        requires
            old(self)@.phase == JobPhase::SigningOptimistic(block),
        ensures
            final(self)@ == old(self)@.next(JobEvent::Signed { ok: true }),
            commands@ == old(self)@.signed_commands(block),
    {
        proof {
            use_type_invariant(&*self);
        }
        let ghost before = self@;
        let mut commands: Vec<JobCommand> = Vec::new();
        if self.config.dry_run {
            self.phase = JobPhase::ValidatingDryRun;
            commands.push(JobCommand::Validate(SigningKey::Normal));
            return commands;
        }
        let optimistic = self.submits_optimistically(block);
        let prevalidates = optimistic && self.config.optimistic_prevalidate_optimistic_blocks;
        commands.push(JobCommand::MeasureBlockLatency);
        push_submissions(&mut commands, &self.normal_relays, SigningKey::Normal, false);
        commands.push(JobCommand::FindBuilderTx);
        if self.normal_relays.len() > 0 || (!prevalidates && self.optimistic_relays.len() > 0) {
            self.note_bid(block);
        }
        proof {
            use_type_invariant(&*self);
        }
        if prevalidates {
            self.phase = JobPhase::Prevalidating(block);
            commands.push(JobCommand::Validate(SigningKey::Optimistic));
        } else {
            self.phase = JobPhase::Idle;
            if optimistic {
                push_submissions(
                    &mut commands,
                    &self.optimistic_relays,
                    SigningKey::Optimistic,
                    true,
                );
            } else {
                push_submissions(&mut commands, &self.optimistic_relays, SigningKey::Normal, false);
            }
            commands.push(JobCommand::AwaitBlock { poll_millis: BEST_BLOCK_POLL_MILLIS });
        }
        assert(commands@ =~= before.signed_commands(block));
        commands
    }

    /// Takes one step: tells what is to be done on `event`, in this order.
    pub fn run_submit_to_relays_job(&mut self, event: JobEvent) -> (commands: Vec<JobCommand>)
        requires
            old(self)@.expects(event),
        ensures
            final(self)@ == old(self)@.next(event),
            commands@ == old(self)@.commands(event),
    {
        proof {
            use_type_invariant(&*self);
        }
        let mut commands: Vec<JobCommand> = Vec::new();
        match event {
            JobEvent::Started { slot_timestamp, now } => {
                let sleep = sleep_before_submits(
                    slot_timestamp,
                    self.config.slot_delta_to_start_submits,
                    now,
                );
                match sleep {
                    Some(nanos) => {
                        self.phase = JobPhase::Sleeping;
                        commands.push(JobCommand::Sleep { nanos });
                    },
                    None => {
                        self.phase = JobPhase::Idle;
                        commands.push(JobCommand::AwaitBlock { poll_millis: BEST_BLOCK_POLL_MILLIS });
                    },
                }
            },
            JobEvent::SleepOver => {
                self.phase = JobPhase::Idle;
                commands.push(JobCommand::AwaitBlock { poll_millis: BEST_BLOCK_POLL_MILLIS });
            },
            JobEvent::BestBidChanged { best_bid, taken } => {
                return self.look_for_block(best_bid, taken);
            },
            JobEvent::PollDue { best_bid, taken } => {
                return self.look_for_block(best_bid, taken);
            },
            JobEvent::BlockBuilt { best_bid, block } => {
                let last = best_bid_algo(block.bid_value, best_bid);
                return self.start_block(block, last);
            },
            JobEvent::Signed { ok } => {
                if ok {
                    match self.phase {
                        JobPhase::SigningNormal(block) => {
                            self.phase = JobPhase::SigningOptimistic(block);
                            commands.push(
                                JobCommand::Sign {
                                    key: SigningKey::Optimistic,
                                    bid_value: block.bid_value,
                                },
                            );
                        },
                        JobPhase::SigningOptimistic(block) => {
                            return self.submit_block(block);
                        },
                        _ => {},
                    }
                } else {
                    self.phase = JobPhase::Idle;
                    commands.push(JobCommand::AwaitBlock { poll_millis: BEST_BLOCK_POLL_MILLIS });
                }
            },
            JobEvent::Validated(outcome) => {
                match self.phase {
                    JobPhase::Prevalidating(block) => match outcome {
                        ValidationOutcome::Passed => {
                            push_submissions(
                                &mut commands,
                                &self.optimistic_relays,
                                SigningKey::Optimistic,
                                true,
                            );
                            if self.optimistic_relays.len() > 0 {
                                self.note_bid(block);
                            }
                        },
                        _ => {
                            push_validation_effects(&mut commands, outcome, SigningKey::Optimistic);
                        },
                    },
                    _ => {
                        push_validation_effects(&mut commands, outcome, SigningKey::Normal);
                    },
                }
                proof {
                    use_type_invariant(&*self);
                }
                self.phase = JobPhase::Idle;
                commands.push(JobCommand::AwaitBlock { poll_millis: BEST_BLOCK_POLL_MILLIS });
            },
            JobEvent::Cancelled => {
                self.phase = JobPhase::Finished;
                commands.push(JobCommand::Finish(self.best_bid_made));
            },
        }
        commands
    }
}

} // verus!
