use relay_submit::error_events::ErrorCategory;
use relay_submit::relays::{divide_relays, MevBoostRelay};
use relay_submit::sink_factory::RelaySubmitSinkFactory;
use relay_submit::submit_job::{
    BuiltBlockInfo, JobCommand, JobEvent, SigningKey, SubmissionConfig, SubmitJob,
    ValidationOutcome, BEST_BLOCK_POLL_MILLIS,
};
use relay_submit::u256::U256;

fn relay(id: &str, optimistic: bool) -> MevBoostRelay {
    MevBoostRelay { id: id.to_string(), optimistic }
}

fn relays() -> Vec<MevBoostRelay> {
    vec![relay("a", true), relay("b", false), relay("c", true), relay("d", false)]
}

fn config() -> SubmissionConfig {
    SubmissionConfig {
        dry_run: false,
        optimistic_enabled: true,
        optimistic_max_bid_value: U256::from_u64(100),
        optimistic_prevalidate_optimistic_blocks: false,
        slot_delta_to_start_submits: -1_000_000_000,
    }
}

fn block(bid: u64) -> BuiltBlockInfo {
    BuiltBlockInfo { bid_value: U256::from_u64(bid), true_bid_value: U256::from_u64(bid / 2) }
}

const SLOT: i128 = 1_724_166_211_000_000_000;

fn started(now: i128) -> JobEvent {
    JobEvent::Started { slot_timestamp: SLOT, now }
}

/// A job whose submissions have started.
fn started_job(config: SubmissionConfig, relays: Vec<MevBoostRelay>) -> SubmitJob {
    let mut job = SubmitJob::new(config, relays);
    let commands = step(&mut job, started(SLOT));
    assert_eq!(commands.len(), 1);
    assert!(matches!(commands[0], JobCommand::AwaitBlock { poll_millis: 50 }));
    job
}

fn built(bid: u64) -> JobEvent {
    JobEvent::BlockBuilt { best_bid: U256::from_u64(60), block: block(bid) }
}

fn step(job: &mut SubmitJob, event: JobEvent) -> Vec<JobCommand> {
    assert!(job.expects(&event));
    job.run_submit_to_relays_job(event)
}

fn sign(job: &mut SubmitJob, event: JobEvent) -> Vec<JobCommand> {
    let commands = step(job, event);
    assert_eq!(commands.len(), 2);
    assert!(matches!(commands[1], JobCommand::Sign { key: SigningKey::Normal, .. }));
    let commands = step(job, JobEvent::Signed { ok: true });
    assert_eq!(commands.len(), 1);
    assert!(matches!(commands[0], JobCommand::Sign { key: SigningKey::Optimistic, .. }));
    step(job, JobEvent::Signed { ok: true })
}

fn submits(commands: &[JobCommand]) -> Vec<(usize, SigningKey, bool)> {
    let mut all = vec![];
    for command in commands {
        if let JobCommand::Submit { relay, key, optimistic } = command {
            all.push((*relay, *key, *optimistic));
        }
    }
    all
}

fn normally(relays: &[usize]) -> Vec<(usize, SigningKey, bool)> {
    relays.iter().map(|r| (*r, SigningKey::Normal, false)).collect()
}

fn optimistically(relays: &[usize]) -> Vec<(usize, SigningKey, bool)> {
    relays.iter().map(|r| (*r, SigningKey::Optimistic, true)).collect()
}

#[test]
fn relays_are_divided_by_kind() {
    assert_eq!(divide_relays(&relays()), (vec![1, 3], vec![0, 2]));
    assert_eq!(divide_relays(&vec![]), (vec![], vec![]));
}

#[test]
fn optimistic_block_goes_to_all_relays() {
    let mut job = started_job(config(), relays());
    let first = step(&mut job, built(50));
    assert!(matches!(first[0], JobCommand::IncInitiatedSubmissions { optimistic: true }));
    step(&mut job, JobEvent::Signed { ok: true });
    let commands = step(&mut job, JobEvent::Signed { ok: true });
    assert!(matches!(commands[0], JobCommand::MeasureBlockLatency));
    assert!(matches!(commands[3], JobCommand::FindBuilderTx));
    assert!(matches!(commands[6], JobCommand::AwaitBlock { poll_millis: 50 }));
    assert_eq!(commands.len(), 7);
    let mut expected = normally(&[1, 3]);
    expected.extend(optimistically(&[0, 2]));
    assert_eq!(submits(&commands), expected);
}

#[test]
fn high_bid_is_submitted_normally() {
    let mut job = started_job(config(), relays());
    let commands = sign(&mut job, built(100));
    assert_eq!(submits(&commands), normally(&[1, 3, 0, 2]));
    let commands = sign(&mut job, built(99));
    assert_eq!(submits(&commands)[2..], optimistically(&[0, 2]));
}

#[test]
fn disabled_optimism_is_submitted_normally() {
    let mut config = config();
    config.optimistic_enabled = false;
    config.optimistic_prevalidate_optimistic_blocks = true;
    let mut job = started_job(config, relays());
    let first = step(&mut job, built(1));
    assert!(matches!(first[0], JobCommand::IncInitiatedSubmissions { optimistic: false }));
    step(&mut job, JobEvent::Signed { ok: true });
    let commands = step(&mut job, JobEvent::Signed { ok: true });
    assert_eq!(submits(&commands), normally(&[1, 3, 0, 2]));
    assert!(matches!(commands.last(), Some(JobCommand::AwaitBlock { poll_millis: 50 })));
}

#[test]
fn prevalidated_block_waits_for_its_validation() {
    let mut config = config();
    config.optimistic_prevalidate_optimistic_blocks = true;
    let mut job = started_job(config, relays());
    let commands = sign(&mut job, built(50));
    assert_eq!(submits(&commands), normally(&[1, 3]));
    assert!(matches!(commands.last(), Some(JobCommand::Validate(SigningKey::Optimistic))));
    let commands = step(&mut job, JobEvent::Validated(ValidationOutcome::Passed));
    assert_eq!(submits(&commands), optimistically(&[0, 2]));
    assert!(matches!(commands.last(), Some(JobCommand::AwaitBlock { poll_millis: 50 })));

    sign(&mut job, built(50));
    let unable = ValidationOutcome::UnableToValidate("no answer".to_string());
    let commands = step(&mut job, JobEvent::Validated(unable));
    assert_eq!(commands.len(), 1);
    assert!(matches!(commands[0], JobCommand::AwaitBlock { poll_millis: 50 }));

    sign(&mut job, built(50));
    let failed = ValidationOutcome::ValidationFailed("bad state root".to_string());
    let commands = step(&mut job, JobEvent::Validated(failed));
    assert_eq!(commands.len(), 3);
    assert!(matches!(commands[0], JobCommand::IncFailedBlockSimulations));
    match &commands[1] {
        JobCommand::StoreErrorEvent { category, error, submission } => {
            assert_eq!(*category, ErrorCategory::ValidateBlockSimulation);
            assert_eq!(category.name(), "validate_block_simulation");
            assert_eq!(error, "bad state root");
            assert_eq!(*submission, SigningKey::Optimistic);
        }
        other => panic!("{:?}", other),
    }
    assert!(matches!(commands[2], JobCommand::AwaitBlock { poll_millis: 50 }));
}

#[test]
fn dry_run_only_validates() {
    let mut config = config();
    config.dry_run = true;
    config.optimistic_prevalidate_optimistic_blocks = true;
    let mut job = started_job(config, relays());
    let commands = sign(&mut job, built(50));
    assert_eq!(commands.len(), 1);
    assert!(matches!(commands[0], JobCommand::Validate(SigningKey::Normal)));
    let commands = step(&mut job, JobEvent::Validated(ValidationOutcome::Passed));
    assert_eq!(commands.len(), 1);
    assert!(matches!(commands[0], JobCommand::AwaitBlock { poll_millis: 50 }));
    sign(&mut job, built(50));
    let failed = ValidationOutcome::ValidationFailed("bad".to_string());
    let commands = step(&mut job, JobEvent::Validated(failed));
    assert_eq!(commands.len(), 3);
    assert!(matches!(
        commands[1],
        JobCommand::StoreErrorEvent { submission: SigningKey::Normal, .. }
    ));
    let commands = step(&mut job, JobEvent::Cancelled);
    assert!(matches!(commands[0], JobCommand::Finish(None)));
}

#[test]
fn unsigned_block_is_dropped() {
    let mut job = started_job(config(), relays());
    step(&mut job, built(50));
    let commands = step(&mut job, JobEvent::Signed { ok: false });
    assert_eq!(commands.len(), 1);
    assert!(matches!(commands[0], JobCommand::AwaitBlock { poll_millis: 50 }));
    step(&mut job, built(50));
    step(&mut job, JobEvent::Signed { ok: true });
    let commands = step(&mut job, JobEvent::Signed { ok: false });
    assert_eq!(commands.len(), 1);
    assert!(matches!(commands[0], JobCommand::AwaitBlock { poll_millis: 50 }));
    let commands = step(&mut job, JobEvent::Cancelled);
    assert!(matches!(commands[0], JobCommand::Finish(None)));
}

#[test]
fn best_bid_made_is_returned() {
    let mut job = started_job(config(), relays());
    sign(&mut job, built(50));
    sign(&mut job, built(70));
    sign(&mut job, built(60));
    let commands = step(&mut job, JobEvent::Cancelled);
    assert_eq!(commands.len(), 1);
    match &commands[0] {
        JobCommand::Finish(best) => assert_eq!(*best, Some(block(70))),
        other => panic!("{:?}", other),
    }
    assert!(!job.expects(&built(50)));
    assert!(!job.expects(&JobEvent::Cancelled));
}

fn finish(job: &mut SubmitJob) -> Option<BuiltBlockInfo> {
    let commands = step(job, JobEvent::Cancelled);
    assert_eq!(commands.len(), 1);
    match commands[0] {
        JobCommand::Finish(best) => best,
        ref other => panic!("{:?}", other),
    }
}

fn prevalidating(relays: Vec<MevBoostRelay>) -> SubmitJob {
    let mut config = config();
    config.optimistic_prevalidate_optimistic_blocks = true;
    started_job(config, relays)
}

#[test]
fn block_that_fails_its_validation_is_no_bid() {
    let optimistic = || vec![relay("a", true), relay("c", true)];
    for outcome in [
        ValidationOutcome::UnableToValidate("no answer".to_string()),
        ValidationOutcome::ValidationFailed("bad".to_string()),
    ] {
        let mut job = prevalidating(optimistic());
        assert!(submits(&sign(&mut job, built(50))).is_empty());
        let commands = step(&mut job, JobEvent::Validated(outcome));
        assert!(submits(&commands).is_empty());
        assert_eq!(finish(&mut job), None);
    }
    let mut job = prevalidating(optimistic());
    sign(&mut job, built(50));
    step(&mut job, JobEvent::Validated(ValidationOutcome::Passed));
    sign(&mut job, built(70));
    step(&mut job, JobEvent::Validated(ValidationOutcome::ValidationFailed("bad".to_string())));
    assert_eq!(finish(&mut job), Some(block(50)));
}

#[test]
fn block_that_went_to_other_relays_is_a_bid_whatever_its_validation() {
    let mut job = prevalidating(relays());
    sign(&mut job, built(50));
    step(&mut job, JobEvent::Validated(ValidationOutcome::ValidationFailed("bad".to_string())));
    assert_eq!(finish(&mut job), Some(block(50)));
    let mut job = prevalidating(vec![relay("b", false)]);
    sign(&mut job, built(50));
    let commands = step(&mut job, JobEvent::Validated(ValidationOutcome::Passed));
    assert!(submits(&commands).is_empty());
    assert_eq!(finish(&mut job), Some(block(50)));
}

#[test]
fn without_relays_no_bid_is_made() {
    let mut job = started_job(config(), vec![]);
    assert!(submits(&sign(&mut job, built(50))).is_empty());
    assert!(submits(&sign(&mut job, built(200))).is_empty());
    assert_eq!(finish(&mut job), None);
    let mut job = prevalidating(vec![]);
    sign(&mut job, built(50));
    step(&mut job, JobEvent::Validated(ValidationOutcome::Passed));
    assert_eq!(finish(&mut job), None);
}

#[test]
fn optimistic_relays_alone_make_a_bid() {
    let mut job = started_job(config(), vec![relay("a", true)]);
    assert_eq!(submits(&sign(&mut job, built(50))), optimistically(&[0]));
    assert_eq!(finish(&mut job), Some(block(50)));
    let mut job = started_job(config(), vec![relay("a", true)]);
    assert_eq!(submits(&sign(&mut job, built(500))), normally(&[0]));
    assert_eq!(finish(&mut job), Some(block(500)));
}

#[test]
fn nothing_starts_before_its_time() {
    let mut job = SubmitJob::new(config(), relays());
    assert!(!job.expects(&built(50)));
    assert!(!job.expects(&JobEvent::SleepOver));
    assert!(!job.expects(&JobEvent::Cancelled));
    let commands = step(&mut job, started(SLOT - 3_000_000_000));
    assert_eq!(commands.len(), 1);
    assert!(matches!(commands[0], JobCommand::Sleep { nanos: 2_000_000_000 }));
    assert!(!job.expects(&built(50)));
    assert!(!job.expects(&started(SLOT)));
    assert!(!job.expects(&JobEvent::Cancelled));
    let commands = step(&mut job, JobEvent::SleepOver);
    assert_eq!(commands.len(), 1);
    assert!(matches!(commands[0], JobCommand::AwaitBlock { poll_millis: 50 }));
    assert!(job.expects(&built(50)));
    assert!(!job.expects(&started(SLOT)));
    assert!(!job.expects(&JobEvent::SleepOver));
}

#[test]
fn late_job_does_not_sleep() {
    for now in [SLOT - 1_000_000_000, SLOT, SLOT + 1_000_000_000_000] {
        let mut job = SubmitJob::new(config(), relays());
        let commands = step(&mut job, started(now));
        assert_eq!(commands.len(), 1);
        assert!(matches!(commands[0], JobCommand::AwaitBlock { poll_millis: 50 }));
    }
    let mut job = SubmitJob::new(config(), relays());
    let commands = step(&mut job, started(SLOT - 1_000_000_001));
    assert!(matches!(commands[0], JobCommand::Sleep { nanos: 1 }));
}

#[test]
fn times_outside_the_calendar_are_not_expected() {
    let job = SubmitJob::new(config(), relays());
    assert!(!job.expects(&JobEvent::Started { slot_timestamp: i128::MAX, now: SLOT }));
    assert!(!job.expects(&JobEvent::Started { slot_timestamp: SLOT, now: i128::MIN }));
    let first = -377_705_116_800_000_000_000;
    assert!(!job.expects(&JobEvent::Started { slot_timestamp: first, now: SLOT }));
    let slot_timestamp = first + 1_000_000_000;
    assert!(job.expects(&JobEvent::Started { slot_timestamp, now: SLOT }));
}

#[test]
fn block_is_signed_with_its_own_bid() {
    let mut job = started_job(config(), relays());
    let best_bid = U256::from_u64(7);
    let commands = step(&mut job, JobEvent::BlockBuilt { best_bid, block: block(50) });
    assert_eq!(job.last_bid_value(), best_bid);
    match commands[1] {
        JobCommand::Sign { key, bid_value } => {
            assert_eq!(key, SigningKey::Normal);
            assert_eq!(bid_value, U256::from_u64(50));
        }
        ref other => panic!("{:?}", other),
    }
    let commands = step(&mut job, JobEvent::Signed { ok: true });
    match commands[0] {
        JobCommand::Sign { key, bid_value } => {
            assert_eq!(key, SigningKey::Optimistic);
            assert_eq!(bid_value, U256::from_u64(50));
        }
        ref other => panic!("{:?}", other),
    }
}

#[test]
fn look_without_a_block_goes_on_waiting() {
    let mut job = started_job(config(), relays());
    let commands =
        step(&mut job, JobEvent::BestBidChanged { best_bid: U256::from_u64(9), taken: None });
    assert_eq!(commands.len(), 1);
    assert!(matches!(commands[0], JobCommand::AwaitBlock { poll_millis: 50 }));
    let commands = step(&mut job, JobEvent::PollDue { best_bid: U256::from_u64(9), taken: None });
    assert_eq!(commands.len(), 1);
    assert!(matches!(commands[0], JobCommand::AwaitBlock { poll_millis: 50 }));
    assert_eq!(job.last_bid_value(), U256::zero());
}

#[test]
fn bid_competed_with_rises_on_looks_and_is_set_by_built_blocks() {
    let mut job = started_job(config(), relays());
    let taken = Some(block(40));
    sign(&mut job, JobEvent::BestBidChanged { best_bid: U256::from_u64(30), taken });
    assert_eq!(job.last_bid_value(), U256::from_u64(30));
    sign(&mut job, JobEvent::BestBidChanged { best_bid: U256::from_u64(20), taken });
    assert_eq!(job.last_bid_value(), U256::from_u64(30));
    sign(&mut job, JobEvent::PollDue { best_bid: U256::from_u64(50), taken });
    assert_eq!(job.last_bid_value(), U256::from_u64(40));
    sign(&mut job, JobEvent::PollDue { best_bid: U256::from_u64(10), taken });
    assert_eq!(job.last_bid_value(), U256::from_u64(40));
    sign(&mut job, JobEvent::BlockBuilt { best_bid: U256::from_u64(5), block: block(40) });
    assert_eq!(job.last_bid_value(), U256::from_u64(5));
}

#[test]
fn job_waits_for_one_thing_at_a_time() {
    let mut job = started_job(config(), relays());
    assert!(!job.expects(&JobEvent::Signed { ok: true }));
    assert!(!job.expects(&JobEvent::Validated(ValidationOutcome::Passed)));
    step(&mut job, built(50));
    assert!(!job.expects(&built(50)));
    assert!(!job.expects(&JobEvent::Cancelled));
    assert!(job.expects(&JobEvent::Signed { ok: false }));
}

#[test]
fn poll_interval() {
    assert_eq!(BEST_BLOCK_POLL_MILLIS, 50);
}

#[test]
fn factory_finds_the_relays_of_a_slot() {
    let factory = RelaySubmitSinkFactory::new(config(), relays());
    let ids = vec!["d".to_string(), "a".to_string(), "d".to_string()];
    assert_eq!(factory.missing_relay(&ids), None);
    let sink = factory.create_builder_sink(&ids);
    let found: Vec<(&str, bool)> =
        sink.job.relays().iter().map(|r| (r.id.as_str(), r.optimistic)).collect();
    assert_eq!(found, vec![("d", false), ("a", true), ("d", false)]);
    assert_eq!(sink.relay_positions, vec![3, 0, 3]);
    assert_eq!(sink.job.config().slot_delta_to_start_submits, -1_000_000_000);
    assert_eq!(sink.top_bid_watcher.best_bid(), U256::zero());
}

#[test]
fn factory_tells_what_is_missing() {
    let factory = RelaySubmitSinkFactory::new(config(), relays());
    let ids = vec!["a".to_string(), "e".to_string(), "f".to_string()];
    assert_eq!(factory.missing_relay(&ids), Some(1));
    assert_eq!(factory.missing_relay(&vec![]), None);
}

#[test]
fn last_relay_of_a_name_counts() {
    let mut relays = relays();
    relays.push(relay("a", false));
    let factory = RelaySubmitSinkFactory::new(config(), relays);
    let sink = factory.create_builder_sink(&vec!["a".to_string()]);
    assert!(!sink.job.relays()[0].optimistic);
    assert_eq!(sink.relay_positions, vec![4]);
}
