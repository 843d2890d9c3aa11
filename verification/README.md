# relay_submit

Follows the top bid that a relay announces and submits the blocks of a block builder to relays.
The decisions are a library that Verus verifies; the network, the clock and the counters are
ordinary Rust around it.

* `src/socket_bid.rs`: the updates of the feed (SSZ, text) and the watcher that reads them.
* `src/best_bid.rs`: the bid to compete with.
* `src/submit_job.rs`: the job of a slot, as a state machine from events to commands.
* `src/submit_laws.rs`: what holds of every run of that job.
* `src/relay_submission.rs`: what is done about the answer of a relay.
* `src/relays.rs`, `src/sink_factory.rs`: the relays of a slot, and the making of its job.
* `src/builder_tx.rs`, `src/submit_time.rs`, `src/validation.rs`, `src/metrics.rs`,
  `src/error_events.rs`: smaller rules.
* `src/u256.rs`, `src/primitives.rs`, `src/ssz_layout.rs`, `src/text.rs`: numbers, byte strings
  and their encodings. Most calls into other crates are here, each in a function of its own whose
  comment says what is trusted about the call.
* `app/`: carries out what the library decides. The rest of the block builder (signing, the
  validation service, relay clients, counters) enters through the traits of `app/host.rs`.
