use relay_submit::primitives::{Address, B256, BlsPublicKey};
use relay_submit::socket_bid::{
    ConnectionAction, ConnectionEvent, ConnectionStatus, DecodeError, InvalidDataLength, RunAction,
    RunEvent, RunWarning, TopBidUpdate, TopBidWatcher, WsMessage, FIRST_PING_SECS,
    PING_INTERVAL_SECS, TOP_BID_URL,
};
use relay_submit::u256::U256;

fn update() -> TopBidUpdate {
    let mut hash = [0u8; 32];
    hash[0] = 0x9e;
    hash[31] = 0x26;
    TopBidUpdate {
        timestamp: 1724166211929,
        slot: 9778516,
        block_number: 20570605,
        block_hash: B256 { bytes: hash },
        parent_hash: B256 { bytes: [0xb9; 32] },
        builder_pubkey: BlsPublicKey { bytes: [0xab; 48] },
        fee_recipient: Address { bytes: [0x0c; 20] },
        value: U256::from_u64(6153518710975100110),
    }
}

fn assert_same(a: &TopBidUpdate, b: &TopBidUpdate) {
    assert_eq!(a.timestamp, b.timestamp);
    assert_eq!(a.slot, b.slot);
    assert_eq!(a.block_number, b.block_number);
    assert_eq!(a.block_hash, b.block_hash);
    assert_eq!(a.parent_hash, b.parent_hash);
    assert_eq!(a.builder_pubkey, b.builder_pubkey);
    assert_eq!(a.fee_recipient, b.fee_recipient);
    assert_eq!(a.value, b.value);
}

#[test]
fn update_is_laid_out_field_by_field() {
    let bytes = update().as_ssz_bytes();
    assert_eq!(bytes.len(), 188);
    assert_eq!(bytes[0..8], [89, 137, 80, 112, 145, 1, 0, 0]);
    assert_eq!(bytes[8..16], [84, 53, 149, 0, 0, 0, 0, 0]);
    assert_eq!(bytes[16..24], [237, 225, 57, 1, 0, 0, 0, 0]);
    assert_eq!(bytes[24], 0x9e);
    assert_eq!(bytes[55], 0x26);
    assert_eq!(bytes[56..88], [0xb9; 32]);
    assert_eq!(bytes[88..136], [0xab; 48]);
    assert_eq!(bytes[136..156], [0x0c; 20]);
    assert_eq!(bytes[156..164], 6153518710975100110u64.to_le_bytes());
    assert_eq!(bytes[164..188], [0; 24]);
}

#[test]
fn update_reads_back() {
    let bytes = update().as_ssz_bytes();
    assert_same(&TopBidUpdate::from_bytes(&bytes).unwrap(), &update());
    assert_same(&TopBidUpdate::from_ssz_bytes(&bytes).unwrap(), &update());
}

#[test]
fn bytes_write_back() {
    let bytes: Vec<u8> = (0..188u32).map(|i| (i * 7 + 3) as u8).collect();
    let update = TopBidUpdate::from_bytes(&bytes).unwrap();
    assert_eq!(update.as_ssz_bytes(), bytes);
    assert_eq!(update.value.limb0.to_le_bytes(), bytes[156..164]);
    assert_eq!(update.value.limb3.to_le_bytes(), bytes[180..188]);
}

#[test]
fn data_of_another_length_is_no_update() {
    for len in [0usize, 1, 148, 187, 189, 376] {
        let data = vec![1u8; len];
        let e = TopBidUpdate::from_bytes(&data).unwrap_err();
        assert_eq!(e, InvalidDataLength);
        assert_eq!(e.message(), "Invalid data length");
        assert_eq!(
            TopBidUpdate::from_ssz_bytes(&data).unwrap_err(),
            DecodeError::InvalidByteLength { len, expected: 188 }
        );
    }
}

#[test]
fn update_as_text() {
    let text = update().to_string();
    let expected = format!(
        "TopBidUpdate {{ timestamp: 1724166211929, slot: 9778516, block_number: 20570605, \
         block_hash: 0x9e{}26, parent_hash: 0x{}, builder_pubkey: 0x{}, fee_recipient: 0x{}, \
         value: 6153518710975100110 }}",
        "00".repeat(30),
        "b9".repeat(32),
        "ab".repeat(48),
        "0c".repeat(20)
    );
    assert_eq!(text, expected);
}

#[test]
fn highest_value_as_text() {
    let mut update = update();
    update.value = U256 { limb0: u64::MAX, limb1: u64::MAX, limb2: u64::MAX, limb3: u64::MAX };
    assert!(update.to_string().ends_with(
        "value: 115792089237316195423570985008687907853269984665640564039457584007913129639935 }"
    ));
    update.value = U256 { limb0: 0, limb1: 0, limb2: 1, limb3: 0 };
    assert!(update.to_string().ends_with("value: 340282366920938463463374607431768211456 }"));
    update.value = U256::zero();
    assert!(update.to_string().ends_with("value: 0 }"));
}

#[test]
fn update_is_published() {
    let mut watcher = TopBidWatcher::new();
    assert_eq!(watcher.best_bid(), U256::zero());
    let event = ConnectionEvent::Message(WsMessage::Binary(update().as_ssz_bytes()));
    let action = watcher.handle_connection(&event);
    assert_eq!(action, ConnectionAction::Publish(update().value));
    assert_eq!(watcher.after_action(action, true), ConnectionStatus::Open);
    assert_eq!(watcher.best_bid(), update().value);
}

#[test]
fn update_without_subscribers_fails_the_connection() {
    let mut watcher = TopBidWatcher::new();
    let event = ConnectionEvent::Message(WsMessage::Binary(update().as_ssz_bytes()));
    let action = watcher.handle_connection(&event);
    assert_eq!(watcher.after_action(action, false), ConnectionStatus::Failed);
    assert_eq!(watcher.best_bid(), U256::zero());
}

#[test]
fn undecodable_data_is_survived() {
    let mut watcher = TopBidWatcher::new();
    let event = ConnectionEvent::Message(WsMessage::Binary(vec![0; 148]));
    let action = watcher.handle_connection(&event);
    assert_eq!(action, ConnectionAction::WarnUndecodable(InvalidDataLength));
    assert_eq!(watcher.after_action(action, true), ConnectionStatus::Open);
    assert_eq!(watcher.best_bid(), U256::zero());
}

#[test]
fn other_messages_are_answered() {
    let mut watcher = TopBidWatcher::new();
    let ping = watcher.handle_connection(&ConnectionEvent::Message(WsMessage::Ping));
    assert_eq!(ping, ConnectionAction::SendPong);
    assert_eq!(watcher.after_action(ping, true), ConnectionStatus::Open);
    assert_eq!(watcher.after_action(ping, false), ConnectionStatus::Failed);
    let tick = watcher.handle_connection(&ConnectionEvent::PingDue);
    assert_eq!(tick, ConnectionAction::SendPing);
    assert_eq!(watcher.after_action(tick, true), ConnectionStatus::Open);
    assert_eq!(watcher.after_action(tick, false), ConnectionStatus::Failed);
    let close = watcher.handle_connection(&ConnectionEvent::Message(WsMessage::Close));
    assert_eq!(close, ConnectionAction::Finish);
    assert_eq!(watcher.after_action(close, true), ConnectionStatus::Finished);
    let broken = watcher.handle_connection(&ConnectionEvent::ReadFailed);
    assert_eq!(broken, ConnectionAction::Fail);
    assert_eq!(watcher.after_action(broken, true), ConnectionStatus::Failed);
    for message in [WsMessage::Text, WsMessage::Pong, WsMessage::Frame] {
        let action = watcher.handle_connection(&ConnectionEvent::Message(message));
        assert_eq!(action, ConnectionAction::Ignore);
        assert_eq!(watcher.after_action(action, true), ConnectionStatus::Open);
    }
    assert_eq!(watcher.best_bid(), U256::zero());
}

#[test]
fn last_update_is_what_is_known() {
    let mut watcher = TopBidWatcher::new();
    let mut lower = update();
    lower.value = U256::from_u64(3);
    let events = [
        ConnectionEvent::Message(WsMessage::Binary(update().as_ssz_bytes())),
        ConnectionEvent::Message(WsMessage::Ping),
        ConnectionEvent::Message(WsMessage::Binary(lower.as_ssz_bytes())),
        ConnectionEvent::Message(WsMessage::Binary(vec![9; 189])),
        ConnectionEvent::Message(WsMessage::Text),
        ConnectionEvent::PingDue,
    ];
    for event in &events {
        let action = watcher.handle_connection(event);
        assert_eq!(watcher.after_action(action, true), ConnectionStatus::Open);
    }
    assert_eq!(watcher.best_bid(), U256::from_u64(3));
}

#[test]
fn watcher_hands_on_a_thousand_updates() {
    let mut watcher = TopBidWatcher::new();
    let mut updates_count = 0u32;
    for value in 1..=1000u64 {
        let mut update = update();
        update.value = U256::from_u64(value);
        let event = ConnectionEvent::Message(WsMessage::Binary(update.as_ssz_bytes()));
        let action = watcher.handle_connection(&event);
        assert_eq!(watcher.after_action(action, true), ConnectionStatus::Open);
        assert_ne!(watcher.best_bid(), U256::zero());
        assert_eq!(watcher.best_bid(), U256::from_u64(value));
        updates_count += 1;
    }
    assert_eq!(updates_count, 1000);
}

#[test]
fn watcher_reconnects_for_ever() {
    let watcher = TopBidWatcher::new();
    let url = "ws://relay-builders-eu.ultrasound.money/ws/v1/top_bid";
    assert_eq!(watcher.run(RunEvent::Started), RunAction::Connect { url });
    assert_eq!(
        watcher.run(RunEvent::Connected),
        RunAction::HandleConnection { first_ping_secs: 0, ping_interval_secs: 30 }
    );
    assert_eq!(
        watcher.run(RunEvent::ConnectFailed),
        RunAction::Delay { warning: Some(RunWarning::FailedToConnect), secs: 5 }
    );
    assert_eq!(
        watcher.run(RunEvent::ConnectionFinished),
        RunAction::Delay { warning: None, secs: 5 }
    );
    assert_eq!(
        watcher.run(RunEvent::ConnectionFailed),
        RunAction::Delay { warning: Some(RunWarning::WebSocketError), secs: 5 }
    );
    assert_eq!(watcher.run(RunEvent::DelayOver), RunAction::Connect { url });
}

#[test]
fn one_connection_is_open_at_a_time() {
    let watcher = TopBidWatcher::new();
    let mut open = 0;
    let mut connections = 0;
    let mut event = RunEvent::Started;
    while connections < 4 || open > 0 {
        event = match watcher.run(event) {
            RunAction::Connect { .. } => {
                assert_eq!(open, 0);
                if event == RunEvent::Started {
                    RunEvent::ConnectFailed
                } else {
                    open += 1;
                    connections += 1;
                    RunEvent::Connected
                }
            }
            RunAction::HandleConnection { .. } => {
                assert_eq!(open, 1);
                open -= 1;
                if connections % 2 == 0 {
                    RunEvent::ConnectionFinished
                } else {
                    RunEvent::ConnectionFailed
                }
            }
            RunAction::Delay { secs, .. } => {
                assert_eq!(open, 0);
                assert_eq!(secs, 5);
                RunEvent::DelayOver
            }
        };
    }
    assert_eq!(connections, 4);
}

#[test]
fn feed_settings() {
    assert_eq!(TOP_BID_URL, "ws://relay-builders-eu.ultrasound.money/ws/v1/top_bid");
    assert_eq!(FIRST_PING_SECS, 0);
    assert_eq!(PING_INTERVAL_SECS, 30);
}
