//! The feed of top bids of a relay: the updates that it sends and the watcher that reads them.

use vstd::arithmetic::power::pow;
use vstd::prelude::*;

use crate::primitives::{Address, B256, BlsPublicKey};
use crate::ssz_layout::{
    append_u64, byte_counts, le_bytes, le_bytes_len, le_bytes_read_back, le_value, le_value_bound,
    le_value_has_the_bytes_as_digits, le_value_of_eight_bytes, le_value_writes_back, u64_from_ssz,
};
use crate::text::{decimal, lower_hex, u64_to_decimal};
use crate::u256::{u256_bound, u256_is_bounded, U256};

verus! {

/// Where the relay offers its feed.
pub const TOP_BID_URL: &'static str = "ws://relay-builders-eu.ultrasound.money/ws/v1/top_bid";

/// Seconds between the start of a connection and the first ping on it, which is due at once.
pub const FIRST_PING_SECS: u64 = 0;

/// Seconds between two pings on an open connection.
pub const PING_INTERVAL_SECS: u64 = 30;

/// Seconds between the end of a connection and the next attempt.
pub const RECONNECT_DELAY_SECS: u64 = 5;

/// The length of an update in SSZ, in bytes.
pub const UPDATE_LEN: usize = 188;

/// The top bid of a slot, as the relay announces it.
#[derive(Debug, Clone, Copy)]
pub struct TopBidUpdate {
    pub timestamp: u64,
    pub slot: u64,
    pub block_number: u64,
    pub block_hash: B256,
    pub parent_hash: B256,
    pub builder_pubkey: BlsPublicKey,
    pub fee_recipient: Address,
    pub value: U256,
}

/// What a [`TopBidUpdate`] says.
#[verifier::ext_equal]
pub struct TopBid {
    pub timestamp: u64,
    pub slot: u64,
    pub block_number: u64,
    pub block_hash: Seq<u8>,
    pub parent_hash: Seq<u8>,
    pub builder_pubkey: Seq<u8>,
    pub fee_recipient: Seq<u8>,
    pub value: nat,
}

impl View for TopBidUpdate {
    type V = TopBid;

    open spec fn view(&self) -> TopBid {
        TopBid {
            timestamp: self.timestamp,
            slot: self.slot,
            block_number: self.block_number,
            block_hash: self.block_hash@,
            parent_hash: self.parent_hash@,
            builder_pubkey: self.builder_pubkey@,
            fee_recipient: self.fee_recipient@,
            value: self.value@,
        }
    }
}

impl TopBid {
    /// Whether some [`TopBidUpdate`] can say this.
    pub open spec fn wf(self) -> bool {
        &&& self.block_hash.len() == 32
        &&& self.parent_hash.len() == 32
        &&& self.builder_pubkey.len() == 48
        &&& self.fee_recipient.len() == 20
        &&& self.value < u256_bound()
    }

    /// The update in SSZ: the fields in their order, integers with the least significant byte
    /// first.
    pub open spec fn encoding(self) -> Seq<u8> {
        le_bytes(self.timestamp as nat, 8) + le_bytes(self.slot as nat, 8) + le_bytes(
            self.block_number as nat,
            8,
        ) + self.block_hash + self.parent_hash + self.builder_pubkey + self.fee_recipient
            + le_bytes(self.value, 32)
    }

    /// The update that 188 bytes in SSZ stand for.
    pub open spec fn decoded(data: Seq<u8>) -> TopBid {
        TopBid {
            timestamp: le_value(data.subrange(0, 8)) as u64,
            slot: le_value(data.subrange(8, 16)) as u64,
            block_number: le_value(data.subrange(16, 24)) as u64,
            block_hash: data.subrange(24, 56),
            parent_hash: data.subrange(56, 88),
            builder_pubkey: data.subrange(88, 136),
            fee_recipient: data.subrange(136, 156),
            value: le_value(data.subrange(156, 188)),
        }
    }

    /// The update as text.
    pub open spec fn text(self) -> Seq<char> {
        "TopBidUpdate { timestamp: "@ + decimal(self.timestamp as nat) + ", slot: "@ + decimal(
            self.slot as nat,
        ) + ", block_number: "@ + decimal(self.block_number as nat) + ", block_hash: 0x"@
            + lower_hex(self.block_hash) + ", parent_hash: 0x"@ + lower_hex(self.parent_hash)
            + ", builder_pubkey: 0x"@ + lower_hex(self.builder_pubkey) + ", fee_recipient: 0x"@
            + lower_hex(self.fee_recipient) + ", value: "@ + decimal(self.value) + " }"@
    }
}

/// Why bytes are no update in SSZ.
#[derive(Debug, Clone, Copy, PartialEq, Eq, Structural)]
pub enum DecodeError {
    /// There are `len` bytes where an update has `expected`.
    InvalidByteLength { len: usize, expected: usize },
}

/// The error of [`TopBidUpdate::from_bytes`]: the data does not have the length of an update.
#[derive(Debug, Clone, Copy, PartialEq, Eq, Structural)]
pub struct InvalidDataLength;

impl InvalidDataLength {
    /// The error as text.
    pub fn message(&self) -> (r: &'static str)
        ensures
            r@ == "Invalid data length"@,
    {
        "Invalid data length"
    }
}

impl TopBidUpdate {
    /// Reads an update from its bytes in SSZ.
    pub fn from_ssz_bytes(bytes: &[u8]) -> (r: Result<Self, DecodeError>)
        ensures
            r is Ok <==> bytes@.len() == UPDATE_LEN,
            r matches Ok(update) ==> update@ == TopBid::decoded(bytes@),
            r matches Ok(update) ==> (forall|k: int|
                24 <= k < 56 ==> #[trigger] bytes@[k] == update.block_hash.bytes@[k - 24]),
            r matches Ok(update) ==> (forall|k: int|
                56 <= k < 88 ==> #[trigger] bytes@[k] == update.parent_hash.bytes@[k - 56]),
            r matches Ok(update) ==> (forall|k: int|
                88 <= k < 136 ==> #[trigger] bytes@[k] == update.builder_pubkey.bytes@[k - 88]),
            r matches Ok(update) ==> (forall|k: int|
                136 <= k < 156 ==> #[trigger] bytes@[k] == update.fee_recipient.bytes@[k - 136]),
            r matches Err(e) ==> e == (DecodeError::InvalidByteLength {
                len: bytes.len(),
                expected: UPDATE_LEN,
            }),
    {
        if bytes.len() != UPDATE_LEN {
            return Err(
                DecodeError::InvalidByteLength { len: bytes.len(), expected: UPDATE_LEN },
            );
        }
        let ghost all = bytes@;
        let (slice, rest) = bytes.split_at(8);
        let timestamp = u64_from_ssz(slice);
        assert(slice@ =~= all.subrange(0, 8));
        let (slice, rest) = rest.split_at(8);
        let slot = u64_from_ssz(slice);
        assert(slice@ =~= all.subrange(8, 16));
        let (slice, rest) = rest.split_at(8);
        let block_number = u64_from_ssz(slice);
        assert(slice@ =~= all.subrange(16, 24));
        let (slice, rest) = rest.split_at(32);
        let block_hash = B256::from_ssz(slice);
        assert(slice@ =~= all.subrange(24, 56));
        let (slice, rest) = rest.split_at(32);
        let parent_hash = B256::from_ssz(slice);
        assert(slice@ =~= all.subrange(56, 88));
        let (slice, rest) = rest.split_at(48);
        let builder_pubkey = BlsPublicKey::from_ssz(slice);
        assert(slice@ =~= all.subrange(88, 136));
        let (slice, rest) = rest.split_at(20);
        let fee_recipient = Address::from_ssz(slice);
        assert(slice@ =~= all.subrange(136, 156));
        let value = U256::from_ssz(rest);
        assert(rest@ =~= all.subrange(156, 188));
        proof {
            bytes_of_an_update(all);
        }
        Ok(
            TopBidUpdate {
                timestamp,
                slot,
                block_number,
                block_hash,
                parent_hash,
                builder_pubkey,
                fee_recipient,
                value,
            },
        )
    }

    /// The update in SSZ.
    pub fn as_ssz_bytes(&self) -> (r: Vec<u8>)
        ensures
            r@ == self@.encoding(),
            r@.len() == 188,
            forall|k: int|
                24 <= k < 56 ==> #[trigger] r@[k] == self.block_hash.bytes@[k - 24],
            forall|k: int|
                56 <= k < 88 ==> #[trigger] r@[k] == self.parent_hash.bytes@[k - 56],
            forall|k: int|
                88 <= k < 136 ==> #[trigger] r@[k] == self.builder_pubkey.bytes@[k - 88],
            forall|k: int|
                136 <= k < 156 ==> #[trigger] r@[k] == self.fee_recipient.bytes@[k - 136],
    {
        let mut buf: Vec<u8> = Vec::new();
        append_u64(self.timestamp, &mut buf);
        assert(buf@ =~= le_bytes(self.timestamp as nat, 8));
        append_u64(self.slot, &mut buf);
        append_u64(self.block_number, &mut buf);
        self.block_hash.ssz_append(&mut buf);
        self.parent_hash.ssz_append(&mut buf);
        self.builder_pubkey.ssz_append(&mut buf);
        self.fee_recipient.ssz_append(&mut buf);
        self.value.ssz_append(&mut buf);
        proof {
            update_is_wf(*self);
            fields_in_the_bytes(self@);
        }
        buf
    }

    /// Reads an update from the data of a message of the feed.
    pub fn from_bytes(data: &[u8]) -> (r: Result<Self, InvalidDataLength>)
        ensures
            r is Ok <==> data@.len() == UPDATE_LEN,
            r matches Ok(update) ==> update@ == TopBid::decoded(data@),
            r matches Ok(update) ==> (forall|k: int|
                24 <= k < 56 ==> #[trigger] data@[k] == update.block_hash.bytes@[k - 24]),
            r matches Ok(update) ==> (forall|k: int|
                56 <= k < 88 ==> #[trigger] data@[k] == update.parent_hash.bytes@[k - 56]),
            r matches Ok(update) ==> (forall|k: int|
                88 <= k < 136 ==> #[trigger] data@[k] == update.builder_pubkey.bytes@[k - 88]),
            r matches Ok(update) ==> (forall|k: int|
                136 <= k < 156 ==> #[trigger] data@[k] == update.fee_recipient.bytes@[k - 136]),
    {
        if data.len() != UPDATE_LEN {
            return Err(InvalidDataLength);
        }
        match Self::from_ssz_bytes(data) {
            Ok(update) => Ok(update),
            Err(_) => Err(InvalidDataLength),
        }
    }

    /// The update as text.
    pub fn to_string(&self) -> (r: String)
        ensures
            r@ == self@.text(),
    {
        let mut s = "TopBidUpdate { timestamp: ".to_owned();
        s.append(u64_to_decimal(self.timestamp).as_str());
        s.append(", slot: ");
        s.append(u64_to_decimal(self.slot).as_str());
        s.append(", block_number: ");
        s.append(u64_to_decimal(self.block_number).as_str());
        s.append(", block_hash: 0x");
        s.append(self.block_hash.to_hex().as_str());
        s.append(", parent_hash: 0x");
        s.append(self.parent_hash.to_hex().as_str());
        s.append(", builder_pubkey: 0x");
        s.append(self.builder_pubkey.to_hex().as_str());
        s.append(", fee_recipient: 0x");
        s.append(self.fee_recipient.to_hex().as_str());
        s.append(", value: ");
        s.append(self.value.to_decimal().as_str());
        s.append(" }");
        s
    }
}

/// What every [`TopBidUpdate`] says is well-formed.
pub proof fn update_is_wf(update: TopBidUpdate)
    ensures
        update@.wf(),
{
    u256_is_bounded(update.value);
}

/// The bytes of an update are as many as the feed sends.
pub proof fn encoding_len(bid: TopBid)
    requires
        bid.wf(),
    ensures
        bid.encoding().len() == UPDATE_LEN,
{
    le_bytes_len(bid.timestamp as nat, 8);
    le_bytes_len(bid.slot as nat, 8);
    le_bytes_len(bid.block_number as nat, 8);
    le_bytes_len(bid.value, 32);
}

/// Reading the bytes of an update gives the update back.
pub proof fn encoding_reads_back(bid: TopBid)
    requires
        bid.wf(),
    ensures
        TopBid::decoded(bid.encoding()) == bid,
{
    let all = bid.encoding();
    encoding_len(bid);
    le_bytes_len(bid.timestamp as nat, 8);
    le_bytes_len(bid.slot as nat, 8);
    le_bytes_len(bid.block_number as nat, 8);
    le_bytes_len(bid.value, 32);
    byte_counts();
    le_bytes_read_back(bid.timestamp as nat, 8);
    le_bytes_read_back(bid.slot as nat, 8);
    le_bytes_read_back(bid.block_number as nat, 8);
    le_bytes_read_back(bid.value, 32);
    assert(all.subrange(0, 8) =~= le_bytes(bid.timestamp as nat, 8));
    assert(all.subrange(8, 16) =~= le_bytes(bid.slot as nat, 8));
    assert(all.subrange(16, 24) =~= le_bytes(bid.block_number as nat, 8));
    assert(all.subrange(24, 56) =~= bid.block_hash);
    assert(all.subrange(56, 88) =~= bid.parent_hash);
    assert(all.subrange(88, 136) =~= bid.builder_pubkey);
    assert(all.subrange(136, 156) =~= bid.fee_recipient);
    assert(all.subrange(156, 188) =~= le_bytes(bid.value, 32));
}

/// Bytes of the length of an update stand for a well-formed update, whose bytes they are.
pub proof fn decoded_writes_back(data: Seq<u8>)
    requires
        data.len() == UPDATE_LEN,
    ensures
        TopBid::decoded(data).wf(),
        TopBid::decoded(data).encoding() == data,
{
    byte_counts();
    le_value_bound(data.subrange(0, 8));
    le_value_bound(data.subrange(8, 16));
    le_value_bound(data.subrange(16, 24));
    le_value_bound(data.subrange(156, 188));
    le_value_writes_back(data.subrange(0, 8));
    le_value_writes_back(data.subrange(8, 16));
    le_value_writes_back(data.subrange(16, 24));
    le_value_writes_back(data.subrange(156, 188));
    assert(TopBid::decoded(data).encoding() =~= data);
}

/// Where each field stands in the 188 bytes of an update: byte strings as they stand, and integers
/// with the byte at each position as the digit at that position to the base of 256.
pub proof fn bytes_of_an_update(data: Seq<u8>)
    requires
        data.len() == 188,
    ensures
        ({
            let bid = TopBid::decoded(data);
            &&& bid.block_hash.len() == 32
            &&& bid.parent_hash.len() == 32
            &&& bid.builder_pubkey.len() == 48
            &&& bid.fee_recipient.len() == 20
            &&& bid.value < pow(256, 32)
            &&& forall|k: int|
                0 <= k < 8 ==> #[trigger] data[k] == (bid.timestamp as int / pow(256, k as nat))
                    % 256
            &&& forall|k: int|
                8 <= k < 16 ==> #[trigger] data[k] == (bid.slot as int / pow(256, (k - 8) as nat))
                    % 256
            &&& forall|k: int|
                16 <= k < 24 ==> #[trigger] data[k] == (bid.block_number as int / pow(
                    256,
                    (k - 16) as nat,
                )) % 256
            &&& forall|k: int| 24 <= k < 56 ==> #[trigger] data[k] == bid.block_hash[k - 24]
            &&& forall|k: int| 56 <= k < 88 ==> #[trigger] data[k] == bid.parent_hash[k - 56]
            &&& forall|k: int| 88 <= k < 136 ==> #[trigger] data[k] == bid.builder_pubkey[k - 88]
            &&& forall|k: int| 136 <= k < 156 ==> #[trigger] data[k] == bid.fee_recipient[k - 136]
            &&& forall|k: int|
                156 <= k < 188 ==> #[trigger] data[k] == (bid.value as int / pow(
                    256,
                    (k - 156) as nat,
                )) % 256
        }),
{
    byte_counts();
    le_value_bound(data.subrange(0, 8));
    le_value_bound(data.subrange(8, 16));
    le_value_bound(data.subrange(16, 24));
    le_value_bound(data.subrange(156, 188));
    assert forall|k: int| 0 <= k < 8 implies #[trigger] data[k] == (TopBid::decoded(
        data,
    ).timestamp as int / pow(256, k as nat)) % 256 by {
        le_value_has_the_bytes_as_digits(data.subrange(0, 8), k as nat);
    }
    assert forall|k: int| 8 <= k < 16 implies #[trigger] data[k] == (TopBid::decoded(
        data,
    ).slot as int / pow(256, (k - 8) as nat)) % 256 by {
        le_value_has_the_bytes_as_digits(data.subrange(8, 16), (k - 8) as nat);
    }
    assert forall|k: int| 16 <= k < 24 implies #[trigger] data[k] == (TopBid::decoded(
        data,
    ).block_number as int / pow(256, (k - 16) as nat)) % 256 by {
        le_value_has_the_bytes_as_digits(data.subrange(16, 24), (k - 16) as nat);
    }
    assert forall|k: int| 156 <= k < 188 implies #[trigger] data[k] == (TopBid::decoded(
        data,
    ).value as int / pow(256, (k - 156) as nat)) % 256 by {
        le_value_has_the_bytes_as_digits(data.subrange(156, 188), (k - 156) as nat);
    }
}

/// The three numbers at the head of an update are sums of its bytes, each times 256 to the power
/// of its position.
pub proof fn numbers_of_an_update(data: Seq<u8>)
    requires
        data.len() == 188,
    ensures
        TopBid::decoded(data).timestamp == data[0] + 0x100 * data[1] + 0x1_0000 * data[2]
            + 0x100_0000 * data[3] + 0x1_0000_0000 * data[4] + 0x100_0000_0000 * data[5]
            + 0x1_0000_0000_0000 * data[6] + 0x100_0000_0000_0000 * data[7],
        TopBid::decoded(data).slot == data[8] + 0x100 * data[9] + 0x1_0000 * data[10] + 0x100_0000
            * data[11] + 0x1_0000_0000 * data[12] + 0x100_0000_0000 * data[13]
            + 0x1_0000_0000_0000 * data[14] + 0x100_0000_0000_0000 * data[15],
        TopBid::decoded(data).block_number == data[16] + 0x100 * data[17] + 0x1_0000 * data[18]
            + 0x100_0000 * data[19] + 0x1_0000_0000 * data[20] + 0x100_0000_0000 * data[21]
            + 0x1_0000_0000_0000 * data[22] + 0x100_0000_0000_0000 * data[23],
{
    le_value_of_eight_bytes(data.subrange(0, 8));
    le_value_of_eight_bytes(data.subrange(8, 16));
    le_value_of_eight_bytes(data.subrange(16, 24));
}

/// The bytes of an update are its fields one after the other: byte strings as they stand, and of
/// an integer the digit at each position to the base of 256.
pub proof fn fields_in_the_bytes(bid: TopBid)
    requires
        bid.wf(),
    ensures
        ({
            let data = bid.encoding();
            &&& data.len() == 188
            &&& forall|k: int|
                0 <= k < 8 ==> #[trigger] data[k] == (bid.timestamp as int / pow(256, k as nat))
                    % 256
            &&& forall|k: int|
                8 <= k < 16 ==> #[trigger] data[k] == (bid.slot as int / pow(256, (k - 8) as nat))
                    % 256
            &&& forall|k: int|
                16 <= k < 24 ==> #[trigger] data[k] == (bid.block_number as int / pow(
                    256,
                    (k - 16) as nat,
                )) % 256
            &&& forall|k: int| 24 <= k < 56 ==> #[trigger] data[k] == bid.block_hash[k - 24]
            &&& forall|k: int| 56 <= k < 88 ==> #[trigger] data[k] == bid.parent_hash[k - 56]
            &&& forall|k: int| 88 <= k < 136 ==> #[trigger] data[k] == bid.builder_pubkey[k - 88]
            &&& forall|k: int| 136 <= k < 156 ==> #[trigger] data[k] == bid.fee_recipient[k - 136]
            &&& forall|k: int|
                156 <= k < 188 ==> #[trigger] data[k] == (bid.value as int / pow(
                    256,
                    (k - 156) as nat,
                )) % 256
        }),
{
    encoding_len(bid);
    encoding_reads_back(bid);
    bytes_of_an_update(bid.encoding());
}

/// The text of an update names every field once, in their order, with numbers in decimal and byte
/// strings in hexadecimal behind `0x`.
pub proof fn text_of_an_update(bid: TopBid)
    ensures
        bid.text() == ("TopBidUpdate { timestamp: "@ + decimal(bid.timestamp as nat)) + (
        ", slot: "@ + decimal(bid.slot as nat)) + (", block_number: "@ + decimal(
            bid.block_number as nat,
        )) + (", block_hash: 0x"@ + lower_hex(bid.block_hash)) + (", parent_hash: 0x"@ + lower_hex(
            bid.parent_hash,
        )) + (", builder_pubkey: 0x"@ + lower_hex(bid.builder_pubkey)) + (", fee_recipient: 0x"@
            + lower_hex(bid.fee_recipient)) + (", value: "@ + decimal(bid.value)) + " }"@,
{
    let t1 = "TopBidUpdate { timestamp: "@ + decimal(bid.timestamp as nat);
    let t2 = t1 + ", slot: "@ + decimal(bid.slot as nat);
    let t3 = t2 + ", block_number: "@ + decimal(bid.block_number as nat);
    let t4 = t3 + ", block_hash: 0x"@ + lower_hex(bid.block_hash);
    let t5 = t4 + ", parent_hash: 0x"@ + lower_hex(bid.parent_hash);
    let t6 = t5 + ", builder_pubkey: 0x"@ + lower_hex(bid.builder_pubkey);
    let t7 = t6 + ", fee_recipient: 0x"@ + lower_hex(bid.fee_recipient);
    let t8 = t7 + ", value: "@ + decimal(bid.value);
    assert(t2 =~= t1 + (", slot: "@ + decimal(bid.slot as nat)));
    assert(t3 =~= t2 + (", block_number: "@ + decimal(bid.block_number as nat)));
    assert(t4 =~= t3 + (", block_hash: 0x"@ + lower_hex(bid.block_hash)));
    assert(t5 =~= t4 + (", parent_hash: 0x"@ + lower_hex(bid.parent_hash)));
    assert(t6 =~= t5 + (", builder_pubkey: 0x"@ + lower_hex(bid.builder_pubkey)));
    assert(t7 =~= t6 + (", fee_recipient: 0x"@ + lower_hex(bid.fee_recipient)));
    assert(t8 =~= t7 + (", value: "@ + decimal(bid.value)));
    assert(bid.text() == t8 + " }"@);
}

/// A message of the web socket.
#[derive(Debug)]
pub enum WsMessage {
    Text,
    Binary(Vec<u8>),
    Ping,
    Pong,
    Close,
    Frame,
}

/// What happens on an open connection.
#[derive(Debug)]
pub enum ConnectionEvent {
    /// A message has come.
    Message(WsMessage),
    /// Reading the next message has failed.
    ReadFailed,
    /// It is time for a ping.
    PingDue,
}

/// What is to be done on an open connection.
#[derive(Debug, Clone, Copy, PartialEq, Eq, Structural)]
pub enum ConnectionAction {
    /// Hand the value of a new top bid to the subscribers.
    Publish(U256),
    /// Warn that the data of a message is no update.
    WarnUndecodable(InvalidDataLength),
    /// Answer a ping, without payload.
    SendPong,
    /// Send a ping, without payload.
    SendPing,
    /// Do nothing.
    Ignore,
    /// Leave the connection, which the relay has closed.
    Finish,
    /// Leave the connection, which has failed.
    Fail,
}

/// Whether a connection is left, and how.
#[derive(Debug, Clone, Copy, PartialEq, Eq, Structural)]
pub enum ConnectionStatus {
    Open,
    Finished,
    Failed,
}

/// Whether `action` is the right one for `event`.
pub open spec fn answers(event: ConnectionEvent, action: ConnectionAction) -> bool {
    match event {
        ConnectionEvent::Message(WsMessage::Binary(data)) => if data@.len() == UPDATE_LEN {
            action matches ConnectionAction::Publish(value) && value@ == TopBid::decoded(data@).value
        } else {
            action == ConnectionAction::WarnUndecodable(InvalidDataLength)
        },
        ConnectionEvent::Message(WsMessage::Ping) => action == ConnectionAction::SendPong,
        ConnectionEvent::Message(WsMessage::Close) => action == ConnectionAction::Finish,
        ConnectionEvent::Message(_) => action == ConnectionAction::Ignore,
        ConnectionEvent::ReadFailed => action == ConnectionAction::Fail,
        ConnectionEvent::PingDue => action == ConnectionAction::SendPing,
    }
}

/// Whether `action` talks to the relay or to the subscribers, and so may fail.
pub open spec fn may_fail(action: ConnectionAction) -> bool {
    action is Publish || action is SendPong || action is SendPing
}

/// How the connection stands after `action`, which was `done` or has failed.
pub open spec fn status_after(action: ConnectionAction, done: bool) -> ConnectionStatus {
    if action is Finish {
        ConnectionStatus::Finished
    } else if action is Fail || (may_fail(action) && !done) {
        ConnectionStatus::Failed
    } else {
        ConnectionStatus::Open
    }
}

/// The top bid that the subscribers know after `action`, which was `done` or has failed.
pub open spec fn best_bid_after(best_bid: nat, action: ConnectionAction, done: bool) -> nat {
    match action {
        ConnectionAction::Publish(value) => if done {
            value@
        } else {
            best_bid
        },
        _ => best_bid,
    }
}

/// What happens to the watcher as a whole.
#[derive(Debug, Clone, Copy, PartialEq, Eq, Structural)]
pub enum RunEvent {
    /// The watcher has been started.
    Started,
    /// The connection stands.
    Connected,
    /// The connection could not be made.
    ConnectFailed,
    /// The relay has closed the connection.
    ConnectionFinished,
    /// The connection has failed.
    ConnectionFailed,
    /// The delay before the next attempt is over.
    DelayOver,
}

/// Why the watcher warns.
#[derive(Debug, Clone, Copy, PartialEq, Eq, Structural)]
pub enum RunWarning {
    WebSocketError,
    FailedToConnect,
}

/// What the watcher is to do next.
#[derive(Debug, Clone, Copy, PartialEq, Eq)]
pub enum RunAction {
    /// Connect to the feed at `url`.
    Connect { url: &'static str },
    /// Read the connection until it is left; a ping is due after `first_ping_secs`, and from then
    /// on every `ping_interval_secs`.
    HandleConnection { first_ping_secs: u64, ping_interval_secs: u64 },
    /// Give the warning, if there is one, and wait before the next attempt.
    Delay { warning: Option<RunWarning>, secs: u64 },
}

/// What the watcher does on `event`.
pub open spec fn run_action(event: RunEvent) -> RunAction {
    match event {
        RunEvent::Started | RunEvent::DelayOver => RunAction::Connect { url: TOP_BID_URL },
        RunEvent::Connected => RunAction::HandleConnection {
            first_ping_secs: FIRST_PING_SECS,
            ping_interval_secs: PING_INTERVAL_SECS,
        },
        RunEvent::ConnectFailed => RunAction::Delay {
            warning: Some(RunWarning::FailedToConnect),
            secs: RECONNECT_DELAY_SECS,
        },
        RunEvent::ConnectionFinished => RunAction::Delay {
            warning: None,
            secs: RECONNECT_DELAY_SECS,
        },
        RunEvent::ConnectionFailed => RunAction::Delay {
            warning: Some(RunWarning::WebSocketError),
            secs: RECONNECT_DELAY_SECS,
        },
    }
}

/// Reads the feed and knows the top bid that its subscribers have been handed last.
#[derive(Debug, Clone, Copy)]
pub struct TopBidWatcher {
    best_bid: U256,
}

impl View for TopBidWatcher {
    type V = nat;

    /// The top bid that the subscribers know.
    closed spec fn view(&self) -> nat {
        self.best_bid@
    }
}

impl TopBidWatcher {
    /// A watcher whose subscribers know of no bid yet, which is a bid of zero.
    pub fn new() -> (r: Self)
        ensures
            r@ == 0,
    {
        TopBidWatcher { best_bid: U256::zero() }
    }

    /// The top bid that the subscribers know.
    pub fn best_bid(&self) -> (r: U256)
        ensures
            r@ == self@,
    {
        self.best_bid
    }

    /// What the watcher is to do next.
    pub fn run(&self, event: RunEvent) -> (action: RunAction)
        ensures
            action == run_action(event),
    {
        match event {
            RunEvent::Started | RunEvent::DelayOver => RunAction::Connect { url: TOP_BID_URL },
            RunEvent::Connected => RunAction::HandleConnection {
                first_ping_secs: FIRST_PING_SECS,
                ping_interval_secs: PING_INTERVAL_SECS,
            },
            RunEvent::ConnectFailed => RunAction::Delay {
                warning: Some(RunWarning::FailedToConnect),
                secs: RECONNECT_DELAY_SECS,
            },
            RunEvent::ConnectionFinished => RunAction::Delay {
                warning: None,
                secs: RECONNECT_DELAY_SECS,
            },
            RunEvent::ConnectionFailed => RunAction::Delay {
                warning: Some(RunWarning::WebSocketError),
                secs: RECONNECT_DELAY_SECS,
            },
        }
    }

    /// What is to be done on an open connection.
    pub fn handle_connection(&self, event: &ConnectionEvent) -> (action: ConnectionAction)
        ensures
            answers(*event, action),
    {
        match event {
            ConnectionEvent::Message(message) => match message {
                WsMessage::Binary(data) => match TopBidUpdate::from_bytes(data.as_slice()) {
                    Ok(update) => ConnectionAction::Publish(update.value),
                    Err(e) => ConnectionAction::WarnUndecodable(e),
                },
                WsMessage::Ping => ConnectionAction::SendPong,
                WsMessage::Close => ConnectionAction::Finish,
                WsMessage::Text | WsMessage::Pong | WsMessage::Frame => ConnectionAction::Ignore,
            },
            ConnectionEvent::ReadFailed => ConnectionAction::Fail,
            ConnectionEvent::PingDue => ConnectionAction::SendPing,
        }
    }

    /// Takes note that `action` was `done` or has failed, and tells whether the connection is
    /// left.
    pub fn after_action(&mut self, action: ConnectionAction, done: bool) -> (status:
        ConnectionStatus)
        ensures
            status == status_after(action, done),
            final(self)@ == best_bid_after(old(self)@, action, done),
    {
        match action {
            ConnectionAction::Publish(value) => {
                if done {
                    self.best_bid = value;
                    ConnectionStatus::Open
                } else {
                    ConnectionStatus::Failed
                }
            },
            ConnectionAction::SendPong | ConnectionAction::SendPing => {
                if done {
                    ConnectionStatus::Open
                } else {
                    ConnectionStatus::Failed
                }
            },
            ConnectionAction::WarnUndecodable(_) | ConnectionAction::Ignore => {
                ConnectionStatus::Open
            },
            ConnectionAction::Finish => ConnectionStatus::Finished,
            ConnectionAction::Fail => ConnectionStatus::Failed,
        }
    }
}

/// Whether `event` brings an update of the top bid.
pub open spec fn brings_update(event: ConnectionEvent) -> bool {
    event matches ConnectionEvent::Message(WsMessage::Binary(data)) && data@.len() == UPDATE_LEN
}

/// A connection is left when the relay closes it, when reading fails, and when an update, a pong
/// or a ping cannot be sent; on anything else, undecodable data included, it stays open.
pub proof fn connection_is_left(event: ConnectionEvent, action: ConnectionAction, done: bool)
    requires
        answers(event, action),
    ensures
        status_after(action, done) == ConnectionStatus::Finished <==> event
            == ConnectionEvent::Message(WsMessage::Close),
        status_after(action, done) == ConnectionStatus::Failed <==> {
            ||| event is ReadFailed
            ||| !done && (event is PingDue || event == ConnectionEvent::Message(WsMessage::Ping)
                || brings_update(event))
        },
{
}

/// The top bid changes on the delivery of an update alone, and then to the value of the update.
pub proof fn best_bid_changes(
    best_bid: nat,
    event: ConnectionEvent,
    action: ConnectionAction,
    done: bool,
)
    requires
        answers(event, action),
    ensures
        best_bid_after(best_bid, action, done) == (if done && brings_update(event) {
            TopBid::decoded(event->Message_0->Binary_0@).value
        } else {
            best_bid
        }),
{
}

/// The top bid after a series of actions, each of them done or failed.
pub open spec fn best_bid_after_all(
    best_bid: nat,
    log: Seq<(ConnectionAction, bool)>,
) -> nat
    decreases log.len(),
{
    if log.len() == 0 {
        best_bid
    } else {
        best_bid_after(
            best_bid_after_all(best_bid, log.drop_last()),
            log.last().0,
            log.last().1,
        )
    }
}

/// The top bid is the one that was published last.
pub proof fn best_bid_is_the_last_published(
    best_bid: nat,
    log: Seq<(ConnectionAction, bool)>,
    k: int,
    value: U256,
)
    requires
        0 <= k < log.len(),
        log[k] == (ConnectionAction::Publish(value), true),
        forall|i: int| k < i < log.len() ==> !(#[trigger] log[i].0 is Publish && log[i].1),
    ensures
        best_bid_after_all(best_bid, log) == value@,
    decreases log.len(),
{
    if k < log.len() - 1 {
        assert(log.last() == log[log.len() - 1]);
        assert forall|i: int| k < i < log.drop_last().len() implies !(
        #[trigger] log.drop_last()[i].0 is Publish && log.drop_last()[i].1) by {
            assert(log.drop_last()[i] == log[i]);
        }
        best_bid_is_the_last_published(best_bid, log.drop_last(), k, value);
    }
}

/// Where nothing was published, the top bid is what it was.
pub proof fn best_bid_stays_without_publication(
    best_bid: nat,
    log: Seq<(ConnectionAction, bool)>,
)
    requires
        forall|i: int| 0 <= i < log.len() ==> !(#[trigger] log[i].0 is Publish && log[i].1),
    ensures
        best_bid_after_all(best_bid, log) == best_bid,
    decreases log.len(),
{
    if log.len() > 0 {
        assert(log.last() == log[log.len() - 1]);
        assert forall|i: int| 0 <= i < log.drop_last().len() implies !(
        #[trigger] log.drop_last()[i].0 is Publish && log.drop_last()[i].1) by {
            assert(log.drop_last()[i] == log[i]);
        }
        best_bid_stays_without_publication(best_bid, log.drop_last());
    }
}

/// Something that happened on a connection, what was done about it, and whether that was done or
/// has failed.
pub struct ConnectionStep {
    pub event: ConnectionEvent,
    pub action: ConnectionAction,
    pub done: bool,
}

/// Whether the action of each step is the right one for its event.
pub open spec fn all_answered(steps: Seq<ConnectionStep>) -> bool {
    forall|i: int|
        0 <= i < steps.len() ==> answers((#[trigger] steps[i]).event, steps[i].action)
}

/// Whether a step hands the value of an update to the subscribers.
pub open spec fn delivers_update(step: ConnectionStep) -> bool {
    brings_update(step.event) && step.done
}

/// The actions of some steps.
pub open spec fn actions(steps: Seq<ConnectionStep>) -> Seq<(ConnectionAction, bool)> {
    steps.map_values(|step: ConnectionStep| (step.action, step.done))
}

/// A connection that stays open has delivered every update that came.
pub proof fn open_connection_delivers_updates(step: ConnectionStep)
    requires
        answers(step.event, step.action),
        status_after(step.action, step.done) == ConnectionStatus::Open,
    ensures
        delivers_update(step) == brings_update(step.event),
{
}

/// Over any messages, on one connection or on several, the top bid is the value of the last
/// update that was delivered.
pub proof fn best_bid_is_that_of_the_last_update(
    best_bid: nat,
    steps: Seq<ConnectionStep>,
    k: int,
)
    requires
        all_answered(steps),
        0 <= k < steps.len(),
        delivers_update(steps[k]),
        forall|i: int| k < i < steps.len() ==> !delivers_update(#[trigger] steps[i]),
    ensures
        best_bid_after_all(best_bid, actions(steps)) == TopBid::decoded(
            steps[k].event->Message_0->Binary_0@,
        ).value,
{
    let log = actions(steps);
    let value = steps[k].action->Publish_0;
    assert(log[k] == (ConnectionAction::Publish(value), true));
    assert forall|i: int| k < i < log.len() implies !(#[trigger] log[i].0 is Publish
        && log[i].1) by {
        assert(!delivers_update(steps[i]));
    }
    best_bid_is_the_last_published(best_bid, log, k, value);
}

/// Over any messages of which none is an update that was delivered, the top bid is what it was.
pub proof fn best_bid_stays_without_update(best_bid: nat, steps: Seq<ConnectionStep>)
    requires
        all_answered(steps),
        forall|i: int| 0 <= i < steps.len() ==> !delivers_update(#[trigger] steps[i]),
    ensures
        best_bid_after_all(best_bid, actions(steps)) == best_bid,
{
    let log = actions(steps);
    assert forall|i: int| 0 <= i < log.len() implies !(#[trigger] log[i].0 is Publish
        && log[i].1) by {
        assert(!delivers_update(steps[i]));
    }
    best_bid_stays_without_publication(best_bid, log);
}

/// The watcher connects when it is started and when a delay is over, and not otherwise; every
/// end of a connection and every failed attempt is followed by a delay of the same length.
pub proof fn reconnects_after_a_delay(event: RunEvent)
    ensures
        run_action(event) is Connect <==> event is Started || event is DelayOver,
        event is ConnectFailed || event is ConnectionFinished || event is ConnectionFailed ==> (
        run_action(event) matches RunAction::Delay { secs, .. } && secs == RECONNECT_DELAY_SECS),
{
}

/// Every attempt goes to the same address, and every connection that stands is read, with a first
/// ping at once and the others at the same intervals.
pub proof fn connects_to_the_feed_and_keeps_it_alive(event: RunEvent)
    ensures
        run_action(event) matches RunAction::Connect { url } ==> url@ == TOP_BID_URL@,
        run_action(event) is HandleConnection <==> event is Connected,
        run_action(event) matches RunAction::HandleConnection {
            first_ping_secs,
            ping_interval_secs,
        } ==> first_ping_secs == 0 && ping_interval_secs == PING_INTERVAL_SECS,
{
}

/// Whether `event` can come of `action`.
pub open spec fn comes_of(event: RunEvent, action: RunAction) -> bool {
    match action {
        RunAction::Connect { .. } => event is Connected || event is ConnectFailed,
        RunAction::HandleConnection { .. } => ends_connection(event),
        RunAction::Delay { .. } => event is DelayOver,
    }
}

/// Whether `event` is the end of a connection.
pub open spec fn ends_connection(event: RunEvent) -> bool {
    event is ConnectionFinished || event is ConnectionFailed
}

/// Whether some events are what happens to a watcher: it is started first, and every other event
/// comes of what the watcher did on the one before it.
pub open spec fn is_run(events: Seq<RunEvent>) -> bool {
    &&& events.len() > 0 ==> events[0] is Started
    &&& forall|i: int| 0 < i < events.len() ==> #[trigger] follows(events, i)
}

/// Whether the event at position `i` comes of what the watcher did on the one before it.
pub open spec fn follows(events: Seq<RunEvent>, i: int) -> bool {
    comes_of(events[i], run_action(events[i - 1]))
}

/// How many of the connections that were made in a run have not ended.
pub open spec fn open_connections(events: Seq<RunEvent>) -> int
    decreases events.len(),
{
    if events.len() == 0 {
        0
    } else {
        let before = open_connections(events.drop_last());
        if events.last() is Connected {
            before + 1
        } else if ends_connection(events.last()) {
            before - 1
        } else {
            before
        }
    }
}

/// At most one connection is open at any time: one is open exactly from when it stands until it
/// ends, and while one is open the watcher reads it and makes no other.
pub proof fn at_most_one_connection_is_open(events: Seq<RunEvent>)
    requires
        is_run(events),
    ensures
        open_connections(events) == (if events.len() > 0 && events.last() is Connected {
            1int
        } else {
            0
        }),
        events.len() > 0 ==> (open_connections(events) == 1 <==> run_action(
            events.last(),
        ) is HandleConnection),
        events.len() > 0 && run_action(events.last()) is Connect ==> open_connections(events) == 0,
    decreases events.len(),
{
    if events.len() > 0 {
        let before = events.drop_last();
        assert(is_run(before)) by {
            assert forall|i: int| 0 < i < before.len() implies #[trigger] follows(before, i) by {
                assert(follows(events, i));
            }
        }
        at_most_one_connection_is_open(before);
        if before.len() > 0 {
            assert(follows(events, events.len() - 1));
        }
    }
}

/// Between the start of a connection and the next attempt that connection has ended and a delay
/// has passed.
pub proof fn next_attempt_follows_the_end_of_the_connection(
    events: Seq<RunEvent>,
    connected: int,
    attempt: int,
)
    requires
        is_run(events),
        0 <= connected < attempt < events.len(),
        events[connected] is Connected,
        run_action(events[attempt]) is Connect,
    ensures
        connected + 1 < attempt,
        ends_connection(events[connected + 1]),
        run_action(events[connected + 1]) is Delay,
        events[connected + 2] is DelayOver,
{
    assert(follows(events, connected + 1));
    assert(follows(events, connected + 2));
}

/// What is done about each message and each tick: the value of 188 bytes of data is published,
/// other data is warned about, a ping is answered and a close ends the connection, and nothing is
/// done about any other message.
pub proof fn every_event_has_its_action(event: ConnectionEvent, action: ConnectionAction)
    requires
        answers(event, action),
    ensures
        action is Publish <==> (event matches ConnectionEvent::Message(WsMessage::Binary(data))
            && data@.len() == 188),
        action matches ConnectionAction::Publish(value) ==> value@ < pow(256, 32) && (forall|k: int|
            156 <= k < 188 ==> #[trigger] event->Message_0->Binary_0@[k] == (value@ as int / pow(
                256,
                (k - 156) as nat,
            )) % 256),
        action is WarnUndecodable <==> (event matches ConnectionEvent::Message(
            WsMessage::Binary(data),
        ) && data@.len() != 188),
        action is SendPong <==> (event matches ConnectionEvent::Message(message)
            && message is Ping),
        action is SendPing <==> event is PingDue,
        action is Ignore <==> (event matches ConnectionEvent::Message(message) && (message is Text
            || message is Pong || message is Frame)),
        action is Finish <==> (event matches ConnectionEvent::Message(message)
            && message is Close),
        action is Fail <==> event is ReadFailed,
{
    if let ConnectionEvent::Message(WsMessage::Binary(data)) = event {
        if data@.len() == 188 {
            bytes_of_an_update(data@);
        }
    }
}

/// How an action leaves the connection and the top bid: failing to publish or to send fails the
/// connection, what is published is known from then on, and nothing else changes what is known.
pub proof fn every_action_has_its_outcome(best_bid: nat, action: ConnectionAction, done: bool)
    ensures
        status_after(action, done) is Finished <==> action is Finish,
        status_after(action, done) is Failed <==> action is Fail || !done && (action is Publish
            || action is SendPong || action is SendPing),
        action matches ConnectionAction::Publish(value) ==> best_bid_after(best_bid, action, true)
            == value@,
        !done || !(action is Publish) ==> best_bid_after(best_bid, action, done) == best_bid,
{
}

/// What the watcher does on each event of its run, to which address it connects, how often it
/// pings, how long it waits and what it warns of.
pub proof fn every_run_event_has_its_action(event: RunEvent)
    ensures
        run_action(event) is Connect <==> event is Started || event is DelayOver,
        run_action(event) matches RunAction::Connect { url } ==> url@
            == "ws://relay-builders-eu.ultrasound.money/ws/v1/top_bid"@,
        run_action(event) is HandleConnection <==> event is Connected,
        run_action(event) matches RunAction::HandleConnection {
            first_ping_secs,
            ping_interval_secs,
        } ==> first_ping_secs == 0 && ping_interval_secs == 30,
        run_action(event) is Delay <==> event is ConnectFailed || event is ConnectionFinished
            || event is ConnectionFailed,
        run_action(event) matches RunAction::Delay { warning, secs } ==> secs == 5 && (warning
            == Some(RunWarning::FailedToConnect) <==> event is ConnectFailed) && (warning == Some(
            RunWarning::WebSocketError,
        ) <==> event is ConnectionFailed) && (warning is None <==> event is ConnectionFinished),
{
}

} // verus!
