//! The event lines that announce accepted locks and unlocks to those who
//! follow the chain's log.

use vstd::prelude::*;
use vstd::string::StringExecFns;
use crate::decimal::{decimal, push_decimal};
use crate::json::{encode_text, json_text};
use crate::record::{LockRecord, LockRecordView, UnlockRecord, UnlockRecordView};

verus! {

/// The two kinds of event.
#[derive(Clone, Copy, Debug, PartialEq, Eq, Structural)]
pub enum EventKind {
    Locked,
    Unlocked,
}

impl EventKind {
    /// The name under which a log line carries this kind.
    pub open spec fn spec_tag(self) -> Seq<char> {
        match self {
            EventKind::Locked => "token_locked"@,
            EventKind::Unlocked => "token_unlocked"@,
        }
    }

    /// The name under which a log line carries this kind.
    pub fn tag(&self) -> (r: &'static str)
        ensures
            r@ == self.spec_tag(),
    {
        match self {
            EventKind::Locked => "token_locked",
            EventKind::Unlocked => "token_unlocked",
        }
    }
}

/// The announcement of an accepted lock.
#[derive(Debug, PartialEq, Eq)]
pub struct TokenLockedEvent {
    pub message_id: String,
    pub sender: String,
    pub token_contract: String,
    pub amount: u128,
    pub destination_chain: String,
    pub destination_address: String,
    pub nonce: u64,
    pub timestamp: u64,
}

impl View for TokenLockedEvent {
    type V = LockRecordView;

    open spec fn view(&self) -> LockRecordView {
        LockRecordView {
            message_id: self.message_id@,
            sender: self.sender@,
            token_contract: self.token_contract@,
            amount: self.amount,
            destination_chain: self.destination_chain@,
            destination_address: self.destination_address@,
            nonce: self.nonce as nat,
            timestamp: self.timestamp,
        }
    }
}

impl TokenLockedEvent {
    /// The event that announces `record`: field for field what the record holds.
    pub fn from_record(record: &LockRecord) -> (e: TokenLockedEvent)
        ensures
            e@ == record@,
    {
        TokenLockedEvent {
            message_id: record.message_id.clone(),
            sender: record.sender.clone(),
            token_contract: record.token_contract.clone(),
            amount: record.amount,
            destination_chain: record.destination_chain.clone(),
            destination_address: record.destination_address.clone(),
            nonce: record.nonce,
            timestamp: record.timestamp,
        }
    }
}

/// The announcement of an accepted unlock.
#[derive(Debug, PartialEq, Eq)]
pub struct TokenUnlockedEvent {
    pub message_id: String,
    pub source_chain: String,
    pub sender_address: String,
    pub recipient: String,
    pub token_contract: String,
    pub amount: u128,
    pub timestamp: u64,
}

impl View for TokenUnlockedEvent {
    type V = UnlockRecordView;

    open spec fn view(&self) -> UnlockRecordView {
        UnlockRecordView {
            message_id: self.message_id@,
            source_chain: self.source_chain@,
            sender_address: self.sender_address@,
            recipient: self.recipient@,
            token_contract: self.token_contract@,
            amount: self.amount,
            timestamp: self.timestamp,
        }
    }
}

impl TokenUnlockedEvent {
    /// The event that announces `record`: field for field what the record holds.
    pub fn from_record(record: &UnlockRecord) -> (e: TokenUnlockedEvent)
        ensures
            e@ == record@,
    {
        TokenUnlockedEvent {
            message_id: record.message_id.clone(),
            source_chain: record.source_chain.clone(),
            sender_address: record.sender_address.clone(),
            recipient: record.recipient.clone(),
            token_contract: record.token_contract.clone(),
            amount: record.amount,
            timestamp: record.timestamp,
        }
    }
}

/// The payload of a lock event: a JSON object without white space, its
/// members in this order. The texts stand as given, so they are JSON values
/// already; the numbers stand in decimal notation.
pub open spec fn locked_object(
    message_id: Seq<char>,
    sender: Seq<char>,
    token_contract: Seq<char>,
    amount: u128,
    destination_chain: Seq<char>,
    destination_address: Seq<char>,
    nonce: nat,
    timestamp: u64,
) -> Seq<char> {
    "{\"message_id\":"@ + message_id + ",\"sender\":"@ + sender + ",\"token_contract\":"@
        + token_contract + ",\"amount\":"@ + decimal(amount as nat) + ",\"destination_chain\":"@
        + destination_chain + ",\"destination_address\":"@ + destination_address + ",\"nonce\":"@
        + decimal(nonce) + ",\"timestamp\":"@ + decimal(timestamp as nat) + "}"@
}

/// The payload of an unlock event, in the same manner.
pub open spec fn unlocked_object(
    message_id: Seq<char>,
    source_chain: Seq<char>,
    sender_address: Seq<char>,
    recipient: Seq<char>,
    token_contract: Seq<char>,
    amount: u128,
    timestamp: u64,
) -> Seq<char> {
    "{\"message_id\":"@ + message_id + ",\"source_chain\":"@ + source_chain
        + ",\"sender_address\":"@ + sender_address + ",\"recipient\":"@ + recipient
        + ",\"token_contract\":"@ + token_contract + ",\"amount\":"@ + decimal(amount as nat)
        + ",\"timestamp\":"@ + decimal(timestamp as nat) + "}"@
}

/// The payload that announces the lock `e`: its texts as JSON string
/// literals. There is none where one of the texts cannot be written as JSON.
pub open spec fn locked_data(e: LockRecordView) -> Option<Seq<char>> {
    if {
        &&& json_text(e.message_id) is Some
        &&& json_text(e.sender) is Some
        &&& json_text(e.token_contract) is Some
        &&& json_text(e.destination_chain) is Some
        &&& json_text(e.destination_address) is Some
    } {
        Some(
            locked_object(
                json_text(e.message_id)->0,
                json_text(e.sender)->0,
                json_text(e.token_contract)->0,
                e.amount,
                json_text(e.destination_chain)->0,
                json_text(e.destination_address)->0,
                e.nonce,
                e.timestamp,
            ),
        )
    } else {
        None
    }
}

/// The payload that announces the unlock `e`, in the same manner.
pub open spec fn unlocked_data(e: UnlockRecordView) -> Option<Seq<char>> {
    if {
        &&& json_text(e.message_id) is Some
        &&& json_text(e.source_chain) is Some
        &&& json_text(e.sender_address) is Some
        &&& json_text(e.recipient) is Some
        &&& json_text(e.token_contract) is Some
    } {
        Some(
            unlocked_object(
                json_text(e.message_id)->0,
                json_text(e.source_chain)->0,
                json_text(e.sender_address)->0,
                json_text(e.recipient)->0,
                json_text(e.token_contract)->0,
                e.amount,
                e.timestamp,
            ),
        )
    } else {
        None
    }
}

/// The payload that stands in for one that could not be written.
pub open spec fn empty_data() -> Seq<char> {
    "{}"@
}

/// The payload that a line carries: `data`, or the empty object in its absence.
pub open spec fn payload_or_empty(data: Option<Seq<char>>) -> Seq<char> {
    match data {
        Some(d) => d,
        None => empty_data(),
    }
}

/// The log line of an event of kind `kind` with the payload `data`.
pub open spec fn event_line(kind: EventKind, data: Seq<char>) -> Seq<char> {
    "EVENT_JSON:{\"standard\":\"articium\",\"version\":\"1.0.0\",\"event\":\""@ + kind.spec_tag()
        + "\",\"data\":"@ + data + "}"@
}

/// Writes the payload of a lock event from its members, the texts given as
/// JSON values.
pub fn assemble_locked(
    message_id: &str,
    sender: &str,
    token_contract: &str,
    amount: u128,
    destination_chain: &str,
    destination_address: &str,
    nonce: u64,
    timestamp: u64,
) -> (r: String)
    ensures
        r@ == locked_object(
            message_id@,
            sender@,
            token_contract@,
            amount,
            destination_chain@,
            destination_address@,
            nonce as nat,
            timestamp,
        ),
{
    let mut out = String::new();
    out.append("{\"message_id\":");
    out.append(message_id);
    out.append(",\"sender\":");
    out.append(sender);
    out.append(",\"token_contract\":");
    out.append(token_contract);
    out.append(",\"amount\":");
    push_decimal(&mut out, amount);
    out.append(",\"destination_chain\":");
    out.append(destination_chain);
    out.append(",\"destination_address\":");
    out.append(destination_address);
    out.append(",\"nonce\":");
    push_decimal(&mut out, nonce as u128);
    out.append(",\"timestamp\":");
    push_decimal(&mut out, timestamp as u128);
    out.append("}");
    assert(out@ =~= locked_object(
        message_id@,
        sender@,
        token_contract@,
        amount,
        destination_chain@,
        destination_address@,
        nonce as nat,
        timestamp,
    ));
    out
}

/// Writes the payload of an unlock event from its members, the texts given as
/// JSON values.
pub fn assemble_unlocked(
    message_id: &str,
    source_chain: &str,
    sender_address: &str,
    recipient: &str,
    token_contract: &str,
    amount: u128,
    timestamp: u64,
) -> (r: String)
    ensures
        r@ == unlocked_object(
            message_id@,
            source_chain@,
            sender_address@,
            recipient@,
            token_contract@,
            amount,
            timestamp,
        ),
{
    let mut out = String::new();
    out.append("{\"message_id\":");
    out.append(message_id);
    out.append(",\"source_chain\":");
    out.append(source_chain);
    out.append(",\"sender_address\":");
    out.append(sender_address);
    out.append(",\"recipient\":");
    out.append(recipient);
    out.append(",\"token_contract\":");
    out.append(token_contract);
    out.append(",\"amount\":");
    push_decimal(&mut out, amount);
    out.append(",\"timestamp\":");
    push_decimal(&mut out, timestamp as u128);
    out.append("}");
    assert(out@ =~= unlocked_object(
        message_id@,
        source_chain@,
        sender_address@,
        recipient@,
        token_contract@,
        amount,
        timestamp,
    ));
    out
}

/// The payload of `event`, or `None` exactly where one of its texts cannot
/// be written as JSON.
pub fn locked_payload(event: &TokenLockedEvent) -> (r: Option<String>)
    ensures
        match r {
            Some(d) => locked_data(event@) == Some(d@),
            None => locked_data(event@) is None,
        },
{
    let message_id = encode_text(event.message_id.as_str())?;
    let sender = encode_text(event.sender.as_str())?;
    let token_contract = encode_text(event.token_contract.as_str())?;
    let destination_chain = encode_text(event.destination_chain.as_str())?;
    let destination_address = encode_text(event.destination_address.as_str())?;
    Some(
        assemble_locked(
            message_id.as_str(),
            sender.as_str(),
            token_contract.as_str(),
            event.amount,
            destination_chain.as_str(),
            destination_address.as_str(),
            event.nonce,
            event.timestamp,
        ),
    )
}

/// The payload of `event`, or `None` exactly where one of its texts cannot
/// be written as JSON.
pub fn unlocked_payload(event: &TokenUnlockedEvent) -> (r: Option<String>)
    ensures
        match r {
            Some(d) => unlocked_data(event@) == Some(d@),
            None => unlocked_data(event@) is None,
        },
{
    let message_id = encode_text(event.message_id.as_str())?;
    let source_chain = encode_text(event.source_chain.as_str())?;
    let sender_address = encode_text(event.sender_address.as_str())?;
    let recipient = encode_text(event.recipient.as_str())?;
    let token_contract = encode_text(event.token_contract.as_str())?;
    Some(
        assemble_unlocked(
            message_id.as_str(),
            source_chain.as_str(),
            sender_address.as_str(),
            recipient.as_str(),
            token_contract.as_str(),
            event.amount,
            event.timestamp,
        ),
    )
}

/// The log line of an event of kind `kind`. A payload that could not be
/// written is replaced by the empty object, so that a line is always made.
pub fn frame_event(kind: EventKind, data: Option<String>) -> (r: String)
    ensures
        r@ == event_line(
            kind,
            match data {
                Some(d) => d@,
                None => empty_data(),
            },
        ),
{
    let mut out = String::new();
    out.append("EVENT_JSON:{\"standard\":\"articium\",\"version\":\"1.0.0\",\"event\":\"");
    out.append(kind.tag());
    out.append("\",\"data\":");
    match data {
        Some(d) => {
            out.append(d.as_str());
        },
        None => {
            out.append("{}");
        },
    }
    out.append("}");
    assert(out@ =~= event_line(
        kind,
        match data {
            Some(d) => d@,
            None => empty_data(),
        },
    ));
    out
}

/// The log line that announces the lock `event`. Its payload is that of the
/// event, or the empty object where the payload cannot be written.
pub fn emit_token_locked_event(event: &TokenLockedEvent) -> (line: String)
    ensures
        line@ == event_line(EventKind::Locked, payload_or_empty(locked_data(event@))),
{
    frame_event(EventKind::Locked, locked_payload(event))
}

/// The log line that announces the unlock `event`. Its payload is that of the
/// event, or the empty object where the payload cannot be written.
pub fn emit_token_unlocked_event(event: &TokenUnlockedEvent) -> (line: String)
    ensures
        line@ == event_line(EventKind::Unlocked, payload_or_empty(unlocked_data(event@))),
{
    frame_event(EventKind::Unlocked, unlocked_payload(event))
}

} // verus!
