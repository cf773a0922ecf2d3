//! Polling session: for one connected and validated device, what each poll
//! tick produces and when the session ends.
//!
//! The session decides; its driver performs. The driver waits for the tick,
//! reads the telemetry characteristic, hands the outcome to the session, and
//! does what the returned action says.

use crate::bulk::{decode, record_of, PinecilBulkData};
use crate::clock::{utc_now, Timestamp};
use vstd::prelude::*;

verus! {

/// Default period of the poll tick, in seconds.
pub const POLL_PERIOD_SECS: u64 = 1;

/// Default capacity of the sample channel, in messages.
pub const SAMPLE_CHANNEL_CAPACITY: usize = 32;

/// One decoded sample on its way to the consumer.
#[derive(Debug, Clone, PartialEq, Eq)]
pub struct PinecilBulkDataMessage {
    /// Device ID of the device that was polled.
    pub id: String,
    /// When the sample was taken.
    pub timestamp: Timestamp,
    /// The sample.
    pub data: PinecilBulkData,
}

/// A message as contracts speak of it.
pub struct MessageView {
    pub id: Seq<char>,
    pub timestamp: Timestamp,
    pub data: PinecilBulkData,
}

impl View for PinecilBulkDataMessage {
    type V = MessageView;

    open spec fn view(&self) -> MessageView {
        MessageView { id: self.id@, timestamp: self.timestamp, data: self.data }
    }
}

/// What came of reading the telemetry characteristic at one tick.
#[derive(Debug)]
pub enum ReadOutcome {
    /// The bytes that the characteristic returned.
    Data(Vec<u8>),
    /// The device does not expose the characteristic.
    Missing,
    /// The transport reported an error.
    Failed,
}

/// Why a session ended.
#[derive(Debug, Clone, Copy, PartialEq, Eq, Structural)]
pub enum StopReason {
    /// The telemetry characteristic is not there.
    MissingCharacteristic,
    /// The transport could not read the characteristic.
    ReadFailed,
    /// The bytes read are not a telemetry record.
    MalformedRecord,
    /// The consumer of the sample channel is gone.
    ChannelClosed,
    /// The session was cancelled from outside.
    Cancelled,
}

/// Where a session stands.
#[derive(Debug, Clone, Copy, PartialEq, Eq, Structural)]
pub enum SessionPhase {
    /// Waiting for the next tick and its read.
    Idle,
    /// A message was handed out and the channel has not taken it yet.
    Sending,
    /// Over, for the reason given.
    Stopped(StopReason),
}

/// What the driver reports to the session.
#[derive(Debug)]
pub enum SessionEvent {
    /// A tick came and the characteristic was read, at the instant given.
    Read(ReadOutcome, Timestamp),
    /// The channel took the message last handed out.
    Delivered,
    /// The channel has no consumer any more.
    ChannelClosed,
    /// The device was seen to disconnect.
    Cancel,
}

/// What the session asks of the driver.
#[derive(Debug, PartialEq, Eq)]
pub enum SessionAction {
    /// Send this message to the sample channel, waiting while it is full.
    Send(PinecilBulkDataMessage),
    /// Wait for the next tick, then read.
    AwaitTick,
    /// A message is still on its way: read nothing until it is delivered.
    AwaitDelivery,
    /// End the session.
    Stop(StopReason),
}

/// An action as contracts speak of it.
pub enum SessionActionView {
    Send(MessageView),
    AwaitTick,
    AwaitDelivery,
    Stop(StopReason),
}

impl View for SessionAction {
    type V = SessionActionView;

    open spec fn view(&self) -> SessionActionView {
        match self {
            SessionAction::Send(message) => SessionActionView::Send(message@),
            SessionAction::AwaitTick => SessionActionView::AwaitTick,
            SessionAction::AwaitDelivery => SessionActionView::AwaitDelivery,
            SessionAction::Stop(reason) => SessionActionView::Stop(*reason),
        }
    }
}

/// A session as contracts speak of it.
pub struct SessionModel {
    /// Device ID that tags every message.
    pub id: Seq<char>,
    pub phase: SessionPhase,
}

/// Why a read outcome yields no sample, if it yields none.
pub open spec fn read_failure(outcome: ReadOutcome) -> Option<StopReason> {
    match outcome {
        ReadOutcome::Data(bytes) => if bytes@.len() == 56 {
            None
        } else {
            Some(StopReason::MalformedRecord)
        },
        ReadOutcome::Missing => Some(StopReason::MissingCharacteristic),
        ReadOutcome::Failed => Some(StopReason::ReadFailed),
    }
}

/// The message that a good read at instant `now` yields.
pub open spec fn message_of(id: Seq<char>, outcome: ReadOutcome, now: Timestamp) -> MessageView {
    MessageView { id, timestamp: now, data: record_of(outcome->Data_0@) }
}

/// The transition function of a session: the state after an event, and the
/// action that answers it.
pub open spec fn session_step(s: SessionModel, e: SessionEvent) -> (SessionModel, SessionActionView) {
    match s.phase {
        SessionPhase::Stopped(reason) => (s, SessionActionView::Stop(reason)),
        _ => match e {
            SessionEvent::Cancel => (
                SessionModel { phase: SessionPhase::Stopped(StopReason::Cancelled), ..s },
                SessionActionView::Stop(StopReason::Cancelled),
            ),
            SessionEvent::ChannelClosed => (
                SessionModel { phase: SessionPhase::Stopped(StopReason::ChannelClosed), ..s },
                SessionActionView::Stop(StopReason::ChannelClosed),
            ),
            SessionEvent::Delivered => (
                SessionModel { phase: SessionPhase::Idle, ..s },
                SessionActionView::AwaitTick,
            ),
            SessionEvent::Read(outcome, now) => if s.phase is Sending {
                (s, SessionActionView::AwaitDelivery)
            } else {
                match read_failure(outcome) {
                    Some(reason) => (
                        SessionModel { phase: SessionPhase::Stopped(reason), ..s },
                        SessionActionView::Stop(reason),
                    ),
                    None => (
                        SessionModel { phase: SessionPhase::Sending, ..s },
                        SessionActionView::Send(message_of(s.id, outcome, now)),
                    ),
                }
            },
        },
    }
}

/// The state of one polling session.
#[derive(Debug)]
pub struct PollingSession {
    id: String,
    phase: SessionPhase,
}

impl View for PollingSession {
    type V = SessionModel;

    closed spec fn view(&self) -> SessionModel {
        SessionModel { id: self.id@, phase: self.phase }
    }
}

impl PollingSession {
    /// A session for the device with the given device ID, waiting for its
    /// first tick.
    pub fn new(id: String) -> (session: PollingSession)
        ensures
            session@ == (SessionModel { id: id@, phase: SessionPhase::Idle }),
    {
        PollingSession { id, phase: SessionPhase::Idle }
    }

    /// The device ID that tags this session's messages.
    pub fn id(&self) -> (id: &str)
        ensures
            id@ == self@.id,
    {
        self.id.as_str()
    }

    /// Where the session stands.
    pub fn phase(&self) -> (phase: SessionPhase)
        ensures
            phase == self@.phase,
    {
        self.phase
    }

    /// Takes one event and answers with the action that the transition
    /// function gives.
    pub fn step(&mut self, event: SessionEvent) -> (action: SessionAction)
        ensures
            (final(self)@, action@) == session_step(old(self)@, event),
    {
        if let SessionPhase::Stopped(reason) = self.phase {
            return SessionAction::Stop(reason);
        }
        match event {
            SessionEvent::Cancel => {
                self.phase = SessionPhase::Stopped(StopReason::Cancelled);
                SessionAction::Stop(StopReason::Cancelled)
            },
            SessionEvent::ChannelClosed => {
                self.phase = SessionPhase::Stopped(StopReason::ChannelClosed);
                SessionAction::Stop(StopReason::ChannelClosed)
            },
            SessionEvent::Delivered => {
                self.phase = SessionPhase::Idle;
                SessionAction::AwaitTick
            },
            SessionEvent::Read(outcome, now) => {
                if let SessionPhase::Sending = self.phase {
                    return SessionAction::AwaitDelivery;
                }
                let reason = match outcome {
                    ReadOutcome::Data(bytes) => match decode(bytes.as_slice()) {
                        Ok(data) => {
                            self.phase = SessionPhase::Sending;
                            return SessionAction::Send(
                                PinecilBulkDataMessage { id: self.id.clone(), timestamp: now, data },
                            );
                        },
                        Err(_) => StopReason::MalformedRecord,
                    },
                    ReadOutcome::Missing => StopReason::MissingCharacteristic,
                    ReadOutcome::Failed => StopReason::ReadFailed,
                };
                self.phase = SessionPhase::Stopped(reason);
                SessionAction::Stop(reason)
            },
        }
    }

    /// One poll tick: stamps the outcome of the read with the current time and
    /// takes it as an event. Whatever the clock says, the session answers as
    /// the transition function does for a read at that instant.
    pub fn poll_bulk_data(&mut self, outcome: ReadOutcome) -> (action: SessionAction)
        ensures
            exists|now: Timestamp|
                (final(self)@, action@) == #[trigger] session_step(
                    old(self)@,
                    SessionEvent::Read(outcome, now),
                ),
    {
        let now = utc_now();
        self.step(SessionEvent::Read(outcome, now))
    }
}

/// A tick succeeds when the session is idle and the read yields a record.
pub open spec fn successful_tick(s: SessionModel, e: SessionEvent) -> bool {
    s.phase is Idle && e is Read && read_failure(e->Read_0) is None
}

/// The messages that a session hands out, in order, while it takes `events`
/// one after the other from state `s`.
pub open spec fn messages_sent(s: SessionModel, events: Seq<SessionEvent>) -> Seq<MessageView>
    decreases events.len(),
{
    if events.len() == 0 {
        Seq::empty()
    } else {
        let (next, action) = session_step(s, events[0]);
        let rest = messages_sent(next, events.drop_first());
        match action {
            SessionActionView::Send(message) => seq![message] + rest,
            _ => rest,
        }
    }
}

/// The number of successful ticks while a session takes `events` from state
/// `s`.
pub open spec fn successful_ticks(s: SessionModel, events: Seq<SessionEvent>) -> nat
    decreases events.len(),
{
    if events.len() == 0 {
        0
    } else {
        let here: nat = if successful_tick(s, events[0]) {
            1
        } else {
            0
        };
        here + successful_ticks(session_step(s, events[0]).0, events.drop_first())
    }
}

/// The clock readings of the reads in `events` strictly increase.
pub open spec fn clock_advances(events: Seq<SessionEvent>) -> bool {
    forall|i: int, j: int|
        0 <= i < j < events.len() && (#[trigger] events[i]) is Read && (#[trigger] events[j]) is Read
            ==> events[i]->Read_1.precedes(events[j]->Read_1)
}

/// Every read in `events` was made after the instant `t`.
pub open spec fn reads_follow(events: Seq<SessionEvent>, t: Timestamp) -> bool {
    forall|i: int|
        0 <= i < events.len() && (#[trigger] events[i]) is Read ==> t.precedes(events[i]->Read_1)
}

/// A session answers an event with a message exactly when the event is a
/// successful tick, and the message then carries the session's device ID, the
/// instant of the read and the decoded record.
pub proof fn lemma_message_iff_successful_tick(s: SessionModel, e: SessionEvent)
    ensures
        session_step(s, e).1 is Send <==> successful_tick(s, e),
        successful_tick(s, e) ==> session_step(s, e).1 == SessionActionView::Send(
            message_of(s.id, e->Read_0, e->Read_1),
        ),
{
}

/// Over any run, a session sends exactly one message per successful tick,
/// each tagged with the session's device ID.
pub proof fn lemma_one_message_per_successful_tick(s: SessionModel, events: Seq<SessionEvent>)
    ensures
        messages_sent(s, events).len() == successful_ticks(s, events),
        forall|k: int| 0 <= k < messages_sent(s, events).len() ==> (#[trigger] messages_sent(s, events)[k]).id == s.id,
    decreases events.len(),
{
    if events.len() > 0 {
        let next = session_step(s, events[0]).0;
        lemma_one_message_per_successful_tick(next, events.drop_first());
    }
}

/// A session that has stopped sends nothing more, whatever events follow.
pub proof fn lemma_stopped_session_is_silent(s: SessionModel, events: Seq<SessionEvent>)
    requires
        s.phase is Stopped,
    ensures
        messages_sent(s, events).len() == 0,
    decreases events.len(),
{
    if events.len() > 0 {
        lemma_stopped_session_is_silent(session_step(s, events[0]).0, events.drop_first());
    }
}

/// The first read or decode failure ends the session at once: the tick that
/// fails is answered with `Stop`, and no message follows it.
pub proof fn lemma_failure_ends_sending(s: SessionModel, e: SessionEvent, later: Seq<SessionEvent>)
    requires
        s.phase is Idle,
        e is Read,
        read_failure(e->Read_0) is Some,
    ensures
        session_step(s, e).1 == SessionActionView::Stop(read_failure(e->Read_0)->Some_0),
        messages_sent(s, seq![e] + later).len() == 0,
{
    let next = session_step(s, e).0;
    lemma_stopped_session_is_silent(next, later);
    assert((seq![e] + later).drop_first() =~= later);
}

/// Messages are stamped with the instants of their reads: when every read in
/// `events` was made after `t`, every message sent carries a later stamp
/// than `t`.
pub proof fn lemma_messages_follow(s: SessionModel, events: Seq<SessionEvent>, t: Timestamp)
    requires
        reads_follow(events, t),
    ensures
        forall|k: int| 0 <= k < messages_sent(s, events).len() ==> t.precedes(
            (#[trigger] messages_sent(s, events)[k]).timestamp,
        ),
    decreases events.len(),
{
    if events.len() > 0 {
        let next = session_step(s, events[0]).0;
        let tail = events.drop_first();
        assert forall|i: int| 0 <= i < tail.len() && (#[trigger] tail[i]) is Read implies t.precedes(
            tail[i]->Read_1,
        ) by {
            assert(tail[i] == events[i + 1]);
        }
        lemma_messages_follow(next, tail, t);
        let sent = messages_sent(s, events);
        let rest = messages_sent(next, tail);
        assert forall|k: int| 0 <= k < sent.len() implies t.precedes((#[trigger] sent[k]).timestamp) by {
            if session_step(s, events[0]).1 is Send {
                if k == 0 {
                    assert(events[0] is Read);
                } else {
                    assert(sent[k] == rest[k - 1]);
                }
            } else {
                assert(sent[k] == rest[k]);
            }
        }
    }
}

/// While the clock advances from read to read, the messages that a session
/// sends carry strictly increasing timestamps.
pub proof fn lemma_timestamps_increase(s: SessionModel, events: Seq<SessionEvent>)
    requires
        clock_advances(events),
    ensures
        forall|a: int, b: int|
            0 <= a < b < messages_sent(s, events).len() ==> (#[trigger] messages_sent(s, events)[a]).timestamp.precedes(
                (#[trigger] messages_sent(s, events)[b]).timestamp,
            ),
    decreases events.len(),
{
    if events.len() > 0 {
        let (next, action) = session_step(s, events[0]);
        let tail = events.drop_first();
        assert forall|i: int, j: int|
            0 <= i < j < tail.len() && (#[trigger] tail[i]) is Read && (#[trigger] tail[j]) is Read implies tail[i]->Read_1.precedes(
            tail[j]->Read_1,
        ) by {
            assert(tail[i] == events[i + 1]);
            assert(tail[j] == events[j + 1]);
        }
        lemma_timestamps_increase(next, tail);
        if action is Send {
            let t = events[0]->Read_1;
            assert forall|i: int| 0 <= i < tail.len() && (#[trigger] tail[i]) is Read implies t.precedes(
                tail[i]->Read_1,
            ) by {
                assert(tail[i] == events[i + 1]);
            }
            lemma_messages_follow(next, tail, t);
        }
        let sent = messages_sent(s, events);
        let rest = messages_sent(next, tail);
        assert forall|a: int, b: int| 0 <= a < b < sent.len() implies (#[trigger] sent[a]).timestamp.precedes(
            (#[trigger] sent[b]).timestamp,
        ) by {
            if action is Send {
                assert(sent[b] == rest[b - 1]);
                if a > 0 {
                    assert(sent[a] == rest[a - 1]);
                }
            } else {
                assert(sent[a] == rest[a]);
                assert(sent[b] == rest[b]);
            }
        }
    }
}

} // verus!
