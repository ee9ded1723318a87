//! A port of the instance: what it is asked to do and what it asks for.

use crate::datastructures::encoding::{lemma_splice_parts, splice};
use crate::datastructures::messages::Message;
use crate::datastructures::WireFormatError;
use crate::time::{Duration, Time};
use vstd::prelude::*;
use vstd::slice::slice_subrange;

pub mod sequence_id;
pub mod state;

pub use sequence_id::SequenceIdGenerator;

verus! {

/// What a time-critical message was sent for.
#[derive(Clone, Copy, Debug, PartialEq, Eq, Structural, Hash)]
pub enum TimestampContextInner {
    Sync { id: u16 },
    DelayReq { id: u16 },
}

/// The token that goes out with a time-critical message and comes back
/// with the time at which the message left.
#[derive(Clone, Copy, Debug, PartialEq, Eq, Structural, Hash)]
pub struct TimestampContext {
    pub inner: TimestampContextInner,
}

/// What a slave has measured in one exchange with its master.
#[derive(Clone, Copy, Debug, Default, PartialEq, Eq, Structural)]
pub struct Measurement {
    /// When the Sync message of the exchange arrived.
    pub event_time: Time,
    /// How far the clock of the slave is ahead of the clock of the master.
    pub offset_from_master: Duration,
    /// How long a message takes from one to the other.
    pub mean_path_delay: Duration,
}

impl Measurement {
    /// What an exchange measures in which the Sync message left the master
    /// at `t1` and arrived at `t2`, and the delay request left the slave at
    /// `t3` and arrived at `t4`: half the difference of the two passages
    /// as the offset, half their sum as the delay, each rounded down.
    pub open spec fn of_exchange(t1: Time, t2: Time, t3: Time, t4: Time) -> Measurement {
        let forward = t2.elapsed_since(t1);
        let backward = t4.elapsed_since(t3);
        Measurement {
            event_time: t2,
            offset_from_master: forward.difference(backward).halved(),
            mean_path_delay: forward.sum(backward).halved(),
        }
    }

    pub fn from_exchange(t1: Time, t2: Time, t3: Time, t4: Time) -> (r: Measurement)
        ensures
            r == Measurement::of_exchange(t1, t2, t3, t4),
    {
        let forward = t2.saturating_sub(t1);
        let backward = t4.saturating_sub(t3);
        Measurement {
            event_time: t2,
            offset_from_master: forward.saturating_sub(backward).half(),
            mean_path_delay: forward.saturating_add(backward).half(),
        }
    }
}

/// What the engine asks the surrounding system to do.
#[derive(Clone, Copy, Debug, PartialEq, Eq)]
pub enum PortAction<'a> {
    /// Send `data` and report when it left, together with `context`.
    SendTimeCritical { context: TimestampContext, data: &'a [u8] },
    /// Send `data`.
    SendGeneral { data: &'a [u8] },
    ResetAnnounceTimer { duration: Duration },
    ResetSyncTimer { duration: Duration },
    ResetDelayRequestTimer { duration: Duration },
    ResetAnnounceReceiptTimer { duration: Duration },
}

/// A [`PortAction`] with the bytes that it refers to.
pub enum PortActionView {
    SendTimeCritical { context: TimestampContext, data: Seq<u8> },
    SendGeneral { data: Seq<u8> },
    ResetAnnounceTimer { duration: Duration },
    ResetSyncTimer { duration: Duration },
    ResetDelayRequestTimer { duration: Duration },
    ResetAnnounceReceiptTimer { duration: Duration },
}

impl<'a> View for PortAction<'a> {
    type V = PortActionView;

    open spec fn view(&self) -> PortActionView {
        match *self {
            PortAction::SendTimeCritical { context, data } => PortActionView::SendTimeCritical {
                context,
                data: data@,
            },
            PortAction::SendGeneral { data } => PortActionView::SendGeneral { data: data@ },
            PortAction::ResetAnnounceTimer { duration } => PortActionView::ResetAnnounceTimer {
                duration,
            },
            PortAction::ResetSyncTimer { duration } => PortActionView::ResetSyncTimer { duration },
            PortAction::ResetDelayRequestTimer { duration } => {
                PortActionView::ResetDelayRequestTimer { duration }
            },
            PortAction::ResetAnnounceReceiptTimer { duration } => {
                PortActionView::ResetAnnounceReceiptTimer { duration }
            },
        }
    }
}

/// The actions that one event leads to, in the order in which they are to
/// be carried out: at most four, held in place.
#[derive(Debug)]
pub struct PortActionIterator<'a> {
    first: Option<PortAction<'a>>,
    second: Option<PortAction<'a>>,
    third: Option<PortAction<'a>>,
    fourth: Option<PortAction<'a>>,
}

/// The actions that `slot` holds: one or none.
pub open spec fn held(slot: Option<PortAction>) -> Seq<PortActionView> {
    match slot {
        Some(action) => seq![action@],
        None => Seq::empty(),
    }
}

impl<'a> View for PortActionIterator<'a> {
    type V = Seq<PortActionView>;

    /// The actions that are left, the next one first.
    closed spec fn view(&self) -> Seq<PortActionView> {
        held(self.first) + held(self.second) + held(self.third) + held(self.fourth)
    }
}

impl<'a> PortActionIterator<'a> {
    /// No action.
    pub fn empty() -> (r: PortActionIterator<'a>)
        ensures
            r@ == Seq::<PortActionView>::empty(),
    {
        PortActionIterator { first: None, second: None, third: None, fourth: None }
    }

    /// One action.
    pub fn one(action: PortAction<'a>) -> (r: PortActionIterator<'a>)
        ensures
            r@ == seq![action@],
    {
        PortActionIterator { first: Some(action), second: None, third: None, fourth: None }
    }

    /// Two actions, `first` before `second`.
    pub fn two(first: PortAction<'a>, second: PortAction<'a>) -> (r: PortActionIterator<'a>)
        ensures
            r@ == seq![first@, second@],
    {
        PortActionIterator { first: Some(first), second: Some(second), third: None, fourth: None }
    }

    pub proof fn lemma_at_most_four(&self)
        ensures
            self@.len() <= 4,
    {
    }

    /// The number of actions that are left.
    pub fn len(&self) -> (r: usize)
        ensures
            r == self@.len(),
    {
        let mut count: usize = 0;
        if self.first.is_some() {
            count = count + 1;
        }
        if self.second.is_some() {
            count = count + 1;
        }
        if self.third.is_some() {
            count = count + 1;
        }
        if self.fourth.is_some() {
            count = count + 1;
        }
        count
    }

    /// Takes the next action, if one is left.
    pub fn next(&mut self) -> (r: Option<PortAction<'a>>)
        ensures
            match r {
                Some(action) => old(self)@.len() > 0 && action@ == old(self)@[0] && final(self)@
                    == old(self)@.drop_first(),
                None => old(self)@.len() == 0 && final(self)@.len() == 0,
            },
    {
        if self.first.is_some() {
            self.first.take()
        } else if self.second.is_some() {
            self.second.take()
        } else if self.third.is_some() {
            self.third.take()
        } else {
            self.fourth.take()
        }
    }
}

/// What is in a buffer that held `before` after an attempt to write
/// `message` to it: the message at its start where it could be written,
/// else what was there.
pub open spec fn written(message: Message, before: Seq<u8>) -> Seq<u8> {
    if message.serialized(before.len()) is Ok {
        splice(before, 0, message.wire_bytes())
    } else {
        before
    }
}

/// A message that was written to a buffer is read back from the buffer as
/// it was, whatever the buffer held before.
pub proof fn lemma_written_reads_back(message: Message, before: Seq<u8>)
    requires
        message.serialized(before.len()) is Ok,
    ensures
        Message::parse(written(message, before)) == Ok::<Message, WireFormatError>(message),
{
    let rest = before.subrange(message.wire_bytes().len() as int, before.len() as int);
    message.lemma_wire_len();
    message.lemma_round_trip(rest);
    assert(written(message, before) =~= message.wire_bytes() + rest);
}

/// What a call on a port in state `S` comes to: the state and the buffer
/// that it leaves, and the actions that it asks for.
pub struct Outcome<S> {
    pub state: S,
    pub buffer: Seq<u8>,
    pub actions: Seq<PortActionView>,
}

impl<S> Outcome<S> {
    /// The outcome of a call that changes nothing and asks for nothing.
    pub open spec fn nothing(state: S, buffer: Seq<u8>) -> Outcome<S> {
        Outcome { state, buffer, actions: Seq::empty() }
    }

    /// The outcome of an attempt to send `message` as a general message:
    /// the one action that sends its bytes, or none where it could not be
    /// written.
    pub open spec fn general_send(state: S, message: Message, before: Seq<u8>) -> Outcome<S> {
        Outcome {
            state,
            buffer: written(message, before),
            actions: if message.serialized(before.len()) is Ok {
                seq![PortActionView::SendGeneral { data: message.wire_bytes() }]
            } else {
                Seq::empty()
            },
        }
    }

    /// A call that left `state` and `buffer` and returned `actions` came to
    /// this outcome.
    pub open spec fn describes(self, state: S, buffer: Seq<u8>, actions: Seq<PortActionView>) -> bool {
        &&& self.state == state
        &&& self.buffer == buffer
        &&& self.actions == actions
    }
}

/// Sends `message` as a general message from the start of `buffer`.
pub fn send_general<'a>(message: &Message, buffer: &'a mut [u8]) -> (r: PortActionIterator<'a>)
    ensures
        Outcome::general_send((), *message, old(buffer)@).describes((), final(buffer)@, r@),
{
    let ghost before = buffer@;
    let packet_length = match message.serialize(buffer) {
        Ok(length) => length,
        Err(_) => {
            return PortActionIterator::empty();
        },
    };
    proof {
        message.lemma_wire_len();
        lemma_splice_parts(before, 0, message.wire_bytes());
    }
    let sent: &'a [u8] = buffer;
    PortActionIterator::one(PortAction::SendGeneral { data: slice_subrange(sent, 0, packet_length) })
}

/// Sends `message` as a time-critical message from the start of `buffer`,
/// after `first`.
pub fn send_time_critical<'a>(
    first: PortAction<'a>,
    context: TimestampContext,
    message: &Message,
    buffer: &'a mut [u8],
) -> (r: PortActionIterator<'a>)
    ensures
        final(buffer)@ == written(*message, old(buffer)@),
        r@ == if message.serialized(old(buffer)@.len()) is Ok {
            seq![first@, PortActionView::SendTimeCritical { context, data: message.wire_bytes() }]
        } else {
            Seq::empty()
        },
{
    let ghost before = buffer@;
    let packet_length = match message.serialize(buffer) {
        Ok(length) => length,
        Err(_) => {
            return PortActionIterator::empty();
        },
    };
    proof {
        message.lemma_wire_len();
        lemma_splice_parts(before, 0, message.wire_bytes());
    }
    let sent: &'a [u8] = buffer;
    PortActionIterator::two(
        first,
        PortAction::SendTimeCritical { context, data: slice_subrange(sent, 0, packet_length) },
    )
}

} // verus!
