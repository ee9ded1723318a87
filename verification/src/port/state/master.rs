//! The master role: it announces itself, sends the Sync beacon with its
//! FollowUp, and answers delay requests.

use crate::clock::{read_clock, Clock};
use crate::config::PortConfig;
use crate::datastructures::common::{PortIdentity, WireTimestamp};
use crate::datastructures::datasets::{CurrentDS, DefaultDS, ParentDS, TimePropertiesDS};
use crate::datastructures::encoding::lemma_splice_parts;
use crate::datastructures::messages::{DelayReqMessage, Message};
use crate::port::sequence_id::{lemma_following_differs, SequenceIdGenerator};
use crate::port::{
    send_general, send_time_critical, written, Outcome, PortAction, PortActionIterator,
    PortActionView, TimestampContext, TimestampContextInner,
};
use crate::ptp_instance::PtpInstanceState;
use crate::time::{Interval, Time};
use atomic_refcell::AtomicRefCell;
use vstd::prelude::*;
use vstd::slice::slice_subrange;

verus! {

/// The state of a port that is master: the counters of the two kinds of
/// message that it numbers itself. They run on for as long as the port
/// keeps the role.
#[derive(Clone, Copy, Debug, Default, PartialEq, Eq, Structural, Hash)]
pub struct MasterState {
    pub announce_seq_ids: SequenceIdGenerator,
    pub sync_seq_ids: SequenceIdGenerator,
}

impl MasterState {
    /// The state of a port that has just become master.
    pub open spec fn initial() -> MasterState {
        MasterState {
            announce_seq_ids: SequenceIdGenerator { current: 0 },
            sync_seq_ids: SequenceIdGenerator { current: 0 },
        }
    }

    /// The Sync message that the port sends next, if it does so at `now`.
    pub open spec fn sync_message(
        self,
        now: Time,
        port_identity: PortIdentity,
        default_ds: DefaultDS,
    ) -> Message {
        Message::sync_of(default_ds, port_identity, self.sync_seq_ids.current, now)
    }

    /// What the sync timer comes to when the clock reads `now`, or cannot
    /// be read. Without a reading nothing happens. With one the port takes
    /// the next sequence number, whether or not the message can then be
    /// written; where it can, the port has the timer set again and the
    /// message sent.
    pub open spec fn sync_outcome(
        self,
        now: Option<Time>,
        config: PortConfig,
        port_identity: PortIdentity,
        default_ds: DefaultDS,
        before: Seq<u8>,
    ) -> Outcome<MasterState> {
        match now {
            None => Outcome::nothing(self, before),
            Some(now) => {
                let message = self.sync_message(now, port_identity, default_ds);
                Outcome {
                    state: MasterState { sync_seq_ids: self.sync_seq_ids.advanced(), ..self },
                    buffer: written(message, before),
                    actions: if message.serialized(before.len()) is Ok {
                        seq![
                            PortActionView::ResetSyncTimer { duration: config.sync_interval.span() },
                            PortActionView::SendTimeCritical {
                                context: TimestampContext {
                                    inner: TimestampContextInner::Sync {
                                        id: self.sync_seq_ids.current,
                                    },
                                },
                                data: message.wire_bytes(),
                            },
                        ]
                    } else {
                        Seq::empty()
                    },
                }
            },
        }
    }

    /// The Announce message that the port sends next, if it does so at
    /// `now`.
    pub open spec fn announce_message(
        self,
        now: Time,
        default_ds: DefaultDS,
        parent_ds: ParentDS,
        current_ds: CurrentDS,
        time_properties_ds: TimePropertiesDS,
        port_identity: PortIdentity,
    ) -> Message {
        Message::announce_of(
            default_ds,
            parent_ds,
            current_ds,
            time_properties_ds,
            port_identity,
            self.announce_seq_ids.current,
            now,
        )
    }

    /// What the announce timer comes to when the clock reads `now`, or
    /// cannot be read: as for the sync timer, with a general message.
    pub open spec fn announce_outcome(
        self,
        now: Option<Time>,
        default_ds: DefaultDS,
        parent_ds: ParentDS,
        current_ds: CurrentDS,
        time_properties_ds: TimePropertiesDS,
        config: PortConfig,
        port_identity: PortIdentity,
        before: Seq<u8>,
    ) -> Outcome<MasterState> {
        match now {
            None => Outcome::nothing(self, before),
            Some(now) => {
                let message = self.announce_message(
                    now,
                    default_ds,
                    parent_ds,
                    current_ds,
                    time_properties_ds,
                    port_identity,
                );
                Outcome {
                    state: MasterState {
                        announce_seq_ids: self.announce_seq_ids.advanced(),
                        ..self
                    },
                    buffer: written(message, before),
                    actions: if message.serialized(before.len()) is Ok {
                        seq![
                            PortActionView::ResetAnnounceTimer {
                                duration: config.announce_interval.span(),
                            },
                            PortActionView::SendGeneral { data: message.wire_bytes() },
                        ]
                    } else {
                        Seq::empty()
                    },
                }
            },
        }
    }

    /// What the time at which a message left comes to: for a Sync message,
    /// the FollowUp with its sequence number and that time; for any other,
    /// nothing.
    pub open spec fn timestamp_outcome(
        self,
        context: TimestampContext,
        timestamp: Time,
        port_identity: PortIdentity,
        default_ds: DefaultDS,
        before: Seq<u8>,
    ) -> Outcome<MasterState> {
        match context.inner {
            TimestampContextInner::Sync { id } => Outcome::general_send(
                self,
                Message::follow_up_of(default_ds, port_identity, id, timestamp),
                before,
            ),
            TimestampContextInner::DelayReq { .. } => Outcome::nothing(self, before),
        }
    }

    /// What a message on the event channel comes to: for a delay request of
    /// another port, the response to it; for any other, nothing.
    pub open spec fn event_outcome(
        self,
        message: Message,
        timestamp: Time,
        min_delay_req_interval: Interval,
        port_identity: PortIdentity,
        before: Seq<u8>,
    ) -> Outcome<MasterState> {
        if message.common_header().source_port_identity == port_identity {
            Outcome::nothing(self, before)
        } else {
            match message {
                Message::DelayReq(request) => Outcome::general_send(
                    self,
                    Message::delay_resp_of(request, port_identity, min_delay_req_interval, timestamp),
                    before,
                ),
                _ => Outcome::nothing(self, before),
            }
        }
    }

    pub fn new() -> (r: MasterState)
        ensures
            r == MasterState::initial(),
    {
        MasterState {
            announce_seq_ids: SequenceIdGenerator::new(),
            sync_seq_ids: SequenceIdGenerator::new(),
        }
    }

    /// The time at which a time-critical message left has come in.
    pub fn handle_timestamp<'a>(
        &mut self,
        context: TimestampContext,
        timestamp: Time,
        port_identity: PortIdentity,
        default_ds: &DefaultDS,
        buffer: &'a mut [u8],
    ) -> (r: PortActionIterator<'a>)
        ensures
            old(self).timestamp_outcome(
                context,
                timestamp,
                port_identity,
                *default_ds,
                old(buffer)@,
            ).describes(*final(self), final(buffer)@, r@),
    {
        match context.inner {
            TimestampContextInner::Sync { id } => {
                self.handle_sync_timestamp(id, timestamp, port_identity, default_ds, buffer)
            },
            _ => PortActionIterator::empty(),
        }
    }

    /// The Sync message with sequence number `id` left at `timestamp`.
    pub fn handle_sync_timestamp<'a>(
        &mut self,
        id: u16,
        timestamp: Time,
        port_identity: PortIdentity,
        default_ds: &DefaultDS,
        buffer: &'a mut [u8],
    ) -> (r: PortActionIterator<'a>)
        ensures
            Outcome::general_send(
                *old(self),
                Message::follow_up_of(*default_ds, port_identity, id, timestamp),
                old(buffer)@,
            ).describes(*final(self), final(buffer)@, r@),
    {
        let message = Message::follow_up(default_ds, port_identity, id, timestamp);
        send_general(&message, buffer)
    }

    /// The sync timer has run out, and the clock reads `current_time` or
    /// could not be read.
    pub fn send_sync_at<'a>(
        &mut self,
        current_time: Option<Time>,
        config: &PortConfig,
        port_identity: PortIdentity,
        default_ds: &DefaultDS,
        buffer: &'a mut [u8],
    ) -> (r: PortActionIterator<'a>)
        ensures
            old(self).sync_outcome(
                current_time,
                *config,
                port_identity,
                *default_ds,
                old(buffer)@,
            ).describes(*final(self), final(buffer)@, r@),
    {
        let current_time = match current_time {
            Some(time) => time,
            None => {
                return PortActionIterator::empty();
            },
        };
        let seq_id = self.sync_seq_ids.generate();
        let message = Message::sync(default_ds, port_identity, seq_id, current_time);
        send_time_critical(
            PortAction::ResetSyncTimer { duration: config.sync_interval.as_duration() },
            TimestampContext { inner: TimestampContextInner::Sync { id: seq_id } },
            &message,
            buffer,
        )
    }

    /// The sync timer has run out. The outcome is that of
    /// [`MasterState::send_sync_at`] for what the clock reads, or for no
    /// reading where the clock is exclusively borrowed.
    pub fn send_sync<'a, C: Clock>(
        &mut self,
        local_clock: &AtomicRefCell<C>,
        config: &PortConfig,
        port_identity: PortIdentity,
        default_ds: &DefaultDS,
        buffer: &'a mut [u8],
    ) -> (r: PortActionIterator<'a>)
        ensures
            exists|now: Option<Time>|
                old(self).sync_outcome(
                    now,
                    *config,
                    port_identity,
                    *default_ds,
                    old(buffer)@,
                ).describes(*final(self), final(buffer)@, r@),
    {
        let current_time = read_clock(local_clock);
        self.send_sync_at(current_time, config, port_identity, default_ds, buffer)
    }

    /// The announce timer has run out, and the clock reads `current_time`
    /// or could not be read.
    pub fn send_announce_at<'a, C, F>(
        &mut self,
        current_time: Option<Time>,
        global: &PtpInstanceState<C, F>,
        config: &PortConfig,
        port_identity: PortIdentity,
        buffer: &'a mut [u8],
    ) -> (r: PortActionIterator<'a>)
        ensures
            old(self).announce_outcome(
                current_time,
                global.default_ds,
                global.parent_ds,
                global.current_ds,
                global.time_properties_ds,
                *config,
                port_identity,
                old(buffer)@,
            ).describes(*final(self), final(buffer)@, r@),
    {
        let current_time = match current_time {
            Some(time) => time,
            None => {
                return PortActionIterator::empty();
            },
        };
        let seq_id = self.announce_seq_ids.generate();
        let message = Message::announce(global, port_identity, seq_id, current_time);
        let ghost before = buffer@;
        let packet_length = match message.serialize(buffer) {
            Ok(length) => length,
            Err(_) => {
                return PortActionIterator::empty();
            },
        };
        proof {
            message.lemma_wire_len();
            lemma_splice_parts(before, 0, message.wire_bytes());
        }
        let sent: &'a [u8] = buffer;
        PortActionIterator::two(
            PortAction::ResetAnnounceTimer { duration: config.announce_interval.as_duration() },
            PortAction::SendGeneral { data: slice_subrange(sent, 0, packet_length) },
        )
    }

    /// The announce timer has run out. The outcome is that of
    /// [`MasterState::send_announce_at`] for what the clock of the
    /// instance reads, or for no reading where the clock is exclusively
    /// borrowed.
    pub fn send_announce<'a, C: Clock, F>(
        &mut self,
        global: &PtpInstanceState<C, F>,
        config: &PortConfig,
        port_identity: PortIdentity,
        buffer: &'a mut [u8],
    ) -> (r: PortActionIterator<'a>)
        ensures
            exists|now: Option<Time>|
                old(self).announce_outcome(
                    now,
                    global.default_ds,
                    global.parent_ds,
                    global.current_ds,
                    global.time_properties_ds,
                    *config,
                    port_identity,
                    old(buffer)@,
                ).describes(*final(self), final(buffer)@, r@),
    {
        let current_time = read_clock(&global.local_clock);
        self.send_announce_at(current_time, global, config, port_identity, buffer)
    }

    /// A message has come in on the event channel at `timestamp`.
    pub fn handle_event_receive<'a>(
        &mut self,
        message: Message,
        timestamp: Time,
        min_delay_req_interval: Interval,
        port_identity: PortIdentity,
        buffer: &'a mut [u8],
    ) -> (r: PortActionIterator<'a>)
        ensures
            old(self).event_outcome(
                message,
                timestamp,
                min_delay_req_interval,
                port_identity,
                old(buffer)@,
            ).describes(*final(self), final(buffer)@, r@),
    {
        if message.header().source_port_identity == port_identity {
            return PortActionIterator::empty();
        }
        match message {
            Message::DelayReq(request) => self.handle_delay_req(
                request,
                timestamp,
                min_delay_req_interval,
                port_identity,
                buffer,
            ),
            _ => PortActionIterator::empty(),
        }
    }

    /// A delay request of another port has come in at `timestamp`.
    pub fn handle_delay_req<'a>(
        &mut self,
        message: DelayReqMessage,
        timestamp: Time,
        min_delay_req_interval: Interval,
        port_identity: PortIdentity,
        buffer: &'a mut [u8],
    ) -> (r: PortActionIterator<'a>)
        ensures
            Outcome::general_send(
                *old(self),
                Message::delay_resp_of(message, port_identity, min_delay_req_interval, timestamp),
                old(buffer)@,
            ).describes(*final(self), final(buffer)@, r@),
    {
        let delay_resp_message = Message::delay_resp(
            &message,
            port_identity,
            min_delay_req_interval,
            timestamp,
        );
        send_general(&delay_resp_message, buffer)
    }

    /// Two Sync messages sent one after the other have different sequence
    /// numbers, and so have two Announce messages.
    pub proof fn lemma_consecutive_ids_differ(
        self,
        first: Time,
        second: Time,
        default_ds: DefaultDS,
        parent_ds: ParentDS,
        current_ds: CurrentDS,
        time_properties_ds: TimePropertiesDS,
        config: PortConfig,
        port_identity: PortIdentity,
        before: Seq<u8>,
    )
        ensures
            ({
                let then = self.sync_outcome(
                    Some(first),
                    config,
                    port_identity,
                    default_ds,
                    before,
                );
                self.sync_message(first, port_identity, default_ds).common_header().sequence_id
                    != then.state.sync_message(
                    second,
                    port_identity,
                    default_ds,
                ).common_header().sequence_id
            }),
            ({
                let then = self.announce_outcome(
                    Some(first),
                    default_ds,
                    parent_ds,
                    current_ds,
                    time_properties_ds,
                    config,
                    port_identity,
                    before,
                );
                self.announce_message(
                    first,
                    default_ds,
                    parent_ds,
                    current_ds,
                    time_properties_ds,
                    port_identity,
                ).common_header().sequence_id != then.state.announce_message(
                    second,
                    default_ds,
                    parent_ds,
                    current_ds,
                    time_properties_ds,
                    port_identity,
                ).common_header().sequence_id
            }),
    {
        lemma_following_differs(self.sync_seq_ids.current);
        lemma_following_differs(self.announce_seq_ids.current);
    }

    /// The message that answers the time at which the Sync message with
    /// sequence number `id` left is a FollowUp with that number and that
    /// time, and it is read back as such from the bytes that are sent.
    pub proof fn lemma_follow_up_matches_sync(
        self,
        id: u16,
        timestamp: Time,
        port_identity: PortIdentity,
        default_ds: DefaultDS,
        before: Seq<u8>,
    )
        ensures
            ({
                let outcome = self.timestamp_outcome(
                    TimestampContext { inner: TimestampContextInner::Sync { id } },
                    timestamp,
                    port_identity,
                    default_ds,
                    before,
                );
                outcome.actions.len() > 0 ==> {
                    &&& outcome.actions.len() == 1
                    &&& outcome.actions[0] matches PortActionView::SendGeneral { data }
                    &&& Message::parse(data) matches Ok(Message::FollowUp(follow_up))
                    &&& follow_up.header.sequence_id == id
                    &&& follow_up.precise_origin_timestamp == WireTimestamp::of_time(timestamp)
                    &&& follow_up.header.correction_field == timestamp.fraction()
                }
            }),
    {
        let message = Message::follow_up_of(default_ds, port_identity, id, timestamp);
        if message.serialized(before.len()) is Ok {
            message.lemma_round_trip(Seq::empty());
            assert(message.wire_bytes() + Seq::<u8>::empty() =~= message.wire_bytes());
        }
    }

    /// The message that answers a delay request names the port that sent
    /// the request and carries the sequence number of the request, and it
    /// is read back as such from the bytes that are sent.
    pub proof fn lemma_delay_resp_matches_request(
        self,
        request: DelayReqMessage,
        timestamp: Time,
        min_delay_req_interval: Interval,
        port_identity: PortIdentity,
        before: Seq<u8>,
    )
        ensures
            ({
                let outcome = self.event_outcome(
                    Message::DelayReq(request),
                    timestamp,
                    min_delay_req_interval,
                    port_identity,
                    before,
                );
                outcome.actions.len() > 0 ==> {
                    &&& outcome.actions.len() == 1
                    &&& outcome.actions[0] matches PortActionView::SendGeneral { data }
                    &&& Message::parse(data) matches Ok(Message::DelayResp(response))
                    &&& response.requesting_port_identity == request.header.source_port_identity
                    &&& response.header.sequence_id == request.header.sequence_id
                    &&& response.receive_timestamp == WireTimestamp::of_time(timestamp)
                }
            }),
    {
        let message = Message::delay_resp_of(
            request,
            port_identity,
            min_delay_req_interval,
            timestamp,
        );
        if request.header.source_port_identity != port_identity && message.serialized(
            before.len(),
        ) is Ok {
            message.lemma_round_trip(Seq::empty());
            assert(message.wire_bytes() + Seq::<u8>::empty() =~= message.wire_bytes());
        }
    }

    /// A message that the port itself has sent leads to no action and
    /// changes nothing.
    pub proof fn lemma_self_sourced_ignored(
        self,
        message: Message,
        timestamp: Time,
        min_delay_req_interval: Interval,
        port_identity: PortIdentity,
        before: Seq<u8>,
    )
        requires
            message.common_header().source_port_identity == port_identity,
        ensures
            self.event_outcome(message, timestamp, min_delay_req_interval, port_identity, before)
                == Outcome::nothing(self, before),
    {
    }
}

} // verus!
