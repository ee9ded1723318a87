//! The slave role: it takes in the master's Sync stream, probes the path
//! with delay requests, and puts the four times of an exchange together
//! into a measurement.

use crate::config::PortConfig;
use crate::datastructures::common::PortIdentity;
use crate::datastructures::datasets::DefaultDS;
use crate::datastructures::messages::{AnnounceMessage, Message};
use crate::port::sequence_id::{lemma_following_differs, SequenceIdGenerator};
use crate::port::{
    send_time_critical, written, Measurement, Outcome, PortAction, PortActionIterator,
    PortActionView, TimestampContext, TimestampContextInner,
};
use crate::time::{Duration, Interval, Time};
use rand::rngs::StdRng;
use vstd::prelude::*;

verus! {

/// `rand::rngs::StdRng`: the standard generator of random numbers.
#[verifier::external_type_specification]
#[verifier::external_body]
pub struct ExStdRng(StdRng);

/// `RngCore::next_u32` of `rand::rngs::StdRng`: the next random number.
/// Which number comes is not known here.
#[verifier::external_body]
pub(crate) fn draw(rng: &mut StdRng) -> (random: u32) {
    rand::RngCore::next_u32(rng)
}

/// What the slave keeps of the last Sync message of its master.
#[derive(Clone, Copy, Debug, PartialEq, Eq, Structural)]
pub struct SyncRecord {
    pub sequence_id: u16,
    /// When the message arrived.
    pub ingress: Time,
    /// When the message left, as far as the master has said so far.
    pub origin: Time,
    /// The corrections to `origin` that came with it.
    pub correction: Duration,
    /// The master has announced a FollowUp that has not come yet.
    pub awaits_follow_up: bool,
}

/// What the slave keeps of its last delay request.
#[derive(Clone, Copy, Debug, PartialEq, Eq, Structural)]
pub struct DelayRecord {
    pub sequence_id: u16,
    /// When the request left, once that is known.
    pub egress: Option<Time>,
    /// When the request arrived at the master, once the master has said so.
    pub receive: Option<Time>,
}

/// The state of a port that is slave. It holds one Sync message and one
/// delay request at a time: a new one takes the place of the one before.
#[derive(Clone, Copy, Debug, PartialEq, Eq)]
pub struct SlaveState {
    /// The master that the port follows. Messages of other ports are
    /// passed over.
    pub remote_master: PortIdentity,
    pub delay_req_ids: SequenceIdGenerator,
    pub sync: Option<SyncRecord>,
    pub delay: Option<DelayRecord>,
    /// The shortest interval between delay requests that the master has
    /// asked for in its last response.
    pub min_delay_req_interval: Option<Interval>,
    /// The last Announce message of the master.
    pub last_announce: Option<AnnounceMessage>,
}

impl SlaveState {
    /// The state of a port that has just become slave of `remote_master`.
    pub open spec fn following(remote_master: PortIdentity) -> SlaveState {
        SlaveState {
            remote_master,
            delay_req_ids: SequenceIdGenerator { current: 0 },
            sync: None,
            delay: None,
            min_delay_req_interval: None,
            last_announce: None,
        }
    }

    /// The state after `message` has come in on the event channel at
    /// `timestamp`: a Sync message of the master takes the place of the one
    /// before, and awaits a FollowUp where its two-step flag is set.
    pub open spec fn after_event(self, message: Message, timestamp: Time) -> SlaveState {
        if message.common_header().source_port_identity != self.remote_master {
            self
        } else {
            match message {
                Message::Sync(sync) => SlaveState {
                    sync: Some(
                        SyncRecord {
                            sequence_id: sync.header.sequence_id,
                            ingress: timestamp,
                            origin: sync.origin_timestamp.time(),
                            correction: sync.header.correction_field,
                            awaits_follow_up: sync.header.two_step_flag,
                        },
                    ),
                    ..self
                },
                _ => self,
            }
        }
    }

    /// The state after `message` has come in on the general channel of the
    /// port `own`. A FollowUp that the last Sync message awaits completes
    /// it. A DelayResp to the last delay request of this port gives the
    /// time at which the request arrived, and the interval that the master
    /// asks for. An Announce message is kept.
    pub open spec fn after_general(self, message: Message, own: PortIdentity) -> SlaveState {
        if message.common_header().source_port_identity != self.remote_master {
            self
        } else {
            match message {
                Message::FollowUp(follow_up) => match self.sync {
                    Some(record) => if record.awaits_follow_up && record.sequence_id
                        == follow_up.header.sequence_id {
                        SlaveState {
                            sync: Some(
                                SyncRecord {
                                    origin: follow_up.precise_origin_timestamp.time(),
                                    correction: record.correction.sum(
                                        follow_up.header.correction_field,
                                    ),
                                    awaits_follow_up: false,
                                    ..record
                                },
                            ),
                            ..self
                        }
                    } else {
                        self
                    },
                    None => self,
                },
                Message::DelayResp(response) => match self.delay {
                    Some(record) => if response.requesting_port_identity == own
                        && record.sequence_id == response.header.sequence_id {
                        SlaveState {
                            delay: Some(
                                DelayRecord {
                                    receive: Some(response.receive_timestamp.time()),
                                    ..record
                                },
                            ),
                            min_delay_req_interval: Some(
                                Interval { log_2: response.header.log_message_interval },
                            ),
                            ..self
                        }
                    } else {
                        self
                    },
                    None => self,
                },
                Message::Announce(announce) => SlaveState {
                    last_announce: Some(announce),
                    ..self
                },
                _ => self,
            }
        }
    }

    /// The state after the time at which a message left has come in: the
    /// last delay request takes it where the token is its own.
    pub open spec fn after_timestamp(self, context: TimestampContext, timestamp: Time) -> SlaveState {
        match (context.inner, self.delay) {
            (TimestampContextInner::DelayReq { id }, Some(record)) => if record.sequence_id == id {
                SlaveState {
                    delay: Some(DelayRecord { egress: Some(timestamp), ..record }),
                    ..self
                }
            } else {
                self
            },
            _ => self,
        }
    }

    /// The measurement that the state holds: that of the last Sync message,
    /// once it is complete, and of the last delay request, once both of its
    /// times are known.
    pub open spec fn measurement(self) -> Option<Measurement> {
        match (self.sync, self.delay) {
            (Some(sync), Some(delay)) => match (delay.egress, delay.receive) {
                (Some(egress), Some(receive)) => if sync.awaits_follow_up {
                    None
                } else {
                    Some(
                        Measurement::of_exchange(
                            sync.origin.shifted(sync.correction),
                            sync.ingress,
                            egress,
                            receive,
                        ),
                    )
                },
                _ => None,
            },
            _ => None,
        }
    }

    /// How long the last delay request took to the master, once both of its
    /// times are known.
    pub open spec fn measured_path_delay(self) -> Option<Duration> {
        match self.delay {
            Some(delay) => match (delay.egress, delay.receive) {
                (Some(egress), Some(receive)) => Some(receive.elapsed_since(egress)),
                _ => None,
            },
            None => None,
        }
    }

    /// The state after its measurement was taken out: without the Sync
    /// message where there was a measurement, else as it was. The delay
    /// request stays for the next Sync message.
    pub open spec fn after_extraction(self) -> SlaveState {
        if self.measurement() is Some {
            SlaveState { sync: None, ..self }
        } else {
            self
        }
    }

    /// The interval that the port has between its delay requests on
    /// average: the one that it is configured with, or the one that the
    /// master asks for where that is longer.
    pub open spec fn mean_delay_interval(self, config: PortConfig) -> Interval {
        match self.min_delay_req_interval {
            Some(asked) => asked.longer(config.delay_interval()),
            None => config.delay_interval(),
        }
    }

    /// The delay request that the port sends next.
    pub open spec fn delay_req_message(
        self,
        port_identity: PortIdentity,
        default_ds: DefaultDS,
    ) -> Message {
        Message::delay_req_of(default_ds, port_identity, self.delay_req_ids.current)
    }

    /// What the delay request timer comes to when the random number drawn
    /// is `random`. The port takes the next sequence number, whether or not
    /// the request can then be written. Where it can, the request takes the
    /// place of the one before, and the port has the timer set again, to
    /// the mean interval stretched by what `random` picks, and the request
    /// sent.
    pub open spec fn delay_request_outcome(
        self,
        random: u32,
        config: PortConfig,
        port_identity: PortIdentity,
        default_ds: DefaultDS,
        before: Seq<u8>,
    ) -> Outcome<SlaveState> {
        let id = self.delay_req_ids.current;
        let message = self.delay_req_message(port_identity, default_ds);
        let sent = message.serialized(before.len()) is Ok;
        Outcome {
            state: SlaveState {
                delay_req_ids: self.delay_req_ids.advanced(),
                delay: if sent {
                    Some(DelayRecord { sequence_id: id, egress: None, receive: None })
                } else {
                    self.delay
                },
                ..self
            },
            buffer: written(message, before),
            actions: if sent {
                seq![
                    PortActionView::ResetDelayRequestTimer {
                        duration: self.mean_delay_interval(config).span().jittered(random),
                    },
                    PortActionView::SendTimeCritical {
                        context: TimestampContext { inner: TimestampContextInner::DelayReq { id } },
                        data: message.wire_bytes(),
                    },
                ]
            } else {
                Seq::empty()
            },
        }
    }

    pub fn new(remote_master: PortIdentity) -> (r: SlaveState)
        ensures
            r == SlaveState::following(remote_master),
    {
        SlaveState {
            remote_master,
            delay_req_ids: SequenceIdGenerator::new(),
            sync: None,
            delay: None,
            min_delay_req_interval: None,
            last_announce: None,
        }
    }

    pub fn remote_master(&self) -> (r: PortIdentity)
        ensures
            r == self.remote_master,
    {
        self.remote_master
    }

    pub fn path_delay(&self) -> (r: Option<Duration>)
        ensures
            r == self.measured_path_delay(),
    {
        match self.delay {
            Some(delay) => match (delay.egress, delay.receive) {
                (Some(egress), Some(receive)) => Some(receive.saturating_sub(egress)),
                _ => None,
            },
            None => None,
        }
    }

    /// A message has come in on the event channel at `timestamp`. A slave
    /// answers none.
    pub fn handle_event_receive<'a>(&mut self, message: Message, timestamp: Time) -> (r:
        PortActionIterator<'a>)
        ensures
            *final(self) == old(self).after_event(message, timestamp),
            r@ == Seq::<PortActionView>::empty(),
    {
        if message.header().source_port_identity != self.remote_master {
            return PortActionIterator::empty();
        }
        match message {
            Message::Sync(sync) => {
                self.sync = Some(
                    SyncRecord {
                        sequence_id: sync.header.sequence_id,
                        ingress: timestamp,
                        origin: Time::from(sync.origin_timestamp),
                        correction: sync.header.correction_field,
                        awaits_follow_up: sync.header.two_step_flag,
                    },
                );
            },
            _ => {},
        }
        PortActionIterator::empty()
    }

    /// A message has come in on the general channel of the port
    /// `port_identity`.
    pub fn handle_general_receive(&mut self, message: Message, port_identity: PortIdentity)
        ensures
            *final(self) == old(self).after_general(message, port_identity),
    {
        if message.header().source_port_identity != self.remote_master {
            return ;
        }
        match message {
            Message::FollowUp(follow_up) => {
                if let Some(record) = self.sync {
                    if record.awaits_follow_up && record.sequence_id
                        == follow_up.header.sequence_id {
                        self.sync = Some(
                            SyncRecord {
                                sequence_id: record.sequence_id,
                                ingress: record.ingress,
                                origin: Time::from(follow_up.precise_origin_timestamp),
                                correction: record.correction.saturating_add(
                                    follow_up.header.correction_field,
                                ),
                                awaits_follow_up: false,
                            },
                        );
                    }
                }
            },
            Message::DelayResp(response) => {
                if let Some(record) = self.delay {
                    if response.requesting_port_identity == port_identity && record.sequence_id
                        == response.header.sequence_id {
                        self.delay = Some(
                            DelayRecord {
                                sequence_id: record.sequence_id,
                                egress: record.egress,
                                receive: Some(Time::from(response.receive_timestamp)),
                            },
                        );
                        self.min_delay_req_interval = Some(
                            Interval::from_log_2(response.header.log_message_interval),
                        );
                    }
                }
            },
            Message::Announce(announce) => {
                self.last_announce = Some(announce);
            },
            _ => {},
        }
    }

    /// The time at which a time-critical message left has come in. A slave
    /// answers none.
    pub fn handle_timestamp<'a>(&mut self, context: TimestampContext, timestamp: Time) -> (r:
        PortActionIterator<'a>)
        ensures
            *final(self) == old(self).after_timestamp(context, timestamp),
            r@ == Seq::<PortActionView>::empty(),
    {
        match context.inner {
            TimestampContextInner::DelayReq { id } => {
                if let Some(record) = self.delay {
                    if record.sequence_id == id {
                        self.delay = Some(
                            DelayRecord {
                                sequence_id: record.sequence_id,
                                egress: Some(timestamp),
                                receive: record.receive,
                            },
                        );
                    }
                }
            },
            _ => {},
        }
        PortActionIterator::empty()
    }

    /// The delay request timer has run out, and the random number drawn is
    /// `random`.
    pub fn send_delay_request_with<'a>(
        &mut self,
        random: u32,
        port_config: &PortConfig,
        port_identity: PortIdentity,
        default_ds: &DefaultDS,
        buffer: &'a mut [u8],
    ) -> (r: PortActionIterator<'a>)
        ensures
            old(self).delay_request_outcome(
                random,
                *port_config,
                port_identity,
                *default_ds,
                old(buffer)@,
            ).describes(*final(self), final(buffer)@, r@),
    {
        let mean = match self.min_delay_req_interval {
            Some(asked) => asked.max(port_config.min_delay_req_interval()),
            None => port_config.min_delay_req_interval(),
        };
        let delay_id = self.delay_req_ids.generate();
        let message = Message::delay_req(default_ds, port_identity, delay_id);
        let actions = send_time_critical(
            PortAction::ResetDelayRequestTimer { duration: mean.as_duration().jitter(random) },
            TimestampContext { inner: TimestampContextInner::DelayReq { id: delay_id } },
            &message,
            buffer,
        );
        if actions.len() > 0 {
            self.delay = Some(DelayRecord { sequence_id: delay_id, egress: None, receive: None });
        }
        actions
    }

    /// The delay request timer has run out. The outcome is that of
    /// [`SlaveState::send_delay_request_with`] for the number that `rng`
    /// gives next.
    pub fn send_delay_request<'a>(
        &mut self,
        rng: &mut StdRng,
        port_config: &PortConfig,
        port_identity: PortIdentity,
        default_ds: &DefaultDS,
        buffer: &'a mut [u8],
    ) -> (r: PortActionIterator<'a>)
        ensures
            exists|random: u32|
                old(self).delay_request_outcome(
                    random,
                    *port_config,
                    port_identity,
                    *default_ds,
                    old(buffer)@,
                ).describes(*final(self), final(buffer)@, r@),
    {
        let random = draw(rng);
        self.send_delay_request_with(random, port_config, port_identity, default_ds, buffer)
    }

    /// Takes the measurement out of the state, if it holds one.
    pub fn extract_measurement(&mut self) -> (r: Option<Measurement>)
        ensures
            r == old(self).measurement(),
            *final(self) == old(self).after_extraction(),
            final(self).measurement() is None,
    {
        let sync = match self.sync {
            Some(sync) => sync,
            None => {
                return None;
            },
        };
        let delay = match self.delay {
            Some(delay) => delay,
            None => {
                return None;
            },
        };
        match (delay.egress, delay.receive) {
            (Some(egress), Some(receive)) => {
                if sync.awaits_follow_up {
                    None
                } else {
                    self.sync = None;
                    Some(
                        Measurement::from_exchange(
                            sync.origin.saturating_add(sync.correction),
                            sync.ingress,
                            egress,
                            receive,
                        ),
                    )
                }
            },
            _ => None,
        }
    }

    /// A measurement is taken out once: right after it, the state holds
    /// none.
    pub proof fn lemma_measurement_once(self)
        ensures
            self.after_extraction().measurement() is None,
            self.after_extraction().after_extraction() == self.after_extraction(),
    {
    }

    /// Two delay requests sent one after the other have different sequence
    /// numbers.
    pub proof fn lemma_consecutive_ids_differ(
        self,
        random: u32,
        config: PortConfig,
        port_identity: PortIdentity,
        default_ds: DefaultDS,
        before: Seq<u8>,
    )
        ensures
            ({
                let then = self.delay_request_outcome(
                    random,
                    config,
                    port_identity,
                    default_ds,
                    before,
                );
                self.delay_req_message(port_identity, default_ds).common_header().sequence_id
                    != then.state.delay_req_message(
                    port_identity,
                    default_ds,
                ).common_header().sequence_id
            }),
    {
        lemma_following_differs(self.delay_req_ids.current);
    }
}

} // verus!
