//! The roles of a port, and the dispatcher that hands each event to the
//! role that the port has.

use crate::clock::{read_clock, Clock};
use crate::config::PortConfig;
use crate::datastructures::common::PortIdentity;
use crate::datastructures::datasets::{CurrentDS, DefaultDS, ParentDS, TimePropertiesDS};
use crate::datastructures::messages::Message;
use crate::port::{Measurement, Outcome, PortActionIterator, TimestampContext};
use crate::ptp_instance::PtpInstanceState;
use crate::time::{Interval, Time};
use atomic_refcell::AtomicRefCell;
use rand::rngs::StdRng;
use vstd::prelude::*;

pub mod master;
pub mod slave;

use slave::draw;

pub use master::MasterState;
pub use slave::SlaveState;

verus! {

/// The role of a port, with the state that the role keeps. The engine
/// never changes the role itself: that is for the surrounding system.
#[derive(Debug, Default)]
pub enum PortState {
    #[default]
    Listening,
    Master(MasterState),
    Passive,
    Slave(SlaveState),
}

/// The outcome of a call on a master, as that of a call on its port.
pub open spec fn of_master(outcome: Outcome<MasterState>) -> Outcome<PortState> {
    Outcome {
        state: PortState::Master(outcome.state),
        buffer: outcome.buffer,
        actions: outcome.actions,
    }
}

/// The outcome of a call on a slave, as that of a call on its port.
pub open spec fn of_slave(outcome: Outcome<SlaveState>) -> Outcome<PortState> {
    Outcome {
        state: PortState::Slave(outcome.state),
        buffer: outcome.buffer,
        actions: outcome.actions,
    }
}

impl PortState {
    /// What the time at which a message left comes to: what it comes to
    /// for the master or the slave that the port is, else nothing.
    pub open spec fn timestamp_outcome(
        self,
        context: TimestampContext,
        timestamp: Time,
        port_identity: PortIdentity,
        default_ds: DefaultDS,
        before: Seq<u8>,
    ) -> Outcome<PortState> {
        match self {
            PortState::Master(master) => of_master(
                master.timestamp_outcome(context, timestamp, port_identity, default_ds, before),
            ),
            PortState::Slave(slave) => Outcome::nothing(
                PortState::Slave(slave.after_timestamp(context, timestamp)),
                before,
            ),
            _ => Outcome::nothing(self, before),
        }
    }

    /// What a message on the event channel comes to.
    pub open spec fn event_outcome(
        self,
        message: Message,
        timestamp: Time,
        min_delay_req_interval: Interval,
        port_identity: PortIdentity,
        before: Seq<u8>,
    ) -> Outcome<PortState> {
        match self {
            PortState::Master(master) => of_master(
                master.event_outcome(
                    message,
                    timestamp,
                    min_delay_req_interval,
                    port_identity,
                    before,
                ),
            ),
            PortState::Slave(slave) => Outcome::nothing(
                PortState::Slave(slave.after_event(message, timestamp)),
                before,
            ),
            _ => Outcome::nothing(self, before),
        }
    }

    /// The state after a message has come in on the general channel: only
    /// a slave takes note of it.
    pub open spec fn after_general(self, message: Message, port_identity: PortIdentity) -> PortState {
        match self {
            PortState::Slave(slave) => PortState::Slave(
                slave.after_general(message, port_identity),
            ),
            _ => self,
        }
    }

    /// What the sync timer comes to: only a master sends.
    pub open spec fn sync_outcome(
        self,
        now: Option<Time>,
        config: PortConfig,
        port_identity: PortIdentity,
        default_ds: DefaultDS,
        before: Seq<u8>,
    ) -> Outcome<PortState> {
        match self {
            PortState::Master(master) => of_master(
                master.sync_outcome(now, config, port_identity, default_ds, before),
            ),
            _ => Outcome::nothing(self, before),
        }
    }

    /// What the announce timer comes to: only a master sends.
    pub open spec fn announce_outcome(
        self,
        now: Option<Time>,
        default_ds: DefaultDS,
        parent_ds: ParentDS,
        current_ds: CurrentDS,
        time_properties_ds: TimePropertiesDS,
        config: PortConfig,
        port_identity: PortIdentity,
        before: Seq<u8>,
    ) -> Outcome<PortState> {
        match self {
            PortState::Master(master) => of_master(
                master.announce_outcome(
                    now,
                    default_ds,
                    parent_ds,
                    current_ds,
                    time_properties_ds,
                    config,
                    port_identity,
                    before,
                ),
            ),
            _ => Outcome::nothing(self, before),
        }
    }

    /// What the delay request timer comes to: only a slave sends.
    pub open spec fn delay_request_outcome(
        self,
        random: u32,
        config: PortConfig,
        port_identity: PortIdentity,
        default_ds: DefaultDS,
        before: Seq<u8>,
    ) -> Outcome<PortState> {
        match self {
            PortState::Slave(slave) => of_slave(
                slave.delay_request_outcome(random, config, port_identity, default_ds, before),
            ),
            _ => Outcome::nothing(self, before),
        }
    }

    /// The measurement that the port holds: only a slave holds one.
    pub open spec fn measurement(self) -> Option<Measurement> {
        match self {
            PortState::Slave(slave) => slave.measurement(),
            _ => None,
        }
    }

    /// The state after its measurement was taken out.
    pub open spec fn after_extraction(self) -> PortState {
        match self {
            PortState::Slave(slave) => PortState::Slave(slave.after_extraction()),
            _ => self,
        }
    }

    /// The time at which a time-critical message left has come in.
    pub fn handle_timestamp<'a>(
        &mut self,
        context: TimestampContext,
        timestamp: Time,
        port_identity: PortIdentity,
        default_ds: &DefaultDS,
        buffer: &'a mut [u8],
    ) -> (r: PortActionIterator<'a>)
        ensures
            old(self).timestamp_outcome(
                context,
                timestamp,
                port_identity,
                *default_ds,
                old(buffer)@,
            ).describes(*final(self), final(buffer)@, r@),
    {
        match self {
            PortState::Slave(slave) => slave.handle_timestamp(context, timestamp),
            PortState::Master(master) => {
                master.handle_timestamp(context, timestamp, port_identity, default_ds, buffer)
            },
            PortState::Listening | PortState::Passive => PortActionIterator::empty(),
        }
    }

    /// A message has come in on the event channel at `timestamp`.
    pub fn handle_event_receive<'a>(
        &mut self,
        message: Message,
        timestamp: Time,
        min_delay_req_interval: Interval,
        port_identity: PortIdentity,
        buffer: &'a mut [u8],
    ) -> (r: PortActionIterator<'a>)
        ensures
            old(self).event_outcome(
                message,
                timestamp,
                min_delay_req_interval,
                port_identity,
                old(buffer)@,
            ).describes(*final(self), final(buffer)@, r@),
    {
        match self {
            PortState::Master(master) => master.handle_event_receive(
                message,
                timestamp,
                min_delay_req_interval,
                port_identity,
                buffer,
            ),
            PortState::Slave(slave) => slave.handle_event_receive(message, timestamp),
            PortState::Listening | PortState::Passive => PortActionIterator::empty(),
        }
    }

    /// A message has come in on the general channel.
    pub fn handle_general_receive(&mut self, message: Message, port_identity: PortIdentity)
        ensures
            *final(self) == old(self).after_general(message, port_identity),
    {
        match self {
            PortState::Slave(slave) => slave.handle_general_receive(message, port_identity),
            PortState::Master(_) | PortState::Listening | PortState::Passive => {},
        }
    }

    /// The sync timer has run out, and the clock reads `current_time` or
    /// could not be read.
    pub fn send_sync_at<'a>(
        &mut self,
        current_time: Option<Time>,
        config: &PortConfig,
        port_identity: PortIdentity,
        default_ds: &DefaultDS,
        buffer: &'a mut [u8],
    ) -> (r: PortActionIterator<'a>)
        ensures
            old(self).sync_outcome(
                current_time,
                *config,
                port_identity,
                *default_ds,
                old(buffer)@,
            ).describes(*final(self), final(buffer)@, r@),
    {
        match self {
            PortState::Master(master) => {
                master.send_sync_at(current_time, config, port_identity, default_ds, buffer)
            },
            PortState::Slave(_) | PortState::Listening | PortState::Passive => {
                PortActionIterator::empty()
            },
        }
    }

    /// The sync timer has run out. The outcome is that of
    /// [`PortState::send_sync_at`] for what the clock reads, or for no
    /// reading where the clock is exclusively borrowed.
    pub fn send_sync<'a, C: Clock>(
        &mut self,
        local_clock: &AtomicRefCell<C>,
        config: &PortConfig,
        port_identity: PortIdentity,
        default_ds: &DefaultDS,
        buffer: &'a mut [u8],
    ) -> (r: PortActionIterator<'a>)
        ensures
            exists|now: Option<Time>|
                old(self).sync_outcome(
                    now,
                    *config,
                    port_identity,
                    *default_ds,
                    old(buffer)@,
                ).describes(*final(self), final(buffer)@, r@),
            !(*old(self) is Master) ==> Outcome::nothing(*old(self), old(buffer)@).describes(
                *final(self),
                final(buffer)@,
                r@,
            ),
    {
        let ghost was = *self;
        let ghost before = buffer@;
        match self {
            PortState::Master(master) => {
                let now = read_clock(local_clock);
                assert(was.sync_outcome(now, *config, port_identity, *default_ds, before)
                    == of_master(
                    was->Master_0.sync_outcome(now, *config, port_identity, *default_ds, before),
                ));
                master.send_sync_at(now, config, port_identity, default_ds, buffer)
            },
            PortState::Slave(_) | PortState::Listening | PortState::Passive => {
                assert(was.sync_outcome(None, *config, port_identity, *default_ds, before)
                    == Outcome::nothing(was, before));
                PortActionIterator::empty()
            },
        }
    }

    /// The delay request timer has run out, and the random number drawn is
    /// `random`.
    pub fn send_delay_request_with<'a>(
        &mut self,
        random: u32,
        port_config: &PortConfig,
        port_identity: PortIdentity,
        default_ds: &DefaultDS,
        buffer: &'a mut [u8],
    ) -> (r: PortActionIterator<'a>)
        ensures
            old(self).delay_request_outcome(
                random,
                *port_config,
                port_identity,
                *default_ds,
                old(buffer)@,
            ).describes(*final(self), final(buffer)@, r@),
    {
        match self {
            PortState::Slave(slave) => slave.send_delay_request_with(
                random,
                port_config,
                port_identity,
                default_ds,
                buffer,
            ),
            PortState::Master(_) | PortState::Listening | PortState::Passive => {
                PortActionIterator::empty()
            },
        }
    }

    /// The delay request timer has run out. The outcome is that of
    /// [`PortState::send_delay_request_with`] for the number that `rng`
    /// gives next; a port that is no slave draws none.
    pub fn send_delay_request<'a>(
        &mut self,
        rng: &mut StdRng,
        port_config: &PortConfig,
        port_identity: PortIdentity,
        default_ds: &DefaultDS,
        buffer: &'a mut [u8],
    ) -> (r: PortActionIterator<'a>)
        ensures
            exists|random: u32|
                old(self).delay_request_outcome(
                    random,
                    *port_config,
                    port_identity,
                    *default_ds,
                    old(buffer)@,
                ).describes(*final(self), final(buffer)@, r@),
            !(*old(self) is Slave) ==> Outcome::nothing(*old(self), old(buffer)@).describes(
                *final(self),
                final(buffer)@,
                r@,
            ),
    {
        let ghost was = *self;
        let ghost before = buffer@;
        match self {
            PortState::Slave(slave) => {
                let random = draw(rng);
                assert(was.delay_request_outcome(
                    random,
                    *port_config,
                    port_identity,
                    *default_ds,
                    before,
                ) == of_slave(
                    was->Slave_0.delay_request_outcome(
                        random,
                        *port_config,
                        port_identity,
                        *default_ds,
                        before,
                    ),
                ));
                slave.send_delay_request_with(
                    random,
                    port_config,
                    port_identity,
                    default_ds,
                    buffer,
                )
            },
            PortState::Master(_) | PortState::Listening | PortState::Passive => {
                assert(was.delay_request_outcome(
                    0,
                    *port_config,
                    port_identity,
                    *default_ds,
                    before,
                ) == Outcome::nothing(was, before));
                PortActionIterator::empty()
            },
        }
    }

    /// The announce timer has run out, and the clock reads `current_time`
    /// or could not be read.
    pub fn send_announce_at<'a, C, F>(
        &mut self,
        current_time: Option<Time>,
        global: &PtpInstanceState<C, F>,
        config: &PortConfig,
        port_identity: PortIdentity,
        buffer: &'a mut [u8],
    ) -> (r: PortActionIterator<'a>)
        ensures
            old(self).announce_outcome(
                current_time,
                global.default_ds,
                global.parent_ds,
                global.current_ds,
                global.time_properties_ds,
                *config,
                port_identity,
                old(buffer)@,
            ).describes(*final(self), final(buffer)@, r@),
    {
        match self {
            PortState::Master(master) => {
                master.send_announce_at(current_time, global, config, port_identity, buffer)
            },
            PortState::Slave(_) | PortState::Listening | PortState::Passive => {
                PortActionIterator::empty()
            },
        }
    }

    /// The announce timer has run out. The outcome is that of
    /// [`PortState::send_announce_at`] for what the clock of the instance
    /// reads, or for no reading where the clock is exclusively borrowed.
    pub fn send_announce<'a, C: Clock, F>(
        &mut self,
        global: &PtpInstanceState<C, F>,
        config: &PortConfig,
        port_identity: PortIdentity,
        buffer: &'a mut [u8],
    ) -> (r: PortActionIterator<'a>)
        ensures
            exists|now: Option<Time>|
                old(self).announce_outcome(
                    now,
                    global.default_ds,
                    global.parent_ds,
                    global.current_ds,
                    global.time_properties_ds,
                    *config,
                    port_identity,
                    old(buffer)@,
                ).describes(*final(self), final(buffer)@, r@),
            !(*old(self) is Master) ==> Outcome::nothing(*old(self), old(buffer)@).describes(
                *final(self),
                final(buffer)@,
                r@,
            ),
    {
        let ghost was = *self;
        let ghost before = buffer@;
        match self {
            PortState::Master(master) => {
                let now = read_clock(&global.local_clock);
                assert(was.announce_outcome(
                    now,
                    global.default_ds,
                    global.parent_ds,
                    global.current_ds,
                    global.time_properties_ds,
                    *config,
                    port_identity,
                    before,
                ) == of_master(
                    was->Master_0.announce_outcome(
                        now,
                        global.default_ds,
                        global.parent_ds,
                        global.current_ds,
                        global.time_properties_ds,
                        *config,
                        port_identity,
                        before,
                    ),
                ));
                master.send_announce_at(now, global, config, port_identity, buffer)
            },
            PortState::Slave(_) | PortState::Listening | PortState::Passive => {
                assert(was.announce_outcome(
                    None,
                    global.default_ds,
                    global.parent_ds,
                    global.current_ds,
                    global.time_properties_ds,
                    *config,
                    port_identity,
                    before,
                ) == Outcome::nothing(was, before));
                PortActionIterator::empty()
            },
        }
    }

    /// Takes the measurement out of the port, if it holds one.
    pub fn extract_measurement(&mut self) -> (r: Option<Measurement>)
        ensures
            r == old(self).measurement(),
            *final(self) == old(self).after_extraction(),
            final(self).measurement() is None,
    {
        match self {
            PortState::Slave(slave) => slave.extract_measurement(),
            PortState::Master(_) | PortState::Listening | PortState::Passive => None,
        }
    }

    /// The name of the role.
    pub fn name(&self) -> (r: &'static str)
        ensures
            r@ == match *self {
                PortState::Listening => "Listening"@,
                PortState::Master(_) => "Master"@,
                PortState::Passive => "Passive"@,
                PortState::Slave(_) => "Slave"@,
            },
    {
        match self {
            PortState::Listening => "Listening",
            PortState::Master(_) => "Master",
            PortState::Passive => "Passive",
            PortState::Slave(_) => "Slave",
        }
    }

    /// A message on the event channel that the port itself has sent leads
    /// to no action, whatever the role of the port.
    pub proof fn lemma_self_sourced_event_ignored(
        self,
        message: Message,
        timestamp: Time,
        min_delay_req_interval: Interval,
        port_identity: PortIdentity,
        before: Seq<u8>,
    )
        requires
            message.common_header().source_port_identity == port_identity,
        ensures
            self.event_outcome(
                message,
                timestamp,
                min_delay_req_interval,
                port_identity,
                before,
            ).actions.len() == 0,
            self.event_outcome(
                message,
                timestamp,
                min_delay_req_interval,
                port_identity,
                before,
            ).buffer == before,
    {
    }

    /// What is asked of a role that the port does not have leads to no
    /// action and changes nothing: the timers of a master on a port that is
    /// none, the timer and the measurement of a slave on a port that is
    /// none, and every event on a port that is neither.
    pub proof fn lemma_wrong_role_ignored(
        self,
        now: Option<Time>,
        random: u32,
        message: Message,
        context: TimestampContext,
        timestamp: Time,
        min_delay_req_interval: Interval,
        default_ds: DefaultDS,
        parent_ds: ParentDS,
        current_ds: CurrentDS,
        time_properties_ds: TimePropertiesDS,
        config: PortConfig,
        port_identity: PortIdentity,
        before: Seq<u8>,
    )
        ensures
            !(self is Master) ==> {
                &&& self.sync_outcome(now, config, port_identity, default_ds, before)
                    == Outcome::nothing(self, before)
                &&& self.announce_outcome(
                    now,
                    default_ds,
                    parent_ds,
                    current_ds,
                    time_properties_ds,
                    config,
                    port_identity,
                    before,
                ) == Outcome::nothing(self, before)
            },
            !(self is Slave) ==> {
                &&& self.delay_request_outcome(random, config, port_identity, default_ds, before)
                    == Outcome::nothing(self, before)
                &&& self.measurement() is None
                &&& self.after_extraction() == self
                &&& self.after_general(message, port_identity) == self
            },
            !(self is Slave) && !(self is Master) ==> {
                &&& self.timestamp_outcome(context, timestamp, port_identity, default_ds, before)
                    == Outcome::nothing(self, before)
                &&& self.event_outcome(
                    message,
                    timestamp,
                    min_delay_req_interval,
                    port_identity,
                    before,
                ) == Outcome::nothing(self, before)
            },
    {
    }
}

} // verus!
