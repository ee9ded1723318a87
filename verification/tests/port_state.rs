use atomic_refcell::AtomicRefCell;
use rand::rngs::StdRng;
use rand::{RngCore, SeedableRng};
use statime::config::InstanceConfig;
use statime::datastructures::common::{ClockIdentity, PortIdentity};
use statime::datastructures::datasets::{CurrentDS, DefaultDS, ParentDS};
use statime::datastructures::messages::{DelayRespMessage, Message, SdoId};
use statime::port::state::{MasterState, PortState, SlaveState};
use statime::port::{PortAction, PortActionIterator, TimestampContext, TimestampContextInner};
use statime::ptp_instance::PtpInstanceState;
use statime::time::{Duration, Interval, Time};
use statime::{Clock, DelayMechanism, PortConfig, TimePropertiesDS, MAX_DATA_LEN};

struct FixedClock(Time);

impl Clock for FixedClock {
    type Error = ();

    fn now(&self) -> Time {
        self.0
    }
}

fn config() -> PortConfig {
    PortConfig {
        delay_mechanism: DelayMechanism::E2E {
            interval: Interval::one_second(),
        },
        announce_interval: Interval::two_seconds(),
        announce_receipt_timeout: 2,
        sync_interval: Interval::one_second(),
        master_only: false,
        delay_asymmetry: Duration::zero(),
    }
}

fn default_ds() -> DefaultDS {
    DefaultDS::new(InstanceConfig {
        clock_identity: ClockIdentity([3; 8]),
        priority_1: 128,
        priority_2: 128,
        domain_number: 0,
        slave_only: false,
        sdo_id: SdoId::default(),
    })
}

fn global() -> PtpInstanceState<FixedClock, ()> {
    let default_ds = default_ds();
    PtpInstanceState {
        default_ds,
        current_ds: CurrentDS::default(),
        parent_ds: ParentDS::new(default_ds),
        time_properties_ds: TimePropertiesDS::default(),
        local_clock: AtomicRefCell::new(FixedClock(Time::from_secs(5))),
        filter: AtomicRefCell::new(()),
    }
}

fn master_id() -> PortIdentity {
    PortIdentity {
        clock_identity: ClockIdentity([1; 8]),
        port_number: 1,
    }
}

fn own() -> PortIdentity {
    PortIdentity {
        clock_identity: ClockIdentity([3; 8]),
        port_number: 1,
    }
}

#[test]
fn port_state_starts_listening_and_names_its_role() {
    assert!(matches!(PortState::default(), PortState::Listening));
    assert_eq!(PortState::Listening.name(), "Listening");
    assert_eq!(PortState::Master(MasterState::new()).name(), "Master");
    assert_eq!(PortState::Passive.name(), "Passive");
    assert_eq!(PortState::Slave(SlaveState::new(master_id())).name(), "Slave");
}

#[test]
fn listening_and_passive_absorb_every_event() {
    for mut state in [PortState::Listening, PortState::Passive] {
        let global = global();
        let mut rng = StdRng::seed_from_u64(1);
        let mut buffer = [0u8; MAX_DATA_LEN];
        let request = Message::delay_req(&default_ds(), master_id(), 1);
        assert!(state
            .handle_event_receive(
                request,
                Time::from_secs(1),
                Interval::one_second(),
                own(),
                &mut buffer
            )
            .next()
            .is_none());
        state.handle_general_receive(request, own());
        assert!(state
            .handle_timestamp(
                TimestampContext {
                    inner: TimestampContextInner::Sync { id: 0 }
                },
                Time::from_secs(1),
                own(),
                &default_ds(),
                &mut buffer
            )
            .next()
            .is_none());
        assert!(state
            .send_sync(
                &global.local_clock,
                &config(),
                own(),
                &default_ds(),
                &mut buffer
            )
            .next()
            .is_none());
        assert!(state
            .send_announce(&global, &config(), own(), &mut buffer)
            .next()
            .is_none());
        assert!(state
            .send_delay_request(&mut rng, &config(), own(), &default_ds(), &mut buffer)
            .next()
            .is_none());
        assert_eq!(state.extract_measurement(), None);
        assert_eq!(buffer, [0u8; MAX_DATA_LEN]);
        assert_eq!(rng.next_u32(), StdRng::seed_from_u64(1).next_u32());
    }
}

#[test]
fn slave_port_ignores_the_timers_of_a_master() {
    let mut state = PortState::Slave(SlaveState::new(master_id()));
    let global = global();
    let mut buffer = [0u8; MAX_DATA_LEN];
    assert!(state
        .send_sync(
            &global.local_clock,
            &config(),
            own(),
            &default_ds(),
            &mut buffer
        )
        .next()
        .is_none());
    assert!(state
        .send_sync_at(
            Some(Time::from_secs(1)),
            &config(),
            own(),
            &default_ds(),
            &mut buffer
        )
        .next()
        .is_none());
    assert!(state
        .send_announce(&global, &config(), own(), &mut buffer)
        .next()
        .is_none());
    assert!(state
        .send_announce_at(Some(Time::from_secs(1)), &global, &config(), own(), &mut buffer)
        .next()
        .is_none());
    let PortState::Slave(slave) = state else {
        panic!("Unexpected role");
    };
    assert_eq!(slave, SlaveState::new(master_id()));
}

#[test]
fn master_port_ignores_the_timer_and_messages_of_a_slave() {
    let mut state = PortState::Master(MasterState::new());
    let mut rng = StdRng::seed_from_u64(1);
    let mut buffer = [0u8; MAX_DATA_LEN];
    assert!(state
        .send_delay_request(&mut rng, &config(), own(), &default_ds(), &mut buffer)
        .next()
        .is_none());
    assert!(state
        .send_delay_request_with(3, &config(), own(), &default_ds(), &mut buffer)
        .next()
        .is_none());
    assert_eq!(state.extract_measurement(), None);
    state.handle_general_receive(
        Message::follow_up(&default_ds(), master_id(), 1, Time::from_secs(1)),
        own(),
    );
    let PortState::Master(master) = state else {
        panic!("Unexpected role");
    };
    assert_eq!(master, MasterState::new());
    assert_eq!(rng.next_u32(), StdRng::seed_from_u64(1).next_u32());
}

#[test]
fn master_port_sends_and_answers() {
    let mut state = PortState::Master(MasterState::new());
    let global = global();
    let mut buffer = [0u8; MAX_DATA_LEN];
    let mut actions = state.send_sync(
        &global.local_clock,
        &config(),
        own(),
        &default_ds(),
        &mut buffer,
    );
    assert!(matches!(
        actions.next(),
        Some(PortAction::ResetSyncTimer { .. })
    ));
    let Some(PortAction::SendTimeCritical { context, .. }) = actions.next() else {
        panic!("Unexpected action");
    };
    let mut actions = state.handle_timestamp(
        context,
        Time::from_secs(6),
        own(),
        &default_ds(),
        &mut buffer,
    );
    let Some(PortAction::SendGeneral { data }) = actions.next() else {
        panic!("Unexpected action");
    };
    let Message::FollowUp(follow_up) = Message::deserialize(data).unwrap() else {
        panic!("Unexpected message type");
    };
    assert_eq!(follow_up.header.sequence_id, 0);
    assert_eq!(follow_up.precise_origin_timestamp.seconds, 6);

    let mut actions = state.send_announce(&global, &config(), own(), &mut buffer);
    assert!(matches!(
        actions.next(),
        Some(PortAction::ResetAnnounceTimer { .. })
    ));
    assert!(matches!(
        actions.next(),
        Some(PortAction::SendGeneral { .. })
    ));

    let request = Message::delay_req(&default_ds(), master_id(), 77);
    let mut actions = state.handle_event_receive(
        request,
        Time::from_secs(7),
        Interval::one_second(),
        own(),
        &mut buffer,
    );
    let Some(PortAction::SendGeneral { data }) = actions.next() else {
        panic!("Unexpected action");
    };
    let Message::DelayResp(response) = Message::deserialize(data).unwrap() else {
        panic!("Unexpected message type");
    };
    assert_eq!(response.requesting_port_identity, master_id());
    assert_eq!(response.header.sequence_id, 77);
    assert_eq!(response.header.source_port_identity, own());

    let echo = Message::delay_req(&default_ds(), own(), 78);
    assert!(state
        .handle_event_receive(
            echo,
            Time::from_secs(7),
            Interval::one_second(),
            own(),
            &mut buffer
        )
        .next()
        .is_none());
}

#[test]
fn slave_port_measures_through_the_dispatcher() {
    let mut state = PortState::Slave(SlaveState::new(master_id()));
    let mut rng = StdRng::seed_from_u64(3);
    let mut buffer = [0u8; MAX_DATA_LEN];
    let mut sync = Message::sync(&default_ds(), master_id(), 4, Time::from_nanos(100));
    if let Message::Sync(inner) = &mut sync {
        inner.header.two_step_flag = false;
    }
    assert!(state
        .handle_event_receive(
            sync,
            Time::from_nanos(150),
            Interval::one_second(),
            own(),
            &mut buffer
        )
        .next()
        .is_none());
    let mut actions =
        state.send_delay_request(&mut rng, &config(), own(), &default_ds(), &mut buffer);
    assert!(matches!(
        actions.next(),
        Some(PortAction::ResetDelayRequestTimer { .. })
    ));
    let Some(PortAction::SendTimeCritical { context, .. }) = actions.next() else {
        panic!("Unexpected action");
    };
    assert!(state
        .handle_timestamp(
            context,
            Time::from_nanos(200),
            own(),
            &default_ds(),
            &mut buffer
        )
        .next()
        .is_none());
    let mut header = *Message::delay_req(&default_ds(), master_id(), 0).header();
    header.source_port_identity = master_id();
    state.handle_general_receive(
        Message::DelayResp(DelayRespMessage {
            header,
            receive_timestamp: Time::from_nanos(260).into(),
            requesting_port_identity: own(),
        }),
        own(),
    );
    let measurement = state.extract_measurement().unwrap();
    assert_eq!(measurement.offset_from_master, Duration::from_nanos(-5));
    assert_eq!(measurement.mean_path_delay, Duration::from_nanos(55));
    assert_eq!(state.extract_measurement(), None);
}

#[test]
fn actions_come_out_in_order() {
    let mut none = PortActionIterator::empty();
    assert_eq!(none.len(), 0);
    assert_eq!(none.next(), None);
    let data = [1u8, 2, 3];
    let reset = PortAction::ResetAnnounceReceiptTimer {
        duration: Duration::from_nanos(1),
    };
    let send = PortAction::SendGeneral { data: &data };
    let mut one = PortActionIterator::one(send);
    assert_eq!(one.len(), 1);
    assert_eq!(one.next(), Some(send));
    assert_eq!(one.next(), None);
    let mut two = PortActionIterator::two(reset, send);
    assert_eq!(two.len(), 2);
    assert_eq!(two.next(), Some(reset));
    assert_eq!(two.len(), 1);
    assert_eq!(two.next(), Some(send));
    assert_eq!(two.next(), None);
    assert_eq!(two.len(), 0);
}
