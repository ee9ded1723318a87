use atomic_refcell::AtomicRefCell;
use fixed::types::{I48F16, U96F32};
use statime::config::InstanceConfig;
use statime::datastructures::common::{ClockIdentity, PortIdentity};
use statime::datastructures::datasets::{CurrentDS, DefaultDS, ParentDS};
use statime::datastructures::messages::{DelayReqMessage, Header, Message, SdoId};
use statime::port::state::MasterState;
use statime::port::{PortAction, TimestampContext, TimestampContextInner};
use statime::ptp_instance::PtpInstanceState;
use statime::time::{Duration, Interval, Time};
use statime::{Clock, DelayMechanism, PortConfig, TimePropertiesDS, MAX_DATA_LEN};

struct TestClock {
    current_time: Time,
}

impl Clock for TestClock {
    type Error = std::convert::Infallible;

    fn now(&self) -> Time {
        self.current_time
    }
}

fn test_config() -> PortConfig {
    PortConfig {
        delay_mechanism: DelayMechanism::E2E {
            interval: Interval::two_seconds(),
        },
        announce_interval: Interval::two_seconds(),
        announce_receipt_timeout: 2,
        sync_interval: Interval::one_second(),
        master_only: false,
        delay_asymmetry: Duration::zero(),
    }
}

fn test_default_ds() -> DefaultDS {
    DefaultDS::new(InstanceConfig {
        clock_identity: ClockIdentity::default(),
        priority_1: 15,
        priority_2: 128,
        domain_number: 0,
        slave_only: false,
        sdo_id: SdoId::default(),
    })
}

#[test]
fn test_delay_response() {
    let mut state = MasterState::new();

    let mut buffer = [0u8; MAX_DATA_LEN];

    let mut action = state.handle_event_receive(
        Message::DelayReq(DelayReqMessage {
            header: Header {
                sequence_id: 5123,
                source_port_identity: PortIdentity {
                    port_number: 83,
                    ..Default::default()
                },
                correction_field: Duration::from_scaled_nanos(I48F16::from_bits(400).to_bits()),
                ..Default::default()
            },
            origin_timestamp: Time::from_micros(0).into(),
        }),
        Time::from_fixed_nanos(U96F32::from_bits((200000 << 32) + (500 << 16)).to_bits()),
        Interval::from_log_2(2),
        PortIdentity::default(),
        &mut buffer,
    );

    let Some(PortAction::SendGeneral { data }) = action.next() else {
        panic!("Unexpected resulting action");
    };
    assert!(action.next().is_none());
    drop(action);

    let msg = match Message::deserialize(data).unwrap() {
        Message::DelayResp(msg) => msg,
        _ => panic!("Unexpected message type"),
    };

    assert_eq!(
        msg.requesting_port_identity,
        PortIdentity {
            port_number: 83,
            ..Default::default()
        }
    );
    assert_eq!(msg.header.sequence_id, 5123);
    assert_eq!(msg.receive_timestamp, Time::from_micros(200).into());
    assert_eq!(msg.header.log_message_interval, 2);
    assert_eq!(
        msg.header.correction_field,
        Duration::from_scaled_nanos(I48F16::from_bits(900).to_bits())
    );

    let mut action = state.handle_event_receive(
        Message::DelayReq(DelayReqMessage {
            header: Header {
                sequence_id: 879,
                source_port_identity: PortIdentity {
                    port_number: 12,
                    ..Default::default()
                },
                correction_field: Duration::from_scaled_nanos(I48F16::from_bits(200).to_bits()),
                ..Default::default()
            },
            origin_timestamp: Time::from_micros(0).into(),
        }),
        Time::from_fixed_nanos(U96F32::from_bits((220000 << 32) + (300 << 16)).to_bits()),
        Interval::from_log_2(5),
        PortIdentity::default(),
        &mut buffer,
    );

    let Some(PortAction::SendGeneral { data }) = action.next() else {
        panic!("Unexpected resulting action");
    };
    assert!(action.next().is_none());

    let msg = match Message::deserialize(data).unwrap() {
        Message::DelayResp(msg) => msg,
        _ => panic!("Unexpected message type"),
    };

    assert_eq!(
        msg.requesting_port_identity,
        PortIdentity {
            port_number: 12,
            ..Default::default()
        }
    );
    assert_eq!(msg.header.sequence_id, 879);
    assert_eq!(msg.receive_timestamp, Time::from_micros(220).into());
    assert_eq!(msg.header.log_message_interval, 5);
    assert_eq!(
        msg.header.correction_field,
        Duration::from_scaled_nanos(I48F16::from_bits(500).to_bits())
    );
}

#[test]
fn test_announce() {
    let mut buffer = [0u8; MAX_DATA_LEN];

    let default_ds = test_default_ds();
    let mut parent_ds = ParentDS::new(default_ds);
    parent_ds.grandmaster_priority_1 = 15;
    let current_ds = CurrentDS::default();
    let time_properties_ds = TimePropertiesDS::default();
    let global = PtpInstanceState {
        default_ds,
        current_ds,
        parent_ds,
        time_properties_ds,
        local_clock: AtomicRefCell::new(TestClock {
            current_time: Time::from_micros(600),
        }),
        filter: AtomicRefCell::new(()),
    };

    let config = test_config();
    let mut state = MasterState::new();

    let mut actions = state.send_announce(&global, &config, PortIdentity::default(), &mut buffer);

    assert!(matches!(
        actions.next(),
        Some(PortAction::ResetAnnounceTimer { .. })
    ));
    let Some(PortAction::SendGeneral { data }) = actions.next() else {
        panic!("Unexpected action");
    };
    assert!(actions.next().is_none());
    drop(actions);

    let msg = match Message::deserialize(data).unwrap() {
        Message::Announce(msg) => msg,
        _ => panic!("Unexpected message type"),
    };

    assert_eq!(msg.grandmaster_priority_1, 15);

    let mut actions = state.send_announce(&global, &config, PortIdentity::default(), &mut buffer);

    assert!(matches!(
        actions.next(),
        Some(PortAction::ResetAnnounceTimer { .. })
    ));
    let Some(PortAction::SendGeneral { data }) = actions.next() else {
        panic!("Unexpected action");
    };
    assert!(actions.next().is_none());

    let msg2 = match Message::deserialize(data).unwrap() {
        Message::Announce(msg) => msg,
        _ => panic!("Unexpected message type"),
    };

    assert_eq!(msg2.grandmaster_priority_1, 15);
    assert_ne!(msg2.header.sequence_id, msg.header.sequence_id);
}

#[test]
fn test_sync() {
    let mut buffer = [0u8; MAX_DATA_LEN];
    let config = test_config();

    let clock = AtomicRefCell::new(TestClock {
        current_time: Time::from_fixed_nanos(
            U96F32::from_bits((600000 << 32) + (248 << 16)).to_bits(),
        ),
    });

    let mut state = MasterState::new();
    let defaultds = test_default_ds();

    let mut actions = state.send_sync(
        &clock,
        &config,
        PortIdentity::default(),
        &defaultds,
        &mut buffer,
    );

    assert!(matches!(
        actions.next(),
        Some(PortAction::ResetSyncTimer { .. })
    ));
    let Some(PortAction::SendTimeCritical { context, data }) = actions.next() else {
        panic!("Unexpected action");
    };
    assert!(actions.next().is_none());
    drop(actions);

    let sync = match Message::deserialize(&data).unwrap() {
        Message::Sync(msg) => msg,
        _ => panic!("Unexpected message type"),
    };

    let mut actions = state.handle_timestamp(
        context,
        Time::from_fixed_nanos(U96F32::from_bits((601300 << 32) + (230 << 16)).to_bits()),
        PortIdentity::default(),
        &defaultds,
        &mut buffer,
    );

    let Some(PortAction::SendGeneral { data }) = actions.next() else {
        panic!("Unexpected action");
    };
    assert!(actions.next().is_none());
    drop(actions);

    let follow = match Message::deserialize(&data).unwrap() {
        Message::FollowUp(msg) => msg,
        _ => panic!("Unexpected message type"),
    };

    assert_eq!(sync.header.sequence_id, follow.header.sequence_id);
    assert_eq!(sync.origin_timestamp, Time::from_micros(600).into());
    assert_eq!(
        sync.header.correction_field,
        Duration::from_scaled_nanos(I48F16::from_bits(0).to_bits())
    );
    assert_eq!(
        follow.precise_origin_timestamp,
        Time::from_nanos(601300).into()
    );
    assert_eq!(
        follow.header.correction_field,
        Duration::from_scaled_nanos(I48F16::from_bits(230).to_bits())
    );

    clock.borrow_mut().current_time =
        Time::from_fixed_nanos(U96F32::from_bits((1000600000 << 32) + (192 << 16)).to_bits());
    let mut actions = state.send_sync(
        &clock,
        &config,
        PortIdentity::default(),
        &defaultds,
        &mut buffer,
    );

    assert!(matches!(
        actions.next(),
        Some(PortAction::ResetSyncTimer { .. })
    ));
    let Some(PortAction::SendTimeCritical { context, data }) = actions.next() else {
        panic!("Unexpected action");
    };
    assert!(actions.next().is_none());
    drop(actions);

    let sync2 = match Message::deserialize(&data).unwrap() {
        Message::Sync(msg) => msg,
        _ => panic!("Unexpected message type"),
    };

    let mut actions = state.handle_timestamp(
        context,
        Time::from_fixed_nanos(U96F32::from_bits((1000601300 << 32) + (543 << 16)).to_bits()),
        PortIdentity::default(),
        &defaultds,
        &mut buffer,
    );

    let Some(PortAction::SendGeneral { data }) = actions.next() else {
        panic!("Unexpected action");
    };
    assert!(actions.next().is_none());

    let follow2 = match Message::deserialize(&data).unwrap() {
        Message::FollowUp(msg) => msg,
        _ => panic!("Unexpected message type"),
    };

    assert_ne!(sync.header.sequence_id, sync2.header.sequence_id);
    assert_eq!(sync2.header.sequence_id, follow2.header.sequence_id);
    assert_eq!(sync2.origin_timestamp, Time::from_micros(1000600).into());
    assert_eq!(
        sync2.header.correction_field,
        Duration::from_scaled_nanos(I48F16::from_bits(0).to_bits())
    );
    assert_eq!(
        follow2.precise_origin_timestamp,
        Time::from_nanos(1000601300).into()
    );
    assert_eq!(
        follow2.header.correction_field,
        Duration::from_scaled_nanos(I48F16::from_bits(543).to_bits())
    );
}

#[test]
fn sync_resets_timer_to_sync_interval_and_sets_two_step() {
    let mut buffer = [0u8; MAX_DATA_LEN];
    let config = test_config();
    let mut state = MasterState::new();
    let mut actions = state.send_sync_at(
        Some(Time::from_secs(3)),
        &config,
        PortIdentity::default(),
        &test_default_ds(),
        &mut buffer,
    );
    assert_eq!(actions.len(), 2);
    assert_eq!(
        actions.next(),
        Some(PortAction::ResetSyncTimer {
            duration: Duration::from_scaled_nanos(65_536_000_000_000)
        })
    );
    let Some(PortAction::SendTimeCritical { context, data }) = actions.next() else {
        panic!("Unexpected action");
    };
    assert_eq!(
        context,
        TimestampContext {
            inner: TimestampContextInner::Sync { id: 0 }
        }
    );
    assert_eq!(data.len(), 44);
    let Message::Sync(sync) = Message::deserialize(data).unwrap() else {
        panic!("Unexpected message type");
    };
    assert!(sync.header.two_step_flag);
    assert_eq!(sync.origin_timestamp.seconds, 3);
    assert_eq!(sync.origin_timestamp.nanos, 0);
}

#[test]
fn consecutive_sync_ids_differ_across_wrap() {
    let mut buffer = [0u8; MAX_DATA_LEN];
    let config = test_config();
    let mut state = MasterState::new();
    state.sync_seq_ids.current = u16::MAX;
    let ds = test_default_ds();
    let mut ids = Vec::new();
    for _ in 0..3 {
        let mut actions = state.send_sync_at(
            Some(Time::from_secs(1)),
            &config,
            PortIdentity::default(),
            &ds,
            &mut buffer,
        );
        actions.next();
        let Some(PortAction::SendTimeCritical { data, .. }) = actions.next() else {
            panic!("Unexpected action");
        };
        ids.push(Message::deserialize(data).unwrap().header().sequence_id);
    }
    assert_eq!(ids, vec![u16::MAX, 0, 1]);
    assert_eq!(state.announce_seq_ids.current, 0);
}

#[test]
fn clock_busy_drops_sync_and_keeps_counter() {
    let mut buffer = [7u8; MAX_DATA_LEN];
    let config = test_config();
    let clock = AtomicRefCell::new(TestClock {
        current_time: Time::from_micros(600),
    });
    let mut state = MasterState::new();
    let ds = test_default_ds();
    {
        let _held = clock.borrow_mut();
        let mut actions =
            state.send_sync(&clock, &config, PortIdentity::default(), &ds, &mut buffer);
        assert!(actions.next().is_none());
    }
    assert_eq!(state, MasterState::new());
    assert_eq!(buffer, [7u8; MAX_DATA_LEN]);

    let mut actions = state.send_sync(&clock, &config, PortIdentity::default(), &ds, &mut buffer);
    actions.next();
    let Some(PortAction::SendTimeCritical { context, .. }) = actions.next() else {
        panic!("Unexpected action");
    };
    assert_eq!(
        context,
        TimestampContext {
            inner: TimestampContextInner::Sync { id: 0 }
        }
    );
}

#[test]
fn clock_busy_drops_announce_and_keeps_counter() {
    let mut buffer = [0u8; MAX_DATA_LEN];
    let default_ds = test_default_ds();
    let global = PtpInstanceState {
        default_ds,
        current_ds: CurrentDS::default(),
        parent_ds: ParentDS::new(default_ds),
        time_properties_ds: TimePropertiesDS::default(),
        local_clock: AtomicRefCell::new(TestClock {
            current_time: Time::from_micros(600),
        }),
        filter: AtomicRefCell::new(()),
    };
    let mut state = MasterState::new();
    let _held = global.local_clock.borrow_mut();
    let mut actions =
        state.send_announce(&global, &test_config(), PortIdentity::default(), &mut buffer);
    assert!(actions.next().is_none());
    assert_eq!(state.announce_seq_ids.current, 0);
}

#[test]
fn short_buffer_drops_sync_but_takes_the_number() {
    let mut buffer = [0u8; 43];
    let mut state = MasterState::new();
    let mut actions = state.send_sync_at(
        Some(Time::from_secs(1)),
        &test_config(),
        PortIdentity::default(),
        &test_default_ds(),
        &mut buffer,
    );
    assert!(actions.next().is_none());
    assert_eq!(state.sync_seq_ids.current, 1);
    assert_eq!(buffer, [0u8; 43]);
}

#[test]
fn self_sourced_delay_req_is_dropped() {
    let own = PortIdentity {
        clock_identity: ClockIdentity([1, 2, 3, 4, 5, 6, 7, 8]),
        port_number: 4,
    };
    let mut buffer = [0u8; MAX_DATA_LEN];
    let mut state = MasterState::new();
    let mut actions = state.handle_event_receive(
        Message::DelayReq(DelayReqMessage {
            header: Header {
                source_port_identity: own,
                ..Default::default()
            },
            origin_timestamp: Time::from_micros(0).into(),
        }),
        Time::from_micros(5),
        Interval::from_log_2(0),
        own,
        &mut buffer,
    );
    assert!(actions.next().is_none());
    assert_eq!(buffer, [0u8; MAX_DATA_LEN]);
}

#[test]
fn master_drops_foreign_sync_and_delay_req_timestamp() {
    let mut buffer = [0u8; MAX_DATA_LEN];
    let mut state = MasterState::new();
    let ds = test_default_ds();
    let foreign = PortIdentity {
        port_number: 9,
        ..Default::default()
    };
    let sync = Message::sync(&ds, foreign, 3, Time::from_secs(1));
    let mut actions = state.handle_event_receive(
        sync,
        Time::from_micros(5),
        Interval::from_log_2(0),
        PortIdentity::default(),
        &mut buffer,
    );
    assert!(actions.next().is_none());
    let mut actions = state.handle_timestamp(
        TimestampContext {
            inner: TimestampContextInner::DelayReq { id: 3 },
        },
        Time::from_micros(5),
        PortIdentity::default(),
        &ds,
        &mut buffer,
    );
    assert!(actions.next().is_none());
}

#[test]
fn announce_carries_the_data_sets() {
    let mut buffer = [0u8; MAX_DATA_LEN];
    let default_ds = test_default_ds();
    let mut parent_ds = ParentDS::new(default_ds);
    parent_ds.grandmaster_identity = ClockIdentity([9; 8]);
    let mut current_ds = CurrentDS::default();
    current_ds.steps_removed = 3;
    let mut time_properties_ds = TimePropertiesDS::default();
    time_properties_ds.current_utc_offset = Some(-37);
    time_properties_ds.leap59 = true;
    let global = PtpInstanceState {
        default_ds,
        current_ds,
        parent_ds,
        time_properties_ds,
        local_clock: AtomicRefCell::new(TestClock {
            current_time: Time::from_secs(12),
        }),
        filter: AtomicRefCell::new(()),
    };
    let mut state = MasterState::new();
    let mut actions =
        state.send_announce(&global, &test_config(), PortIdentity::default(), &mut buffer);
    assert_eq!(
        actions.next(),
        Some(PortAction::ResetAnnounceTimer {
            duration: Duration::from_scaled_nanos(2 * 65_536_000_000_000)
        })
    );
    let Some(PortAction::SendGeneral { data }) = actions.next() else {
        panic!("Unexpected action");
    };
    assert_eq!(data.len(), 64);
    let Message::Announce(msg) = Message::deserialize(data).unwrap() else {
        panic!("Unexpected message type");
    };
    assert_eq!(msg.current_utc_offset, -37);
    assert!(msg.header.current_utc_offset_valid);
    assert!(msg.header.leap59);
    assert!(!msg.header.leap61);
    assert_eq!(msg.steps_removed, 3);
    assert_eq!(msg.grandmaster_identity, ClockIdentity([9; 8]));
    assert_eq!(msg.grandmaster_priority_2, 128);
    assert_eq!(msg.grandmaster_clock_quality.clock_class, 248);
    assert_eq!(msg.origin_timestamp.seconds, 12);
}

#[test]
fn clock_is_read_where_it_can_be_borrowed() {
    let clock = AtomicRefCell::new(TestClock {
        current_time: Time::from_micros(600),
    });
    assert_eq!(
        statime::clock::reading_of(clock.try_borrow()),
        Some(Time::from_micros(600))
    );
    assert_eq!(
        statime::clock::read_clock(&clock),
        Some(Time::from_micros(600))
    );
    {
        let _shared = clock.borrow();
        assert_eq!(
            statime::clock::read_clock(&clock),
            Some(Time::from_micros(600))
        );
    }
    {
        let _held = clock.borrow_mut();
        assert_eq!(statime::clock::reading_of(clock.try_borrow()), None);
        assert_eq!(statime::clock::read_clock(&clock), None);
    }
    assert_eq!(
        statime::clock::read_clock(&clock),
        Some(Time::from_micros(600))
    );
}
