use rand::rngs::StdRng;
use rand::{RngCore, SeedableRng};
use statime::config::InstanceConfig;
use statime::datastructures::common::{ClockIdentity, PortIdentity};
use statime::datastructures::datasets::DefaultDS;
use statime::datastructures::messages::{
    AnnounceMessage, DelayRespMessage, FollowUpMessage, Header, Message, SdoId, SyncMessage,
};
use statime::datastructures::common::{ClockQuality, TimeSource};
use statime::port::state::slave::{DelayRecord, SyncRecord};
use statime::port::state::SlaveState;
use statime::port::{Measurement, PortAction, TimestampContext, TimestampContextInner};
use statime::time::{Duration, Interval, Time};
use statime::{DelayMechanism, PortConfig, MAX_DATA_LEN};

fn master() -> PortIdentity {
    PortIdentity {
        clock_identity: ClockIdentity([0xaa; 8]),
        port_number: 1,
    }
}

fn own() -> PortIdentity {
    PortIdentity {
        clock_identity: ClockIdentity([0xbb; 8]),
        port_number: 2,
    }
}

fn from_master(sequence_id: u16) -> Header {
    Header {
        source_port_identity: master(),
        sequence_id,
        ..Default::default()
    }
}

fn config(log_2: i8) -> PortConfig {
    PortConfig {
        delay_mechanism: DelayMechanism::E2E {
            interval: Interval::from_log_2(log_2),
        },
        announce_interval: Interval::two_seconds(),
        announce_receipt_timeout: 2,
        sync_interval: Interval::one_second(),
        master_only: false,
        delay_asymmetry: Duration::zero(),
    }
}

fn default_ds() -> DefaultDS {
    DefaultDS::new(InstanceConfig {
        clock_identity: ClockIdentity([0xbb; 8]),
        priority_1: 128,
        priority_2: 128,
        domain_number: 3,
        slave_only: true,
        sdo_id: SdoId(0x100),
    })
}

fn probe(state: &mut SlaveState, egress: Time, receive: Time) {
    let mut buffer = [0u8; MAX_DATA_LEN];
    let mut actions = state.send_delay_request_with(0, &config(0), own(), &default_ds(), &mut buffer);
    actions.next();
    let Some(PortAction::SendTimeCritical { context, data }) = actions.next() else {
        panic!("Unexpected action");
    };
    let request = Message::deserialize(data).unwrap();
    let mut none = state.handle_timestamp(context, egress);
    assert!(none.next().is_none());
    state.handle_general_receive(
        Message::DelayResp(DelayRespMessage {
            header: from_master(request.header().sequence_id),
            receive_timestamp: receive.into(),
            requesting_port_identity: own(),
        }),
        own(),
    );
}

fn one_step_sync(sequence_id: u16, origin: Time) -> Message {
    Message::Sync(SyncMessage {
        header: from_master(sequence_id),
        origin_timestamp: origin.into(),
    })
}

#[test]
fn slave_measures_the_textbook_exchange_once() {
    let mut state = SlaveState::new(master());
    assert_eq!(state.path_delay(), None);
    assert_eq!(state.extract_measurement(), None);
    let mut none = state.handle_event_receive(
        one_step_sync(7, Time::from_nanos(100)),
        Time::from_nanos(150),
    );
    assert!(none.next().is_none());
    assert_eq!(state.extract_measurement(), None);
    probe(&mut state, Time::from_nanos(200), Time::from_nanos(260));
    assert_eq!(
        state.extract_measurement(),
        Some(Measurement {
            event_time: Time::from_nanos(150),
            offset_from_master: Duration::from_nanos(-5),
            mean_path_delay: Duration::from_nanos(55),
        })
    );
    assert_eq!(state.extract_measurement(), None);
    assert_eq!(state.path_delay(), Some(Duration::from_nanos(60)));
    assert_eq!(state.sync, None);
    assert_eq!(
        state.delay,
        Some(DelayRecord {
            sequence_id: 0,
            egress: Some(Time::from_nanos(200)),
            receive: Some(Time::from_nanos(260)),
        })
    );
}

#[test]
fn slave_keeps_the_delay_for_the_next_sync() {
    let mut state = SlaveState::new(master());
    probe(&mut state, Time::from_nanos(200), Time::from_nanos(260));
    state.handle_event_receive(
        one_step_sync(1, Time::from_nanos(1_000)),
        Time::from_nanos(1_070),
    );
    assert_eq!(
        state.extract_measurement().map(|m| m.offset_from_master),
        Some(Duration::from_nanos(5))
    );
    state.handle_event_receive(
        one_step_sync(2, Time::from_nanos(2_000)),
        Time::from_nanos(2_040),
    );
    assert_eq!(
        state.extract_measurement(),
        Some(Measurement {
            event_time: Time::from_nanos(2_040),
            offset_from_master: Duration::from_nanos(-10),
            mean_path_delay: Duration::from_nanos(50),
        })
    );
    assert_eq!(state.extract_measurement(), None);
}

#[test]
fn two_step_sync_waits_for_its_follow_up() {
    let mut state = SlaveState::new(master());
    probe(&mut state, Time::from_nanos(200), Time::from_nanos(260));
    state.handle_event_receive(
        Message::Sync(SyncMessage {
            header: Header {
                two_step_flag: true,
                correction_field: Duration::from_nanos(3),
                ..from_master(9)
            },
            origin_timestamp: Time::from_nanos(90).into(),
        }),
        Time::from_nanos(150),
    );
    assert_eq!(state.extract_measurement(), None);

    let follow_up = |sequence_id: u16, source: PortIdentity| {
        Message::FollowUp(FollowUpMessage {
            header: Header {
                correction_field: Duration::from_nanos(2),
                source_port_identity: source,
                ..from_master(sequence_id)
            },
            precise_origin_timestamp: Time::from_nanos(95).into(),
        })
    };
    state.handle_general_receive(follow_up(8, master()), own());
    assert_eq!(state.extract_measurement(), None);
    state.handle_general_receive(follow_up(9, own()), own());
    assert_eq!(state.extract_measurement(), None);
    state.handle_general_receive(follow_up(9, master()), own());
    assert_eq!(
        state.sync,
        Some(SyncRecord {
            sequence_id: 9,
            ingress: Time::from_nanos(150),
            origin: Time::from_nanos(95),
            correction: Duration::from_nanos(5),
            awaits_follow_up: false,
        })
    );
    assert_eq!(
        state.extract_measurement(),
        Some(Measurement {
            event_time: Time::from_nanos(150),
            offset_from_master: Duration::from_nanos(-5),
            mean_path_delay: Duration::from_nanos(55),
        })
    );
    state.handle_general_receive(follow_up(9, master()), own());
    assert_eq!(state.extract_measurement(), None);
}

#[test]
fn newer_sync_replaces_the_one_before() {
    let mut state = SlaveState::new(master());
    state.handle_event_receive(
        one_step_sync(1, Time::from_nanos(100)),
        Time::from_nanos(150),
    );
    state.handle_event_receive(
        one_step_sync(2, Time::from_nanos(300)),
        Time::from_nanos(360),
    );
    assert_eq!(state.sync.map(|s| s.sequence_id), Some(2));
    assert_eq!(state.sync.map(|s| s.ingress), Some(Time::from_nanos(360)));
}

#[test]
fn slave_passes_over_other_ports_and_other_requests() {
    let mut state = SlaveState::new(master());
    let fresh = state;
    let foreign = Header {
        source_port_identity: own(),
        ..from_master(1)
    };
    state.handle_event_receive(
        Message::Sync(SyncMessage {
            header: foreign,
            origin_timestamp: Time::from_nanos(1).into(),
        }),
        Time::from_nanos(2),
    );
    assert_eq!(state, fresh);
    state.handle_event_receive(
        Message::delay_req(&default_ds(), master(), 4),
        Time::from_nanos(2),
    );
    assert_eq!(state, fresh);

    let mut buffer = [0u8; MAX_DATA_LEN];
    state
        .send_delay_request_with(0, &config(0), own(), &default_ds(), &mut buffer)
        .next();
    let pending = state;
    let response = |sequence_id: u16, requesting: PortIdentity, source: PortIdentity| {
        Message::DelayResp(DelayRespMessage {
            header: Header {
                source_port_identity: source,
                log_message_interval: 4,
                ..from_master(sequence_id)
            },
            receive_timestamp: Time::from_nanos(260).into(),
            requesting_port_identity: requesting,
        })
    };
    state.handle_general_receive(response(1, own(), master()), own());
    assert_eq!(state, pending);
    state.handle_general_receive(response(0, master(), master()), own());
    assert_eq!(state, pending);
    state.handle_general_receive(response(0, own(), own()), own());
    assert_eq!(state, pending);
    state.handle_timestamp(
        TimestampContext {
            inner: TimestampContextInner::DelayReq { id: 1 },
        },
        Time::from_nanos(200),
    );
    assert_eq!(state, pending);
    state.handle_timestamp(
        TimestampContext {
            inner: TimestampContextInner::Sync { id: 0 },
        },
        Time::from_nanos(200),
    );
    assert_eq!(state, pending);
    state.handle_general_receive(response(0, own(), master()), own());
    assert_eq!(
        state.delay,
        Some(DelayRecord {
            sequence_id: 0,
            egress: None,
            receive: Some(Time::from_nanos(260)),
        })
    );
    assert_eq!(state.min_delay_req_interval, Some(Interval::from_log_2(4)));
}

#[test]
fn slave_keeps_the_last_announce_of_its_master() {
    let mut state = SlaveState::new(master());
    let announce = AnnounceMessage {
        header: from_master(1),
        origin_timestamp: Time::from_secs(1).into(),
        current_utc_offset: 37,
        grandmaster_priority_1: 1,
        grandmaster_clock_quality: ClockQuality::default(),
        grandmaster_priority_2: 2,
        grandmaster_identity: ClockIdentity([0xaa; 8]),
        steps_removed: 0,
        time_source: TimeSource::Gnss,
    };
    state.handle_general_receive(Message::Announce(announce), own());
    assert_eq!(state.last_announce, Some(announce));
    assert_eq!(state.remote_master(), master());
}

#[test]
fn delay_request_is_numbered_and_jittered() {
    let mut state = SlaveState::new(master());
    let mut expected = StdRng::seed_from_u64(17);
    let mut rng = StdRng::seed_from_u64(17);
    for id in 0..3u16 {
        let random = expected.next_u32();
        let mut buffer = [0u8; MAX_DATA_LEN];
        let mut actions =
            state.send_delay_request(&mut rng, &config(1), own(), &default_ds(), &mut buffer);
        assert_eq!(
            actions.next(),
            Some(PortAction::ResetDelayRequestTimer {
                duration: Interval::from_log_2(1).as_duration().jitter(random)
            })
        );
        let Some(PortAction::SendTimeCritical { context, data }) = actions.next() else {
            panic!("Unexpected action");
        };
        assert!(actions.next().is_none());
        assert_eq!(
            context,
            TimestampContext {
                inner: TimestampContextInner::DelayReq { id }
            }
        );
        let Message::DelayReq(request) = Message::deserialize(data).unwrap() else {
            panic!("Unexpected message type");
        };
        assert_eq!(request.header.sequence_id, id);
        assert_eq!(request.header.source_port_identity, own());
        assert_eq!(request.header.domain_number, 3);
        assert_eq!(request.header.sdo_id, SdoId(0x100));
        assert_eq!(request.header.log_message_interval, 0x7f);
        assert_eq!(request.origin_timestamp.seconds, 0);
        assert_eq!(request.origin_timestamp.nanos, 0);
    }
    assert_eq!(rng.next_u32(), expected.next_u32());
}

#[test]
fn delay_request_interval_is_the_longer_of_asked_and_configured() {
    let second = 65_536_000_000_000i64;
    let mut state = SlaveState::new(master());
    let mut buffer = [0u8; MAX_DATA_LEN];
    let mut actions =
        state.send_delay_request_with(1 << 31, &config(1), own(), &default_ds(), &mut buffer);
    assert_eq!(
        actions.next(),
        Some(PortAction::ResetDelayRequestTimer {
            duration: Duration::from_scaled_nanos(2 * second)
        })
    );
    state.min_delay_req_interval = Some(Interval::from_log_2(3));
    let mut actions =
        state.send_delay_request_with(0, &config(1), own(), &default_ds(), &mut buffer);
    assert_eq!(
        actions.next(),
        Some(PortAction::ResetDelayRequestTimer {
            duration: Duration::from_scaled_nanos(4 * second)
        })
    );
    state.min_delay_req_interval = Some(Interval::from_log_2(0));
    let mut actions =
        state.send_delay_request_with(u32::MAX, &config(1), own(), &default_ds(), &mut buffer);
    assert_eq!(
        actions.next(),
        Some(PortAction::ResetDelayRequestTimer {
            duration: Duration::from_scaled_nanos(3 * second - 30_518)
        })
    );
}

#[test]
fn short_buffer_drops_delay_request_and_keeps_the_one_before() {
    let mut state = SlaveState::new(master());
    probe(&mut state, Time::from_nanos(200), Time::from_nanos(260));
    let before = state.delay;
    let mut buffer = [0u8; 10];
    let mut actions =
        state.send_delay_request_with(5, &config(1), own(), &default_ds(), &mut buffer);
    assert!(actions.next().is_none());
    assert_eq!(state.delay, before);
    assert_eq!(state.delay_req_ids.current, 2);
}
