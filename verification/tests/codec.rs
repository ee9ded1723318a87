use statime::datastructures::common::{
    ClockIdentity, ClockQuality, PortIdentity, TimeSource, WireTimestamp,
};
use statime::datastructures::messages::{
    AnnounceMessage, DelayReqMessage, DelayRespMessage, FollowUpMessage, Header, Message,
    MessageType, PtpVersion, SdoId, SyncMessage,
};
use statime::time::Duration;
use statime::WireFormatError;

fn busy_header() -> Header {
    Header {
        sdo_id: SdoId(0xabc),
        version: PtpVersion { major: 2, minor: 1 },
        domain_number: 42,
        alternate_master_flag: true,
        two_step_flag: false,
        unicast_flag: true,
        ptp_profile_specific_1: false,
        ptp_profile_specific_2: true,
        leap61: true,
        leap59: false,
        current_utc_offset_valid: true,
        ptp_timescale: false,
        time_tracable: true,
        frequency_tracable: false,
        synchronization_uncertain: true,
        correction_field: Duration::from_scaled_nanos(-2),
        source_port_identity: PortIdentity {
            clock_identity: ClockIdentity([1, 2, 3, 4, 5, 6, 7, 8]),
            port_number: 0x1234,
        },
        sequence_id: 0xfedc,
        log_message_interval: -3,
    }
}

fn stamp() -> WireTimestamp {
    WireTimestamp {
        seconds: 0xffff_ffff_ffff,
        nanos: 999_999_999,
    }
}

fn round_trip(message: Message, length: usize) {
    let mut buffer = [0u8; 255];
    assert_eq!(message.serialize(&mut buffer), Ok(length));
    assert_eq!(Message::deserialize(&buffer[..length]), Ok(message));
    assert_eq!(Message::deserialize(&buffer), Ok(message));
}

#[test]
fn timestamp_wireformat() {
    let representations = [(
        [0x00, 0x00, 0x45, 0xb1, 0x11, 0x5a, 0x0a, 0x64, 0xfa, 0xb0],
        DelayReqMessage {
            header: Header::default(),
            origin_timestamp: WireTimestamp {
                seconds: 1169232218,
                nanos: 174389936,
            },
        },
    )];

    for (byte_representation, object_representation) in representations {
        // Test the serialization output
        let mut serialization_buffer = [0; 10];
        object_representation
            .serialize_content(&mut serialization_buffer)
            .unwrap();
        assert_eq!(serialization_buffer, byte_representation);

        // Test the deserialization output
        let deserialized_data =
            DelayReqMessage::deserialize_content(Header::default(), &byte_representation).unwrap();
        assert_eq!(deserialized_data, object_representation);
    }
}

#[test]
fn every_kind_of_message_round_trips() {
    round_trip(
        Message::Sync(SyncMessage {
            header: busy_header(),
            origin_timestamp: stamp(),
        }),
        44,
    );
    round_trip(
        Message::DelayReq(DelayReqMessage {
            header: busy_header(),
            origin_timestamp: stamp(),
        }),
        44,
    );
    round_trip(
        Message::FollowUp(FollowUpMessage {
            header: busy_header(),
            precise_origin_timestamp: stamp(),
        }),
        44,
    );
    round_trip(
        Message::DelayResp(DelayRespMessage {
            header: busy_header(),
            receive_timestamp: stamp(),
            requesting_port_identity: PortIdentity {
                clock_identity: ClockIdentity([8, 7, 6, 5, 4, 3, 2, 1]),
                port_number: 0xffff,
            },
        }),
        54,
    );
    round_trip(
        Message::Announce(AnnounceMessage {
            header: busy_header(),
            origin_timestamp: stamp(),
            current_utc_offset: -37,
            grandmaster_priority_1: 1,
            grandmaster_clock_quality: ClockQuality {
                clock_class: 6,
                clock_accuracy: 0x21,
                offset_scaled_log_variance: 0x4e5d,
            },
            grandmaster_priority_2: 2,
            grandmaster_identity: ClockIdentity([0xff; 8]),
            steps_removed: 0x0102,
            time_source: TimeSource::Unknown(0x77),
        }),
        64,
    );
    round_trip(
        Message::Sync(SyncMessage {
            header: Header {
                correction_field: Duration::from_scaled_nanos(i64::MIN),
                log_message_interval: i8::MIN,
                ..Header::default()
            },
            origin_timestamp: WireTimestamp::default(),
        }),
        44,
    );
    round_trip(
        Message::Sync(SyncMessage {
            header: Header {
                correction_field: Duration::from_scaled_nanos(i64::MAX),
                log_message_interval: i8::MAX,
                ..Header::default()
            },
            origin_timestamp: WireTimestamp::default(),
        }),
        44,
    );
}

#[test]
fn header_is_laid_out_as_the_standard_says() {
    let message = Message::DelayResp(DelayRespMessage {
        header: busy_header(),
        receive_timestamp: WireTimestamp {
            seconds: 0x0102_0304_0506,
            nanos: 0x0708_090a,
        },
        requesting_port_identity: PortIdentity {
            clock_identity: ClockIdentity([0x11, 0x12, 0x13, 0x14, 0x15, 0x16, 0x17, 0x18]),
            port_number: 0x191a,
        },
    });
    let mut buffer = [0xeeu8; 60];
    assert_eq!(message.serialize(&mut buffer), Ok(54));
    let expected: [u8; 54] = [
        0xa9, 0x12, 0x00, 0x36, 42, 0xbc, 0x45, 0x55, // type, version, length, domain, flags
        0xff, 0xff, 0xff, 0xff, 0xff, 0xff, 0xff, 0xfe, // correction
        0, 0, 0, 0, // reserved
        1, 2, 3, 4, 5, 6, 7, 8, 0x12, 0x34, // source port identity
        0xfe, 0xdc, 3, 0xfd, // sequence id, control, log interval
        1, 2, 3, 4, 5, 6, 7, 8, 9, 10, // receive timestamp
        0x11, 0x12, 0x13, 0x14, 0x15, 0x16, 0x17, 0x18, 0x19, 0x1a, // requesting port
    ];
    assert_eq!(&buffer[..54], &expected[..]);
    assert_eq!(&buffer[54..], &[0xee; 6]);
}

#[test]
fn announce_body_is_laid_out_as_the_standard_says() {
    let message = AnnounceMessage {
        header: Header::default(),
        origin_timestamp: WireTimestamp {
            seconds: 1,
            nanos: 2,
        },
        current_utc_offset: 37,
        grandmaster_priority_1: 15,
        grandmaster_clock_quality: ClockQuality {
            clock_class: 248,
            clock_accuracy: 0xfe,
            offset_scaled_log_variance: 0xffff,
        },
        grandmaster_priority_2: 128,
        grandmaster_identity: ClockIdentity([1, 2, 3, 4, 5, 6, 7, 8]),
        steps_removed: 5,
        time_source: TimeSource::InternalOscillator,
    };
    let mut buffer = [0xeeu8; 30];
    assert_eq!(message.serialize_content(&mut buffer), Ok(()));
    assert_eq!(
        buffer,
        [
            0, 0, 0, 0, 0, 1, 0, 0, 0, 2, 0, 37, 0, 15, 248, 0xfe, 0xff, 0xff, 128, 1, 2, 3, 4, 5,
            6, 7, 8, 0, 5, 0xa0
        ]
    );
    assert_eq!(
        AnnounceMessage::deserialize_content(Header::default(), &buffer),
        Ok(message)
    );
}

#[test]
fn serialize_reports_short_buffer_and_leaves_it() {
    let message = Message::Sync(SyncMessage {
        header: Header::default(),
        origin_timestamp: WireTimestamp::default(),
    });
    let mut buffer = [9u8; 43];
    assert_eq!(
        message.serialize(&mut buffer),
        Err(WireFormatError::BufferTooShort)
    );
    assert_eq!(buffer, [9u8; 43]);
    let mut exact = [9u8; 44];
    assert_eq!(message.serialize(&mut exact), Ok(44));
}

#[test]
fn serialize_reports_unrepresentable_fields() {
    let mut buffer = [9u8; 64];
    let too_late = Message::Sync(SyncMessage {
        header: Header::default(),
        origin_timestamp: WireTimestamp {
            seconds: 1 << 48,
            nanos: 0,
        },
    });
    assert_eq!(
        too_late.serialize(&mut buffer),
        Err(WireFormatError::InvalidField)
    );
    let wide_sdo = Message::Sync(SyncMessage {
        header: Header {
            sdo_id: SdoId(0x1000),
            ..Header::default()
        },
        origin_timestamp: WireTimestamp::default(),
    });
    assert_eq!(
        wide_sdo.serialize(&mut buffer),
        Err(WireFormatError::InvalidField)
    );
    let wide_version = Message::Sync(SyncMessage {
        header: Header {
            version: PtpVersion {
                major: 16,
                minor: 0,
            },
            ..Header::default()
        },
        origin_timestamp: WireTimestamp::default(),
    });
    assert_eq!(
        wide_version.serialize(&mut buffer),
        Err(WireFormatError::InvalidField)
    );
    let misnamed_source = Message::Announce(AnnounceMessage {
        header: Header::default(),
        origin_timestamp: WireTimestamp::default(),
        current_utc_offset: 0,
        grandmaster_priority_1: 0,
        grandmaster_clock_quality: ClockQuality::default(),
        grandmaster_priority_2: 0,
        grandmaster_identity: ClockIdentity::default(),
        steps_removed: 0,
        time_source: TimeSource::Unknown(0x20),
    });
    assert_eq!(
        misnamed_source.serialize(&mut buffer),
        Err(WireFormatError::InvalidField)
    );
    assert_eq!(buffer, [9u8; 64]);
    let short = DelayReqMessage {
        header: Header::default(),
        origin_timestamp: WireTimestamp::default(),
    };
    let mut small = [0u8; 9];
    assert_eq!(
        short.serialize_content(&mut small),
        Err(WireFormatError::BufferTooShort)
    );
}

#[test]
fn deserialize_reports_each_error() {
    let message = Message::DelayResp(DelayRespMessage {
        header: Header::default(),
        receive_timestamp: WireTimestamp::default(),
        requesting_port_identity: PortIdentity::default(),
    });
    let mut buffer = [0u8; 54];
    assert_eq!(message.serialize(&mut buffer), Ok(54));

    assert_eq!(
        Message::deserialize(&buffer[..33]),
        Err(WireFormatError::BufferTooShort)
    );
    assert_eq!(
        Message::deserialize(&buffer[..53]),
        Err(WireFormatError::BufferTooShort)
    );

    let mut unknown = buffer;
    unknown[0] = 0x02;
    assert_eq!(
        Message::deserialize(&unknown),
        Err(WireFormatError::UnsupportedMessageType)
    );

    let mut understated = buffer;
    understated[3] = 53;
    assert_eq!(
        Message::deserialize(&understated),
        Err(WireFormatError::InvalidField)
    );

    let mut overstated = buffer;
    overstated[3] = 55;
    assert_eq!(
        Message::deserialize(&overstated),
        Err(WireFormatError::BufferTooShort)
    );

    assert_eq!(
        DelayReqMessage::deserialize_content(Header::default(), &buffer[..9]),
        Err(WireFormatError::BufferTooShort)
    );
}

#[test]
fn deserialize_passes_over_what_follows_the_body() {
    let message = Message::FollowUp(FollowUpMessage {
        header: busy_header(),
        precise_origin_timestamp: stamp(),
    });
    let mut buffer = [0x5au8; 80];
    assert_eq!(message.serialize(&mut buffer), Ok(44));
    buffer[3] = 60;
    assert_eq!(Message::deserialize(&buffer), Ok(message));
}

#[test]
fn message_types_and_time_sources_have_their_codes() {
    assert_eq!(MessageType::Sync.to_primitive(), 0x0);
    assert_eq!(MessageType::DelayReq.to_primitive(), 0x1);
    assert_eq!(MessageType::FollowUp.to_primitive(), 0x8);
    assert_eq!(MessageType::DelayResp.to_primitive(), 0x9);
    assert_eq!(MessageType::Announce.to_primitive(), 0xb);
    assert_eq!(MessageType::from_primitive(0xb), Ok(MessageType::Announce));
    assert_eq!(
        MessageType::from_primitive(0xc),
        Err(WireFormatError::UnsupportedMessageType)
    );
    assert_eq!(MessageType::DelayResp.control_field(), 3);
    assert_eq!(MessageType::Announce.body_size(), 30);
    assert_eq!(TimeSource::from_primitive(0x20), TimeSource::Gnss);
    assert_eq!(TimeSource::from_primitive(0x21), TimeSource::Unknown(0x21));
    assert_eq!(TimeSource::Ptp.to_primitive(), 0x40);
    assert_eq!(TimeSource::default(), TimeSource::InternalOscillator);
    assert_eq!(SdoId::new(0xfff), Some(SdoId(0xfff)));
    assert_eq!(SdoId::new(0x1000), None);
}
