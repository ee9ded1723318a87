//! The header that every message starts with.

use crate::datastructures::common::PortIdentity;
use crate::datastructures::encoding::{
    be_bytes, be_value, decode_i64, decode_i8, encode_i64, encode_i8, from_twos_complement,
    lemma_be_bytes_len, lemma_be_bytes_of_value, lemma_be_value_of_bytes, lemma_pow256_values,
    lemma_splice_append, lemma_twos_complement, read_be, splice, twos_complement, write_be,
    write_slice,
};
use crate::datastructures::WireFormatError;
use crate::time::Duration;
use vstd::prelude::*;

verus! {

/// The length of a header on the wire.
pub const HEADER_SIZE: usize = 34;

/// The kind of a message, as the low nibble of its first byte names it.
#[derive(Clone, Copy, Debug, PartialEq, Eq, Structural, Hash)]
pub enum MessageType {
    Sync,
    DelayReq,
    FollowUp,
    DelayResp,
    Announce,
}

impl MessageType {
    /// The nibble that names the kind on the wire.
    pub open spec fn nibble(self) -> u8 {
        match self {
            MessageType::Sync => 0x0,
            MessageType::DelayReq => 0x1,
            MessageType::FollowUp => 0x8,
            MessageType::DelayResp => 0x9,
            MessageType::Announce => 0xb,
        }
    }

    /// The kind that `nibble` names, if this engine handles it.
    pub open spec fn of_nibble(nibble: u8) -> Option<MessageType> {
        if nibble == 0x0 {
            Some(MessageType::Sync)
        } else if nibble == 0x1 {
            Some(MessageType::DelayReq)
        } else if nibble == 0x8 {
            Some(MessageType::FollowUp)
        } else if nibble == 0x9 {
            Some(MessageType::DelayResp)
        } else if nibble == 0xb {
            Some(MessageType::Announce)
        } else {
            None
        }
    }

    /// The control field that older receivers read instead of the kind.
    pub open spec fn control(self) -> u8 {
        match self {
            MessageType::Sync => 0,
            MessageType::DelayReq => 1,
            MessageType::FollowUp => 2,
            MessageType::DelayResp => 3,
            MessageType::Announce => 5,
        }
    }

    /// The length of the body of a message of this kind.
    pub open spec fn content_size(self) -> nat {
        match self {
            MessageType::Sync => 10,
            MessageType::DelayReq => 10,
            MessageType::FollowUp => 10,
            MessageType::DelayResp => 20,
            MessageType::Announce => 30,
        }
    }

    pub fn to_primitive(self) -> (r: u8)
        ensures
            r == self.nibble(),
    {
        match self {
            MessageType::Sync => 0x0,
            MessageType::DelayReq => 0x1,
            MessageType::FollowUp => 0x8,
            MessageType::DelayResp => 0x9,
            MessageType::Announce => 0xb,
        }
    }

    pub fn from_primitive(nibble: u8) -> (r: Result<MessageType, WireFormatError>)
        ensures
            r == match MessageType::of_nibble(nibble) {
                Some(kind) => Ok::<MessageType, WireFormatError>(kind),
                None => Err(WireFormatError::UnsupportedMessageType),
            },
    {
        match nibble {
            0x0 => Ok(MessageType::Sync),
            0x1 => Ok(MessageType::DelayReq),
            0x8 => Ok(MessageType::FollowUp),
            0x9 => Ok(MessageType::DelayResp),
            0xb => Ok(MessageType::Announce),
            _ => Err(WireFormatError::UnsupportedMessageType),
        }
    }

    pub fn control_field(self) -> (r: u8)
        ensures
            r == self.control(),
    {
        match self {
            MessageType::Sync => 0,
            MessageType::DelayReq => 1,
            MessageType::FollowUp => 2,
            MessageType::DelayResp => 3,
            MessageType::Announce => 5,
        }
    }

    pub fn body_size(self) -> (r: usize)
        ensures
            r == self.content_size(),
    {
        match self {
            MessageType::Sync => 10,
            MessageType::DelayReq => 10,
            MessageType::FollowUp => 10,
            MessageType::DelayResp => 20,
            MessageType::Announce => 30,
        }
    }
}

/// The identifier of the standards organisation whose profile a message
/// follows: twelve bits.
#[derive(Clone, Copy, Debug, Default, PartialEq, Eq, Structural, Hash)]
pub struct SdoId(pub u16);

impl SdoId {
    /// The identifier `value`, if twelve bits hold it.
    pub fn new(value: u16) -> (r: Option<SdoId>)
        ensures
            r == if value < 0x1000 { Some(SdoId(value)) } else { None },
    {
        if value < 0x1000 {
            Some(SdoId(value))
        } else {
            None
        }
    }
}

/// The version of the protocol that a message follows: two nibbles.
#[derive(Clone, Copy, Debug, PartialEq, Eq, Structural, Hash)]
pub struct PtpVersion {
    pub major: u8,
    pub minor: u8,
}

/// The header of a message.
#[derive(Clone, Copy, Debug, PartialEq, Eq, Hash)]
pub struct Header {
    pub sdo_id: SdoId,
    pub version: PtpVersion,
    pub domain_number: u8,
    pub alternate_master_flag: bool,
    pub two_step_flag: bool,
    pub unicast_flag: bool,
    pub ptp_profile_specific_1: bool,
    pub ptp_profile_specific_2: bool,
    pub leap61: bool,
    pub leap59: bool,
    pub current_utc_offset_valid: bool,
    pub ptp_timescale: bool,
    pub time_tracable: bool,
    pub frequency_tracable: bool,
    pub synchronization_uncertain: bool,
    pub correction_field: Duration,
    pub source_port_identity: PortIdentity,
    pub sequence_id: u16,
    pub log_message_interval: i8,
}

/// A header as it was read, with the kind and the length that it announces.
#[derive(Clone, Copy, Debug, PartialEq, Eq)]
pub struct DeserializedHeader {
    pub header: Header,
    pub message_type: MessageType,
    pub message_length: u16,
}

/// One where `flag` is set, zero where it is not.
pub open spec fn bit(flag: bool) -> int {
    if flag {
        1
    } else {
        0
    }
}

fn weigh(flag: bool, weight: u8) -> (r: u8)
    ensures
        r == if flag { weight } else { 0 },
{
    if flag {
        weight
    } else {
        0
    }
}

/// Seven binary digits are read back from the byte that they make up.
pub proof fn lemma_digits(d0: int, d1: int, d2: int, d3: int, d4: int, d5: int, d6: int)
    requires
        0 <= d0 <= 1,
        0 <= d1 <= 1,
        0 <= d2 <= 1,
        0 <= d3 <= 1,
        0 <= d4 <= 1,
        0 <= d5 <= 1,
        0 <= d6 <= 1,
    ensures
        ({
            let byte = d0 + 2 * d1 + 4 * d2 + 8 * d3 + 16 * d4 + 32 * d5 + 64 * d6;
            &&& 0 <= byte < 128
            &&& byte % 2 == d0
            &&& byte / 2 % 2 == d1
            &&& byte / 4 % 2 == d2
            &&& byte / 8 % 2 == d3
            &&& byte / 16 % 2 == d4
            &&& byte / 32 % 2 == d5
            &&& byte / 64 % 2 == d6
        }),
{
    let byte = d0 + 2 * d1 + 4 * d2 + 8 * d3 + 16 * d4 + 32 * d5 + 64 * d6;
    assert(byte / 2 == d1 + 2 * d2 + 4 * d3 + 8 * d4 + 16 * d5 + 32 * d6);
    assert(byte / 4 == d2 + 2 * d3 + 4 * d4 + 8 * d5 + 16 * d6);
    assert(byte / 8 == d3 + 2 * d4 + 4 * d5 + 8 * d6);
    assert(byte / 16 == d4 + 2 * d5 + 4 * d6);
    assert(byte / 32 == d5 + 2 * d6);
    assert(byte / 64 == d6);
}

impl Header {
    /// The header that a new message starts from: version 2.1, every other
    /// field zero or unset.
    pub open spec fn initial() -> Header {
        Header {
            sdo_id: SdoId(0),
            version: PtpVersion { major: 2, minor: 1 },
            domain_number: 0,
            alternate_master_flag: false,
            two_step_flag: false,
            unicast_flag: false,
            ptp_profile_specific_1: false,
            ptp_profile_specific_2: false,
            leap61: false,
            leap59: false,
            current_utc_offset_valid: false,
            ptp_timescale: false,
            time_tracable: false,
            frequency_tracable: false,
            synchronization_uncertain: false,
            correction_field: Duration { scaled_nanos: 0 },
            source_port_identity: PortIdentity {
                clock_identity: crate::datastructures::common::ClockIdentity([0, 0, 0, 0, 0, 0, 0, 0]),
                port_number: 0,
            },
            sequence_id: 0,
            log_message_interval: 0,
        }
    }

    /// The wire carries every field of the header whole.
    pub open spec fn representable(self) -> bool {
        &&& self.sdo_id.0 < 0x1000
        &&& self.version.major < 0x10
        &&& self.version.minor < 0x10
    }

    /// The first of the two flag bytes.
    pub open spec fn flags_high(self) -> u8 {
        (bit(self.alternate_master_flag) + 2 * bit(self.two_step_flag) + 4 * bit(self.unicast_flag)
            + 32 * bit(self.ptp_profile_specific_1) + 64 * bit(self.ptp_profile_specific_2)) as u8
    }

    /// The second of the two flag bytes.
    pub open spec fn flags_low(self) -> u8 {
        (bit(self.leap61) + 2 * bit(self.leap59) + 4 * bit(self.current_utc_offset_valid) + 8
            * bit(self.ptp_timescale) + 16 * bit(self.time_tracable) + 32 * bit(
            self.frequency_tracable,
        ) + 64 * bit(self.synchronization_uncertain)) as u8
    }

    /// The 34 bytes of the header of a message of kind `message_type` that
    /// is `length` bytes long in all.
    pub open spec fn wire_bytes(self, message_type: MessageType, length: u16) -> Seq<u8> {
        seq![
            ((self.sdo_id.0 / 0x100) * 0x10 + message_type.nibble()) as u8,
            (self.version.minor * 0x10 + self.version.major) as u8,
        ] + be_bytes(length as nat, 2) + seq![
            self.domain_number,
            (self.sdo_id.0 % 0x100) as u8,
            self.flags_high(),
            self.flags_low(),
        ] + be_bytes(twos_complement(self.correction_field.scaled_nanos as int, 8), 8) + seq![
            0u8,
            0u8,
            0u8,
            0u8,
        ] + self.source_port_identity.wire_bytes() + be_bytes(self.sequence_id as nat, 2) + seq![
            message_type.control(),
            twos_complement(self.log_message_interval as int, 1) as u8,
        ]
    }

    /// The header that the first 34 of `bytes` spell.
    pub open spec fn from_wire(bytes: Seq<u8>) -> Header {
        Header {
            sdo_id: SdoId(((bytes[0] / 0x10) * 0x100 + bytes[5]) as u16),
            version: PtpVersion { major: bytes[1] % 0x10, minor: bytes[1] / 0x10 },
            domain_number: bytes[4],
            alternate_master_flag: bytes[6] % 2 == 1,
            two_step_flag: bytes[6] / 2 % 2 == 1,
            unicast_flag: bytes[6] / 4 % 2 == 1,
            ptp_profile_specific_1: bytes[6] / 32 % 2 == 1,
            ptp_profile_specific_2: bytes[6] / 64 % 2 == 1,
            leap61: bytes[7] % 2 == 1,
            leap59: bytes[7] / 2 % 2 == 1,
            current_utc_offset_valid: bytes[7] / 4 % 2 == 1,
            ptp_timescale: bytes[7] / 8 % 2 == 1,
            time_tracable: bytes[7] / 16 % 2 == 1,
            frequency_tracable: bytes[7] / 32 % 2 == 1,
            synchronization_uncertain: bytes[7] / 64 % 2 == 1,
            correction_field: Duration {
                scaled_nanos: from_twos_complement(be_value(bytes.subrange(8, 16)), 8) as i64,
            },
            source_port_identity: PortIdentity::from_wire(bytes.subrange(20, 30)),
            sequence_id: be_value(bytes.subrange(30, 32)) as u16,
            log_message_interval: from_twos_complement(bytes[33] as nat, 1) as i8,
        }
    }

    /// The nibble in `bytes` that names the kind of the message.
    pub open spec fn wire_type(bytes: Seq<u8>) -> u8 {
        bytes[0] % 0x10
    }

    /// The length of the message that `bytes` announce.
    pub open spec fn wire_length(bytes: Seq<u8>) -> u16 {
        be_value(bytes.subrange(2, 4)) as u16
    }

    /// What reading a header from `bytes` gives.
    pub open spec fn parse(bytes: Seq<u8>) -> Result<DeserializedHeader, WireFormatError> {
        if bytes.len() < HEADER_SIZE {
            Err(WireFormatError::BufferTooShort)
        } else {
            match MessageType::of_nibble(Header::wire_type(bytes)) {
                None => Err(WireFormatError::UnsupportedMessageType),
                Some(message_type) => Ok(
                    DeserializedHeader {
                        header: Header::from_wire(bytes),
                        message_type,
                        message_length: Header::wire_length(bytes),
                    },
                ),
            }
        }
    }

    pub proof fn lemma_wire_len(self, message_type: MessageType, length: u16)
        ensures
            self.wire_bytes(message_type, length).len() == HEADER_SIZE,
    {
        lemma_be_bytes_len(length as nat, 2);
        lemma_be_bytes_len(twos_complement(self.correction_field.scaled_nanos as int, 8), 8);
        lemma_be_bytes_len(self.sequence_id as nat, 2);
        self.source_port_identity.lemma_round_trip();
    }

    /// Each flag of the first flag byte is read back from it.
    pub proof fn lemma_flags_high_round_trip(self)
        ensures
            (self.flags_high() % 2 == 1) == self.alternate_master_flag,
            (self.flags_high() / 2 % 2 == 1) == self.two_step_flag,
            (self.flags_high() / 4 % 2 == 1) == self.unicast_flag,
            (self.flags_high() / 32 % 2 == 1) == self.ptp_profile_specific_1,
            (self.flags_high() / 64 % 2 == 1) == self.ptp_profile_specific_2,
    {
        lemma_digits(
            bit(self.alternate_master_flag),
            bit(self.two_step_flag),
            bit(self.unicast_flag),
            0,
            0,
            bit(self.ptp_profile_specific_1),
            bit(self.ptp_profile_specific_2),
        );
    }

    /// Each flag of the second flag byte is read back from it.
    pub proof fn lemma_flags_low_round_trip(self)
        ensures
            (self.flags_low() % 2 == 1) == self.leap61,
            (self.flags_low() / 2 % 2 == 1) == self.leap59,
            (self.flags_low() / 4 % 2 == 1) == self.current_utc_offset_valid,
            (self.flags_low() / 8 % 2 == 1) == self.ptp_timescale,
            (self.flags_low() / 16 % 2 == 1) == self.time_tracable,
            (self.flags_low() / 32 % 2 == 1) == self.frequency_tracable,
            (self.flags_low() / 64 % 2 == 1) == self.synchronization_uncertain,
    {
        lemma_digits(
            bit(self.leap61),
            bit(self.leap59),
            bit(self.current_utc_offset_valid),
            bit(self.ptp_timescale),
            bit(self.time_tracable),
            bit(self.frequency_tracable),
            bit(self.synchronization_uncertain),
        );
    }

    /// The fields that share the first two bytes and the sixth are read back
    /// from them.
    pub proof fn lemma_packed_round_trip(self, message_type: MessageType, bytes: Seq<u8>)
        requires
            self.representable(),
            bytes.len() >= HEADER_SIZE,
            bytes[0] == ((self.sdo_id.0 / 0x100) * 0x10 + message_type.nibble()) as u8,
            bytes[1] == (self.version.minor * 0x10 + self.version.major) as u8,
            bytes[5] == (self.sdo_id.0 % 0x100) as u8,
        ensures
            Header::from_wire(bytes).sdo_id == self.sdo_id,
            Header::from_wire(bytes).version == self.version,
            Header::wire_type(bytes) == message_type.nibble(),
    {
        let high = self.sdo_id.0 / 0x100;
        assert(0 <= high < 0x10);
        assert(0 <= message_type.nibble() < 0x10);
        assert(bytes[0] == high * 0x10 + message_type.nibble());
        assert(bytes[0] / 0x10 == high);
        assert(bytes[0] % 0x10 == message_type.nibble());
        assert(bytes[1] == self.version.minor * 0x10 + self.version.major);
    }

    /// A header that the wire carries whole is read back as it was written,
    /// with its kind and length, whatever follows it.
    pub proof fn lemma_round_trip(self, message_type: MessageType, length: u16, bytes: Seq<u8>)
        requires
            self.representable(),
            bytes.len() >= HEADER_SIZE,
            bytes.subrange(0, HEADER_SIZE as int) == self.wire_bytes(message_type, length),
        ensures
            Header::parse(bytes) == Ok::<DeserializedHeader, WireFormatError>(
                DeserializedHeader { header: self, message_type, message_length: length },
            ),
    {
        let wire = self.wire_bytes(message_type, length);
        let correction = twos_complement(self.correction_field.scaled_nanos as int, 8);
        let interval = twos_complement(self.log_message_interval as int, 1);
        let read = Header::from_wire(bytes);
        self.lemma_wire_len(message_type, length);
        lemma_be_bytes_len(length as nat, 2);
        lemma_be_bytes_len(correction, 8);
        lemma_be_bytes_len(self.sequence_id as nat, 2);
        self.source_port_identity.lemma_round_trip();
        assert forall|i: int| 0 <= i < HEADER_SIZE implies bytes[i] == wire[i] by {
            assert(bytes.subrange(0, HEADER_SIZE as int)[i] == bytes[i]);
        }
        assert(Header::wire_length(bytes) == length) by {
            assert(bytes.subrange(2, 4) =~= be_bytes(length as nat, 2));
            lemma_pow256_values();
            lemma_be_value_of_bytes(length as nat, 2);
        }
        assert(read.correction_field == self.correction_field) by {
            assert(bytes.subrange(8, 16) =~= be_bytes(correction, 8));
            lemma_pow256_values();
            lemma_twos_complement(self.correction_field.scaled_nanos as int, 8);
            lemma_be_value_of_bytes(correction, 8);
        }
        assert(read.source_port_identity == self.source_port_identity) by {
            assert(bytes.subrange(20, 30) =~= self.source_port_identity.wire_bytes());
        }
        assert(read.sequence_id == self.sequence_id) by {
            assert(bytes.subrange(30, 32) =~= be_bytes(self.sequence_id as nat, 2));
            lemma_pow256_values();
            lemma_be_value_of_bytes(self.sequence_id as nat, 2);
        }
        assert(read.log_message_interval == self.log_message_interval) by {
            assert(bytes[33] == wire[33]);
            lemma_pow256_values();
            lemma_twos_complement(self.log_message_interval as int, 1);
        }
        assert(read.domain_number == self.domain_number) by {
            assert(bytes[4] == wire[4]);
        }
        assert(bytes[0] == wire[0]);
        assert(bytes[1] == wire[1]);
        assert(bytes[5] == wire[5]);
        assert(bytes[6] == wire[6]);
        assert(bytes[7] == wire[7]);
        self.lemma_packed_round_trip(message_type, bytes);
        self.lemma_flags_high_round_trip();
        self.lemma_flags_low_round_trip();
        assert(read == self);
    }

    /// What is read from the wire, the wire carries whole.
    pub proof fn lemma_read_representable(bytes: Seq<u8>)
        ensures
            Header::from_wire(bytes).representable(),
    {
    }

    pub fn new() -> (r: Header)
        ensures
            r == Header::initial(),
    {
        let r = Header {
            sdo_id: SdoId(0),
            version: PtpVersion { major: 2, minor: 1 },
            domain_number: 0,
            alternate_master_flag: false,
            two_step_flag: false,
            unicast_flag: false,
            ptp_profile_specific_1: false,
            ptp_profile_specific_2: false,
            leap61: false,
            leap59: false,
            current_utc_offset_valid: false,
            ptp_timescale: false,
            time_tracable: false,
            frequency_tracable: false,
            synchronization_uncertain: false,
            correction_field: Duration::zero(),
            source_port_identity: PortIdentity {
                clock_identity: crate::datastructures::common::ClockIdentity([0, 0, 0, 0, 0, 0, 0, 0]),
                port_number: 0,
            },
            sequence_id: 0,
            log_message_interval: 0,
        };
        assert(r.source_port_identity.clock_identity.0@
            =~= Header::initial().source_port_identity.clock_identity.0@);
        assert(r.source_port_identity.clock_identity.0
            == Header::initial().source_port_identity.clock_identity.0);
        r
    }

    pub fn wire_size(&self) -> (r: usize)
        ensures
            r == HEADER_SIZE,
    {
        HEADER_SIZE
    }

    pub fn is_representable(&self) -> (r: bool)
        ensures
            r == self.representable(),
    {
        self.sdo_id.0 < 0x1000 && self.version.major < 0x10 && self.version.minor < 0x10
    }

    fn flags_high_byte(&self) -> (r: u8)
        ensures
            r == self.flags_high(),
    {
        weigh(self.alternate_master_flag, 1) + weigh(self.two_step_flag, 2) + weigh(
            self.unicast_flag,
            4,
        ) + weigh(self.ptp_profile_specific_1, 32) + weigh(self.ptp_profile_specific_2, 64)
    }

    fn flags_low_byte(&self) -> (r: u8)
        ensures
            r == self.flags_low(),
    {
        let first: u8 = weigh(self.leap61, 1) + weigh(self.leap59, 2) + weigh(
            self.current_utc_offset_valid,
            4,
        ) + weigh(self.ptp_timescale, 8);
        let second: u8 = weigh(self.time_tracable, 16) + weigh(self.frequency_tracable, 32)
            + weigh(self.synchronization_uncertain, 64);
        first + second
    }

    /// Writes the header of a message whose body is `content_length` bytes
    /// long to the start of `buffer`.
    pub fn serialize_header(
        &self,
        content_type: MessageType,
        content_length: usize,
        buffer: &mut [u8],
    ) -> (r: Result<(), WireFormatError>)
        ensures
            r == if old(buffer).len() < HEADER_SIZE {
                Err::<(), WireFormatError>(WireFormatError::BufferTooShort)
            } else if !self.representable() || HEADER_SIZE + content_length > u16::MAX {
                Err(WireFormatError::InvalidField)
            } else {
                Ok(())
            },
            final(buffer)@ == if r is Ok {
                splice(
                    old(buffer)@,
                    0,
                    self.wire_bytes(content_type, (HEADER_SIZE + content_length) as u16),
                )
            } else {
                old(buffer)@
            },
    {
        if buffer.len() < HEADER_SIZE {
            return Err(WireFormatError::BufferTooShort);
        }
        if !self.is_representable() || content_length > u16::MAX as usize - HEADER_SIZE {
            return Err(WireFormatError::InvalidField);
        }
        let length = (HEADER_SIZE + content_length) as u16;
        let flags_high = self.flags_high_byte();
        let flags_low = self.flags_low_byte();
        let correction = encode_i64(self.correction_field.scaled_nanos);
        let ghost before = buffer@;
        let first = [
            ((self.sdo_id.0 / 0x100) as u8) * 0x10 + content_type.to_primitive(),
            self.version.minor * 0x10 + self.version.major,
        ];
        let middle = [self.domain_number, (self.sdo_id.0 % 0x100) as u8, flags_high, flags_low];
        let reserved = [0u8, 0u8, 0u8, 0u8];
        let last = [content_type.control_field(), encode_i8(self.log_message_interval)];
        let ghost mut done = first@;
        proof {
            lemma_be_bytes_len(length as nat, 2);
            lemma_be_bytes_len(correction as nat, 8);
            lemma_be_bytes_len(self.sequence_id as nat, 2);
            self.source_port_identity.lemma_round_trip();
        }
        write_slice(buffer, 0, &first);
        proof {
            lemma_splice_append(before, 0, done, be_bytes(length as nat, 2));
            done = done + be_bytes(length as nat, 2);
        }
        write_be(buffer, 2, 2, length as u64);
        proof {
            lemma_splice_append(before, 0, done, middle@);
            done = done + middle@;
        }
        write_slice(buffer, 4, &middle);
        proof {
            lemma_splice_append(before, 0, done, be_bytes(correction as nat, 8));
            done = done + be_bytes(correction as nat, 8);
        }
        write_be(buffer, 8, 8, correction);
        proof {
            lemma_splice_append(before, 0, done, reserved@);
            done = done + reserved@;
        }
        write_slice(buffer, 16, &reserved);
        proof {
            lemma_splice_append(before, 0, done, self.source_port_identity.wire_bytes());
            done = done + self.source_port_identity.wire_bytes();
        }
        self.source_port_identity.write_at(buffer, 20);
        proof {
            lemma_splice_append(before, 0, done, be_bytes(self.sequence_id as nat, 2));
            done = done + be_bytes(self.sequence_id as nat, 2);
        }
        write_be(buffer, 30, 2, self.sequence_id as u64);
        proof {
            lemma_splice_append(before, 0, done, last@);
            done = done + last@;
        }
        write_slice(buffer, 32, &last);
        proof {
            assert(first@ =~= seq![first[0], first[1]]);
            assert(middle@ =~= seq![middle[0], middle[1], middle[2], middle[3]]);
            assert(reserved@ =~= seq![0u8, 0u8, 0u8, 0u8]);
            assert(last@ =~= seq![last[0], last[1]]);
            assert(done == self.wire_bytes(content_type, length));
        }
        Ok(())
    }

    /// Reads the header at the start of `buffer`.
    pub fn deserialize_header(buffer: &[u8]) -> (r: Result<DeserializedHeader, WireFormatError>)
        ensures
            r == Header::parse(buffer@),
    {
        if buffer.len() < HEADER_SIZE {
            return Err(WireFormatError::BufferTooShort);
        }
        let message_type = match MessageType::from_primitive(buffer[0] % 0x10) {
            Ok(message_type) => message_type,
            Err(error) => {
                return Err(error);
            },
        };
        proof {
            lemma_pow256_values();
            lemma_be_bytes_of_value(buffer@.subrange(2, 4));
            lemma_be_bytes_of_value(buffer@.subrange(8, 16));
            lemma_be_bytes_of_value(buffer@.subrange(30, 32));
        }
        let header = Header {
            sdo_id: SdoId((buffer[0] / 0x10) as u16 * 0x100 + buffer[5] as u16),
            version: PtpVersion { major: buffer[1] % 0x10, minor: buffer[1] / 0x10 },
            domain_number: buffer[4],
            alternate_master_flag: buffer[6] % 2 == 1,
            two_step_flag: buffer[6] / 2 % 2 == 1,
            unicast_flag: buffer[6] / 4 % 2 == 1,
            ptp_profile_specific_1: buffer[6] / 32 % 2 == 1,
            ptp_profile_specific_2: buffer[6] / 64 % 2 == 1,
            leap61: buffer[7] % 2 == 1,
            leap59: buffer[7] / 2 % 2 == 1,
            current_utc_offset_valid: buffer[7] / 4 % 2 == 1,
            ptp_timescale: buffer[7] / 8 % 2 == 1,
            time_tracable: buffer[7] / 16 % 2 == 1,
            frequency_tracable: buffer[7] / 32 % 2 == 1,
            synchronization_uncertain: buffer[7] / 64 % 2 == 1,
            correction_field: Duration::from_scaled_nanos(decode_i64(read_be(buffer, 8, 8))),
            source_port_identity: PortIdentity::read_at(buffer, 20),
            sequence_id: read_be(buffer, 30, 2) as u16,
            log_message_interval: decode_i8(buffer[33]),
        };
        let message_length = read_be(buffer, 2, 2) as u16;
        Ok(DeserializedHeader { header, message_type, message_length })
    }
}

impl Default for Header {
    fn default() -> (r: Header)
        ensures
            r == Header::initial(),
    {
        Header::new()
    }
}

} // verus!
