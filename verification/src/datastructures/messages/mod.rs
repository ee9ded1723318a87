//! The messages of the protocol and their wire format.

use crate::datastructures::common::{PortIdentity, WireTimestamp};
use crate::datastructures::datasets::{CurrentDS, DefaultDS, ParentDS, TimePropertiesDS};
use crate::datastructures::encoding::{lemma_splice_append, splice};
use crate::datastructures::WireFormatError;
use crate::ptp_instance::PtpInstanceState;
use crate::time::{Interval, Time};
use vstd::prelude::*;
use vstd::slice::slice_subrange;

pub mod announce;
pub mod delay_req;
pub mod delay_resp;
pub mod follow_up;
pub mod header;
pub mod sync;

pub use announce::AnnounceMessage;
pub use delay_req::DelayReqMessage;
pub use delay_resp::DelayRespMessage;
pub use follow_up::FollowUpMessage;
pub use header::{DeserializedHeader, Header, MessageType, PtpVersion, SdoId, HEADER_SIZE};
pub use sync::SyncMessage;

verus! {

/// The length of the longest message that this engine writes or reads.
pub const MAX_DATA_LEN: usize = 255;

/// A message of the protocol.
#[derive(Clone, Copy, Debug, PartialEq, Eq)]
pub enum Message {
    Sync(SyncMessage),
    DelayReq(DelayReqMessage),
    FollowUp(FollowUpMessage),
    DelayResp(DelayRespMessage),
    Announce(AnnounceMessage),
}

/// The header that the messages of a port start from.
pub open spec fn base_header(
    default_ds: DefaultDS,
    port_identity: PortIdentity,
    sequence_id: u16,
) -> Header {
    Header {
        sdo_id: default_ds.sdo_id,
        domain_number: default_ds.domain_number,
        source_port_identity: port_identity,
        sequence_id,
        ..Header::initial()
    }
}

fn new_base_header(default_ds: &DefaultDS, port_identity: PortIdentity, sequence_id: u16) -> (r:
    Header)
    ensures
        r == base_header(*default_ds, port_identity, sequence_id),
{
    let mut header = Header::new();
    header.sdo_id = default_ds.sdo_id;
    header.domain_number = default_ds.domain_number;
    header.source_port_identity = port_identity;
    header.sequence_id = sequence_id;
    header
}

impl Message {
    /// The header of the message.
    pub open spec fn common_header(self) -> Header {
        match self {
            Message::Sync(message) => message.header,
            Message::DelayReq(message) => message.header,
            Message::FollowUp(message) => message.header,
            Message::DelayResp(message) => message.header,
            Message::Announce(message) => message.header,
        }
    }

    /// The kind of the message.
    pub open spec fn kind(self) -> MessageType {
        match self {
            Message::Sync(_) => MessageType::Sync,
            Message::DelayReq(_) => MessageType::DelayReq,
            Message::FollowUp(_) => MessageType::FollowUp,
            Message::DelayResp(_) => MessageType::DelayResp,
            Message::Announce(_) => MessageType::Announce,
        }
    }

    /// The bytes of the body of the message.
    pub open spec fn content_bytes(self) -> Seq<u8> {
        match self {
            Message::Sync(message) => message.content_bytes(),
            Message::DelayReq(message) => message.content_bytes(),
            Message::FollowUp(message) => message.content_bytes(),
            Message::DelayResp(message) => message.content_bytes(),
            Message::Announce(message) => message.content_bytes(),
        }
    }

    /// The wire carries every field of the message whole.
    pub open spec fn wire_valid(self) -> bool {
        &&& self.common_header().representable()
        &&& match self {
            Message::Sync(message) => message.content_representable(),
            Message::DelayReq(message) => message.content_representable(),
            Message::FollowUp(message) => message.content_representable(),
            Message::DelayResp(message) => message.content_representable(),
            Message::Announce(message) => message.content_representable(),
        }
    }

    /// The length of the message on the wire.
    pub open spec fn wire_len(self) -> nat {
        HEADER_SIZE as nat + self.kind().content_size()
    }

    /// The bytes of the message: its header, which announces its kind and
    /// length, and its body.
    pub open spec fn wire_bytes(self) -> Seq<u8> {
        self.common_header().wire_bytes(self.kind(), self.wire_len() as u16) + self.content_bytes()
    }

    /// What writing the message to a buffer of `room` bytes gives.
    pub open spec fn serialized(self, room: nat) -> Result<usize, WireFormatError> {
        if room < self.wire_len() {
            Err(WireFormatError::BufferTooShort)
        } else if !self.wire_valid() {
            Err(WireFormatError::InvalidField)
        } else {
            Ok(self.wire_len() as usize)
        }
    }

    /// The message of kind `kind` with `header` whose body `body` starts
    /// with.
    pub open spec fn of_parts(kind: MessageType, header: Header, body: Seq<u8>) -> Message {
        match kind {
            MessageType::Sync => Message::Sync(SyncMessage::from_wire(header, body)),
            MessageType::DelayReq => Message::DelayReq(DelayReqMessage::from_wire(header, body)),
            MessageType::FollowUp => Message::FollowUp(FollowUpMessage::from_wire(header, body)),
            MessageType::DelayResp => Message::DelayResp(
                DelayRespMessage::from_wire(header, body),
            ),
            MessageType::Announce => Message::Announce(AnnounceMessage::from_wire(header, body)),
        }
    }

    /// What reading a message from `bytes` gives: the message that they
    /// start with, or why there is none. The length that the header
    /// announces must cover the body of the kind that it names, and the
    /// bytes must reach that far; what follows the body is passed over.
    pub open spec fn parse(bytes: Seq<u8>) -> Result<Message, WireFormatError> {
        match Header::parse(bytes) {
            Err(error) => Err(error),
            Ok(read) => if read.message_length < HEADER_SIZE + read.message_type.content_size() {
                Err(WireFormatError::InvalidField)
            } else if bytes.len() < read.message_length {
                Err(WireFormatError::BufferTooShort)
            } else {
                Ok(
                    Message::of_parts(
                        read.message_type,
                        read.header,
                        bytes.subrange(HEADER_SIZE as int, read.message_length as int),
                    ),
                )
            },
        }
    }

    /// The Sync message that a master sends at `timestamp`. It announces a
    /// FollowUp: its two-step flag is set.
    pub open spec fn sync_of(
        default_ds: DefaultDS,
        port_identity: PortIdentity,
        sequence_id: u16,
        timestamp: Time,
    ) -> Message {
        Message::Sync(
            SyncMessage {
                header: Header {
                    two_step_flag: true,
                    ..base_header(default_ds, port_identity, sequence_id)
                },
                origin_timestamp: WireTimestamp::of_time(timestamp),
            },
        )
    }

    /// The FollowUp message for a Sync message that left at `timestamp`:
    /// the whole nanoseconds in its body, the rest in its correction field.
    pub open spec fn follow_up_of(
        default_ds: DefaultDS,
        port_identity: PortIdentity,
        sequence_id: u16,
        timestamp: Time,
    ) -> Message {
        Message::FollowUp(
            FollowUpMessage {
                header: Header {
                    correction_field: timestamp.fraction(),
                    ..base_header(default_ds, port_identity, sequence_id)
                },
                precise_origin_timestamp: WireTimestamp::of_time(timestamp),
            },
        )
    }

    /// The DelayReq message that a slave sends.
    pub open spec fn delay_req_of(
        default_ds: DefaultDS,
        port_identity: PortIdentity,
        sequence_id: u16,
    ) -> Message {
        Message::DelayReq(
            DelayReqMessage {
                header: Header {
                    log_message_interval: 0x7f,
                    ..base_header(default_ds, port_identity, sequence_id)
                },
                origin_timestamp: WireTimestamp { seconds: 0, nanos: 0 },
            },
        )
    }

    /// The DelayResp message that answers `request`, which arrived at
    /// `timestamp`. It keeps the header of the request but for the two-step
    /// flag, the source, the interval and the correction field, to which it
    /// adds what `timestamp` lies beyond a whole nanosecond.
    pub open spec fn delay_resp_of(
        request: DelayReqMessage,
        port_identity: PortIdentity,
        min_delay_req_interval: Interval,
        timestamp: Time,
    ) -> Message {
        Message::DelayResp(
            DelayRespMessage {
                header: Header {
                    two_step_flag: false,
                    source_port_identity: port_identity,
                    correction_field: request.header.correction_field.sum(timestamp.fraction()),
                    log_message_interval: min_delay_req_interval.log_2,
                    ..request.header
                },
                receive_timestamp: WireTimestamp::of_time(timestamp),
                requesting_port_identity: request.header.source_port_identity,
            },
        )
    }

    /// The Announce message that a master sends at `timestamp`.
    pub open spec fn announce_of(
        default_ds: DefaultDS,
        parent_ds: ParentDS,
        current_ds: CurrentDS,
        time_properties_ds: TimePropertiesDS,
        port_identity: PortIdentity,
        sequence_id: u16,
        timestamp: Time,
    ) -> Message {
        Message::Announce(
            AnnounceMessage {
                header: Header {
                    leap59: time_properties_ds.leap59,
                    leap61: time_properties_ds.leap61,
                    current_utc_offset_valid: time_properties_ds.current_utc_offset is Some,
                    ptp_timescale: time_properties_ds.ptp_timescale,
                    time_tracable: time_properties_ds.time_traceable,
                    frequency_tracable: time_properties_ds.frequency_traceable,
                    ..base_header(default_ds, port_identity, sequence_id)
                },
                origin_timestamp: WireTimestamp::of_time(timestamp),
                current_utc_offset: match time_properties_ds.current_utc_offset {
                    Some(offset) => offset,
                    None => 0,
                },
                grandmaster_priority_1: parent_ds.grandmaster_priority_1,
                grandmaster_clock_quality: parent_ds.grandmaster_clock_quality,
                grandmaster_priority_2: parent_ds.grandmaster_priority_2,
                grandmaster_identity: parent_ds.grandmaster_identity,
                steps_removed: current_ds.steps_removed,
                time_source: time_properties_ds.time_source,
            },
        )
    }

    pub proof fn lemma_wire_len(self)
        ensures
            self.wire_bytes().len() == self.wire_len(),
            self.content_bytes().len() == self.kind().content_size(),
            self.wire_len() <= 64,
    {
        self.common_header().lemma_wire_len(self.kind(), self.wire_len() as u16);
        match self {
            Message::Sync(message) => message.origin_timestamp.lemma_round_trip(),
            Message::DelayReq(message) => message.origin_timestamp.lemma_round_trip(),
            Message::FollowUp(message) => message.precise_origin_timestamp.lemma_round_trip(),
            Message::DelayResp(message) => {
                message.receive_timestamp.lemma_round_trip();
                message.requesting_port_identity.lemma_round_trip();
            },
            Message::Announce(message) => message.lemma_content_len(),
        }
    }

    /// A message that the wire carries whole is read back from its bytes as
    /// it was, whatever follows them.
    pub proof fn lemma_round_trip(self, rest: Seq<u8>)
        requires
            self.wire_valid(),
        ensures
            Message::parse(self.wire_bytes() + rest) == Ok::<Message, WireFormatError>(self),
    {
        let bytes = self.wire_bytes() + rest;
        let length = self.wire_len() as u16;
        let head = self.common_header().wire_bytes(self.kind(), length);
        self.lemma_wire_len();
        self.common_header().lemma_wire_len(self.kind(), length);
        assert(bytes.subrange(0, HEADER_SIZE as int) =~= head);
        self.common_header().lemma_round_trip(self.kind(), length, bytes);
        let body = bytes.subrange(HEADER_SIZE as int, length as int);
        assert(body =~= self.content_bytes());
        assert(body.subrange(0, body.len() as int) =~= body);
        match self {
            Message::Sync(message) => message.lemma_content_round_trip(body),
            Message::DelayReq(message) => message.lemma_content_round_trip(body),
            Message::FollowUp(message) => message.lemma_content_round_trip(body),
            Message::DelayResp(message) => message.lemma_content_round_trip(body),
            Message::Announce(message) => message.lemma_content_round_trip(body),
        }
    }

    pub fn header(&self) -> (r: &Header)
        ensures
            *r == self.common_header(),
    {
        match self {
            Message::Sync(message) => &message.header,
            Message::DelayReq(message) => &message.header,
            Message::FollowUp(message) => &message.header,
            Message::DelayResp(message) => &message.header,
            Message::Announce(message) => &message.header,
        }
    }

    pub fn content_type(&self) -> (r: MessageType)
        ensures
            r == self.kind(),
    {
        match self {
            Message::Sync(_) => MessageType::Sync,
            Message::DelayReq(_) => MessageType::DelayReq,
            Message::FollowUp(_) => MessageType::FollowUp,
            Message::DelayResp(_) => MessageType::DelayResp,
            Message::Announce(_) => MessageType::Announce,
        }
    }

    pub fn content_size(&self) -> (r: usize)
        ensures
            r == self.kind().content_size(),
    {
        self.content_type().body_size()
    }

    pub fn wire_size(&self) -> (r: usize)
        ensures
            r == self.wire_len(),
    {
        HEADER_SIZE + self.content_size()
    }

    pub fn is_wire_valid(&self) -> (r: bool)
        ensures
            r == self.wire_valid(),
    {
        self.header().is_representable() && match self {
            Message::Sync(message) => message.origin_timestamp.seconds < 0x1_0000_0000_0000,
            Message::DelayReq(message) => message.origin_timestamp.seconds < 0x1_0000_0000_0000,
            Message::FollowUp(message) => message.precise_origin_timestamp.seconds
                < 0x1_0000_0000_0000,
            Message::DelayResp(message) => message.receive_timestamp.seconds
                < 0x1_0000_0000_0000,
            Message::Announce(message) => message.is_content_representable(),
        }
    }

    /// Writes the message to the start of `buffer` and gives its length. A
    /// buffer that is too short, or a message that the wire cannot carry
    /// whole, is an error and leaves the buffer as it was.
    pub fn serialize(&self, buffer: &mut [u8]) -> (r: Result<usize, WireFormatError>)
        ensures
            r == self.serialized(old(buffer)@.len()),
            final(buffer)@ == if r is Ok {
                splice(old(buffer)@, 0, self.wire_bytes())
            } else {
                old(buffer)@
            },
    {
        let size = self.wire_size();
        if buffer.len() < size {
            return Err(WireFormatError::BufferTooShort);
        }
        if !self.is_wire_valid() {
            return Err(WireFormatError::InvalidField);
        }
        let ghost before = buffer@;
        proof {
            self.lemma_wire_len();
            self.common_header().lemma_wire_len(self.kind(), self.wire_len() as u16);
            lemma_splice_append(
                before,
                0,
                self.common_header().wire_bytes(self.kind(), self.wire_len() as u16),
                self.content_bytes(),
            );
        }
        match self.header().serialize_header(self.content_type(), self.content_size(), buffer) {
            Ok(()) => {},
            Err(error) => {
                return Err(error);
            },
        }
        match self {
            Message::Sync(message) => message.write_content_at(buffer, HEADER_SIZE),
            Message::DelayReq(message) => message.write_content_at(buffer, HEADER_SIZE),
            Message::FollowUp(message) => message.write_content_at(buffer, HEADER_SIZE),
            Message::DelayResp(message) => message.write_content_at(buffer, HEADER_SIZE),
            Message::Announce(message) => message.write_content_at(buffer, HEADER_SIZE),
        }
        Ok(size)
    }

    /// Reads the message that `buffer` starts with.
    pub fn deserialize(buffer: &[u8]) -> (r: Result<Message, WireFormatError>)
        ensures
            r == Message::parse(buffer@),
            r matches Ok(message) ==> message.wire_valid(),
    {
        let read = match Header::deserialize_header(buffer) {
            Ok(read) => read,
            Err(error) => {
                return Err(error);
            },
        };
        let length = read.message_length as usize;
        if length < HEADER_SIZE + read.message_type.body_size() {
            return Err(WireFormatError::InvalidField);
        }
        if buffer.len() < length {
            return Err(WireFormatError::BufferTooShort);
        }
        let body = slice_subrange(buffer, HEADER_SIZE, length);
        let header = read.header;
        proof {
            Header::lemma_read_representable(buffer@);
        }
        match read.message_type {
            MessageType::Sync => match SyncMessage::deserialize_content(header, body) {
                Ok(message) => Ok(Message::Sync(message)),
                Err(error) => Err(error),
            },
            MessageType::DelayReq => match DelayReqMessage::deserialize_content(header, body) {
                Ok(message) => Ok(Message::DelayReq(message)),
                Err(error) => Err(error),
            },
            MessageType::FollowUp => match FollowUpMessage::deserialize_content(header, body) {
                Ok(message) => Ok(Message::FollowUp(message)),
                Err(error) => Err(error),
            },
            MessageType::DelayResp => match DelayRespMessage::deserialize_content(header, body) {
                Ok(message) => Ok(Message::DelayResp(message)),
                Err(error) => Err(error),
            },
            MessageType::Announce => match AnnounceMessage::deserialize_content(header, body) {
                Ok(message) => Ok(Message::Announce(message)),
                Err(error) => Err(error),
            },
        }
    }

    pub fn sync(
        default_ds: &DefaultDS,
        port_identity: PortIdentity,
        sequence_id: u16,
        timestamp: Time,
    ) -> (r: Message)
        ensures
            r == Message::sync_of(*default_ds, port_identity, sequence_id, timestamp),
    {
        let mut header = new_base_header(default_ds, port_identity, sequence_id);
        header.two_step_flag = true;
        Message::Sync(SyncMessage { header, origin_timestamp: WireTimestamp::from(timestamp) })
    }

    pub fn follow_up(
        default_ds: &DefaultDS,
        port_identity: PortIdentity,
        sequence_id: u16,
        timestamp: Time,
    ) -> (r: Message)
        ensures
            r == Message::follow_up_of(*default_ds, port_identity, sequence_id, timestamp),
    {
        let mut header = new_base_header(default_ds, port_identity, sequence_id);
        header.correction_field = timestamp.subnano();
        Message::FollowUp(
            FollowUpMessage { header, precise_origin_timestamp: WireTimestamp::from(timestamp) },
        )
    }

    pub fn delay_req(default_ds: &DefaultDS, port_identity: PortIdentity, sequence_id: u16) -> (r:
        Message)
        ensures
            r == Message::delay_req_of(*default_ds, port_identity, sequence_id),
    {
        let mut header = new_base_header(default_ds, port_identity, sequence_id);
        header.log_message_interval = 0x7f;
        Message::DelayReq(
            DelayReqMessage { header, origin_timestamp: WireTimestamp { seconds: 0, nanos: 0 } },
        )
    }

    pub fn delay_resp(
        request: &DelayReqMessage,
        port_identity: PortIdentity,
        min_delay_req_interval: Interval,
        timestamp: Time,
    ) -> (r: Message)
        ensures
            r == Message::delay_resp_of(*request, port_identity, min_delay_req_interval, timestamp),
    {
        let mut header = request.header;
        header.two_step_flag = false;
        header.source_port_identity = port_identity;
        header.correction_field = request.header.correction_field.saturating_add(
            timestamp.subnano(),
        );
        header.log_message_interval = min_delay_req_interval.as_log_2();
        Message::DelayResp(
            DelayRespMessage {
                header,
                receive_timestamp: WireTimestamp::from(timestamp),
                requesting_port_identity: request.header.source_port_identity,
            },
        )
    }

    pub fn announce<C, F>(
        global: &PtpInstanceState<C, F>,
        port_identity: PortIdentity,
        sequence_id: u16,
        timestamp: Time,
    ) -> (r: Message)
        ensures
            r == Message::announce_of(
                global.default_ds,
                global.parent_ds,
                global.current_ds,
                global.time_properties_ds,
                port_identity,
                sequence_id,
                timestamp,
            ),
    {
        let time_properties_ds = &global.time_properties_ds;
        let mut header = new_base_header(&global.default_ds, port_identity, sequence_id);
        header.leap59 = time_properties_ds.leap59;
        header.leap61 = time_properties_ds.leap61;
        header.current_utc_offset_valid = time_properties_ds.current_utc_offset.is_some();
        header.ptp_timescale = time_properties_ds.ptp_timescale;
        header.time_tracable = time_properties_ds.time_traceable;
        header.frequency_tracable = time_properties_ds.frequency_traceable;
        Message::Announce(
            AnnounceMessage {
                header,
                origin_timestamp: WireTimestamp::from(timestamp),
                current_utc_offset: match time_properties_ds.current_utc_offset {
                    Some(offset) => offset,
                    None => 0,
                },
                grandmaster_priority_1: global.parent_ds.grandmaster_priority_1,
                grandmaster_clock_quality: global.parent_ds.grandmaster_clock_quality,
                grandmaster_priority_2: global.parent_ds.grandmaster_priority_2,
                grandmaster_identity: global.parent_ds.grandmaster_identity,
                steps_removed: global.current_ds.steps_removed,
                time_source: time_properties_ds.time_source,
            },
        )
    }
}

} // verus!
