//! The Announce message: what a master says of itself and its grandmaster.

use super::header::Header;
use crate::datastructures::common::{ClockIdentity, ClockQuality, TimeSource, WireTimestamp};
use crate::datastructures::encoding::{
    be_bytes, be_value, decode_i16, encode_i16, from_twos_complement, lemma_be_bytes_len,
    lemma_be_bytes_of_value, lemma_be_value_of_bytes, lemma_pow256_values, lemma_splice_append,
    lemma_twos_complement, read_be, splice, twos_complement, write_be, write_slice,
};
use crate::datastructures::WireFormatError;
use vstd::prelude::*;

verus! {

#[derive(Clone, Copy, Debug, PartialEq, Eq)]
pub struct AnnounceMessage {
    pub header: Header,
    pub origin_timestamp: WireTimestamp,
    /// The offset of the timescale from UTC in seconds.
    pub current_utc_offset: i16,
    pub grandmaster_priority_1: u8,
    pub grandmaster_clock_quality: ClockQuality,
    pub grandmaster_priority_2: u8,
    pub grandmaster_identity: ClockIdentity,
    /// The number of links between the grandmaster and the sender.
    pub steps_removed: u16,
    pub time_source: TimeSource,
}

impl AnnounceMessage {
    /// The bytes of the body.
    pub open spec fn content_bytes(self) -> Seq<u8> {
        self.origin_timestamp.wire_bytes() + be_bytes(
            twos_complement(self.current_utc_offset as int, 2),
            2,
        ) + seq![0u8, self.grandmaster_priority_1] + self.grandmaster_clock_quality.wire_bytes()
            + seq![self.grandmaster_priority_2] + self.grandmaster_identity.wire_bytes()
            + be_bytes(self.steps_removed as nat, 2) + seq![self.time_source.code()]
    }

    /// The wire carries every field of the body whole, and names the time
    /// source as the message does.
    pub open spec fn content_representable(self) -> bool {
        &&& self.origin_timestamp.representable()
        &&& self.time_source.canonical()
    }

    /// The message with `header` whose body the first thirty of `bytes`
    /// spell.
    pub open spec fn from_wire(header: Header, bytes: Seq<u8>) -> AnnounceMessage {
        AnnounceMessage {
            header,
            origin_timestamp: WireTimestamp::from_wire(bytes.subrange(0, 10)),
            current_utc_offset: from_twos_complement(be_value(bytes.subrange(10, 12)), 2) as i16,
            grandmaster_priority_1: bytes[13],
            grandmaster_clock_quality: ClockQuality::from_wire(bytes.subrange(14, 18)),
            grandmaster_priority_2: bytes[18],
            grandmaster_identity: ClockIdentity::from_wire(bytes.subrange(19, 27)),
            steps_removed: be_value(bytes.subrange(27, 29)) as u16,
            time_source: TimeSource::of_code(bytes[29]),
        }
    }

    pub proof fn lemma_content_len(self)
        ensures
            self.content_bytes().len() == 30,
    {
        self.origin_timestamp.lemma_round_trip();
        lemma_be_bytes_len(twos_complement(self.current_utc_offset as int, 2), 2);
        self.grandmaster_clock_quality.lemma_round_trip();
        self.grandmaster_identity.lemma_round_trip();
        lemma_be_bytes_len(self.steps_removed as nat, 2);
    }

    /// A body that the wire carries whole is read back as it was written,
    /// whatever follows it.
    pub proof fn lemma_content_round_trip(self, bytes: Seq<u8>)
        requires
            self.content_representable(),
            bytes.len() >= 30,
            bytes.subrange(0, 30) == self.content_bytes(),
        ensures
            AnnounceMessage::from_wire(self.header, bytes) == self,
    {
        let wire = self.content_bytes();
        let offset = twos_complement(self.current_utc_offset as int, 2);
        let read = AnnounceMessage::from_wire(self.header, bytes);
        self.lemma_content_len();
        self.origin_timestamp.lemma_round_trip();
        lemma_be_bytes_len(offset, 2);
        self.grandmaster_clock_quality.lemma_round_trip();
        self.grandmaster_identity.lemma_round_trip();
        lemma_be_bytes_len(self.steps_removed as nat, 2);
        assert forall|i: int| 0 <= i < 30 implies bytes[i] == wire[i] by {
            assert(bytes.subrange(0, 30)[i] == bytes[i]);
        }
        assert(read.origin_timestamp == self.origin_timestamp) by {
            assert(bytes.subrange(0, 10) =~= self.origin_timestamp.wire_bytes());
        }
        assert(read.current_utc_offset == self.current_utc_offset) by {
            assert(bytes.subrange(10, 12) =~= be_bytes(offset, 2));
            lemma_pow256_values();
            lemma_twos_complement(self.current_utc_offset as int, 2);
            lemma_be_value_of_bytes(offset, 2);
        }
        assert(read.grandmaster_priority_1 == self.grandmaster_priority_1) by {
            assert(bytes[13] == wire[13]);
        }
        assert(read.grandmaster_clock_quality == self.grandmaster_clock_quality) by {
            assert(bytes.subrange(14, 18) =~= self.grandmaster_clock_quality.wire_bytes());
        }
        assert(read.grandmaster_priority_2 == self.grandmaster_priority_2) by {
            assert(bytes[18] == wire[18]);
        }
        assert(read.grandmaster_identity == self.grandmaster_identity) by {
            assert(bytes.subrange(19, 27) =~= self.grandmaster_identity.wire_bytes());
        }
        assert(read.steps_removed == self.steps_removed) by {
            assert(bytes.subrange(27, 29) =~= be_bytes(self.steps_removed as nat, 2));
            lemma_pow256_values();
            lemma_be_value_of_bytes(self.steps_removed as nat, 2);
        }
        assert(read.time_source == self.time_source) by {
            assert(bytes[29] == wire[29]);
        }
    }

    pub fn content_size(&self) -> (r: usize)
        ensures
            r == 30,
    {
        30
    }

    pub fn is_content_representable(&self) -> (r: bool)
        ensures
            r == self.content_representable(),
    {
        let code = self.time_source.to_primitive();
        let named = TimeSource::from_primitive(code);
        let canonical = match (named, self.time_source) {
            (TimeSource::Unknown(_), TimeSource::Unknown(_)) => true,
            (TimeSource::Unknown(_), _) => false,
            (_, TimeSource::Unknown(_)) => false,
            _ => true,
        };
        self.origin_timestamp.seconds < 0x1_0000_0000_0000 && canonical
    }

    /// Writes the body at `offset`.
    pub fn write_content_at(&self, buffer: &mut [u8], offset: usize)
        requires
            offset + 30 <= old(buffer).len(),
        ensures
            final(buffer)@ == splice(old(buffer)@, offset as int, self.content_bytes()),
    {
        let ghost before = buffer@;
        let utc_offset = encode_i16(self.current_utc_offset);
        let priority_1 = [0u8, self.grandmaster_priority_1];
        let priority_2 = [self.grandmaster_priority_2];
        let source = [self.time_source.to_primitive()];
        let ghost mut done = self.origin_timestamp.wire_bytes();
        proof {
            self.origin_timestamp.lemma_round_trip();
            lemma_be_bytes_len(utc_offset as nat, 2);
            self.grandmaster_clock_quality.lemma_round_trip();
            self.grandmaster_identity.lemma_round_trip();
            lemma_be_bytes_len(self.steps_removed as nat, 2);
        }
        self.origin_timestamp.write_at(buffer, offset);
        proof {
            lemma_splice_append(before, offset as int, done, be_bytes(utc_offset as nat, 2));
            done = done + be_bytes(utc_offset as nat, 2);
        }
        write_be(buffer, offset + 10, 2, utc_offset as u64);
        proof {
            lemma_splice_append(before, offset as int, done, priority_1@);
            done = done + priority_1@;
        }
        write_slice(buffer, offset + 12, &priority_1);
        proof {
            lemma_splice_append(
                before,
                offset as int,
                done,
                self.grandmaster_clock_quality.wire_bytes(),
            );
            done = done + self.grandmaster_clock_quality.wire_bytes();
        }
        self.grandmaster_clock_quality.write_at(buffer, offset + 14);
        proof {
            lemma_splice_append(before, offset as int, done, priority_2@);
            done = done + priority_2@;
        }
        write_slice(buffer, offset + 18, &priority_2);
        proof {
            lemma_splice_append(
                before,
                offset as int,
                done,
                self.grandmaster_identity.wire_bytes(),
            );
            done = done + self.grandmaster_identity.wire_bytes();
        }
        self.grandmaster_identity.write_at(buffer, offset + 19);
        proof {
            lemma_splice_append(
                before,
                offset as int,
                done,
                be_bytes(self.steps_removed as nat, 2),
            );
            done = done + be_bytes(self.steps_removed as nat, 2);
        }
        write_be(buffer, offset + 27, 2, self.steps_removed as u64);
        proof {
            lemma_splice_append(before, offset as int, done, source@);
            done = done + source@;
        }
        write_slice(buffer, offset + 29, &source);
        proof {
            assert(priority_1@ =~= seq![0u8, self.grandmaster_priority_1]);
            assert(priority_2@ =~= seq![self.grandmaster_priority_2]);
            assert(source@ =~= seq![self.time_source.code()]);
            assert(done == self.content_bytes());
        }
    }

    /// Writes the body to the start of `buffer`.
    pub fn serialize_content(&self, buffer: &mut [u8]) -> (r: Result<(), WireFormatError>)
        ensures
            r == if old(buffer).len() < 30 {
                Err::<(), WireFormatError>(WireFormatError::BufferTooShort)
            } else if !self.content_representable() {
                Err(WireFormatError::InvalidField)
            } else {
                Ok(())
            },
            final(buffer)@ == if r is Ok {
                splice(old(buffer)@, 0, self.content_bytes())
            } else {
                old(buffer)@
            },
    {
        if buffer.len() < 30 {
            return Err(WireFormatError::BufferTooShort);
        }
        if !self.is_content_representable() {
            return Err(WireFormatError::InvalidField);
        }
        self.write_content_at(buffer, 0);
        Ok(())
    }

    /// Reads the body from the start of `buffer`.
    pub fn deserialize_content(header: Header, buffer: &[u8]) -> (r: Result<
        AnnounceMessage,
        WireFormatError,
    >)
        ensures
            r == if buffer.len() < 30 {
                Err::<AnnounceMessage, WireFormatError>(WireFormatError::BufferTooShort)
            } else {
                Ok(AnnounceMessage::from_wire(header, buffer@))
            },
            r matches Ok(message) ==> message.content_representable(),
    {
        if buffer.len() < 30 {
            return Err(WireFormatError::BufferTooShort);
        }
        proof {
            lemma_pow256_values();
            lemma_be_bytes_of_value(buffer@.subrange(10, 12));
            lemma_be_bytes_of_value(buffer@.subrange(27, 29));
        }
        Ok(
            AnnounceMessage {
                header,
                origin_timestamp: WireTimestamp::read_at(buffer, 0),
                current_utc_offset: decode_i16(read_be(buffer, 10, 2) as u16),
                grandmaster_priority_1: buffer[13],
                grandmaster_clock_quality: ClockQuality::read_at(buffer, 14),
                grandmaster_priority_2: buffer[18],
                grandmaster_identity: ClockIdentity::read_at(buffer, 19),
                steps_removed: read_be(buffer, 27, 2) as u16,
                time_source: TimeSource::from_primitive(buffer[29]),
            },
        )
    }
}

} // verus!
