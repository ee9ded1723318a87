//! The DelayResp message: the master's answer to a DelayReq.

use super::header::Header;
use crate::datastructures::common::{PortIdentity, WireTimestamp};
use crate::datastructures::encoding::{lemma_splice_append, splice};
use crate::datastructures::WireFormatError;
use vstd::prelude::*;

verus! {

#[derive(Clone, Copy, Debug, PartialEq, Eq)]
pub struct DelayRespMessage {
    pub header: Header,
    /// When the request arrived at the master.
    pub receive_timestamp: WireTimestamp,
    /// The port that sent the request.
    pub requesting_port_identity: PortIdentity,
}

impl DelayRespMessage {
    /// The bytes of the body.
    pub open spec fn content_bytes(self) -> Seq<u8> {
        self.receive_timestamp.wire_bytes() + self.requesting_port_identity.wire_bytes()
    }

    /// The wire carries every field of the body whole.
    pub open spec fn content_representable(self) -> bool {
        self.receive_timestamp.representable()
    }

    /// The message with `header` whose body the first twenty of `bytes`
    /// spell.
    pub open spec fn from_wire(header: Header, bytes: Seq<u8>) -> DelayRespMessage {
        DelayRespMessage {
            header,
            receive_timestamp: WireTimestamp::from_wire(bytes.subrange(0, 10)),
            requesting_port_identity: PortIdentity::from_wire(bytes.subrange(10, 20)),
        }
    }

    /// A body that the wire carries whole is read back as it was written,
    /// whatever follows it.
    pub proof fn lemma_content_round_trip(self, bytes: Seq<u8>)
        requires
            self.content_representable(),
            bytes.len() >= 20,
            bytes.subrange(0, 20) == self.content_bytes(),
        ensures
            DelayRespMessage::from_wire(self.header, bytes) == self,
    {
        self.receive_timestamp.lemma_round_trip();
        self.requesting_port_identity.lemma_round_trip();
        assert(bytes.subrange(0, 10) =~= bytes.subrange(0, 20).subrange(0, 10));
        assert(bytes.subrange(10, 20) =~= bytes.subrange(0, 20).subrange(10, 20));
        assert(bytes.subrange(0, 10) =~= self.receive_timestamp.wire_bytes());
        assert(bytes.subrange(10, 20) =~= self.requesting_port_identity.wire_bytes());
    }

    pub fn content_size(&self) -> (r: usize)
        ensures
            r == 20,
    {
        20
    }

    /// Writes the body at `offset`.
    pub fn write_content_at(&self, buffer: &mut [u8], offset: usize)
        requires
            offset + 20 <= old(buffer).len(),
        ensures
            final(buffer)@ == splice(old(buffer)@, offset as int, self.content_bytes()),
    {
        proof {
            self.receive_timestamp.lemma_round_trip();
            self.requesting_port_identity.lemma_round_trip();
            lemma_splice_append(
                buffer@,
                offset as int,
                self.receive_timestamp.wire_bytes(),
                self.requesting_port_identity.wire_bytes(),
            );
        }
        self.receive_timestamp.write_at(buffer, offset);
        self.requesting_port_identity.write_at(buffer, offset + 10);
    }

    /// Writes the body to the start of `buffer`.
    pub fn serialize_content(&self, buffer: &mut [u8]) -> (r: Result<(), WireFormatError>)
        ensures
            r == if old(buffer).len() < 20 {
                Err::<(), WireFormatError>(WireFormatError::BufferTooShort)
            } else if !self.content_representable() {
                Err(WireFormatError::InvalidField)
            } else {
                Ok(())
            },
            final(buffer)@ == if r is Ok {
                splice(old(buffer)@, 0, self.content_bytes())
            } else {
                old(buffer)@
            },
    {
        if buffer.len() < 20 {
            return Err(WireFormatError::BufferTooShort);
        }
        if self.receive_timestamp.seconds >= 0x1_0000_0000_0000 {
            return Err(WireFormatError::InvalidField);
        }
        self.write_content_at(buffer, 0);
        Ok(())
    }

    /// Reads the body from the start of `buffer`.
    pub fn deserialize_content(header: Header, buffer: &[u8]) -> (r: Result<
        DelayRespMessage,
        WireFormatError,
    >)
        ensures
            r == if buffer.len() < 20 {
                Err::<DelayRespMessage, WireFormatError>(WireFormatError::BufferTooShort)
            } else {
                Ok(DelayRespMessage::from_wire(header, buffer@))
            },
            r matches Ok(message) ==> message.content_representable(),
    {
        if buffer.len() < 20 {
            return Err(WireFormatError::BufferTooShort);
        }
        Ok(
            DelayRespMessage {
                header,
                receive_timestamp: WireTimestamp::read_at(buffer, 0),
                requesting_port_identity: PortIdentity::read_at(buffer, 10),
            },
        )
    }
}

} // verus!
