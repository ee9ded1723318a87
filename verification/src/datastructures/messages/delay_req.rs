//! The DelayReq message: a slave's probe of the path to its master.

use super::header::Header;
use crate::datastructures::common::WireTimestamp;
use crate::datastructures::encoding::splice;
use crate::datastructures::WireFormatError;
use vstd::prelude::*;

verus! {

#[derive(Clone, Copy, Debug, PartialEq, Eq)]
pub struct DelayReqMessage {
    pub header: Header,
    /// The origin of the probe; a slave sends zero, as what counts is when
    /// the message left.
    pub origin_timestamp: WireTimestamp,
}

impl DelayReqMessage {
    /// The bytes of the body.
    pub open spec fn content_bytes(self) -> Seq<u8> {
        self.origin_timestamp.wire_bytes()
    }

    /// The wire carries every field of the body whole.
    pub open spec fn content_representable(self) -> bool {
        self.origin_timestamp.representable()
    }

    /// The message with `header` whose body the first ten of `bytes` spell.
    pub open spec fn from_wire(header: Header, bytes: Seq<u8>) -> DelayReqMessage {
        DelayReqMessage { header, origin_timestamp: WireTimestamp::from_wire(bytes.subrange(0, 10)) }
    }

    /// A body that the wire carries whole is read back as it was written,
    /// whatever follows it.
    pub proof fn lemma_content_round_trip(self, bytes: Seq<u8>)
        requires
            self.content_representable(),
            bytes.len() >= 10,
            bytes.subrange(0, 10) == self.content_bytes(),
        ensures
            DelayReqMessage::from_wire(self.header, bytes) == self,
    {
        self.origin_timestamp.lemma_round_trip();
    }

    pub fn content_size(&self) -> (r: usize)
        ensures
            r == 10,
    {
        10
    }

    /// Writes the body at `offset`.
    pub fn write_content_at(&self, buffer: &mut [u8], offset: usize)
        requires
            offset + 10 <= old(buffer).len(),
        ensures
            final(buffer)@ == splice(old(buffer)@, offset as int, self.content_bytes()),
    {
        self.origin_timestamp.write_at(buffer, offset);
    }

    /// Writes the body to the start of `buffer`.
    pub fn serialize_content(&self, buffer: &mut [u8]) -> (r: Result<(), WireFormatError>)
        ensures
            r == if old(buffer).len() < 10 {
                Err::<(), WireFormatError>(WireFormatError::BufferTooShort)
            } else if !self.content_representable() {
                Err(WireFormatError::InvalidField)
            } else {
                Ok(())
            },
            final(buffer)@ == if r is Ok {
                splice(old(buffer)@, 0, self.content_bytes())
            } else {
                old(buffer)@
            },
    {
        if buffer.len() < 10 {
            return Err(WireFormatError::BufferTooShort);
        }
        if self.origin_timestamp.seconds >= 0x1_0000_0000_0000 {
            return Err(WireFormatError::InvalidField);
        }
        self.write_content_at(buffer, 0);
        Ok(())
    }

    /// Reads the body from the start of `buffer`.
    pub fn deserialize_content(header: Header, buffer: &[u8]) -> (r: Result<
        DelayReqMessage,
        WireFormatError,
    >)
        ensures
            r == if buffer.len() < 10 {
                Err::<DelayReqMessage, WireFormatError>(WireFormatError::BufferTooShort)
            } else {
                Ok(DelayReqMessage::from_wire(header, buffer@))
            },
            r matches Ok(message) ==> message.content_representable(),
    {
        if buffer.len() < 10 {
            return Err(WireFormatError::BufferTooShort);
        }
        Ok(DelayReqMessage { header, origin_timestamp: WireTimestamp::read_at(buffer, 0) })
    }
}

} // verus!
