//! Identities, timestamps and clock descriptions shared by the messages.

use super::encoding::{
    be_bytes, be_value, lemma_be_bytes_len, lemma_be_bytes_of_value, lemma_be_value_of_bytes,
    lemma_pow256_values, lemma_splice_append, read_be, splice, write_be,
};
use crate::time::{clamp_u64, Time, NANOS_PER_SECOND, TIME_UNITS_PER_NANO};
use vstd::prelude::*;
use vstd::std_specs::cmp::PartialEqSpecImpl;
use vstd::std_specs::convert::FromSpecImpl;

verus! {

/// The identity of a clock: eight bytes, compared byte by byte.
#[derive(Clone, Copy, Debug, Default, Eq, Hash)]
pub struct ClockIdentity(pub [u8; 8]);

impl PartialEq for ClockIdentity {
    fn eq(&self, other: &ClockIdentity) -> (r: bool) {
        let mut same = true;
        let mut done: usize = 0;
        while done < 8
            invariant
                done <= 8,
                same == (forall|i: int| 0 <= i < done ==> self.0@[i] == other.0@[i]),
            decreases 8 - done,
        {
            if self.0[done] != other.0[done] {
                same = false;
            }
            done = done + 1;
        }
        proof {
            if same {
                assert(self.0@ =~= other.0@);
                assert(self.0 == other.0);
            }
        }
        same
    }
}

impl PartialEqSpecImpl for ClockIdentity {
    open spec fn obeys_eq_spec() -> bool {
        true
    }

    open spec fn eq_spec(&self, other: &ClockIdentity) -> bool {
        *self == *other
    }
}

impl ClockIdentity {
    pub const WIRE_SIZE: usize = 8;

    pub open spec fn wire_bytes(self) -> Seq<u8> {
        self.0@
    }

    /// The identity that the first eight of `bytes` spell.
    pub open spec fn from_wire(bytes: Seq<u8>) -> ClockIdentity {
        ClockIdentity(
            [bytes[0], bytes[1], bytes[2], bytes[3], bytes[4], bytes[5], bytes[6], bytes[7]],
        )
    }

    pub proof fn lemma_round_trip(self)
        ensures
            self.wire_bytes().len() == 8,
            ClockIdentity::from_wire(self.wire_bytes()) == self,
    {
        let back = ClockIdentity::from_wire(self.wire_bytes());
        assert(back.0@ =~= self.0@);
        assert(back.0 == self.0);
    }

    pub fn write_at(&self, buffer: &mut [u8], offset: usize)
        requires
            offset + 8 <= old(buffer).len(),
        ensures
            final(buffer)@ == splice(old(buffer)@, offset as int, self.wire_bytes()),
    {
        let ghost before = buffer@;
        let mut done: usize = 0;
        while done < 8
            invariant
                done <= 8,
                offset + 8 <= buffer.len(),
                buffer@.len() == before.len(),
                forall|i: int| 0 <= i < offset ==> buffer@[i] == before[i],
                forall|i: int| offset + done <= i < before.len() ==> buffer@[i] == before[i],
                forall|i: int| 0 <= i < done ==> buffer@[offset + i] == self.0@[i],
            decreases 8 - done,
        {
            buffer[offset + done] = self.0[done];
            done = done + 1;
        }
        assert(buffer@ =~= splice(before, offset as int, self.wire_bytes()));
    }

    pub fn read_at(buffer: &[u8], offset: usize) -> (r: ClockIdentity)
        requires
            offset + 8 <= buffer.len(),
        ensures
            r == ClockIdentity::from_wire(buffer@.subrange(offset as int, offset + 8)),
    {
        let r = ClockIdentity(
            [
                buffer[offset],
                buffer[offset + 1],
                buffer[offset + 2],
                buffer[offset + 3],
                buffer[offset + 4],
                buffer[offset + 5],
                buffer[offset + 6],
                buffer[offset + 7],
            ],
        );
        let ghost spelled = ClockIdentity::from_wire(buffer@.subrange(offset as int, offset + 8));
        assert(r.0@ =~= spelled.0@);
        assert(r.0 == spelled.0);
        r
    }
}

/// The identity of a port: the identity of its clock and its number there.
#[derive(Clone, Copy, Debug, Default, Eq, Hash)]
pub struct PortIdentity {
    pub clock_identity: ClockIdentity,
    pub port_number: u16,
}

impl PartialEq for PortIdentity {
    fn eq(&self, other: &PortIdentity) -> (r: bool) {
        self.clock_identity == other.clock_identity && self.port_number == other.port_number
    }
}

impl PartialEqSpecImpl for PortIdentity {
    open spec fn obeys_eq_spec() -> bool {
        true
    }

    open spec fn eq_spec(&self, other: &PortIdentity) -> bool {
        *self == *other
    }
}

impl PortIdentity {
    pub const WIRE_SIZE: usize = 10;

    pub open spec fn wire_bytes(self) -> Seq<u8> {
        self.clock_identity.wire_bytes() + be_bytes(self.port_number as nat, 2)
    }

    /// The identity that the first ten of `bytes` spell.
    pub open spec fn from_wire(bytes: Seq<u8>) -> PortIdentity {
        PortIdentity {
            clock_identity: ClockIdentity::from_wire(bytes.subrange(0, 8)),
            port_number: be_value(bytes.subrange(8, 10)) as u16,
        }
    }

    pub proof fn lemma_round_trip(self)
        ensures
            self.wire_bytes().len() == 10,
            PortIdentity::from_wire(self.wire_bytes()) == self,
    {
        let bytes = self.wire_bytes();
        self.clock_identity.lemma_round_trip();
        lemma_be_bytes_len(self.port_number as nat, 2);
        lemma_pow256_values();
        lemma_be_value_of_bytes(self.port_number as nat, 2);
        assert(bytes.subrange(0, 8) =~= self.clock_identity.wire_bytes());
        assert(bytes.subrange(8, 10) =~= be_bytes(self.port_number as nat, 2));
    }

    pub fn write_at(&self, buffer: &mut [u8], offset: usize)
        requires
            offset + 10 <= old(buffer).len(),
        ensures
            final(buffer)@ == splice(old(buffer)@, offset as int, self.wire_bytes()),
    {
        proof {
            lemma_be_bytes_len(self.port_number as nat, 2);
            lemma_splice_append(
                buffer@,
                offset as int,
                self.clock_identity.wire_bytes(),
                be_bytes(self.port_number as nat, 2),
            );
        }
        self.clock_identity.write_at(buffer, offset);
        write_be(buffer, offset + 8, 2, self.port_number as u64);
    }

    pub fn read_at(buffer: &[u8], offset: usize) -> (r: PortIdentity)
        requires
            offset + 10 <= buffer.len(),
        ensures
            r == PortIdentity::from_wire(buffer@.subrange(offset as int, offset + 10)),
    {
        let ghost bytes = buffer@.subrange(offset as int, offset + 10);
        proof {
            assert(bytes.subrange(0, 8) =~= buffer@.subrange(offset as int, offset + 8));
            assert(bytes.subrange(8, 10) =~= buffer@.subrange(offset + 8, offset + 10));
            lemma_be_bytes_of_value(bytes.subrange(8, 10));
            lemma_pow256_values();
        }
        PortIdentity {
            clock_identity: ClockIdentity::read_at(buffer, offset),
            port_number: read_be(buffer, offset + 8, 2) as u16,
        }
    }
}

/// A timestamp as the wire carries it: 48 bits of seconds and 32 bits of
/// nanoseconds.
#[derive(Clone, Copy, Debug, Default, PartialEq, Eq, Structural, Hash)]
pub struct WireTimestamp {
    /// The seconds of the timestamp; the wire carries their low 48 bits.
    pub seconds: u64,
    /// The nanoseconds of the timestamp.
    pub nanos: u32,
}

impl WireTimestamp {
    pub const WIRE_SIZE: usize = 10;

    /// The wire carries the timestamp whole.
    pub open spec fn representable(self) -> bool {
        self.seconds < 0x1_0000_0000_0000
    }

    pub open spec fn wire_bytes(self) -> Seq<u8> {
        be_bytes(self.seconds as nat, 6) + be_bytes(self.nanos as nat, 4)
    }

    /// The timestamp that the first ten of `bytes` spell.
    pub open spec fn from_wire(bytes: Seq<u8>) -> WireTimestamp {
        WireTimestamp {
            seconds: be_value(bytes.subrange(0, 6)) as u64,
            nanos: be_value(bytes.subrange(6, 10)) as u32,
        }
    }

    /// The timestamp of a point in time: its whole seconds, saturating at
    /// `u64::MAX`, and the whole nanoseconds beyond them.
    pub open spec fn of_time(time: Time) -> WireTimestamp {
        WireTimestamp {
            seconds: clamp_u64(time.whole_seconds() as int),
            nanos: time.nanos_of_second() as u32,
        }
    }

    /// The point in time that the timestamp names.
    pub open spec fn time(self) -> Time {
        Time {
            fixed_nanos: ((self.seconds * NANOS_PER_SECOND + self.nanos) * TIME_UNITS_PER_NANO) as u128,
        }
    }

    pub proof fn lemma_round_trip(self)
        ensures
            self.wire_bytes().len() == 10,
            self.representable() ==> WireTimestamp::from_wire(self.wire_bytes()) == self,
    {
        let bytes = self.wire_bytes();
        lemma_be_bytes_len(self.seconds as nat, 6);
        lemma_be_bytes_len(self.nanos as nat, 4);
        lemma_pow256_values();
        assert(bytes.subrange(0, 6) =~= be_bytes(self.seconds as nat, 6));
        assert(bytes.subrange(6, 10) =~= be_bytes(self.nanos as nat, 4));
        lemma_be_value_of_bytes(self.nanos as nat, 4);
        if self.representable() {
            lemma_be_value_of_bytes(self.seconds as nat, 6);
        }
    }

    /// A timestamp with less than a second of nanoseconds names a point in
    /// time whose timestamp it is.
    pub proof fn lemma_time_round_trip(self)
        requires
            self.nanos < NANOS_PER_SECOND,
        ensures
            WireTimestamp::of_time(self.time()) == self,
    {
        let whole = self.seconds * NANOS_PER_SECOND + self.nanos;
        assert(self.time().fixed_nanos == whole * TIME_UNITS_PER_NANO);
        assert(self.time().whole_nanos() == whole);
    }

    pub fn write_at(&self, buffer: &mut [u8], offset: usize)
        requires
            offset + 10 <= old(buffer).len(),
        ensures
            final(buffer)@ == splice(old(buffer)@, offset as int, self.wire_bytes()),
    {
        proof {
            lemma_be_bytes_len(self.seconds as nat, 6);
            lemma_be_bytes_len(self.nanos as nat, 4);
            lemma_splice_append(
                buffer@,
                offset as int,
                be_bytes(self.seconds as nat, 6),
                be_bytes(self.nanos as nat, 4),
            );
        }
        write_be(buffer, offset, 6, self.seconds);
        write_be(buffer, offset + 6, 4, self.nanos as u64);
    }

    pub fn read_at(buffer: &[u8], offset: usize) -> (r: WireTimestamp)
        requires
            offset + 10 <= buffer.len(),
        ensures
            r == WireTimestamp::from_wire(buffer@.subrange(offset as int, offset + 10)),
            r.representable(),
    {
        let ghost bytes = buffer@.subrange(offset as int, offset + 10);
        proof {
            assert(bytes.subrange(0, 6) =~= buffer@.subrange(offset as int, offset + 6));
            assert(bytes.subrange(6, 10) =~= buffer@.subrange(offset + 6, offset + 10));
            lemma_be_bytes_of_value(bytes.subrange(0, 6));
            lemma_be_bytes_of_value(bytes.subrange(6, 10));
            lemma_pow256_values();
        }
        WireTimestamp {
            seconds: read_be(buffer, offset, 6),
            nanos: read_be(buffer, offset + 6, 4) as u32,
        }
    }
}

impl From<Time> for WireTimestamp {
    fn from(time: Time) -> (r: WireTimestamp) {
        WireTimestamp { seconds: time.secs(), nanos: time.subsec_nanos() }
    }
}

impl FromSpecImpl<Time> for WireTimestamp {
    open spec fn obeys_from_spec() -> bool {
        true
    }

    open spec fn from_spec(time: Time) -> WireTimestamp {
        WireTimestamp::of_time(time)
    }
}

impl From<WireTimestamp> for Time {
    fn from(timestamp: WireTimestamp) -> (r: Time) {
        Time::from_fixed_nanos(
            (timestamp.seconds as u128 * NANOS_PER_SECOND + timestamp.nanos as u128)
                * TIME_UNITS_PER_NANO,
        )
    }
}

impl FromSpecImpl<WireTimestamp> for Time {
    open spec fn obeys_from_spec() -> bool {
        true
    }

    open spec fn from_spec(timestamp: WireTimestamp) -> Time {
        timestamp.time()
    }
}

/// How good a clock is, as an Announce message states it.
#[derive(Clone, Copy, Debug, Default, PartialEq, Eq, Structural, Hash)]
pub struct ClockQuality {
    pub clock_class: u8,
    /// The accuracy of the clock, as its code in the protocol's table.
    pub clock_accuracy: u8,
    pub offset_scaled_log_variance: u16,
}

impl ClockQuality {
    pub const WIRE_SIZE: usize = 4;

    pub open spec fn wire_bytes(self) -> Seq<u8> {
        seq![self.clock_class, self.clock_accuracy] + be_bytes(
            self.offset_scaled_log_variance as nat,
            2,
        )
    }

    /// The quality that the first four of `bytes` spell.
    pub open spec fn from_wire(bytes: Seq<u8>) -> ClockQuality {
        ClockQuality {
            clock_class: bytes[0],
            clock_accuracy: bytes[1],
            offset_scaled_log_variance: be_value(bytes.subrange(2, 4)) as u16,
        }
    }

    pub proof fn lemma_round_trip(self)
        ensures
            self.wire_bytes().len() == 4,
            ClockQuality::from_wire(self.wire_bytes()) == self,
    {
        let bytes = self.wire_bytes();
        lemma_be_bytes_len(self.offset_scaled_log_variance as nat, 2);
        lemma_pow256_values();
        lemma_be_value_of_bytes(self.offset_scaled_log_variance as nat, 2);
        assert(bytes.subrange(2, 4) =~= be_bytes(self.offset_scaled_log_variance as nat, 2));
    }

    pub fn write_at(&self, buffer: &mut [u8], offset: usize)
        requires
            offset + 4 <= old(buffer).len(),
        ensures
            final(buffer)@ == splice(old(buffer)@, offset as int, self.wire_bytes()),
    {
        let ghost before = buffer@;
        buffer[offset] = self.clock_class;
        buffer[offset + 1] = self.clock_accuracy;
        proof {
            lemma_be_bytes_len(self.offset_scaled_log_variance as nat, 2);
            assert(buffer@ =~= splice(
                before,
                offset as int,
                seq![self.clock_class, self.clock_accuracy],
            ));
            lemma_splice_append(
                before,
                offset as int,
                seq![self.clock_class, self.clock_accuracy],
                be_bytes(self.offset_scaled_log_variance as nat, 2),
            );
        }
        write_be(buffer, offset + 2, 2, self.offset_scaled_log_variance as u64);
    }

    pub fn read_at(buffer: &[u8], offset: usize) -> (r: ClockQuality)
        requires
            offset + 4 <= buffer.len(),
        ensures
            r == ClockQuality::from_wire(buffer@.subrange(offset as int, offset + 4)),
    {
        let ghost bytes = buffer@.subrange(offset as int, offset + 4);
        proof {
            assert(bytes.subrange(2, 4) =~= buffer@.subrange(offset + 2, offset + 4));
            lemma_be_bytes_of_value(bytes.subrange(2, 4));
            lemma_pow256_values();
        }
        ClockQuality {
            clock_class: buffer[offset],
            clock_accuracy: buffer[offset + 1],
            offset_scaled_log_variance: read_be(buffer, offset + 2, 2) as u16,
        }
    }
}

/// Where a grandmaster has its time from.
#[derive(Clone, Copy, Debug, PartialEq, Eq, Structural, Hash)]
pub enum TimeSource {
    AtomicClock,
    Gnss,
    TerrestrialRadio,
    SerialTimeCode,
    Ptp,
    Ntp,
    HandSet,
    Other,
    InternalOscillator,
    /// A code that the protocol's table gives no name.
    Unknown(u8),
}

impl TimeSource {
    /// The code of the source in the protocol's table.
    pub open spec fn code(self) -> u8 {
        match self {
            TimeSource::AtomicClock => 0x10,
            TimeSource::Gnss => 0x20,
            TimeSource::TerrestrialRadio => 0x30,
            TimeSource::SerialTimeCode => 0x39,
            TimeSource::Ptp => 0x40,
            TimeSource::Ntp => 0x50,
            TimeSource::HandSet => 0x60,
            TimeSource::Other => 0x90,
            TimeSource::InternalOscillator => 0xa0,
            TimeSource::Unknown(code) => code,
        }
    }

    /// The source that `code` names, `Unknown` where the table has no name
    /// for it.
    pub open spec fn of_code(code: u8) -> TimeSource {
        if code == 0x10 {
            TimeSource::AtomicClock
        } else if code == 0x20 {
            TimeSource::Gnss
        } else if code == 0x30 {
            TimeSource::TerrestrialRadio
        } else if code == 0x39 {
            TimeSource::SerialTimeCode
        } else if code == 0x40 {
            TimeSource::Ptp
        } else if code == 0x50 {
            TimeSource::Ntp
        } else if code == 0x60 {
            TimeSource::HandSet
        } else if code == 0x90 {
            TimeSource::Other
        } else if code == 0xa0 {
            TimeSource::InternalOscillator
        } else {
            TimeSource::Unknown(code)
        }
    }

    /// The source is the one that its code names: it is not `Unknown` with a
    /// code that has a name.
    pub open spec fn canonical(self) -> bool {
        TimeSource::of_code(self.code()) == self
    }

    pub fn to_primitive(self) -> (r: u8)
        ensures
            r == self.code(),
    {
        match self {
            TimeSource::AtomicClock => 0x10,
            TimeSource::Gnss => 0x20,
            TimeSource::TerrestrialRadio => 0x30,
            TimeSource::SerialTimeCode => 0x39,
            TimeSource::Ptp => 0x40,
            TimeSource::Ntp => 0x50,
            TimeSource::HandSet => 0x60,
            TimeSource::Other => 0x90,
            TimeSource::InternalOscillator => 0xa0,
            TimeSource::Unknown(code) => code,
        }
    }

    pub fn from_primitive(code: u8) -> (r: TimeSource)
        ensures
            r == TimeSource::of_code(code),
            r.canonical(),
    {
        match code {
            0x10 => TimeSource::AtomicClock,
            0x20 => TimeSource::Gnss,
            0x30 => TimeSource::TerrestrialRadio,
            0x39 => TimeSource::SerialTimeCode,
            0x40 => TimeSource::Ptp,
            0x50 => TimeSource::Ntp,
            0x60 => TimeSource::HandSet,
            0x90 => TimeSource::Other,
            0xa0 => TimeSource::InternalOscillator,
            _ => TimeSource::Unknown(code),
        }
    }
}

impl Default for TimeSource {
    fn default() -> (r: TimeSource)
        ensures
            r == TimeSource::InternalOscillator,
    {
        TimeSource::InternalOscillator
    }
}

} // verus!
