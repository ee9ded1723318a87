//! Big-endian integers on the wire.

use vstd::prelude::*;

verus! {

/// `256` to the power `width`: the number of values that `width` bytes hold.
pub open spec fn pow256(width: nat) -> nat
    decreases width,
{
    if width == 0 {
        1
    } else {
        256 * pow256((width - 1) as nat)
    }
}

/// The `width` low-order bytes of `value`, most significant first.
pub open spec fn be_bytes(value: nat, width: nat) -> Seq<u8>
    decreases width,
{
    if width == 0 {
        Seq::empty()
    } else {
        be_bytes(value / 256, (width - 1) as nat).push((value % 256) as u8)
    }
}

/// The number whose big-endian representation is `bytes`.
pub open spec fn be_value(bytes: Seq<u8>) -> nat
    decreases bytes.len(),
{
    if bytes.len() == 0 {
        0
    } else {
        be_value(bytes.drop_last()) * 256 + bytes.last() as nat
    }
}

/// `buffer` with the bytes from `at` on replaced by `bytes`.
pub open spec fn splice(buffer: Seq<u8>, at: int, bytes: Seq<u8>) -> Seq<u8> {
    buffer.subrange(0, at) + bytes + buffer.subrange(at + bytes.len(), buffer.len() as int)
}

/// The two's complement encoding of `value` in `width` bytes.
pub open spec fn twos_complement(value: int, width: nat) -> nat {
    if value >= 0 {
        value as nat
    } else {
        (value + pow256(width)) as nat
    }
}

/// The signed number that `raw` encodes in `width` bytes of two's complement.
pub open spec fn from_twos_complement(raw: nat, width: nat) -> int {
    if 2 * raw < pow256(width) {
        raw as int
    } else {
        raw - pow256(width)
    }
}

pub proof fn lemma_pow256_values()
    ensures
        pow256(0) == 1,
        pow256(1) == 0x100,
        pow256(2) == 0x1_0000,
        pow256(4) == 0x1_0000_0000,
        pow256(6) == 0x1_0000_0000_0000,
        pow256(8) == 0x1_0000_0000_0000_0000,
{
    reveal_with_fuel(pow256, 9);
}

pub proof fn lemma_be_bytes_len(value: nat, width: nat)
    ensures
        be_bytes(value, width).len() == width,
    decreases width,
{
    if width > 0 {
        lemma_be_bytes_len(value / 256, (width - 1) as nat);
    }
}

/// Reading back what was written gives the value, as far as it fits.
pub proof fn lemma_be_value_of_bytes(value: nat, width: nat)
    requires
        value < pow256(width),
    ensures
        be_value(be_bytes(value, width)) == value,
    decreases width,
{
    if width > 0 {
        let rest = be_bytes(value / 256, (width - 1) as nat);
        lemma_be_bytes_len(value / 256, (width - 1) as nat);
        lemma_be_value_of_bytes(value / 256, (width - 1) as nat);
        assert(be_bytes(value, width).drop_last() =~= rest);
    }
}

/// Writing what was read gives the same bytes, and the value read fits.
pub proof fn lemma_be_bytes_of_value(bytes: Seq<u8>)
    ensures
        be_value(bytes) < pow256(bytes.len()),
        be_bytes(be_value(bytes), bytes.len()) == bytes,
    decreases bytes.len(),
{
    if bytes.len() > 0 {
        lemma_be_bytes_of_value(bytes.drop_last());
        let high = be_value(bytes.drop_last());
        let low = bytes.last() as nat;
        assert((high * 256 + low) / 256 == high);
        assert((high * 256 + low) % 256 == low);
        assert(be_bytes(be_value(bytes), bytes.len()) =~= bytes);
    }
}

pub proof fn lemma_twos_complement(value: int, width: nat)
    requires
        -(pow256(width) as int) <= 2 * value < pow256(width),
    ensures
        twos_complement(value, width) < pow256(width),
        from_twos_complement(twos_complement(value, width), width) == value,
{
}

/// Two writes, one behind the other, are one write of both.
pub proof fn lemma_splice_append(buffer: Seq<u8>, at: int, first: Seq<u8>, second: Seq<u8>)
    requires
        0 <= at,
        at + first.len() + second.len() <= buffer.len(),
    ensures
        splice(splice(buffer, at, first), at + first.len(), second) == splice(
            buffer,
            at,
            first + second,
        ),
{
    assert(splice(splice(buffer, at, first), at + first.len(), second) =~= splice(
        buffer,
        at,
        first + second,
    ));
}

/// What a write leaves in the buffer: the bytes, and the rest as it was.
pub proof fn lemma_splice_parts(buffer: Seq<u8>, at: int, bytes: Seq<u8>)
    requires
        0 <= at,
        at + bytes.len() <= buffer.len(),
    ensures
        splice(buffer, at, bytes).len() == buffer.len(),
        splice(buffer, at, bytes).subrange(at, at + bytes.len()) == bytes,
        splice(buffer, at, bytes).subrange(0, at) == buffer.subrange(0, at),
        splice(buffer, at, bytes).subrange(at + bytes.len(), buffer.len() as int)
            == buffer.subrange(at + bytes.len(), buffer.len() as int),
{
    let out = splice(buffer, at, bytes);
    assert(out.subrange(at, at + bytes.len()) =~= bytes);
    assert(out.subrange(0, at) =~= buffer.subrange(0, at));
    assert(out.subrange(at + bytes.len(), buffer.len() as int) =~= buffer.subrange(
        at + bytes.len(),
        buffer.len() as int,
    ));
}

/// Writes the `width` low-order bytes of `value` at `offset`, most
/// significant first.
pub fn write_be(buffer: &mut [u8], offset: usize, width: usize, value: u64)
    requires
        width <= 8,
        offset + width <= old(buffer).len(),
    ensures
        final(buffer)@ == splice(old(buffer)@, offset as int, be_bytes(value as nat, width as nat)),
{
    let ghost before = buffer@;
    let mut rest: u64 = value;
    let mut left: usize = width;
    while left > 0
        invariant
            left <= width <= 8,
            offset + width <= buffer.len(),
            buffer@.len() == before.len(),
            forall|i: int| 0 <= i < offset + left ==> buffer@[i] == before[i],
            forall|i: int| offset + width <= i < before.len() ==> buffer@[i] == before[i],
            be_bytes(value as nat, width as nat) == be_bytes(rest as nat, left as nat)
                + buffer@.subrange(offset + left, offset + width),
        decreases left,
    {
        let ghost written = buffer@.subrange(offset + left, offset + width);
        left = left - 1;
        buffer[offset + left] = (rest % 256) as u8;
        proof {
            let low = (rest % 256) as u8;
            assert(buffer@.subrange(offset + left, offset + width) =~= seq![low] + written);
            assert(be_bytes(rest as nat, (left + 1) as nat) == be_bytes(
                rest as nat / 256,
                left as nat,
            ).push(low));
            assert(be_bytes(rest as nat / 256, left as nat).push(low) + written =~= be_bytes(
                rest as nat / 256,
                left as nat,
            ) + (seq![low] + written));
        }
        rest = rest / 256;
    }
    proof {
        let bytes = be_bytes(value as nat, width as nat);
        assert(be_bytes(rest as nat, 0) =~= Seq::<u8>::empty());
        assert(bytes =~= buffer@.subrange(offset as int, offset + width));
        assert(buffer@ =~= splice(before, offset as int, bytes));
    }
}

/// Reads the `width` bytes at `offset` as a big-endian number.
pub fn read_be(buffer: &[u8], offset: usize, width: usize) -> (value: u64)
    requires
        width <= 8,
        offset + width <= buffer.len(),
    ensures
        value == be_value(buffer@.subrange(offset as int, offset + width)),
{
    let mut value: u64 = 0;
    let mut done: usize = 0;
    while done < width
        invariant
            done <= width <= 8,
            offset + width <= buffer.len(),
            value == be_value(buffer@.subrange(offset as int, offset + done)),
            value < pow256(done as nat),
        decreases width - done,
    {
        proof {
            let wider = buffer@.subrange(offset as int, offset + done + 1);
            assert(wider.drop_last() =~= buffer@.subrange(offset as int, offset + done));
            assert(pow256((done + 1) as nat) == 256 * pow256(done as nat));
            lemma_pow256_bound((done + 1) as nat);
        }
        value = value * 256 + buffer[offset + done] as u64;
        done = done + 1;
    }
    value
}

pub proof fn lemma_pow256_bound(width: nat)
    requires
        width <= 8,
    ensures
        pow256(width) <= 0x1_0000_0000_0000_0000,
{
    reveal_with_fuel(pow256, 9);
}

/// Copies `bytes` into `buffer` from `offset` on.
pub fn write_slice(buffer: &mut [u8], offset: usize, bytes: &[u8])
    requires
        offset + bytes.len() <= old(buffer).len(),
    ensures
        final(buffer)@ == splice(old(buffer)@, offset as int, bytes@),
{
    let ghost before = buffer@;
    let count = bytes.len();
    let mut done: usize = 0;
    while done < count
        invariant
            done <= count,
            count == bytes.len(),
            offset + count <= buffer.len(),
            buffer@.len() == before.len(),
            forall|i: int| 0 <= i < offset ==> buffer@[i] == before[i],
            forall|i: int| offset + done <= i < before.len() ==> buffer@[i] == before[i],
            forall|i: int| 0 <= i < done ==> buffer@[offset + i] == bytes@[i],
        decreases count - done,
    {
        buffer[offset + done] = bytes[done];
        done = done + 1;
    }
    assert(buffer@ =~= splice(before, offset as int, bytes@));
}

/// The eight bytes of `value` in two's complement, as one number.
pub fn encode_i64(value: i64) -> (raw: u64)
    ensures
        raw == twos_complement(value as int, 8),
{
    proof {
        lemma_pow256_values();
    }
    if value >= 0 {
        value as u64
    } else {
        (value as i128 + 0x1_0000_0000_0000_0000) as u64
    }
}

/// The signed number that eight bytes of two's complement encode.
pub fn decode_i64(raw: u64) -> (value: i64)
    ensures
        value == from_twos_complement(raw as nat, 8),
{
    proof {
        lemma_pow256_values();
    }
    if raw < 0x8000_0000_0000_0000 {
        raw as i64
    } else {
        (raw as i128 - 0x1_0000_0000_0000_0000) as i64
    }
}

/// The two bytes of `value` in two's complement, as one number.
pub fn encode_i16(value: i16) -> (raw: u16)
    ensures
        raw == twos_complement(value as int, 2),
{
    proof {
        lemma_pow256_values();
    }
    if value >= 0 {
        value as u16
    } else {
        (value as i32 + 0x1_0000) as u16
    }
}

/// The signed number that two bytes of two's complement encode.
pub fn decode_i16(raw: u16) -> (value: i16)
    ensures
        value == from_twos_complement(raw as nat, 2),
{
    proof {
        lemma_pow256_values();
    }
    if raw < 0x8000 {
        raw as i16
    } else {
        (raw as i32 - 0x1_0000) as i16
    }
}

/// The byte of `value` in two's complement.
pub fn encode_i8(value: i8) -> (raw: u8)
    ensures
        raw == twos_complement(value as int, 1),
{
    proof {
        lemma_pow256_values();
    }
    if value >= 0 {
        value as u8
    } else {
        (value as i16 + 0x100) as u8
    }
}

/// The signed number that a byte of two's complement encodes.
pub fn decode_i8(raw: u8) -> (value: i8)
    ensures
        value == from_twos_complement(raw as nat, 1),
{
    proof {
        lemma_pow256_values();
    }
    if raw < 0x80 {
        raw as i8
    } else {
        (raw as i16 - 0x100) as i8
    }
}

} // verus!
