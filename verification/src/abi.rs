//! The wire format of the raw-pointer convention: 32-bit little-endian
//! integers, string references and the eight-byte bounds record.

use vstd::prelude::*;

verus! {

/// Bytes in one page of linear memory.
pub const PAGE_SIZE: usize = 65536;

/// Bytes in a serialized bounds record.
pub const BOUNDS_RECORD_SIZE: u32 = 8;

/// Bytes reserved for the record a plugin writes its result into: the record
/// itself and as much slack again.
pub const OUTPUT_SLOT_SIZE: u32 = 16;

/// The value of four bytes read as a little-endian unsigned integer.
pub open spec fn le_value(b: Seq<u8>) -> nat
    recommends
        b.len() == 4,
{
    (b[0] + 256 * b[1] + 65536 * b[2] + 16777216 * b[3]) as nat
}

/// The four bytes that hold `v` in little-endian order.
pub open spec fn le_bytes(v: u32) -> Seq<u8> {
    seq![
        (v % 256) as u8,
        (v / 256 % 256) as u8,
        (v / 65536 % 256) as u8,
        (v / 16777216 % 256) as u8,
    ]
}

/// Reading back the bytes written for `v` gives `v`.
pub proof fn lemma_le_value_of_bytes(v: u32)
    ensures
        le_bytes(v).len() == 4,
        le_value(le_bytes(v)) == v,
{
}

/// Writing the value read from four bytes gives the same four bytes.
pub proof fn lemma_le_bytes_of_value(b: Seq<u8>)
    requires
        b.len() == 4,
    ensures
        le_value(b) <= u32::MAX,
        le_bytes(le_value(b) as u32) == b,
{
    assert(le_bytes(le_value(b) as u32) =~= b);
}

/// Decodes four bytes, lowest first.
pub fn u32_from_le(b0: u8, b1: u8, b2: u8, b3: u8) -> (v: u32)
    ensures
        v == le_value(seq![b0, b1, b2, b3]),
{
    let low: u32 = b0 as u32 + 256 * (b1 as u32);
    let high: u32 = b2 as u32 + 256 * (b3 as u32);
    low + 65536 * high
}

/// Appends the four little-endian bytes of `v` to `out`.
pub fn push_u32_le(out: &mut Vec<u8>, v: u32)
    ensures
        final(out)@ == old(out)@ + le_bytes(v),
{
    out.push((v % 256) as u8);
    out.push((v / 256 % 256) as u8);
    out.push((v / 65536 % 256) as u8);
    out.push((v / 16777216 % 256) as u8);
    assert(out@ =~= old(out)@ + le_bytes(v));
}

/// A byte range of one instance's memory that holds a string. It owns
/// nothing and means nothing for another instance or after the instance's
/// cursor was reset.
#[derive(Clone, Copy, Debug, PartialEq, Eq, Structural)]
pub struct StringRef {
    pub offset: u32,
    pub length: u32,
}

impl StringRef {
    /// One past the last byte of the range.
    pub open spec fn end(self) -> nat {
        (self.offset + self.length) as nat
    }

    /// Whether the range lies inside a memory of `size` bytes.
    pub open spec fn fits(self, size: nat) -> bool {
        self.end() <= size
    }

    /// The bounds record of this range: offset, then length.
    pub open spec fn record(self) -> Seq<u8> {
        le_bytes(self.offset) + le_bytes(self.length)
    }

    /// The range that a bounds record names.
    pub open spec fn of_record(bytes: Seq<u8>) -> StringRef
        recommends
            bytes.len() == 8,
    {
        StringRef {
            offset: le_value(bytes.subrange(0, 4)) as u32,
            length: le_value(bytes.subrange(4, 8)) as u32,
        }
    }

    /// Tests the range against the current size of the memory.
    pub fn fits_in(&self, size: usize) -> (ok: bool)
        ensures
            ok == self.fits(size as nat),
    {
        self.offset as u64 + self.length as u64 <= size as u64
    }

    /// Serializes the range as a bounds record.
    pub fn to_record(&self) -> (bytes: Vec<u8>)
        ensures
            bytes@ == self.record(),
            bytes@.len() == 8,
    {
        let mut bytes: Vec<u8> = Vec::new();
        push_u32_le(&mut bytes, self.offset);
        push_u32_le(&mut bytes, self.length);
        bytes
    }

    /// Reads a bounds record; `None` unless `bytes` holds exactly eight bytes.
    pub fn from_record(bytes: &[u8]) -> (r: Option<StringRef>)
        ensures
            bytes@.len() == 8 ==> r == Some(StringRef::of_record(bytes@)),
            bytes@.len() != 8 ==> r.is_none(),
    {
        if bytes.len() != 8 {
            return None;
        }
        let offset: u32 = u32_from_le(bytes[0], bytes[1], bytes[2], bytes[3]);
        let length: u32 = u32_from_le(bytes[4], bytes[5], bytes[6], bytes[7]);
        assert(bytes@.subrange(0, 4) =~= seq![bytes@[0], bytes@[1], bytes@[2], bytes@[3]]);
        assert(bytes@.subrange(4, 8) =~= seq![bytes@[4], bytes@[5], bytes@[6], bytes@[7]]);
        Some(StringRef { offset, length })
    }
}

/// A range survives being written as a bounds record and read back.
pub proof fn lemma_record_round_trip(r: StringRef)
    ensures
        r.record().len() == 8,
        StringRef::of_record(r.record()) == r,
{
    lemma_le_value_of_bytes(r.offset);
    lemma_le_value_of_bytes(r.length);
    assert(r.record().subrange(0, 4) =~= le_bytes(r.offset));
    assert(r.record().subrange(4, 8) =~= le_bytes(r.length));
}

/// Eight bytes are the bounds record of the range they name, so no two
/// records name the same range.
pub proof fn lemma_record_of_bytes(bytes: Seq<u8>)
    requires
        bytes.len() == 8,
    ensures
        StringRef::of_record(bytes).record() == bytes,
{
    lemma_le_bytes_of_value(bytes.subrange(0, 4));
    lemma_le_bytes_of_value(bytes.subrange(4, 8));
    assert(StringRef::of_record(bytes).record() =~= bytes);
}

} // verus!
