//! A plugin's linear memory as a sequence of bytes: what a read sees, what a
//! write leaves, and what the bytes at a string reference or a bounds record
//! decode to.

use crate::abi::{StringRef, PAGE_SIZE};
use crate::error::Fault;
use vstd::prelude::*;
use vstd::utf8::{decode_utf8, encode_utf8, valid_utf8};

verus! {

/// The `len` bytes of `mem` that start at `offset`.
pub open spec fn read_at(mem: Seq<u8>, offset: int, len: int) -> Seq<u8> {
    mem.subrange(offset, offset + len)
}

/// `mem` with `bytes` stored from `offset` on and every other byte kept.
pub open spec fn write_at(mem: Seq<u8>, offset: int, bytes: Seq<u8>) -> Seq<u8> {
    mem.subrange(0, offset) + bytes + mem.subrange(offset + bytes.len(), mem.len() as int)
}

/// `after` is `before` with a whole number of pages added at its end.
pub open spec fn grown_from(after: Seq<u8>, before: Seq<u8>) -> bool {
    &&& after.len() >= before.len()
    &&& (after.len() - before.len()) % (PAGE_SIZE as int) == 0
    &&& after.subrange(0, before.len() as int) == before
}

/// The least number of pages to add to a memory of `size` bytes so that it
/// reaches `end`.
pub open spec fn pages_short(size: int, end: int) -> nat {
    if end <= size {
        0
    } else {
        ((end - size + PAGE_SIZE - 1) / (PAGE_SIZE as int)) as nat
    }
}

/// Whether a memory of `size` bytes with `pages` more pages reaches `end`.
pub open spec fn reaches(size: int, pages: nat, end: int) -> bool {
    size + pages * PAGE_SIZE >= end
}

/// `pages_short` is the least number of pages that reaches `end`: it
/// reaches it, no smaller number does, it is 0 exactly where nothing is
/// missing, and it is at least 2 where more than a page is missing.
pub proof fn lemma_pages_short_least(size: int, end: int)
    ensures
        reaches(size, pages_short(size, end), end),
        forall|pages: nat| #[trigger] reaches(size, pages, end) ==> pages >= pages_short(size, end),
        pages_short(size, end) == 0 <==> end <= size,
        end > size + PAGE_SIZE ==> pages_short(size, end) >= 2,
{
}

/// Growing first as far as `first` needs and then as far as `end` needs
/// adds as many pages as growing for `end` at once.
pub proof fn lemma_pages_short_in_steps(size: int, first: int, end: int)
    requires
        first <= end,
    ensures
        pages_short(size, first) + pages_short(
            size + pages_short(size, first) * PAGE_SIZE,
            end,
        ) == pages_short(size, end),
{
}

/// The string that `r` names in `mem`: a fault when the range leaves the
/// memory, a decode error when its bytes are not UTF-8.
pub open spec fn string_at(mem: Seq<u8>, r: StringRef) -> Result<Seq<char>, Fault> {
    if !r.fits(mem.len()) {
        Err(Fault::MemoryFault)
    } else if !valid_utf8(read_at(mem, r.offset as int, r.length as int)) {
        Err(Fault::Decode)
    } else {
        Ok(decode_utf8(read_at(mem, r.offset as int, r.length as int)))
    }
}

/// The range named by the bounds record that starts at `at`.
pub open spec fn bounds_at(mem: Seq<u8>, at: u32) -> Result<StringRef, Fault> {
    if at + 8 > mem.len() {
        Err(Fault::MemoryFault)
    } else {
        Ok(StringRef::of_record(read_at(mem, at as int, 8)))
    }
}

/// The string a plugin handed back through the bounds record at `at`.
pub open spec fn reply_at(mem: Seq<u8>, at: u32) -> Result<Seq<char>, Fault> {
    match bounds_at(mem, at) {
        Ok(r) => string_at(mem, r),
        Err(e) => Err(e),
    }
}

/// A write inside the memory keeps its size, can be read back, and leaves
/// the bytes outside its range as they were.
pub proof fn lemma_write_then_read(mem: Seq<u8>, offset: int, bytes: Seq<u8>)
    requires
        0 <= offset,
        offset + bytes.len() <= mem.len(),
    ensures
        write_at(mem, offset, bytes).len() == mem.len(),
        read_at(write_at(mem, offset, bytes), offset, bytes.len() as int) == bytes,
        forall|i: int|
            0 <= i < mem.len() && !(offset <= i < offset + bytes.len()) ==> write_at(
                mem,
                offset,
                bytes,
            )[i] == mem[i],
{
    assert(read_at(write_at(mem, offset, bytes), offset, bytes.len() as int) =~= bytes);
}

/// A write leaves every range that it does not overlap readable as before.
pub proof fn lemma_write_keeps_disjoint(
    mem: Seq<u8>,
    offset: int,
    bytes: Seq<u8>,
    other: int,
    len: int,
)
    requires
        0 <= offset,
        offset + bytes.len() <= mem.len(),
        0 <= other,
        0 <= len,
        other + len <= mem.len(),
        other + len <= offset || offset + bytes.len() <= other,
    ensures
        read_at(write_at(mem, offset, bytes), other, len) == read_at(mem, other, len),
{
    assert(read_at(write_at(mem, offset, bytes), other, len) =~= read_at(mem, other, len));
}

/// Round trip: the UTF-8 bytes of any string, written at a range that fits,
/// decode to that string again.
pub proof fn lemma_string_round_trip(mem: Seq<u8>, s: Seq<char>, r: StringRef)
    requires
        r.length == encode_utf8(s).len(),
        r.fits(mem.len()),
    ensures
        string_at(write_at(mem, r.offset as int, encode_utf8(s)), r) == Ok::<Seq<char>, Fault>(s),
{
    lemma_write_then_read(mem, r.offset as int, encode_utf8(s));
    vstd::utf8::encode_utf8_valid_utf8(s);
    vstd::utf8::encode_utf8_decode_utf8(s);
}

/// A bounds record written at `at` reads back as the range it was made from.
pub proof fn lemma_bounds_round_trip(mem: Seq<u8>, at: u32, r: StringRef)
    requires
        at + 8 <= mem.len(),
    ensures
        bounds_at(write_at(mem, at as int, r.record()), at) == Ok::<StringRef, Fault>(r),
{
    crate::abi::lemma_record_round_trip(r);
    lemma_write_then_read(mem, at as int, r.record());
}

/// Growth is transitive and starts from any memory itself.
pub proof fn lemma_grown_from_chain(a: Seq<u8>, b: Seq<u8>, c: Seq<u8>)
    requires
        grown_from(b, a),
        grown_from(c, b),
    ensures
        grown_from(a, a),
        grown_from(c, a),
{
    assert(a.subrange(0, a.len() as int) =~= a);
    assert(c.subrange(0, a.len() as int) =~= c.subrange(0, b.len() as int).subrange(
        0,
        a.len() as int,
    ));
}

} // verus!
