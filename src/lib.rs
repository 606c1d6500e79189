//! Zero-copy receive for io_uring: the refill ring through which received
//! buffers go back to the kernel, and the encoding of a buffer's place in the
//! registered data area into one 64-bit offset field.

use vstd::prelude::*;

use io_uring::cqueue::Entry32;

pub mod rqueue;
pub mod sys;
pub mod token;

use token::{offset_of, token_of};

verus! {

#[verifier::external_type_specification]
#[verifier::external_body]
pub struct ExEntry32(Entry32);

/// The extra data that the 32-byte completion entry `e` carries, as words.
pub uninterp spec fn big_cqe_words(e: Entry32) -> Seq<u64>;

/// Relies on io_uring's `cqueue::Entry32::big_cqe`: the 16 bytes of extra
/// data that a 32-byte completion entry carries, as two words, which depend
/// on the entry alone.
#[verifier::external_body]
fn big_cqe_of(entry: &Entry32) -> (r: [u64; 2])
    ensures
        r@ == big_cqe_words(*entry),
{
    *entry.big_cqe()
}

/// Size in bytes of one refill ring entry.
pub const RQE_SIZE: usize = 16;

/// The size of the memory region that holds a refill ring of `ring_entries`
/// entries: one page for the counters and the entries themselves, rounded up
/// to whole pages.
pub open spec fn region_size(page_size: nat, ring_entries: nat) -> int {
    let raw = page_size + RQE_SIZE * ring_entries;
    ((raw + page_size - 1) / page_size as int) * page_size
}

/// Computes `region_size(page_size, ring_entries)`; `None` for a page size of
/// zero or a size that does not fit in `usize`.
pub fn refill_region_size(page_size: usize, ring_entries: u32) -> (r: Option<usize>)
    ensures
        r is Some <==> page_size > 0 && 2 * page_size + RQE_SIZE * ring_entries - 1
            <= usize::MAX,
        r matches Some(n) ==> n == region_size(page_size as nat, ring_entries as nat),
{
    if page_size == 0 {
        return None;
    }
    let entries_size = match RQE_SIZE.checked_mul(ring_entries as usize) {
        Some(n) => n,
        None => return None,
    };
    let raw = match page_size.checked_add(entries_size) {
        Some(n) => n,
        None => return None,
    };
    let padded = match raw.checked_add(page_size - 1) {
        Some(n) => n,
        None => return None,
    };
    let pages = padded / page_size;
    proof {
        assert(pages * page_size <= padded) by (nonlinear_arith)
            requires
                pages == padded / page_size,
                page_size > 0,
        ;
    }
    Some(pages * page_size)
}

/// Reads the page size from what `sysconf(_SC_PAGESIZE)` returned: a
/// negative value is the error number, negated; one beyond the range of
/// `i32` saturates at `i32::MAX`.
pub fn page_size_from(ret: i64) -> (r: Result<usize, i32>)
    ensures
        ret >= 0 ==> r == Ok::<usize, i32>(ret as usize),
        ret < 0 ==> r is Err,
        -0x7fff_ffff <= ret < 0 ==> r == Err::<usize, i32>((-ret) as i32),
        ret < -0x7fff_ffff ==> r == Err::<usize, i32>(i32::MAX),
{
    if ret < -0x7fff_ffff {
        return Err(i32::MAX);
    }
    if ret < 0 {
        return Err((-ret) as i32);
    }
    Ok(ret as usize)
}

/// Whether `len` bytes from `offset` lie within a data area of `area_len`
/// bytes, at an offset that the offset field can carry.
pub open spec fn in_area(area_len: nat, offset: nat, len: nat) -> bool {
    offset + len <= area_len && offset < 0x1_0000_0000_0000
}

/// Decides whether a buffer of `len` bytes at `offset` may be borrowed from
/// a data area of `area_len` bytes.
pub fn buffer_in_area(area_len: usize, offset: u64, len: usize) -> (r: bool)
    ensures
        r == in_area(area_len as nat, offset as nat, len as nat),
{
    offset < 0x1_0000_0000_0000 && offset as u128 + len as u128 <= area_len as u128
}

/// The completion of a zero-copy receive, reduced to its offset field.
pub struct ZcrxCqe {
    off: u64,
}

impl ZcrxCqe {
    /// The offset field as the kernel wrote it.
    pub closed spec fn payload(&self) -> u64 {
        self.off
    }

    /// Decodes the extra data of a 32-byte completion entry: its first word
    /// is the offset field.
    pub fn from_big_cqe(big_cqe: [u64; 2]) -> (r: ZcrxCqe)
        ensures
            r.payload() == big_cqe[0],
    {
        ZcrxCqe { off: big_cqe[0] }
    }

    /// Decodes a completion entry taken from the completion ring.
    pub fn from_entry(entry: &Entry32) -> (r: ZcrxCqe)
        ensures
            r.payload() == big_cqe_words(*entry)[0],
    {
        ZcrxCqe::from_big_cqe(big_cqe_of(entry))
    }

    /// The byte offset of the received data in the data area.
    pub fn buffer_offset(&self) -> (r: u64)
        ensures
            r == offset_of(self.payload()),
    {
        token::buffer_offset(self.off)
    }

    /// The token of the area that holds the received data.
    pub fn area_token(&self) -> (r: u64)
        ensures
            r == token_of(self.payload()),
    {
        token::area_token(self.off)
    }
}

/// A buffer of the data area, lent out until it goes back to the kernel as a
/// refill ring entry.
pub struct BorrowedBuffer<'a> {
    slice: &'a mut [u8],
    off: u64,
}

impl<'a> BorrowedBuffer<'a> {
    /// The offset field that names this buffer to the kernel.
    pub closed spec fn offset_field(&self) -> u64 {
        self.off
    }

    /// The bytes of the buffer.
    pub closed spec fn bytes(&self) -> Seq<u8> {
        self.slice@
    }

    /// The buffer's length in bytes.
    pub open spec fn size(&self) -> nat {
        self.bytes().len()
    }

    /// Lends out `slice`, the bytes at `offset` in the area named by
    /// `area_token`.
    pub fn new(slice: &'a mut [u8], offset: u64, area_token: u64) -> (r: BorrowedBuffer<'a>)
        ensures
            r.offset_field() == offset | area_token,
            r.bytes() == old(slice)@,
    {
        let off = token::encode(offset, area_token);
        BorrowedBuffer { slice, off }
    }

    /// The received bytes.
    pub fn as_slice(&self) -> (r: &[u8])
        ensures
            r@ == self.bytes(),
    {
        self.slice
    }

    /// The received bytes, for writing.
    pub fn as_mut_slice(&mut self) -> (r: &mut [u8])
        ensures
            r@ == old(self).bytes(),
            final(self).bytes() == final(r)@,
            final(self).offset_field() == old(self).offset_field(),
    {
        self.slice
    }

    /// Gives the buffer up and returns the entry that hands it back to the
    /// kernel.
    pub fn into_refill_entry(self) -> (r: rqueue::Entry)
        ensures
            r.0.off == self.offset_field(),
            r.0.len == self.size() as u32,
            r.0.__pad == 0,
    {
        rqueue::Entry(sys::io_uring_zcrx_rqe {
            off: self.off,
            len: self.slice.len() as u32,
            __pad: 0,
        })
    }
}

} // verus!
