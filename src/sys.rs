#![allow(non_camel_case_types)]

use vstd::prelude::*;

verus! {

/// A record of the refill ring, laid out as the kernel reads it.
#[derive(Debug, Clone, Copy)]
pub struct io_uring_zcrx_rqe {
    pub off: u64,
    pub len: u32,
    pub __pad: u32,
}

/// The bit from which the area token is encoded into offsets.
pub const IORING_ZCRX_AREA_SHIFT: u64 = 48;

/// The bits of an offset field that hold the area token: all bits from
/// `IORING_ZCRX_AREA_SHIFT` up.
pub const IORING_ZCRX_AREA_MASK: u64 = 0xffff_0000_0000_0000;

/// The bits of an offset field that hold the byte offset into the area.
pub const IORING_ZCRX_OFFSET_MASK: u64 = 0x0000_ffff_ffff_ffff;

/// The private payload of a zero-copy receive completion, as the kernel
/// writes it.
#[derive(Debug, Clone, Copy)]
pub struct io_uring_zcrx_cqe {
    pub off: u64,
    pub __pad: u32,
}

} // verus!
