//! Models of process-shared memory regions.
//!
//! A process may `allow` a buffer in its own memory to a driver.  The engine
//! never keeps the bytes themselves — writing into process memory is the
//! surrounding kernel's business — it only needs the region's capacity to
//! decide what to publish, so a region is modelled by its length.  A length
//! of zero stands for "no region shared".

use vstd::prelude::*;

verus! {

/// A read-write buffer a process has shared with a driver.
#[derive(Clone, Copy, PartialEq, Eq, Structural, Debug)]
pub struct ReadWriteAppSlice {
    pub len: usize,
}

impl ReadWriteAppSlice {
    pub fn new(len: usize) -> (r: ReadWriteAppSlice)
        ensures
            r.len == len,
    {
        ReadWriteAppSlice { len }
    }
}

impl Default for ReadWriteAppSlice {
    /// The empty region: nothing shared.
    fn default() -> (r: ReadWriteAppSlice)
        ensures
            r.len == 0,
    {
        ReadWriteAppSlice { len: 0 }
    }
}

/// Little-endian encoding of a 32-bit value.
pub open spec fn spec_le32(x: u32) -> Seq<u8> {
    seq![
        (x as int % 0x100) as u8,
        (x as int / 0x100 % 0x100) as u8,
        (x as int / 0x10000 % 0x100) as u8,
        (x as int / 0x1000000 % 0x100) as u8,
    ]
}

/// Little-endian encoding of a 64-bit value.
pub open spec fn spec_le64(x: u64) -> Seq<u8> {
    seq![
        (x as int % 0x100) as u8,
        (x as int / 0x100 % 0x100) as u8,
        (x as int / 0x10000 % 0x100) as u8,
        (x as int / 0x1000000 % 0x100) as u8,
        (x as int / 0x1_0000_0000 % 0x100) as u8,
        (x as int / 0x100_0000_0000 % 0x100) as u8,
        (x as int / 0x1_0000_0000_0000 % 0x100) as u8,
        (x as int / 0x100_0000_0000_0000 % 0x100) as u8,
    ]
}

/// The four little-endian bytes of `x`.
pub fn u32_le_bytes(x: u32) -> (r: Vec<u8>)
    ensures
        r@ == spec_le32(x),
{
    let mut r: Vec<u8> = Vec::new();
    r.push((x % 0x100) as u8);
    r.push((x / 0x100 % 0x100) as u8);
    r.push((x / 0x10000 % 0x100) as u8);
    r.push((x / 0x1000000 % 0x100) as u8);
    proof {
        assert(r@ =~= spec_le32(x));
    }
    r
}

/// The eight little-endian bytes of `x`.
pub fn u64_le_bytes(x: u64) -> (r: Vec<u8>)
    ensures
        r@ == spec_le64(x),
{
    let mut r: Vec<u8> = Vec::new();
    r.push((x % 0x100) as u8);
    r.push((x / 0x100 % 0x100) as u8);
    r.push((x / 0x10000 % 0x100) as u8);
    r.push((x / 0x1000000 % 0x100) as u8);
    r.push((x / 0x1_0000_0000 % 0x100) as u8);
    r.push((x / 0x100_0000_0000 % 0x100) as u8);
    r.push((x / 0x1_0000_0000_0000 % 0x100) as u8);
    r.push((x / 0x100_0000_0000_0000 % 0x100) as u8);
    proof {
        assert(r@ =~= spec_le64(x));
    }
    r
}

/// A read-only buffer a process has shared with a driver.
#[derive(Clone, Copy, PartialEq, Eq, Structural, Debug)]
pub struct ReadOnlyAppSlice {
    pub len: usize,
}

impl ReadOnlyAppSlice {
    pub fn new(len: usize) -> (r: ReadOnlyAppSlice)
        ensures
            r.len == len,
    {
        ReadOnlyAppSlice { len }
    }
}

impl Default for ReadOnlyAppSlice {
    /// The empty region: nothing shared.
    fn default() -> (r: ReadOnlyAppSlice)
        ensures
            r.len == 0,
    {
        ReadOnlyAppSlice { len: 0 }
    }
}

} // verus!
