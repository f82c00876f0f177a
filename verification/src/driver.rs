//! System call interface items: error codes, command result values and the
//! traits a syscall-facing driver implements.

use crate::mem::{ReadOnlyAppSlice, ReadWriteAppSlice};
use vstd::prelude::*;

verus! {

/// Error taxonomy returned to callers.  Every engine operation is synchronous
/// and total given a valid identifier; none of these is fatal.
#[derive(Clone, Copy, PartialEq, Eq, Structural, Debug)]
pub enum ErrorCode {
    /// Generic failure.
    Fail,
    /// A collaborator with a single in-flight operation is occupied.
    Busy,
    /// Stop was requested for a client that is not armed.
    AlreadyDisabled,
    /// Malformed request.
    Invalid,
    /// Out of memory.
    NoMemory,
    /// Size mismatch.
    Size,
    /// Unknown command or operation code; always safe, no state change.
    Unsupported,
    /// The requested mechanism is not available on this system.
    NoDevice,
    /// The identity does not resolve to a live client record.
    InvalidProcess,
}

/// Result of a legacy (single status word) driver operation.
#[derive(Clone, Copy, PartialEq, Eq, Structural, Debug)]
pub enum ReturnCode {
    Success,
    Fail,
    Busy,
    Invalid,
    NoMemory,
    Size,
    Unsupported,
}

/// The raw payload shapes a system call may return to a process.
#[derive(Clone, Copy, PartialEq, Eq, Structural, Debug)]
pub enum GenericSyscallReturnValue {
    Failure(ErrorCode),
    FailureU32(ErrorCode, u32),
    FailureU32U32(ErrorCode, u32, u32),
    FailureU64(ErrorCode, u64),
    Success,
    SuccessU32(u32),
    SuccessU32U32(u32, u32),
    SuccessU32U32U32(u32, u32, u32),
    SuccessU64(u64),
    SuccessU64U32(u64, u32),
}

/// Possible return values of a `command` driver method.
///
/// A wrapper around [`GenericSyscallReturnValue`] restricted, through its
/// constructors, to the variants a driver may hand back to a process.
#[derive(Clone, Copy, PartialEq, Eq, Structural, Debug)]
pub struct CommandResult(GenericSyscallReturnValue);

impl CommandResult {
    /// The raw return value this result stands for.
    pub closed spec fn value(self) -> GenericSyscallReturnValue {
        self.0
    }

    pub fn into_inner(self) -> (r: GenericSyscallReturnValue)
        ensures
            r == self.value(),
    {
        self.0
    }

    /// Command error
    pub fn failure(rc: ErrorCode) -> (r: Self)
        ensures
            r.value() == GenericSyscallReturnValue::Failure(rc),
    {
        CommandResult(GenericSyscallReturnValue::Failure(rc))
    }

    /// Command error with an additional 32-bit data field
    pub fn failure_u32(rc: ErrorCode, data0: u32) -> (r: Self)
        ensures
            r.value() == GenericSyscallReturnValue::FailureU32(rc, data0),
    {
        CommandResult(GenericSyscallReturnValue::FailureU32(rc, data0))
    }

    /// Command error with two additional 32-bit data fields
    pub fn failure_u32_u32(rc: ErrorCode, data0: u32, data1: u32) -> (r: Self)
        ensures
            r.value() == GenericSyscallReturnValue::FailureU32U32(rc, data0, data1),
    {
        CommandResult(GenericSyscallReturnValue::FailureU32U32(rc, data0, data1))
    }

    /// Command error with an additional 64-bit data field
    pub fn failure_u64(rc: ErrorCode, data0: u64) -> (r: Self)
        ensures
            r.value() == GenericSyscallReturnValue::FailureU64(rc, data0),
    {
        CommandResult(GenericSyscallReturnValue::FailureU64(rc, data0))
    }

    /// Successful command
    pub fn success() -> (r: Self)
        ensures
            r.value() == GenericSyscallReturnValue::Success,
    {
        CommandResult(GenericSyscallReturnValue::Success)
    }

    /// Successful command with an additional 32-bit data field
    pub fn success_u32(data0: u32) -> (r: Self)
        ensures
            r.value() == GenericSyscallReturnValue::SuccessU32(data0),
    {
        CommandResult(GenericSyscallReturnValue::SuccessU32(data0))
    }

    /// Successful command with two additional 32-bit data fields
    pub fn success_u32_u32(data0: u32, data1: u32) -> (r: Self)
        ensures
            r.value() == GenericSyscallReturnValue::SuccessU32U32(data0, data1),
    {
        CommandResult(GenericSyscallReturnValue::SuccessU32U32(data0, data1))
    }

    /// Successful command with three additional 32-bit data fields
    pub fn success_u32_u32_u32(data0: u32, data1: u32, data2: u32) -> (r: Self)
        ensures
            r.value() == GenericSyscallReturnValue::SuccessU32U32U32(data0, data1, data2),
    {
        CommandResult(GenericSyscallReturnValue::SuccessU32U32U32(data0, data1, data2))
    }

    /// Successful command with an additional 64-bit data field
    pub fn success_u64(data0: u64) -> (r: Self)
        ensures
            r.value() == GenericSyscallReturnValue::SuccessU64(data0),
    {
        CommandResult(GenericSyscallReturnValue::SuccessU64(data0))
    }

    /// Successful command with an additional 64-bit and 32-bit data field
    pub fn success_u64_u32(data0: u64, data1: u32) -> (r: Self)
        ensures
            r.value() == GenericSyscallReturnValue::SuccessU64U32(data0, data1),
    {
        CommandResult(GenericSyscallReturnValue::SuccessU64U32(data0, data1))
    }

    /// The command result a legacy status word stands for.
    pub fn from_return_code(rc: ReturnCode) -> (r: Self)
        ensures
            r.value() == spec_command_of_return_code(rc),
    {
        match rc {
            ReturnCode::Success => CommandResult::success(),
            ReturnCode::Fail => CommandResult::failure(ErrorCode::Fail),
            ReturnCode::Busy => CommandResult::failure(ErrorCode::Busy),
            ReturnCode::Invalid => CommandResult::failure(ErrorCode::Invalid),
            ReturnCode::NoMemory => CommandResult::failure(ErrorCode::NoMemory),
            ReturnCode::Size => CommandResult::failure(ErrorCode::Size),
            ReturnCode::Unsupported => CommandResult::failure(ErrorCode::Unsupported),
        }
    }
}

pub open spec fn spec_command_of_return_code(rc: ReturnCode) -> GenericSyscallReturnValue {
    match rc {
        ReturnCode::Success => GenericSyscallReturnValue::Success,
        ReturnCode::Fail => GenericSyscallReturnValue::Failure(ErrorCode::Fail),
        ReturnCode::Busy => GenericSyscallReturnValue::Failure(ErrorCode::Busy),
        ReturnCode::Invalid => GenericSyscallReturnValue::Failure(ErrorCode::Invalid),
        ReturnCode::NoMemory => GenericSyscallReturnValue::Failure(ErrorCode::NoMemory),
        ReturnCode::Size => GenericSyscallReturnValue::Failure(ErrorCode::Size),
        ReturnCode::Unsupported => GenericSyscallReturnValue::Failure(ErrorCode::Unsupported),
    }
}

/// A notification target registered by a client through `subscribe`.
/// Delivery is fire-and-forget and happens outside the engine; the engine
/// only records which target to notify.  Identity 0 is the null target.
#[derive(Clone, Copy, PartialEq, Eq, Structural, Debug)]
pub struct Upcall {
    pub id: usize,
}

impl Default for Upcall {
    /// The null notification target.
    fn default() -> (r: Upcall)
        ensures
            r.id == 0,
    {
        Upcall { id: 0 }
    }
}

impl Upcall {
    pub fn new(id: usize) -> (r: Upcall)
        ensures
            r.id == id,
    {
        Upcall { id }
    }
}

/// The four driver-facing system calls.  Each implementation chooses its own
/// well-formedness condition `inv`, which every operation preserves.
pub trait Driver {
    spec fn inv(&self) -> bool;

    fn subscribe(&mut self, which: usize, callback: Upcall, app_id: usize) -> (r: Result<
        Upcall,
        (Upcall, ErrorCode),
    >)
        requires
            old(self).inv(),
        ensures
            final(self).inv(),
    ;

    fn command(&mut self, which: usize, r2: usize, r3: usize, caller_id: usize) -> (r:
        CommandResult)
        requires
            old(self).inv(),
        ensures
            final(self).inv(),
    ;

    fn allow_readwrite(&mut self, app: usize, which: usize, slice: ReadWriteAppSlice) -> (r: Result<
        ReadWriteAppSlice,
        (ReadWriteAppSlice, ErrorCode),
    >)
        requires
            old(self).inv(),
        ensures
            final(self).inv(),
    ;

    fn allow_readonly(&mut self, app: usize, which: usize, slice: ReadOnlyAppSlice) -> (r: Result<
        ReadOnlyAppSlice,
        (ReadOnlyAppSlice, ErrorCode),
    >)
        requires
            old(self).inv(),
        ensures
            final(self).inv(),
    ;
}

/// The older single-status-word driver interface, kept for drivers that
/// still answer with one status word instead of [`CommandResult`].
pub trait LegacyDriver {
    fn subscribe(&mut self, minor_num: usize, callback: Option<Upcall>, app_id: usize) -> (r:
        ReturnCode);

    fn command(&mut self, minor_num: usize, r2: usize, r3: usize, caller_id: usize) -> (r:
        ReturnCode);

    fn allow_readwrite(&mut self, app: usize, minor_num: usize, slice: Option<ReadWriteAppSlice>)
        -> (r: ReturnCode);
}

} // verus!
