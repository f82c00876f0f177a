//! Read-only snapshot publishing.
//!
//! A process may share a memory region with this driver; whenever the
//! kernel schedules the process, the driver republishes a snapshot —
//! a monotonically wrapping publish counter, the number of pending tasks
//! and the current tick count — so the process can read those values
//! without a system call.  The snapshot is only as fresh as the last time
//! the process was scheduled.
//!
//! The layout is versioned and only ever grows: the 32-bit counter, then
//! the 32-bit pending-task count, then the 64-bit tick count, all
//! little-endian.  A region shorter than a field simply does not receive
//! it.  This driver is a read-only observer of the shared counter: it never
//! influences what the alarm engine arms or programs.

use crate::driver::{CommandResult, Driver, ErrorCode, Upcall};
use crate::grant::Grant;
use crate::mem::{spec_le32, spec_le64, u32_le_bytes, u64_le_bytes, ReadOnlyAppSlice, ReadWriteAppSlice};
use crate::time::{add32, spec_add32, HardwareTimer};
use vstd::prelude::*;

verus! {

/// Layout version of the published snapshot.
pub const VERSION: u32 = 1;

/// Per-process record: the region, if any, the process has shared.
#[derive(Clone, Copy, PartialEq, Eq, Structural, Debug)]
pub struct App {
    pub mem_region: ReadWriteAppSlice,
}

impl Default for App {
    fn default() -> (r: App)
        ensures
            r.mem_region.len == 0,
    {
        App { mem_region: ReadWriteAppSlice { len: 0 } }
    }
}

/// The bytes one publication places at the start of a region of the given
/// length: each field only when the region can hold it and everything
/// before it.
pub open spec fn spec_snapshot_bytes(
    region_len: usize,
    count: u32,
    pending_tasks: usize,
    now: u64,
) -> Seq<u8> {
    if region_len >= 16 {
        spec_le32(count) + spec_le32(pending_tasks as u32) + spec_le64(now)
    } else if region_len >= 8 {
        spec_le32(count) + spec_le32(pending_tasks as u32)
    } else if region_len >= 4 {
        spec_le32(count)
    } else {
        Seq::empty()
    }
}

/// The snapshot-publishing driver: a timer handle of its own, the publish
/// counter and the per-process shared regions.
pub struct ROSDriver {
    pub timer: HardwareTimer,
    pub count: u32,
    pub apps: Grant<App>,
}

impl ROSDriver {
    pub fn new(timer: HardwareTimer, grant: Grant<App>) -> (d: ROSDriver)
        requires
            timer.wf(),
        ensures
            d.timer == timer,
            d.count == 0,
            d.apps@ == grant@,
    {
        ROSDriver { timer, count: 0, apps: grant }
    }

    /// Publishes the snapshot for a process that is about to be scheduled.
    /// Returns the bytes belonging at the start of the process's shared
    /// region (empty when the region is too small for even the counter) and
    /// advances the publish counter, wrapping.  The identity must resolve
    /// to a live record: publication only happens for a process the kernel
    /// is scheduling.
    pub fn update_values(&mut self, appid: usize, pending_tasks: usize) -> (r: Vec<u8>)
        requires
            old(self).timer.wf(),
            appid < old(self).apps@.len(),
            old(self).apps@[appid as int] is Some,
        ensures
            final(self).timer == old(self).timer,
            final(self).apps@ == old(self).apps@,
            final(self).count == spec_add32(old(self).count, 1),
            r@ == spec_snapshot_bytes(
                old(self).apps@[appid as int].unwrap().mem_region.len,
                old(self).count,
                pending_tasks,
                old(self).timer.ticks,
            ),
    {
        let count = self.count;
        let rec = self.apps.read(appid);
        let region_len = rec.mem_region.len;
        let mut bytes: Vec<u8> = Vec::new();
        if region_len >= 4 {
            let mut field = u32_le_bytes(count);
            bytes.append(&mut field);
        }
        if region_len >= 8 {
            let pending = #[verifier::truncate] (pending_tasks as u32);
            let mut field = u32_le_bytes(pending);
            bytes.append(&mut field);
        }
        if region_len >= 16 {
            let now = self.timer.now();
            let mut field = u64_le_bytes(now);
            bytes.append(&mut field);
        }
        self.count = add32(count, 1);
        proof {
            assert(bytes@ =~= spec_snapshot_bytes(region_len, count, pending_tasks, self.timer.ticks));
        }
        bytes
    }

    /// Accepts (or takes back) the shared region of a process, handing back
    /// the one previously shared.  Only region 0 exists.
    pub fn allow_shared(&mut self, app: usize, which: usize, slice: ReadWriteAppSlice) -> (r:
        Result<ReadWriteAppSlice, (ReadWriteAppSlice, ErrorCode)>)
        ensures
            final(self).timer == old(self).timer,
            final(self).count == old(self).count,
            which != 0 ==> r == Err::<ReadWriteAppSlice, _>((slice, ErrorCode::Unsupported))
                && final(self).apps@ == old(self).apps@,
            which == 0 && !(app < old(self).apps@.len() && old(self).apps@[app as int] is Some)
                ==> r == Err::<ReadWriteAppSlice, _>((slice, ErrorCode::InvalidProcess))
                && final(self).apps@ == old(self).apps@,
            which == 0 && app < old(self).apps@.len() && old(self).apps@[app as int] is Some ==> {
                let rec = old(self).apps@[app as int].unwrap();
                r == Ok::<ReadWriteAppSlice, (ReadWriteAppSlice, ErrorCode)>(rec.mem_region)
                    && final(self).apps@ == old(self).apps@.update(
                    app as int,
                    Some(App { mem_region: slice }),
                )
            },
    {
        if which != 0 {
            return Err((slice, ErrorCode::Unsupported));
        }
        if !self.apps.is_live(app) {
            return Err((slice, ErrorCode::InvalidProcess));
        }
        let rec = self.apps.read(app);
        let previous = rec.mem_region;
        self.apps.put(app, App { mem_region: slice });
        Ok(previous)
    }

    /// The one command is the version query.
    pub fn command(&mut self, command_number: usize, _target_id: usize, _unused: usize, _appid:
        usize) -> (r: CommandResult)
        ensures
            *final(self) == *old(self),
            command_number == 0 ==> r.value()
                == crate::driver::GenericSyscallReturnValue::SuccessU32(VERSION),
            command_number != 0 ==> r.value() == crate::driver::GenericSyscallReturnValue::Failure(
                ErrorCode::Unsupported,
            ),
    {
        if command_number == 0 {
            CommandResult::success_u32(VERSION)
        } else {
            CommandResult::failure(ErrorCode::Unsupported)
        }
    }
}

impl Driver for ROSDriver {
    open spec fn inv(&self) -> bool {
        true
    }

    /// No subscribe events are supported.
    fn subscribe(&mut self, which: usize, callback: Upcall, app_id: usize) -> (r: Result<
        Upcall,
        (Upcall, ErrorCode),
    >) {
        Err((callback, ErrorCode::Unsupported))
    }

    fn command(&mut self, which: usize, r2: usize, r3: usize, caller_id: usize) -> (r:
        CommandResult) {
        ROSDriver::command(self, which, r2, r3, caller_id)
    }

    fn allow_readwrite(&mut self, app: usize, which: usize, slice: ReadWriteAppSlice) -> (r: Result<
        ReadWriteAppSlice,
        (ReadWriteAppSlice, ErrorCode),
    >) {
        self.allow_shared(app, which, slice)
    }

    /// No read-only regions are used.
    fn allow_readonly(&mut self, _app: usize, _which: usize, slice: ReadOnlyAppSlice) -> (r: Result<
        ReadOnlyAppSlice,
        (ReadOnlyAppSlice, ErrorCode),
    >) {
        Err((slice, ErrorCode::Unsupported))
    }
}

} // verus!
