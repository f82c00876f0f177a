//! The alarm multiplexing engine.
//!
//! One hardware alarm is shared among any number of client processes, each
//! of which may keep one one-shot expiration pending.  A client arms itself
//! with a 32-bit `reference` timestamp (a snapshot of "now" taken no later
//! than the call) and an offset `dt`; its alarm is due at
//! `reference + dt` modulo 2^32.  The engine keeps one record per client,
//! counts the armed ones, selects the next expiration to program into the
//! hardware, widens 32-bit references to the hardware counter width, and on
//! every hardware interrupt sweeps the records, notifying every client whose
//! interval has genuinely elapsed.

use crate::driver::{CommandResult, Driver, ErrorCode, GenericSyscallReturnValue, Upcall};
use crate::grant::Grant;
use crate::mem::{spec_le32, spec_le64, u32_le_bytes, u64_le_bytes, ReadOnlyAppSlice, ReadWriteAppSlice};
use crate::time::{
    add32, extend_reference, spec_add32, spec_extend_reference, spec_in_range, spec_in_range32,
    spec_low32, spec_sub32, spec_tadd, spec_tsub, sub32, ticks_modulus, within_range32,
    HardwareTimer, TimerSetpoint, TimerWidth,
};
use vstd::prelude::*;

verus! {

/// A client's pending request, if any.
///
/// `reference` is a low-32-bit timestamp that was in the past or present
/// when the request was made, and `dt` the offset after it; both are modulo
/// 2^32.
#[derive(Clone, Copy, PartialEq, Eq, Structural, Debug)]
pub enum Expiration {
    Disabled,
    Enabled { reference: u32, dt: u32 },
}

/// Per-client record kept in the per-process store.
#[derive(Clone, Copy, PartialEq, Eq, Structural, Debug)]
pub struct AlarmData {
    pub expiration: Expiration,
    pub callback: Upcall,
    /// Region of process memory, if shared, into which the current tick
    /// count is opportunistically published.
    pub ros_region: ReadWriteAppSlice,
    /// How many times the tick count has been published to this client.
    pub ros_count: u32,
}

impl Default for AlarmData {
    fn default() -> (r: AlarmData)
        ensures
            r.expiration is Disabled,
            r.callback.id == 0,
            r.ros_region.len == 0,
            r.ros_count == 0,
    {
        AlarmData {
            expiration: Expiration::Disabled,
            callback: Upcall { id: 0 },
            ros_region: ReadWriteAppSlice { len: 0 },
            ros_count: 0,
        }
    }
}

/// A notification owed to a client after its alarm elapsed.  Delivery is
/// fire-and-forget and happens outside the engine; the three values are, in
/// this order, what the client receives.
#[derive(Clone, Copy, PartialEq, Eq, Structural, Debug)]
pub struct Notification {
    /// Which client is notified.
    pub process_id: usize,
    /// Its registered notification target.
    pub callback: Upcall,
    /// Low 32 bits of the counter when the sweep ran.
    pub now: u32,
    /// The expiration time the client had asked for.
    pub expiration: u32,
    /// Reserved third value; always zero.
    pub reserved: u32,
}

// ---------------------------------------------------------------------------
// Spec views of a client record
// ---------------------------------------------------------------------------

pub open spec fn exp_reference(e: Expiration) -> u32 {
    match e {
        Expiration::Enabled { reference, dt } => reference,
        Expiration::Disabled => 0,
    }
}

pub open spec fn exp_dt(e: Expiration) -> u32 {
    match e {
        Expiration::Enabled { reference, dt } => dt,
        Expiration::Disabled => 0,
    }
}

/// Whether a slot holds an armed client.
pub open spec fn rec_armed(r: Option<AlarmData>) -> bool {
    match r {
        Some(d) => d.expiration is Enabled,
        None => false,
    }
}

pub open spec fn rec_reference(r: Option<AlarmData>) -> u32 {
    exp_reference(r.unwrap().expiration)
}

pub open spec fn rec_dt(r: Option<AlarmData>) -> u32 {
    exp_dt(r.unwrap().expiration)
}

/// The 32-bit time at which an armed record is due.
pub open spec fn rec_end(r: Option<AlarmData>) -> u32 {
    spec_add32(rec_reference(r), rec_dt(r))
}

/// An armed record is pending at `now_low` while `now_low` still lies in its
/// `[reference, reference + dt)` interval; once it leaves, the alarm has
/// genuinely elapsed.
pub open spec fn rec_pending(r: Option<AlarmData>, now_low: u32) -> bool {
    spec_in_range32(now_low, rec_reference(r), rec_end(r))
}

/// Ticks until an armed record is due: zero once it has elapsed.
pub open spec fn rec_remaining(r: Option<AlarmData>, now_low: u32) -> int {
    if rec_pending(r, now_low) {
        spec_sub32(rec_end(r), now_low) as int
    } else {
        0
    }
}

// ---------------------------------------------------------------------------
// Counting armed records
// ---------------------------------------------------------------------------

/// Number of armed records in the store.
pub open spec fn count_armed(s: Seq<Option<AlarmData>>) -> int
    decreases s.len(),
{
    if s.len() == 0 {
        0
    } else {
        count_armed(s.drop_last()) + if rec_armed(s.last()) {
            1int
        } else {
            0int
        }
    }
}

/// Whether any record in the store is armed.
pub open spec fn any_armed(s: Seq<Option<AlarmData>>) -> bool {
    exists|i: int| 0 <= i < s.len() && rec_armed(s[i])
}

pub proof fn lemma_count_armed_bounds(s: Seq<Option<AlarmData>>)
    ensures
        0 <= count_armed(s) <= s.len(),
    decreases s.len(),
{
    if s.len() > 0 {
        lemma_count_armed_bounds(s.drop_last());
    }
}

pub proof fn lemma_count_armed_at(s: Seq<Option<AlarmData>>, i: int)
    requires
        0 <= i < s.len(),
    ensures
        rec_armed(s[i]) ==> count_armed(s) >= 1,
        !rec_armed(s[i]) ==> count_armed(s) <= s.len() - 1,
    decreases s.len(),
{
    lemma_count_armed_bounds(s.drop_last());
    if i < s.len() - 1 {
        lemma_count_armed_at(s.drop_last(), i);
    }
}

pub proof fn lemma_count_armed_update(s: Seq<Option<AlarmData>>, i: int, v: Option<AlarmData>)
    requires
        0 <= i < s.len(),
    ensures
        count_armed(s.update(i, v)) == count_armed(s) - (if rec_armed(s[i]) {
            1int
        } else {
            0int
        }) + (if rec_armed(v) {
            1int
        } else {
            0int
        }),
    decreases s.len(),
{
    let t = s.update(i, v);
    if i == s.len() - 1 {
        assert(t.drop_last() =~= s.drop_last());
    } else {
        assert(t.drop_last() =~= s.drop_last().update(i, v));
        lemma_count_armed_update(s.drop_last(), i, v);
    }
}

/// The armed count is zero exactly when no record is armed.
pub proof fn lemma_count_armed_zero(s: Seq<Option<AlarmData>>)
    ensures
        (count_armed(s) == 0) <==> !any_armed(s),
    decreases s.len(),
{
    lemma_count_armed_bounds(s);
    if s.len() > 0 {
        lemma_count_armed_zero(s.drop_last());
        lemma_count_armed_bounds(s.drop_last());
        if any_armed(s.drop_last()) {
            let i = choose|i: int| 0 <= i < s.drop_last().len() && rec_armed(s.drop_last()[i]);
            assert(rec_armed(s[i]));
        }
        if rec_armed(s.last()) {
            assert(rec_armed(s[s.len() - 1]));
        }
        if any_armed(s) && !rec_armed(s.last()) {
            let i = choose|i: int| 0 <= i < s.len() && rec_armed(s[i]);
            assert(rec_armed(s.drop_last()[i]));
        }
    }
}

// ---------------------------------------------------------------------------
// Selection of the earliest pending expiration
// ---------------------------------------------------------------------------

/// The hypothesis under which the selection below is provably earliest:
/// every armed client is still pending, and no two armed offsets together
/// reach a full 32-bit wrap.  Outside of it — once some client has already
/// elapsed, or offsets nearly a whole wrap long coexist — the engine only
/// promises that the hardware fires promptly for the elapsed ones, not which
/// record is selected.
pub open spec fn all_pending_separated(s: Seq<Option<AlarmData>>, now_low: u32) -> bool {
    &&& (forall|i: int| 0 <= i < s.len() && #[trigger] rec_armed(s[i]) ==> rec_pending(s[i], now_low))
    &&& (forall|i: int, j: int|
        0 <= i < s.len() && 0 <= j < s.len() && i != j && #[trigger] rec_armed(s[i])
            && #[trigger] rec_armed(s[j]) ==> rec_dt(s[i]) + rec_dt(s[j]) < 0x1_0000_0000)
}

/// Ticks until the programmed hardware setpoint fires, zero once it has
/// passed (the hardware then raises its interrupt at once).  Meaningful only
/// while a setpoint is programmed.
pub open spec fn hw_remaining(t: HardwareTimer) -> int {
    let sp = t.setpoint.unwrap();
    let fire = spec_tadd(t.width, sp.reference, sp.dt);
    if spec_in_range(t.width, t.ticks, sp.reference, fire) {
        spec_tsub(t.width, fire, t.ticks) as int
    } else {
        0
    }
}

/// What a recompute establishes: with no client armed the hardware is
/// disarmed; otherwise the expiration of some armed record is cached and
/// programmed, widened to the hardware width with its own low 32 bits, and —
/// provided every armed client is still pending with separated offsets —
/// the hardware fires no later than every armed client's expiration.
pub open spec fn selection_ok(d: AlarmDriver) -> bool {
    let s = d.app_alarms@;
    let now_low = spec_low32(d.alarm.ticks);
    &&& (!any_armed(s) ==> d.alarm.setpoint is None && d.next_alarm is Disabled)
    &&& (any_armed(s) ==> {
        &&& d.next_alarm is Enabled
        &&& (exists|i: int|
            0 <= i < s.len() && #[trigger] rec_armed(s[i]) && s[i].unwrap().expiration
                == d.next_alarm)
        &&& d.alarm.setpoint == Some(
            TimerSetpoint {
                reference: spec_extend_reference(
                    d.alarm.width,
                    d.alarm.ticks,
                    exp_reference(d.next_alarm),
                ),
                dt: exp_dt(d.next_alarm) as u64,
            },
        )
        &&& (all_pending_separated(s, now_low) ==> forall|j: int|
            0 <= j < s.len() && #[trigger] rec_armed(s[j]) ==> hw_remaining(d.alarm)
                <= rec_remaining(s[j], now_low))
    })
}

/// Adopting a candidate whose end lies inside the current earliest's
/// interval never delays the fire time, as long as both are still pending
/// and their offsets are separated.
proof fn lemma_adopt_end_within(now: u32, re: u32, de: u32, rc: u32, dc: u32)
    requires
        spec_in_range32(now, re, spec_add32(re, de)),
        spec_in_range32(now, rc, spec_add32(rc, dc)),
        spec_in_range32(spec_add32(rc, dc), re, spec_add32(re, de)),
        dc + de < 0x1_0000_0000,
    ensures
        spec_sub32(spec_add32(rc, dc), now) <= spec_sub32(spec_add32(re, de), now),
{
}

/// Keeping the current earliest is right when the candidate's end lies
/// outside the earliest's interval and both are still pending.
proof fn lemma_keep_current(now: u32, re: u32, de: u32, rc: u32, dc: u32)
    requires
        spec_in_range32(now, re, spec_add32(re, de)),
        spec_in_range32(now, rc, spec_add32(rc, dc)),
        !spec_in_range32(spec_add32(rc, dc), re, spec_add32(re, de)),
    ensures
        spec_sub32(spec_add32(re, de), now) <= spec_sub32(spec_add32(rc, dc), now),
{
}

/// A hardware setpoint programmed from a widened 32-bit record fires with
/// exactly the record's own 32-bit remaining time.
proof fn lemma_hw_matches_record(t: HardwareTimer, reference: u32, dt: u32)
    requires
        t.wf(),
        t.setpoint == Some(
            TimerSetpoint {
                reference: spec_extend_reference(t.width, t.ticks, reference),
                dt: dt as u64,
            },
        ),
    ensures
        hw_remaining(t) == (if spec_in_range32(
            spec_low32(t.ticks),
            reference,
            spec_add32(reference, dt),
        ) {
            spec_sub32(spec_add32(reference, dt), spec_low32(t.ticks)) as int
        } else {
            0int
        }),
{
    crate::time::lemma_extend_reference(t.width, t.ticks, reference);
    let r = spec_extend_reference(t.width, t.ticks, reference);
    let d = spec_tsub(t.width, t.ticks, r);
    let fire = spec_tadd(t.width, r, dt as u64);
    assert(spec_tsub(t.width, fire, r) == dt as u64);
    assert(spec_sub32(spec_add32(reference, dt), reference) == dt);
    if d < dt as u64 {
        assert(spec_tsub(t.width, fire, t.ticks) == dt - d);
        assert(spec_sub32(spec_add32(reference, dt), spec_low32(t.ticks)) == dt - d);
    }
}

// ---------------------------------------------------------------------------
// The engine
// ---------------------------------------------------------------------------

/// The alarm multiplexing engine: owns the hardware timer handle, the
/// per-client records, the count of armed clients and the cached selection
/// last programmed into the hardware.
pub struct AlarmDriver {
    pub alarm: HardwareTimer,
    pub num_armed: usize,
    pub app_alarms: Grant<AlarmData>,
    /// Advisory mirror of the expiration last programmed into the hardware;
    /// the authoritative state is always recomputed from the records.
    pub next_alarm: Expiration,
    /// Set as soon as the snapshot-publishing mechanism has run once.
    pub ros_enabled: bool,
}

impl AlarmDriver {
    /// The count invariant: `num_armed` equals the number of records whose
    /// expiration is enabled.
    pub open spec fn counts_ok(self) -> bool {
        &&& self.alarm.wf()
        &&& self.num_armed == count_armed(self.app_alarms@)
    }

    /// The engine's invariant: the armed count matches the records, and the
    /// hardware is armed exactly while some client is.
    pub open spec fn wf(self) -> bool {
        &&& self.counts_ok()
        &&& (count_armed(self.app_alarms@) == 0 ==> self.alarm.setpoint is None)
        &&& (count_armed(self.app_alarms@) > 0 ==> self.alarm.setpoint is Some)
    }

    /// Whether `id` resolves to a live client record.
    pub open spec fn has_process(self, id: usize) -> bool {
        id < self.app_alarms@.len() && self.app_alarms@[id as int] is Some
    }

    /// Takes ownership of the hardware timer and of the (still unarmed)
    /// per-client store.
    pub fn new(alarm: HardwareTimer, grant: Grant<AlarmData>) -> (d: AlarmDriver)
        requires
            alarm.wf(),
            alarm.setpoint is None,
            forall|i: int| 0 <= i < grant@.len() ==> !rec_armed(grant@[i]),
        ensures
            d.wf(),
            d.alarm == alarm,
            d.app_alarms@ == grant@,
            d.num_armed == 0,
            d.next_alarm is Disabled,
            !d.ros_enabled,
    {
        proof {
            lemma_count_armed_zero(grant@);
        }
        AlarmDriver {
            alarm,
            num_armed: 0,
            app_alarms: grant,
            next_alarm: Expiration::Disabled,
            ros_enabled: false,
        }
    }

    /// Registers (or replaces) the notification target of a client.
    /// Returns the previous target; fails with `InvalidProcess` when the
    /// identity does not resolve to a live record, handing the target back.
    pub fn subscribe(&mut self, subscribe_num: usize, callback: Upcall, app_id: usize) -> (r:
        Result<Upcall, (Upcall, ErrorCode)>)
        requires
            old(self).wf(),
        ensures
            final(self).wf(),
            final(self).alarm == old(self).alarm,
            final(self).num_armed == old(self).num_armed,
            final(self).next_alarm == old(self).next_alarm,
            final(self).ros_enabled == old(self).ros_enabled,
            subscribe_num != 0 ==> r == Err::<Upcall, _>((callback, ErrorCode::Unsupported))
                && final(self).app_alarms@ == old(self).app_alarms@,
            subscribe_num == 0 && !(app_id < old(self).app_alarms@.len() && old(
                self,
            ).app_alarms@[app_id as int] is Some) ==> r == Err::<Upcall, _>(
                (callback, ErrorCode::InvalidProcess),
            ) && final(self).app_alarms@ == old(self).app_alarms@,
            subscribe_num == 0 && app_id < old(self).app_alarms@.len() && old(
                self,
            ).app_alarms@[app_id as int] is Some ==> {
                let rec = old(self).app_alarms@[app_id as int].unwrap();
                r == Ok::<Upcall, (Upcall, ErrorCode)>(rec.callback) && final(self).app_alarms@
                    == old(self).app_alarms@.update(
                    app_id as int,
                    Some(AlarmData { callback, ..rec }),
                )
            },
    {
        if subscribe_num != 0 {
            return Err((callback, ErrorCode::Unsupported));
        }
        if !self.app_alarms.is_live(app_id) {
            return Err((callback, ErrorCode::InvalidProcess));
        }
        let mut rec = self.app_alarms.read(app_id);
        let previous = rec.callback;
        rec.callback = callback;
        self.app_alarms.put(app_id, rec);
        proof {
            lemma_count_armed_update(
                old(self).app_alarms@,
                app_id as int,
                Some(AlarmData { callback, ..old(self).app_alarms@[app_id as int].unwrap() }),
            );
        }
        Ok(previous)
    }

    /// Accepts a process memory region for the snapshot-publishing
    /// mechanism, handing back the region previously shared.  Only region 0
    /// exists, and only once the mechanism is enabled.
    pub fn allow_readwrite(&mut self, process_id: usize, allow_num: usize, slice: ReadWriteAppSlice)
        -> (r: Result<ReadWriteAppSlice, (ReadWriteAppSlice, ErrorCode)>)
        requires
            old(self).wf(),
        ensures
            final(self).wf(),
            final(self).alarm == old(self).alarm,
            final(self).num_armed == old(self).num_armed,
            final(self).next_alarm == old(self).next_alarm,
            final(self).ros_enabled == old(self).ros_enabled,
            allow_num != 0 ==> r == Err::<ReadWriteAppSlice, _>((slice, ErrorCode::Unsupported))
                && final(self).app_alarms@ == old(self).app_alarms@,
            allow_num == 0 && !old(self).ros_enabled ==> r == Err::<ReadWriteAppSlice, _>(
                (slice, ErrorCode::NoDevice),
            ) && final(self).app_alarms@ == old(self).app_alarms@,
            allow_num == 0 && old(self).ros_enabled && !(process_id < old(self).app_alarms@.len()
                && old(self).app_alarms@[process_id as int] is Some) ==> r == Err::<
                ReadWriteAppSlice,
                _,
            >((slice, ErrorCode::InvalidProcess)) && final(self).app_alarms@ == old(
                self,
            ).app_alarms@,
            allow_num == 0 && old(self).ros_enabled && process_id < old(self).app_alarms@.len()
                && old(self).app_alarms@[process_id as int] is Some ==> {
                let rec = old(self).app_alarms@[process_id as int].unwrap();
                r == Ok::<ReadWriteAppSlice, (ReadWriteAppSlice, ErrorCode)>(rec.ros_region)
                    && final(self).app_alarms@ == old(self).app_alarms@.update(
                    process_id as int,
                    Some(AlarmData { ros_region: slice, ..rec }),
                )
            },
    {
        if allow_num != 0 {
            return Err((slice, ErrorCode::Unsupported));
        }
        if !self.ros_enabled {
            // The mechanism never ran, so no process was ever scheduled with
            // it on: nothing can be shared.
            return Err((slice, ErrorCode::NoDevice));
        }
        if !self.app_alarms.is_live(process_id) {
            return Err((slice, ErrorCode::InvalidProcess));
        }
        let mut rec = self.app_alarms.read(process_id);
        let previous = rec.ros_region;
        rec.ros_region = slice;
        self.app_alarms.put(process_id, rec);
        proof {
            lemma_count_armed_update(
                old(self).app_alarms@,
                process_id as int,
                Some(
                    AlarmData {
                        ros_region: slice,
                        ..old(self).app_alarms@[process_id as int].unwrap()
                    },
                ),
            );
        }
        Ok(previous)
    }

    /// Recomputes which expiration the hardware must fire for next and
    /// programs it, widening the selected 32-bit reference to the counter
    /// width; disarms the hardware when no client is armed.
    ///
    /// When several armed clients have already elapsed, which of them is
    /// selected is deliberately unspecified: all of them are swept by the
    /// next firing pass, so the hardware only needs to fire promptly, and
    /// `selection_ok` promises the earliest fire time only while every
    /// armed client is still pending.
    pub fn reset_active_alarm(&mut self)
        requires
            old(self).counts_ok(),
        ensures
            final(self).wf(),
            final(self).alarm.width == old(self).alarm.width,
            final(self).alarm.frequency_hz == old(self).alarm.frequency_hz,
            final(self).alarm.ticks == old(self).alarm.ticks,
            final(self).num_armed == old(self).num_armed,
            final(self).app_alarms@ == old(self).app_alarms@,
            final(self).ros_enabled == old(self).ros_enabled,
            selection_ok(*final(self)),
    {
        let ghost s = self.app_alarms@;
        let mut earliest_alarm = Expiration::Disabled;
        let ghost mut cand_idx: int = 0;
        let now = self.alarm.now();
        let now_low = self.alarm.now_low();
        let n = self.app_alarms.len();
        let mut i: usize = 0;
        while i < n
            invariant
                self.counts_ok(),
                s == self.app_alarms@,
                n == s.len(),
                now == self.alarm.ticks,
                now_low == spec_low32(self.alarm.ticks),
                i <= n,
                earliest_alarm is Disabled ==> forall|j: int| 0 <= j < i ==> !rec_armed(s[j]),
                earliest_alarm is Enabled ==> 0 <= cand_idx < i && rec_armed(s[cand_idx])
                    && s[cand_idx].unwrap().expiration == earliest_alarm,
                earliest_alarm is Enabled && all_pending_separated(s, now_low) ==> forall|j: int|
                    0 <= j < i && #[trigger] rec_armed(s[j]) ==> rec_remaining(s[cand_idx], now_low)
                        <= rec_remaining(s[j], now_low),
            decreases n - i,
        {
            if self.app_alarms.is_live(i) {
                let rec = self.app_alarms.read(i);
                match rec.expiration {
                    Expiration::Enabled { reference, dt } => {
                        match earliest_alarm {
                            Expiration::Disabled => {
                                proof {
                                    cand_idx = i as int;
                                }
                                earliest_alarm = rec.expiration;
                            },
                            Expiration::Enabled { reference: er, dt: ed } => {
                                let current_end = add32(reference, dt);
                                let earliest_end = add32(er, ed);
                                if within_range32(current_end, er, earliest_end) {
                                    // The current record is due no later than the
                                    // cached earliest: adopt it.
                                    proof {
                                        if all_pending_separated(s, now_low) {
                                            assert(rec_armed(s[i as int]));
                                            assert(rec_pending(s[i as int], now_low));
                                            assert(rec_pending(s[cand_idx], now_low));
                                            assert(rec_dt(s[i as int]) + rec_dt(s[cand_idx])
                                                < 0x1_0000_0000);
                                            lemma_adopt_end_within(now_low, er, ed, reference, dt);
                                        }
                                        cand_idx = i as int;
                                    }
                                    earliest_alarm = rec.expiration;
                                } else if !within_range32(now_low, er, earliest_end) {
                                    // The cached earliest has already elapsed, so the
                                    // hardware must fire promptly in any case; adopt
                                    // the current record and let the sweep sort the
                                    // elapsed ones out.
                                    proof {
                                        if all_pending_separated(s, now_low) {
                                            assert(rec_armed(s[cand_idx]));
                                            assert(rec_pending(s[cand_idx], now_low));
                                        }
                                        cand_idx = i as int;
                                    }
                                    earliest_alarm = rec.expiration;
                                } else {
                                    proof {
                                        if all_pending_separated(s, now_low) {
                                            assert(rec_armed(s[i as int]));
                                            assert(rec_pending(s[i as int], now_low));
                                            lemma_keep_current(now_low, er, ed, reference, dt);
                                        }
                                    }
                                }
                            },
                        }
                    },
                    Expiration::Disabled => {},
                }
            }
            i += 1;
        }
        self.next_alarm = earliest_alarm;
        match earliest_alarm {
            Expiration::Disabled => {
                proof {
                    lemma_count_armed_zero(s);
                }
                self.alarm.disarm();
            },
            Expiration::Enabled { reference, dt } => {
                proof {
                    lemma_count_armed_at(s, cand_idx);
                    assert(ticks_modulus(self.alarm.width) >= 0x1_0000_0000);
                }
                let w = self.alarm.width;
                let real_reference = extend_reference(w, now, reference);
                self.alarm.set_alarm(real_reference, dt as u64);
                proof {
                    lemma_hw_matches_record(self.alarm, reference, dt);
                    assert(rec_armed(s[cand_idx]));
                }
            },
        }
    }

    /// Stores an expiration for the caller, counting a disarmed client that
    /// becomes armed, and returns the nominal fire time
    /// `reference + dt` modulo 2^32.  The hardware is not touched: the newly
    /// armed client might not be the earliest, so the caller must recompute.
    fn rearm(&mut self, caller_id: usize, reference: u32, dt: u32) -> (r: CommandResult)
        requires
            old(self).counts_ok(),
            old(self).has_process(caller_id),
        ensures
            final(self).counts_ok(),
            final(self).alarm == old(self).alarm,
            final(self).ros_enabled == old(self).ros_enabled,
            final(self).next_alarm == old(self).next_alarm,
            ({
                let rec = old(self).app_alarms@[caller_id as int].unwrap();
                &&& final(self).app_alarms@ == old(self).app_alarms@.update(
                    caller_id as int,
                    Some(AlarmData { expiration: Expiration::Enabled { reference, dt }, ..rec }),
                )
                &&& final(self).num_armed == old(self).num_armed + (if rec.expiration is Enabled {
                    0int
                } else {
                    1int
                })
                &&& r.value() == GenericSyscallReturnValue::SuccessU32(spec_add32(reference, dt))
            }),
    {
        let n = self.app_alarms.len();
        let mut rec = self.app_alarms.read(caller_id);
        match rec.expiration {
            Expiration::Disabled => {
                proof {
                    lemma_count_armed_at(self.app_alarms@, caller_id as int);
                }
                self.num_armed = self.num_armed + 1;
            },
            Expiration::Enabled { .. } => {},
        }
        rec.expiration = Expiration::Enabled { reference, dt };
        self.app_alarms.put(caller_id, rec);
        proof {
            lemma_count_armed_update(old(self).app_alarms@, caller_id as int, Some(rec));
        }
        CommandResult::success_u32(add32(reference, dt))
    }

    /// Executes one numbered command for the calling client:
    /// 0 presence check; 1 tick frequency; 2 current low-32 tick count;
    /// 3 stop an outstanding alarm; 4 arm for an absolute target time;
    /// 5 arm relative to now; 6 arm with an explicit reference and offset.
    /// Commands 3 to 6 recompute and reprogram the hardware.
    pub fn command(&mut self, cmd_type: usize, data: usize, data2: usize, caller_id: usize) -> (r:
        CommandResult)
        requires
            old(self).wf(),
        ensures
            final(self).wf(),
            final(self).alarm.width == old(self).alarm.width,
            final(self).alarm.frequency_hz == old(self).alarm.frequency_hz,
            final(self).alarm.ticks == old(self).alarm.ticks,
            final(self).ros_enabled == old(self).ros_enabled,
            final(self).app_alarms@.len() == old(self).app_alarms@.len(),
            !old(self).has_process(caller_id) ==> *final(self) == *old(self) && r.value()
                == GenericSyscallReturnValue::Failure(ErrorCode::InvalidProcess),
            old(self).has_process(caller_id) ==> ({
                let s = old(self).app_alarms@;
                let rec = s[caller_id as int].unwrap();
                let now_low = spec_low32(old(self).alarm.ticks);
                &&& (cmd_type == 0 ==> *final(self) == *old(self) && r.value()
                    == GenericSyscallReturnValue::Success)
                &&& (cmd_type == 1 ==> *final(self) == *old(self) && r.value()
                    == GenericSyscallReturnValue::SuccessU32(old(self).alarm.frequency_hz))
                &&& (cmd_type == 2 ==> *final(self) == *old(self) && r.value()
                    == GenericSyscallReturnValue::SuccessU32(now_low))
                &&& (cmd_type == 3 && rec.expiration is Disabled ==> *final(self) == *old(self)
                    && r.value() == GenericSyscallReturnValue::Failure(ErrorCode::AlreadyDisabled))
                &&& (cmd_type == 3 && rec.expiration is Enabled ==> {
                    &&& final(self).app_alarms@ == s.update(
                        caller_id as int,
                        Some(AlarmData { expiration: Expiration::Disabled, ..rec }),
                    )
                    &&& final(self).num_armed == old(self).num_armed - 1
                    &&& r.value() == GenericSyscallReturnValue::Success
                    &&& selection_ok(*final(self))
                })
                &&& (cmd_type == 4 ==> spec_armed_after(
                    *old(self),
                    *final(self),
                    caller_id as int,
                    now_low,
                    spec_sub32(data as u32, now_low),
                ) && r.value() == GenericSyscallReturnValue::SuccessU32(data as u32))
                &&& (cmd_type == 5 ==> spec_armed_after(
                    *old(self),
                    *final(self),
                    caller_id as int,
                    now_low,
                    data as u32,
                ) && r.value() == GenericSyscallReturnValue::SuccessU32(
                    spec_add32(now_low, data as u32),
                ))
                &&& (cmd_type == 6 ==> spec_armed_after(
                    *old(self),
                    *final(self),
                    caller_id as int,
                    data as u32,
                    data2 as u32,
                ) && r.value() == GenericSyscallReturnValue::SuccessU32(
                    spec_add32(data as u32, data2 as u32),
                ))
                &&& (cmd_type > 6 ==> *final(self) == *old(self) && r.value()
                    == GenericSyscallReturnValue::Failure(ErrorCode::Unsupported))
            }),
    {
        if !self.app_alarms.is_live(caller_id) {
            return CommandResult::failure(ErrorCode::InvalidProcess);
        }
        let now_low = self.alarm.now_low();
        if cmd_type == 0 {
            return CommandResult::success();
        }
        if cmd_type == 1 {
            let freq = self.alarm.frequency();
            return CommandResult::success_u32(freq);
        }
        if cmd_type == 2 {
            return CommandResult::success_u32(now_low);
        }
        if cmd_type == 3 {
            let mut rec = self.app_alarms.read(caller_id);
            match rec.expiration {
                Expiration::Disabled => {
                    // A request to stop an already stopped alarm fails and
                    // changes nothing.
                    return CommandResult::failure(ErrorCode::AlreadyDisabled);
                },
                Expiration::Enabled { .. } => {
                    proof {
                        lemma_count_armed_at(self.app_alarms@, caller_id as int);
                    }
                    rec.expiration = Expiration::Disabled;
                    self.app_alarms.put(caller_id, rec);
                    proof {
                        lemma_count_armed_update(old(self).app_alarms@, caller_id as int, Some(rec));
                    }
                    self.num_armed = self.num_armed - 1;
                    self.reset_active_alarm();
                    return CommandResult::success();
                },
            }
        }
        if cmd_type == 4 {
            // The target time is absolute; the snapshot of now serves as the
            // reference, so the offset is the wrapping distance up to it.
            let target = #[verifier::truncate] (data as u32);
            let r = self.rearm(caller_id, now_low, sub32(target, now_low));
            self.reset_active_alarm();
            return r;
        }
        if cmd_type == 5 {
            let delta = #[verifier::truncate] (data as u32);
            let r = self.rearm(caller_id, now_low, delta);
            self.reset_active_alarm();
            return r;
        }
        if cmd_type == 6 {
            let reference = #[verifier::truncate] (data as u32);
            let delta = #[verifier::truncate] (data2 as u32);
            let r = self.rearm(caller_id, reference, delta);
            self.reset_active_alarm();
            return r;
        }
        CommandResult::failure(ErrorCode::Unsupported)
    }
}

/// The state change of a successful arm request: the caller's record holds
/// the new expiration, a previously disarmed caller is counted, nothing else
/// moves, and the hardware selection has been recomputed.
pub open spec fn spec_armed_after(
    pre: AlarmDriver,
    post: AlarmDriver,
    caller_id: int,
    reference: u32,
    dt: u32,
) -> bool {
    let rec = pre.app_alarms@[caller_id].unwrap();
    &&& post.app_alarms@ == pre.app_alarms@.update(
        caller_id,
        Some(AlarmData { expiration: Expiration::Enabled { reference, dt }, ..rec }),
    )
    &&& post.num_armed == pre.num_armed + (if rec.expiration is Enabled {
        0int
    } else {
        1int
    })
    &&& post.ros_enabled == pre.ros_enabled
    &&& post.alarm.width == pre.alarm.width
    &&& post.alarm.frequency_hz == pre.alarm.frequency_hz
    &&& post.alarm.ticks == pre.alarm.ticks
    &&& selection_ok(post)
}

/// Whether a sweep at `now_low` clears this record: it is armed and its
/// interval no longer contains `now_low`, so the alarm has genuinely
/// elapsed.  An armed record still inside its interval is a spurious wake
/// for that client and is left untouched.
pub open spec fn rec_swept(r: Option<AlarmData>, now_low: u32) -> bool {
    rec_armed(r) && !rec_pending(r, now_low)
}

/// The notifications one sweep dispatches: for every swept record, in slot
/// order, the counter at sweep time, the scheduled fire time, and zero.
pub open spec fn spec_sweep_notifications(s: Seq<Option<AlarmData>>, now_low: u32) -> Seq<
    Notification,
>
    decreases s.len(),
{
    if s.len() == 0 {
        Seq::empty()
    } else {
        let prefix = spec_sweep_notifications(s.drop_last(), now_low);
        if rec_swept(s.last(), now_low) {
            prefix.push(
                Notification {
                    process_id: (s.len() - 1) as usize,
                    callback: s.last().unwrap().callback,
                    now: now_low,
                    expiration: rec_end(s.last()),
                    reserved: 0,
                },
            )
        } else {
            prefix
        }
    }
}

impl AlarmDriver {
    /// The hardware expiration interrupt handler: sweeps every record,
    /// disarming each client whose interval has genuinely elapsed and
    /// collecting the notification owed to it, then recomputes and
    /// reprograms the hardware (or disarms it when nobody is left).
    ///
    /// Several clients may be notified from one interrupt; their order in
    /// the result carries no meaning, since delivery is scheduled outside
    /// the engine.
    pub fn alarm(&mut self) -> (notifications: Vec<Notification>)
        requires
            old(self).wf(),
        ensures
            final(self).wf(),
            final(self).alarm.width == old(self).alarm.width,
            final(self).alarm.frequency_hz == old(self).alarm.frequency_hz,
            final(self).alarm.ticks == old(self).alarm.ticks,
            final(self).ros_enabled == old(self).ros_enabled,
            final(self).app_alarms@.len() == old(self).app_alarms@.len(),
            ({
                let s = old(self).app_alarms@;
                let now_low = spec_low32(old(self).alarm.ticks);
                &&& (forall|j: int|
                    0 <= j < s.len() ==> final(self).app_alarms@[j] == (if rec_swept(
                        s[j],
                        now_low,
                    ) {
                        Some(AlarmData { expiration: Expiration::Disabled, ..s[j].unwrap() })
                    } else {
                        s[j]
                    }))
                &&& notifications@ == spec_sweep_notifications(s, now_low)
            }),
            !any_armed(final(self).app_alarms@) ==> final(self).alarm.setpoint is None,
            any_armed(final(self).app_alarms@) ==> selection_ok(*final(self)),
    {
        let ghost s0 = self.app_alarms@;
        let now_low = self.alarm.now_low();
        let n = self.app_alarms.len();
        let mut notifications: Vec<Notification> = Vec::new();
        proof {
            assert(notifications@ =~= spec_sweep_notifications(s0.take(0), now_low));
        }
        let mut i: usize = 0;
        while i < n
            invariant
                i <= n,
                self.counts_ok(),
                self.alarm == old(self).alarm,
                self.next_alarm == old(self).next_alarm,
                self.ros_enabled == old(self).ros_enabled,
                n == s0.len(),
                n == self.app_alarms@.len(),
                now_low == spec_low32(self.alarm.ticks),
                forall|j: int|
                    0 <= j < i ==> self.app_alarms@[j] == (if rec_swept(s0[j], now_low) {
                        Some(AlarmData { expiration: Expiration::Disabled, ..s0[j].unwrap() })
                    } else {
                        s0[j]
                    }),
                forall|j: int| i <= j < n ==> self.app_alarms@[j] == s0[j],
                notifications@ == spec_sweep_notifications(s0.take(i as int), now_low),
            decreases n - i,
        {
            if self.app_alarms.is_live(i) {
                let mut rec = self.app_alarms.read(i);
                match rec.expiration {
                    Expiration::Enabled { reference, dt } => {
                        let end = add32(reference, dt);
                        if !within_range32(now_low, reference, end) {
                            // Genuinely elapsed: disarm the client and owe it
                            // a notification.
                            let ghost s_cur = self.app_alarms@;
                            proof {
                                lemma_count_armed_at(s_cur, i as int);
                            }
                            rec.expiration = Expiration::Disabled;
                            self.app_alarms.put(i, rec);
                            proof {
                                lemma_count_armed_update(s_cur, i as int, Some(rec));
                            }
                            self.num_armed = self.num_armed - 1;
                            notifications.push(
                                Notification {
                                    process_id: i,
                                    callback: rec.callback,
                                    now: now_low,
                                    expiration: end,
                                    reserved: 0,
                                },
                            );
                        }
                    },
                    Expiration::Disabled => {},
                }
            }
            i += 1;
            proof {
                assert(s0.take(i as int).drop_last() =~= s0.take(i - 1));
            }
        }
        proof {
            assert(s0.take(n as int) =~= s0);
        }
        // With nobody left armed, skip the scan and just disable; otherwise
        // find the next alarm and reprogram the hardware.
        if self.num_armed == 0 {
            proof {
                lemma_count_armed_zero(self.app_alarms@);
            }
            self.alarm.disarm();
        } else {
            proof {
                lemma_count_armed_zero(self.app_alarms@);
            }
            self.reset_active_alarm();
        }
        notifications
    }

    /// Publishes the current tick count into the caller's shared snapshot
    /// region: the per-client publish counter followed by the full-width
    /// tick count, little-endian.  The returned bytes are what belongs at
    /// the start of the client's region; nothing is owed when the identity
    /// is not live or the region is shorter than the twelve bytes needed.
    /// Running at all enables the snapshot mechanism for `allow_readwrite`.
    pub fn update_values(&mut self, process_id: usize) -> (r: Option<Vec<u8>>)
        requires
            old(self).wf(),
        ensures
            final(self).wf(),
            final(self).ros_enabled,
            final(self).alarm == old(self).alarm,
            final(self).num_armed == old(self).num_armed,
            final(self).next_alarm == old(self).next_alarm,
            !old(self).has_process(process_id) ==> final(self).app_alarms@ == old(
                self,
            ).app_alarms@ && r is None,
            old(self).has_process(process_id) ==> ({
                let rec = old(self).app_alarms@[process_id as int].unwrap();
                &&& final(self).app_alarms@ == old(self).app_alarms@.update(
                    process_id as int,
                    Some(AlarmData { ros_count: spec_add32(rec.ros_count, 1), ..rec }),
                )
                &&& (rec.ros_region.len >= 12 ==> r is Some && r.unwrap()@ == spec_le32(
                    rec.ros_count,
                ) + spec_le64(old(self).alarm.ticks))
                &&& (rec.ros_region.len < 12 ==> r is None)
            }),
    {
        // Mark the snapshot mechanism enabled.
        self.ros_enabled = true;
        if !self.app_alarms.is_live(process_id) {
            return None;
        }
        let mut rec = self.app_alarms.read(process_id);
        let count = rec.ros_count;
        let result = if rec.ros_region.len >= 12 {
            let now = self.alarm.now();
            let mut bytes = u32_le_bytes(count);
            let mut tail = u64_le_bytes(now);
            bytes.append(&mut tail);
            Some(bytes)
        } else {
            None
        };
        rec.ros_count = add32(count, 1);
        self.app_alarms.put(process_id, rec);
        proof {
            lemma_count_armed_update(old(self).app_alarms@, process_id as int, Some(rec));
        }
        result
    }
}

impl AlarmDriver {
    /// The expiration currently stored for a client, or nothing when the
    /// identity does not resolve to a live record.
    pub fn current_expiration(&self, process_id: usize) -> (r: Option<Expiration>)
        ensures
            self.has_process(process_id) ==> r == Some(
                self.app_alarms@[process_id as int].unwrap().expiration,
            ),
            !self.has_process(process_id) ==> r is None,
    {
        if !self.app_alarms.is_live(process_id) {
            return None;
        }
        let rec = self.app_alarms.read(process_id);
        Some(rec.expiration)
    }
}

/// At all times, `num_armed` equals the number of records whose expiration
/// is enabled.
pub proof fn law_armed_count(d: AlarmDriver)
    requires
        d.wf(),
    ensures
        d.num_armed == count_armed(d.app_alarms@),
{
}

/// At all times, the hardware is disarmed while no client is armed, and
/// armed while some client is.
pub proof fn law_hardware_mirrors_clients(d: AlarmDriver)
    requires
        d.wf(),
    ensures
        !any_armed(d.app_alarms@) ==> d.alarm.setpoint is None,
        any_armed(d.app_alarms@) ==> d.alarm.setpoint is Some,
{
    lemma_count_armed_zero(d.app_alarms@);
}

/// After a recompute, while every armed client is still pending and no two
/// armed offsets together reach a full wrap, the hardware fires at or
/// before the true earliest expiration among all armed clients.
///
/// Once some armed client has already elapsed, the engine only promises a
/// prompt fire for it through the next sweep, not which record the
/// hardware carries; `selection_ok` says exactly that.
pub proof fn law_earliest_programmed(d: AlarmDriver, j: int)
    requires
        d.wf(),
        selection_ok(d),
        all_pending_separated(d.app_alarms@, spec_low32(d.alarm.ticks)),
        0 <= j < d.app_alarms@.len(),
        rec_armed(d.app_alarms@[j]),
    ensures
        d.alarm.setpoint is Some,
        hw_remaining(d.alarm) <= rec_remaining(d.app_alarms@[j], spec_low32(d.alarm.ticks)),
{
    assert(any_armed(d.app_alarms@));
    lemma_count_armed_zero(d.app_alarms@);
}

impl Driver for AlarmDriver {
    open spec fn inv(&self) -> bool {
        self.wf()
    }

    fn subscribe(&mut self, which: usize, callback: Upcall, app_id: usize) -> (r: Result<
        Upcall,
        (Upcall, ErrorCode),
    >) {
        AlarmDriver::subscribe(self, which, callback, app_id)
    }

    fn command(&mut self, which: usize, r2: usize, r3: usize, caller_id: usize) -> (r:
        CommandResult) {
        AlarmDriver::command(self, which, r2, r3, caller_id)
    }

    fn allow_readwrite(&mut self, app: usize, which: usize, slice: ReadWriteAppSlice) -> (r: Result<
        ReadWriteAppSlice,
        (ReadWriteAppSlice, ErrorCode),
    >) {
        AlarmDriver::allow_readwrite(self, app, which, slice)
    }

    /// No read-only regions are used.
    fn allow_readonly(&mut self, _app: usize, _which: usize, slice: ReadOnlyAppSlice) -> (r: Result<
        ReadOnlyAppSlice,
        (ReadOnlyAppSlice, ErrorCode),
    >) {
        Err((slice, ErrorCode::Unsupported))
    }
}

} // verus!
