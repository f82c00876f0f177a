//! Wraparound tick arithmetic and the model of the hardware alarm peripheral.
//!
//! Clients exchange 32-bit tick values with the engine, while the hardware
//! counter itself may be 32 or 64 bits wide.  All comparisons on tick values
//! are circular: a point lies "within" an interval when its distance from the
//! interval's start, measured forward with wraparound, is smaller than the
//! interval's length.

use vstd::prelude::*;

verus! {

/// Bit width of the hardware tick counter.
#[derive(Clone, Copy, PartialEq, Eq, Structural, Debug)]
pub enum TimerWidth {
    Bits32,
    Bits64,
}

/// Number of distinct counter values for a given width.
pub open spec fn ticks_modulus(w: TimerWidth) -> int {
    match w {
        TimerWidth::Bits32 => 0x1_0000_0000,
        TimerWidth::Bits64 => 0x1_0000_0000_0000_0000,
    }
}

/// `a + b` modulo the counter range (meaningful when `a` and `b` are in range).
pub open spec fn spec_tadd(w: TimerWidth, a: u64, b: u64) -> u64 {
    if a + b < ticks_modulus(w) {
        (a + b) as u64
    } else {
        (a + b - ticks_modulus(w)) as u64
    }
}

/// `a - b` modulo the counter range (meaningful when `a` and `b` are in range).
pub open spec fn spec_tsub(w: TimerWidth, a: u64, b: u64) -> u64 {
    if a >= b {
        (a - b) as u64
    } else {
        (a - b + ticks_modulus(w)) as u64
    }
}

/// Circular interval containment at hardware width: `x` lies in the interval
/// that starts at `lo` and ends just before `hi`, wrapping at the counter range.
pub open spec fn spec_in_range(w: TimerWidth, x: u64, lo: u64, hi: u64) -> bool {
    spec_tsub(w, x, lo) < spec_tsub(w, hi, lo)
}

/// `a + b` modulo 2^32, the arithmetic of the 32-bit client time domain.
pub open spec fn spec_add32(a: u32, b: u32) -> u32 {
    if a + b < 0x1_0000_0000 {
        (a + b) as u32
    } else {
        (a + b - 0x1_0000_0000) as u32
    }
}

/// `a - b` modulo 2^32.
pub open spec fn spec_sub32(a: u32, b: u32) -> u32 {
    if a >= b {
        (a - b) as u32
    } else {
        (a - b + 0x1_0000_0000) as u32
    }
}

/// Circular interval containment in the 32-bit client time domain.
pub open spec fn spec_in_range32(x: u32, lo: u32, hi: u32) -> bool {
    spec_sub32(x, lo) < spec_sub32(hi, lo)
}

/// Low 32 bits of a full-width counter value.
pub open spec fn spec_low32(x: u64) -> u32 {
    (x as int % 0x1_0000_0000) as u32
}

pub fn ticks_add(w: TimerWidth, a: u64, b: u64) -> (r: u64)
    requires
        a < ticks_modulus(w),
        b < ticks_modulus(w),
    ensures
        r == spec_tadd(w, a, b),
        r < ticks_modulus(w),
{
    match w {
        TimerWidth::Bits32 => {
            let s: u64 = a + b;
            if s < 0x1_0000_0000 {
                s
            } else {
                s - 0x1_0000_0000
            }
        },
        TimerWidth::Bits64 => a.wrapping_add(b),
    }
}

pub fn ticks_sub(w: TimerWidth, a: u64, b: u64) -> (r: u64)
    requires
        a < ticks_modulus(w),
        b < ticks_modulus(w),
    ensures
        r == spec_tsub(w, a, b),
        r < ticks_modulus(w),
{
    match w {
        TimerWidth::Bits32 => {
            if a >= b {
                a - b
            } else {
                a + 0x1_0000_0000 - b
            }
        },
        TimerWidth::Bits64 => a.wrapping_sub(b),
    }
}

/// Circular containment test at hardware width.
pub fn ticks_within_range(w: TimerWidth, x: u64, lo: u64, hi: u64) -> (r: bool)
    requires
        x < ticks_modulus(w),
        lo < ticks_modulus(w),
        hi < ticks_modulus(w),
    ensures
        r == spec_in_range(w, x, lo, hi),
{
    ticks_sub(w, x, lo) < ticks_sub(w, hi, lo)
}

pub fn add32(a: u32, b: u32) -> (r: u32)
    ensures
        r == spec_add32(a, b),
{
    a.wrapping_add(b)
}

pub fn sub32(a: u32, b: u32) -> (r: u32)
    ensures
        r == spec_sub32(a, b),
{
    a.wrapping_sub(b)
}

/// Circular containment test in the 32-bit client time domain.
pub fn within_range32(x: u32, lo: u32, hi: u32) -> (r: bool)
    ensures
        r == spec_in_range32(x, lo, hi),
{
    sub32(x, lo) < sub32(hi, lo)
}

/// Full-width reconstruction of a 32-bit reference timestamp.
///
/// `reference` was the low 32 bits of the counter at some moment no more
/// than 2^32 ticks before `now`.  The reconstruction keeps the high bits of
/// `now`, stepping one 32-bit epoch back when the low bits have wrapped past
/// `reference` (that is, when `reference` is numerically greater than the
/// low bits of `now`).
pub open spec fn spec_extend_reference(w: TimerWidth, now: u64, reference: u32) -> u64 {
    let now_low = spec_low32(now) as u64;
    let high_bits = spec_tsub(w, now, now_low);
    let bit33 = spec_tadd(w, 0xFFFF_FFFFu64, 1u64);
    let adjusted = if now_low < reference {
        spec_tsub(w, high_bits, bit33)
    } else {
        high_bits
    };
    spec_tadd(w, adjusted, reference as u64)
}

/// The reconstructed reference keeps the requested low 32 bits and lies at
/// most one 32-bit epoch in the counter's past.
pub proof fn lemma_extend_reference(w: TimerWidth, now: u64, reference: u32)
    requires
        now < ticks_modulus(w),
    ensures
        spec_extend_reference(w, now, reference) < ticks_modulus(w),
        spec_low32(spec_extend_reference(w, now, reference)) == reference,
        spec_tsub(w, now, spec_extend_reference(w, now, reference)) == spec_sub32(
            spec_low32(now),
            reference,
        ),
{
    let m = ticks_modulus(w);
    let l: int = 0x1_0000_0000;
    let nl = now as int % l;
    let q = now as int / l;
    vstd::arithmetic::div_mod::lemma_fundamental_div_mod(now as int, l);
    vstd::arithmetic::div_mod::lemma_mod_bound(now as int, l);
    vstd::arithmetic::div_mod::lemma_small_mod(reference as nat, l as nat);
    let r = spec_extend_reference(w, now, reference);
    match w {
        TimerWidth::Bits32 => {
            assert(q == 0) by {
                if q >= 1 {
                    assert(q * l >= 1 * l) by (nonlinear_arith)
                        requires
                            q >= 1,
                            l > 0,
                    ;
                }
                if q <= -1 {
                    assert(q * l <= (-1) * l) by (nonlinear_arith)
                        requires
                            q <= -1,
                            l > 0,
                    ;
                }
            }
            assert(r == reference);
        },
        TimerWidth::Bits64 => {
            assert(q >= 0 && q * l == now - nl) by {
                if q <= -1 {
                    assert(q * l <= (-1) * l) by (nonlinear_arith)
                        requires
                            q <= -1,
                            l > 0,
                    ;
                }
            }
            if reference as int <= nl {
                assert(r == q * l + reference);
                vstd::arithmetic::div_mod::lemma_mod_multiples_vanish(q, reference as int, l);
            } else {
                if q >= 1 {
                    assert(q * l >= 1 * l) by (nonlinear_arith)
                        requires
                            q >= 1,
                            l > 0,
                    ;
                    assert(r == (q - 1) * l + reference);
                    vstd::arithmetic::div_mod::lemma_mod_multiples_vanish(
                        q - 1,
                        reference as int,
                        l,
                    );
                } else {
                    assert(q == 0 && now == nl);
                    assert(r == m - l + reference);
                    assert(m - l == 0xFFFF_FFFFint * l);
                    vstd::arithmetic::div_mod::lemma_mod_multiples_vanish(
                        0xFFFF_FFFF,
                        reference as int,
                        l,
                    );
                }
            }
        },
    }
}

/// Executable counterpart of [`spec_extend_reference`].
pub fn extend_reference(w: TimerWidth, now: u64, reference: u32) -> (r: u64)
    requires
        now < ticks_modulus(w),
    ensures
        r == spec_extend_reference(w, now, reference),
        r < ticks_modulus(w),
        spec_low32(r) == reference,
        spec_tsub(w, now, r) == spec_sub32(spec_low32(now), reference),
{
    proof {
        lemma_extend_reference(w, now, reference);
    }
    let now_low = (now % 0x1_0000_0000) as u32;
    let now_lower_bits: u64 = now_low as u64;
    let mut high_bits = ticks_sub(w, now, now_lower_bits);
    if now_low < reference {
        // The low bits have wrapped since the reference was taken, so its
        // true high bits are one 32-bit epoch lower.
        let bit33 = ticks_add(w, 0xFFFF_FFFF, 1);
        high_bits = ticks_sub(w, high_bits, bit33);
    }
    ticks_add(w, high_bits, reference as u64)
}

/// The hardware alarm peripheral, modelled as plain state.
///
/// The real peripheral is a monotonically increasing counter of fixed width
/// together with a single compare register.  The surrounding system advances
/// `ticks` and raises the expiration interrupt; both are outside this
/// library, so the counter value is set explicitly through `set_now` and the
/// interrupt arrives as a call to the engine's sweep entry point.
pub struct HardwareTimer {
    /// Counter width; always in range of the width's modulus.
    pub width: TimerWidth,
    /// Tick frequency in Hz.
    pub frequency_hz: u32,
    /// Current counter value.
    pub ticks: u64,
    /// The programmed setpoint, if any: the alarm fires once the counter
    /// passes `reference + dt` (with wraparound).
    pub setpoint: Option<TimerSetpoint>,
}

/// A programmed hardware alarm: fire when the counter passes `reference + dt`.
#[derive(Clone, Copy, PartialEq, Eq, Structural, Debug)]
pub struct TimerSetpoint {
    pub reference: u64,
    pub dt: u64,
}

impl HardwareTimer {
    /// All stored counter values lie below the width's modulus.
    pub open spec fn wf(self) -> bool {
        &&& self.ticks < ticks_modulus(self.width)
        &&& match self.setpoint {
            Some(sp) => sp.reference < ticks_modulus(self.width) && sp.dt < ticks_modulus(
                self.width,
            ),
            None => true,
        }
    }

    pub fn new(width: TimerWidth, frequency_hz: u32) -> (t: HardwareTimer)
        ensures
            t.wf(),
            t.width == width,
            t.frequency_hz == frequency_hz,
            t.ticks == 0,
            t.setpoint is None,
    {
        HardwareTimer { width, frequency_hz, ticks: 0, setpoint: None }
    }

    pub fn now(&self) -> (r: u64)
        ensures
            r == self.ticks,
    {
        self.ticks
    }

    /// Low 32 bits of the current counter value.
    pub fn now_low(&self) -> (r: u32)
        requires
            self.wf(),
        ensures
            r == spec_low32(self.ticks),
            self.width == TimerWidth::Bits32 ==> r == self.ticks,
    {
        (self.ticks % 0x1_0000_0000) as u32
    }

    pub fn frequency(&self) -> (r: u32)
        ensures
            r == self.frequency_hz,
    {
        self.frequency_hz
    }

    pub fn set_alarm(&mut self, reference: u64, dt: u64)
        requires
            old(self).wf(),
            reference < ticks_modulus(old(self).width),
            dt < ticks_modulus(old(self).width),
        ensures
            final(self).wf(),
            final(self).width == old(self).width,
            final(self).frequency_hz == old(self).frequency_hz,
            final(self).ticks == old(self).ticks,
            final(self).setpoint == Some(TimerSetpoint { reference, dt }),
    {
        self.setpoint = Some(TimerSetpoint { reference, dt });
    }

    pub fn disarm(&mut self)
        requires
            old(self).wf(),
        ensures
            final(self).wf(),
            final(self).width == old(self).width,
            final(self).frequency_hz == old(self).frequency_hz,
            final(self).ticks == old(self).ticks,
            final(self).setpoint is None,
    {
        self.setpoint = None;
    }

    /// Model hook standing for the passage of time: the counter has advanced
    /// (with wraparound) to `t` since it was last observed.
    pub fn set_now(&mut self, t: u64)
        requires
            old(self).wf(),
            t < ticks_modulus(old(self).width),
        ensures
            final(self).wf(),
            final(self).width == old(self).width,
            final(self).frequency_hz == old(self).frequency_hz,
            final(self).ticks == t,
            final(self).setpoint == old(self).setpoint,
    {
        self.ticks = t;
    }
}

} // verus!
