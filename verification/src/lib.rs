//! A verified alarm multiplexing engine for a small embedded kernel.
//!
//! One hardware countdown timer is shared among many client processes, each
//! of which may keep a single one-shot expiration pending.  The engine tracks
//! one request per client, selects the next point in time the hardware must
//! fire, reconstructs full-width timestamps from 32-bit client snapshots, and
//! sweeps genuinely elapsed clients on every hardware interrupt, all under
//! wraparound (modulo 2^32, or 2^64 for a wide counter) arithmetic.

pub mod alarm;
pub mod console;
pub mod driver;
pub mod grant;
pub mod mem;
pub mod mlx90614;
pub mod ros;
pub mod time;
