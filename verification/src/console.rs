//! Provides processes with access to a serial interface.
//!
//! The wire itself is outside this library: starting a transfer yields the
//! [`UartRequest`] the surrounding kernel must hand to the serial device,
//! and the device's completion interrupts arrive as calls to
//! [`Console::transmitted_buffer`] and [`Console::received_buffer`].  The
//! console owns one kernel transmit buffer and one kernel receive buffer,
//! each lent to the device for the duration of a transfer; writes from
//! other processes meanwhile queue as pending and are resumed in slot
//! order when the buffer returns.

use crate::driver::{CommandResult, ErrorCode, ReturnCode, Upcall};
use crate::grant::Grant;
use crate::mem::{ReadOnlyAppSlice, ReadWriteAppSlice};
use vstd::prelude::*;

verus! {

/// Per-process console state.
#[derive(Clone, Copy, PartialEq, Eq, Structural, Debug)]
pub struct App {
    pub write_callback: Upcall,
    pub write_buffer: ReadOnlyAppSlice,
    pub write_len: usize,
    /// How many bytes did not fit in the kernel buffer yet and still need
    /// to be put on the wire.
    pub write_remaining: usize,
    pub pending_write: bool,
    pub read_callback: Upcall,
    pub read_buffer: ReadWriteAppSlice,
    pub read_len: usize,
}

impl Default for App {
    fn default() -> (r: App)
        ensures
            r.write_callback.id == 0 && r.read_callback.id == 0,
            r.write_buffer.len == 0 && r.read_buffer.len == 0,
            r.write_len == 0 && r.write_remaining == 0 && r.read_len == 0,
            !r.pending_write,
    {
        App {
            write_callback: Upcall { id: 0 },
            write_buffer: ReadOnlyAppSlice { len: 0 },
            write_len: 0,
            write_remaining: 0,
            pending_write: false,
            read_callback: Upcall { id: 0 },
            read_buffer: ReadWriteAppSlice { len: 0 },
            read_len: 0,
        }
    }
}

/// A transfer the kernel must hand to the serial device.
#[derive(Clone, Copy, PartialEq, Eq, Structural, Debug)]
pub enum UartRequest {
    /// Put `len` bytes of the process's write buffer, starting at
    /// `offset`, on the wire through the kernel transmit buffer.
    Transmit { app_id: usize, offset: usize, len: usize },
    /// Read up to `len` bytes into the kernel receive buffer.
    Receive { len: usize },
    /// Cancel an in-progress receive; what arrived is reported through the
    /// receive completion.
    AbortReceive,
}

/// How the serial device reports a finished receive.
#[derive(Clone, Copy, PartialEq, Eq, Structural, Debug)]
pub enum UartError {
    NoError,
    Aborted,
    Overrun,
    Parity,
    Framing,
}

/// A write-completion notification owed to a process.
#[derive(Clone, Copy, PartialEq, Eq, Structural, Debug)]
pub struct WriteComplete {
    pub target: Upcall,
    pub written: usize,
}

/// A read-completion notification owed to a process.
#[derive(Clone, Copy, PartialEq, Eq, Structural, Debug)]
pub struct ReadComplete {
    pub target: Upcall,
    pub status: ReturnCode,
    pub length: usize,
}

pub open spec fn spec_min(a: usize, b: usize) -> usize {
    if a <= b {
        a
    } else {
        b
    }
}

fn min_usize(a: usize, b: usize) -> (r: usize)
    ensures
        r == spec_min(a, b),
{
    if a <= b {
        a
    } else {
        b
    }
}

/// A record with its queued-write mark cleared; anything else unchanged.
pub open spec fn clear_pending(r: Option<App>) -> Option<App> {
    match r {
        Some(a) => Some(App { pending_write: false, ..a }),
        None => None,
    }
}

/// The first slot from `i` on whose process has a queued write with bytes
/// left to send.
pub open spec fn first_pending(s: Seq<Option<App>>, i: int) -> Option<int>
    decreases s.len() - i,
{
    if i < 0 || i >= s.len() {
        None
    } else if s[i] is Some && s[i].unwrap().pending_write && s[i].unwrap().write_remaining > 0 {
        Some(i)
    } else {
        first_pending(s, i + 1)
    }
}

/// The console driver.
pub struct Console {
    pub apps: Grant<App>,
    /// Which process's write currently owns the transmit buffer.
    pub tx_in_progress: Option<usize>,
    /// Capacity of the kernel transmit buffer.
    pub tx_buffer_len: usize,
    /// Whether the console still holds the transmit buffer.
    pub tx_buffer_held: bool,
    pub rx_in_progress: Option<usize>,
    pub rx_buffer_len: usize,
    pub rx_buffer_held: bool,
}

/// What starting the next queued write establishes, given the store `s1`
/// the scan ran over: every earlier slot has its queued-write mark cleared,
/// and the first queued writer with bytes left — if any — owns the
/// transmit buffer and its transfer has been handed out.
pub open spec fn spec_scan_ok(
    s1: Seq<Option<App>>,
    tx_buffer_len: usize,
    post_apps: Seq<Option<App>>,
    post_tx: Option<usize>,
    post_held: bool,
    request: Option<UartRequest>,
) -> bool {
    let fp = first_pending(s1, 0);
    &&& post_apps.len() == s1.len()
    &&& match fp {
        None => {
            &&& (forall|j: int| 0 <= j < s1.len() ==> post_apps[j] == clear_pending(s1[j]))
            &&& post_tx is None
            &&& post_held
            &&& request is None
        },
        Some(k) => {
            let rec = s1[k].unwrap();
            let rem = spec_min(rec.write_remaining, rec.write_buffer.len);
            let tlen = spec_min(rem, tx_buffer_len);
            &&& (forall|j: int|
                0 <= j < s1.len() && j != k ==> post_apps[j] == (if j < k {
                    clear_pending(s1[j])
                } else {
                    s1[j]
                }))
            &&& post_apps[k] == Some(
                App {
                    pending_write: false,
                    write_remaining: (rec.write_remaining - tlen) as usize,
                    ..rec
                },
            )
            &&& post_tx == Some(k as usize)
            &&& !post_held
            &&& request == Some(
                UartRequest::Transmit {
                    app_id: k as usize,
                    offset: (rec.write_buffer.len - rem) as usize,
                    len: tlen,
                },
            )
        },
    }
}

impl Console {
    /// Each kernel buffer is lent out exactly while a transfer of its
    /// direction is in progress.
    pub open spec fn wf(self) -> bool {
        &&& (self.tx_in_progress is Some <==> !self.tx_buffer_held)
        &&& (self.rx_in_progress is Some <==> !self.rx_buffer_held)
    }

    /// Takes the kernel transmit and receive buffers (by their capacity)
    /// and the per-process store.
    pub fn new(tx_buffer_len: usize, rx_buffer_len: usize, grant: Grant<App>) -> (c: Console)
        ensures
            c.wf(),
            c.apps@ == grant@,
            c.tx_in_progress is None && c.rx_in_progress is None,
            c.tx_buffer_held && c.rx_buffer_held,
            c.tx_buffer_len == tx_buffer_len,
            c.rx_buffer_len == rx_buffer_len,
    {
        Console {
            apps: grant,
            tx_in_progress: None,
            tx_buffer_len,
            tx_buffer_held: true,
            rx_in_progress: None,
            rx_buffer_len,
            rx_buffer_held: true,
        }
    }

    /// Whether `id` resolves to a live record.
    pub open spec fn has_process(self, id: usize) -> bool {
        id < self.apps@.len() && self.apps@[id as int] is Some
    }

    /// Sends data for an existing transaction.  Cannot fail: while the
    /// transmit buffer is lent out, the write is queued for later.  A write
    /// buffer swapped mid-transaction may be shorter than what remains to
    /// send; the transfer is clipped to it.
    fn send(&mut self, app_id: usize) -> (request: Option<UartRequest>)
        requires
            old(self).wf(),
            old(self).has_process(app_id),
        ensures
            final(self).wf(),
            final(self).apps@.len() == old(self).apps@.len(),
            final(self).tx_buffer_len == old(self).tx_buffer_len,
            final(self).rx_in_progress == old(self).rx_in_progress,
            final(self).rx_buffer_held == old(self).rx_buffer_held,
            final(self).rx_buffer_len == old(self).rx_buffer_len,
            old(self).tx_in_progress is Some ==> {
                let rec = old(self).apps@[app_id as int].unwrap();
                &&& final(self).tx_in_progress == old(self).tx_in_progress
                &&& final(self).tx_buffer_held == old(self).tx_buffer_held
                &&& final(self).apps@ == old(self).apps@.update(
                    app_id as int,
                    Some(App { pending_write: true, ..rec }),
                )
                &&& request is None
            },
            old(self).tx_in_progress is None ==> {
                let rec = old(self).apps@[app_id as int].unwrap();
                let rem = spec_min(rec.write_remaining, rec.write_buffer.len);
                let tlen = spec_min(rem, old(self).tx_buffer_len);
                &&& final(self).tx_in_progress == Some(app_id)
                &&& !final(self).tx_buffer_held
                &&& final(self).apps@ == old(self).apps@.update(
                    app_id as int,
                    Some(App { write_remaining: (rec.write_remaining - tlen) as usize, ..rec }),
                )
                &&& request == Some(
                    UartRequest::Transmit {
                        app_id,
                        offset: (rec.write_buffer.len - rem) as usize,
                        len: tlen,
                    },
                )
            },
    {
        let mut rec = self.apps.read(app_id);
        match self.tx_in_progress {
            Option::None => {
                self.tx_in_progress = Some(app_id);
                self.tx_buffer_held = false;
                let rem = min_usize(rec.write_remaining, rec.write_buffer.len);
                let transaction_len = min_usize(rem, self.tx_buffer_len);
                let offset = rec.write_buffer.len - rem;
                rec.write_remaining = rec.write_remaining - transaction_len;
                self.apps.put(app_id, rec);
                Some(UartRequest::Transmit { app_id, offset, len: transaction_len })
            },
            Option::Some(_) => {
                rec.pending_write = true;
                self.apps.put(app_id, rec);
                None
            },
        }
    }

    /// Sets up a new write of up to `len` bytes of the process's write
    /// buffer and sends what fits.
    pub fn send_new(&mut self, app_id: usize, len: usize) -> (r: (ReturnCode, Option<UartRequest>))
        requires
            old(self).wf(),
            old(self).has_process(app_id),
        ensures
            final(self).wf(),
            final(self).apps@.len() == old(self).apps@.len(),
            final(self).tx_buffer_len == old(self).tx_buffer_len,
            final(self).rx_in_progress == old(self).rx_in_progress,
            final(self).rx_buffer_held == old(self).rx_buffer_held,
            final(self).rx_buffer_len == old(self).rx_buffer_len,
            r.0 == ReturnCode::Success,
            ({
                let rec = old(self).apps@[app_id as int].unwrap();
                let wl = spec_min(len, rec.write_buffer.len);
                &&& (old(self).tx_in_progress is Some ==> {
                    &&& final(self).tx_in_progress == old(self).tx_in_progress
                    &&& final(self).tx_buffer_held == old(self).tx_buffer_held
                    &&& final(self).apps@ == old(self).apps@.update(
                        app_id as int,
                        Some(
                            App {
                                write_len: wl,
                                write_remaining: wl,
                                pending_write: true,
                                ..rec
                            },
                        ),
                    )
                    &&& r.1 is None
                })
                &&& (old(self).tx_in_progress is None ==> {
                    let tlen = spec_min(wl, old(self).tx_buffer_len);
                    &&& final(self).tx_in_progress == Some(app_id)
                    &&& !final(self).tx_buffer_held
                    &&& final(self).apps@ == old(self).apps@.update(
                        app_id as int,
                        Some(
                            App {
                                write_len: wl,
                                write_remaining: (wl - tlen) as usize,
                                ..rec
                            },
                        ),
                    )
                    &&& r.1 == Some(
                        UartRequest::Transmit {
                            app_id,
                            offset: (rec.write_buffer.len - wl) as usize,
                            len: tlen,
                        },
                    )
                })
            }),
    {
        let mut rec = self.apps.read(app_id);
        rec.write_len = min_usize(len, rec.write_buffer.len);
        rec.write_remaining = rec.write_len;
        self.apps.put(app_id, rec);
        let request = self.send(app_id);
        proof {
            assert(final(self).apps@ =~= old(self).apps@.update(
                app_id as int,
                final(self).apps@[app_id as int],
            ));
        }
        (ReturnCode::Success, request)
    }

    /// Continues a previously set up write.  Returns whether the write is
    /// still active, and the transfer handed out if one was started.
    fn send_continue(&mut self, app_id: usize) -> (r: (bool, Option<UartRequest>))
        requires
            old(self).wf(),
            old(self).has_process(app_id),
        ensures
            final(self).wf(),
            final(self).apps@.len() == old(self).apps@.len(),
            final(self).tx_buffer_len == old(self).tx_buffer_len,
            final(self).rx_in_progress == old(self).rx_in_progress,
            final(self).rx_buffer_held == old(self).rx_buffer_held,
            final(self).rx_buffer_len == old(self).rx_buffer_len,
            old(self).apps@[app_id as int].unwrap().write_remaining == 0 ==> *final(self)
                == *old(self) && r == (false, None::<UartRequest>),
            old(self).apps@[app_id as int].unwrap().write_remaining > 0 ==> r.0 && ({
                let rec = old(self).apps@[app_id as int].unwrap();
                &&& (old(self).tx_in_progress is Some ==> {
                    &&& final(self).tx_in_progress == old(self).tx_in_progress
                    &&& final(self).tx_buffer_held == old(self).tx_buffer_held
                    &&& final(self).apps@ == old(self).apps@.update(
                        app_id as int,
                        Some(App { pending_write: true, ..rec }),
                    )
                    &&& r.1 is None
                })
                &&& (old(self).tx_in_progress is None ==> {
                    let rem = spec_min(rec.write_remaining, rec.write_buffer.len);
                    let tlen = spec_min(rem, old(self).tx_buffer_len);
                    &&& final(self).tx_in_progress == Some(app_id)
                    &&& !final(self).tx_buffer_held
                    &&& final(self).apps@ == old(self).apps@.update(
                        app_id as int,
                        Some(App { write_remaining: (rec.write_remaining - tlen) as usize, ..rec }),
                    )
                    &&& r.1 == Some(
                        UartRequest::Transmit {
                            app_id,
                            offset: (rec.write_buffer.len - rem) as usize,
                            len: tlen,
                        },
                    )
                })
            }),
    {
        let rec = self.apps.read(app_id);
        if rec.write_remaining > 0 {
            let request = self.send(app_id);
            (true, request)
        } else {
            (false, None)
        }
    }

    /// Starts a receive of up to `len` bytes.  Only one receive runs at a
    /// time; competing processes are told to retry, and a request longer
    /// than the kernel receive buffer is rejected rather than read
    /// incrementally.
    pub fn receive_new(&mut self, app_id: usize, len: usize) -> (r: (
        ReturnCode,
        Option<UartRequest>,
    ))
        requires
            old(self).wf(),
            old(self).has_process(app_id),
        ensures
            final(self).wf(),
            final(self).apps@.len() == old(self).apps@.len(),
            final(self).tx_in_progress == old(self).tx_in_progress,
            final(self).tx_buffer_held == old(self).tx_buffer_held,
            final(self).tx_buffer_len == old(self).tx_buffer_len,
            final(self).rx_buffer_len == old(self).rx_buffer_len,
            !old(self).rx_buffer_held ==> *final(self) == *old(self) && r == (
                ReturnCode::Busy,
                None::<UartRequest>,
            ),
            old(self).rx_buffer_held ==> ({
                let rec = old(self).apps@[app_id as int].unwrap();
                let read_len = spec_min(len, rec.read_buffer.len);
                &&& (read_len > old(self).rx_buffer_len ==> *final(self) == *old(self) && r == (
                    ReturnCode::Invalid,
                    None::<UartRequest>,
                ))
                &&& (read_len <= old(self).rx_buffer_len ==> {
                    &&& final(self).apps@ == old(self).apps@.update(
                        app_id as int,
                        Some(App { read_len, ..rec }),
                    )
                    &&& final(self).rx_in_progress == Some(app_id)
                    &&& !final(self).rx_buffer_held
                    &&& r == (
                        ReturnCode::Success,
                        Some(UartRequest::Receive { len: read_len }),
                    )
                })
            }),
    {
        if !self.rx_buffer_held {
            // Only one receive at a time; competing processes must retry.
            return (ReturnCode::Busy, None);
        }
        let mut rec = self.apps.read(app_id);
        let read_len = min_usize(len, rec.read_buffer.len);
        if read_len > self.rx_buffer_len {
            return (ReturnCode::Invalid, None);
        }
        rec.read_len = read_len;
        self.apps.put(app_id, rec);
        self.rx_in_progress = Some(app_id);
        self.rx_buffer_held = false;
        (ReturnCode::Success, Some(UartRequest::Receive { len: read_len }))
    }

    /// The transmit-completion interrupt: the kernel transmit buffer has
    /// returned.  Either more of the same write is sent, or the writer is
    /// owed its completion notification; afterwards, if nothing is in
    /// flight, the first queued write with bytes left is resumed.
    pub fn transmitted_buffer(&mut self, _tx_len: usize, _rcode: ReturnCode) -> (r: (
        Option<WriteComplete>,
        Option<UartRequest>,
    ))
        requires
            old(self).wf(),
        ensures
            final(self).wf(),
            final(self).apps@.len() == old(self).apps@.len(),
            final(self).tx_buffer_len == old(self).tx_buffer_len,
            final(self).rx_in_progress == old(self).rx_in_progress,
            final(self).rx_buffer_held == old(self).rx_buffer_held,
            final(self).rx_buffer_len == old(self).rx_buffer_len,
            old(self).tx_in_progress is None ==> r.0 is None && spec_scan_ok(
                old(self).apps@,
                old(self).tx_buffer_len,
                final(self).apps@,
                final(self).tx_in_progress,
                final(self).tx_buffer_held,
                r.1,
            ),
            old(self).tx_in_progress is Some && !old(self).has_process(
                old(self).tx_in_progress.unwrap(),
            ) ==> r.0 is None && spec_scan_ok(
                old(self).apps@,
                old(self).tx_buffer_len,
                final(self).apps@,
                final(self).tx_in_progress,
                final(self).tx_buffer_held,
                r.1,
            ),
            old(self).tx_in_progress is Some && old(self).has_process(
                old(self).tx_in_progress.unwrap(),
            ) ==> ({
                let a = old(self).tx_in_progress.unwrap();
                let rec = old(self).apps@[a as int].unwrap();
                &&& (rec.write_remaining > 0 ==> {
                    let rem = spec_min(rec.write_remaining, rec.write_buffer.len);
                    let tlen = spec_min(rem, old(self).tx_buffer_len);
                    &&& final(self).tx_in_progress == Some(a)
                    &&& !final(self).tx_buffer_held
                    &&& final(self).apps@ == old(self).apps@.update(
                        a as int,
                        Some(App { write_remaining: (rec.write_remaining - tlen) as usize, ..rec }),
                    )
                    &&& r.0 is None
                    &&& r.1 == Some(
                        UartRequest::Transmit {
                            app_id: a,
                            offset: (rec.write_buffer.len - rem) as usize,
                            len: tlen,
                        },
                    )
                })
                &&& (rec.write_remaining == 0 ==> {
                    &&& r.0 == Some(
                        WriteComplete { target: rec.write_callback, written: rec.write_len },
                    )
                    &&& spec_scan_ok(
                        old(self).apps@.update(a as int, Some(App { write_len: 0, ..rec })),
                        old(self).tx_buffer_len,
                        final(self).apps@,
                        final(self).tx_in_progress,
                        final(self).tx_buffer_held,
                        r.1,
                    )
                })
            }),
    {
        self.tx_buffer_held = true;
        let who = self.tx_in_progress;
        self.tx_in_progress = None;
        let mut completed: Option<WriteComplete> = None;
        let mut request: Option<UartRequest> = None;
        match who {
            Option::Some(appid) => {
                if self.apps.is_live(appid) {
                    let mut rec = self.apps.read(appid);
                    if rec.write_remaining > 0 {
                        // More of this write still fits: keep going.
                        request = self.send(appid);
                    } else {
                        // Done: signal the writer.
                        let written = rec.write_len;
                        rec.write_len = 0;
                        self.apps.put(appid, rec);
                        completed = Some(
                            WriteComplete { target: rec.write_callback, written },
                        );
                    }
                }
            },
            Option::None => {},
        }
        // If nothing is being transmitted now, resume the first queued
        // write that still has bytes to send.
        if self.tx_in_progress.is_none() {
            let ghost s1 = self.apps@;
            let n = self.apps.len();
            let mut i: usize = 0;
            let mut started = false;
            while i < n && !started
                invariant
                    i <= n,
                    n == self.apps@.len(),
                    n == s1.len(),
                    self.wf(),
                    self.tx_buffer_len == old(self).tx_buffer_len,
                    self.rx_in_progress == old(self).rx_in_progress,
                    self.rx_buffer_held == old(self).rx_buffer_held,
                    self.rx_buffer_len == old(self).rx_buffer_len,
                    !started ==> {
                        &&& self.tx_in_progress is None
                        &&& self.tx_buffer_held
                        &&& first_pending(s1, 0) == first_pending(s1, i as int)
                        &&& (forall|j: int| 0 <= j < i ==> self.apps@[j] == clear_pending(s1[j]))
                        &&& (forall|j: int| i <= j < n ==> self.apps@[j] == s1[j])
                        &&& request is None
                    },
                    started ==> spec_scan_ok(
                        s1,
                        old(self).tx_buffer_len,
                        self.apps@,
                        self.tx_in_progress,
                        self.tx_buffer_held,
                        request,
                    ),
                decreases n - i,
            {
                if self.apps.is_live(i) {
                    let mut rec = self.apps.read(i);
                    if rec.pending_write {
                        rec.pending_write = false;
                        self.apps.put(i, rec);
                        if rec.write_remaining > 0 {
                            proof {
                                assert(first_pending(s1, i as int) == Some(i as int));
                            }
                            request = self.send(i);
                            started = true;
                        }
                    }
                }
                i += 1;
            }
        }
        (completed, request)
    }

    /// The receive-completion interrupt: `rx_len` bytes arrived (or the
    /// receive ended with an error), and the kernel receive buffer has
    /// returned.  The reader is owed a completion carrying the status and
    /// the byte count the kernel actually placed in its buffer: nothing
    /// with no buffer shared, clipped with a report when the device
    /// returned more than fits.
    pub fn received_buffer(&mut self, rx_len: usize, rcode: ReturnCode, error: UartError) -> (r:
        Option<ReadComplete>)
        requires
            old(self).wf(),
        ensures
            final(self).wf(),
            final(self).apps@ == old(self).apps@,
            final(self).tx_in_progress == old(self).tx_in_progress,
            final(self).tx_buffer_held == old(self).tx_buffer_held,
            final(self).tx_buffer_len == old(self).tx_buffer_len,
            final(self).rx_buffer_len == old(self).rx_buffer_len,
            final(self).rx_in_progress is None,
            final(self).rx_buffer_held,
            old(self).rx_in_progress is None ==> r is None,
            old(self).rx_in_progress is Some && !old(self).has_process(
                old(self).rx_in_progress.unwrap(),
            ) ==> r is None,
            old(self).rx_in_progress is Some && old(self).has_process(
                old(self).rx_in_progress.unwrap(),
            ) ==> ({
                let rec = old(self).apps@[old(self).rx_in_progress.unwrap() as int].unwrap();
                &&& ((error is NoError || error is Aborted) && rec.read_buffer.len == 0 ==> r
                    == Some(
                    ReadComplete {
                        target: rec.read_callback,
                        status: ReturnCode::NoMemory,
                        length: 0,
                    },
                ))
                &&& ((error is NoError || error is Aborted) && rec.read_buffer.len > 0 && rx_len
                    > rec.read_buffer.len ==> r == Some(
                    ReadComplete {
                        target: rec.read_callback,
                        status: ReturnCode::Size,
                        length: rec.read_buffer.len,
                    },
                ))
                &&& ((error is NoError || error is Aborted) && rec.read_buffer.len > 0 && rx_len
                    <= rec.read_buffer.len ==> r == Some(
                    ReadComplete { target: rec.read_callback, status: rcode, length: rx_len },
                ))
                &&& (!(error is NoError || error is Aborted) ==> r == Some(
                    ReadComplete { target: rec.read_callback, status: ReturnCode::Fail, length: 0 },
                ))
            }),
    {
        let who = self.rx_in_progress;
        self.rx_in_progress = None;
        // Whatever happens, the receive buffer is back for future
        // transactions.
        self.rx_buffer_held = true;
        let appid = match who {
            Option::Some(appid) => appid,
            Option::None => {
                return None;
            },
        };
        if !self.apps.is_live(appid) {
            return None;
        }
        let rec = self.apps.read(appid);
        match error {
            UartError::NoError | UartError::Aborted => {
                // Report the byte count actually placed in the process's
                // buffer.  A device returning more bytes than asked for
                // must not leak a wrong length to the process, so the
                // count is clipped and the mismatch reported.
                let (status, length) = if rec.read_buffer.len == 0 {
                    (ReturnCode::NoMemory, 0)
                } else if rx_len > rec.read_buffer.len {
                    (ReturnCode::Size, rec.read_buffer.len)
                } else {
                    (rcode, rx_len)
                };
                Some(ReadComplete { target: rec.read_callback, status, length })
            },
            _ => Some(ReadComplete { target: rec.read_callback, status: ReturnCode::Fail, length: 0 }),
        }
    }

    /// Accepts the process's read buffer (region 1), handing back the one
    /// previously shared.
    pub fn allow_readwrite(&mut self, appid: usize, allow_num: usize, slice: ReadWriteAppSlice)
        -> (r: Result<ReadWriteAppSlice, (ReadWriteAppSlice, ErrorCode)>)
        requires
            old(self).wf(),
        ensures
            final(self).wf(),
            final(self).tx_in_progress == old(self).tx_in_progress,
            final(self).rx_in_progress == old(self).rx_in_progress,
            allow_num != 1 ==> final(self).apps@ == old(self).apps@ && r == Err::<
                ReadWriteAppSlice,
                _,
            >((slice, ErrorCode::Unsupported)),
            allow_num == 1 && !old(self).has_process(appid) ==> final(self).apps@
                == old(self).apps@ && r == Err::<ReadWriteAppSlice, _>(
                (slice, ErrorCode::InvalidProcess),
            ),
            allow_num == 1 && old(self).has_process(appid) ==> ({
                let rec = old(self).apps@[appid as int].unwrap();
                &&& final(self).apps@ == old(self).apps@.update(
                    appid as int,
                    Some(App { read_buffer: slice, ..rec }),
                )
                &&& r == Ok::<ReadWriteAppSlice, (ReadWriteAppSlice, ErrorCode)>(rec.read_buffer)
            }),
    {
        if allow_num != 1 {
            return Err((slice, ErrorCode::Unsupported));
        }
        if !self.apps.is_live(appid) {
            return Err((slice, ErrorCode::InvalidProcess));
        }
        let mut rec = self.apps.read(appid);
        let previous = rec.read_buffer;
        rec.read_buffer = slice;
        self.apps.put(appid, rec);
        Ok(previous)
    }

    /// Accepts the process's write buffer (region 1), handing back the one
    /// previously shared.
    pub fn allow_readonly(&mut self, appid: usize, allow_num: usize, slice: ReadOnlyAppSlice) -> (r:
        Result<ReadOnlyAppSlice, (ReadOnlyAppSlice, ErrorCode)>)
        requires
            old(self).wf(),
        ensures
            final(self).wf(),
            final(self).tx_in_progress == old(self).tx_in_progress,
            final(self).rx_in_progress == old(self).rx_in_progress,
            allow_num != 1 ==> final(self).apps@ == old(self).apps@ && r == Err::<
                ReadOnlyAppSlice,
                _,
            >((slice, ErrorCode::Unsupported)),
            allow_num == 1 && !old(self).has_process(appid) ==> final(self).apps@
                == old(self).apps@ && r == Err::<ReadOnlyAppSlice, _>(
                (slice, ErrorCode::InvalidProcess),
            ),
            allow_num == 1 && old(self).has_process(appid) ==> ({
                let rec = old(self).apps@[appid as int].unwrap();
                &&& final(self).apps@ == old(self).apps@.update(
                    appid as int,
                    Some(App { write_buffer: slice, ..rec }),
                )
                &&& r == Ok::<ReadOnlyAppSlice, (ReadOnlyAppSlice, ErrorCode)>(rec.write_buffer)
            }),
    {
        if allow_num != 1 {
            return Err((slice, ErrorCode::Unsupported));
        }
        if !self.apps.is_live(appid) {
            return Err((slice, ErrorCode::InvalidProcess));
        }
        let mut rec = self.apps.read(appid);
        let previous = rec.write_buffer;
        rec.write_buffer = slice;
        self.apps.put(appid, rec);
        Ok(previous)
    }

    /// Registers a completion target: 1 for writes, 2 for reads.  Returns
    /// the previous target.
    pub fn subscribe(&mut self, subscribe_num: usize, callback: Upcall, app_id: usize) -> (r:
        Result<Upcall, (Upcall, ErrorCode)>)
        requires
            old(self).wf(),
        ensures
            final(self).wf(),
            final(self).tx_in_progress == old(self).tx_in_progress,
            final(self).rx_in_progress == old(self).rx_in_progress,
            !(subscribe_num == 1 || subscribe_num == 2) ==> final(self).apps@ == old(self).apps@
                && r == Err::<Upcall, _>((callback, ErrorCode::Unsupported)),
            (subscribe_num == 1 || subscribe_num == 2) && !old(self).has_process(app_id)
                ==> final(self).apps@ == old(self).apps@ && r == Err::<Upcall, _>(
                (callback, ErrorCode::InvalidProcess),
            ),
            subscribe_num == 1 && old(self).has_process(app_id) ==> ({
                let rec = old(self).apps@[app_id as int].unwrap();
                &&& final(self).apps@ == old(self).apps@.update(
                    app_id as int,
                    Some(App { write_callback: callback, ..rec }),
                )
                &&& r == Ok::<Upcall, (Upcall, ErrorCode)>(rec.write_callback)
            }),
            subscribe_num == 2 && old(self).has_process(app_id) ==> ({
                let rec = old(self).apps@[app_id as int].unwrap();
                &&& final(self).apps@ == old(self).apps@.update(
                    app_id as int,
                    Some(App { read_callback: callback, ..rec }),
                )
                &&& r == Ok::<Upcall, (Upcall, ErrorCode)>(rec.read_callback)
            }),
    {
        if subscribe_num != 1 && subscribe_num != 2 {
            return Err((callback, ErrorCode::Unsupported));
        }
        if !self.apps.is_live(app_id) {
            return Err((callback, ErrorCode::InvalidProcess));
        }
        let mut rec = self.apps.read(app_id);
        let previous = if subscribe_num == 1 {
            let p = rec.write_callback;
            rec.write_callback = callback;
            p
        } else {
            let p = rec.read_callback;
            rec.read_callback = callback;
            p
        };
        self.apps.put(app_id, rec);
        Ok(previous)
    }

    /// Serial transfers: 0 presence check; 1 transmit up to `arg1` bytes of
    /// the allowed write buffer; 2 receive up to `arg1` bytes into the
    /// allowed read buffer; 3 cancel an in-progress receive.
    pub fn command(&mut self, cmd_num: usize, arg1: usize, _arg2: usize, appid: usize) -> (r: (
        CommandResult,
        Option<UartRequest>,
    ))
        requires
            old(self).wf(),
        ensures
            final(self).wf(),
            final(self).apps@.len() == old(self).apps@.len(),
            final(self).tx_buffer_len == old(self).tx_buffer_len,
            final(self).rx_buffer_len == old(self).rx_buffer_len,
            cmd_num == 0 ==> *final(self) == *old(self) && r.0.value()
                == crate::driver::GenericSyscallReturnValue::Success && r.1 is None,
            (cmd_num == 1 || cmd_num == 2) && !old(self).has_process(appid) ==> *final(self)
                == *old(self) && r.0.value() == crate::driver::GenericSyscallReturnValue::Failure(
                ErrorCode::InvalidProcess,
            ) && r.1 is None,
            cmd_num == 1 && old(self).has_process(appid) ==> r.0.value()
                == crate::driver::GenericSyscallReturnValue::Success && ({
                let rec = old(self).apps@[appid as int].unwrap();
                let wl = spec_min(arg1, rec.write_buffer.len);
                &&& (old(self).tx_in_progress is Some ==> {
                    &&& final(self).tx_in_progress == old(self).tx_in_progress
                    &&& final(self).apps@ == old(self).apps@.update(
                        appid as int,
                        Some(
                            App {
                                write_len: wl,
                                write_remaining: wl,
                                pending_write: true,
                                ..rec
                            },
                        ),
                    )
                    &&& r.1 is None
                })
                &&& (old(self).tx_in_progress is None ==> {
                    let tlen = spec_min(wl, old(self).tx_buffer_len);
                    &&& final(self).tx_in_progress == Some(appid)
                    &&& final(self).apps@ == old(self).apps@.update(
                        appid as int,
                        Some(
                            App {
                                write_len: wl,
                                write_remaining: (wl - tlen) as usize,
                                ..rec
                            },
                        ),
                    )
                    &&& r.1 == Some(
                        UartRequest::Transmit {
                            app_id: appid,
                            offset: (rec.write_buffer.len - wl) as usize,
                            len: tlen,
                        },
                    )
                })
            }),
            cmd_num == 2 && old(self).has_process(appid) ==> ({
                let rec = old(self).apps@[appid as int].unwrap();
                let read_len = spec_min(arg1, rec.read_buffer.len);
                &&& (!old(self).rx_buffer_held ==> *final(self) == *old(self) && r.0.value()
                    == crate::driver::GenericSyscallReturnValue::Failure(ErrorCode::Busy) && r.1
                    is None)
                &&& (old(self).rx_buffer_held && read_len > old(self).rx_buffer_len
                    ==> *final(self) == *old(self) && r.0.value()
                    == crate::driver::GenericSyscallReturnValue::Failure(ErrorCode::Invalid) && r.1
                    is None)
                &&& (old(self).rx_buffer_held && read_len <= old(self).rx_buffer_len ==> {
                    &&& final(self).apps@ == old(self).apps@.update(
                        appid as int,
                        Some(App { read_len, ..rec }),
                    )
                    &&& final(self).rx_in_progress == Some(appid)
                    &&& r.0.value() == crate::driver::GenericSyscallReturnValue::Success
                    &&& r.1 == Some(UartRequest::Receive { len: read_len })
                })
            }),
            cmd_num == 3 ==> *final(self) == *old(self) && r.0.value()
                == crate::driver::GenericSyscallReturnValue::Success && r.1 == Some(
                UartRequest::AbortReceive,
            ),
            cmd_num > 3 ==> *final(self) == *old(self) && r.0.value()
                == crate::driver::GenericSyscallReturnValue::Failure(ErrorCode::Unsupported) && r.1
                is None,
    {
        if cmd_num == 0 {
            return (CommandResult::success(), None);
        }
        if cmd_num == 1 {
            if !self.apps.is_live(appid) {
                return (CommandResult::failure(ErrorCode::InvalidProcess), None);
            }
            let (code, request) = self.send_new(appid, arg1);
            return (CommandResult::from_return_code(code), request);
        }
        if cmd_num == 2 {
            if !self.apps.is_live(appid) {
                return (CommandResult::failure(ErrorCode::InvalidProcess), None);
            }
            let (code, request) = self.receive_new(appid, arg1);
            return (CommandResult::from_return_code(code), request);
        }
        if cmd_num == 3 {
            return (CommandResult::success(), Some(UartRequest::AbortReceive));
        }
        (CommandResult::failure(ErrorCode::Unsupported), None)
    }
}

} // verus!
