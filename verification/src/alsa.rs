//! The polling audio output engine (interval-based style with explicit
//! recovery).
//!
//! The stream has no readiness event; instead the engine polls the device
//! for available space, waits when there is too little, and writes in
//! bounded attempts with error recovery between them.  Every device
//! response enters as a plain value — a [`PollEvent`] — so the whole
//! wait/retry/drop-and-carry policy is verified against the response
//! sequence, and a simulated device is just a `Vec<PollEvent>`.
//!
//! Delivery policy (the drop-and-carry rule): once enough space is
//! available, up to [`WRITE_ATTEMPTS`] writes are attempted; a partial
//! write advances the send cursor; a failed write runs recovery and is
//! retried.  If the attempts are exhausted, the frames that were sent are
//! discarded from the queue and the rest is retained — except that when
//! nothing at all was sent, one frame (one stride of two interleaved
//! samples) is trimmed from the front as a minimal forward-progress
//! guarantee.

use vstd::prelude::*;
use vstd::arithmetic::div_mod::lemma_fundamental_div_mod;
use crate::convert::convert_i16;
use crate::convert::convert_i16_spec;
use crate::convert::valid_amp;
use crate::errors::Error;
use crate::Reconfigure;

verus! {

/// How many delivery attempts one write cycle makes before giving up.
pub const WRITE_ATTEMPTS: u8 = 4;

/// One device response, in the order the device is consulted.
///
/// The error variants carry the device's error code and whether the
/// backend's recovery routine succeeded on it; an unrecovered space query
/// or wait is fatal, an unrecovered write attempt is only logged by the
/// shell and retried.
#[derive(Clone, Copy, Debug, PartialEq, Eq, Structural)]
pub enum PollEvent {
    /// A space query succeeded: this many device frames are free.
    Avail(u64),
    /// A space query failed and recovery was run.
    AvailErr { errno: i32, recovered: bool },
    /// A blocking wait for readiness returned.
    WaitReady,
    /// A blocking wait failed and recovery was run.
    WaitErr { errno: i32, recovered: bool },
    /// A write attempt accepted this many frames.
    Wrote(u64),
    /// A write attempt failed and recovery was run.
    WriteErr { errno: i32, recovered: bool },
}

/// How one write cycle ended, when no fatal device error occurred.
#[derive(Clone, Copy, Debug, PartialEq, Eq, Structural)]
pub enum WriteOutcome {
    /// Every pending sample was delivered.
    Completed,
    /// The delivery attempts were exhausted; `retained` samples stay
    /// queued for the next cycle under the drop-and-carry rule.
    Partial { retained: usize },
    /// The device-response sequence ended (or left the protocol) before
    /// the cycle could finish.
    Stalled,
}

/// How the space-wait phase ended.
#[derive(Clone, Copy, Debug, PartialEq, Eq, Structural)]
pub enum SpaceOutcome {
    /// Enough space is available; delivery may start.
    SReady,
    /// A space query or wait failed and recovery failed too.
    SFatal(i32),
    /// The response sequence ended (or left the protocol).
    SStall,
}

/// The space-wait phase: query available space, recovering from failed
/// queries; wait (and recover from failed waits) while there is less space
/// than `need`; stop once a query reports at least `need`.  Returns the
/// outcome and the responses left for the delivery phase.
pub open spec fn space_loop(events: Seq<PollEvent>, need: int) -> (SpaceOutcome, Seq<PollEvent>)
    decreases events.len(),
{
    if events.len() == 0 {
        (SpaceOutcome::SStall, events)
    } else {
        match events[0] {
            PollEvent::Avail(a) => {
                if a >= need {
                    (SpaceOutcome::SReady, events.skip(1))
                } else if events.len() == 1 {
                    (SpaceOutcome::SStall, events)
                } else {
                    match events[1] {
                        PollEvent::WaitReady => space_loop(events.skip(2), need),
                        PollEvent::WaitErr { errno, recovered } => {
                            if recovered {
                                space_loop(events.skip(2), need)
                            } else {
                                (SpaceOutcome::SFatal(errno), events)
                            }
                        },
                        _ => (SpaceOutcome::SStall, events),
                    }
                }
            },
            PollEvent::AvailErr { errno, recovered } => {
                if recovered {
                    space_loop(events.skip(1), need)
                } else {
                    (SpaceOutcome::SFatal(errno), events)
                }
            },
            _ => (SpaceOutcome::SStall, events),
        }
    }
}

/// The delivery phase: starting from `sent` delivered samples, consume one
/// write response per attempt.  An accepted write of `w` frames advances
/// the cursor by `2 * w` samples when that stays within the queue; a
/// failed write consumes an attempt.  Stops when everything is sent or the
/// attempts are exhausted.  Returns the delivered sample count and whether
/// the response sequence ended early.
pub open spec fn attempts_loop(events: Seq<PollEvent>, total: int, sent: int, tries: nat) -> (
    int,
    bool,
)
    decreases tries,
{
    if sent >= total || tries == 0 {
        (sent, false)
    } else if events.len() == 0 {
        (sent, true)
    } else {
        match events[0] {
            PollEvent::Wrote(w) => attempts_loop(
                events.skip(1),
                total,
                if sent + 2 * w <= total {
                    sent + 2 * w
                } else {
                    sent
                },
                (tries - 1) as nat,
            ),
            PollEvent::WriteErr { errno, recovered } => attempts_loop(
                events.skip(1),
                total,
                sent,
                (tries - 1) as nat,
            ),
            _ => (sent, true),
        }
    }
}

/// The delivery phase keeps the sent count within the queue and in whole
/// strides (pairs of samples).
proof fn lemma_attempts_bounds(events: Seq<PollEvent>, total: int, sent: int, tries: nat)
    requires
        0 <= sent <= total,
        sent % 2 == 0,
        total % 2 == 0,
    ensures
        ({
            let (s, st) = attempts_loop(events, total, sent, tries);
            &&& sent <= s <= total
            &&& s % 2 == 0
        }),
    decreases tries,
{
    if sent >= total || tries == 0 || events.len() == 0 {
    } else {
        match events[0] {
            PollEvent::Wrote(w) => {
                let ns = if sent + 2 * w <= total {
                    sent + 2 * w
                } else {
                    sent
                };
                lemma_attempts_bounds(events.skip(1), total, ns, (tries - 1) as nat);
            },
            PollEvent::WriteErr { errno, recovered } => {
                lemma_attempts_bounds(events.skip(1), total, sent, (tries - 1) as nat);
            },
            _ => {},
        }
    }
}

/// One whole write cycle over a pending queue and a device-response
/// sequence: the space-wait phase, the delivery attempts, and the
/// drop-and-carry compaction.  Returns the caller-visible result and the
/// queue left behind.
pub open spec fn write_spec(buffer: Seq<i16>, events: Seq<PollEvent>) -> (
    Result<WriteOutcome, Error>,
    Seq<i16>,
) {
    let (so, rest) = space_loop(events, buffer.len() as int);
    match so {
        SpaceOutcome::SFatal(errno) => (Err(Error::NativeDeviceError(errno)), buffer),
        SpaceOutcome::SStall => (Ok(WriteOutcome::Stalled), buffer),
        SpaceOutcome::SReady => {
            let (sent, stalled) = attempts_loop(rest, buffer.len() as int, 0, WRITE_ATTEMPTS as nat);
            if stalled {
                (Ok(WriteOutcome::Stalled), buffer.skip(sent))
            } else if sent >= buffer.len() {
                (Ok(WriteOutcome::Completed), buffer.skip(sent))
            } else if sent == 0 {
                (
                    Ok(WriteOutcome::Partial { retained: (buffer.len() - 2) as usize }),
                    buffer.skip(2),
                )
            } else {
                (
                    Ok(WriteOutcome::Partial { retained: (buffer.len() - sent) as usize }),
                    buffer.skip(sent),
                )
            }
        },
    }
}

/// Run the space-wait phase against recorded device responses.
enum SpaceStep {
    Ready { next: usize },
    Fatal { errno: i32 },
    Stalled,
}

/// The executable space-wait phase; `next` is where the delivery phase
/// picks up the responses.
fn wait_for_space(events: &Vec<PollEvent>, need: u64) -> (r: SpaceStep)
    ensures
        match r {
            SpaceStep::Ready { next } => next <= events@.len() && space_loop(
                events@,
                need as int,
            ) == (SpaceOutcome::SReady, events@.skip(next as int)),
            SpaceStep::Fatal { errno } => space_loop(events@, need as int).0
                == SpaceOutcome::SFatal(errno),
            SpaceStep::Stalled => space_loop(events@, need as int).0 == SpaceOutcome::SStall,
        },
{
    let n = events.len();
    let mut idx: usize = 0;
    assert(events@.skip(0) =~= events@);
    while idx < n
        invariant
            n == events@.len(),
            idx <= n,
            space_loop(events@.skip(idx as int), need as int) == space_loop(
                events@,
                need as int,
            ),
        decreases n - idx,
    {
        assert(events@.skip(idx as int)[0] == events@[idx as int]);
        match events[idx] {
            PollEvent::Avail(a) => {
                if a >= need {
                    assert(events@.skip(idx as int).skip(1) =~= events@.skip(idx + 1));
                    return SpaceStep::Ready { next: idx + 1 };
                } else if idx + 1 >= n {
                    assert(events@.skip(idx as int).len() == 1);
                    return SpaceStep::Stalled;
                } else {
                    assert(events@.skip(idx as int)[1] == events@[idx + 1]);
                    assert(events@.skip(idx as int).skip(2) =~= events@.skip(idx + 2));
                    match events[idx + 1] {
                        PollEvent::WaitReady => {
                            idx = idx + 2;
                        },
                        PollEvent::WaitErr { errno, recovered } => {
                            if recovered {
                                idx = idx + 2;
                            } else {
                                return SpaceStep::Fatal { errno };
                            }
                        },
                        _ => {
                            return SpaceStep::Stalled;
                        },
                    }
                }
            },
            PollEvent::AvailErr { errno, recovered } => {
                if recovered {
                    assert(events@.skip(idx as int).skip(1) =~= events@.skip(idx + 1));
                    idx = idx + 1;
                } else {
                    return SpaceStep::Fatal { errno };
                }
            },
            _ => {
                return SpaceStep::Stalled;
            },
        }
    }
    assert(events@.skip(idx as int).len() == 0);
    SpaceStep::Stalled
}

/// The executable delivery phase: consume write responses from `start`,
/// with the attempt budget and the stride guard of the policy.
fn send_attempts(events: &Vec<PollEvent>, start: usize, total: usize) -> (r: (usize, bool))
    requires
        start <= events@.len(),
        total % 2 == 0,
    ensures
        ({
            let (s, st) = attempts_loop(
                events@.skip(start as int),
                total as int,
                0,
                WRITE_ATTEMPTS as nat,
            );
            r.0 == s && r.1 == st && r.0 <= total && r.0 % 2 == 0
        }),
{
    let n = events.len();
    let mut idx: usize = start;
    let mut sent: usize = 0;
    let mut tries: u8 = WRITE_ATTEMPTS;
    let mut stalled = false;
    assert(events@.skip(start as int).skip(0) =~= events@.skip(start as int));
    while sent < total && tries > 0 && !stalled
        invariant
            n == events@.len(),
            start <= idx <= n,
            sent <= total,
            sent % 2 == 0,
            total % 2 == 0,
            tries <= WRITE_ATTEMPTS,
            attempts_loop(events@.skip(idx as int), total as int, sent as int, tries as nat)
                == attempts_loop(
                events@.skip(start as int),
                total as int,
                0,
                WRITE_ATTEMPTS as nat,
            ),
            stalled ==> attempts_loop(
                events@.skip(start as int),
                total as int,
                0,
                WRITE_ATTEMPTS as nat,
            ) == (sent as int, true),
        decreases 2 * (tries as int) + (if stalled { 0int } else { 1int }),
    {
        if idx >= n {
            assert(events@.skip(idx as int).len() == 0);
            stalled = true;
        } else {
            assert(events@.skip(idx as int)[0] == events@[idx as int]);
            assert(events@.skip(idx as int).skip(1) =~= events@.skip(idx + 1));
            match events[idx] {
                PollEvent::Wrote(w) => {
                    let room = (total - sent) / 2;
                    proof {
                        lemma_fundamental_div_mod((total - sent) as int, 2);
                    }
                    if w <= room as u64 {
                        assert(sent + 2 * (w as int) <= total);
                        sent = sent + (w as usize) * 2;
                    } else {
                        assert(!(sent + 2 * (w as int) <= total));
                    }
                    idx = idx + 1;
                    tries = tries - 1;
                },
                PollEvent::WriteErr { errno, recovered } => {
                    idx = idx + 1;
                    tries = tries - 1;
                },
                _ => {
                    stalled = true;
                },
            }
        }
    }
    (sent, stalled)
}

/// The tail of a sample queue after dropping `k` delivered samples.
fn vec_skip_i16(v: &Vec<i16>, k: usize) -> (r: Vec<i16>)
    requires
        k <= v@.len(),
    ensures
        r@ == v@.skip(k as int),
{
    let n = v.len();
    let mut out: Vec<i16> = Vec::new();
    let mut i: usize = k;
    while i < n
        invariant
            n == v@.len(),
            k <= i <= n,
            out@ == v@.subrange(k as int, i as int),
        decreases n - i,
    {
        out.push(v[i]);
        assert(out@ =~= v@.subrange(k as int, i + 1));
        i = i + 1;
    }
    assert(v@.subrange(k as int, n as int) =~= v@.skip(k as int));
    out
}

/// What the negotiator got back from the device after applying the
/// hardware parameters: the actual buffer and period sizes in frames,
/// snapped by the hardware, never the requested ones.
#[derive(Clone, Copy, Debug, PartialEq, Eq, Structural)]
pub struct AlsaStreamParams {
    /// Total frames the device buffer can hold.
    pub buffer_size: u64,
    /// Frames the device consumes per processing interval.
    pub period_size: u64,
}

impl AlsaStreamParams {
    /// A usable stream has a non-empty buffer and a non-empty period small
    /// enough for threshold arithmetic.
    pub open spec fn wf(&self) -> bool {
        &&& self.buffer_size >= 1
        &&& 1 <= self.period_size <= 0x7fffffff
    }
}

/// The requested hardware timings derived from a target latency: the
/// buffer duration in microseconds and a period of one eighth of it.
pub fn hw_request(latency: u32) -> (r: (u64, u64))
    ensures
        r.0 == latency * 1000,
        r.1 == r.0 / 8,
{
    let buffer_time: u64 = (latency as u64) * 1000;
    let period_time: u64 = buffer_time / 8;
    (buffer_time, period_time)
}

/// The software start threshold for a stream: half the actual buffer.
pub fn start_threshold(buffer_size: u64) -> (r: u64)
    ensures
        r == buffer_size / 2,
{
    buffer_size / 2
}

/// One open polling stream together with the samples not yet delivered to
/// it.
///
/// `stream_id` models the identity of the underlying device handle: it
/// changes exactly when the stream is torn down and rebuilt.
#[derive(Debug)]
pub struct ALSADriverPrev {
    /// Whether device waits may block the caller.
    pub blocking: bool,
    /// Pending samples, interleaved, two per frame, oldest first.
    pub buffer: Vec<i16>,
    /// Total frames the device buffer holds (actual negotiated value).
    pub buffer_size: u64,
    /// Configured sample rate in Hz.
    pub frequency: u32,
    /// The caller's target latency in milliseconds.
    pub latency: u32,
    /// The device name the stream was opened on.
    pub name: String,
    /// Frames per device interval (actual negotiated value).
    pub period_size: u64,
    /// Identity of the open device stream.
    pub stream_id: u64,
}

impl ALSADriverPrev {
    /// Well-formedness: a usable stream and a queue of whole strides.
    pub open spec fn wf(&self) -> bool {
        &&& self.buffer_size >= 1
        &&& 1 <= self.period_size <= 0x7fffffff
        &&& self.buffer@.len() % 2 == 0
    }

    /// The configuration and negotiated sizes, without the pending queue
    /// and without the device name: what a device selection leaves alone.
    pub open spec fn same_stream_but_name(&self, other: &Self) -> bool {
        &&& self.blocking == other.blocking
        &&& self.buffer_size == other.buffer_size
        &&& self.frequency == other.frequency
        &&& self.latency == other.latency
        &&& self.period_size == other.period_size
        &&& self.stream_id == other.stream_id
    }

    /// The configuration and negotiated sizes, without the pending queue.
    pub open spec fn same_stream(&self, other: &Self) -> bool {
        &&& self.blocking == other.blocking
        &&& self.buffer_size == other.buffer_size
        &&& self.frequency == other.frequency
        &&& self.latency == other.latency
        &&& self.name == other.name
        &&& self.period_size == other.period_size
        &&& self.stream_id == other.stream_id
    }

    /// Open a stream on a device: adopt the actual negotiated sizes, with
    /// an empty pending queue.
    pub fn new(
        name: &str,
        latency: u32,
        frequency: u32,
        blocking: bool,
        params: &AlsaStreamParams,
        stream_id: u64,
    ) -> (r: ALSADriverPrev)
        requires
            params.wf(),
        ensures
            r.wf(),
            r.blocking == blocking,
            r.buffer@.len() == 0,
            r.buffer_size == params.buffer_size,
            r.frequency == frequency,
            r.latency == latency,
            r.name@ == name@,
            r.period_size == params.period_size,
            r.stream_id == stream_id,
    {
        ALSADriverPrev {
            blocking,
            buffer: Vec::new(),
            buffer_size: params.buffer_size,
            frequency,
            latency,
            name: name.to_owned(),
            period_size: params.period_size,
            stream_id,
        }
    }

    /// One write cycle against recorded device responses, exactly as
    /// [`write_spec`] describes: wait for space (recovering from
    /// recoverable errors, failing with `Error::NativeDeviceError` when
    /// recovery fails), then deliver in bounded attempts and compact the
    /// queue under the drop-and-carry rule.
    pub fn write(&mut self, events: &Vec<PollEvent>) -> (r: Result<WriteOutcome, Error>)
        requires
            old(self).wf(),
        ensures
            final(self).wf(),
            final(self).same_stream(old(self)),
            ({
                let (res, buf) = write_spec(old(self).buffer@, events@);
                r == res && final(self).buffer@ == buf
            }),
    {
        let need: u64 = self.buffer.len() as u64;
        match wait_for_space(events, need) {
            SpaceStep::Fatal { errno } => Err(Error::NativeDeviceError(errno)),
            SpaceStep::Stalled => Ok(WriteOutcome::Stalled),
            SpaceStep::Ready { next } => {
                let total = self.buffer.len();
                let (sent, stalled) = send_attempts(events, next, total);
                if stalled {
                    let rest = vec_skip_i16(&self.buffer, sent);
                    self.buffer = rest;
                    Ok(WriteOutcome::Stalled)
                } else if sent >= total {
                    let rest = vec_skip_i16(&self.buffer, sent);
                    self.buffer = rest;
                    Ok(WriteOutcome::Completed)
                } else if sent == 0 {
                    let rest = vec_skip_i16(&self.buffer, 2);
                    self.buffer = rest;
                    Ok(WriteOutcome::Partial { retained: total - 2 })
                } else {
                    let rest = vec_skip_i16(&self.buffer, sent);
                    self.buffer = rest;
                    Ok(WriteOutcome::Partial { retained: total - sent })
                }
            },
        }
    }
}

/// The delivery phase against a device that fails `k` write attempts (each
/// recovered) and then accepts the whole queue in one write: with attempts
/// to spare everything is sent; with the budget exhausted first, nothing
/// is.
proof fn lemma_attempts_err_then_ok(total: int, k: nat, tries: nat, e: i32)
    requires
        0 < total <= u64::MAX,
        total % 2 == 0,
    ensures
        ({
            let script = Seq::new(k, |i: int| PollEvent::WriteErr { errno: e, recovered: true })
                + seq![PollEvent::Wrote((total / 2) as u64)];
            let (s, st) = attempts_loop(script, total, 0, tries);
            &&& k < tries ==> s == total && st == false
            &&& k >= tries ==> s == 0 && st == false
        }),
    decreases k,
{
    let script = Seq::new(k, |i: int| PollEvent::WriteErr { errno: e, recovered: true })
        + seq![PollEvent::Wrote((total / 2) as u64)];
    lemma_fundamental_div_mod(total, 2);
    if tries == 0 {
    } else if k == 0 {
        assert(script[0] == PollEvent::Wrote((total / 2) as u64));
        assert(2 * ((total / 2) as u64) as int == total);
        assert(attempts_loop(script, total, 0, tries) == attempts_loop(
            script.skip(1),
            total,
            total,
            (tries - 1) as nat,
        ));
    } else {
        assert(script[0] == PollEvent::WriteErr { errno: e, recovered: true });
        assert(script.skip(1) =~= Seq::new(
            (k - 1) as nat,
            |i: int| PollEvent::WriteErr { errno: e, recovered: true },
        ) + seq![PollEvent::Wrote((total / 2) as u64)]);
        lemma_attempts_err_then_ok(total, (k - 1) as nat, (tries - 1) as nat, e);
    }
}

/// No silent data loss, and forward progress under hardware refusal: a
/// write cycle either leaves the queue exactly as it found it (a fatal
/// device error, or a device that stopped responding before delivery
/// began), or removes only delivered samples — and a cycle that got as far
/// as its delivery attempts removes at least one stride, the drop-and-carry
/// guarantee.
pub proof fn lemma_write_forward_progress(buffer: Seq<i16>, events: Seq<PollEvent>)
    requires
        2 <= buffer.len() <= usize::MAX,
        buffer.len() % 2 == 0,
    ensures
        ({
            let (res, buf) = write_spec(buffer, events);
            &&& res == Ok::<WriteOutcome, Error>(WriteOutcome::Completed) ==> buf.len() == 0
            &&& match res {
                Ok(WriteOutcome::Partial { retained }) => buf.len() == retained && retained
                    <= buffer.len() - 2,
                _ => true,
            }
            &&& res == Ok::<WriteOutcome, Error>(WriteOutcome::Stalled) ==> buf.len()
                <= buffer.len()
            &&& res is Err ==> buf == buffer
        }),
{
    let len = buffer.len() as int;
    let (so, rest) = space_loop(events, len);
    match so {
        SpaceOutcome::SFatal(errno) => {},
        SpaceOutcome::SStall => {},
        SpaceOutcome::SReady => {
            lemma_attempts_bounds(rest, len, 0, WRITE_ATTEMPTS as nat);
        },
    }
}

/// Recovery-loop termination under sustained write failure: against a
/// device that reports enough space and then fails each write attempt `n`
/// times (recovering every time) before accepting the whole queue, the
/// write cycle completes when fewer than [`WRITE_ATTEMPTS`] attempts
/// failed; otherwise it exhausts its attempt budget, and — since nothing
/// was sent — drop-and-carry trims exactly one stride from the front and
/// retains the rest.
pub proof fn lemma_recovery_attempts(buffer: Seq<i16>, n: nat, e: i32, avail: u64)
    requires
        2 <= buffer.len() <= u64::MAX,
        buffer.len() % 2 == 0,
        buffer.len() <= avail,
    ensures
        ({
            let script = seq![PollEvent::Avail(avail)] + Seq::new(
                n,
                |i: int| PollEvent::WriteErr { errno: e, recovered: true },
            ) + seq![PollEvent::Wrote((buffer.len() / 2) as u64)];
            let (res, buf) = write_spec(buffer, script);
            &&& n < WRITE_ATTEMPTS ==> res == Ok::<WriteOutcome, Error>(WriteOutcome::Completed)
                && buf == Seq::<i16>::empty()
            &&& n >= WRITE_ATTEMPTS ==> res == Ok::<WriteOutcome, Error>(
                WriteOutcome::Partial { retained: (buffer.len() - 2) as usize },
            ) && buf == buffer.skip(2)
        }),
{
    let len = buffer.len() as int;
    let script = seq![PollEvent::Avail(avail)] + Seq::new(
        n,
        |i: int| PollEvent::WriteErr { errno: e, recovered: true },
    ) + seq![PollEvent::Wrote((buffer.len() / 2) as u64)];
    assert(script[0] == PollEvent::Avail(avail));
    assert(space_loop(script, len) == (SpaceOutcome::SReady, script.skip(1)));
    assert(script.skip(1) =~= Seq::new(
        n,
        |i: int| PollEvent::WriteErr { errno: e, recovered: true },
    ) + seq![PollEvent::Wrote((buffer.len() / 2) as u64)]);
    lemma_attempts_err_then_ok(len, n, WRITE_ATTEMPTS as nat, e);
    if n < WRITE_ATTEMPTS {
        assert(buffer.skip(len) =~= Seq::<i16>::empty());
    }
}

/// The polling engine: an open stream plus the device directory needed to
/// rebuild it on reconfiguration.
#[derive(Debug)]
pub struct ALSADriver {
    /// Names of the enumerated playback devices.
    pub device_names: Vec<String>,
    /// The open device stream and its pending queue.
    pub prev: ALSADriverPrev,
}

impl ALSADriver {
    /// Well-formedness of the engine: a usable stream.
    pub open spec fn wf(&self) -> bool {
        self.prev.wf()
    }

    /// The backend's name.
    pub fn driver() -> (r: &'static str)
        ensures
            r@ == "ALSA"@,
    {
        "ALSA"
    }

    /// Build the engine from one device enumeration and the negotiated
    /// sizes for the first device: open it with the default configuration
    /// (20 ms target latency, 44100 Hz, non-blocking waits).  Fails with
    /// `Error::NoDeviceFound` when the enumeration is empty.
    pub fn new(device_names: Vec<String>, params: &AlsaStreamParams) -> (r: Result<
        ALSADriver,
        Error,
    >)
        requires
            params.wf(),
        ensures
            match r {
                Ok(d) => {
                    &&& device_names@.len() > 0
                    &&& d.wf()
                    &&& d.device_names == device_names
                    &&& d.prev.name@ == device_names@[0]@
                    &&& d.prev.latency == 20
                    &&& d.prev.frequency == 44100
                    &&& d.prev.blocking == false
                    &&& d.prev.buffer@.len() == 0
                    &&& d.prev.buffer_size == params.buffer_size
                    &&& d.prev.period_size == params.period_size
                    &&& d.prev.stream_id == 0
                },
                Err(e) => device_names@.len() == 0 && e matches Error::NoDeviceFound,
            },
    {
        if device_names.len() == 0 {
            return Err(Error::NoDeviceFound);
        }
        let first = device_names[0].clone();
        let prev = ALSADriverPrev::new(first.as_str(), 20, 44100, false, params, 0);
        Ok(ALSADriver { device_names, prev })
    }

    /// Complete a reconfiguration: reopen the stream on the configured
    /// device with the newly negotiated sizes, dropping all pending
    /// samples and giving the stream a fresh identity.
    pub fn install_stream(&mut self, params: &AlsaStreamParams)
        requires
            old(self).wf(),
            params.wf(),
            old(self).prev.stream_id < u64::MAX,
        ensures
            final(self).wf(),
            final(self).device_names == old(self).device_names,
            final(self).prev.blocking == old(self).prev.blocking,
            final(self).prev.buffer@.len() == 0,
            final(self).prev.buffer_size == params.buffer_size,
            final(self).prev.frequency == old(self).prev.frequency,
            final(self).prev.latency == old(self).prev.latency,
            final(self).prev.name@ == old(self).prev.name@,
            final(self).prev.period_size == params.period_size,
            final(self).prev.stream_id == old(self).prev.stream_id + 1,
    {
        let name = self.prev.name.clone();
        let stream_id = self.prev.stream_id + 1;
        self.prev = ALSADriverPrev::new(
            name.as_str(),
            self.prev.latency,
            self.prev.frequency,
            self.prev.blocking,
            params,
            stream_id,
        );
    }

    /// Select a playback device by name.  An unknown name fails with
    /// `Error::DeviceNotFound` and changes nothing; the current name is a
    /// no-op; a genuine change updates the configuration and asks the
    /// caller to rebuild the stream on the new device.
    pub fn set_device(&mut self, device: &str) -> (r: Result<Reconfigure, Error>)
        requires
            old(self).wf(),
        ensures
            final(self).wf(),
            !(exists|i: int|
                0 <= i < old(self).device_names@.len() && (#[trigger] old(
                    self,
                ).device_names@[i])@ == device@) ==> (r matches Err(e) && e matches
                Error::DeviceNotFound(d) && d@ == device@) && *final(self) == *old(self),
            (exists|i: int|
                0 <= i < old(self).device_names@.len() && (#[trigger] old(
                    self,
                ).device_names@[i])@ == device@) && old(self).prev.name@ == device@ ==> r == Ok::<
                Reconfigure,
                Error,
            >(Reconfigure::NotNeeded) && *final(self) == *old(self),
            (exists|i: int|
                0 <= i < old(self).device_names@.len() && (#[trigger] old(
                    self,
                ).device_names@[i])@ == device@) && old(self).prev.name@ != device@ ==> r == Ok::<
                Reconfigure,
                Error,
            >(Reconfigure::Needed) && final(self).prev.name@ == device@
                && final(self).prev.same_stream_but_name(&old(self).prev)
                && final(self).prev.buffer == old(self).prev.buffer
                && final(self).device_names == old(self).device_names,
    {
        let wanted: String = device.to_owned();
        let n = self.device_names.len();
        let mut i: usize = 0;
        let mut found = false;
        while i < n && !found
            invariant
                n == self.device_names@.len(),
                i <= n,
                wanted@ == device@,
                !found ==> forall|j: int| 0 <= j < i ==> self.device_names@[j]@ != device@,
                found ==> i < n && self.device_names@[i as int]@ == device@,
            decreases n - i + (if found { 0int } else { 1int }),
        {
            if self.device_names[i].eq(&wanted) {
                found = true;
            } else {
                i = i + 1;
            }
        }
        if !found {
            return Err(Error::DeviceNotFound(wanted));
        }
        if self.prev.name.eq(&wanted) {
            return Ok(Reconfigure::NotNeeded);
        }
        self.prev.name = wanted;
        Ok(Reconfigure::Needed)
    }

    /// Choose blocking or non-blocking device waits.  The current value is
    /// a no-op; a genuine change updates the configuration and asks the
    /// caller to rebuild the stream (the device is opened with the wait
    /// mode).
    pub fn set_blocking(&mut self, blocking: bool) -> (r: Result<Reconfigure, Error>)
        requires
            old(self).wf(),
        ensures
            final(self).wf(),
            old(self).prev.blocking == blocking ==> r == Ok::<Reconfigure, Error>(
                Reconfigure::NotNeeded,
            ) && *final(self) == *old(self),
            old(self).prev.blocking != blocking ==> r == Ok::<Reconfigure, Error>(
                Reconfigure::Needed,
            ) && *final(self) == (ALSADriver {
                prev: (ALSADriverPrev { blocking, ..old(self).prev }),
                ..*old(self)
            }),
    {
        if self.prev.blocking == blocking {
            return Ok(Reconfigure::NotNeeded);
        }
        self.prev.blocking = blocking;
        Ok(Reconfigure::Needed)
    }

    /// Request a sample rate.  A rate outside the supported set fails with
    /// `Error::Unsupported` and changes nothing; the current rate is a
    /// no-op; a genuine change updates the configuration and asks the
    /// caller to rebuild the stream with it.
    pub fn set_frequency(&mut self, frequency: u32) -> (r: Result<Reconfigure, Error>)
        requires
            old(self).wf(),
        ensures
            final(self).wf(),
            frequency != 44100 && frequency != 48000 && frequency != 96000 ==> (r matches Err(e)
                && e matches Error::Unsupported(p) && p@ == "frequency"@) && *final(self) == *old(
                self,
            ),
            (frequency == 44100 || frequency == 48000 || frequency == 96000) && old(
                self,
            ).prev.frequency == frequency ==> r == Ok::<Reconfigure, Error>(Reconfigure::NotNeeded)
                && *final(self) == *old(self),
            (frequency == 44100 || frequency == 48000 || frequency == 96000) && old(
                self,
            ).prev.frequency != frequency ==> r == Ok::<Reconfigure, Error>(Reconfigure::Needed)
                && *final(self) == (ALSADriver {
                prev: (ALSADriverPrev { frequency, ..old(self).prev }),
                ..*old(self)
            }),
    {
        if !(frequency == 44100 || frequency == 48000 || frequency == 96000) {
            return Err(Error::Unsupported(String::from_str("frequency")));
        }
        if self.prev.frequency == frequency {
            return Ok(Reconfigure::NotNeeded);
        }
        self.prev.frequency = frequency;
        Ok(Reconfigure::Needed)
    }

    /// Request a target latency in milliseconds.  A value outside the
    /// supported set fails with `Error::Unsupported` and changes nothing;
    /// the current value is a no-op; a genuine change updates the
    /// configuration and asks the caller to rebuild the stream with it.
    pub fn set_latency(&mut self, latency: u32) -> (r: Result<Reconfigure, Error>)
        requires
            old(self).wf(),
        ensures
            final(self).wf(),
            !(latency == 20 || latency == 40 || latency == 60 || latency == 80 || latency == 100)
                ==> (r matches Err(e) && e matches Error::Unsupported(p) && p@ == "latency"@)
                && *final(self) == *old(self),
            (latency == 20 || latency == 40 || latency == 60 || latency == 80 || latency == 100)
                && old(self).prev.latency == latency ==> r == Ok::<Reconfigure, Error>(
                Reconfigure::NotNeeded,
            ) && *final(self) == *old(self),
            (latency == 20 || latency == 40 || latency == 60 || latency == 80 || latency == 100)
                && old(self).prev.latency != latency ==> r == Ok::<Reconfigure, Error>(
                Reconfigure::Needed,
            ) && *final(self) == (ALSADriver {
                prev: (ALSADriverPrev { latency, ..old(self).prev }),
                ..*old(self)
            }),
    {
        if !(latency == 20 || latency == 40 || latency == 60 || latency == 80 || latency == 100) {
            return Err(Error::Unsupported(String::from_str("latency")));
        }
        if self.prev.latency == latency {
            return Ok(Reconfigure::NotNeeded);
        }
        self.prev.latency = latency;
        Ok(Reconfigure::Needed)
    }

    /// The hot path: convert one two-channel frame to the 16-bit wire
    /// encoding and append it; once the queue holds a full period
    /// (`period_size` frames, two samples each), run one write cycle
    /// against the recorded device responses.
    ///
    /// Below the threshold nothing is delivered and no device call is
    /// made.
    pub fn output(&mut self, samples: &Vec<i64>, events: &Vec<PollEvent>) -> (r: Result<
        Option<WriteOutcome>,
        Error,
    >)
        requires
            old(self).wf(),
            samples@.len() >= 2,
            valid_amp(samples@[0] as int),
            valid_amp(samples@[1] as int),
        ensures
            final(self).wf(),
            final(self).device_names == old(self).device_names,
            final(self).prev.same_stream(&old(self).prev),
            ({
                let pushed = old(self).prev.buffer@.push(
                    convert_i16_spec(samples@[0] as int) as i16,
                ).push(convert_i16_spec(samples@[1] as int) as i16);
                &&& pushed.len() < old(self).prev.period_size * 2 ==> (r matches Ok(o) && o
                    is None && final(self).prev.buffer@ == pushed)
                &&& pushed.len() >= old(self).prev.period_size * 2 ==> ({
                    let (res, buf) = write_spec(pushed, events@);
                    &&& final(self).prev.buffer@ == buf
                    &&& (res matches Ok(o) ==> r == Ok::<Option<WriteOutcome>, Error>(Some(o)))
                    &&& (res matches Err(e) ==> r == Err::<Option<WriteOutcome>, Error>(e))
                })
            }),
    {
        self.prev.buffer.push(convert_i16(samples[0]));
        self.prev.buffer.push(convert_i16(samples[1]));
        if (self.prev.buffer.len() as u64) >= self.prev.period_size * 2 {
            match self.prev.write(events) {
                Ok(o) => Ok(Some(o)),
                Err(e) => Err(e),
            }
        } else {
            Ok(None)
        }
    }

    /// The names of all enumerated playback devices.
    pub fn support_device_list(&self) -> (r: Vec<String>)
        ensures
            r.deep_view() == self.device_names.deep_view(),
    {
        let n = self.device_names.len();
        let mut out: Vec<String> = Vec::new();
        let mut i: usize = 0;
        while i < n
            invariant
                n == self.device_names@.len(),
                i <= n,
                out@.len() == i,
                forall|j: int| 0 <= j < i ==> out@[j]@ == (#[trigger] self.device_names@[j])@,
            decreases n - i,
        {
            out.push(self.device_names[i].clone());
            i = i + 1;
        }
        assert(out.deep_view() =~= self.device_names.deep_view());
        out
    }

    /// Blocking waits are available on this backend.
    pub fn support_blocking(&self) -> (r: bool)
        ensures
            r == true,
    {
        true
    }

    /// The supported channel counts: stereo only.
    pub fn support_channels(&self) -> (r: Vec<u32>)
        ensures
            r@ == seq![2u32],
    {
        let mut v: Vec<u32> = Vec::new();
        v.push(2);
        proof {
            assert(v@ =~= seq![2u32]);
        }
        v
    }

    /// The supported sample rates, in Hz.
    pub fn support_frequencies(&self) -> (r: Vec<u32>)
        ensures
            r@ == seq![44100u32, 48000u32, 96000u32],
    {
        let mut v: Vec<u32> = Vec::new();
        v.push(44100);
        v.push(48000);
        v.push(96000);
        proof {
            assert(v@ =~= seq![44100u32, 48000u32, 96000u32]);
        }
        v
    }

    /// The selectable target latencies, in milliseconds.
    pub fn support_latencies(&self) -> (r: Vec<u32>)
        ensures
            r@ == seq![20u32, 40u32, 60u32, 80u32, 100u32],
    {
        let mut v: Vec<u32> = Vec::new();
        v.push(20);
        v.push(40);
        v.push(60);
        v.push(80);
        v.push(100);
        proof {
            assert(v@ =~= seq![20u32, 40u32, 60u32, 80u32, 100u32]);
        }
        v
    }
}

} // verus!
