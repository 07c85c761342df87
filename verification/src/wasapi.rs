//! The event-driven audio output engine (shared / exclusive render-client
//! style).
//!
//! The hardware stream exposes a readiness event.  Each `output` call pushes
//! one frame onto the pending queue; once the queue reaches the hardware's
//! full buffer size the engine waits on the event (infinite timeout in
//! blocking mode, zero timeout otherwise) and, when signalled, submits
//! `min(available, queued)` frames, where `available` is the full buffer in
//! exclusive mode and `bufferSize - padding` in shared mode.
//!
//! Everything the operating system reports enters as a plain value: the
//! negotiated stream format as a [`NegotiatedStream`], the readiness-event
//! outcome as a `bool`, the current padding as a `u32`.  The unverified
//! shell performs the waits and copies each [`Submission`] into the
//! hardware-provided memory region.

use vstd::prelude::*;
use crate::convert::amp_from_i16;
use crate::convert::clamp_amp;
use crate::convert::clamp_amp_spec;
use crate::convert::convert_i16;
use crate::convert::convert_i16_spec;
use crate::convert::convert_i32;
use crate::convert::convert_i32_spec;
use crate::convert::valid_amp;
use crate::convert::valid_frame;
use crate::devices::has_first_match;
use crate::devices::list_devices;
use crate::devices::id_for_name;
use crate::devices::ordered_prefix;
use crate::errors::Error;
use crate::Reconfigure;

verus! {

/// The wire encoding negotiated for a hardware stream.
///
/// Only three encodings are supported; anything else degrades to silence
/// output rather than writing undefined bytes.
#[derive(Clone, Copy, Debug, PartialEq, Eq, Structural)]
pub enum SampleEncoding {
    Int16,
    Int32,
    Float32,
    Unsupported,
}

/// The encoding of a wave format tag and bit depth: tag `1` is integer PCM,
/// tag `3` is IEEE float.
pub open spec fn classify_encoding_spec(mode: u32, precision: u16) -> SampleEncoding {
    if mode == 1 && precision == 16 {
        SampleEncoding::Int16
    } else if mode == 1 && precision == 32 {
        SampleEncoding::Int32
    } else if mode == 3 && precision == 32 {
        SampleEncoding::Float32
    } else {
        SampleEncoding::Unsupported
    }
}

/// Classify a negotiated wave format tag and bit depth.
pub fn classify_encoding(mode: u32, precision: u16) -> (r: SampleEncoding)
    ensures
        r == classify_encoding_spec(mode, precision),
{
    if mode == 1 && precision == 16 {
        SampleEncoding::Int16
    } else if mode == 1 && precision == 32 {
        SampleEncoding::Int32
    } else if mode == 3 && precision == 32 {
        SampleEncoding::Float32
    } else {
        SampleEncoding::Unsupported
    }
}

/// What the negotiator got back from the operating system after opening a
/// stream: the actual (hardware-snapped) values, never the requested ones.
#[derive(Clone, Copy, Debug, PartialEq, Eq, Structural)]
pub struct NegotiatedStream {
    /// Total frames the hardware buffer can hold before overrun.
    pub buffer_size: u32,
    /// Samples per frame.
    pub channels: u16,
    /// Sample rate in Hz.
    pub frequency: u32,
    /// Wave format tag: `1` integer PCM, `3` IEEE float.
    pub mode: u32,
    /// Bits per sample.
    pub precision: u16,
}

impl NegotiatedStream {
    /// A hardware stream always has at least one channel and a non-empty
    /// buffer.
    pub open spec fn wf(&self) -> bool {
        &&& self.channels >= 1
        &&& self.buffer_size >= 1
    }
}

/// The engine's target buffer duration, converted to the backend's 100 ns
/// time unit and clamped to be no smaller than the device's minimum
/// achievable period.
pub fn effective_latency(device_period: i64, latency_ms: u32) -> (r: i64)
    requires
        device_period >= 0,
    ensures
        r == if device_period > latency_ms * 10000 {
            device_period as int
        } else {
            (latency_ms * 10000) as int
        },
{
    let hns: i64 = (latency_ms as i64) * 10000;
    if device_period > hns {
        device_period
    } else {
        hns
    }
}

/// One batch of frames converted to the negotiated wire encoding, ready to
/// be copied into the hardware buffer.  `Float32` carries clamped
/// fixed-point amplitudes; the shell divides them by `AMP_ONE` when storing.
/// `Silence` asks the hardware to render silence for the submitted frames
/// because the negotiated encoding is unsupported.
#[derive(Debug, PartialEq, Eq)]
pub enum EncodedBatch {
    Int16(Vec<i16>),
    Int32(Vec<i32>),
    Float32(Vec<i64>),
    Silence,
}

/// One hardware submission: how many frames to release and their encoded
/// samples.
#[derive(Debug, PartialEq, Eq)]
pub struct Submission {
    pub frames: u32,
    pub batch: EncodedBatch,
}

/// How many frames the hardware can currently accept: the full buffer in
/// exclusive mode, the buffer minus the unconsumed padding in shared mode.
pub open spec fn avail_frames(exclusive: bool, buffer_size: u32, padding: u32) -> int {
    if exclusive {
        buffer_size as int
    } else {
        buffer_size - padding
    }
}

/// How many frames one delivery submits: `min(available, queued)`.
pub open spec fn deliver_count(
    exclusive: bool,
    buffer_size: u32,
    padding: u32,
    queued: int,
) -> int {
    let avail = avail_frames(exclusive, buffer_size, padding);
    if avail < queued {
        avail
    } else {
        queued
    }
}

/// The flattening of a run of frames through a per-sample conversion, in
/// submission order.
pub open spec fn encode_frames(frames: Seq<Seq<i64>>, conv: spec_fn(i64) -> int) -> Seq<int>
    decreases frames.len(),
{
    if frames.len() == 0 {
        Seq::empty()
    } else {
        frames[0].map_values(conv) + encode_frames(frames.drop_first(), conv)
    }
}

/// Extending the encoded run by one frame appends that frame's converted
/// samples.
pub proof fn lemma_encode_frames_take_step(
    frames: Seq<Seq<i64>>,
    conv: spec_fn(i64) -> int,
    j: int,
)
    requires
        0 <= j < frames.len(),
    ensures
        encode_frames(frames.take(j + 1), conv) == encode_frames(frames.take(j), conv)
            + frames[j].map_values(conv),
    decreases j,
{
    let t1 = frames.take(j + 1);
    if j == 0 {
        assert(t1.drop_first() =~= Seq::<Seq<i64>>::empty());
        assert(t1[0] == frames[0]);
        assert(encode_frames(Seq::<Seq<i64>>::empty(), conv) =~= Seq::<int>::empty());
        assert(encode_frames(t1, conv) =~= frames[0].map_values(conv));
        assert(frames.take(0) =~= Seq::<Seq<i64>>::empty());
        assert(encode_frames(frames.take(0), conv) + frames[0].map_values(conv)
            =~= frames[0].map_values(conv));
    } else {
        let rest = frames.drop_first();
        assert(t1.drop_first() =~= rest.take(j));
        assert(frames.take(j).drop_first() =~= rest.take(j - 1));
        lemma_encode_frames_take_step(rest, conv, j - 1);
        assert(rest[j - 1] == frames[j]);
        assert(frames[0].map_values(conv) + (encode_frames(rest.take(j - 1), conv) + frames[
            j
        ].map_values(conv)) =~= (frames[0].map_values(conv) + encode_frames(
            rest.take(j - 1),
            conv,
        )) + frames[j].map_values(conv));
    }
}

/// The per-sample conversion of the 16-bit integer encoding, as a spec
/// closure.
pub open spec fn conv16() -> spec_fn(i64) -> int {
    |n: i64| convert_i16_spec(n as int)
}

/// The per-sample conversion of the 32-bit integer encoding.
pub open spec fn conv32() -> spec_fn(i64) -> int {
    |n: i64| convert_i32_spec(n as int)
}

/// The per-sample conversion of the 32-bit float encoding: a clamp.
pub open spec fn convf() -> spec_fn(i64) -> int {
    |n: i64| clamp_amp_spec(n as int)
}

/// Convert one frame to 16-bit integer samples.
fn convert_frame_i16(frame: &Vec<i64>) -> (out: Vec<i16>)
    requires
        valid_frame(frame@),
    ensures
        out@.map_values(|x: i16| x as int) == frame@.map_values(conv16()),
{
    let mut out: Vec<i16> = Vec::new();
    let n = frame.len();
    let mut c: usize = 0;
    while c < n
        invariant
            n == frame@.len(),
            c <= n,
            valid_frame(frame@),
            out@.len() == c,
            out@.map_values(|x: i16| x as int) =~= frame@.map_values(conv16()).take(c as int),
        decreases n - c,
    {
        out.push(convert_i16(frame[c]));
        assert(out@.map_values(|x: i16| x as int) =~= frame@.map_values(conv16()).take(
            c + 1,
        ));
        c = c + 1;
    }
    assert(frame@.map_values(conv16()).take(n as int) =~= frame@.map_values(conv16()));
    out
}

/// Convert one frame to 32-bit integer samples.
fn convert_frame_i32(frame: &Vec<i64>) -> (out: Vec<i32>)
    requires
        valid_frame(frame@),
    ensures
        out@.map_values(|x: i32| x as int) == frame@.map_values(conv32()),
{
    let mut out: Vec<i32> = Vec::new();
    let n = frame.len();
    let mut c: usize = 0;
    while c < n
        invariant
            n == frame@.len(),
            c <= n,
            valid_frame(frame@),
            out@.len() == c,
            out@.map_values(|x: i32| x as int) =~= frame@.map_values(conv32()).take(c as int),
        decreases n - c,
    {
        out.push(convert_i32(frame[c]));
        assert(out@.map_values(|x: i32| x as int) =~= frame@.map_values(conv32()).take(
            c + 1,
        ));
        c = c + 1;
    }
    assert(frame@.map_values(conv32()).take(n as int) =~= frame@.map_values(conv32()));
    out
}

/// Clamp one frame for the 32-bit float encoding.
fn convert_frame_clamp(frame: &Vec<i64>) -> (out: Vec<i64>)
    ensures
        out@.map_values(|x: i64| x as int) == frame@.map_values(convf()),
{
    let mut out: Vec<i64> = Vec::new();
    let n = frame.len();
    let mut c: usize = 0;
    while c < n
        invariant
            n == frame@.len(),
            c <= n,
            out@.len() == c,
            out@.map_values(|x: i64| x as int) =~= frame@.map_values(convf()).take(c as int),
        decreases n - c,
    {
        out.push(clamp_amp(frame[c]));
        assert(out@.map_values(|x: i64| x as int) =~= frame@.map_values(convf()).take(c + 1));
        c = c + 1;
    }
    assert(frame@.map_values(convf()).take(n as int) =~= frame@.map_values(convf()));
    out
}

/// One open hardware stream together with the pending frames that have not
/// yet been submitted to it.
///
/// `stream_id` models the identity of the underlying OS stream handle: it
/// changes exactly when the stream is torn down and rebuilt, so idempotent
/// setters can be seen to leave the hardware stream untouched.
#[derive(Debug)]
pub struct WASAPIDriverPrev {
    /// Total frames the hardware buffer holds (actual negotiated value).
    pub buffer_size: u32,
    /// Samples per frame (actual negotiated value).
    pub channels: u16,
    /// Whether the stream was opened in exclusive mode.
    pub exclusive: bool,
    /// Negotiated sample rate in Hz.
    pub frequency: u32,
    /// The caller's target latency in milliseconds.
    pub latency: u32,
    /// Negotiated wave format tag (`1` integer PCM, `3` IEEE float).
    pub mode: u32,
    /// Negotiated bits per sample.
    pub precision: u16,
    /// Pending frames, oldest first; one fixed-point amplitude per channel.
    pub samples: Vec<Vec<i64>>,
    /// Identity of the open hardware stream.
    pub stream_id: u64,
}

impl WASAPIDriverPrev {
    /// The pending queue as a sequence of frames of fixed-point amplitudes.
    pub open spec fn frames_view(&self) -> Seq<Seq<i64>> {
        self.samples@.map_values(|f: Vec<i64>| f@)
    }

    /// The negotiated encoding of this stream.
    pub open spec fn encoding(&self) -> SampleEncoding {
        classify_encoding_spec(self.mode, self.precision)
    }

    /// Well-formedness: a usable stream and a queue of whole, valid frames.
    pub open spec fn wf(&self) -> bool {
        &&& self.channels >= 1
        &&& self.buffer_size >= 1
        &&& forall|i: int|
            0 <= i < self.samples@.len() ==> (#[trigger] self.samples@[i])@.len()
                == self.channels && valid_frame(self.samples@[i]@)
    }

    /// The configuration and negotiated format, without the pending queue:
    /// what a delivery leaves untouched.
    pub open spec fn same_stream(&self, other: &Self) -> bool {
        &&& self.buffer_size == other.buffer_size
        &&& self.channels == other.channels
        &&& self.exclusive == other.exclusive
        &&& self.frequency == other.frequency
        &&& self.latency == other.latency
        &&& self.mode == other.mode
        &&& self.precision == other.precision
        &&& self.stream_id == other.stream_id
    }

    /// Open a stream: adopt the actual negotiated format, with an empty
    /// pending queue.
    pub fn new(exclusive: bool, latency: u32, neg: &NegotiatedStream, stream_id: u64) -> (r:
        WASAPIDriverPrev)
        requires
            neg.wf(),
        ensures
            r.wf(),
            r.buffer_size == neg.buffer_size,
            r.channels == neg.channels,
            r.exclusive == exclusive,
            r.frequency == neg.frequency,
            r.latency == latency,
            r.mode == neg.mode,
            r.precision == neg.precision,
            r.samples@.len() == 0,
            r.stream_id == stream_id,
    {
        WASAPIDriverPrev {
            buffer_size: neg.buffer_size,
            channels: neg.channels,
            exclusive,
            frequency: neg.frequency,
            latency,
            mode: neg.mode,
            precision: neg.precision,
            samples: Vec::new(),
            stream_id,
        }
    }

    /// Deliver pending frames to the hardware.
    ///
    /// `padding` is the device's current count of submitted-but-unconsumed
    /// frames (queried in shared mode; pass `0` in exclusive mode, where the
    /// full buffer is assumed available).  Submits
    /// `min(available, queued)` frames converted to the negotiated
    /// encoding, removing them from the front of the queue.  With an
    /// unsupported encoding the submission carries the silence flag instead
    /// of sample data and a single frame is consumed.
    pub fn write(&mut self, padding: u32) -> (r: Submission)
        requires
            old(self).wf(),
            padding <= old(self).buffer_size,
        ensures
            final(self).wf(),
            final(self).same_stream(old(self)),
            r.frames == deliver_count(
                old(self).exclusive,
                old(self).buffer_size,
                padding,
                old(self).frames_view().len() as int,
            ),
            !old(self).exclusive ==> r.frames <= old(self).buffer_size - padding,
            old(self).encoding() != SampleEncoding::Unsupported ==> final(self).frames_view()
                == old(self).frames_view().skip(r.frames as int),
            old(self).encoding() == SampleEncoding::Int16 ==> (r.batch matches EncodedBatch::Int16(
                out,
            ) && out@.map_values(|x: i16| x as int) == encode_frames(
                old(self).frames_view().take(r.frames as int),
                conv16(),
            )),
            old(self).encoding() == SampleEncoding::Int32 ==> (r.batch matches EncodedBatch::Int32(
                out,
            ) && out@.map_values(|x: i32| x as int) == encode_frames(
                old(self).frames_view().take(r.frames as int),
                conv32(),
            )),
            old(self).encoding() == SampleEncoding::Float32 ==> (r.batch
                matches EncodedBatch::Float32(out) && out@.map_values(|x: i64| x as int)
                == encode_frames(old(self).frames_view().take(r.frames as int), convf())),
            old(self).encoding() == SampleEncoding::Unsupported ==> (r.batch
                matches EncodedBatch::Silence && final(self).frames_view() == old(
                self,
            ).frames_view().skip(if r.frames > 0 { 1int } else { 0int })),
    {
        let available: u32 = if !self.exclusive {
            self.buffer_size - padding
        } else {
            self.buffer_size
        };
        let queued = self.samples.len();
        let length: u32 = if (available as usize) < queued {
            available
        } else {
            queued as u32
        };
        let ghost fv = self.frames_view();
        let ghost pre = *self;

        match classify_encoding(self.mode, self.precision) {
            SampleEncoding::Int16 => {
                let mut out: Vec<i16> = Vec::new();
                let mut i: u32 = 0;
                while i < length
                    invariant
                        pre.wf(),
                        i <= length,
                        length <= fv.len(),
                        fv == pre.frames_view(),
                        self.samples@ == pre.samples@.skip(i as int),
                        out@.map_values(|x: i16| x as int) == encode_frames(
                            fv.take(i as int),
                            conv16(),
                        ),
                        self.same_stream(&pre),
                        self.wf(),
                    decreases length - i,
                {
                    let frame = self.samples.remove(0);
                    assert(frame@ == fv[i as int]);
                    let mut enc = convert_frame_i16(&frame);
                    proof {
                        lemma_encode_frames_take_step(fv, conv16(), i as int);
                    }
                    out.append(&mut enc);
                    assert(out@.map_values(|x: i16| x as int) =~= encode_frames(
                        fv.take(i + 1),
                        conv16(),
                    ));
                    assert(self.samples@ =~= pre.samples@.skip(i + 1));
                    i = i + 1;
                }
                assert(self.frames_view() =~= fv.skip(length as int));
                Submission { frames: length, batch: EncodedBatch::Int16(out) }
            },
            SampleEncoding::Int32 => {
                let mut out: Vec<i32> = Vec::new();
                let mut i: u32 = 0;
                while i < length
                    invariant
                        pre.wf(),
                        i <= length,
                        length <= fv.len(),
                        fv == pre.frames_view(),
                        self.samples@ == pre.samples@.skip(i as int),
                        out@.map_values(|x: i32| x as int) == encode_frames(
                            fv.take(i as int),
                            conv32(),
                        ),
                        self.same_stream(&pre),
                        self.wf(),
                    decreases length - i,
                {
                    let frame = self.samples.remove(0);
                    assert(frame@ == fv[i as int]);
                    let mut enc = convert_frame_i32(&frame);
                    proof {
                        lemma_encode_frames_take_step(fv, conv32(), i as int);
                    }
                    out.append(&mut enc);
                    assert(out@.map_values(|x: i32| x as int) =~= encode_frames(
                        fv.take(i + 1),
                        conv32(),
                    ));
                    assert(self.samples@ =~= pre.samples@.skip(i + 1));
                    i = i + 1;
                }
                assert(self.frames_view() =~= fv.skip(length as int));
                Submission { frames: length, batch: EncodedBatch::Int32(out) }
            },
            SampleEncoding::Float32 => {
                let mut out: Vec<i64> = Vec::new();
                let mut i: u32 = 0;
                while i < length
                    invariant
                        pre.wf(),
                        i <= length,
                        length <= fv.len(),
                        fv == pre.frames_view(),
                        self.samples@ == pre.samples@.skip(i as int),
                        out@.map_values(|x: i64| x as int) == encode_frames(
                            fv.take(i as int),
                            convf(),
                        ),
                        self.same_stream(&pre),
                        self.wf(),
                    decreases length - i,
                {
                    let frame = self.samples.remove(0);
                    assert(frame@ == fv[i as int]);
                    let mut enc = convert_frame_clamp(&frame);
                    proof {
                        lemma_encode_frames_take_step(fv, convf(), i as int);
                    }
                    out.append(&mut enc);
                    assert(out@.map_values(|x: i64| x as int) =~= encode_frames(
                        fv.take(i + 1),
                        convf(),
                    ));
                    assert(self.samples@ =~= pre.samples@.skip(i + 1));
                    i = i + 1;
                }
                assert(self.frames_view() =~= fv.skip(length as int));
                Submission { frames: length, batch: EncodedBatch::Float32(out) }
            },
            SampleEncoding::Unsupported => {
                if length > 0 {
                    let _ = self.samples.remove(0);
                    assert(self.frames_view() =~= fv.skip(1));
                } else {
                    assert(self.frames_view() =~= fv.skip(0));
                }
                Submission { frames: length, batch: EncodedBatch::Silence }
            },
        }
    }

    /// Drop all pending frames.
    ///
    /// The shell additionally stops, resets and restarts the hardware
    /// transport; the stream itself stays open, so its identity is
    /// unchanged — this is an abrupt flush, not a reconfiguration.
    pub fn clear(&mut self)
        requires
            old(self).wf(),
        ensures
            final(self).wf(),
            final(self).same_stream(old(self)),
            final(self).samples@.len() == 0,
    {
        self.samples.clear();
    }
}

/// Everything one delivery promises, over the frame sequences before and
/// after it: how many frames were submitted, what the hardware received for
/// each supported encoding, and which frames remain queued.
pub open spec fn delivery_post(
    exclusive: bool,
    buffer_size: u32,
    encoding: SampleEncoding,
    pre_frames: Seq<Seq<i64>>,
    post_frames: Seq<Seq<i64>>,
    padding: u32,
    r: Submission,
) -> bool {
    let cnt = deliver_count(exclusive, buffer_size, padding, pre_frames.len() as int);
    &&& r.frames == cnt
    &&& !exclusive ==> r.frames <= buffer_size - padding
    &&& encoding != SampleEncoding::Unsupported ==> post_frames == pre_frames.skip(cnt)
    &&& encoding == SampleEncoding::Int16 ==> (r.batch matches EncodedBatch::Int16(out)
        && out@.map_values(|x: i16| x as int) == encode_frames(pre_frames.take(cnt), conv16()))
    &&& encoding == SampleEncoding::Int32 ==> (r.batch matches EncodedBatch::Int32(out)
        && out@.map_values(|x: i32| x as int) == encode_frames(pre_frames.take(cnt), conv32()))
    &&& encoding == SampleEncoding::Float32 ==> (r.batch matches EncodedBatch::Float32(out)
        && out@.map_values(|x: i64| x as int) == encode_frames(pre_frames.take(cnt), convf()))
    &&& encoding == SampleEncoding::Unsupported ==> (r.batch matches EncodedBatch::Silence
        && post_frames == pre_frames.skip(if cnt > 0 { 1int } else { 0int }))
}

/// The UTF-16 code units of a string, as produced by the standard encoder:
/// a function of the characters alone.
pub uninterp spec fn utf16_units_of(s: Seq<char>) -> Seq<u16>;

/// Relies on `str::encode_utf16`: yields the UTF-16 code units of the
/// string, determined by its characters alone; an empty string yields no
/// units.
#[verifier::external_body]
fn encode_utf16_units(s: &str) -> (r: Vec<u16>)
    ensures
        r@ == utf16_units_of(s@),
        s@.len() == 0 ==> r@.len() == 0,
{
    s.encode_utf16().collect()
}

/// A NUL-terminated wide (UTF-16) form of a string, as OS device lookups
/// expect.
pub fn str_to_pcwstr(s: &str) -> (r: Vec<u16>)
    ensures
        r@ == utf16_units_of(s@).push(0),
        r@.len() >= 1,
        r@[r@.len() - 1] == 0,
{
    let mut v = encode_utf16_units(s);
    v.push(0);
    v
}

/// The event-driven engine: an open stream plus the device directory state
/// needed to rebuild it on reconfiguration.
#[derive(Debug)]
pub struct WASAPIDriver {
    /// The open hardware stream and its pending queue.
    pub prev: WASAPIDriverPrev,
    /// Display name of the currently selected endpoint.
    pub current_device_name: String,
    /// Display names of all endpoints, default first.
    pub device_names: Vec<String>,
    /// Backend identifiers paired with `device_names`.
    pub device_ids: Vec<String>,
    /// Whether a full queue waits for the readiness event (infinite
    /// timeout) or polls it (zero timeout).
    pub blocking: bool,
}

impl WASAPIDriver {
    /// Well-formedness: a usable stream and a consistent device directory.
    pub open spec fn wf(&self) -> bool {
        &&& self.prev.wf()
        &&& self.device_names@.len() == self.device_ids@.len()
    }

    /// The backend's name.
    pub fn driver() -> (r: &'static str)
        ensures
            r@ == "WASAPI"@,
    {
        "WASAPI"
    }

    /// Build the engine from one device enumeration and the negotiated
    /// default stream: order the endpoints default-first, select the
    /// default, and open in shared mode with the default target latency of
    /// 40 ms and blocking waits.
    pub fn new(
        names: Vec<String>,
        ids: Vec<String>,
        default_id: &String,
        neg: &NegotiatedStream,
    ) -> (r: Result<WASAPIDriver, Error>)
        requires
            names@.len() == ids@.len(),
            neg.wf(),
        ensures
            match r {
                Ok(d) => {
                    &&& names@.len() > 0
                    &&& d.wf()
                    &&& d.device_names.deep_view() == ordered_prefix(
                        names.deep_view(),
                        ids.deep_view(),
                        default_id@,
                        names@.len() as int,
                    )
                    &&& d.device_ids.deep_view() == ordered_prefix(
                        ids.deep_view(),
                        ids.deep_view(),
                        default_id@,
                        ids@.len() as int,
                    )
                    &&& d.current_device_name@ == d.device_names.deep_view()[0]
                    &&& d.prev.exclusive == false
                    &&& d.prev.latency == 40
                    &&& d.prev.samples@.len() == 0
                    &&& d.prev.stream_id == 0
                    &&& d.prev.buffer_size == neg.buffer_size
                    &&& d.prev.channels == neg.channels
                    &&& d.prev.frequency == neg.frequency
                    &&& d.prev.mode == neg.mode
                    &&& d.prev.precision == neg.precision
                    &&& d.blocking == true
                },
                Err(e) => names@.len() == 0 && e matches Error::NoDeviceFound,
            },
    {
        let listed = list_devices(&names, &ids, default_id);
        match listed {
            Ok(p) => {
                let (ordered_names, ordered_ids) = p;
                proof {
                    crate::devices::lemma_ordered_prefix_len(
                        names.deep_view(),
                        ids.deep_view(),
                        default_id@,
                        names@.len() as int,
                    );
                }
                let current = ordered_names[0].clone();
                let prev = WASAPIDriverPrev::new(false, 40, neg, 0);
                Ok(WASAPIDriver {
                    prev,
                    current_device_name: current,
                    device_names: ordered_names,
                    device_ids: ordered_ids,
                    blocking: true,
                })
            },
            Err(e) => Err(e),
        }
    }

    /// The backend identifier of the currently selected endpoint: what a
    /// rebuild must open.  Fails with `Error::DeviceNotFound` when the
    /// selected name is not in the directory.
    pub fn current_device_id(&self) -> (r: Result<String, Error>)
        requires
            self.wf(),
        ensures
            match r {
                Ok(id) => has_first_match(
                    self.device_names.deep_view(),
                    self.device_ids.deep_view(),
                    self.current_device_name@,
                    id@,
                ),
                Err(e) => {
                    &&& forall|i: int|
                        0 <= i < self.device_names@.len() ==> self.device_names@[i]@
                            != self.current_device_name@
                    &&& e matches Error::DeviceNotFound(d) && d@ == self.current_device_name@
                },
            },
    {
        id_for_name(&self.device_names, &self.device_ids, &self.current_device_name)
    }

    /// Complete a reconfiguration: adopt the newly negotiated stream,
    /// dropping all pending frames (they were sized for the old stream) and
    /// giving the stream a fresh identity.  Configuration and directory are
    /// kept.
    pub fn install_stream(&mut self, neg: &NegotiatedStream)
        requires
            old(self).wf(),
            neg.wf(),
            old(self).prev.stream_id < u64::MAX,
        ensures
            final(self).wf(),
            final(self).prev.buffer_size == neg.buffer_size,
            final(self).prev.channels == neg.channels,
            final(self).prev.frequency == neg.frequency,
            final(self).prev.mode == neg.mode,
            final(self).prev.precision == neg.precision,
            final(self).prev.exclusive == old(self).prev.exclusive,
            final(self).prev.latency == old(self).prev.latency,
            final(self).prev.samples@.len() == 0,
            final(self).prev.stream_id == old(self).prev.stream_id + 1,
            final(self).current_device_name == old(self).current_device_name,
            final(self).device_names == old(self).device_names,
            final(self).device_ids == old(self).device_ids,
            final(self).blocking == old(self).blocking,
    {
        let stream_id = self.prev.stream_id + 1;
        self.prev = WASAPIDriverPrev::new(self.prev.exclusive, self.prev.latency, neg, stream_id);
    }

    /// Request exclusive or shared mode.  The same value as currently held
    /// is a no-op; a genuine change updates the configuration and asks the
    /// caller to rebuild the stream with it.
    pub fn set_exclusive(&mut self, exclusive: bool) -> (r: Result<Reconfigure, Error>)
        requires
            old(self).wf(),
        ensures
            final(self).wf(),
            old(self).prev.exclusive == exclusive ==> r == Ok::<Reconfigure, Error>(
                Reconfigure::NotNeeded,
            ) && *final(self) == *old(self),
            old(self).prev.exclusive != exclusive ==> r == Ok::<Reconfigure, Error>(
                Reconfigure::Needed,
            ) && *final(self) == (WASAPIDriver {
                prev: (WASAPIDriverPrev { exclusive, ..old(self).prev }),
                ..*old(self)
            }),
    {
        if self.prev.exclusive == exclusive {
            return Ok(Reconfigure::NotNeeded);
        }
        self.prev.exclusive = exclusive;
        Ok(Reconfigure::Needed)
    }

    /// Select an output device by display name.  The current name is a
    /// no-op; an unknown name fails with `Error::DeviceNotFound` and leaves
    /// the engine unchanged; a genuine change updates the selection and
    /// asks the caller to rebuild the stream on the new device.
    pub fn set_device(&mut self, device: &str) -> (r: Result<Reconfigure, Error>)
        requires
            old(self).wf(),
        ensures
            final(self).wf(),
            old(self).current_device_name@ == device@ ==> r == Ok::<Reconfigure, Error>(
                Reconfigure::NotNeeded,
            ) && *final(self) == *old(self),
            old(self).current_device_name@ != device@ && (exists|i: int|
                0 <= i < old(self).device_names@.len() && (#[trigger] old(
                    self,
                ).device_names@[i])@ == device@) ==> r == Ok::<Reconfigure, Error>(
                Reconfigure::Needed,
            ) && final(self).current_device_name@ == device@ && final(self).prev == old(self).prev
                && final(self).device_names == old(self).device_names && final(self).device_ids
                == old(self).device_ids && final(self).blocking == old(self).blocking,
            old(self).current_device_name@ != device@ && !(exists|i: int|
                0 <= i < old(self).device_names@.len() && (#[trigger] old(
                    self,
                ).device_names@[i])@ == device@) ==> (r matches Err(e) && e matches
                Error::DeviceNotFound(d) && d@ == device@) && *final(self) == *old(self),
    {
        let wanted: String = device.to_owned();
        if self.current_device_name.eq(&wanted) {
            return Ok(Reconfigure::NotNeeded);
        }
        let n = self.device_names.len();
        let mut i: usize = 0;
        let mut found = false;
        while i < n && !found
            invariant
                n == self.device_names@.len(),
                i <= n,
                wanted@ == device@,
                !found ==> forall|j: int| 0 <= j < i ==> self.device_names@[j]@ != device@,
                found ==> i < n && self.device_names@[i as int]@ == device@,
            decreases n - i + (if found { 0int } else { 1int }),
        {
            if self.device_names[i].eq(&wanted) {
                found = true;
            } else {
                i = i + 1;
            }
        }
        if !found {
            return Err(Error::DeviceNotFound(wanted));
        }
        self.current_device_name = wanted;
        Ok(Reconfigure::Needed)
    }

    /// Choose blocking or polling waits.  This only affects how a full
    /// queue waits for the readiness event; the hardware stream itself is
    /// never rebuilt for it.
    pub fn set_blocking(&mut self, blocking: bool) -> (r: Result<Reconfigure, Error>)
        requires
            old(self).wf(),
        ensures
            final(self).wf(),
            r == Ok::<Reconfigure, Error>(Reconfigure::NotNeeded),
            old(self).blocking == blocking ==> *final(self) == *old(self),
            old(self).blocking != blocking ==> *final(self) == (WASAPIDriver {
                blocking,
                ..*old(self)
            }),
    {
        if self.blocking == blocking {
            return Ok(Reconfigure::NotNeeded);
        }
        self.blocking = blocking;
        Ok(Reconfigure::NotNeeded)
    }

    /// Request a target latency in milliseconds.  The current value is a
    /// no-op; a genuine change updates the configuration and asks the
    /// caller to rebuild the stream with it.
    pub fn set_latency(&mut self, latency: u32) -> (r: Result<Reconfigure, Error>)
        requires
            old(self).wf(),
        ensures
            final(self).wf(),
            old(self).prev.latency == latency ==> r == Ok::<Reconfigure, Error>(
                Reconfigure::NotNeeded,
            ) && *final(self) == *old(self),
            old(self).prev.latency != latency ==> r == Ok::<Reconfigure, Error>(
                Reconfigure::Needed,
            ) && *final(self) == (WASAPIDriver {
                prev: (WASAPIDriverPrev { latency, ..old(self).prev }),
                ..*old(self)
            }),
    {
        if self.prev.latency == latency {
            return Ok(Reconfigure::NotNeeded);
        }
        self.prev.latency = latency;
        Ok(Reconfigure::Needed)
    }

    /// Push one frame and deliver if the queue has reached the hardware
    /// buffer size.
    fn push_and_deliver(&mut self, frame: Vec<i64>, signaled: bool, padding: u32) -> (r: Result<
        Option<Submission>,
        Error,
    >)
        requires
            old(self).wf(),
            frame@.len() == old(self).prev.channels,
            valid_frame(frame@),
            padding <= old(self).prev.buffer_size,
        ensures
            final(self).wf(),
            final(self).prev.same_stream(&old(self).prev),
            final(self).current_device_name == old(self).current_device_name,
            final(self).device_names == old(self).device_names,
            final(self).device_ids == old(self).device_ids,
            final(self).blocking == old(self).blocking,
            ({
                let pushed = old(self).prev.frames_view().push(frame@);
                &&& pushed.len() < old(self).prev.buffer_size ==> (r matches Ok(o) && o
                    is None && final(self).prev.frames_view() == pushed)
                &&& pushed.len() >= old(self).prev.buffer_size && !old(self).blocking && !signaled
                    ==> (r matches Err(e) && e is WaitTimeout && final(self).prev.frames_view()
                    == pushed)
                &&& pushed.len() >= old(self).prev.buffer_size && (old(self).blocking || signaled)
                    ==> (r matches Ok(o) && o matches Some(sub) && delivery_post(
                    old(self).prev.exclusive,
                    old(self).prev.buffer_size,
                    old(self).prev.encoding(),
                    pushed,
                    final(self).prev.frames_view(),
                    padding,
                    sub,
                ))
            }),
    {
        self.prev.samples.push(frame);
        assert(self.prev.frames_view() =~= old(self).prev.frames_view().push(frame@));
        if self.prev.samples.len() >= self.prev.buffer_size as usize {
            if self.blocking || signaled {
                let sub = self.prev.write(padding);
                Ok(Some(sub))
            } else {
                Err(Error::WaitTimeout)
            }
        } else {
            Ok(None)
        }
    }

    /// The hot path: push one frame of fixed-point amplitudes (the first
    /// `channels` samples of `samples`) and, once the queue has reached the
    /// hardware buffer size, wait for readiness and deliver.
    ///
    /// Below the threshold nothing is submitted, converted or waited for.
    /// At the threshold, a non-blocking engine whose event was not
    /// signalled fails with `Error::WaitTimeout` (the frame stays queued);
    /// otherwise one delivery of `min(available, queued)` frames happens,
    /// with `available` as [`avail_frames`] says.
    ///
    /// `signaled` is the readiness-event outcome the shell observed and
    /// `padding` the device's unconsumed-frame count; both are only read
    /// when the threshold was reached.
    pub fn output(&mut self, samples: &Vec<i64>, signaled: bool, padding: u32) -> (r: Result<
        Option<Submission>,
        Error,
    >)
        requires
            old(self).wf(),
            samples@.len() >= old(self).prev.channels,
            valid_frame(samples@.take(old(self).prev.channels as int)),
            padding <= old(self).prev.buffer_size,
        ensures
            final(self).wf(),
            final(self).prev.same_stream(&old(self).prev),
            final(self).current_device_name == old(self).current_device_name,
            final(self).device_names == old(self).device_names,
            final(self).device_ids == old(self).device_ids,
            final(self).blocking == old(self).blocking,
            ({
                let pushed = old(self).prev.frames_view().push(
                    samples@.take(old(self).prev.channels as int),
                );
                &&& pushed.len() < old(self).prev.buffer_size ==> (r matches Ok(o) && o
                    is None && final(self).prev.frames_view() == pushed)
                &&& pushed.len() >= old(self).prev.buffer_size && !old(self).blocking && !signaled
                    ==> (r matches Err(e) && e is WaitTimeout && final(self).prev.frames_view()
                    == pushed)
                &&& pushed.len() >= old(self).prev.buffer_size && (old(self).blocking || signaled)
                    ==> (r matches Ok(o) && o matches Some(sub) && delivery_post(
                    old(self).prev.exclusive,
                    old(self).prev.buffer_size,
                    old(self).prev.encoding(),
                    pushed,
                    final(self).prev.frames_view(),
                    padding,
                    sub,
                ))
            }),
    {
        let channels = self.prev.channels as usize;
        let mut frame: Vec<i64> = Vec::new();
        let mut c: usize = 0;
        while c < channels
            invariant
                channels <= samples@.len(),
                c <= channels,
                frame@ == samples@.take(c as int),
            decreases channels - c,
        {
            frame.push(samples[c]);
            assert(frame@ =~= samples@.take(c + 1));
            c = c + 1;
        }
        self.push_and_deliver(frame, signaled, padding)
    }

    /// The hot path fed from 16-bit source samples: each sample `x` enters
    /// the queue as the fixed-point amplitude of `x / 32768`, then delivery
    /// proceeds exactly as in [`Self::output`].
    pub fn output_i16(&mut self, samples: &Vec<i16>, signaled: bool, padding: u32) -> (r: Result<
        Option<Submission>,
        Error,
    >)
        requires
            old(self).wf(),
            samples@.len() >= old(self).prev.channels,
            padding <= old(self).prev.buffer_size,
        ensures
            final(self).wf(),
            final(self).prev.same_stream(&old(self).prev),
            final(self).current_device_name == old(self).current_device_name,
            final(self).device_names == old(self).device_names,
            final(self).device_ids == old(self).device_ids,
            final(self).blocking == old(self).blocking,
            ({
                let pushed = old(self).prev.frames_view().push(
                    samples@.take(old(self).prev.channels as int).map_values(
                        |x: i16| (2 * (x as int)) as i64,
                    ),
                );
                &&& pushed.len() < old(self).prev.buffer_size ==> (r matches Ok(o) && o
                    is None && final(self).prev.frames_view() == pushed)
                &&& pushed.len() >= old(self).prev.buffer_size && !old(self).blocking && !signaled
                    ==> (r matches Err(e) && e is WaitTimeout && final(self).prev.frames_view()
                    == pushed)
                &&& pushed.len() >= old(self).prev.buffer_size && (old(self).blocking || signaled)
                    ==> (r matches Ok(o) && o matches Some(sub) && delivery_post(
                    old(self).prev.exclusive,
                    old(self).prev.buffer_size,
                    old(self).prev.encoding(),
                    pushed,
                    final(self).prev.frames_view(),
                    padding,
                    sub,
                ))
            }),
    {
        let channels = self.prev.channels as usize;
        let mut frame: Vec<i64> = Vec::new();
        let mut c: usize = 0;
        while c < channels
            invariant
                channels <= samples@.len(),
                c <= channels,
                frame@ == samples@.take(c as int).map_values(|x: i16| (2 * (x as int)) as i64),
                valid_frame(frame@),
            decreases channels - c,
        {
            frame.push(amp_from_i16(samples[c]));
            assert(frame@ =~= samples@.take(c + 1).map_values(
                |x: i16| (2 * (x as int)) as i64,
            ));
            c = c + 1;
        }
        self.push_and_deliver(frame, signaled, padding)
    }

    /// Drop all pending frames without reconfiguring; the shell resets the
    /// hardware transport.
    pub fn clear(&mut self)
        requires
            old(self).wf(),
        ensures
            final(self).wf(),
            final(self).prev.same_stream(&old(self).prev),
            final(self).prev.samples@.len() == 0,
            final(self).current_device_name == old(self).current_device_name,
            final(self).device_names == old(self).device_names,
            final(self).device_ids == old(self).device_ids,
            final(self).blocking == old(self).blocking,
    {
        self.prev.clear();
    }

    /// Exclusive mode is available on this backend.
    pub fn support_exclusive(&self) -> (r: bool)
        ensures
            r == true,
    {
        true
    }

    /// The display names of all enumerated endpoints, default first.
    pub fn support_device_list(&self) -> (r: Vec<String>)
        ensures
            r.deep_view() == self.device_names.deep_view(),
    {
        let n = self.device_names.len();
        let mut out: Vec<String> = Vec::new();
        let mut i: usize = 0;
        while i < n
            invariant
                n == self.device_names@.len(),
                i <= n,
                out@.len() == i,
                forall|j: int| 0 <= j < i ==> out@[j]@ == (#[trigger] self.device_names@[j])@,
            decreases n - i,
        {
            out.push(self.device_names[i].clone());
            i = i + 1;
        }
        assert(out.deep_view() =~= self.device_names.deep_view());
        out
    }

    /// Blocking waits are available on this backend.
    pub fn support_blocking(&self) -> (r: bool)
        ensures
            r == true,
    {
        true
    }

    /// The only supported channel count is the negotiated one.
    pub fn support_channels(&self) -> (r: Vec<u32>)
        ensures
            r@ == seq![self.prev.channels as u32],
    {
        let mut v: Vec<u32> = Vec::new();
        v.push(self.prev.channels as u32);
        proof {
            assert(v@ =~= seq![self.prev.channels as u32]);
        }
        v
    }

    /// The only supported sample rate is the negotiated one.
    pub fn support_frequencies(&self) -> (r: Vec<u32>)
        ensures
            r@ == seq![self.prev.frequency],
    {
        let mut v: Vec<u32> = Vec::new();
        v.push(self.prev.frequency);
        proof {
            assert(v@ =~= seq![self.prev.frequency]);
        }
        v
    }

    /// The selectable target latencies, in milliseconds.
    pub fn support_latencies(&self) -> (r: Vec<u32>)
        ensures
            r@ == seq![0u32, 20u32, 40u32, 60u32, 80u32, 100u32],
    {
        let mut v: Vec<u32> = Vec::new();
        v.push(0);
        v.push(20);
        v.push(40);
        v.push(60);
        v.push(80);
        v.push(100);
        proof {
            assert(v@ =~= seq![0u32, 20u32, 40u32, 60u32, 80u32, 100u32]);
        }
        v
    }
}

} // verus!
