//! A low-latency PCM audio output engine.
//!
//! The caller pushes floating-point audio frames (modelled here as
//! fixed-point amplitudes, see [`convert`]); the engine accumulates them in a
//! bounded pending queue, negotiates a hardware stream format, converts each
//! frame to the negotiated wire encoding, and decides when and how much to
//! hand to the operating system's sound stack.  Everything the operating
//! system reports (device lists, negotiated buffer sizes, readiness signals,
//! write results) enters through plain values, so every decision the engine
//! makes is verified; the unverified shell that talks to the OS lives outside
//! this crate.

use vstd::prelude::*;

use crate::errors::Error;

pub mod alsa;
pub mod convert;
pub mod devices;
pub mod errors;
pub mod wasapi;

verus! {

/// Whether a configuration setter changed anything.
///
/// `Needed` means the engine's configuration now differs from the open
/// hardware stream: the caller must negotiate a new stream and install it.
/// `NotNeeded` means the requested value already held (idempotent setter)
/// or the change does not touch the hardware stream.
#[derive(Clone, Copy, Debug, PartialEq, Eq, Structural)]
pub enum Reconfigure {
    NotNeeded,
    Needed,
}

/// The selectable backend classes.
#[derive(Clone, Copy, Debug, PartialEq, Eq, Structural)]
pub enum AudioDriverType {
    Wasapi,
    Alsa,
    Null,
}

/// A backend that owns no device: every capability list is empty and every
/// frame is accepted and discarded.
#[derive(Debug)]
pub struct NullDriver;

/// What a backend needs from the outside world to come up: the device
/// enumeration and the first negotiated stream.  The shell gathers these
/// from the operating system; a test writes them directly.
pub enum DriverInit {
    Wasapi {
        names: Vec<String>,
        ids: Vec<String>,
        default_id: String,
        neg: wasapi::NegotiatedStream,
    },
    Alsa { names: Vec<String>, params: alsa::AlsaStreamParams },
    Null,
}

/// The engine behind the facade: one backend variant, chosen at
/// construction.
#[derive(Debug)]
pub enum DriverInstance {
    Wasapi(wasapi::WASAPIDriver),
    Alsa(alsa::ALSADriver),
    Null(NullDriver),
}

/// The device observations one `output` call may consume, per backend
/// class: the readiness-event outcome and padding for the event-driven
/// backend, the recorded device responses for the polling backend.
pub enum DeviceFeedback {
    Event { signaled: bool, padding: u32 },
    Poll(Vec<alsa::PollEvent>),
    Idle,
}

/// What one `output` call did.
#[derive(Debug, PartialEq, Eq)]
pub enum OutputReport {
    /// The frame was queued (or discarded by the null backend); no
    /// delivery was attempted.
    Queued,
    /// The event-driven backend delivered a submission.
    Submitted(wasapi::Submission),
    /// The polling backend ran one write cycle.
    Cycled(alsa::WriteOutcome),
}

/// The facade over one backend engine: every setter is validated against
/// the backend's advertised capability lists before it is forwarded, and a
/// value outside them fails with `Error::Unsupported` naming the
/// parameter, leaving the engine untouched.
#[derive(Debug)]
pub struct Audio {
    pub instance: DriverInstance,
}

impl Audio {
    /// Well-formedness of the selected backend.
    pub open spec fn wf(&self) -> bool {
        match self.instance {
            DriverInstance::Wasapi(d) => d.wf(),
            DriverInstance::Alsa(d) => d.wf(),
            DriverInstance::Null(_) => true,
        }
    }

    /// Build the engine for a backend class from what the outside world
    /// provided.  A class whose initialization data is for another class
    /// falls back to the null backend, as an unrecognized class does.
    pub fn new(ty: AudioDriverType, init: DriverInit) -> (r: Result<Audio, Error>)
        requires
            match init {
                DriverInit::Wasapi { names, ids, default_id, neg } => names@.len() == ids@.len()
                    && neg.wf(),
                DriverInit::Alsa { names, params } => params.wf(),
                DriverInit::Null => true,
            },
        ensures
            match r {
                Ok(a) => a.wf(),
                Err(e) => e matches Error::NoDeviceFound,
            },
            ty is Wasapi ==> (init matches DriverInit::Wasapi {
                names,
                ids,
                default_id,
                neg,
            } ==> match r {
                Ok(a) => names@.len() > 0 && (a.instance matches DriverInstance::Wasapi(d)
                    && d.device_names.deep_view() == crate::devices::ordered_prefix(
                    names.deep_view(),
                    ids.deep_view(),
                    default_id@,
                    names@.len() as int,
                ) && d.current_device_name@ == d.device_names.deep_view()[0] && d.prev.exclusive
                    == false && d.prev.latency == 40 && d.prev.samples@.len() == 0
                    && d.prev.stream_id == 0 && d.prev.buffer_size == neg.buffer_size
                    && d.prev.channels == neg.channels && d.prev.frequency == neg.frequency
                    && d.prev.mode == neg.mode && d.prev.precision == neg.precision && d.blocking
                    == true),
                Err(e) => names@.len() == 0,
            }),
            ty is Alsa ==> (init matches DriverInit::Alsa { names, params } ==> match r {
                Ok(a) => names@.len() > 0 && (a.instance matches DriverInstance::Alsa(d)
                    && d.device_names == names && d.prev.name@ == names@[0]@ && d.prev.latency
                    == 20 && d.prev.frequency == 44100 && d.prev.blocking == false
                    && d.prev.buffer@.len() == 0 && d.prev.buffer_size == params.buffer_size
                    && d.prev.period_size == params.period_size && d.prev.stream_id == 0),
                Err(e) => names@.len() == 0,
            }),
            ty is Null ==> (r matches Ok(a) && a.instance matches DriverInstance::Null(_)),
    {
        match ty {
            AudioDriverType::Wasapi => {
                match init {
                    DriverInit::Wasapi { names, ids, default_id, neg } => {
                        match wasapi::WASAPIDriver::new(names, ids, &default_id, &neg) {
                            Ok(d) => Ok(Audio { instance: DriverInstance::Wasapi(d) }),
                            Err(e) => Err(e),
                        }
                    },
                    _ => Ok(Audio { instance: DriverInstance::Null(NullDriver) }),
                }
            },
            AudioDriverType::Alsa => {
                match init {
                    DriverInit::Alsa { names, params } => {
                        match alsa::ALSADriver::new(names, &params) {
                            Ok(d) => Ok(Audio { instance: DriverInstance::Alsa(d) }),
                            Err(e) => Err(e),
                        }
                    },
                    _ => Ok(Audio { instance: DriverInstance::Null(NullDriver) }),
                }
            },
            AudioDriverType::Null => Ok(Audio { instance: DriverInstance::Null(NullDriver) }),
        }
    }

    /// The names of the backend classes this crate models.
    pub fn support_drivers() -> (r: Vec<&'static str>)
        ensures
            r@.len() == 2,
            r@[0]@ == "WASAPI"@,
            r@[1]@ == "ALSA"@,
    {
        let mut v: Vec<&'static str> = Vec::new();
        v.push("WASAPI");
        v.push("ALSA");
        v
    }

    /// Whether the backend offers exclusive mode.
    pub fn support_exclusive(&self) -> (r: bool)
        ensures
            r == (self.instance matches DriverInstance::Wasapi(_)),
    {
        match &self.instance {
            DriverInstance::Wasapi(_) => true,
            _ => false,
        }
    }

    /// The display names of the backend's output devices.
    pub fn support_device_list(&self) -> (r: Vec<String>)
        ensures
            match self.instance {
                DriverInstance::Wasapi(d) => r.deep_view() == d.device_names.deep_view(),
                DriverInstance::Alsa(d) => r.deep_view() == d.device_names.deep_view(),
                DriverInstance::Null(_) => r@.len() == 0,
            },
    {
        match &self.instance {
            DriverInstance::Wasapi(d) => d.support_device_list(),
            DriverInstance::Alsa(d) => d.support_device_list(),
            DriverInstance::Null(_) => Vec::new(),
        }
    }

    /// Whether the backend offers blocking waits.
    pub fn support_blocking(&self) -> (r: bool)
        ensures
            r == !(self.instance matches DriverInstance::Null(_)),
    {
        match &self.instance {
            DriverInstance::Null(_) => false,
            _ => true,
        }
    }

    /// The channel counts the backend accepts.
    pub fn support_channels(&self) -> (r: Vec<u32>)
        ensures
            match self.instance {
                DriverInstance::Wasapi(d) => r@ == seq![d.prev.channels as u32],
                DriverInstance::Alsa(d) => r@ == seq![2u32],
                DriverInstance::Null(_) => r@.len() == 0,
            },
    {
        match &self.instance {
            DriverInstance::Wasapi(d) => d.support_channels(),
            DriverInstance::Alsa(d) => d.support_channels(),
            DriverInstance::Null(_) => Vec::new(),
        }
    }

    /// The sample rates the backend accepts.
    pub fn support_frequencies(&self) -> (r: Vec<u32>)
        ensures
            match self.instance {
                DriverInstance::Wasapi(d) => r@ == seq![d.prev.frequency],
                DriverInstance::Alsa(d) => r@ == seq![44100u32, 48000u32, 96000u32],
                DriverInstance::Null(_) => r@.len() == 0,
            },
    {
        match &self.instance {
            DriverInstance::Wasapi(d) => d.support_frequencies(),
            DriverInstance::Alsa(d) => d.support_frequencies(),
            DriverInstance::Null(_) => Vec::new(),
        }
    }

    /// The target latencies the backend accepts, in milliseconds.
    pub fn support_latencies(&self) -> (r: Vec<u32>)
        ensures
            match self.instance {
                DriverInstance::Wasapi(d) => r@ == seq![0u32, 20u32, 40u32, 60u32, 80u32, 100u32],
                DriverInstance::Alsa(d) => r@ == seq![20u32, 40u32, 60u32, 80u32, 100u32],
                DriverInstance::Null(_) => r@.len() == 0,
            },
    {
        match &self.instance {
            DriverInstance::Wasapi(d) => d.support_latencies(),
            DriverInstance::Alsa(d) => d.support_latencies(),
            DriverInstance::Null(_) => Vec::new(),
        }
    }

    /// Request exclusive or shared mode, if the backend supports it.
    pub fn set_exclusive(&mut self, exclusive: bool) -> (r: Result<Reconfigure, Error>)
        requires
            old(self).wf(),
        ensures
            final(self).wf(),
            match old(self).instance {
                DriverInstance::Wasapi(d) => {
                    &&& d.prev.exclusive == exclusive ==> r == Ok::<Reconfigure, Error>(
                        Reconfigure::NotNeeded,
                    ) && *final(self) == *old(self)
                    &&& d.prev.exclusive != exclusive ==> r == Ok::<Reconfigure, Error>(
                        Reconfigure::Needed,
                    ) && (final(self).instance matches DriverInstance::Wasapi(d2) && d2
                        == (wasapi::WASAPIDriver {
                        prev: (wasapi::WASAPIDriverPrev { exclusive, ..d.prev }),
                        ..d
                    }))
                },
                _ => (r matches Err(e) && e matches Error::Unsupported(p) && p@ == "exclusive"@)
                    && *final(self) == *old(self),
            },
    {
        match &mut self.instance {
            DriverInstance::Wasapi(d) => d.set_exclusive(exclusive),
            _ => Err(Error::Unsupported(String::from_str("exclusive"))),
        }
    }

    /// Select an output device by display name, if the backend lists it.
    pub fn set_device(&mut self, device: &str) -> (r: Result<Reconfigure, Error>)
        requires
            old(self).wf(),
        ensures
            final(self).wf(),
            match old(self).instance {
                DriverInstance::Wasapi(d) => {
                    &&& !(exists|i: int|
                        0 <= i < d.device_names@.len() && (#[trigger] d.device_names@[i])@
                            == device@) ==> (r matches Err(e) && e matches Error::Unsupported(p)
                        && p@ == "device"@) && *final(self) == *old(self)
                    &&& (exists|i: int|
                        0 <= i < d.device_names@.len() && (#[trigger] d.device_names@[i])@
                            == device@) && d.current_device_name@ == device@ ==> r == Ok::<
                        Reconfigure,
                        Error,
                    >(Reconfigure::NotNeeded) && *final(self) == *old(self)
                    &&& (exists|i: int|
                        0 <= i < d.device_names@.len() && (#[trigger] d.device_names@[i])@
                            == device@) && d.current_device_name@ != device@ ==> r == Ok::<
                        Reconfigure,
                        Error,
                    >(Reconfigure::Needed) && (final(self).instance
                        matches DriverInstance::Wasapi(d2) && d2.current_device_name@ == device@
                        && d2.prev == d.prev && d2.device_names == d.device_names && d2.device_ids
                        == d.device_ids && d2.blocking == d.blocking)
                },
                DriverInstance::Alsa(d) => {
                    &&& !(exists|i: int|
                        0 <= i < d.device_names@.len() && (#[trigger] d.device_names@[i])@
                            == device@) ==> (r matches Err(e) && e matches Error::Unsupported(p)
                        && p@ == "device"@) && *final(self) == *old(self)
                    &&& (exists|i: int|
                        0 <= i < d.device_names@.len() && (#[trigger] d.device_names@[i])@
                            == device@) && d.prev.name@ == device@ ==> r == Ok::<
                        Reconfigure,
                        Error,
                    >(Reconfigure::NotNeeded) && *final(self) == *old(self)
                    &&& (exists|i: int|
                        0 <= i < d.device_names@.len() && (#[trigger] d.device_names@[i])@
                            == device@) && d.prev.name@ != device@ ==> r == Ok::<
                        Reconfigure,
                        Error,
                    >(Reconfigure::Needed) && (final(self).instance matches DriverInstance::Alsa(
                        d2,
                    ) && d2.prev.name@ == device@ && d2.prev.same_stream_but_name(&d.prev)
                        && d2.prev.buffer == d.prev.buffer && d2.device_names == d.device_names)
                },
                DriverInstance::Null(_) => (r matches Err(e) && e matches Error::Unsupported(p)
                    && p@ == "device"@) && *final(self) == *old(self),
            },
    {
        match &mut self.instance {
            DriverInstance::Wasapi(d) => {
                if crate::devices::contains_name(&d.device_names, device) {
                    d.set_device(device)
                } else {
                    Err(Error::Unsupported(String::from_str("device")))
                }
            },
            DriverInstance::Alsa(d) => {
                if crate::devices::contains_name(&d.device_names, device) {
                    d.set_device(device)
                } else {
                    Err(Error::Unsupported(String::from_str("device")))
                }
            },
            DriverInstance::Null(_) => Err(Error::Unsupported(String::from_str("device"))),
        }
    }

    /// Choose blocking or non-blocking waits, if the backend supports
    /// them.
    pub fn set_blocking(&mut self, blocking: bool) -> (r: Result<Reconfigure, Error>)
        requires
            old(self).wf(),
        ensures
            final(self).wf(),
            match old(self).instance {
                DriverInstance::Wasapi(d) => {
                    &&& r == Ok::<Reconfigure, Error>(Reconfigure::NotNeeded)
                    &&& d.blocking == blocking ==> *final(self) == *old(self)
                    &&& d.blocking != blocking ==> (final(self).instance
                        matches DriverInstance::Wasapi(d2) && d2 == (wasapi::WASAPIDriver {
                        blocking,
                        ..d
                    }))
                },
                DriverInstance::Alsa(d) => {
                    &&& d.prev.blocking == blocking ==> r == Ok::<Reconfigure, Error>(
                        Reconfigure::NotNeeded,
                    ) && *final(self) == *old(self)
                    &&& d.prev.blocking != blocking ==> r == Ok::<Reconfigure, Error>(
                        Reconfigure::Needed,
                    ) && (final(self).instance matches DriverInstance::Alsa(d2) && d2
                        == (alsa::ALSADriver {
                        prev: (alsa::ALSADriverPrev { blocking, ..d.prev }),
                        ..d
                    }))
                },
                DriverInstance::Null(_) => (r matches Err(e) && e matches Error::Unsupported(p)
                    && p@ == "blocking"@) && *final(self) == *old(self),
            },
    {
        match &mut self.instance {
            DriverInstance::Wasapi(d) => d.set_blocking(blocking),
            DriverInstance::Alsa(d) => d.set_blocking(blocking),
            DriverInstance::Null(_) => Err(Error::Unsupported(String::from_str("blocking"))),
        }
    }

    /// Request a channel count.  Each backend accepts exactly the counts
    /// it advertises, and none of them can change it: an advertised value
    /// is already current, so this is always a no-op or `Unsupported`.
    pub fn set_channels(&mut self, channels: u32) -> (r: Result<Reconfigure, Error>)
        requires
            old(self).wf(),
        ensures
            final(self).wf(),
            *final(self) == *old(self),
            match old(self).instance {
                DriverInstance::Wasapi(d) => {
                    &&& channels == d.prev.channels as u32 ==> r == Ok::<Reconfigure, Error>(
                        Reconfigure::NotNeeded,
                    )
                    &&& channels != d.prev.channels as u32 ==> (r matches Err(e) && e matches
                        Error::Unsupported(p) && p@ == "channels"@)
                },
                DriverInstance::Alsa(d) => {
                    &&& channels == 2 ==> r == Ok::<Reconfigure, Error>(Reconfigure::NotNeeded)
                    &&& channels != 2 ==> (r matches Err(e) && e matches Error::Unsupported(p)
                        && p@ == "channels"@)
                },
                DriverInstance::Null(_) => (r matches Err(e) && e matches Error::Unsupported(p)
                    && p@ == "channels"@),
            },
    {
        match &mut self.instance {
            DriverInstance::Wasapi(d) => {
                if channels == d.prev.channels as u32 {
                    Ok(Reconfigure::NotNeeded)
                } else {
                    Err(Error::Unsupported(String::from_str("channels")))
                }
            },
            DriverInstance::Alsa(_) => {
                if channels == 2 {
                    Ok(Reconfigure::NotNeeded)
                } else {
                    Err(Error::Unsupported(String::from_str("channels")))
                }
            },
            DriverInstance::Null(_) => Err(Error::Unsupported(String::from_str("channels"))),
        }
    }

    /// Request a sample rate, if the backend advertises it.  The
    /// event-driven backend follows the mixer's rate and accepts only the
    /// current one; the polling backend reconfigures on a genuine change.
    pub fn set_frequency(&mut self, frequency: u32) -> (r: Result<Reconfigure, Error>)
        requires
            old(self).wf(),
        ensures
            final(self).wf(),
            match old(self).instance {
                DriverInstance::Wasapi(d) => {
                    &&& frequency == d.prev.frequency ==> r == Ok::<Reconfigure, Error>(
                        Reconfigure::NotNeeded,
                    ) && *final(self) == *old(self)
                    &&& frequency != d.prev.frequency ==> (r matches Err(e) && e matches
                        Error::Unsupported(p) && p@ == "frequency"@) && *final(self) == *old(self)
                },
                DriverInstance::Alsa(d) => {
                    &&& !(frequency == 44100 || frequency == 48000 || frequency == 96000) ==> (r
                        matches Err(e) && e matches Error::Unsupported(p) && p@ == "frequency"@)
                        && *final(self) == *old(self)
                    &&& (frequency == 44100 || frequency == 48000 || frequency == 96000)
                        && d.prev.frequency == frequency ==> r == Ok::<Reconfigure, Error>(
                        Reconfigure::NotNeeded,
                    ) && *final(self) == *old(self)
                    &&& (frequency == 44100 || frequency == 48000 || frequency == 96000)
                        && d.prev.frequency != frequency ==> r == Ok::<Reconfigure, Error>(
                        Reconfigure::Needed,
                    ) && (final(self).instance matches DriverInstance::Alsa(d2) && d2
                        == (alsa::ALSADriver {
                        prev: (alsa::ALSADriverPrev { frequency, ..d.prev }),
                        ..d
                    }))
                },
                DriverInstance::Null(_) => (r matches Err(e) && e matches Error::Unsupported(p)
                    && p@ == "frequency"@) && *final(self) == *old(self),
            },
    {
        match &mut self.instance {
            DriverInstance::Wasapi(d) => {
                if frequency == d.prev.frequency {
                    Ok(Reconfigure::NotNeeded)
                } else {
                    Err(Error::Unsupported(String::from_str("frequency")))
                }
            },
            DriverInstance::Alsa(d) => {
                if frequency == 44100 || frequency == 48000 || frequency == 96000 {
                    d.set_frequency(frequency)
                } else {
                    Err(Error::Unsupported(String::from_str("frequency")))
                }
            },
            DriverInstance::Null(_) => Err(Error::Unsupported(String::from_str("frequency"))),
        }
    }

    /// Request a target latency, if the backend advertises it.
    pub fn set_latency(&mut self, latency: u32) -> (r: Result<Reconfigure, Error>)
        requires
            old(self).wf(),
        ensures
            final(self).wf(),
            match old(self).instance {
                DriverInstance::Wasapi(d) => {
                    &&& !(latency == 0 || latency == 20 || latency == 40 || latency == 60
                        || latency == 80 || latency == 100) ==> (r matches Err(e) && e matches
                        Error::Unsupported(p) && p@ == "latency"@) && *final(self) == *old(self)
                    &&& (latency == 0 || latency == 20 || latency == 40 || latency == 60
                        || latency == 80 || latency == 100) && d.prev.latency == latency ==> r
                        == Ok::<Reconfigure, Error>(Reconfigure::NotNeeded) && *final(self)
                        == *old(self)
                    &&& (latency == 0 || latency == 20 || latency == 40 || latency == 60
                        || latency == 80 || latency == 100) && d.prev.latency != latency ==> r
                        == Ok::<Reconfigure, Error>(Reconfigure::Needed) && (final(self).instance
                        matches DriverInstance::Wasapi(d2) && d2 == (wasapi::WASAPIDriver {
                        prev: (wasapi::WASAPIDriverPrev { latency, ..d.prev }),
                        ..d
                    }))
                },
                DriverInstance::Alsa(d) => {
                    &&& !(latency == 20 || latency == 40 || latency == 60 || latency == 80
                        || latency == 100) ==> (r matches Err(e) && e matches Error::Unsupported(
                        p,
                    ) && p@ == "latency"@) && *final(self) == *old(self)
                    &&& (latency == 20 || latency == 40 || latency == 60 || latency == 80
                        || latency == 100) && d.prev.latency == latency ==> r == Ok::<
                        Reconfigure,
                        Error,
                    >(Reconfigure::NotNeeded) && *final(self) == *old(self)
                    &&& (latency == 20 || latency == 40 || latency == 60 || latency == 80
                        || latency == 100) && d.prev.latency != latency ==> r == Ok::<
                        Reconfigure,
                        Error,
                    >(Reconfigure::Needed) && (final(self).instance matches DriverInstance::Alsa(
                        d2,
                    ) && d2 == (alsa::ALSADriver {
                        prev: (alsa::ALSADriverPrev { latency, ..d.prev }),
                        ..d
                    }))
                },
                DriverInstance::Null(_) => (r matches Err(e) && e matches Error::Unsupported(p)
                    && p@ == "latency"@) && *final(self) == *old(self),
            },
    {
        match &mut self.instance {
            DriverInstance::Wasapi(d) => {
                if latency == 0 || latency == 20 || latency == 40 || latency == 60 || latency
                    == 80 || latency == 100 {
                    d.set_latency(latency)
                } else {
                    Err(Error::Unsupported(String::from_str("latency")))
                }
            },
            DriverInstance::Alsa(d) => {
                if latency == 20 || latency == 40 || latency == 60 || latency == 80 || latency
                    == 100 {
                    d.set_latency(latency)
                } else {
                    Err(Error::Unsupported(String::from_str("latency")))
                }
            },
            DriverInstance::Null(_) => Err(Error::Unsupported(String::from_str("latency"))),
        }
    }

    /// The hot path: hand one frame of fixed-point amplitudes to the
    /// backend, together with the device observations it may consume (see
    /// [`DeviceFeedback`]).  The backend queues the frame and, at its
    /// delivery threshold, runs its delivery path; below the threshold
    /// nothing is converted, submitted or waited for.
    pub fn output(&mut self, samples: &Vec<i64>, dev: DeviceFeedback) -> (r: Result<
        OutputReport,
        Error,
    >)
        requires
            old(self).wf(),
            match old(self).instance {
                DriverInstance::Wasapi(d) => samples@.len() >= d.prev.channels
                    && crate::convert::valid_frame(samples@.take(d.prev.channels as int)) && (
                dev matches DeviceFeedback::Event { signaled, padding } && padding
                    <= d.prev.buffer_size),
                DriverInstance::Alsa(d) => samples@.len() >= 2 && crate::convert::valid_amp(
                    samples@[0] as int,
                ) && crate::convert::valid_amp(samples@[1] as int) && dev matches
                    DeviceFeedback::Poll(_),
                DriverInstance::Null(_) => true,
            },
        ensures
            final(self).wf(),
            match old(self).instance {
                DriverInstance::Wasapi(d) => final(self).instance matches DriverInstance::Wasapi(
                    d2,
                ) && d2.prev.same_stream(&d.prev) && d2.current_device_name
                    == d.current_device_name && d2.device_names == d.device_names && d2.device_ids
                    == d.device_ids && d2.blocking == d.blocking && (dev matches
                    DeviceFeedback::Event { signaled, padding } ==> ({
                    let pushed = d.prev.frames_view().push(
                        samples@.take(d.prev.channels as int),
                    );
                    &&& pushed.len() < d.prev.buffer_size ==> r == Ok::<OutputReport, Error>(
                        OutputReport::Queued,
                    ) && d2.prev.frames_view() == pushed
                    &&& pushed.len() >= d.prev.buffer_size && !d.blocking && !signaled ==> (r
                        matches Err(e) && e is WaitTimeout) && d2.prev.frames_view() == pushed
                    &&& pushed.len() >= d.prev.buffer_size && (d.blocking || signaled) ==> (r
                        matches Ok(rep) && rep matches OutputReport::Submitted(sub)
                        && wasapi::delivery_post(
                        d.prev.exclusive,
                        d.prev.buffer_size,
                        d.prev.encoding(),
                        pushed,
                        d2.prev.frames_view(),
                        padding,
                        sub,
                    ))
                })),
                DriverInstance::Alsa(d) => final(self).instance matches DriverInstance::Alsa(d2)
                    && d2.device_names == d.device_names && d2.prev.same_stream(&d.prev) && (dev
                    matches DeviceFeedback::Poll(events) ==> ({
                    let pushed = d.prev.buffer@.push(
                        crate::convert::convert_i16_spec(samples@[0] as int) as i16,
                    ).push(crate::convert::convert_i16_spec(samples@[1] as int) as i16);
                    &&& pushed.len() < d.prev.period_size * 2 ==> r == Ok::<OutputReport, Error>(
                        OutputReport::Queued,
                    ) && d2.prev.buffer@ == pushed
                    &&& pushed.len() >= d.prev.period_size * 2 ==> ({
                        let (res, buf) = alsa::write_spec(pushed, events@);
                        &&& d2.prev.buffer@ == buf
                        &&& (res matches Ok(o) ==> r == Ok::<OutputReport, Error>(
                            OutputReport::Cycled(o),
                        ))
                        &&& (res matches Err(e) ==> r == Err::<OutputReport, Error>(e))
                    })
                })),
                DriverInstance::Null(_) => r == Ok::<OutputReport, Error>(OutputReport::Queued)
                    && *final(self) == *old(self),
            },
    {
        match &mut self.instance {
            DriverInstance::Wasapi(d) => {
                match dev {
                    DeviceFeedback::Event { signaled, padding } => {
                        match d.output(samples, signaled, padding) {
                            Ok(Some(sub)) => Ok(OutputReport::Submitted(sub)),
                            Ok(None) => Ok(OutputReport::Queued),
                            Err(e) => Err(e),
                        }
                    },
                    _ => vstd::pervasive::unreached(),
                }
            },
            DriverInstance::Alsa(d) => {
                match dev {
                    DeviceFeedback::Poll(events) => {
                        match d.output(samples, &events) {
                            Ok(Some(o)) => Ok(OutputReport::Cycled(o)),
                            Ok(None) => Ok(OutputReport::Queued),
                            Err(e) => Err(e),
                        }
                    },
                    _ => vstd::pervasive::unreached(),
                }
            },
            DriverInstance::Null(_) => Ok(OutputReport::Queued),
        }
    }
}

} // verus!
