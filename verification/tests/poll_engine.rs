use ieaoo::alsa::hw_request;
use ieaoo::alsa::start_threshold;
use ieaoo::alsa::ALSADriver;
use ieaoo::alsa::AlsaStreamParams;
use ieaoo::alsa::PollEvent;
use ieaoo::alsa::WriteOutcome;
use ieaoo::convert::AMP_ONE;
use ieaoo::errors::Error;
use ieaoo::wasapi::effective_latency;
use ieaoo::Reconfigure;

fn strings(v: &[&str]) -> Vec<String> {
    v.iter().map(|s| s.to_string()).collect()
}

fn params() -> AlsaStreamParams {
    AlsaStreamParams { buffer_size: 1024, period_size: 256 }
}

fn driver() -> ALSADriver {
    ALSADriver::new(strings(&["default", "hw:0"]), &params()).unwrap()
}

fn err(n: usize) -> Vec<PollEvent> {
    let mut v = vec![PollEvent::Avail(512)];
    for _ in 0..n {
        v.push(PollEvent::WriteErr { errno: -32, recovered: true });
    }
    v.push(PollEvent::Wrote(256));
    v
}

#[test]
fn poll_new_with_no_devices_fails() {
    let r = ALSADriver::new(Vec::new(), &params());
    assert_eq!(r.unwrap_err(), Error::NoDeviceFound);
}

#[test]
fn new_defaults() {
    let d = driver();
    assert_eq!(d.prev.name, "default");
    assert_eq!(d.prev.frequency, 44100);
    assert_eq!(d.prev.latency, 20);
    assert!(!d.prev.blocking);
    assert_eq!(ALSADriver::driver(), "ALSA");
}

#[test]
fn period_threshold_scenario() {
    // A 2-channel, 44100 Hz stream with a period of 256 frames: pushing
    // 255 frames causes no delivery attempt; the 256th triggers exactly
    // one delivery sized at most 256 frames.
    let mut d = driver();
    let no_events: Vec<PollEvent> = Vec::new();
    for _ in 0..255 {
        let r = d.output(&vec![AMP_ONE, -AMP_ONE], &no_events).unwrap();
        assert!(r.is_none());
    }
    assert_eq!(d.prev.buffer.len(), 510);
    // One delivery attempt: the device accepts all 256 frames in one write.
    let events = vec![PollEvent::Avail(512), PollEvent::Wrote(256)];
    let r = d.output(&vec![AMP_ONE, -AMP_ONE], &events).unwrap();
    assert_eq!(r, Some(WriteOutcome::Completed));
    assert_eq!(d.prev.buffer.len(), 0);
}

#[test]
fn conversion_into_queue_is_16_bit() {
    let mut d = driver();
    let no_events: Vec<PollEvent> = Vec::new();
    d.output(&vec![AMP_ONE, 32768], &no_events).unwrap();
    assert_eq!(d.prev.buffer, vec![32767, 16384]);
}

#[test]
fn recovery_completes_when_attempts_remain() {
    // A device that fails N write attempts (each recovered) and then
    // accepts the whole queue: delivery completes for N < 4.
    for n in 0..4usize {
        let mut d = driver();
        for _ in 0..255 {
            d.output(&vec![0, 0], &Vec::new()).unwrap();
        }
        let r = d.output(&vec![0, 0], &err(n)).unwrap();
        assert_eq!(r, Some(WriteOutcome::Completed), "n = {}", n);
        assert_eq!(d.prev.buffer.len(), 0);
    }
}

#[test]
fn recovery_exhaustion_drops_and_carries() {
    // With 4 or more failures the attempt budget is exhausted before the
    // accepting write; nothing was sent, so drop-and-carry trims exactly
    // one stride (2 samples) and retains the rest.
    for n in [4usize, 6] {
        let mut d = driver();
        for _ in 0..255 {
            d.output(&vec![0, 0], &Vec::new()).unwrap();
        }
        let r = d.output(&vec![0, 0], &err(n)).unwrap();
        assert_eq!(r, Some(WriteOutcome::Partial { retained: 510 }), "n = {}", n);
        assert_eq!(d.prev.buffer.len(), 510);
    }
}

#[test]
fn partial_writes_advance_the_cursor() {
    let mut d = driver();
    for _ in 0..255 {
        d.output(&vec![0, 0], &Vec::new()).unwrap();
    }
    // 100 frames, then 156 frames: everything is delivered in two writes.
    let events = vec![PollEvent::Avail(512), PollEvent::Wrote(100), PollEvent::Wrote(156)];
    let r = d.output(&vec![0, 0], &events).unwrap();
    assert_eq!(r, Some(WriteOutcome::Completed));
}

#[test]
fn partial_then_exhausted_retains_the_tail() {
    let mut d = driver();
    for _ in 0..255 {
        d.output(&vec![0, 0], &Vec::new()).unwrap();
    }
    let events = vec![
        PollEvent::Avail(512),
        PollEvent::Wrote(100),
        PollEvent::WriteErr { errno: -32, recovered: true },
        PollEvent::WriteErr { errno: -32, recovered: true },
        PollEvent::WriteErr { errno: -32, recovered: true },
    ];
    let r = d.output(&vec![0, 0], &events).unwrap();
    // 100 frames = 200 samples were sent; 312 remain.
    assert_eq!(r, Some(WriteOutcome::Partial { retained: 312 }));
    assert_eq!(d.prev.buffer.len(), 312);
}

#[test]
fn space_query_recovery_and_waiting() {
    let mut d = driver();
    for _ in 0..255 {
        d.output(&vec![0, 0], &Vec::new()).unwrap();
    }
    // A recovered query failure, then too little space, a wait, and a
    // successful cycle.
    let events = vec![
        PollEvent::AvailErr { errno: -77, recovered: true },
        PollEvent::Avail(100),
        PollEvent::WaitReady,
        PollEvent::Avail(512),
        PollEvent::Wrote(256),
    ];
    let r = d.output(&vec![0, 0], &events).unwrap();
    assert_eq!(r, Some(WriteOutcome::Completed));
}

#[test]
fn failed_recovery_is_fatal() {
    let mut d = driver();
    for _ in 0..255 {
        d.output(&vec![0, 0], &Vec::new()).unwrap();
    }
    let events = vec![PollEvent::AvailErr { errno: -86, recovered: false }];
    let e = d.output(&vec![0, 0], &events).unwrap_err();
    assert_eq!(e, Error::NativeDeviceError(-86));
    // The queue is untouched by the failed cycle.
    assert_eq!(d.prev.buffer.len(), 512);

    let events = vec![
        PollEvent::Avail(100),
        PollEvent::WaitErr { errno: -5, recovered: false },
    ];
    let e = d.output(&vec![0, 0], &events).unwrap_err();
    assert_eq!(e, Error::NativeDeviceError(-5));
}

#[test]
fn exhausted_responses_stall_without_loss() {
    let mut d = driver();
    for _ in 0..255 {
        d.output(&vec![0, 0], &Vec::new()).unwrap();
    }
    let r = d.output(&vec![0, 0], &Vec::new()).unwrap();
    assert_eq!(r, Some(WriteOutcome::Stalled));
    assert_eq!(d.prev.buffer.len(), 512);
}

#[test]
fn set_frequency_unsupported_leaves_rate_unchanged() {
    let mut d = driver();
    let id0 = d.prev.stream_id;
    let e = d.set_frequency(22050).unwrap_err();
    assert_eq!(e, Error::Unsupported("frequency".to_string()));
    assert_eq!(d.prev.frequency, 44100);
    assert_eq!(d.prev.stream_id, id0);
}

#[test]
fn setters_are_idempotent_and_rebuild_on_change() {
    let mut d = driver();
    let id0 = d.prev.stream_id;
    assert_eq!(d.set_frequency(44100).unwrap(), Reconfigure::NotNeeded);
    assert_eq!(d.set_latency(20).unwrap(), Reconfigure::NotNeeded);
    assert_eq!(d.set_blocking(false).unwrap(), Reconfigure::NotNeeded);
    assert_eq!(d.set_device("default").unwrap(), Reconfigure::NotNeeded);
    assert_eq!(d.prev.stream_id, id0);

    assert_eq!(d.set_frequency(48000).unwrap(), Reconfigure::Needed);
    d.install_stream(&params());
    assert_eq!(d.prev.frequency, 48000);
    assert_ne!(d.prev.stream_id, id0);
    assert_eq!(d.prev.buffer.len(), 0);
}

#[test]
fn set_device_validates_and_switches() {
    let mut d = driver();
    let e = d.set_device("bogus").unwrap_err();
    assert_eq!(e, Error::DeviceNotFound("bogus".to_string()));
    assert_eq!(d.prev.name, "default");
    assert_eq!(d.set_device("hw:0").unwrap(), Reconfigure::Needed);
    assert_eq!(d.prev.name, "hw:0");
}

#[test]
fn set_latency_validates() {
    let mut d = driver();
    let e = d.set_latency(15).unwrap_err();
    assert_eq!(e, Error::Unsupported("latency".to_string()));
    assert_eq!(d.set_latency(60).unwrap(), Reconfigure::Needed);
    assert_eq!(d.prev.latency, 60);
}

#[test]
fn poll_capability_lists() {
    let d = driver();
    assert!(d.support_blocking());
    assert_eq!(d.support_device_list(), strings(&["default", "hw:0"]));
    assert_eq!(d.support_channels(), vec![2]);
    assert_eq!(d.support_frequencies(), vec![44100, 48000, 96000]);
    assert_eq!(d.support_latencies(), vec![20, 40, 60, 80, 100]);
}

#[test]
fn negotiation_arithmetic() {
    // 20 ms -> 20000 us buffer time, one-eighth periods.
    assert_eq!(hw_request(20), (20000, 2500));
    assert_eq!(hw_request(100), (100000, 12500));
    assert_eq!(start_threshold(1024), 512);
    // The event-driven backend's latency clamp, in 100 ns units.
    assert_eq!(effective_latency(300000, 20), 300000);
    assert_eq!(effective_latency(100000, 40), 400000);
}
