use ieaoo::alsa::AlsaStreamParams;
use ieaoo::alsa::PollEvent;
use ieaoo::alsa::WriteOutcome;
use ieaoo::convert::AMP_ONE;
use ieaoo::errors::Error;
use ieaoo::wasapi::NegotiatedStream;
use ieaoo::Audio;
use ieaoo::AudioDriverType;
use ieaoo::DeviceFeedback;
use ieaoo::DriverInit;
use ieaoo::DriverInstance;
use ieaoo::OutputReport;
use ieaoo::Reconfigure;

fn strings(v: &[&str]) -> Vec<String> {
    v.iter().map(|s| s.to_string()).collect()
}

fn wasapi_init() -> DriverInit {
    DriverInit::Wasapi {
        names: strings(&["Speakers", "Headphones"]),
        ids: strings(&["id-a", "id-b"]),
        default_id: "id-b".to_string(),
        neg: NegotiatedStream { buffer_size: 4, channels: 2, frequency: 48000, mode: 1, precision: 16 },
    }
}

fn alsa_init() -> DriverInit {
    DriverInit::Alsa {
        names: strings(&["default"]),
        params: AlsaStreamParams { buffer_size: 1024, period_size: 256 },
    }
}

#[test]
fn support_drivers_lists_backends() {
    assert_eq!(Audio::support_drivers(), vec!["WASAPI", "ALSA"]);
}

#[test]
fn null_backend_supports_nothing() {
    let mut a = Audio::new(AudioDriverType::Null, DriverInit::Null).unwrap();
    assert!(!a.support_exclusive());
    assert!(!a.support_blocking());
    assert!(a.support_device_list().is_empty());
    assert!(a.support_channels().is_empty());
    assert!(a.support_frequencies().is_empty());
    assert!(a.support_latencies().is_empty());
    assert_eq!(a.set_exclusive(true).unwrap_err(), Error::Unsupported("exclusive".to_string()));
    assert_eq!(a.set_frequency(44100).unwrap_err(), Error::Unsupported("frequency".to_string()));
    assert_eq!(a.set_latency(20).unwrap_err(), Error::Unsupported("latency".to_string()));
    assert_eq!(a.set_blocking(true).unwrap_err(), Error::Unsupported("blocking".to_string()));
    assert_eq!(a.set_device("x").unwrap_err(), Error::Unsupported("device".to_string()));
    assert_eq!(a.set_channels(2).unwrap_err(), Error::Unsupported("channels".to_string()));
    let r = a.output(&vec![0, 0], DeviceFeedback::Idle).unwrap();
    assert!(matches!(r, OutputReport::Queued));
}

#[test]
fn mismatched_class_and_data_falls_back_to_null() {
    let a = Audio::new(AudioDriverType::Wasapi, alsa_init()).unwrap();
    assert!(matches!(a.instance, DriverInstance::Null(_)));
    let a = Audio::new(AudioDriverType::Alsa, DriverInit::Null).unwrap();
    assert!(matches!(a.instance, DriverInstance::Null(_)));
}

#[test]
fn zero_endpoints_fail_with_no_device_found() {
    let init = DriverInit::Alsa {
        names: Vec::new(),
        params: AlsaStreamParams { buffer_size: 1024, period_size: 256 },
    };
    let e = Audio::new(AudioDriverType::Alsa, init).unwrap_err();
    assert_eq!(e, Error::NoDeviceFound);

    let init = DriverInit::Wasapi {
        names: Vec::new(),
        ids: Vec::new(),
        default_id: "x".to_string(),
        neg: NegotiatedStream { buffer_size: 4, channels: 2, frequency: 48000, mode: 1, precision: 16 },
    };
    let e = Audio::new(AudioDriverType::Wasapi, init).unwrap_err();
    assert_eq!(e, Error::NoDeviceFound);
}

#[test]
fn wasapi_capability_gates() {
    let mut a = Audio::new(AudioDriverType::Wasapi, wasapi_init()).unwrap();
    assert!(a.support_exclusive());
    assert_eq!(a.support_device_list(), strings(&["Headphones", "Speakers"]));
    assert_eq!(a.support_frequencies(), vec![48000]);
    // The mixer's rate is the only supported one: any other is rejected
    // and the negotiated rate stays.
    assert_eq!(a.set_frequency(44100).unwrap_err(), Error::Unsupported("frequency".to_string()));
    assert_eq!(a.set_frequency(48000).unwrap(), Reconfigure::NotNeeded);
    assert_eq!(a.set_channels(2).unwrap(), Reconfigure::NotNeeded);
    assert_eq!(a.set_channels(6).unwrap_err(), Error::Unsupported("channels".to_string()));
    assert_eq!(a.set_device("Bogus").unwrap_err(), Error::Unsupported("device".to_string()));
    assert_eq!(a.set_latency(33).unwrap_err(), Error::Unsupported("latency".to_string()));
    match &a.instance {
        DriverInstance::Wasapi(d) => {
            assert_eq!(d.prev.frequency, 48000);
            assert_eq!(d.prev.stream_id, 0);
        }
        _ => panic!("expected the event-driven backend"),
    }
}

#[test]
fn alsa_frequency_gate_scenario() {
    let mut a = Audio::new(AudioDriverType::Alsa, alsa_init()).unwrap();
    let e = a.set_frequency(32000).unwrap_err();
    assert_eq!(e, Error::Unsupported("frequency".to_string()));
    match &a.instance {
        DriverInstance::Alsa(d) => assert_eq!(d.prev.frequency, 44100),
        _ => panic!("expected the polling backend"),
    }
    assert_eq!(a.set_frequency(96000).unwrap(), Reconfigure::Needed);
}

#[test]
fn facade_output_event_driven() {
    let mut a = Audio::new(AudioDriverType::Wasapi, wasapi_init()).unwrap();
    for _ in 0..3 {
        let r = a
            .output(&vec![0, 0], DeviceFeedback::Event { signaled: false, padding: 0 })
            .unwrap();
        assert!(matches!(r, OutputReport::Queued));
    }
    let r = a
        .output(&vec![AMP_ONE, 0], DeviceFeedback::Event { signaled: true, padding: 0 })
        .unwrap();
    match r {
        OutputReport::Submitted(sub) => assert_eq!(sub.frames, 4),
        other => panic!("expected a submission, got {:?}", other),
    }
}

#[test]
fn facade_output_polling() {
    let mut a = Audio::new(AudioDriverType::Alsa, alsa_init()).unwrap();
    for _ in 0..255 {
        let r = a.output(&vec![0, 0], DeviceFeedback::Poll(Vec::new())).unwrap();
        assert!(matches!(r, OutputReport::Queued));
    }
    let events = vec![PollEvent::Avail(512), PollEvent::Wrote(256)];
    let r = a.output(&vec![0, 0], DeviceFeedback::Poll(events)).unwrap();
    assert_eq!(r, OutputReport::Cycled(WriteOutcome::Completed));
}

#[test]
fn facade_setters_idempotent() {
    let mut a = Audio::new(AudioDriverType::Wasapi, wasapi_init()).unwrap();
    assert_eq!(a.set_exclusive(false).unwrap(), Reconfigure::NotNeeded);
    assert_eq!(a.set_blocking(true).unwrap(), Reconfigure::NotNeeded);
    assert_eq!(a.set_latency(40).unwrap(), Reconfigure::NotNeeded);
    assert_eq!(a.set_device("Headphones").unwrap(), Reconfigure::NotNeeded);
    match &a.instance {
        DriverInstance::Wasapi(d) => assert_eq!(d.prev.stream_id, 0),
        _ => panic!("expected the event-driven backend"),
    }
    assert_eq!(a.set_exclusive(true).unwrap(), Reconfigure::Needed);
}
