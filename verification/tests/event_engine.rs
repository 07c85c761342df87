use ieaoo::convert::AMP_ONE;
use ieaoo::errors::Error;
use ieaoo::wasapi::EncodedBatch;
use ieaoo::wasapi::NegotiatedStream;
use ieaoo::wasapi::WASAPIDriver;
use ieaoo::Reconfigure;

fn strings(v: &[&str]) -> Vec<String> {
    v.iter().map(|s| s.to_string()).collect()
}

fn neg(mode: u32, precision: u16) -> NegotiatedStream {
    NegotiatedStream { buffer_size: 4, channels: 2, frequency: 48000, mode, precision }
}

fn driver(mode: u32, precision: u16) -> WASAPIDriver {
    WASAPIDriver::new(
        strings(&["Speakers", "Headphones"]),
        strings(&["id-a", "id-b"]),
        &"id-b".to_string(),
        &neg(mode, precision),
    )
    .unwrap()
}

#[test]
fn new_orders_devices_and_selects_default() {
    let d = driver(1, 16);
    assert_eq!(d.current_device_name, "Headphones");
    assert_eq!(d.device_names, strings(&["Headphones", "Speakers"]));
    assert_eq!(d.device_ids, strings(&["id-b", "id-a"]));
    assert!(d.blocking);
    assert!(!d.prev.exclusive);
    assert_eq!(d.prev.latency, 40);
}

#[test]
fn new_with_no_devices_fails() {
    let r = WASAPIDriver::new(Vec::new(), Vec::new(), &"x".to_string(), &neg(1, 16));
    assert_eq!(r.unwrap_err(), Error::NoDeviceFound);
}

#[test]
fn below_threshold_queues_without_submission() {
    let mut d = driver(1, 16);
    for _ in 0..3 {
        let r = d.output(&vec![AMP_ONE, -AMP_ONE], false, 0).unwrap();
        assert!(r.is_none());
    }
    assert_eq!(d.prev.samples.len(), 3);
}

#[test]
fn threshold_push_delivers_converted_frames() {
    let mut d = driver(1, 16);
    for _ in 0..3 {
        d.output(&vec![AMP_ONE, -AMP_ONE], false, 0).unwrap();
    }
    let sub = d.output(&vec![0, 32768], false, 0).unwrap().unwrap();
    assert_eq!(sub.frames, 4);
    match sub.batch {
        EncodedBatch::Int16(out) => {
            assert_eq!(
                out,
                vec![32767, -32767, 32767, -32767, 32767, -32767, 0, 16384]
            );
        }
        other => panic!("expected 16-bit batch, got {:?}", other),
    }
    assert_eq!(d.prev.samples.len(), 0);
}

#[test]
fn shared_mode_respects_padding_budget() {
    // With padding 1 the hardware can only take bufferSize - padding = 3
    // frames; one frame must stay queued.
    let mut d = driver(1, 16);
    for _ in 0..3 {
        d.output(&vec![0, 0], false, 0).unwrap();
    }
    let sub = d.output(&vec![0, 0], false, 1).unwrap().unwrap();
    assert_eq!(sub.frames, 3);
    assert_eq!(d.prev.samples.len(), 1);
}

#[test]
fn non_blocking_unsignaled_wait_times_out() {
    let mut d = driver(1, 16);
    assert_eq!(d.set_blocking(false).unwrap(), Reconfigure::NotNeeded);
    for _ in 0..3 {
        d.output(&vec![0, 0], false, 0).unwrap();
    }
    let e = d.output(&vec![0, 0], false, 0).unwrap_err();
    assert_eq!(e, Error::WaitTimeout);
    // The frame stayed queued; a signalled retry delivers everything.
    assert_eq!(d.prev.samples.len(), 4);
    let sub = d.output(&vec![0, 0], true, 0).unwrap().unwrap();
    assert_eq!(sub.frames, 4);
    assert_eq!(d.prev.samples.len(), 1);
}

#[test]
fn exclusive_mode_assumes_full_buffer() {
    let mut d = driver(1, 16);
    assert_eq!(d.set_exclusive(true).unwrap(), Reconfigure::Needed);
    d.install_stream(&neg(1, 16));
    assert!(d.prev.exclusive);
    for _ in 0..3 {
        d.output(&vec![0, 0], false, 0).unwrap();
    }
    let sub = d.output(&vec![0, 0], false, 0).unwrap().unwrap();
    assert_eq!(sub.frames, 4);
}

#[test]
fn int32_and_float_encodings_convert() {
    let mut d = driver(1, 32);
    for _ in 0..3 {
        d.output(&vec![0, 0], false, 0).unwrap();
    }
    let sub = d.output(&vec![AMP_ONE, -AMP_ONE], false, 0).unwrap().unwrap();
    match sub.batch {
        EncodedBatch::Int32(out) => {
            assert_eq!(out.len(), 8);
            assert_eq!(out[6], 2147483647);
            assert_eq!(out[7], -2147483647);
        }
        other => panic!("expected 32-bit batch, got {:?}", other),
    }

    let mut d = driver(3, 32);
    for _ in 0..3 {
        d.output(&vec![0, 0], false, 0).unwrap();
    }
    let sub = d.output(&vec![AMP_ONE, 42], false, 0).unwrap().unwrap();
    match sub.batch {
        EncodedBatch::Float32(out) => {
            assert_eq!(out[6], AMP_ONE);
            assert_eq!(out[7], 42);
        }
        other => panic!("expected float batch, got {:?}", other),
    }
}

#[test]
fn unsupported_encoding_degrades_to_silence() {
    let mut d = driver(7, 8);
    for _ in 0..3 {
        d.output(&vec![0, 0], false, 0).unwrap();
    }
    let sub = d.output(&vec![0, 0], false, 0).unwrap().unwrap();
    assert_eq!(sub.frames, 4);
    assert!(matches!(sub.batch, EncodedBatch::Silence));
}

#[test]
fn idempotent_setters_keep_stream_identity() {
    let mut d = driver(1, 16);
    let id0 = d.prev.stream_id;
    assert_eq!(d.set_exclusive(false).unwrap(), Reconfigure::NotNeeded);
    assert_eq!(d.set_latency(40).unwrap(), Reconfigure::NotNeeded);
    assert_eq!(d.set_blocking(true).unwrap(), Reconfigure::NotNeeded);
    assert_eq!(d.set_device("Headphones").unwrap(), Reconfigure::NotNeeded);
    assert_eq!(d.prev.stream_id, id0);

    // A genuine change asks for a rebuild, and installing it changes the
    // stream identity and clears the queue.
    d.output(&vec![0, 0], false, 0).unwrap();
    assert_eq!(d.set_latency(20).unwrap(), Reconfigure::Needed);
    d.install_stream(&neg(1, 16));
    assert_eq!(d.prev.latency, 20);
    assert_ne!(d.prev.stream_id, id0);
    assert_eq!(d.prev.samples.len(), 0);
}

#[test]
fn set_device_unknown_name_fails_unchanged() {
    let mut d = driver(1, 16);
    let e = d.set_device("Nonexistent").unwrap_err();
    assert_eq!(e, Error::DeviceNotFound("Nonexistent".to_string()));
    assert_eq!(d.current_device_name, "Headphones");
}

#[test]
fn set_device_change_updates_selection() {
    let mut d = driver(1, 16);
    assert_eq!(d.set_device("Speakers").unwrap(), Reconfigure::Needed);
    assert_eq!(d.current_device_name, "Speakers");
    assert_eq!(d.current_device_id().unwrap(), "id-a");
}

#[test]
fn output_i16_scales_source_samples() {
    let mut d = driver(1, 16);
    for _ in 0..3 {
        d.output(&vec![0, 0], false, 0).unwrap();
    }
    // 16384 is amplitude 0.5; it converts to round(0.5 * 32767) = 16384.
    let sub = d.output_i16(&vec![16384, -16384], false, 0).unwrap().unwrap();
    match sub.batch {
        EncodedBatch::Int16(out) => {
            assert_eq!(out[6], 16384);
            assert_eq!(out[7], -16384);
        }
        other => panic!("expected 16-bit batch, got {:?}", other),
    }
}

#[test]
fn clear_drops_queue_and_keeps_stream() {
    let mut d = driver(1, 16);
    d.output(&vec![0, 0], false, 0).unwrap();
    let id0 = d.prev.stream_id;
    d.clear();
    assert_eq!(d.prev.samples.len(), 0);
    assert_eq!(d.prev.stream_id, id0);
}

#[test]
fn capability_lists() {
    let d = driver(1, 16);
    assert!(d.support_exclusive());
    assert!(d.support_blocking());
    assert_eq!(d.support_device_list(), strings(&["Headphones", "Speakers"]));
    assert_eq!(d.support_channels(), vec![2]);
    assert_eq!(d.support_frequencies(), vec![48000]);
    assert_eq!(d.support_latencies(), vec![0, 20, 40, 60, 80, 100]);
    assert_eq!(WASAPIDriver::driver(), "WASAPI");
}
