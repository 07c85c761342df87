use ieaoo::devices::contains_name;
use ieaoo::devices::id_for_name;
use ieaoo::devices::list_devices;
use ieaoo::errors::Error;
use ieaoo::wasapi::str_to_pcwstr;

fn strings(v: &[&str]) -> Vec<String> {
    v.iter().map(|s| s.to_string()).collect()
}

#[test]
fn list_devices_puts_default_first() {
    let names = strings(&["Speakers", "Headphones", "Monitor"]);
    let ids = strings(&["id-a", "id-b", "id-c"]);
    let (onames, oids) = list_devices(&names, &ids, &"id-b".to_string()).unwrap();
    assert_eq!(onames, strings(&["Headphones", "Speakers", "Monitor"]));
    assert_eq!(oids, strings(&["id-b", "id-a", "id-c"]));
}

#[test]
fn list_devices_keeps_order_without_default_match() {
    let names = strings(&["A", "B"]);
    let ids = strings(&["1", "2"]);
    let (onames, oids) = list_devices(&names, &ids, &"zzz".to_string()).unwrap();
    assert_eq!(onames, strings(&["A", "B"]));
    assert_eq!(oids, strings(&["1", "2"]));
}

#[test]
fn list_devices_empty_is_no_device_found() {
    let r = list_devices(&Vec::new(), &Vec::new(), &"x".to_string());
    assert_eq!(r.unwrap_err(), Error::NoDeviceFound);
}

#[test]
fn id_for_name_finds_first_match() {
    let names = strings(&["A", "B", "B"]);
    let ids = strings(&["1", "2", "3"]);
    assert_eq!(id_for_name(&names, &ids, &"B".to_string()).unwrap(), "2");
}

#[test]
fn id_for_name_missing_is_device_not_found() {
    let names = strings(&["A"]);
    let ids = strings(&["1"]);
    let e = id_for_name(&names, &ids, &"X".to_string()).unwrap_err();
    assert_eq!(e, Error::DeviceNotFound("X".to_string()));
}

#[test]
fn contains_name_checks_membership() {
    let names = strings(&["A", "B"]);
    assert!(contains_name(&names, "B"));
    assert!(!contains_name(&names, "C"));
}

#[test]
fn error_kind_text_names_each_variant() {
    assert_eq!(Error::NoDeviceFound.kind_text(), "NoDeviceFound");
    assert_eq!(Error::DeviceNotFound("x".to_string()).kind_text(), "DeviceNotFound");
    assert_eq!(Error::Unsupported("y".to_string()).kind_text(), "Unsupported");
    assert_eq!(Error::WaitTimeout.kind_text(), "WaitTimeout");
    assert_eq!(Error::NativeDeviceError(-5).kind_text(), "NativeDeviceError");
}

#[test]
fn str_to_pcwstr_is_wide_and_nul_terminated() {
    assert_eq!(str_to_pcwstr("ab"), vec![0x61u16, 0x62u16, 0u16]);
    assert_eq!(str_to_pcwstr(""), vec![0u16]);
    // A character outside the basic multilingual plane takes two units.
    assert_eq!(str_to_pcwstr("\u{1D11E}"), vec![0xD834u16, 0xDD1Eu16, 0u16]);
}
