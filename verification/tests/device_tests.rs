use voice_core::device::{enumerate_audio_devices, find_device, AudioDevice};
use voice_core::error::AudioError;

fn listing(entries: &[Option<&str>]) -> Vec<Option<String>> {
    entries.iter().map(|e| e.map(|s| s.to_string())).collect()
}

fn device(name: &str) -> AudioDevice {
    AudioDevice { id: name.to_string(), label: name.to_string() }
}

#[test]
fn every_readable_device_is_listed_in_order() {
    let found = enumerate_audio_devices(Ok(listing(&[Some("Mic A"), Some("Mic B"), Some("USB")])));
    assert_eq!(found, Ok(vec![device("Mic A"), device("Mic B"), device("USB")]));
}

#[test]
fn unreadable_devices_are_skipped() {
    let found = enumerate_audio_devices(Ok(listing(&[None, Some("Mic A"), None, Some("Mic B"), None])));
    assert_eq!(found, Ok(vec![device("Mic A"), device("Mic B")]));
}

#[test]
fn no_device_is_an_empty_list_not_an_error() {
    assert_eq!(enumerate_audio_devices(Ok(Vec::new())), Ok(Vec::new()));
    assert_eq!(enumerate_audio_devices(Ok(listing(&[None, None]))), Ok(Vec::new()));
}

#[test]
fn host_failure_is_reported() {
    let found = enumerate_audio_devices(Err("no audio subsystem".to_string()));
    assert_eq!(found, Err(AudioError::HostUnavailable("no audio subsystem".to_string())));
}

#[test]
fn identifier_and_label_are_the_name() {
    let found = enumerate_audio_devices(Ok(listing(&[Some("Headset")]))).unwrap();
    assert_eq!(found.len(), 1);
    assert_eq!(found[0].id, "Headset");
    assert_eq!(found[0].label, "Headset");
}

#[test]
fn duplicate_names_are_kept() {
    let found = enumerate_audio_devices(Ok(listing(&[Some("Mic"), Some("Mic")])));
    assert_eq!(found, Ok(vec![device("Mic"), device("Mic")]));
}

#[test]
fn find_device_takes_the_first_exact_match() {
    let names = listing(&[Some("Mic"), None, Some("USB"), Some("USB")]);
    assert_eq!(find_device(&names, &"USB".to_string()), Some(2));
    assert_eq!(find_device(&names, &"Mic".to_string()), Some(0));
}

#[test]
fn find_device_wants_the_whole_name() {
    let names = listing(&[Some("Microphone"), Some("mic"), None]);
    assert_eq!(find_device(&names, &"Mic".to_string()), None);
    assert_eq!(find_device(&names, &"microphone".to_string()), None);
    assert_eq!(find_device(&names, &"".to_string()), None);
    assert_eq!(find_device(&Vec::new(), &"Mic".to_string()), None);
}

#[test]
fn find_device_never_matches_an_unreadable_device() {
    let names = listing(&[None, None]);
    assert_eq!(find_device(&names, &"".to_string()), None);
}
