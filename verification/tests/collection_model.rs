use windows_audio_control::collection::{DeviceEnumerator, EndpointInfo};
use windows_audio_control::enums::{DataFlow, DeviceState, Role};
use windows_audio_control::errors::ErrorKind;

fn endpoint(id: &str, name: &str, flow: DataFlow, state: DeviceState) -> EndpointInfo {
    EndpointInfo { id: id.to_string(), friendly_name: name.to_string(), flow, state }
}

fn sample_system() -> DeviceEnumerator {
    let mut system = DeviceEnumerator::new();
    assert!(system.add_endpoint(endpoint("spk", "Speakers", DataFlow::Render, DeviceState::active())));
    assert!(system.add_endpoint(endpoint("hdp", "Headphones", DataFlow::Render, DeviceState::unplugged())));
    assert!(system.add_endpoint(endpoint("mic", "Microphone", DataFlow::Capture, DeviceState::active())));
    assert!(system.add_endpoint(endpoint("aux", "Aux In", DataFlow::Capture, DeviceState::disabled())));
    system
}

#[test]
fn add_endpoint_rejects_duplicates_and_malformed_rows() {
    let mut system = sample_system();
    assert_eq!(system.endpoint_count(), 4);
    // same id again
    assert!(!system.add_endpoint(endpoint("spk", "Other", DataFlow::Render, DeviceState::active())));
    // empty id
    assert!(!system.add_endpoint(endpoint("", "Nameless", DataFlow::Render, DeviceState::active())));
    // `All` is a filter, not a direction a device can have
    assert!(!system.add_endpoint(endpoint("x", "X", DataFlow::All, DeviceState::active())));
    // a device is in exactly one state
    assert!(!system.add_endpoint(endpoint("y", "Y", DataFlow::Render, DeviceState::all())));
    assert_eq!(system.endpoint_count(), 4);
}

#[test]
fn collection_count_matches_filter_criteria() {
    let system = sample_system();
    let all = system.get_collection(DataFlow::All, DeviceState::all()).unwrap();
    assert_eq!(all.length(), 4);

    let render = system.get_collection(DataFlow::Render, DeviceState::all()).unwrap();
    assert_eq!(render.length(), 2);

    let capture = system.get_collection(DataFlow::Capture, DeviceState::all()).unwrap();
    assert_eq!(capture.length(), 2);

    let active = system.get_collection(DataFlow::All, DeviceState::active()).unwrap();
    assert_eq!(active.length(), 2);

    let render_active = system.get_collection(DataFlow::Render, DeviceState::active()).unwrap();
    assert_eq!(render_active.length(), 1);

    let unplugged_or_disabled =
        DeviceState::unplugged().union(DeviceState::disabled());
    let odd = system.get_collection(DataFlow::All, unplugged_or_disabled).unwrap();
    assert_eq!(odd.length(), 2);

    let none = system.get_collection(DataFlow::Capture, DeviceState::not_present()).unwrap();
    assert_eq!(none.length(), 0);
}

#[test]
fn collection_count_is_stable_across_gets() {
    let system = sample_system();
    let render = system.get_collection(DataFlow::Render, DeviceState::all()).unwrap();
    let before = render.length();
    let first = render.get(0).unwrap();
    let again = render.get(0).unwrap();
    assert_eq!(render.length(), before);
    // two lookups of the same index resolve the same endpoint id
    assert!(first.same_endpoint(&again));
    assert_eq!(first.id, "spk");
    assert_eq!(first.friendly_name, "Speakers");
}

#[test]
fn collection_snapshot_is_frozen_at_enumeration_time() {
    let mut system = sample_system();
    let render = system.get_collection(DataFlow::Render, DeviceState::all()).unwrap();
    assert!(system.add_endpoint(endpoint("hdmi", "Display Audio", DataFlow::Render, DeviceState::active())));
    // the snapshot does not follow the table
    assert_eq!(render.length(), 2);
    let fresh = system.get_collection(DataFlow::Render, DeviceState::all()).unwrap();
    assert_eq!(fresh.length(), 3);
}

#[test]
fn get_past_count_fails_with_index_out_of_range() {
    let system = sample_system();
    let capture = system.get_collection(DataFlow::Capture, DeviceState::all()).unwrap();
    assert_eq!(capture.length(), 2);
    let err = capture.get(2).unwrap_err();
    assert_eq!(err.kind(), ErrorKind::IndexOutOfRange);
    let err = capture.get(u32::MAX).unwrap_err();
    assert_eq!(err.kind(), ErrorKind::IndexOutOfRange);
    assert!(capture.get(1).is_ok());
}

#[test]
fn resolving_an_unknown_id_fails_with_not_found() {
    let system = sample_system();
    let err = system.get_device("nope").unwrap_err();
    assert_eq!(err.kind(), ErrorKind::NotFound);

    let device = system.get_device("mic").unwrap();
    assert_eq!(device.id, "mic");
    assert_eq!(device.friendly_name, "Microphone");
}

#[test]
fn resolving_an_empty_id_fails_before_lookup() {
    let system = sample_system();
    let err = system.get_device("").unwrap_err();
    assert_eq!(err.kind(), ErrorKind::InvalidArgument);
}

#[test]
fn default_device_lookup_distinguishes_missing_defaults() {
    let mut system = sample_system();
    let err = system.get_default_device(DataFlow::Render).unwrap_err();
    assert_eq!(err.kind(), ErrorKind::NoDefaultDevice);

    system.set_default_endpoint("spk", Role::Console).unwrap();
    let device = system.get_default_device(DataFlow::Render).unwrap();
    assert_eq!(device.id, "spk");

    // the capture default is a separate designation
    let err = system.get_default_device(DataFlow::Capture).unwrap_err();
    assert_eq!(err.kind(), ErrorKind::NoDefaultDevice);

    system.set_default_endpoint("mic", Role::Console).unwrap();
    let device = system.get_default_device(DataFlow::Capture).unwrap();
    assert_eq!(device.id, "mic");

    let err = system.get_default_device(DataFlow::All).unwrap_err();
    assert_eq!(err.kind(), ErrorKind::InvalidArgument);
}

#[test]
fn set_default_for_unknown_endpoint_is_rejected() {
    let mut system = sample_system();
    let err = system.set_default_endpoint("ghost", Role::Console).unwrap_err();
    assert_eq!(err.kind(), ErrorKind::PermissionOrStateError);
}

#[test]
fn set_default_through_a_device_handle() {
    let mut system = sample_system();
    let device = system.get_device("hdp").unwrap();
    device.set_default(Role::Console, &mut system).unwrap();
    let resolved = system.get_default_device(DataFlow::Render).unwrap();
    assert_eq!(resolved.id, "hdp");

    // a handle whose endpoint vanished from the table is rejected
    let stale = windows_audio_control::device::AudioDevice::new(
        "ghost".to_string(),
        "Ghost".to_string(),
    );
    let err = stale.set_default(Role::Console, &mut system).unwrap_err();
    assert_eq!(err.kind(), ErrorKind::PermissionOrStateError);
}

#[test]
fn toggle_mute_flips_the_flag() {
    let system = sample_system();
    let mut device = system.get_device("spk").unwrap();
    assert!(!device.is_muted());
    device.toggle_mute();
    assert!(device.is_muted());
    device.toggle_mute();
    assert!(!device.is_muted());
}
