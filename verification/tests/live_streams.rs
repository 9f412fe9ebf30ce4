use async_std::channel::TryRecvError;
use windows_audio_control::collection::{DeviceEnumerator, DeviceNotificationEvent, EndpointInfo};
use windows_audio_control::comapi::{AudioEventListener, NoticationClient};
use windows_audio_control::device::VolumeChangeEvent;
use windows_audio_control::enums::{DataFlow, DeviceState, Role};
use windows_audio_control::errors::{ErrorKind, WindowsAudioError};

fn endpoint(id: &str, name: &str, flow: DataFlow, state: DeviceState) -> EndpointInfo {
    EndpointInfo { id: id.to_string(), friendly_name: name.to_string(), flow, state }
}

fn sample_system() -> DeviceEnumerator {
    let mut system = DeviceEnumerator::new();
    assert!(system.add_endpoint(endpoint("spk", "Speakers", DataFlow::Render, DeviceState::active())));
    assert!(system.add_endpoint(endpoint("mic", "Microphone", DataFlow::Capture, DeviceState::active())));
    system
}

#[test]
fn collection_stream_receives_events_in_arrival_order() {
    let mut system = sample_system();
    let receiver = system.start_events(1, 4).unwrap();
    assert_eq!(system.registration_count(), 1);

    system.notify_device_state_changed("X", 0x1);
    system.notify_default_device_changed(0, 0, "X");

    match receiver.try_recv().unwrap().unwrap() {
        DeviceNotificationEvent::StateChanged(id, state) => {
            assert_eq!(id, "X");
            assert_eq!(state.bits(), 0x1);
        },
        other => panic!("expected the state change first, got {:?}", other),
    }
    match receiver.try_recv().unwrap().unwrap() {
        DeviceNotificationEvent::DefaultChanged(id, flow, role) => {
            assert_eq!(id, "X");
            assert_eq!(flow, DataFlow::Render);
            assert_eq!(role, Role::Console);
        },
        other => panic!("expected the default change second, got {:?}", other),
    }
    assert!(matches!(receiver.try_recv(), Err(TryRecvError::Empty)));
}

#[test]
fn added_and_removed_events_travel_through_the_stream() {
    let mut system = sample_system();
    let receiver = system.start_events(9, 4).unwrap();

    system.notify_device_added("usb");
    system.notify_device_removed("usb");

    match receiver.try_recv().unwrap().unwrap() {
        DeviceNotificationEvent::Added(id) => assert_eq!(id, "usb"),
        other => panic!("expected an added event, got {:?}", other),
    }
    match receiver.try_recv().unwrap().unwrap() {
        DeviceNotificationEvent::Removed(id) => assert_eq!(id, "usb"),
        other => panic!("expected a removed event, got {:?}", other),
    }
}

#[test]
fn malformed_default_change_surfaces_as_one_failed_item() {
    let mut system = sample_system();
    let receiver = system.start_events(2, 4).unwrap();

    system.notify_default_device_changed(42, 0, "X");
    system.notify_default_device_changed(0, 1, "X");

    let failed = receiver.try_recv().unwrap().unwrap_err();
    assert_eq!(failed.kind(), ErrorKind::ConversionFailed);
    match receiver.try_recv().unwrap().unwrap() {
        DeviceNotificationEvent::DefaultChanged(id, flow, role) => {
            assert_eq!(id, "X");
            assert_eq!(flow, DataFlow::Render);
            assert_eq!(role, Role::Multimedia);
        },
        other => panic!("expected the valid change to follow, got {:?}", other),
    }
}

#[test]
fn slow_consumers_lose_events_rather_than_block_the_callback() {
    let mut system = sample_system();
    // capacity one: the second event is dropped while the first waits
    let receiver = system.start_events(3, 1).unwrap();

    system.notify_device_added("a");
    system.notify_device_added("b");

    match receiver.try_recv().unwrap().unwrap() {
        DeviceNotificationEvent::Added(id) => assert_eq!(id, "a"),
        other => panic!("expected the first event, got {:?}", other),
    }
    assert!(matches!(receiver.try_recv(), Err(TryRecvError::Empty)));
}

#[test]
fn duplicate_sink_registration_is_rejected() {
    let mut system = sample_system();
    let _receiver = system.start_events(5, 1).unwrap();
    let err = system.start_events(5, 1).unwrap_err();
    assert_eq!(err.kind(), ErrorKind::InvalidArgument);
    assert_eq!(system.registration_count(), 1);
}

#[test]
fn closing_a_stream_restores_the_registry() {
    let mut system = sample_system();
    assert_eq!(system.registration_count(), 0);
    let receiver = system.start_events(7, 1).unwrap();
    assert_eq!(system.registration_count(), 1);

    drop(receiver);
    system.unregister_notification(7).unwrap();
    assert_eq!(system.registration_count(), 0);

    // no further deliveries happen and no registration leaks
    system.notify_device_added("late");
    assert_eq!(system.registration_count(), 0);
}

#[test]
fn unregistering_twice_is_a_silent_no_op() {
    let mut system = sample_system();
    let _receiver = system.start_events(11, 1).unwrap();
    system.unregister_notification(11).unwrap();
    system.unregister_notification(11).unwrap();
    assert_eq!(system.registration_count(), 0);
    // a sink that was never registered unregisters silently too
    system.unregister_notification(999).unwrap();
}

#[test]
fn dropped_stream_means_deliveries_are_dropped_not_errors() {
    let mut system = sample_system();
    let receiver = system.start_events(13, 2).unwrap();
    drop(receiver);
    // the callback side never sees an error; the delivery is simply lost
    system.notify_device_added("gone");
    system.unregister_notification(13).unwrap();
    assert_eq!(system.registration_count(), 0);
}

#[test]
fn volume_stream_replacement_keeps_one_registration() {
    let system = sample_system();
    let mut device = system.get_device("spk").unwrap();
    assert!(!device.is_listening());

    let first = device.start_volume_events(2);
    assert!(device.is_listening());

    let second = device.start_volume_events(2);
    assert!(device.is_listening());

    // the first stream's sender was released by the replacement: the
    // stream yields no further events, it is closed
    assert!(matches!(first.try_recv(), Err(TryRecvError::Closed)));

    // notifications now reach only the second stream
    let payload: Vec<u32> = vec![0.5f32.to_bits()];
    assert!(device.notify_volume(false, 0.5f32.to_bits(), 1, &payload));
    let event = second.try_recv().unwrap().unwrap();
    assert!(!event.mute);
    assert_eq!(f32::from_bits(event.volume), 0.5);
    assert_eq!(event.channel_volumes.len(), 1);
}

#[test]
fn stopped_device_receives_nothing_and_stop_is_idempotent() {
    let system = sample_system();
    let mut device = system.get_device("spk").unwrap();
    let receiver = device.start_volume_events(2);

    device.stop_listening();
    assert!(!device.is_listening());
    device.stop_listening();
    assert!(!device.is_listening());

    let payload: Vec<u32> = vec![0];
    assert!(!device.notify_volume(false, 0, 1, &payload));
    assert!(matches!(receiver.try_recv(), Err(TryRecvError::Closed)));
}

#[test]
fn malformed_volume_notification_does_not_end_the_live_stream() {
    let system = sample_system();
    let mut device = system.get_device("spk").unwrap();
    let receiver = device.start_volume_events(4);

    let short_payload: Vec<u32> = vec![0];
    assert!(device.notify_volume(true, 0, 600, &short_payload));
    let payload: Vec<u32> = vec![0.25f32.to_bits(), 0.75f32.to_bits()];
    assert!(device.notify_volume(true, 0.75f32.to_bits(), 2, &payload));

    let failed = receiver.try_recv().unwrap().unwrap_err();
    assert_eq!(failed.kind(), ErrorKind::ConversionFailed);
    let event = receiver.try_recv().unwrap().unwrap();
    assert!(event.mute);
    assert_eq!(event.channel_volumes.len(), 2);
    assert_eq!(f32::from_bits(event.channel_volumes[1]), 0.75);
}

#[test]
fn listener_facade_registers_on_the_default_output_device() {
    let mut system = sample_system();
    let (sender, _receiver) = async_std::channel::bounded::<
        Result<VolumeChangeEvent, WindowsAudioError>,
    >(1);

    // without a default output device the listener cannot start
    let err = AudioEventListener::new(sender.clone(), &system).unwrap_err();
    assert_eq!(err.kind(), ErrorKind::NoDefaultDevice);

    system.set_default_endpoint("spk", Role::Console).unwrap();
    let mut listener = AudioEventListener::new(sender, &system).unwrap();
    assert_eq!(listener.listener_count(), 1);

    let resolved = listener.get_default_output_device(&system).unwrap();
    assert_eq!(resolved.id, "spk");

    listener.stop();
    assert_eq!(listener.listener_count(), 0);
    listener.stop();
    assert_eq!(listener.listener_count(), 0);
}

#[test]
fn undecodable_payload_travels_as_a_failed_item() {
    let (sender, receiver) = async_std::channel::bounded(1);
    let sink = windows_audio_control::collection::NotificationClient::new(21, sender);
    let msg = sink.on_undecodable_payload();
    assert_eq!(msg.unwrap_err().kind(), ErrorKind::ConversionFailed);
    let delivered = receiver.try_recv().unwrap().unwrap_err();
    assert_eq!(delivered.kind(), ErrorKind::ConversionFailed);
}

#[test]
fn diagnostic_sink_acknowledges_every_notification() {
    let sink = NoticationClient {};
    assert!(sink.on_device_state_changed("dev", 0x1));
    assert!(sink.on_device_added("dev"));
    assert!(sink.on_device_removed("dev"));
    assert!(sink.on_default_device_changed(0, 0, "dev"));
    assert!(sink.on_property_value_changed("dev"));
}

#[test]
fn test_sync_send() {
    fn trait_check<T: Send>(_: T) {}
    let mut system = sample_system();
    system.set_default_endpoint("spk", Role::Console).unwrap();
    let (tx, _rx) = async_std::channel::bounded::<Result<VolumeChangeEvent, WindowsAudioError>>(1);
    let listener = AudioEventListener::new(tx, &system);
    trait_check(listener);
}
