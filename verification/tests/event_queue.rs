use windows_audio_control::collection::{
    default_changed_event, deliver_default_changed, deliver_state_changed, state_changed_event,
    DeviceNotificationEvent,
};
use windows_audio_control::device::{deliver_volume_notification, volume_change_event};
use windows_audio_control::enums::{DataFlow, Role};
use windows_audio_control::errors::ErrorKind;
use windows_audio_control::queue::EventQueue;

#[test]
fn queue_is_first_in_first_out() {
    let mut queue: EventQueue<u32> = EventQueue::new(3);
    assert!(queue.offer(10));
    assert!(queue.offer(20));
    assert!(queue.offer(30));
    assert_eq!(queue.take(), Some(10));
    assert_eq!(queue.take(), Some(20));
    assert_eq!(queue.take(), Some(30));
    assert_eq!(queue.take(), None);
}

#[test]
fn queue_drops_on_full_without_blocking_or_reordering() {
    let mut queue: EventQueue<u32> = EventQueue::new(2);
    assert_eq!(queue.capacity(), 2);
    assert!(queue.offer(1));
    assert!(queue.offer(2));
    assert!(!queue.offer(3));
    assert_eq!(queue.len(), 2);
    assert_eq!(queue.take(), Some(1));
    assert!(queue.offer(4));
    assert_eq!(queue.take(), Some(2));
    assert_eq!(queue.take(), Some(4));
}

#[test]
fn closed_queue_refuses_offers_but_drains() {
    let mut queue: EventQueue<u32> = EventQueue::new(2);
    assert!(queue.offer(1));
    queue.close();
    assert!(queue.is_closed());
    assert!(!queue.offer(2));
    assert!(!queue.is_finished());
    assert_eq!(queue.take(), Some(1));
    assert_eq!(queue.take(), None);
    assert!(queue.is_finished());
}

#[test]
fn state_change_conversion_truncates_undefined_bits() {
    let event = state_changed_event("dev".to_string(), 0x31);
    match event {
        DeviceNotificationEvent::StateChanged(id, state) => {
            assert_eq!(id, "dev");
            assert_eq!(state.bits(), 0x1);
        },
        other => panic!("expected a state change, got {:?}", other),
    }
}

#[test]
fn default_change_conversion_is_exact() {
    let msg = default_changed_event("X".to_string(), 0, 0).unwrap();
    match msg {
        DeviceNotificationEvent::DefaultChanged(id, flow, role) => {
            assert_eq!(id, "X");
            assert_eq!(flow, DataFlow::Render);
            assert_eq!(role, Role::Console);
        },
        other => panic!("expected a default change, got {:?}", other),
    }

    let msg = default_changed_event("Y".to_string(), 1, 2).unwrap();
    match msg {
        DeviceNotificationEvent::DefaultChanged(id, flow, role) => {
            assert_eq!(id, "Y");
            assert_eq!(flow, DataFlow::Capture);
            assert_eq!(role, Role::Communications);
        },
        other => panic!("expected a default change, got {:?}", other),
    }
}

#[test]
fn undefined_flow_or_role_yields_conversion_failed() {
    let err = default_changed_event("X".to_string(), 9, 0).unwrap_err();
    assert_eq!(err.kind(), ErrorKind::ConversionFailed);
    let err = default_changed_event("X".to_string(), 0, -3).unwrap_err();
    assert_eq!(err.kind(), ErrorKind::ConversionFailed);
}

#[test]
fn volume_conversion_reads_exactly_the_declared_channels() {
    let payload: Vec<u32> = vec![
        0.25f32.to_bits(),
        0.5f32.to_bits(),
        0.75f32.to_bits(),
        1.0f32.to_bits(),
    ];
    let event = volume_change_event(true, 0.5f32.to_bits(), 2, &payload).unwrap();
    assert!(event.mute);
    assert_eq!(f32::from_bits(event.volume), 0.5);
    assert_eq!(event.channel_volumes.len(), 2);
    assert_eq!(f32::from_bits(event.channel_volumes[0]), 0.25);
    assert_eq!(f32::from_bits(event.channel_volumes[1]), 0.5);
}

#[test]
fn absurd_channel_count_fails_conversion() {
    let payload: Vec<u32> = vec![0, 0];
    let err = volume_change_event(false, 0, 4096, &payload).unwrap_err();
    assert_eq!(err.kind(), ErrorKind::ConversionFailed);
    let err = volume_change_event(false, 0, 0, &payload).unwrap_err();
    assert_eq!(err.kind(), ErrorKind::ConversionFailed);
}

#[test]
fn malformed_volume_notification_yields_one_failed_item_and_stream_goes_on() {
    let mut queue = EventQueue::new(4);
    let short_payload: Vec<u32> = vec![0];
    // declared channel count beyond the payload: malformed
    assert!(deliver_volume_notification(&mut queue, false, 0, 9, &short_payload));
    // the stream is still open; the next valid notification goes through
    let payload: Vec<u32> = vec![1.0f32.to_bits()];
    assert!(deliver_volume_notification(&mut queue, false, 1.0f32.to_bits(), 1, &payload));

    let first = queue.take().unwrap();
    assert_eq!(first.unwrap_err().kind(), ErrorKind::ConversionFailed);
    let second = queue.take().unwrap().unwrap();
    assert_eq!(f32::from_bits(second.volume), 1.0);
    assert_eq!(second.channel_volumes.len(), 1);
    assert!(queue.take().is_none());
    assert!(!queue.is_closed());
}

#[test]
fn collection_events_arrive_in_delivery_order() {
    let mut queue = EventQueue::new(2);
    assert!(deliver_state_changed(&mut queue, "X".to_string(), 0x1));
    assert!(deliver_default_changed(&mut queue, "X".to_string(), 0, 0));

    match queue.take().unwrap().unwrap() {
        DeviceNotificationEvent::StateChanged(id, state) => {
            assert_eq!(id, "X");
            assert_eq!(state.bits(), 0x1);
        },
        other => panic!("expected the state change first, got {:?}", other),
    }
    match queue.take().unwrap().unwrap() {
        DeviceNotificationEvent::DefaultChanged(id, flow, role) => {
            assert_eq!(id, "X");
            assert_eq!(flow, DataFlow::Render);
            assert_eq!(role, Role::Console);
        },
        other => panic!("expected the default change second, got {:?}", other),
    }
}
