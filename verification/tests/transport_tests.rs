use pcpaneld::hid::{HidCommand, HidEvent, LedSlot};
use pcpaneld::transport::{drain_stale_reports, send_all_off, HidTransport, MockHidTransport};

#[test]
fn mock_transport_read_scripted_events() {
    let mut mock = MockHidTransport::new();
    // Script a knob turn and a button press
    mock.queue_read(vec![0x01, 0x02, 0x80]);
    mock.queue_read(vec![0x02, 0x00, 0x01]);
    mock.queue_timeout();

    let data = mock.read_timeout(100).unwrap();
    assert_eq!(data.len(), 3);
    let event = HidEvent::parse(&data).unwrap();
    assert_eq!(
        event,
        HidEvent::Position {
            control_id: 2,
            value: 128
        }
    );

    let data = mock.read_timeout(100).unwrap();
    assert_eq!(data.len(), 3);
    let event = HidEvent::parse(&data).unwrap();
    assert_eq!(
        event,
        HidEvent::Button {
            button_id: 0,
            pressed: true
        }
    );

    // Timeout
    let data = mock.read_timeout(100).unwrap();
    assert_eq!(data.len(), 0);
}

#[test]
fn mock_transport_captures_writes() {
    let mut mock = MockHidTransport::new();
    let cmd = HidCommand::Init;
    let payload = cmd.encode();
    mock.write(&payload).unwrap();

    let writes = mock.get_writes();
    assert_eq!(writes.len(), 1);
    assert_eq!(writes[0][0], 0x01); // init command
}

#[test]
fn mock_transport_serial() {
    let mock = MockHidTransport::new().with_serial("ABC123");
    assert_eq!(mock.get_serial(), Some("ABC123".to_string()));

    let mock2 = MockHidTransport::new();
    assert_eq!(mock2.get_serial(), None);
}

#[test]
fn mock_transport_read_error() {
    let mut mock = MockHidTransport::new();
    mock.queue_read_error("device disconnected");

    let result = mock.read_timeout(100);
    assert!(result.is_err());
}

#[test]
fn mock_exhausted_reads_return_timeout() {
    let mut mock = MockHidTransport::new();
    // No scripted reads -> should return a timeout (empty read)
    let data = mock.read_timeout(100).unwrap();
    assert_eq!(data.len(), 0);
}

#[test]
fn write_all_led_commands_via_mock() {
    let mut mock = MockHidTransport::new();

    let knob_leds = HidCommand::SetKnobLeds([LedSlot::static_color(255, 255, 255); 5]);
    let slider_leds = HidCommand::SetSliderLeds([LedSlot::static_color(0, 0, 255); 4]);

    mock.write(&knob_leds.encode()).unwrap();
    mock.write(&slider_leds.encode()).unwrap();

    let writes = mock.get_writes();
    assert_eq!(writes.len(), 2);
    assert_eq!(writes[0][0], 0x05);
    assert_eq!(writes[0][1], 0x02); // knobs
    assert_eq!(writes[1][0], 0x05);
    assert_eq!(writes[1][1], 0x00); // sliders
}

#[test]
fn drain_stale_reports_empties_queue() {
    let mut mock = MockHidTransport::new();
    for i in 0..10 {
        mock.queue_read(vec![0x01, 0x00, i]);
    }
    mock.queue_timeout();

    drain_stale_reports(&mut mock);
    let data = mock.read_timeout(50).unwrap();
    assert_eq!(data.len(), 0);
}

#[test]
fn send_all_off_writes_led_clear() {
    let mut mock = MockHidTransport::new();
    send_all_off(&mut mock);

    let writes = mock.get_writes();
    assert_eq!(writes.len(), 4);
}
