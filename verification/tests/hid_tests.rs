use pcpaneld::hid::{
    decode_knob_leds, decode_slider_leds, HidCommand, HidEvent, LedSlot, LogoMode,
};

#[test]
fn parse_position_event_knob() {
    let report = [0x01, 0x02, 0x80, 0, 0]; // knob 2, value 128
    let event = HidEvent::parse(&report).unwrap();
    assert_eq!(
        event,
        HidEvent::Position {
            control_id: 2,
            value: 128
        }
    );
}

#[test]
fn parse_position_event_slider() {
    let report = [0x01, 0x07, 0xFF]; // slider 2 (analog id 7), value 255
    let event = HidEvent::parse(&report).unwrap();
    assert_eq!(
        event,
        HidEvent::Position {
            control_id: 7,
            value: 255
        }
    );
}

#[test]
fn parse_position_event_endpoints() {
    // Minimum value
    let event = HidEvent::parse(&[0x01, 0x00, 0x00]).unwrap();
    assert_eq!(
        event,
        HidEvent::Position {
            control_id: 0,
            value: 0
        }
    );

    // Maximum value
    let event = HidEvent::parse(&[0x01, 0x08, 0xFF]).unwrap();
    assert_eq!(
        event,
        HidEvent::Position {
            control_id: 8,
            value: 255
        }
    );
}

#[test]
fn parse_position_invalid_control_id() {
    let result = HidEvent::parse(&[0x01, 0x09, 0x80]);
    assert!(result.is_err());
}

#[test]
fn parse_button_press() {
    let event = HidEvent::parse(&[0x02, 0x03, 0x01]).unwrap();
    assert_eq!(
        event,
        HidEvent::Button {
            button_id: 3,
            pressed: true
        }
    );
}

#[test]
fn parse_button_release() {
    let event = HidEvent::parse(&[0x02, 0x03, 0x00]).unwrap();
    assert_eq!(
        event,
        HidEvent::Button {
            button_id: 3,
            pressed: false
        }
    );
}

#[test]
fn parse_button_invalid_id() {
    let result = HidEvent::parse(&[0x02, 0x05, 0x01]);
    assert!(result.is_err());
}

#[test]
fn parse_button_invalid_state() {
    let result = HidEvent::parse(&[0x02, 0x00, 0x02]);
    assert!(result.is_err());
}

#[test]
fn parse_unknown_report_type() {
    let result = HidEvent::parse(&[0x03, 0x00, 0x00]);
    assert!(result.is_err());
}

#[test]
fn parse_too_short() {
    assert!(HidEvent::parse(&[]).is_err());
    assert!(HidEvent::parse(&[0x01]).is_err());
    assert!(HidEvent::parse(&[0x01, 0x00]).is_err());
}

#[test]
fn init_command_encoding() {
    let cmd = HidCommand::Init;
    let buf = cmd.encode();
    assert_eq!(buf[0], 0x01);
    assert!(buf[1..].iter().all(|&b| b == 0));
}

#[test]
fn knob_led_encode_decode_round_trip() {
    let slots = [
        LedSlot::static_color(255, 0, 0),
        LedSlot::static_color(0, 255, 0),
        LedSlot::static_color(0, 0, 255),
        LedSlot::static_color(255, 255, 0),
        LedSlot::off(),
    ];
    let cmd = HidCommand::SetKnobLeds(slots);
    let buf = cmd.encode();

    assert_eq!(buf[0], 0x05);
    assert_eq!(buf[1], 0x02);

    let decoded = decode_knob_leds(&buf).unwrap();
    assert_eq!(decoded, slots);
}

#[test]
fn slider_led_encode_decode_round_trip() {
    let slots = [
        LedSlot::static_color(0, 0, 255),
        LedSlot::static_color(0, 0, 200),
        LedSlot::static_color(0, 0, 150),
        LedSlot::static_color(0, 0, 100),
    ];
    let cmd = HidCommand::SetSliderLeds(slots);
    let buf = cmd.encode();

    assert_eq!(buf[0], 0x05);
    assert_eq!(buf[1], 0x00);

    let decoded = decode_slider_leds(&buf).unwrap();
    assert_eq!(decoded, slots);
}

#[test]
fn logo_command_encoding() {
    let cmd = HidCommand::SetLogo {
        mode: LogoMode::Static,
        r: 255,
        g: 128,
        b: 64,
        speed: 0,
    };
    let buf = cmd.encode();
    assert_eq!(buf[0], 0x05);
    assert_eq!(buf[1], 0x03);
    assert_eq!(buf[2], 1); // Static mode
    assert_eq!(buf[3], 255);
    assert_eq!(buf[4], 128);
    assert_eq!(buf[5], 64);
    assert_eq!(buf[6], 0); // speed
}

#[test]
fn all_off_sequence_clears_everything() {
    let seq = HidCommand::all_off_sequence();
    assert_eq!(seq.len(), 4); // knobs, slider labels, sliders, logo

    for cmd in &seq {
        let buf = cmd.encode();
        // All should be 0x05 commands
        assert_eq!(buf[0], 0x05);
    }
}

#[test]
fn all_off_knobs_are_off() {
    let seq = HidCommand::all_off_sequence();
    let buf = seq[0].encode();
    let slots = decode_knob_leds(&buf).unwrap();
    for slot in &slots {
        assert_eq!(*slot, LedSlot::off());
    }
}

#[test]
fn parse_all_valid_position_reports() {
    for control_id in 0..=8u8 {
        for value in [0u8, 1, 127, 128, 254, 255] {
            let event = HidEvent::parse(&[0x01, control_id, value]).unwrap();
            assert_eq!(event, HidEvent::Position { control_id, value });
        }
    }
}

#[test]
fn parse_all_valid_button_reports() {
    for button_id in 0..=4u8 {
        for pressed in [false, true] {
            let event =
                HidEvent::parse(&[0x02, button_id, if pressed { 1 } else { 0 }]).unwrap();
            assert_eq!(event, HidEvent::Button { button_id, pressed });
        }
    }
}

#[test]
fn decode_rejects_wrong_zone() {
    let cmd = HidCommand::SetKnobLeds([LedSlot::off(); 5]);
    let buf = cmd.encode();
    assert!(decode_slider_leds(&buf).is_none());

    let cmd = HidCommand::SetSliderLeds([LedSlot::off(); 4]);
    let buf = cmd.encode();
    assert!(decode_knob_leds(&buf).is_none());
}
