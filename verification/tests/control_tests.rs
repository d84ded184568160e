use pcpaneld::control::{
    parse_media_command, parse_target, AppMatcher, AppProperties, AudioTarget, ControlId,
    MediaCommand, TargetParseError, NUM_ANALOG,
};

#[test]
fn analog_id_round_trip() {
    for id in 0..NUM_ANALOG {
        let control = ControlId::from_analog_id(id).unwrap();
        assert_eq!(control.to_analog_id(), id);
    }
}

#[test]
fn analog_id_out_of_range() {
    assert_eq!(ControlId::from_analog_id(9), None);
    assert_eq!(ControlId::from_analog_id(255), None);
}

#[test]
fn button_id_valid_range() {
    for id in 0..5 {
        let control = ControlId::from_button_id(id).unwrap();
        assert!(control.is_knob());
    }
}

#[test]
fn button_id_out_of_range() {
    assert_eq!(ControlId::from_button_id(5), None);
    assert_eq!(ControlId::from_button_id(255), None);
}

#[test]
fn config_key_round_trip() {
    for id in 0..NUM_ANALOG {
        let control = ControlId::from_analog_id(id).unwrap();
        let key = control.config_key();
        let parsed = ControlId::from_config_key(&key).unwrap();
        assert_eq!(control, parsed);
    }
}

#[test]
fn config_key_invalid() {
    assert_eq!(ControlId::from_config_key("knob0"), None);
    assert_eq!(ControlId::from_config_key("knob6"), None);
    assert_eq!(ControlId::from_config_key("slider0"), None);
    assert_eq!(ControlId::from_config_key("slider5"), None);
    assert_eq!(ControlId::from_config_key("fader1"), None);
    assert_eq!(ControlId::from_config_key(""), None);
    assert_eq!(ControlId::from_config_key("knob"), None);
}

#[test]
fn config_key_accepts_decimal_quirks() {
    // The numeric tail is parsed like a strict unsigned decimal: leading
    // zeros and an explicit plus sign denote the same number.
    assert_eq!(ControlId::from_config_key("knob01"), Some(ControlId::Knob(0)));
    assert_eq!(ControlId::from_config_key("knob+2"), Some(ControlId::Knob(1)));
    assert_eq!(ControlId::from_config_key("knob1x"), None);
    assert_eq!(ControlId::from_config_key("knob999999999999"), None);
    assert_eq!(ControlId::from_config_key("slider+"), None);
}

#[test]
fn knob_ids_are_0_to_4() {
    for id in 0..5u8 {
        let control = ControlId::from_analog_id(id).unwrap();
        assert_eq!(control, ControlId::Knob(id));
        assert!(control.is_knob());
        assert!(!control.is_slider());
    }
}

#[test]
fn slider_ids_are_5_to_8() {
    for id in 5..9u8 {
        let control = ControlId::from_analog_id(id).unwrap();
        assert_eq!(control, ControlId::Slider(id - 5));
        assert!(control.is_slider());
        assert!(!control.is_knob());
    }
}

#[test]
fn empty_matcher_matches_nothing() {
    let matcher = AppMatcher::default();
    let props = AppProperties {
        binary: Some("firefox".into()),
        name: Some("Firefox".into()),
        flatpak_id: None,
    };
    assert!(!matcher.matches(&props));
    assert!(!matcher.is_valid());
}

#[test]
fn binary_match_case_insensitive_substring() {
    let matcher = AppMatcher {
        binary: Some("fire".into()),
        ..Default::default()
    };

    assert!(matcher.matches(&AppProperties {
        binary: Some("firefox".into()),
        ..Default::default()
    }));
    assert!(matcher.matches(&AppProperties {
        binary: Some("Firefox".into()),
        ..Default::default()
    }));
    assert!(matcher.matches(&AppProperties {
        binary: Some("FIREFOX-BIN".into()),
        ..Default::default()
    }));
    assert!(!matcher.matches(&AppProperties {
        binary: Some("chrome".into()),
        ..Default::default()
    }));
    assert!(!matcher.matches(&AppProperties {
        binary: None,
        ..Default::default()
    }));
}

#[test]
fn flatpak_id_match() {
    let matcher = AppMatcher {
        flatpak_id: Some("org.mozilla.firefox".into()),
        ..Default::default()
    };
    assert!(matcher.matches(&AppProperties {
        flatpak_id: Some("org.mozilla.firefox".into()),
        ..Default::default()
    }));
    assert!(matcher.matches(&AppProperties {
        flatpak_id: Some("org.mozilla.Firefox".into()),
        ..Default::default()
    }));
    assert!(!matcher.matches(&AppProperties {
        flatpak_id: None,
        ..Default::default()
    }));
}

#[test]
fn and_logic_multiple_fields() {
    let matcher = AppMatcher {
        binary: Some("firefox".into()),
        name: Some("Firefox".into()),
        ..Default::default()
    };

    // Both match
    assert!(matcher.matches(&AppProperties {
        binary: Some("firefox".into()),
        name: Some("Firefox Web Browser".into()),
        ..Default::default()
    }));

    // Only binary matches
    assert!(!matcher.matches(&AppProperties {
        binary: Some("firefox".into()),
        name: Some("Chrome".into()),
        ..Default::default()
    }));

    // Only name matches
    assert!(!matcher.matches(&AppProperties {
        binary: Some("chrome".into()),
        name: Some("Firefox".into()),
        ..Default::default()
    }));
}

#[test]
fn name_match_case_insensitive_substring() {
    let matcher = AppMatcher {
        name: Some("Fire".into()),
        ..Default::default()
    };
    let yes = AppProperties {
        binary: Some("firefox".into()),
        name: Some("Firefox".into()),
        flatpak_id: None,
    };
    let no = AppProperties {
        binary: Some("chrome".into()),
        name: Some("Chrome".into()),
        flatpak_id: None,
    };
    assert!(matcher.matches(&yes));
    assert!(!matcher.matches(&no));
}

#[test]
fn matcher_unicode_case_folding() {
    // Lowercasing is Unicode-aware, not ASCII-only.
    let matcher = AppMatcher {
        name: Some("MÜSIK".into()),
        ..Default::default()
    };
    assert!(matcher.matches(&AppProperties {
        name: Some("müsik-player".into()),
        ..Default::default()
    }));
}

#[test]
fn media_command_method_names() {
    assert_eq!(MediaCommand::PlayPause.method_name(), "PlayPause");
    assert_eq!(MediaCommand::Play.method_name(), "Play");
    assert_eq!(MediaCommand::Pause.method_name(), "Pause");
    assert_eq!(MediaCommand::Next.method_name(), "Next");
    assert_eq!(MediaCommand::Previous.method_name(), "Previous");
    assert_eq!(MediaCommand::Stop.method_name(), "Stop");
}

#[test]
fn parse_target_known_names() {
    assert_eq!(
        parse_target("default-output", None, None, None),
        Ok(AudioTarget::DefaultOutput)
    );
    assert_eq!(
        parse_target("default-sink", None, None, None),
        Ok(AudioTarget::DefaultOutput)
    );
    assert_eq!(
        parse_target("default-input", None, None, None),
        Ok(AudioTarget::DefaultInput)
    );
    assert_eq!(
        parse_target("default-source", None, None, None),
        Ok(AudioTarget::DefaultInput)
    );
    assert_eq!(parse_target("focused", None, None, None), Ok(AudioTarget::FocusedApp));
    assert_eq!(
        parse_target("bogus", None, None, None),
        Err(TargetParseError::UnknownTarget)
    );
}

#[test]
fn parse_target_app_requires_matcher() {
    assert_eq!(
        parse_target("app", None, None, None),
        Err(TargetParseError::EmptyMatcher)
    );
    let parsed = parse_target("app", Some("firefox".into()), None, None).unwrap();
    assert_eq!(
        parsed,
        AudioTarget::App {
            matcher: AppMatcher {
                binary: Some("firefox".into()),
                name: None,
                flatpak_id: None,
            },
        }
    );
}

#[test]
fn parse_media_command_words() {
    assert_eq!(parse_media_command("play_pause"), Some(MediaCommand::PlayPause));
    assert_eq!(parse_media_command("play"), Some(MediaCommand::Play));
    assert_eq!(parse_media_command("pause"), Some(MediaCommand::Pause));
    assert_eq!(parse_media_command("next"), Some(MediaCommand::Next));
    assert_eq!(parse_media_command("previous"), Some(MediaCommand::Previous));
    assert_eq!(parse_media_command("stop"), Some(MediaCommand::Stop));
    assert_eq!(parse_media_command("rewind"), None);
}
