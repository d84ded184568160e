use pcpaneld::audio::{AudioState, CurveTable, SinkInfo, SinkInputInfo, Volume, VOLUME_SCALE};
use pcpaneld::config::Config;
use pcpaneld::control::{
    AppMatcher, AudioTarget, ButtonAction, ControlConfig, ControlId, DialAction, MediaCommand,
};
use pcpaneld::engine::{AudioCommand, ButtonOutcome, EngineState, IpcOutcome};
use pcpaneld::hid::{HidCommand, LedMode, LogoMode};
use pcpaneld::ipc::{IpcRequest, IpcResponse};

fn make_sink_input(
    index: u32,
    name: &str,
    binary: Option<&str>,
    flatpak_id: Option<&str>,
) -> SinkInputInfo {
    SinkInputInfo {
        index,
        name: name.to_string(),
        binary: binary.map(String::from),
        flatpak_id: flatpak_id.map(String::from),
        pid: None,
        sink_index: 0,
        volume: Volume::from_units(500000),
        muted: false,
        channels: 2,
    }
}

fn make_config_with_target(analog_id: u8, target: AudioTarget) -> Config {
    let mut config = Config::default();
    let control_id = ControlId::from_analog_id(analog_id).unwrap();
    config.set_control(
        control_id,
        ControlConfig {
            dial: Some(DialAction::Volume { target }),
            button: None,
        },
    );
    config
}

fn firefox_matcher() -> AppMatcher {
    AppMatcher {
        binary: Some("firefox".into()),
        ..Default::default()
    }
}

fn engine_with(config: Config) -> EngineState {
    EngineState::new(config, CurveTable::linear())
}

#[test]
fn linear_curve_has_exact_endpoints_and_is_monotonic() {
    let curve = CurveTable::linear();
    assert_eq!(curve.volume_for(0).get_units(), 0);
    assert_eq!(curve.volume_for(255).get_units(), VOLUME_SCALE);
    let mut prev = 0;
    for hw in 0..=255u8 {
        let v = curve.volume_for(hw).get_units();
        assert!(v >= prev, "curve must be non-decreasing at {hw}");
        assert!(v <= VOLUME_SCALE);
        prev = v;
    }
}

#[test]
fn curve_table_sanitizes_raw_entries() {
    // Over-scale entries are clamped; short tables are padded with full
    // volume.
    let raw = vec![0u32, 2 * VOLUME_SCALE, 123];
    let curve = CurveTable::from_units(&raw);
    assert_eq!(curve.volume_for(0).get_units(), 0);
    assert_eq!(curve.volume_for(1).get_units(), VOLUME_SCALE);
    assert_eq!(curve.volume_for(2).get_units(), 123);
    assert_eq!(curve.volume_for(3).get_units(), VOLUME_SCALE);
    assert_eq!(curve.volume_for(255).get_units(), VOLUME_SCALE);
}

#[test]
fn volume_from_units_clamps() {
    assert_eq!(Volume::from_units(0).get_units(), 0);
    assert_eq!(Volume::from_units(500000).get_units(), 500000);
    assert_eq!(Volume::from_units(VOLUME_SCALE + 1).get_units(), VOLUME_SCALE);
    assert_eq!(Volume::zero().get_units(), 0);
    assert_eq!(Volume::max().get_units(), VOLUME_SCALE);
}

#[test]
fn position_change_produces_stream_volume_command() {
    // A knob mapped to an application target, with a matching stream live:
    // one accepted position yields exactly one volume command for that
    // stream's index, at the curve's value for the accepted sample.
    let config = make_config_with_target(0, AudioTarget::App { matcher: firefox_matcher() });
    let mut engine = engine_with(config);

    let snapshot = AudioState {
        sink_inputs: vec![make_sink_input(42, "Firefox", Some("firefox"), None)],
        ..AudioState::default()
    };
    let cmds = engine.handle_audio_snapshot(snapshot);
    assert!(cmds.is_empty(), "no volume was recorded yet, nothing to re-apply");

    let mut positions = vec![0u8; 9];
    positions[0] = 128;
    let cmds = engine.handle_positions(positions, 0);
    let expected_units = 128 * VOLUME_SCALE as u64 / 255;
    assert_eq!(
        cmds,
        vec![AudioCommand::SinkInputVolume {
            index: 42,
            volume: Volume::from_units(expected_units as u32),
            channels: 2,
        }]
    );
}

#[test]
fn position_change_without_mapping_is_silent() {
    let mut engine = engine_with(Config::default());
    let mut positions = vec![0u8; 9];
    positions[3] = 200;
    let cmds = engine.handle_positions(positions, 0);
    assert!(cmds.is_empty());
}

#[test]
fn reapply_sends_volume_for_matching_app() {
    // A control mapped to an application target with a previously recorded
    // volume: a stream of that application appearing in a fresh snapshot
    // gets a volume command for exactly its index at the recorded volume.
    let config = make_config_with_target(0, AudioTarget::App { matcher: firefox_matcher() });
    let mut engine = engine_with(config);
    engine.last_applied_volumes[0] = Some(Volume::from_units(300000));

    let snapshot = AudioState {
        sink_inputs: vec![make_sink_input(42, "Firefox", Some("firefox"), None)],
        ..AudioState::default()
    };
    let cmds = engine.handle_audio_snapshot(snapshot);
    assert_eq!(
        cmds,
        vec![AudioCommand::SinkInputVolume {
            index: 42,
            volume: Volume::from_units(300000),
            channels: 2,
        }]
    );
}

#[test]
fn reapply_skips_non_matching_app() {
    let config = make_config_with_target(0, AudioTarget::App { matcher: firefox_matcher() });
    let mut engine = engine_with(config);
    engine.last_applied_volumes[0] = Some(Volume::from_units(300000));

    let snapshot = AudioState {
        sink_inputs: vec![make_sink_input(42, "Chrome", Some("chrome"), None)],
        ..AudioState::default()
    };
    let cmds = engine.handle_audio_snapshot(snapshot);
    assert!(cmds.is_empty());
}

#[test]
fn reapply_skips_streams_already_known() {
    let config = make_config_with_target(0, AudioTarget::App { matcher: firefox_matcher() });
    let mut engine = engine_with(config);
    engine.last_applied_volumes[0] = Some(Volume::from_units(300000));

    let snapshot = AudioState {
        sink_inputs: vec![make_sink_input(42, "Firefox", Some("firefox"), None)],
        ..AudioState::default()
    };
    // First snapshot: stream 42 is new.
    assert_eq!(engine.handle_audio_snapshot(snapshot.clone()).len(), 1);
    // Second identical snapshot: stream 42 is not new any more.
    assert!(engine.handle_audio_snapshot(snapshot).is_empty());
}

#[test]
fn reapply_skips_device_level_targets() {
    let config = make_config_with_target(0, AudioTarget::DefaultOutput);
    let mut engine = engine_with(config);
    engine.last_applied_volumes[0] = Some(Volume::from_units(300000));

    let snapshot = AudioState {
        sink_inputs: vec![make_sink_input(42, "Firefox", Some("firefox"), None)],
        ..AudioState::default()
    };
    let cmds = engine.handle_audio_snapshot(snapshot);
    assert!(cmds.is_empty(), "device-level targets never re-apply to streams");
}

#[test]
fn reload_clears_cached_volumes() {
    // Reloading configuration (here: after changing a control's target)
    // must clear every cached volume, so a stale value is never applied to
    // an unrelated stream.
    let config = make_config_with_target(0, AudioTarget::App { matcher: firefox_matcher() });
    let mut engine = engine_with(config);
    engine.last_applied_volumes[0] = Some(Volume::from_units(300000));

    let new_config = make_config_with_target(
        0,
        AudioTarget::App {
            matcher: AppMatcher {
                binary: Some("chrome".into()),
                ..Default::default()
            },
        },
    );
    let raw_curve: Vec<u32> = CurveTable::linear().units;
    let (resp, led_cmds) = engine.finish_ipc_reload(Ok((new_config, raw_curve)));
    assert_eq!(resp, IpcResponse::Okay);
    assert_eq!(led_cmds.len(), 4);
    assert!(engine.last_applied_volumes.iter().all(|v| v.is_none()));

    // A firefox stream appearing now must not receive the stale volume.
    let snapshot = AudioState {
        sink_inputs: vec![make_sink_input(7, "Firefox", Some("firefox"), None)],
        ..AudioState::default()
    };
    assert!(engine.handle_audio_snapshot(snapshot).is_empty());
}

#[test]
fn failed_reload_keeps_previous_configuration() {
    let config = make_config_with_target(0, AudioTarget::App { matcher: firefox_matcher() });
    let mut engine = engine_with(config.clone());
    let (resp, led_cmds) = engine.finish_ipc_reload(Err("parse failure".to_string()));
    assert_eq!(
        resp,
        IpcResponse::Error {
            message: "parse failure".to_string()
        }
    );
    assert!(led_cmds.is_empty());
    assert_eq!(engine.config, config);
}

#[test]
fn assign_then_save_clears_cache_and_replies_ok() {
    let mut engine = engine_with(Config::default());
    engine.last_applied_volumes[2] = Some(Volume::from_units(100000));

    let outcome = engine.handle_ipc_request(IpcRequest::AssignDial {
        control: ControlId::Knob(0),
        action: DialAction::Volume {
            target: AudioTarget::DefaultOutput,
        },
    });
    assert!(matches!(outcome, IpcOutcome::NeedsSave));
    // The save succeeded: reply is positive and the volume cache is gone.
    let resp = engine.finish_config_mutation(None);
    assert_eq!(resp, IpcResponse::Okay);
    assert!(engine.last_applied_volumes.iter().all(|v| v.is_none()));
    let cc = engine.config.get_control(ControlId::Knob(0)).unwrap();
    assert_eq!(
        cc.dial,
        Some(DialAction::Volume {
            target: AudioTarget::DefaultOutput
        })
    );
}

#[test]
fn failed_save_reports_error_and_keeps_cache() {
    let mut engine = engine_with(Config::default());
    engine.last_applied_volumes[2] = Some(Volume::from_units(100000));

    let outcome = engine.handle_ipc_request(IpcRequest::Unassign {
        control: ControlId::Slider(1),
    });
    assert!(matches!(outcome, IpcOutcome::NeedsSave));
    let resp = engine.finish_config_mutation(Some("disk full".to_string()));
    assert_eq!(
        resp,
        IpcResponse::Error {
            message: "disk full".to_string()
        }
    );
    assert_eq!(engine.last_applied_volumes[2], Some(Volume::from_units(100000)));
}

#[test]
fn status_reports_connectivity_and_mappings() {
    let mut config = Config::default();
    config.set_control(
        ControlId::Knob(0),
        ControlConfig {
            dial: Some(DialAction::Volume {
                target: AudioTarget::DefaultOutput,
            }),
            button: Some(ButtonAction::Mute {
                target: AudioTarget::DefaultOutput,
            }),
        },
    );
    let mut engine = engine_with(config);
    engine.handle_audio_connected(true);

    match engine.handle_ipc_request(IpcRequest::GetStatus) {
        IpcOutcome::Reply(IpcResponse::Status {
            device,
            pulse_connected,
            mappings,
        }) => {
            assert!(!device.connected);
            assert!(pulse_connected);
            assert_eq!(mappings.len(), 1);
            assert_eq!(mappings[0].control, "knob1");
            assert_eq!(mappings[0].dial.as_deref(), Some("volume default-output"));
            assert_eq!(mappings[0].button.as_deref(), Some("mute default-output"));
        }
        other => panic!("expected a status reply, got {other:?}"),
    }
}

#[test]
fn button_press_resolves_mute_media_and_exec() {
    let mut config = Config::default();
    config.set_control(
        ControlId::Knob(0),
        ControlConfig {
            dial: None,
            button: Some(ButtonAction::Mute {
                target: AudioTarget::DefaultOutput,
            }),
        },
    );
    config.set_control(
        ControlId::Knob(1),
        ControlConfig {
            dial: None,
            button: Some(ButtonAction::Media {
                command: MediaCommand::PlayPause,
            }),
        },
    );
    config.set_control(
        ControlId::Knob(2),
        ControlConfig {
            dial: None,
            button: Some(ButtonAction::Exec {
                command: "true".into(),
            }),
        },
    );
    let mut engine = engine_with(config);
    engine.audio_state = AudioState {
        default_sink_name: Some("spk".into()),
        sinks: vec![SinkInfo {
            index: 3,
            name: "spk".into(),
            description: "Speakers".into(),
            volume: Volume::max(),
            muted: false,
            channels: 2,
        }],
        ..AudioState::default()
    };

    match engine.handle_button_press(0) {
        ButtonOutcome::Audio(cmds) => {
            assert_eq!(cmds, vec![AudioCommand::SinkMute { index: 3, mute: true }]);
        }
        other => panic!("expected mute commands, got {other:?}"),
    }
    assert_eq!(
        engine.handle_button_press(1),
        ButtonOutcome::Media(MediaCommand::PlayPause)
    );
    assert_eq!(engine.handle_button_press(2), ButtonOutcome::Exec("true".into()));
    assert_eq!(engine.handle_button_press(3), ButtonOutcome::Nothing);
    assert_eq!(engine.handle_button_press(9), ButtonOutcome::Nothing);
}

#[test]
fn focused_target_volume_goes_to_focused_streams() {
    let config = make_config_with_target(8, AudioTarget::FocusedApp);
    let mut engine = engine_with(config);
    engine.audio_state = AudioState {
        sink_inputs: vec![
            make_sink_input(10, "Firefox", Some("firefox"), None),
            make_sink_input(11, "Spotify", Some("spotify"), None),
        ],
        ..AudioState::default()
    };
    engine.handle_focused_window(Some(pcpaneld::focus::FocusedWindowInfo {
        desktop_file: None,
        resource_name: Some("firefox".into()),
        resource_class: None,
        pid: None,
    }));

    let mut positions = vec![0u8; 9];
    positions[8] = 255;
    let cmds = engine.handle_positions(positions, 0);
    assert_eq!(
        cmds,
        vec![AudioCommand::SinkInputVolume {
            index: 10,
            volume: Volume::max(),
            channels: 2,
        }]
    );
}

#[test]
fn device_reconnect_resets_pipelines_and_restores_leds() {
    let mut engine = engine_with(Config::default());
    let cmds = engine.handle_device_connected(false);
    assert!(cmds.is_empty());
    assert!(!engine.device_connected);

    let cmds = engine.handle_device_connected(true);
    assert!(engine.device_connected);
    assert_eq!(cmds.len(), 4);
    match &cmds[0] {
        HidCommand::SetKnobLeds(slots) => {
            assert!(slots.iter().all(|s| s.mode == LedMode::Static && s.r1 == 255));
        }
        other => panic!("expected knob LEDs first, got {other:?}"),
    }
    match &cmds[3] {
        HidCommand::SetLogo { mode, r, .. } => {
            assert_eq!(*mode, LogoMode::Static);
            assert_eq!(*r, 255);
        }
        other => panic!("expected the logo command last, got {other:?}"),
    }
}

#[test]
fn disconnect_from_audio_clears_snapshot() {
    let mut engine = engine_with(Config::default());
    engine.audio_state = AudioState {
        sink_inputs: vec![make_sink_input(1, "Firefox", Some("firefox"), None)],
        ..AudioState::default()
    };
    engine.handle_audio_connected(false);
    assert!(!engine.pulse_connected);
    assert!(engine.audio_state.sink_inputs.is_empty());
}

#[test]
fn list_requests_echo_the_snapshot() {
    let mut engine = engine_with(Config::default());
    engine.audio_state = AudioState {
        sink_inputs: vec![make_sink_input(5, "Firefox", Some("firefox"), None)],
        ..AudioState::default()
    };
    match engine.handle_ipc_request(IpcRequest::ListApps) {
        IpcOutcome::Reply(IpcResponse::Apps { apps }) => {
            assert_eq!(apps.len(), 1);
            assert_eq!(apps[0].index, 5);
        }
        other => panic!("expected an apps reply, got {other:?}"),
    }
    assert!(matches!(
        engine.handle_ipc_request(IpcRequest::GetConfig),
        IpcOutcome::NeedsConfigText
    ));
    assert!(matches!(
        engine.handle_ipc_request(IpcRequest::ReloadConfig),
        IpcOutcome::NeedsReload
    ));
    assert!(matches!(
        engine.handle_ipc_request(IpcRequest::Shutdown),
        IpcOutcome::ShutdownRequested
    ));
}

#[test]
fn out_of_range_control_in_request_is_an_error() {
    let mut engine = engine_with(Config::default());
    match engine.handle_ipc_request(IpcRequest::Unassign {
        control: ControlId::Knob(9),
    }) {
        IpcOutcome::Reply(IpcResponse::Error { message }) => {
            assert_eq!(message, "unknown control");
        }
        other => panic!("expected an error reply, got {other:?}"),
    }
}
