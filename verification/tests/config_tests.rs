use pcpaneld::config::{Config, LedConfig, DEFAULT_EXPONENT_MICRO, MIN_EXPONENT_MICRO};
use pcpaneld::control::{AudioTarget, ControlConfig, ControlId, DialAction};

#[test]
fn led_config_default_is_all_enabled() {
    let config = LedConfig::default();
    assert!(config.knobs);
    assert!(config.sliders);
    assert!(config.slider_labels);
    assert!(config.logo);
}

#[test]
fn default_config_is_valid() {
    let config = Config::default();
    assert_eq!(config.signal.volume_exponent_micro, DEFAULT_EXPONENT_MICRO);
    assert_eq!(config.signal.slider_rolling_average, 5);
    assert!(config.controls.iter().all(|c| c.is_none()));
}

#[test]
fn set_and_remove_control() {
    let mut config = Config::default();
    let id = ControlId::Knob(2);
    assert!(config.get_control(id).is_none());

    config.set_control(
        id,
        ControlConfig {
            dial: Some(DialAction::Volume {
                target: AudioTarget::DefaultOutput,
            }),
            button: None,
        },
    );
    assert!(config.get_control(id).is_some());

    let removed = config.remove_control(id);
    assert!(removed.is_some());
    assert!(config.get_control(id).is_none());
}

#[test]
fn exponent_clamped_to_floor() {
    let mut config = Config::default();
    config.signal.volume_exponent_micro = 0;
    assert_eq!(config.signal.effective_exponent_micro(), MIN_EXPONENT_MICRO);
    config.signal.volume_exponent_micro = 3_000_000;
    assert_eq!(config.signal.effective_exponent_micro(), 3_000_000);
}
