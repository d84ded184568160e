//! The configuration model: device binding, signal-conditioning parameters,
//! LED zone switches and one optional action set per physical control.
//! Loading, saving and the on-disk syntax live outside the engine; the model
//! here is what every engine decision reads.

use vstd::prelude::*;

verus! {

use crate::control::{ControlConfig, ControlId, NUM_ANALOG};

/// Default slider rolling-average window.
pub fn default_slider_rolling_average() -> (r: usize)
    ensures
        r == 5,
{
    5
}

/// Default slider delta threshold.
pub fn default_slider_delta_threshold() -> (r: u8)
    ensures
        r == 2,
{
    2
}

/// Default slider debounce interval in milliseconds.
pub fn default_slider_debounce_ms() -> (r: u64)
    ensures
        r == 10,
{
    10
}

/// Default knob rolling-average window.
pub fn default_knob_rolling_average() -> (r: usize)
    ensures
        r == 3,
{
    3
}

/// Default knob delta threshold.
pub fn default_knob_delta_threshold() -> (r: u8)
    ensures
        r == 1,
{
    1
}

/// Default knob debounce interval in milliseconds.
pub fn default_knob_debounce_ms() -> (r: u64)
    ensures
        r == 0,
{
    0
}

/// The default for the LED zone switches.
pub fn default_true() -> (r: bool)
    ensures
        r,
{
    true
}

/// Device-specific configuration.
#[derive(Debug, Clone, PartialEq, Eq)]
pub struct DeviceConfig {
    /// Optional serial number to lock to a specific device.
    pub serial: Option<String>,
}

impl Default for DeviceConfig {
    /// No serial lock.
    fn default() -> (r: Self)
        ensures
            r.serial is None,
    {
        DeviceConfig { serial: None }
    }
}

/// The volume-curve exponent, in millionths (1000000 means the linear 1.0).
/// Exponents below [`MIN_EXPONENT_MICRO`] are clamped up to it.
pub const MIN_EXPONENT_MICRO: u64 = 10000;

/// Default volume-curve exponent in millionths (linear).
pub const DEFAULT_EXPONENT_MICRO: u64 = 1000000;

/// Signal-conditioning parameters.
#[derive(Debug, Clone, PartialEq, Eq, Structural)]
pub struct SignalConfig {
    pub slider_rolling_average: usize,
    pub slider_delta_threshold: u8,
    pub slider_debounce_ms: u64,
    pub knob_rolling_average: usize,
    pub knob_delta_threshold: u8,
    pub knob_debounce_ms: u64,
    /// Volume-curve exponent in millionths of 1.0.
    pub volume_exponent_micro: u64,
}

impl SignalConfig {
    /// The exponent actually used: never below the floor that keeps the
    /// curve's inverse well-behaved.
    pub open spec fn effective_exponent_spec(self) -> u64 {
        if self.volume_exponent_micro < MIN_EXPONENT_MICRO {
            MIN_EXPONENT_MICRO
        } else {
            self.volume_exponent_micro
        }
    }

    /// The exponent actually used, clamped to the floor.
    pub fn effective_exponent_micro(&self) -> (r: u64)
        ensures
            r == self.effective_exponent_spec(),
            r >= MIN_EXPONENT_MICRO,
    {
        if self.volume_exponent_micro < MIN_EXPONENT_MICRO {
            MIN_EXPONENT_MICRO
        } else {
            self.volume_exponent_micro
        }
    }
}

impl Default for SignalConfig {
    /// The documented defaults: window 5/3, threshold 2/1, debounce 10/0 ms
    /// for sliders/knobs, and the linear curve.
    fn default() -> (r: Self)
        ensures
            r == (SignalConfig {
                slider_rolling_average: 5,
                slider_delta_threshold: 2,
                slider_debounce_ms: 10,
                knob_rolling_average: 3,
                knob_delta_threshold: 1,
                knob_debounce_ms: 0,
                volume_exponent_micro: DEFAULT_EXPONENT_MICRO,
            }),
    {
        SignalConfig {
            slider_rolling_average: default_slider_rolling_average(),
            slider_delta_threshold: default_slider_delta_threshold(),
            slider_debounce_ms: default_slider_debounce_ms(),
            knob_rolling_average: default_knob_rolling_average(),
            knob_delta_threshold: default_knob_delta_threshold(),
            knob_debounce_ms: default_knob_debounce_ms(),
            volume_exponent_micro: DEFAULT_EXPONENT_MICRO,
        }
    }
}

/// LED zone switches: disabled zones are sent all-off commands.
#[derive(Debug, Clone, Copy, PartialEq, Eq, Structural)]
pub struct LedConfig {
    pub knobs: bool,
    pub sliders: bool,
    pub slider_labels: bool,
    pub logo: bool,
}

impl Default for LedConfig {
    /// All zones enabled.
    fn default() -> (r: Self)
        ensures
            r == (LedConfig { knobs: true, sliders: true, slider_labels: true, logo: true }),
    {
        LedConfig { knobs: true, sliders: true, slider_labels: true, logo: true }
    }
}

/// Top-level configuration. Control assignments are held as one optional
/// entry per analog control, indexed by the control's analog index.
#[derive(Debug, Clone, PartialEq, Eq)]
pub struct Config {
    pub device: DeviceConfig,
    pub signal: SignalConfig,
    pub leds: LedConfig,
    pub controls: Vec<Option<ControlConfig>>,
}

impl Config {
    /// One (possibly empty) slot per analog control.
    pub open spec fn wf(self) -> bool {
        self.controls@.len() == NUM_ANALOG
    }

    /// The configured actions of a control, in spec form.
    pub open spec fn control_spec(self, id: ControlId) -> Option<ControlConfig> {
        self.controls@[id.analog_id() as int]
    }

    /// The empty configuration: defaults everywhere, nothing assigned.
    pub fn empty() -> (r: Self)
        ensures
            r.wf(),
            r.device.serial is None,
            r.signal == (SignalConfig {
                slider_rolling_average: 5usize,
                slider_delta_threshold: 2u8,
                slider_debounce_ms: 10u64,
                knob_rolling_average: 3usize,
                knob_delta_threshold: 1u8,
                knob_debounce_ms: 0u64,
                volume_exponent_micro: DEFAULT_EXPONENT_MICRO,
            }),
            r.leds == (LedConfig { knobs: true, sliders: true, slider_labels: true, logo: true }),
            forall|i: int| 0 <= i < NUM_ANALOG ==> #[trigger] r.controls@[i] is None,
    {
        let mut controls: Vec<Option<ControlConfig>> = Vec::new();
        let mut i: usize = 0;
        while i < NUM_ANALOG as usize
            invariant
                i <= NUM_ANALOG,
                controls@.len() == i,
                forall|k: int| 0 <= k < i ==> #[trigger] controls@[k] is None,
            decreases NUM_ANALOG - i,
        {
            controls.push(None);
            i = i + 1;
        }
        Config {
            device: DeviceConfig::default(),
            signal: SignalConfig::default(),
            leds: LedConfig::default(),
            controls,
        }
    }

    /// The configuration of a specific control, if any.
    pub fn get_control(&self, id: ControlId) -> (r: Option<&ControlConfig>)
        requires
            self.wf(),
            id.wf(),
        ensures
            match r {
                Some(c) => self.control_spec(id) == Some(*c),
                None => self.control_spec(id) is None,
            },
    {
        let idx = id.to_analog_id() as usize;
        self.controls[idx].as_ref()
    }

    /// Set the configuration of a specific control.
    pub fn set_control(&mut self, id: ControlId, config: ControlConfig)
        requires
            old(self).wf(),
            id.wf(),
        ensures
            final(self).wf(),
            final(self).control_spec(id) == Some(config),
            final(self).device == old(self).device,
            final(self).signal == old(self).signal,
            final(self).leds == old(self).leds,
            forall|i: int| 0 <= i < NUM_ANALOG && i != id.analog_id()
                ==> #[trigger] final(self).controls@[i] == old(self).controls@[i],
    {
        let idx = id.to_analog_id() as usize;
        self.controls.set(idx, Some(config));
    }

    /// Remove the configuration of a specific control, returning it.
    pub fn remove_control(&mut self, id: ControlId) -> (r: Option<ControlConfig>)
        requires
            old(self).wf(),
            id.wf(),
        ensures
            final(self).wf(),
            r == old(self).control_spec(id),
            final(self).control_spec(id) is None,
            final(self).device == old(self).device,
            final(self).signal == old(self).signal,
            final(self).leds == old(self).leds,
            forall|i: int| 0 <= i < NUM_ANALOG && i != id.analog_id()
                ==> #[trigger] final(self).controls@[i] == old(self).controls@[i],
    {
        let idx = id.to_analog_id() as usize;
        let prev = self.controls.remove(idx);
        self.controls.insert(idx, None);
        proof {
            assert(final(self).controls@ =~= old(self).controls@.update(idx as int, None));
        }
        prev
    }
}

impl Default for Config {
    /// Same as [`Config::empty`].
    fn default() -> (r: Self)
        ensures
            r.wf(),
            r.device.serial is None,
            forall|i: int| 0 <= i < NUM_ANALOG ==> #[trigger] r.controls@[i] is None,
    {
        Config::empty()
    }
}

} // verus!
