//! The orchestrating engine: owns all mutable domain state and decides, for
//! every event (position change, button press, audio snapshot, local-control
//! request, reload, connectivity or focus change), how the state changes and
//! which commands go out. The surrounding runtime performs the I/O those
//! decisions call for and feeds the results back in.

use vstd::prelude::*;

verus! {

use crate::audio::{
    AudioState, CurveTable, DeviceInfo, DeviceType, SinkInfo, SinkInputInfo, SourceInfo, Volume,
};
use crate::config::{Config, LedConfig, SignalConfig};
use crate::control::{
    button_description_spec, config_key_spec, dial_description_spec, AppMatcher, AppProperties,
    AudioTarget, ButtonAction, ControlConfig, ControlId, DialAction, MediaCommand, NUM_ANALOG,
    NUM_KNOBS,
};
use crate::focus::{
    find_focused_sink_inputs, focused_filter, matches_focused_spec, sink_input_matches_focused,
    FocusedWindowInfo,
};
use crate::hid::{HidCommand, LedMode, LedSlot, LogoMode};
use crate::ipc::{DeviceStatus, IpcRequest, IpcResponse, MappingInfo};
use crate::signal::{process_step, PipelineModel, SignalPipeline};
use crate::text::str_eq;

/// A button event from the device layer.
#[derive(Debug, Clone, Copy, PartialEq, Eq, Structural)]
pub struct ButtonEvent {
    pub button_id: u8,
    pub pressed: bool,
}

/// A device hotplug event.
#[derive(Debug, Clone, Copy, PartialEq, Eq, Structural)]
pub enum DeviceEvent {
    Added,
    Removed,
}

/// Actions from the system tray.
#[derive(Debug, Clone, Copy, PartialEq, Eq, Structural)]
pub enum TrayAction {
    Quit,
}

/// Commands for the audio collaborator, by numeric device/stream index.
#[derive(Debug, Clone, Copy, PartialEq, Eq, Structural)]
pub enum AudioCommand {
    SinkVolume { index: u32, volume: Volume, channels: u8 },
    SinkMute { index: u32, mute: bool },
    SourceVolume { index: u32, volume: Volume, channels: u8 },
    SourceMute { index: u32, mute: bool },
    SinkInputVolume { index: u32, volume: Volume, channels: u8 },
    SinkInputMute { index: u32, mute: bool },
}

/// The matching properties of a stream: binary, display name, sandboxed id.
pub open spec fn props_of(si: SinkInputInfo) -> AppProperties {
    AppProperties { binary: si.binary, name: Some(si.name), flatpak_id: si.flatpak_id }
}

impl AppProperties {
    /// The matching properties of a stream record.
    pub fn from_sink_input(si: &SinkInputInfo) -> (r: Self)
        ensures
            r == props_of(*si),
    {
        AppProperties {
            binary: crate::audio::clone_opt_string(&si.binary),
            name: Some(si.name.clone()),
            flatpak_id: crate::audio::clone_opt_string(&si.flatpak_id),
        }
    }
}

/// The first output device bearing a name.
pub open spec fn first_sink_named(sinks: Seq<SinkInfo>, name: Seq<char>) -> Option<SinkInfo>
    decreases sinks.len(),
{
    if sinks.len() == 0 {
        None
    } else if sinks[0].name@ == name {
        Some(sinks[0])
    } else {
        first_sink_named(sinks.drop_first(), name)
    }
}

/// The first input device bearing a name.
pub open spec fn first_source_named(sources: Seq<SourceInfo>, name: Seq<char>) -> Option<
    SourceInfo,
>
    decreases sources.len(),
{
    if sources.len() == 0 {
        None
    } else if sources[0].name@ == name {
        Some(sources[0])
    } else {
        first_source_named(sources.drop_first(), name)
    }
}

/// The output device the state records as default, if present.
pub open spec fn default_sink_spec(s: AudioState) -> Option<SinkInfo> {
    match s.default_sink_name {
        Some(n) => first_sink_named(s.sinks@, n@),
        None => None,
    }
}

/// The input device the state records as default, if present.
pub open spec fn default_source_spec(s: AudioState) -> Option<SourceInfo> {
    match s.default_source_name {
        Some(n) => first_source_named(s.sources@, n@),
        None => None,
    }
}

/// Find the recorded default output device.
pub fn find_default_sink(state: &AudioState) -> (r: Option<SinkInfo>)
    ensures
        r == default_sink_spec(*state),
{
    let name = match &state.default_sink_name {
        Some(n) => n,
        None => {
            return None;
        },
    };
    let n = state.sinks.len();
    let mut i: usize = 0;
    proof {
        assert(state.sinks@.skip(0) =~= state.sinks@);
    }
    while i < n
        invariant
            n == state.sinks@.len(),
            i <= n,
            state.default_sink_name == Some(*name),
            first_sink_named(state.sinks@, name@) == first_sink_named(
                state.sinks@.skip(i as int),
                name@,
            ),
        decreases n - i,
    {
        proof {
            assert(state.sinks@.skip(i as int)[0] == state.sinks@[i as int]);
            assert(state.sinks@.skip(i as int).drop_first() =~= state.sinks@.skip(i + 1));
        }
        if str_eq(state.sinks[i].name.as_str(), name.as_str()) {
            return Some(state.sinks[i].clone_info());
        }
        i = i + 1;
    }
    proof {
        assert(state.sinks@.skip(n as int) =~= Seq::<SinkInfo>::empty());
    }
    None
}

/// Find the recorded default input device.
pub fn find_default_source(state: &AudioState) -> (r: Option<SourceInfo>)
    ensures
        r == default_source_spec(*state),
{
    let name = match &state.default_source_name {
        Some(n) => n,
        None => {
            return None;
        },
    };
    let n = state.sources.len();
    let mut i: usize = 0;
    proof {
        assert(state.sources@.skip(0) =~= state.sources@);
    }
    while i < n
        invariant
            n == state.sources@.len(),
            i <= n,
            state.default_source_name == Some(*name),
            first_source_named(state.sources@, name@) == first_source_named(
                state.sources@.skip(i as int),
                name@,
            ),
        decreases n - i,
    {
        proof {
            assert(state.sources@.skip(i as int)[0] == state.sources@[i as int]);
            assert(state.sources@.skip(i as int).drop_first() =~= state.sources@.skip(i + 1));
        }
        if str_eq(state.sources[i].name.as_str(), name.as_str()) {
            return Some(state.sources[i].clone_info());
        }
        i = i + 1;
    }
    proof {
        assert(state.sources@.skip(n as int) =~= Seq::<SourceInfo>::empty());
    }
    None
}

/// The streams a matcher selects, in order.
pub open spec fn app_filter(m: AppMatcher, inputs: Seq<SinkInputInfo>) -> Seq<SinkInputInfo>
    decreases inputs.len(),
{
    if inputs.len() == 0 {
        Seq::empty()
    } else if crate::control::matches_spec(m, props_of(inputs[0])) {
        seq![inputs[0]] + app_filter(m, inputs.drop_first())
    } else {
        app_filter(m, inputs.drop_first())
    }
}

/// The streams that match the focused window, in order (no de-duplication).
pub open spec fn focused_match_filter(f: FocusedWindowInfo, inputs: Seq<SinkInputInfo>) -> Seq<
    SinkInputInfo,
>
    decreases inputs.len(),
{
    if inputs.len() == 0 {
        Seq::empty()
    } else if matches_focused_spec(inputs[0], f) {
        seq![inputs[0]] + focused_match_filter(f, inputs.drop_first())
    } else {
        focused_match_filter(f, inputs.drop_first())
    }
}

/// One volume command per stream, at the same volume.
pub open spec fn vol_cmds_for_inputs(inputs: Seq<SinkInputInfo>, vol: Volume) -> Seq<AudioCommand>
    decreases inputs.len(),
{
    if inputs.len() == 0 {
        Seq::empty()
    } else {
        seq![
            AudioCommand::SinkInputVolume {
                index: inputs[0].index,
                volume: vol,
                channels: inputs[0].channels,
            },
        ] + vol_cmds_for_inputs(inputs.drop_first(), vol)
    }
}

/// One mute-toggle command per stream.
pub open spec fn mute_cmds_for_inputs(inputs: Seq<SinkInputInfo>) -> Seq<AudioCommand>
    decreases inputs.len(),
{
    if inputs.len() == 0 {
        Seq::empty()
    } else {
        seq![AudioCommand::SinkInputMute { index: inputs[0].index, mute: !inputs[0].muted }]
            + mute_cmds_for_inputs(inputs.drop_first())
    }
}

/// The volume commands a target resolves to: one per resolved device or
/// stream, none when nothing resolves (a silent no-op, not an error).
pub open spec fn volume_commands_spec(
    target: AudioTarget,
    vol: Volume,
    astate: AudioState,
    focused: Option<FocusedWindowInfo>,
) -> Seq<AudioCommand> {
    match target {
        AudioTarget::DefaultOutput => match default_sink_spec(astate) {
            Some(s) => seq![
                AudioCommand::SinkVolume { index: s.index, volume: vol, channels: s.channels },
            ],
            None => Seq::empty(),
        },
        AudioTarget::DefaultInput => match default_source_spec(astate) {
            Some(s) => seq![
                AudioCommand::SourceVolume { index: s.index, volume: vol, channels: s.channels },
            ],
            None => Seq::empty(),
        },
        AudioTarget::App { matcher } => vol_cmds_for_inputs(
            app_filter(matcher, astate.sink_inputs@),
            vol,
        ),
        AudioTarget::FocusedApp => match focused {
            Some(f) => vol_cmds_for_inputs(
                focused_filter(f, astate.sink_inputs@, Set::empty()),
                vol,
            ),
            None => Seq::empty(),
        },
    }
}

/// The mute-toggle commands a target resolves to.
pub open spec fn mute_commands_spec(
    target: AudioTarget,
    astate: AudioState,
    focused: Option<FocusedWindowInfo>,
) -> Seq<AudioCommand> {
    match target {
        AudioTarget::DefaultOutput => match default_sink_spec(astate) {
            Some(s) => seq![AudioCommand::SinkMute { index: s.index, mute: !s.muted }],
            None => Seq::empty(),
        },
        AudioTarget::DefaultInput => match default_source_spec(astate) {
            Some(s) => seq![AudioCommand::SourceMute { index: s.index, mute: !s.muted }],
            None => Seq::empty(),
        },
        AudioTarget::App { matcher } => mute_cmds_for_inputs(
            app_filter(matcher, astate.sink_inputs@),
        ),
        AudioTarget::FocusedApp => match focused {
            Some(f) => mute_cmds_for_inputs(focused_filter(f, astate.sink_inputs@, Set::empty())),
            None => Seq::empty(),
        },
    }
}

/// The streams a matcher selects.
fn app_filter_exec(m: &AppMatcher, inputs: &Vec<SinkInputInfo>) -> (r: Vec<SinkInputInfo>)
    ensures
        r@ == app_filter(*m, inputs@),
{
    let mut out: Vec<SinkInputInfo> = Vec::new();
    let n = inputs.len();
    let mut i: usize = 0;
    proof {
        assert(inputs@.skip(0) =~= inputs@);
    }
    while i < n
        invariant
            n == inputs@.len(),
            i <= n,
            app_filter(*m, inputs@) =~= out@ + app_filter(*m, inputs@.skip(i as int)),
        decreases n - i,
    {
        proof {
            assert(inputs@.skip(i as int)[0] == inputs@[i as int]);
            assert(inputs@.skip(i as int).drop_first() =~= inputs@.skip(i + 1));
        }
        let props = AppProperties::from_sink_input(&inputs[i]);
        if m.matches(&props) {
            out.push(inputs[i].clone_info());
        }
        i = i + 1;
    }
    proof {
        assert(inputs@.skip(n as int) =~= Seq::<SinkInputInfo>::empty());
    }
    out
}

/// One volume command per stream.
fn vol_cmds_for_inputs_exec(inputs: &Vec<SinkInputInfo>, vol: Volume) -> (r: Vec<AudioCommand>)
    ensures
        r@ == vol_cmds_for_inputs(inputs@, vol),
{
    let mut out: Vec<AudioCommand> = Vec::new();
    let n = inputs.len();
    let mut i: usize = 0;
    proof {
        assert(inputs@.skip(0) =~= inputs@);
    }
    while i < n
        invariant
            n == inputs@.len(),
            i <= n,
            vol_cmds_for_inputs(inputs@, vol) =~= out@ + vol_cmds_for_inputs(
                inputs@.skip(i as int),
                vol,
            ),
        decreases n - i,
    {
        proof {
            assert(inputs@.skip(i as int)[0] == inputs@[i as int]);
            assert(inputs@.skip(i as int).drop_first() =~= inputs@.skip(i + 1));
        }
        out.push(
            AudioCommand::SinkInputVolume {
                index: inputs[i].index,
                volume: vol,
                channels: inputs[i].channels,
            },
        );
        i = i + 1;
    }
    proof {
        assert(inputs@.skip(n as int) =~= Seq::<SinkInputInfo>::empty());
    }
    out
}

/// One mute-toggle command per stream.
fn mute_cmds_for_inputs_exec(inputs: &Vec<SinkInputInfo>) -> (r: Vec<AudioCommand>)
    ensures
        r@ == mute_cmds_for_inputs(inputs@),
{
    let mut out: Vec<AudioCommand> = Vec::new();
    let n = inputs.len();
    let mut i: usize = 0;
    proof {
        assert(inputs@.skip(0) =~= inputs@);
    }
    while i < n
        invariant
            n == inputs@.len(),
            i <= n,
            mute_cmds_for_inputs(inputs@) =~= out@ + mute_cmds_for_inputs(
                inputs@.skip(i as int),
            ),
        decreases n - i,
    {
        proof {
            assert(inputs@.skip(i as int)[0] == inputs@[i as int]);
            assert(inputs@.skip(i as int).drop_first() =~= inputs@.skip(i + 1));
        }
        out.push(AudioCommand::SinkInputMute { index: inputs[i].index, mute: !inputs[i].muted });
        i = i + 1;
    }
    proof {
        assert(inputs@.skip(n as int) =~= Seq::<SinkInputInfo>::empty());
    }
    out
}

/// Compute the volume commands a target resolves to against the given audio
/// state and focused-window hint.
pub fn volume_commands_for_target(
    target: &AudioTarget,
    vol: Volume,
    astate: &AudioState,
    focused: &Option<FocusedWindowInfo>,
) -> (r: Vec<AudioCommand>)
    ensures
        r@ == volume_commands_spec(*target, vol, *astate, *focused),
{
    match target {
        AudioTarget::DefaultOutput => {
            match find_default_sink(astate) {
                Some(s) => {
                    let mut out: Vec<AudioCommand> = Vec::new();
                    out.push(
                        AudioCommand::SinkVolume {
                            index: s.index,
                            volume: vol,
                            channels: s.channels,
                        },
                    );
                    out
                },
                None => Vec::new(),
            }
        },
        AudioTarget::DefaultInput => {
            match find_default_source(astate) {
                Some(s) => {
                    let mut out: Vec<AudioCommand> = Vec::new();
                    out.push(
                        AudioCommand::SourceVolume {
                            index: s.index,
                            volume: vol,
                            channels: s.channels,
                        },
                    );
                    out
                },
                None => Vec::new(),
            }
        },
        AudioTarget::App { matcher } => {
            let inputs = app_filter_exec(matcher, &astate.sink_inputs);
            vol_cmds_for_inputs_exec(&inputs, vol)
        },
        AudioTarget::FocusedApp => {
            match focused {
                Some(f) => {
                    let inputs = find_focused_sink_inputs(f, &astate.sink_inputs);
                    vol_cmds_for_inputs_exec(&inputs, vol)
                },
                None => Vec::new(),
            }
        },
    }
}

/// Compute the mute-toggle commands a target resolves to.
pub fn mute_commands_for_target(
    target: &AudioTarget,
    astate: &AudioState,
    focused: &Option<FocusedWindowInfo>,
) -> (r: Vec<AudioCommand>)
    ensures
        r@ == mute_commands_spec(*target, *astate, *focused),
{
    match target {
        AudioTarget::DefaultOutput => {
            match find_default_sink(astate) {
                Some(s) => {
                    let mut out: Vec<AudioCommand> = Vec::new();
                    out.push(AudioCommand::SinkMute { index: s.index, mute: !s.muted });
                    out
                },
                None => Vec::new(),
            }
        },
        AudioTarget::DefaultInput => {
            match find_default_source(astate) {
                Some(s) => {
                    let mut out: Vec<AudioCommand> = Vec::new();
                    out.push(AudioCommand::SourceMute { index: s.index, mute: !s.muted });
                    out
                },
                None => Vec::new(),
            }
        },
        AudioTarget::App { matcher } => {
            let inputs = app_filter_exec(matcher, &astate.sink_inputs);
            mute_cmds_for_inputs_exec(&inputs)
        },
        AudioTarget::FocusedApp => {
            match focused {
                Some(f) => {
                    let inputs = find_focused_sink_inputs(f, &astate.sink_inputs);
                    mute_cmds_for_inputs_exec(&inputs)
                },
                None => Vec::new(),
            }
        },
    }
}

/// The dial action configured at an analog index.
pub open spec fn dial_action_at(c: Config, j: int) -> Option<DialAction> {
    match c.controls@[j] {
        Some(cc) => cc.dial,
        None => None,
    }
}

/// The button action configured at an analog index.
pub open spec fn button_action_at(c: Config, j: int) -> Option<ButtonAction> {
    match c.controls@[j] {
        Some(cc) => cc.button,
        None => None,
    }
}

/// The control at an analog index.
pub open spec fn control_of_index(j: int) -> ControlId {
    if j < NUM_KNOBS {
        ControlId::Knob(j as u8)
    } else {
        ControlId::Slider((j - NUM_KNOBS) as u8)
    }
}

/// The window size a pipeline is created with (clamped to at least 1).
pub open spec fn clamp1(w: usize) -> nat {
    if w >= 1 {
        w as nat
    } else {
        1
    }
}

/// A pipeline freshly built for analog index `j` from the signal parameters:
/// empty filter state, knob parameters for knobs, slider parameters for
/// sliders.
pub open spec fn fresh_pipeline_ok(m: PipelineModel, sig: SignalConfig, j: int) -> bool {
    &&& m.window.len() == 0
    &&& m.last_emitted is None
    &&& m.last_emit_time is None
    &&& if j < NUM_KNOBS {
        m.window_size == clamp1(sig.knob_rolling_average) && m.delta_threshold
            == sig.knob_delta_threshold && m.debounce_ms == sig.knob_debounce_ms
    } else {
        m.window_size == clamp1(sig.slider_rolling_average) && m.delta_threshold
            == sig.slider_delta_threshold && m.debounce_ms == sig.slider_debounce_ms
    }
}

/// Build the signal pipeline for one analog control: knobs and sliders get
/// their own parameter sets.
pub fn make_pipeline(analog_id: u8, sig: &SignalConfig) -> (r: SignalPipeline)
    ensures
        r@.wf(),
        fresh_pipeline_ok(r@, *sig, analog_id as int),
{
    if analog_id < NUM_KNOBS {
        SignalPipeline::new(sig.knob_rolling_average, sig.knob_delta_threshold, sig.knob_debounce_ms)
    } else {
        SignalPipeline::new(
            sig.slider_rolling_average,
            sig.slider_delta_threshold,
            sig.slider_debounce_ms,
        )
    }
}

/// Build all 9 pipelines afresh from the signal parameters.
pub fn rebuild_pipelines(sig: &SignalConfig) -> (r: Vec<SignalPipeline>)
    ensures
        r@.len() == NUM_ANALOG,
        forall|j: int| 0 <= j < NUM_ANALOG ==> (#[trigger] r@[j]@).wf() && fresh_pipeline_ok(
            r@[j]@,
            *sig,
            j,
        ),
{
    let mut out: Vec<SignalPipeline> = Vec::new();
    let mut j: u8 = 0;
    while j < NUM_ANALOG
        invariant
            j <= NUM_ANALOG,
            out@.len() == j,
            forall|k: int| 0 <= k < j ==> (#[trigger] out@[k]@).wf() && fresh_pipeline_ok(
                out@[k]@,
                *sig,
                k,
            ),
        decreases NUM_ANALOG - j,
    {
        out.push(make_pipeline(j, sig));
        j = j + 1;
    }
    out
}

/// The knob-ring slot the LED configuration calls for.
pub open spec fn knob_slot_spec(leds: LedConfig) -> LedSlot {
    if leds.knobs {
        LedSlot { mode: LedMode::Static, r1: 255, g1: 255, b1: 255, r2: 0, g2: 0, b2: 0 }
    } else {
        LedSlot::off_spec()
    }
}

/// The slider slot the LED configuration calls for.
pub open spec fn slider_slot_spec(leds: LedConfig) -> LedSlot {
    if leds.sliders {
        LedSlot { mode: LedMode::Static, r1: 0, g1: 100, b1: 255, r2: 0, g2: 0, b2: 0 }
    } else {
        LedSlot::off_spec()
    }
}

/// The slider-label slot the LED configuration calls for.
pub open spec fn slider_label_slot_spec(leds: LedConfig) -> LedSlot {
    if leds.slider_labels {
        LedSlot { mode: LedMode::Static, r1: 0, g1: 100, b1: 255, r2: 0, g2: 0, b2: 0 }
    } else {
        LedSlot::off_spec()
    }
}

/// The logo command the LED configuration calls for (off is static black).
pub open spec fn logo_cmd_spec(leds: LedConfig) -> HidCommand {
    if leds.logo {
        HidCommand::SetLogo { mode: LogoMode::Static, r: 255, g: 255, b: 255, speed: 0 }
    } else {
        HidCommand::SetLogo { mode: LogoMode::Static, r: 0, g: 0, b: 0, speed: 0 }
    }
}

/// The four device commands that realize an LED configuration: knob rings,
/// slider labels, sliders, then the logo; disabled zones are sent off slots.
pub fn initial_led_commands(leds: &LedConfig) -> (r: Vec<HidCommand>)
    ensures
        r@.len() == 4,
        (r@[0] matches HidCommand::SetKnobLeds(slots) && forall|i: int|
            0 <= i < 5 ==> slots@[i] == knob_slot_spec(*leds)),
        (r@[1] matches HidCommand::SetSliderLabelLeds(slots) && forall|i: int|
            0 <= i < 4 ==> slots@[i] == slider_label_slot_spec(*leds)),
        (r@[2] matches HidCommand::SetSliderLeds(slots) && forall|i: int|
            0 <= i < 4 ==> slots@[i] == slider_slot_spec(*leds)),
        r@[3] == logo_cmd_spec(*leds),
{
    let knob_slot = if leds.knobs {
        LedSlot::static_color(255, 255, 255)
    } else {
        LedSlot::off()
    };
    let slider_slot = if leds.sliders {
        LedSlot::static_color(0, 100, 255)
    } else {
        LedSlot::off()
    };
    let label_slot = if leds.slider_labels {
        LedSlot::static_color(0, 100, 255)
    } else {
        LedSlot::off()
    };
    let logo = if leds.logo {
        HidCommand::SetLogo { mode: LogoMode::Static, r: 255, g: 255, b: 255, speed: 0 }
    } else {
        HidCommand::SetLogo { mode: LogoMode::Static, r: 0, g: 0, b: 0, speed: 0 }
    };
    let mut out: Vec<HidCommand> = Vec::new();
    out.push(HidCommand::SetKnobLeds([knob_slot, knob_slot, knob_slot, knob_slot, knob_slot]));
    out.push(HidCommand::SetSliderLabelLeds([label_slot, label_slot, label_slot, label_slot]));
    out.push(HidCommand::SetSliderLeds([slider_slot, slider_slot, slider_slot, slider_slot]));
    out.push(logo);
    out
}

/// All mutable domain state, owned and mutated by exactly one actor.
#[derive(Debug)]
pub struct EngineState {
    /// The active configuration.
    pub config: Config,
    /// The latest audio-topology snapshot.
    pub audio_state: AudioState,
    /// The hardware-to-volume curve in effect.
    pub curve: CurveTable,
    /// Whether the device is currently connected.
    pub device_connected: bool,
    /// Whether the audio collaborator is currently connected.
    pub pulse_connected: bool,
    /// One signal pipeline per analog control.
    pub pipelines: Vec<SignalPipeline>,
    /// Last seen raw position per analog control.
    pub last_positions: Vec<u8>,
    /// Last volume applied through each analog control, cleared wholesale on
    /// any configuration change.
    pub last_applied_volumes: Vec<Option<Volume>>,
    /// The latest focused-window hint.
    pub focused_window: Option<FocusedWindowInfo>,
}

impl EngineState {
    /// The structural invariant: 9 slots everywhere, a well-formed
    /// configuration and curve, well-formed pipelines.
    pub open spec fn wf(self) -> bool {
        &&& self.config.wf()
        &&& self.curve.wf()
        &&& self.pipelines@.len() == NUM_ANALOG
        &&& self.last_positions@.len() == NUM_ANALOG
        &&& self.last_applied_volumes@.len() == NUM_ANALOG
        &&& forall|j: int| 0 <= j < NUM_ANALOG ==> (#[trigger] self.pipelines@[j]@).wf()
    }

    /// A fresh engine: no audio state, nothing connected, fresh pipelines,
    /// no cached volumes, positions at zero.
    pub fn new(config: Config, curve: CurveTable) -> (r: Self)
        requires
            config.wf(),
            curve.wf(),
        ensures
            r.wf(),
            r.config == config,
            r.curve == curve,
            r.audio_state.sink_inputs@.len() == 0,
            r.audio_state.sinks@.len() == 0,
            r.audio_state.sources@.len() == 0,
            r.audio_state.default_sink_name is None,
            r.audio_state.default_source_name is None,
            !r.device_connected,
            !r.pulse_connected,
            forall|j: int| 0 <= j < NUM_ANALOG ==> fresh_pipeline_ok(
                (#[trigger] r.pipelines@[j])@,
                config.signal,
                j,
            ),
            forall|j: int| 0 <= j < NUM_ANALOG ==> #[trigger] r.last_positions@[j] == 0,
            forall|j: int| 0 <= j < NUM_ANALOG ==> #[trigger] r.last_applied_volumes@[j] is None,
            r.focused_window is None,
    {
        let pipelines = rebuild_pipelines(&config.signal);
        let mut last_positions: Vec<u8> = Vec::new();
        let mut last_applied_volumes: Vec<Option<Volume>> = Vec::new();
        let mut j: u8 = 0;
        while j < NUM_ANALOG
            invariant
                j <= NUM_ANALOG,
                last_positions@.len() == j,
                last_applied_volumes@.len() == j,
                forall|k: int| 0 <= k < j ==> #[trigger] last_positions@[k] == 0,
                forall|k: int| 0 <= k < j ==> #[trigger] last_applied_volumes@[k] is None,
            decreases NUM_ANALOG - j,
        {
            last_positions.push(0);
            last_applied_volumes.push(None);
            j = j + 1;
        }
        EngineState {
            config,
            audio_state: AudioState::empty(),
            curve,
            device_connected: false,
            pulse_connected: false,
            pipelines,
            last_positions,
            last_applied_volumes,
            focused_window: None,
        }
    }

    /// The active configuration (for serialization outside the engine).
    pub fn current_config(&self) -> (r: &Config)
        ensures
            r == &self.config,
    {
        &self.config
    }
}

/// What one analog index accepts out of a position report: nothing if the
/// position did not change, else whatever its pipeline emits.
pub open spec fn index_accept(s: EngineState, positions: Seq<u8>, now: u64, j: int) -> Option<u8> {
    if positions[j] == s.last_positions@[j] {
        None
    } else {
        process_step(s.pipelines@[j]@, positions[j], now).1
    }
}

/// The audio commands one analog index contributes: the accepted value put
/// through the curve and resolved against the dial target, if one is set.
pub open spec fn index_commands(s: EngineState, positions: Seq<u8>, now: u64, j: int) -> Seq<
    AudioCommand,
> {
    match index_accept(s, positions, now, j) {
        Some(v) => match dial_action_at(s.config, j) {
            Some(d) => match d {
                DialAction::Volume { target } => volume_commands_spec(
                    target,
                    s.curve.volume_at(v),
                    s.audio_state,
                    s.focused_window,
                ),
            },
            None => Seq::empty(),
        },
        None => Seq::empty(),
    }
}

/// The audio commands of the first `j` analog indices, in index order.
pub open spec fn positions_commands_upto(
    s: EngineState,
    positions: Seq<u8>,
    now: u64,
    j: int,
) -> Seq<AudioCommand>
    decreases j,
{
    if j <= 0 {
        Seq::empty()
    } else {
        positions_commands_upto(s, positions, now, j - 1) + index_commands(
            s,
            positions,
            now,
            j - 1,
        )
    }
}

impl EngineState {
    /// React to a position report: run every changed analog index through
    /// its signal pipeline; each accepted value is mapped through the volume
    /// curve, resolved against the control's dial target, and recorded as
    /// that control's last applied volume.
    pub fn handle_positions(&mut self, positions: Vec<u8>, now: u64) -> (r: Vec<AudioCommand>)
        requires
            old(self).wf(),
            positions@.len() == NUM_ANALOG,
        ensures
            final(self).wf(),
            final(self).config == old(self).config,
            final(self).audio_state == old(self).audio_state,
            final(self).curve == old(self).curve,
            final(self).device_connected == old(self).device_connected,
            final(self).pulse_connected == old(self).pulse_connected,
            final(self).focused_window == old(self).focused_window,
            final(self).last_positions@ == positions@,
            forall|k: int| 0 <= k < NUM_ANALOG ==> #[trigger] final(self).pipelines@[k]@ == (
            if positions@[k] == old(self).last_positions@[k] {
                old(self).pipelines@[k]@
            } else {
                process_step(old(self).pipelines@[k]@, positions@[k], now).0
            }),
            forall|k: int| 0 <= k < NUM_ANALOG ==> #[trigger] final(self).last_applied_volumes@[k]
                == (match index_accept(*old(self), positions@, now, k) {
                Some(v) => if dial_action_at(old(self).config, k) is Some {
                    Some(old(self).curve.volume_at(v))
                } else {
                    old(self).last_applied_volumes@[k]
                },
                None => old(self).last_applied_volumes@[k],
            }),
            r@ == positions_commands_upto(*old(self), positions@, now, NUM_ANALOG as int),
    {
        let ghost s0 = *old(self);
        let mut out: Vec<AudioCommand> = Vec::new();
        let mut j: usize = 0;
        while j < NUM_ANALOG as usize
            invariant
                j <= NUM_ANALOG,
                s0.wf(),
                positions@.len() == NUM_ANALOG,
                self.config == s0.config,
                self.audio_state == s0.audio_state,
                self.curve == s0.curve,
                self.device_connected == s0.device_connected,
                self.pulse_connected == s0.pulse_connected,
                self.focused_window == s0.focused_window,
                self.last_positions == s0.last_positions,
                self.pipelines@.len() == NUM_ANALOG,
                self.last_applied_volumes@.len() == NUM_ANALOG,
                forall|k: int| 0 <= k < NUM_ANALOG ==> (#[trigger] self.pipelines@[k]@).wf(),
                forall|k: int| j <= k < NUM_ANALOG ==> #[trigger] self.pipelines@[k]
                    == s0.pipelines@[k],
                forall|k: int| j <= k < NUM_ANALOG ==> #[trigger] self.last_applied_volumes@[k]
                    == s0.last_applied_volumes@[k],
                forall|k: int| 0 <= k < j ==> #[trigger] self.pipelines@[k]@ == (
                if positions@[k] == s0.last_positions@[k] {
                    s0.pipelines@[k]@
                } else {
                    process_step(s0.pipelines@[k]@, positions@[k], now).0
                }),
                forall|k: int| 0 <= k < j ==> #[trigger] self.last_applied_volumes@[k] == (
                match index_accept(s0, positions@, now, k) {
                    Some(v) => if dial_action_at(s0.config, k) is Some {
                        Some(s0.curve.volume_at(v))
                    } else {
                        s0.last_applied_volumes@[k]
                    },
                    None => s0.last_applied_volumes@[k],
                }),
                out@ =~= positions_commands_upto(s0, positions@, now, j as int),
            decreases NUM_ANALOG - j,
        {
            if positions[j] != self.last_positions[j] {
                let raw = positions[j];
                let ghost pre_pipes = self.pipelines@;
                let mut p = self.pipelines.remove(j);
                let acc = p.process_at(raw, now);
                self.pipelines.insert(j, p);
                proof {
                    assert(self.pipelines@ =~= pre_pipes.update(j as int, p));
                }
                if let Some(v) = acc {
                    let mut has_dial = false;
                    let mut cmds: Vec<AudioCommand> = Vec::new();
                    match self.config.controls[j].as_ref() {
                        Some(cc) => {
                            match &cc.dial {
                                Some(d) => {
                                    has_dial = true;
                                    match d {
                                        DialAction::Volume { target } => {
                                            let vol = self.curve.volume_for(v);
                                            cmds = volume_commands_for_target(
                                                target,
                                                vol,
                                                &self.audio_state,
                                                &self.focused_window,
                                            );
                                            self.last_applied_volumes.set(j, Some(vol));
                                        },
                                    }
                                },
                                None => {},
                            }
                        },
                        None => {},
                    }
                    out.append(&mut cmds);
                }
            }
            j = j + 1;
            proof {
                assert(out@ =~= positions_commands_upto(s0, positions@, now, j as int));
            }
        }
        self.last_positions = positions;
        out
    }
}

/// The outcome of a button press: nothing, audio commands to send, a media
/// command to forward, or an external command line to spawn.
#[derive(Debug, Clone, PartialEq, Eq)]
pub enum ButtonOutcome {
    Nothing,
    Audio(Vec<AudioCommand>),
    Media(MediaCommand),
    Exec(String),
}

impl EngineState {
    /// React to a button press (releases are ignored by the caller): resolve
    /// the control's button action into mute-toggle commands, a media
    /// command, or an external command line.
    pub fn handle_button_press(&self, button_id: u8) -> (r: ButtonOutcome)
        requires
            self.wf(),
        ensures
            button_id >= NUM_KNOBS ==> r is Nothing,
            button_id < NUM_KNOBS ==> match button_action_at(self.config, button_id as int) {
                None => r is Nothing,
                Some(a) => match a {
                    ButtonAction::Mute { target } => (r matches ButtonOutcome::Audio(cmds)
                        && cmds@ == mute_commands_spec(
                        target,
                        self.audio_state,
                        self.focused_window,
                    )),
                    ButtonAction::Media { command } => r == ButtonOutcome::Media(command),
                    ButtonAction::Exec { command } => r == ButtonOutcome::Exec(command),
                },
            },
    {
        if button_id >= NUM_KNOBS {
            return ButtonOutcome::Nothing;
        }
        match self.config.controls[button_id as usize].as_ref() {
            Some(cc) => match &cc.button {
                Some(a) => match a {
                    ButtonAction::Mute { target } => ButtonOutcome::Audio(
                        mute_commands_for_target(target, &self.audio_state, &self.focused_window),
                    ),
                    ButtonAction::Media { command } => ButtonOutcome::Media(*command),
                    ButtonAction::Exec { command } => ButtonOutcome::Exec(command.clone()),
                },
                None => ButtonOutcome::Nothing,
            },
            None => ButtonOutcome::Nothing,
        }
    }

    /// Record audio-collaborator connectivity; on disconnect the cached
    /// audio state is cleared wholesale.
    pub fn handle_audio_connected(&mut self, connected: bool)
        requires
            old(self).wf(),
        ensures
            final(self).wf(),
            final(self).pulse_connected == connected,
            connected ==> final(self).audio_state == old(self).audio_state,
            !connected ==> {
                &&& final(self).audio_state.default_sink_name is None
                &&& final(self).audio_state.default_source_name is None
                &&& final(self).audio_state.sinks@.len() == 0
                &&& final(self).audio_state.sources@.len() == 0
                &&& final(self).audio_state.sink_inputs@.len() == 0
            },
            final(self).config == old(self).config,
            final(self).curve == old(self).curve,
            final(self).device_connected == old(self).device_connected,
            final(self).pipelines == old(self).pipelines,
            final(self).last_positions == old(self).last_positions,
            final(self).last_applied_volumes == old(self).last_applied_volumes,
            final(self).focused_window == old(self).focused_window,
    {
        self.pulse_connected = connected;
        if !connected {
            self.audio_state = AudioState::empty();
        }
    }

    /// Replace the focused-window hint; it takes effect on the next
    /// resolution that consults it.
    pub fn handle_focused_window(&mut self, focused: Option<FocusedWindowInfo>)
        requires
            old(self).wf(),
        ensures
            final(self).wf(),
            final(self).focused_window == focused,
            final(self).config == old(self).config,
            final(self).audio_state == old(self).audio_state,
            final(self).curve == old(self).curve,
            final(self).device_connected == old(self).device_connected,
            final(self).pulse_connected == old(self).pulse_connected,
            final(self).pipelines == old(self).pipelines,
            final(self).last_positions == old(self).last_positions,
            final(self).last_applied_volumes == old(self).last_applied_volumes,
    {
        self.focused_window = focused;
    }
}

/// Is a stream with this index present?
pub open spec fn has_index(inputs: Seq<SinkInputInfo>, idx: u32) -> bool {
    exists|k: int| 0 <= k < inputs.len() && #[trigger] inputs[k].index == idx
}

/// The streams of a new snapshot whose indices the old snapshot did not
/// have, in order.
pub open spec fn fresh_inputs(
    old_inputs: Seq<SinkInputInfo>,
    new_inputs: Seq<SinkInputInfo>,
) -> Seq<SinkInputInfo>
    decreases new_inputs.len(),
{
    if new_inputs.len() == 0 {
        Seq::empty()
    } else if !has_index(old_inputs, new_inputs[0].index) {
        seq![new_inputs[0]] + fresh_inputs(old_inputs, new_inputs.drop_first())
    } else {
        fresh_inputs(old_inputs, new_inputs.drop_first())
    }
}

/// The volume re-applied through one control to newly appeared streams: only
/// controls with both a recorded volume and an application-directed dial
/// target take part; device-level targets never do.
pub open spec fn reapply_for_control(
    s: EngineState,
    news: Seq<SinkInputInfo>,
    j: int,
) -> Seq<AudioCommand> {
    match s.last_applied_volumes@[j] {
        Some(vol) => match dial_action_at(s.config, j) {
            Some(d) => match d {
                DialAction::Volume { target } => match target {
                    AudioTarget::App { matcher } => vol_cmds_for_inputs(
                        app_filter(matcher, news),
                        vol,
                    ),
                    AudioTarget::FocusedApp => match s.focused_window {
                        Some(f) => vol_cmds_for_inputs(focused_match_filter(f, news), vol),
                        None => Seq::empty(),
                    },
                    AudioTarget::DefaultOutput => Seq::empty(),
                    AudioTarget::DefaultInput => Seq::empty(),
                },
            },
            None => Seq::empty(),
        },
        None => Seq::empty(),
    }
}

/// The re-apply commands of the first `j` controls, in control order.
pub open spec fn reapply_upto(s: EngineState, news: Seq<SinkInputInfo>, j: int) -> Seq<
    AudioCommand,
>
    decreases j,
{
    if j <= 0 {
        Seq::empty()
    } else {
        reapply_upto(s, news, j - 1) + reapply_for_control(s, news, j - 1)
    }
}

/// Is a stream with index `idx` present?
fn has_index_exec(inputs: &Vec<SinkInputInfo>, idx: u32) -> (r: bool)
    ensures
        r == has_index(inputs@, idx),
{
    let n = inputs.len();
    let mut i: usize = 0;
    while i < n
        invariant
            n == inputs@.len(),
            i <= n,
            forall|k: int| 0 <= k < i ==> #[trigger] inputs@[k].index != idx,
        decreases n - i,
    {
        if inputs[i].index == idx {
            return true;
        }
        i = i + 1;
    }
    false
}

/// The streams of the new snapshot that the old one did not have.
fn fresh_inputs_exec(
    old_inputs: &Vec<SinkInputInfo>,
    new_inputs: &Vec<SinkInputInfo>,
) -> (r: Vec<SinkInputInfo>)
    ensures
        r@ == fresh_inputs(old_inputs@, new_inputs@),
{
    let mut out: Vec<SinkInputInfo> = Vec::new();
    let n = new_inputs.len();
    let mut i: usize = 0;
    proof {
        assert(new_inputs@.skip(0) =~= new_inputs@);
    }
    while i < n
        invariant
            n == new_inputs@.len(),
            i <= n,
            fresh_inputs(old_inputs@, new_inputs@) =~= out@ + fresh_inputs(
                old_inputs@,
                new_inputs@.skip(i as int),
            ),
        decreases n - i,
    {
        proof {
            assert(new_inputs@.skip(i as int)[0] == new_inputs@[i as int]);
            assert(new_inputs@.skip(i as int).drop_first() =~= new_inputs@.skip(i + 1));
        }
        if !has_index_exec(old_inputs, new_inputs[i].index) {
            out.push(new_inputs[i].clone_info());
        }
        i = i + 1;
    }
    proof {
        assert(new_inputs@.skip(n as int) =~= Seq::<SinkInputInfo>::empty());
    }
    out
}

/// The streams matching the focused window (no de-duplication).
fn focused_match_filter_exec(
    f: &FocusedWindowInfo,
    inputs: &Vec<SinkInputInfo>,
) -> (r: Vec<SinkInputInfo>)
    ensures
        r@ == focused_match_filter(*f, inputs@),
{
    let mut out: Vec<SinkInputInfo> = Vec::new();
    let n = inputs.len();
    let mut i: usize = 0;
    proof {
        assert(inputs@.skip(0) =~= inputs@);
    }
    while i < n
        invariant
            n == inputs@.len(),
            i <= n,
            focused_match_filter(*f, inputs@) =~= out@ + focused_match_filter(
                *f,
                inputs@.skip(i as int),
            ),
        decreases n - i,
    {
        proof {
            assert(inputs@.skip(i as int)[0] == inputs@[i as int]);
            assert(inputs@.skip(i as int).drop_first() =~= inputs@.skip(i + 1));
        }
        if sink_input_matches_focused(&inputs[i], f) {
            out.push(inputs[i].clone_info());
        }
        i = i + 1;
    }
    proof {
        assert(inputs@.skip(n as int) =~= Seq::<SinkInputInfo>::empty());
    }
    out
}

impl EngineState {
    /// React to a full audio-topology snapshot: for every stream that newly
    /// appeared, re-issue the last applied volume of every control whose
    /// application-directed dial target matches it (applications recreate
    /// streams at full volume otherwise), then replace the cached state
    /// wholesale.
    pub fn handle_audio_snapshot(&mut self, new_state: AudioState) -> (r: Vec<AudioCommand>)
        requires
            old(self).wf(),
        ensures
            final(self).wf(),
            final(self).audio_state == new_state,
            final(self).config == old(self).config,
            final(self).curve == old(self).curve,
            final(self).device_connected == old(self).device_connected,
            final(self).pulse_connected == old(self).pulse_connected,
            final(self).pipelines == old(self).pipelines,
            final(self).last_positions == old(self).last_positions,
            final(self).last_applied_volumes == old(self).last_applied_volumes,
            final(self).focused_window == old(self).focused_window,
            r@ == reapply_upto(
                *old(self),
                fresh_inputs(old(self).audio_state.sink_inputs@, new_state.sink_inputs@),
                NUM_ANALOG as int,
            ),
    {
        let ghost s0 = *old(self);
        let news = fresh_inputs_exec(&self.audio_state.sink_inputs, &new_state.sink_inputs);
        let mut out: Vec<AudioCommand> = Vec::new();
        let mut j: usize = 0;
        while j < NUM_ANALOG as usize
            invariant
                j <= NUM_ANALOG,
                *self == s0,
                s0.wf(),
                news@ == fresh_inputs(s0.audio_state.sink_inputs@, new_state.sink_inputs@),
                out@ =~= reapply_upto(s0, news@, j as int),
            decreases NUM_ANALOG - j,
        {
            let mut cmds: Vec<AudioCommand> = Vec::new();
            match self.last_applied_volumes[j] {
                Some(vol) => {
                    match self.config.controls[j].as_ref() {
                        Some(cc) => {
                            match &cc.dial {
                                Some(d) => {
                                    match d {
                                        DialAction::Volume { target } => {
                                            match target {
                                                AudioTarget::App { matcher } => {
                                                    let sel = app_filter_exec(matcher, &news);
                                                    cmds = vol_cmds_for_inputs_exec(&sel, vol);
                                                },
                                                AudioTarget::FocusedApp => {
                                                    match &self.focused_window {
                                                        Some(f) => {
                                                            let sel = focused_match_filter_exec(
                                                                f,
                                                                &news,
                                                            );
                                                            cmds = vol_cmds_for_inputs_exec(
                                                                &sel,
                                                                vol,
                                                            );
                                                        },
                                                        None => {},
                                                    }
                                                },
                                                AudioTarget::DefaultOutput => {},
                                                AudioTarget::DefaultInput => {},
                                            }
                                        },
                                    }
                                },
                                None => {},
                            }
                        },
                        None => {},
                    }
                },
                None => {},
            }
            out.append(&mut cmds);
            j = j + 1;
            proof {
                assert(out@ =~= reapply_upto(s0, news@, j as int));
            }
        }
        self.audio_state = new_state;
        out
    }
}

/// All devices merged: outputs first, then inputs, each tagged.
pub open spec fn sinks_as_devices(sinks: Seq<SinkInfo>) -> Seq<DeviceInfo>
    decreases sinks.len(),
{
    if sinks.len() == 0 {
        Seq::empty()
    } else {
        seq![
            DeviceInfo {
                device_type: DeviceType::Output,
                index: sinks[0].index,
                name: sinks[0].name,
                description: sinks[0].description,
                volume: sinks[0].volume,
                muted: sinks[0].muted,
            },
        ] + sinks_as_devices(sinks.drop_first())
    }
}

/// Input devices tagged for the merged device list.
pub open spec fn sources_as_devices(sources: Seq<SourceInfo>) -> Seq<DeviceInfo>
    decreases sources.len(),
{
    if sources.len() == 0 {
        Seq::empty()
    } else {
        seq![
            DeviceInfo {
                device_type: DeviceType::Input,
                index: sources[0].index,
                name: sources[0].name,
                description: sources[0].description,
                volume: sources[0].volume,
                muted: sources[0].muted,
            },
        ] + sources_as_devices(sources.drop_first())
    }
}

/// The merged device list of a snapshot.
pub open spec fn device_list_spec(s: AudioState) -> Seq<DeviceInfo> {
    sinks_as_devices(s.sinks@) + sources_as_devices(s.sources@)
}

/// Build the merged device list of a snapshot.
fn device_list_exec(s: &AudioState) -> (r: Vec<DeviceInfo>)
    ensures
        r@ == device_list_spec(*s),
{
    let mut out: Vec<DeviceInfo> = Vec::new();
    let n = s.sinks.len();
    let mut i: usize = 0;
    proof {
        assert(s.sinks@.skip(0) =~= s.sinks@);
    }
    while i < n
        invariant
            n == s.sinks@.len(),
            i <= n,
            sinks_as_devices(s.sinks@) =~= out@ + sinks_as_devices(s.sinks@.skip(i as int)),
        decreases n - i,
    {
        proof {
            assert(s.sinks@.skip(i as int)[0] == s.sinks@[i as int]);
            assert(s.sinks@.skip(i as int).drop_first() =~= s.sinks@.skip(i + 1));
        }
        out.push(
            DeviceInfo {
                device_type: DeviceType::Output,
                index: s.sinks[i].index,
                name: s.sinks[i].name.clone(),
                description: s.sinks[i].description.clone(),
                volume: s.sinks[i].volume,
                muted: s.sinks[i].muted,
            },
        );
        i = i + 1;
    }
    proof {
        assert(s.sinks@.skip(n as int) =~= Seq::<SinkInfo>::empty());
    }
    let m = s.sources.len();
    let mut k: usize = 0;
    proof {
        assert(s.sources@.skip(0) =~= s.sources@);
    }
    while k < m
        invariant
            m == s.sources@.len(),
            k <= m,
            device_list_spec(*s) =~= out@ + sources_as_devices(s.sources@.skip(k as int)),
        decreases m - k,
    {
        proof {
            assert(s.sources@.skip(k as int)[0] == s.sources@[k as int]);
            assert(s.sources@.skip(k as int).drop_first() =~= s.sources@.skip(k + 1));
        }
        out.push(
            DeviceInfo {
                device_type: DeviceType::Input,
                index: s.sources[k].index,
                name: s.sources[k].name.clone(),
                description: s.sources[k].description.clone(),
                volume: s.sources[k].volume,
                muted: s.sources[k].muted,
            },
        );
        k = k + 1;
    }
    proof {
        assert(s.sources@.skip(m as int) =~= Seq::<SourceInfo>::empty());
    }
    out
}

/// One status line is the faithful rendering of one control's entry.
pub open spec fn mapping_entry_ok(m: MappingInfo, cc: ControlConfig, j: int) -> bool {
    &&& m.control@ == config_key_spec(control_of_index(j))
    &&& (match cc.dial {
        Some(d) => m.dial matches Some(s) && s@ == dial_description_spec(d),
        None => m.dial is None,
    })
    &&& (match cc.button {
        Some(b) => m.button matches Some(s) && s@ == button_description_spec(b),
        None => m.button is None,
    })
}

/// The status lines render exactly the first `j` controls that have any
/// action configured, in control order.
pub open spec fn mappings_built_ok(c: Config, j: int, ms: Seq<MappingInfo>) -> bool
    decreases j,
{
    if j <= 0 {
        ms.len() == 0
    } else {
        match c.controls@[j - 1] {
            None => mappings_built_ok(c, j - 1, ms),
            Some(cc) => if cc.dial is None && cc.button is None {
                mappings_built_ok(c, j - 1, ms)
            } else {
                ms.len() > 0 && mapping_entry_ok(ms.last(), cc, j - 1) && mappings_built_ok(
                    c,
                    j - 1,
                    ms.drop_last(),
                )
            },
        }
    }
}

/// Render the configured mappings for status display: one line per control
/// that has a dial or button action, in control order.
pub fn build_mapping_info(config: &Config) -> (r: Vec<MappingInfo>)
    requires
        config.wf(),
    ensures
        mappings_built_ok(*config, NUM_ANALOG as int, r@),
{
    let mut out: Vec<MappingInfo> = Vec::new();
    let mut j: u8 = 0;
    while j < NUM_ANALOG
        invariant
            j <= NUM_ANALOG,
            config.wf(),
            mappings_built_ok(*config, j as int, out@),
        decreases NUM_ANALOG - j,
    {
        match config.controls[j as usize].as_ref() {
            Some(cc) => {
                let dial: Option<String> = match &cc.dial {
                    Some(d) => Some(crate::control::describe_dial(d)),
                    None => None,
                };
                let button: Option<String> = match &cc.button {
                    Some(b) => Some(crate::control::describe_button(b)),
                    None => None,
                };
                if dial.is_some() || button.is_some() {
                    let id = match ControlId::from_analog_id(j) {
                        Some(id) => id,
                        None => {
                            proof {
                                assert(false);
                            }
                            ControlId::Knob(0)
                        },
                    };
                    proof {
                        assert(id == control_of_index(j as int));
                    }
                    let ghost pre = out@;
                    out.push(MappingInfo { control: id.config_key(), dial, button });
                    proof {
                        assert(out@.drop_last() =~= pre);
                    }
                }
            },
            None => {},
        }
        j = j + 1;
    }
    out
}

/// What the engine asks of its runtime after a local-control request: reply
/// at once; persist the configuration and then reply; serialize the current
/// configuration; reload it from the store; or begin shutdown.
#[derive(Debug)]
pub enum IpcOutcome {
    /// Send this reply.
    Reply(IpcResponse),
    /// Persist the configuration, then call
    /// [`EngineState::finish_config_mutation`] with the result.
    NeedsSave,
    /// Serialize the current configuration and reply with it.
    NeedsConfigText,
    /// Load the configuration store and call
    /// [`EngineState::finish_ipc_reload`] with the result.
    NeedsReload,
    /// Begin cooperative shutdown and reply that all is well.
    ShutdownRequested,
}

impl EngineState {
    /// Dispatch one local-control request. Query requests are answered from
    /// state alone; mutating requests update the configuration and ask the
    /// runtime to persist it; reload and shutdown are delegated.
    pub fn handle_ipc_request(&mut self, req: IpcRequest) -> (r: IpcOutcome)
        requires
            old(self).wf(),
        ensures
            final(self).wf(),
            final(self).audio_state == old(self).audio_state,
            final(self).curve == old(self).curve,
            final(self).device_connected == old(self).device_connected,
            final(self).pulse_connected == old(self).pulse_connected,
            final(self).pipelines == old(self).pipelines,
            final(self).last_positions == old(self).last_positions,
            final(self).last_applied_volumes == old(self).last_applied_volumes,
            final(self).focused_window == old(self).focused_window,
            final(self).config.device == old(self).config.device,
            final(self).config.signal == old(self).config.signal,
            final(self).config.leds == old(self).config.leds,
            match req {
                IpcRequest::GetStatus => final(self).config == old(self).config && (r matches
                IpcOutcome::Reply(resp) && (resp matches IpcResponse::Status {
                    device,
                    pulse_connected,
                    mappings,
                } && {
                    &&& device.connected == old(self).device_connected
                    &&& device.serial == old(self).config.device.serial
                    &&& pulse_connected == old(self).pulse_connected
                    &&& mappings_built_ok(old(self).config, NUM_ANALOG as int, mappings@)
                })),
                IpcRequest::ListApps => final(self).config == old(self).config && (r matches
                IpcOutcome::Reply(resp) && (resp matches IpcResponse::Apps { apps } && apps@
                    == old(self).audio_state.sink_inputs@)),
                IpcRequest::ListDevices => final(self).config == old(self).config && (r matches
                IpcOutcome::Reply(resp) && (resp matches IpcResponse::Devices { devices }
                    && devices@ == device_list_spec(old(self).audio_state))),
                IpcRequest::ListOutputs => final(self).config == old(self).config && (r matches
                IpcOutcome::Reply(resp) && (resp matches IpcResponse::Outputs { outputs }
                    && outputs@ == old(self).audio_state.sinks@)),
                IpcRequest::ListInputs => final(self).config == old(self).config && (r matches
                IpcOutcome::Reply(resp) && (resp matches IpcResponse::Inputs { inputs } && inputs@
                    == old(self).audio_state.sources@)),
                IpcRequest::AssignDial { control, action } => if control.wf() {
                    &&& r is NeedsSave
                    &&& final(self).config.control_spec(control) matches Some(cc) && cc.dial
                        == Some(action) && cc.button == (match old(self).config.control_spec(
                        control,
                    ) {
                        Some(p) => p.button,
                        None => None,
                    })
                    &&& forall|i: int| 0 <= i < NUM_ANALOG && i != control.analog_id()
                        ==> #[trigger] final(self).config.controls@[i]
                            == old(self).config.controls@[i]
                } else {
                    *final(self) == *old(self) && (r matches IpcOutcome::Reply(resp) && (
                    resp matches IpcResponse::Error { message } && message@
                        == "unknown control"@))
                },
                IpcRequest::AssignButton { control, action } => if control.wf() {
                    &&& r is NeedsSave
                    &&& final(self).config.control_spec(control) matches Some(cc) && cc.button
                        == Some(action) && cc.dial == (match old(self).config.control_spec(
                        control,
                    ) {
                        Some(p) => p.dial,
                        None => None,
                    })
                    &&& forall|i: int| 0 <= i < NUM_ANALOG && i != control.analog_id()
                        ==> #[trigger] final(self).config.controls@[i]
                            == old(self).config.controls@[i]
                } else {
                    *final(self) == *old(self) && (r matches IpcOutcome::Reply(resp) && (
                    resp matches IpcResponse::Error { message } && message@
                        == "unknown control"@))
                },
                IpcRequest::Unassign { control } => if control.wf() {
                    &&& r is NeedsSave
                    &&& final(self).config.control_spec(control) is None
                    &&& forall|i: int| 0 <= i < NUM_ANALOG && i != control.analog_id()
                        ==> #[trigger] final(self).config.controls@[i]
                            == old(self).config.controls@[i]
                } else {
                    *final(self) == *old(self) && (r matches IpcOutcome::Reply(resp) && (
                    resp matches IpcResponse::Error { message } && message@
                        == "unknown control"@))
                },
                IpcRequest::GetConfig => final(self).config == old(self).config && r
                    is NeedsConfigText,
                IpcRequest::ReloadConfig => final(self).config == old(self).config && r
                    is NeedsReload,
                IpcRequest::Shutdown => final(self).config == old(self).config && r
                    is ShutdownRequested,
            },
    {
        match req {
            IpcRequest::GetStatus => {
                let device = DeviceStatus {
                    connected: self.device_connected,
                    serial: crate::audio::clone_opt_string(&self.config.device.serial),
                };
                let mappings = build_mapping_info(&self.config);
                IpcOutcome::Reply(
                    IpcResponse::Status {
                        device,
                        pulse_connected: self.pulse_connected,
                        mappings,
                    },
                )
            },
            IpcRequest::ListApps => IpcOutcome::Reply(
                IpcResponse::Apps {
                    apps: crate::audio::clone_sink_inputs(&self.audio_state.sink_inputs),
                },
            ),
            IpcRequest::ListDevices => IpcOutcome::Reply(
                IpcResponse::Devices { devices: device_list_exec(&self.audio_state) },
            ),
            IpcRequest::ListOutputs => IpcOutcome::Reply(
                IpcResponse::Outputs { outputs: crate::audio::clone_sinks(&self.audio_state.sinks) },
            ),
            IpcRequest::ListInputs => IpcOutcome::Reply(
                IpcResponse::Inputs {
                    inputs: crate::audio::clone_sources(&self.audio_state.sources),
                },
            ),
            IpcRequest::AssignDial { control, action } => {
                if !control.is_wf() {
                    return IpcOutcome::Reply(
                        IpcResponse::Error { message: "unknown control".to_owned() },
                    );
                }
                let idx = control.to_analog_id() as usize;
                let ghost pre = self.config.controls@;
                let prev = self.config.controls.remove(idx);
                let mut cc = match prev {
                    Some(c) => c,
                    None => ControlConfig::default(),
                };
                cc.dial = Some(action);
                self.config.controls.insert(idx, Some(cc));
                proof {
                    assert(final(self).config.controls@ =~= pre.update(
                        idx as int,
                        final(self).config.controls@[idx as int],
                    ));
                }
                IpcOutcome::NeedsSave
            },
            IpcRequest::AssignButton { control, action } => {
                if !control.is_wf() {
                    return IpcOutcome::Reply(
                        IpcResponse::Error { message: "unknown control".to_owned() },
                    );
                }
                let idx = control.to_analog_id() as usize;
                let ghost pre = self.config.controls@;
                let prev = self.config.controls.remove(idx);
                let mut cc = match prev {
                    Some(c) => c,
                    None => ControlConfig::default(),
                };
                cc.button = Some(action);
                self.config.controls.insert(idx, Some(cc));
                proof {
                    assert(final(self).config.controls@ =~= pre.update(
                        idx as int,
                        final(self).config.controls@[idx as int],
                    ));
                }
                IpcOutcome::NeedsSave
            },
            IpcRequest::Unassign { control } => {
                if !control.is_wf() {
                    return IpcOutcome::Reply(
                        IpcResponse::Error { message: "unknown control".to_owned() },
                    );
                }
                let _ = self.config.remove_control(control);
                IpcOutcome::NeedsSave
            },
            IpcRequest::GetConfig => IpcOutcome::NeedsConfigText,
            IpcRequest::ReloadConfig => IpcOutcome::NeedsReload,
            IpcRequest::Shutdown => IpcOutcome::ShutdownRequested,
        }
    }

    /// Finish a mutating request once the runtime has tried to persist the
    /// configuration: on success reply that all is well and clear the whole
    /// last-applied-volume cache (the mapping may have changed, stale values
    /// must not leak to the wrong target); on failure pass the error on and
    /// leave the cache alone (the in-memory change stays, as observed).
    pub fn finish_config_mutation(&mut self, save_error: Option<String>) -> (r: IpcResponse)
        requires
            old(self).wf(),
        ensures
            final(self).wf(),
            final(self).config == old(self).config,
            final(self).audio_state == old(self).audio_state,
            final(self).curve == old(self).curve,
            final(self).device_connected == old(self).device_connected,
            final(self).pulse_connected == old(self).pulse_connected,
            final(self).pipelines == old(self).pipelines,
            final(self).last_positions == old(self).last_positions,
            final(self).focused_window == old(self).focused_window,
            match save_error {
                None => r == IpcResponse::Okay && (forall|j: int|
                    0 <= j < NUM_ANALOG ==> (#[trigger] final(self).last_applied_volumes@[j])
                        is None),
                Some(msg) => r == (IpcResponse::Error { message: msg })
                    && final(self).last_applied_volumes == old(self).last_applied_volumes,
            },
    {
        match save_error {
            None => {
                self.clear_applied_volumes();
                IpcResponse::Okay
            },
            Some(msg) => IpcResponse::Error { message: msg },
        }
    }

    /// Invalidate the whole last-applied-volume cache.
    fn clear_applied_volumes(&mut self)
        requires
            old(self).wf(),
        ensures
            final(self).wf(),
            *final(self) == (EngineState {
                last_applied_volumes: final(self).last_applied_volumes,
                ..*old(self)
            }),
            final(self).last_applied_volumes@.len() == NUM_ANALOG,
            forall|j: int| 0 <= j < NUM_ANALOG ==> (#[trigger] final(self).last_applied_volumes@[j])
                is None,
    {
        let mut cleared: Vec<Option<Volume>> = Vec::new();
        let mut j: u8 = 0;
        while j < NUM_ANALOG
            invariant
                j <= NUM_ANALOG,
                cleared@.len() == j,
                forall|k: int| 0 <= k < j ==> #[trigger] cleared@[k] is None,
            decreases NUM_ANALOG - j,
        {
            cleared.push(None);
            j = j + 1;
        }
        self.last_applied_volumes = cleared;
    }
}

/// A freshly loaded configuration has been installed: the curve table is the
/// sanitized form of the raw entries, all 9 pipelines are rebuilt from the
/// new signal parameters, the last-applied-volume cache is cleared, the LED
/// commands realize the new LED configuration, and nothing else moved.
pub open spec fn loaded_config_applied(
    pre: EngineState,
    post: EngineState,
    cfg: Config,
    raw: Seq<u32>,
    led_cmds: Seq<HidCommand>,
) -> bool {
    &&& post.config == cfg
    &&& post.curve.wf()
    &&& (forall|i: int| 0 <= i < 256 && i < raw.len() ==> #[trigger] post.curve.units@[i] == (
    if raw[i] <= crate::audio::VOLUME_SCALE {
        raw[i]
    } else {
        crate::audio::VOLUME_SCALE
    }))
    &&& (forall|i: int| raw.len() <= i < 256 ==> #[trigger] post.curve.units@[i]
        == crate::audio::VOLUME_SCALE)
    &&& post.pipelines@.len() == NUM_ANALOG
    &&& (forall|j: int| 0 <= j < NUM_ANALOG ==> fresh_pipeline_ok(
        (#[trigger] post.pipelines@[j])@,
        cfg.signal,
        j,
    ))
    &&& (forall|j: int| 0 <= j < NUM_ANALOG ==> #[trigger] post.last_applied_volumes@[j] is None)
    &&& post.audio_state == pre.audio_state
    &&& post.device_connected == pre.device_connected
    &&& post.pulse_connected == pre.pulse_connected
    &&& post.last_positions == pre.last_positions
    &&& post.focused_window == pre.focused_window
    &&& led_cmds.len() == 4
    &&& (led_cmds[0] matches HidCommand::SetKnobLeds(slots) && forall|i: int|
        0 <= i < 5 ==> slots@[i] == knob_slot_spec(cfg.leds))
    &&& (led_cmds[1] matches HidCommand::SetSliderLabelLeds(slots) && forall|i: int|
        0 <= i < 4 ==> slots@[i] == slider_label_slot_spec(cfg.leds))
    &&& (led_cmds[2] matches HidCommand::SetSliderLeds(slots) && forall|i: int|
        0 <= i < 4 ==> slots@[i] == slider_slot_spec(cfg.leds))
    &&& led_cmds[3] == logo_cmd_spec(cfg.leds)
}

impl EngineState {
    /// Install a freshly loaded configuration: swap it in, rebuild the curve
    /// table and all 9 pipelines, clear the last-applied-volume cache, and
    /// return the LED commands that realize the new LED configuration.
    pub fn apply_loaded_config(&mut self, cfg: Config, raw_curve: Vec<u32>) -> (r: Vec<
        HidCommand,
    >)
        requires
            old(self).wf(),
            cfg.wf(),
        ensures
            final(self).wf(),
            loaded_config_applied(*old(self), *final(self), cfg, raw_curve@, r@),
    {
        self.curve = CurveTable::from_units(&raw_curve);
        self.pipelines = rebuild_pipelines(&cfg.signal);
        self.config = cfg;
        self.clear_applied_volumes();
        initial_led_commands(&self.config.leds)
    }

    /// Finish a reload request once the runtime has read the configuration
    /// store: on success install the new configuration (see
    /// [`loaded_config_applied`]) and reply that all is well; on failure
    /// keep the previous configuration and pass the error on.
    pub fn finish_ipc_reload(&mut self, loaded: Result<(Config, Vec<u32>), String>) -> (r: (
        IpcResponse,
        Vec<HidCommand>,
    ))
        requires
            old(self).wf(),
            loaded matches Ok(p) ==> p.0.wf(),
        ensures
            final(self).wf(),
            match loaded {
                Ok(p) => r.0 == IpcResponse::Okay && loaded_config_applied(
                    *old(self),
                    *final(self),
                    p.0,
                    p.1@,
                    r.1@,
                ),
                Err(msg) => r.0 == (IpcResponse::Error { message: msg }) && *final(self) == *old(
                    self,
                ) && r.1@.len() == 0,
            },
    {
        match loaded {
            Ok(p) => {
                let (cfg, raw) = p;
                let cmds = self.apply_loaded_config(cfg, raw);
                (IpcResponse::Okay, cmds)
            },
            Err(msg) => (IpcResponse::Error { message: msg }, Vec::new()),
        }
    }

    /// React to an external configuration-reload trigger: on success install
    /// the new configuration (see [`loaded_config_applied`]); on failure
    /// keep the previous configuration and do nothing.
    pub fn apply_external_reload(&mut self, loaded: Option<(Config, Vec<u32>)>) -> (r: Vec<
        HidCommand,
    >)
        requires
            old(self).wf(),
            loaded matches Some(p) ==> p.0.wf(),
        ensures
            final(self).wf(),
            match loaded {
                Some(p) => loaded_config_applied(*old(self), *final(self), p.0, p.1@, r@),
                None => *final(self) == *old(self) && r@.len() == 0,
            },
    {
        match loaded {
            Some(p) => {
                let (cfg, raw) = p;
                self.apply_loaded_config(cfg, raw)
            },
            None => Vec::new(),
        }
    }

    /// Record device connectivity. On reconnect, reset every pipeline's
    /// filter state and return the LED commands that restore the configured
    /// LED state; on disconnect, record the state only.
    pub fn handle_device_connected(&mut self, connected: bool) -> (r: Vec<HidCommand>)
        requires
            old(self).wf(),
        ensures
            final(self).wf(),
            final(self).device_connected == connected,
            final(self).config == old(self).config,
            final(self).audio_state == old(self).audio_state,
            final(self).curve == old(self).curve,
            final(self).pulse_connected == old(self).pulse_connected,
            final(self).last_positions == old(self).last_positions,
            final(self).last_applied_volumes == old(self).last_applied_volumes,
            final(self).focused_window == old(self).focused_window,
            !connected ==> final(self).pipelines == old(self).pipelines && r@.len() == 0,
            connected ==> {
                &&& final(self).pipelines@.len() == NUM_ANALOG
                &&& (forall|j: int| 0 <= j < NUM_ANALOG ==> {
                    let m = (#[trigger] final(self).pipelines@[j])@;
                    let o = old(self).pipelines@[j]@;
                    &&& m.window.len() == 0
                    &&& m.last_emitted is None
                    &&& m.last_emit_time is None
                    &&& m.window_size == o.window_size
                    &&& m.delta_threshold == o.delta_threshold
                    &&& m.debounce_ms == o.debounce_ms
                })
                &&& r@.len() == 4
                &&& (r@[0] matches HidCommand::SetKnobLeds(slots) && forall|i: int|
                    0 <= i < 5 ==> slots@[i] == knob_slot_spec(old(self).config.leds))
                &&& (r@[1] matches HidCommand::SetSliderLabelLeds(slots) && forall|i: int|
                    0 <= i < 4 ==> slots@[i] == slider_label_slot_spec(old(self).config.leds))
                &&& (r@[2] matches HidCommand::SetSliderLeds(slots) && forall|i: int|
                    0 <= i < 4 ==> slots@[i] == slider_slot_spec(old(self).config.leds))
                &&& r@[3] == logo_cmd_spec(old(self).config.leds)
            },
    {
        self.device_connected = connected;
        if !connected {
            return Vec::new();
        }
        let ghost s0 = *old(self);
        let mut j: usize = 0;
        while j < NUM_ANALOG as usize
            invariant
                j <= NUM_ANALOG,
                self.pipelines@.len() == NUM_ANALOG,
                forall|k: int| j <= k < NUM_ANALOG ==> #[trigger] self.pipelines@[k]
                    == s0.pipelines@[k],
                forall|k: int| 0 <= k < j ==> {
                    let m = (#[trigger] self.pipelines@[k])@;
                    let o = s0.pipelines@[k]@;
                    &&& m.window.len() == 0
                    &&& m.last_emitted is None
                    &&& m.last_emit_time is None
                    &&& m.window_size == o.window_size
                    &&& m.delta_threshold == o.delta_threshold
                    &&& m.debounce_ms == o.debounce_ms
                },
                self.config == s0.config,
                self.audio_state == s0.audio_state,
                self.curve == s0.curve,
                self.device_connected == connected,
                self.pulse_connected == s0.pulse_connected,
                self.last_positions == s0.last_positions,
                self.last_applied_volumes == s0.last_applied_volumes,
                self.focused_window == s0.focused_window,
            decreases NUM_ANALOG - j,
        {
            let ghost pre_pipes = self.pipelines@;
            let mut p = self.pipelines.remove(j);
            p.reset();
            self.pipelines.insert(j, p);
            proof {
                assert(self.pipelines@ =~= pre_pipes.update(j as int, p));
            }
            j = j + 1;
        }
        initial_led_commands(&self.config.leds)
    }
}

} // verus!


