//! Live audio-state model: normalized volume (held in fixed-point units so
//! contracts can speak of it exactly), device and application-stream
//! snapshots, and the hardware-to-volume curve held as a sanitized table.

use vstd::prelude::*;

verus! {

use vstd::arithmetic::div_mod::{lemma_div_by_multiple, lemma_div_is_ordered};
use vstd::arithmetic::mul::lemma_mul_inequality;

/// Fixed-point scale of a normalized volume: this many units mean 1.0.
pub const VOLUME_SCALE: u32 = 1000000;

/// Volume as a normalized value, in units of [`VOLUME_SCALE`] (0 units is
/// silent, `VOLUME_SCALE` units is full volume). Always clamped to that range.
#[derive(Debug, Clone, Copy, PartialEq, Eq, Structural)]
pub struct Volume {
    pub units: u32,
}

impl Volume {
    /// A volume never exceeds full scale.
    pub open spec fn wf(self) -> bool {
        self.units <= VOLUME_SCALE
    }

    /// Create a volume from raw units, clamped to full scale.
    pub fn from_units(units: u32) -> (r: Self)
        ensures
            r.wf(),
            r.units == if units <= VOLUME_SCALE {
                units
            } else {
                VOLUME_SCALE
            },
    {
        Volume { units: if units <= VOLUME_SCALE { units } else { VOLUME_SCALE } }
    }

    /// The raw units.
    pub fn get_units(self) -> (r: u32)
        ensures
            r == self.units,
    {
        self.units
    }

    /// Silence.
    pub fn zero() -> (r: Self)
        ensures
            r.units == 0,
            r.wf(),
    {
        Volume { units: 0 }
    }

    /// Full volume.
    pub fn max() -> (r: Self)
        ensures
            r.units == VOLUME_SCALE,
            r.wf(),
    {
        Volume { units: VOLUME_SCALE }
    }
}

/// Information about an audio output device.
#[derive(Debug, Clone, PartialEq, Eq)]
pub struct SinkInfo {
    pub index: u32,
    pub name: String,
    pub description: String,
    pub volume: Volume,
    pub muted: bool,
    pub channels: u8,
}

/// Information about an audio input device.
#[derive(Debug, Clone, PartialEq, Eq)]
pub struct SourceInfo {
    pub index: u32,
    pub name: String,
    pub description: String,
    pub volume: Volume,
    pub muted: bool,
    pub channels: u8,
}

/// Information about one application audio stream routed through an output.
#[derive(Debug, Clone, PartialEq, Eq)]
pub struct SinkInputInfo {
    pub index: u32,
    pub name: String,
    pub binary: Option<String>,
    pub flatpak_id: Option<String>,
    pub pid: Option<u32>,
    pub sink_index: u32,
    pub volume: Volume,
    pub muted: bool,
    pub channels: u8,
}

/// Copy an optional string, preserving its value exactly.
pub fn clone_opt_string(o: &Option<String>) -> (r: Option<String>)
    ensures
        r == *o,
{
    match o {
        Some(s) => Some(s.clone()),
        None => None,
    }
}

impl SinkInputInfo {
    /// Copy this stream record, preserving its value exactly.
    pub fn clone_info(&self) -> (r: Self)
        ensures
            r == *self,
    {
        SinkInputInfo {
            index: self.index,
            name: self.name.clone(),
            binary: clone_opt_string(&self.binary),
            flatpak_id: clone_opt_string(&self.flatpak_id),
            pid: self.pid,
            sink_index: self.sink_index,
            volume: self.volume,
            muted: self.muted,
            channels: self.channels,
        }
    }
}

impl SinkInfo {
    /// Copy this device record, preserving its value exactly.
    pub fn clone_info(&self) -> (r: Self)
        ensures
            r == *self,
    {
        SinkInfo {
            index: self.index,
            name: self.name.clone(),
            description: self.description.clone(),
            volume: self.volume,
            muted: self.muted,
            channels: self.channels,
        }
    }
}

impl SourceInfo {
    /// Copy this device record, preserving its value exactly.
    pub fn clone_info(&self) -> (r: Self)
        ensures
            r == *self,
    {
        SourceInfo {
            index: self.index,
            name: self.name.clone(),
            description: self.description.clone(),
            volume: self.volume,
            muted: self.muted,
            channels: self.channels,
        }
    }
}

/// Copy a list of output-device records, preserving the values exactly.
pub fn clone_sinks(v: &Vec<SinkInfo>) -> (r: Vec<SinkInfo>)
    ensures
        r@ == v@,
{
    let mut out: Vec<SinkInfo> = Vec::new();
    let n = v.len();
    let mut i: usize = 0;
    while i < n
        invariant
            n == v@.len(),
            i <= n,
            out@ =~= v@.take(i as int),
        decreases n - i,
    {
        out.push(v[i].clone_info());
        i = i + 1;
        proof {
            assert(out@ =~= v@.take(i as int));
        }
    }
    proof {
        assert(v@.take(n as int) =~= v@);
    }
    out
}

/// Copy a list of input-device records, preserving the values exactly.
pub fn clone_sources(v: &Vec<SourceInfo>) -> (r: Vec<SourceInfo>)
    ensures
        r@ == v@,
{
    let mut out: Vec<SourceInfo> = Vec::new();
    let n = v.len();
    let mut i: usize = 0;
    while i < n
        invariant
            n == v@.len(),
            i <= n,
            out@ =~= v@.take(i as int),
        decreases n - i,
    {
        out.push(v[i].clone_info());
        i = i + 1;
        proof {
            assert(out@ =~= v@.take(i as int));
        }
    }
    proof {
        assert(v@.take(n as int) =~= v@);
    }
    out
}

/// Copy a list of stream records, preserving the values exactly.
pub fn clone_sink_inputs(v: &Vec<SinkInputInfo>) -> (r: Vec<SinkInputInfo>)
    ensures
        r@ == v@,
{
    let mut out: Vec<SinkInputInfo> = Vec::new();
    let n = v.len();
    let mut i: usize = 0;
    while i < n
        invariant
            n == v@.len(),
            i <= n,
            out@ =~= v@.take(i as int),
        decreases n - i,
    {
        out.push(v[i].clone_info());
        i = i + 1;
        proof {
            assert(out@ =~= v@.take(i as int));
        }
    }
    proof {
        assert(v@.take(n as int) =~= v@);
    }
    out
}

/// Full audio-topology snapshot; replaced wholesale on each update, never
/// partially patched.
#[derive(Debug, Clone, PartialEq, Eq)]
pub struct AudioState {
    pub default_sink_name: Option<String>,
    pub default_source_name: Option<String>,
    pub sinks: Vec<SinkInfo>,
    pub sources: Vec<SourceInfo>,
    pub sink_inputs: Vec<SinkInputInfo>,
}

impl AudioState {
    /// The empty snapshot: no defaults, no devices, no streams.
    pub fn empty() -> (r: Self)
        ensures
            r.default_sink_name is None,
            r.default_source_name is None,
            r.sinks@.len() == 0,
            r.sources@.len() == 0,
            r.sink_inputs@.len() == 0,
    {
        AudioState {
            default_sink_name: None,
            default_source_name: None,
            sinks: Vec::new(),
            sources: Vec::new(),
            sink_inputs: Vec::new(),
        }
    }
}

impl Default for AudioState {
    /// Same as [`AudioState::empty`].
    fn default() -> (r: Self)
        ensures
            r.default_sink_name is None,
            r.default_source_name is None,
            r.sinks@.len() == 0,
            r.sources@.len() == 0,
            r.sink_inputs@.len() == 0,
    {
        AudioState::empty()
    }
}

/// Type of audio device (output or input).
#[derive(Debug, Clone, Copy, PartialEq, Eq, Structural)]
pub enum DeviceType {
    Output,
    Input,
}

/// Combined device info (outputs and inputs merged and tagged).
#[derive(Debug, Clone, PartialEq, Eq)]
pub struct DeviceInfo {
    pub device_type: DeviceType,
    pub index: u32,
    pub name: String,
    pub description: String,
    pub volume: Volume,
    pub muted: bool,
}

/// The hardware-to-volume curve, as one volume per possible hardware sample.
///
/// The mapping itself (a floating-point power curve) is computed outside the
/// engine; the table is sanitized on construction, so the engine only ever
/// sees 256 in-range entries.
#[derive(Debug, Clone, PartialEq, Eq)]
pub struct CurveTable {
    pub units: Vec<u32>,
}

impl CurveTable {
    /// 256 entries, each a valid volume.
    pub open spec fn wf(self) -> bool {
        self.units@.len() == 256 && forall|i: int|
            0 <= i < 256 ==> #[trigger] self.units@[i] <= VOLUME_SCALE
    }

    /// The volume the table assigns to a hardware sample.
    pub open spec fn volume_at(self, hw: u8) -> Volume {
        Volume { units: self.units@[hw as int] }
    }

    /// The linear curve: 0 maps to silence, 255 to full volume, with the
    /// units in exact proportion (truncated).
    pub fn linear() -> (r: Self)
        ensures
            r.wf(),
            forall|i: int| 0 <= i < 256 ==> #[trigger] r.units@[i] == i * VOLUME_SCALE / 255,
    {
        let mut units: Vec<u32> = Vec::new();
        let mut i: usize = 0;
        while i < 256
            invariant
                i <= 256,
                units@.len() == i,
                forall|k: int| 0 <= k < i ==> #[trigger] units@[k] == k * VOLUME_SCALE / 255,
            decreases 256 - i,
        {
            let v: u64 = (i as u64) * (VOLUME_SCALE as u64) / 255;
            proof {
                assert(i * VOLUME_SCALE / 255 <= VOLUME_SCALE) by (nonlinear_arith)
                    requires
                        0 <= i < 256,
                ;
            }
            units.push(v as u32);
            i = i + 1;
        }
        CurveTable { units }
    }

    /// An ascending sweep of the linear curve's whole input domain never
    /// decreases, and the endpoints are exact: the smallest sample maps to
    /// silence and the largest to full volume.
    pub proof fn lemma_linear_sweep_monotone(t: CurveTable, i: int, j: int)
        requires
            t.wf(),
            forall|k: int| 0 <= k < 256 ==> #[trigger] t.units@[k] == k * VOLUME_SCALE / 255,
            0 <= i <= j < 256,
        ensures
            t.units@[i] <= t.units@[j],
            t.units@[0] == 0,
            t.units@[255] == VOLUME_SCALE,
    {
        lemma_mul_inequality(i, j, VOLUME_SCALE as int);
        lemma_div_is_ordered(i * VOLUME_SCALE, j * VOLUME_SCALE, 255);
        lemma_div_by_multiple(VOLUME_SCALE as int, 255);
        assert(255 * VOLUME_SCALE == VOLUME_SCALE * 255) by (nonlinear_arith);
    }

    /// Build a table from raw entries: entries are clamped to full scale, a
    /// short table is padded with full volume, a long one truncated.
    pub fn from_units(raw: &Vec<u32>) -> (r: Self)
        ensures
            r.wf(),
            forall|i: int| 0 <= i < 256 && i < raw@.len() ==> #[trigger] r.units@[i] == (
            if raw@[i] <= VOLUME_SCALE {
                raw@[i]
            } else {
                VOLUME_SCALE
            }),
            forall|i: int| raw@.len() <= i < 256 ==> #[trigger] r.units@[i] == VOLUME_SCALE,
    {
        let mut units: Vec<u32> = Vec::new();
        let mut i: usize = 0;
        while i < 256
            invariant
                i <= 256,
                units@.len() == i,
                forall|k: int| 0 <= k < i && k < raw@.len() ==> #[trigger] units@[k] == (
                if raw@[k] <= VOLUME_SCALE {
                    raw@[k]
                } else {
                    VOLUME_SCALE
                }),
                forall|k: int| raw@.len() <= k < i ==> #[trigger] units@[k] == VOLUME_SCALE,
            decreases 256 - i,
        {
            if i < raw.len() {
                let v = raw[i];
                units.push(if v <= VOLUME_SCALE {
                    v
                } else {
                    VOLUME_SCALE
                });
            } else {
                units.push(VOLUME_SCALE);
            }
            i = i + 1;
        }
        CurveTable { units }
    }

    /// Look a hardware sample up in the table.
    pub fn volume_for(&self, hw: u8) -> (r: Volume)
        requires
            self.wf(),
        ensures
            r == self.volume_at(hw),
            r.wf(),
    {
        Volume { units: self.units[hw as usize] }
    }
}

} // verus!
