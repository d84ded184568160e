//! Device-report codec: parses raw input reports from the control surface
//! into typed events, and encodes LED/init commands into fixed-size output
//! payloads.

use vstd::prelude::*;

verus! {

/// USB vendor identifier of the control surface.
pub const VENDOR_ID: u16 = 0x0483;

/// USB product identifier of the control surface.
pub const PRODUCT_ID: u16 = 0xA3C5;

/// Report payload size in bytes (excluding the report-id byte).
pub const REPORT_SIZE: usize = 64;

/// Why an input report was rejected.
#[derive(Debug, Clone, Copy, PartialEq, Eq, Structural)]
pub enum ReportError {
    /// Fewer than 3 bytes.
    TooShort { len: usize },
    /// Analog control id above 8.
    BadAnalogId { id: u8 },
    /// Button id above 4.
    BadButtonId { id: u8 },
    /// Button state byte other than 0 or 1.
    BadButtonState { value: u8 },
    /// First byte is neither 0x01 (position) nor 0x02 (button).
    UnknownKind { kind: u8 },
}

/// Errors of the device layer.
#[derive(Debug, Clone, PartialEq, Eq)]
pub enum HidError {
    /// Device I/O failed; carries the underlying message.
    Io(String),
    /// No device with the expected identifiers was found.
    DeviceNotFound { vid: u16, pid: u16 },
    /// An input report could not be parsed.
    InvalidReport(ReportError),
    /// A write sent fewer bytes than expected.
    ShortWrite { expected: usize, actual: usize },
}

/// A parsed input event from the control surface.
#[derive(Debug, Clone, Copy, PartialEq, Eq, Structural)]
pub enum HidEvent {
    /// Knob or slider position change.
    /// `control_id`: 0-4 = knobs, 5-8 = sliders. `value`: analog position.
    Position { control_id: u8, value: u8 },
    /// Button press or release. `button_id`: 0-4 (knobs only).
    Button { button_id: u8, pressed: bool },
}

/// What parsing an input report yields, for every possible report.
pub open spec fn parse_spec(r: Seq<u8>) -> Result<HidEvent, ReportError> {
    if r.len() < 3 {
        Err(ReportError::TooShort { len: r.len() as usize })
    } else if r[0] == 0x01 {
        if r[1] > 8 {
            Err(ReportError::BadAnalogId { id: r[1] })
        } else {
            Ok(HidEvent::Position { control_id: r[1], value: r[2] })
        }
    } else if r[0] == 0x02 {
        if r[1] > 4 {
            Err(ReportError::BadButtonId { id: r[1] })
        } else if r[2] == 0 {
            Ok(HidEvent::Button { button_id: r[1], pressed: false })
        } else if r[2] == 1 {
            Ok(HidEvent::Button { button_id: r[1], pressed: true })
        } else {
            Err(ReportError::BadButtonState { value: r[2] })
        }
    } else {
        Err(ReportError::UnknownKind { kind: r[0] })
    }
}

impl HidEvent {
    /// Parse a raw input report (without the report-id byte, which the kernel
    /// strips on reads) into an event. Expects at least 3 bytes
    /// `[kind, id, value]`; rejects out-of-range ids, button states other
    /// than 0/1, and unknown kinds.
    pub fn parse(report: &[u8]) -> (res: Result<Self, HidError>)
        ensures
            res == match parse_spec(report@) {
                Ok(e) => Result::<HidEvent, HidError>::Ok(e),
                Err(e) => Result::<HidEvent, HidError>::Err(HidError::InvalidReport(e)),
            },
    {
        if report.len() < 3 {
            return Err(HidError::InvalidReport(ReportError::TooShort { len: report.len() }));
        }
        let kind = report[0];
        if kind == 0x01 {
            let control_id = report[1];
            if control_id > 8 {
                Err(HidError::InvalidReport(ReportError::BadAnalogId { id: control_id }))
            } else {
                Ok(HidEvent::Position { control_id, value: report[2] })
            }
        } else if kind == 0x02 {
            let button_id = report[1];
            if button_id > 4 {
                return Err(HidError::InvalidReport(ReportError::BadButtonId { id: button_id }));
            }
            let state = report[2];
            if state == 0 {
                Ok(HidEvent::Button { button_id, pressed: false })
            } else if state == 1 {
                Ok(HidEvent::Button { button_id, pressed: true })
            } else {
                Err(HidError::InvalidReport(ReportError::BadButtonState { value: state }))
            }
        } else {
            Err(HidError::InvalidReport(ReportError::UnknownKind { kind }))
        }
    }
}

/// LED mode for a single element (knob ring or slider).
#[derive(Debug, Clone, Copy, PartialEq, Eq, Structural)]
pub enum LedMode {
    Off,
    Static,
    Gradient,
    VolumeGradient,
}

/// The wire byte of an LED mode.
pub open spec fn led_mode_byte(m: LedMode) -> u8 {
    match m {
        LedMode::Off => 0,
        LedMode::Static => 1,
        LedMode::Gradient => 2,
        LedMode::VolumeGradient => 3,
    }
}

/// The LED mode a wire byte decodes to (anything above 3 falls back to Off).
pub open spec fn led_mode_of_byte(b: u8) -> LedMode {
    if b == 1 {
        LedMode::Static
    } else if b == 2 {
        LedMode::Gradient
    } else if b == 3 {
        LedMode::VolumeGradient
    } else {
        LedMode::Off
    }
}

/// LED configuration for a single element (one 7-byte slot on the wire:
/// mode byte plus two RGB triples for gradient modes).
#[derive(Debug, Clone, Copy, PartialEq, Eq, Structural)]
pub struct LedSlot {
    pub mode: LedMode,
    pub r1: u8,
    pub g1: u8,
    pub b1: u8,
    pub r2: u8,
    pub g2: u8,
    pub b2: u8,
}

/// The 7 wire bytes of an LED slot.
pub open spec fn slot_bytes(s: LedSlot) -> Seq<u8> {
    seq![led_mode_byte(s.mode), s.r1, s.g1, s.b1, s.r2, s.g2, s.b2]
}

/// The LED slot that 7 wire bytes decode to.
pub open spec fn slot_of_bytes(b: Seq<u8>) -> LedSlot {
    LedSlot {
        mode: led_mode_of_byte(b[0]),
        r1: b[1],
        g1: b[2],
        b1: b[3],
        r2: b[4],
        g2: b[5],
        b2: b[6],
    }
}

impl LedSlot {
    /// The slot that produces no visible light.
    ///
    /// Uses `LedMode::Static` with black `(0,0,0)` rather than `LedMode::Off`
    /// because the device firmware treats mode byte `0x00` as "no change,"
    /// not "off" — so a decoded mode byte 0 must never be read as visibly off.
    pub fn off() -> (r: Self)
        ensures
            r == (LedSlot { mode: LedMode::Static, r1: 0, g1: 0, b1: 0, r2: 0, g2: 0, b2: 0 }),
    {
        LedSlot { mode: LedMode::Static, r1: 0, g1: 0, b1: 0, r2: 0, g2: 0, b2: 0 }
    }

    /// A solid-color slot.
    pub fn static_color(r: u8, g: u8, b: u8) -> (res: Self)
        ensures
            res == (LedSlot { mode: LedMode::Static, r1: r, g1: g, b1: b, r2: 0, g2: 0, b2: 0 }),
    {
        LedSlot { mode: LedMode::Static, r1: r, g1: g, b1: b, r2: 0, g2: 0, b2: 0 }
    }

    /// Write this slot's 7 wire bytes into `buf` at `offset`, leaving every
    /// other byte unchanged.
    pub fn encode_to(&self, buf: &mut [u8; REPORT_SIZE], offset: usize)
        requires
            offset + 7 <= REPORT_SIZE,
        ensures
            final(buf)@.len() == REPORT_SIZE,
            final(buf)@.subrange(offset as int, offset + 7) =~= slot_bytes(*self),
            forall|j: int| 0 <= j < REPORT_SIZE && !(offset <= j < offset + 7)
                ==> final(buf)@[j] == old(buf)@[j],
    {
        let mode_byte: u8 = match self.mode {
            LedMode::Off => 0,
            LedMode::Static => 1,
            LedMode::Gradient => 2,
            LedMode::VolumeGradient => 3,
        };
        buf[offset] = mode_byte;
        buf[offset + 1] = self.r1;
        buf[offset + 2] = self.g1;
        buf[offset + 3] = self.b1;
        buf[offset + 4] = self.r2;
        buf[offset + 5] = self.g2;
        buf[offset + 6] = self.b2;
    }

    /// Read the slot encoded at `offset` in `buf`.
    pub fn decode_from(buf: &[u8; REPORT_SIZE], offset: usize) -> (r: Self)
        requires
            offset + 7 <= REPORT_SIZE,
        ensures
            r == slot_of_bytes(buf@.subrange(offset as int, offset + 7)),
    {
        let mode = match buf[offset] {
            1 => LedMode::Static,
            2 => LedMode::Gradient,
            3 => LedMode::VolumeGradient,
            _ => LedMode::Off,
        };
        LedSlot {
            mode,
            r1: buf[offset + 1],
            g1: buf[offset + 2],
            b1: buf[offset + 3],
            r2: buf[offset + 4],
            g2: buf[offset + 5],
            b2: buf[offset + 6],
        }
    }
}

/// Logo LED mode.
#[derive(Debug, Clone, Copy, PartialEq, Eq, Structural)]
pub enum LogoMode {
    Off,
    Static,
    Rainbow,
    Breathing,
}

/// The wire byte of a logo mode.
pub open spec fn logo_mode_byte(m: LogoMode) -> u8 {
    match m {
        LogoMode::Off => 0,
        LogoMode::Static => 1,
        LogoMode::Rainbow => 2,
        LogoMode::Breathing => 3,
    }
}

/// Commands to send to the control surface.
#[derive(Debug, Clone, PartialEq, Eq)]
pub enum HidCommand {
    /// The init packet.
    Init,
    /// LED configuration for all 5 knob rings.
    SetKnobLeds([LedSlot; 5]),
    /// LED configuration for all 4 slider labels.
    SetSliderLabelLeds([LedSlot; 4]),
    /// LED configuration for all 4 sliders.
    SetSliderLeds([LedSlot; 4]),
    /// Logo LED configuration.
    SetLogo { mode: LogoMode, r: u8, g: u8, b: u8, speed: u8 },
}

/// The concatenated wire bytes of a sequence of LED slots.
pub open spec fn slots_flat(slots: Seq<LedSlot>) -> Seq<u8>
    decreases slots.len(),
{
    if slots.len() == 0 {
        Seq::empty()
    } else {
        slot_bytes(slots[0]) + slots_flat(slots.drop_first())
    }
}

/// A prefix zero-padded to the full report size.
pub open spec fn pad_report(prefix: Seq<u8>) -> Seq<u8> {
    prefix + Seq::new((REPORT_SIZE - prefix.len()) as nat, |i: int| 0u8)
}

/// The full 64-byte payload of a command.
pub open spec fn encode_spec(c: HidCommand) -> Seq<u8> {
    match c {
        HidCommand::Init => pad_report(seq![0x01u8]),
        HidCommand::SetKnobLeds(slots) => pad_report(seq![0x05u8, 0x02u8] + slots_flat(slots@)),
        HidCommand::SetSliderLabelLeds(slots) => pad_report(
            seq![0x05u8, 0x01u8] + slots_flat(slots@),
        ),
        HidCommand::SetSliderLeds(slots) => pad_report(seq![0x05u8, 0x00u8] + slots_flat(slots@)),
        HidCommand::SetLogo { mode, r, g, b, speed } => pad_report(
            seq![0x05u8, 0x03u8, logo_mode_byte(mode), r, g, b, speed],
        ),
    }
}

/// `slots_flat` of one more slot appends that slot's bytes.
proof fn lemma_slots_flat_snoc(slots: Seq<LedSlot>, n: int)
    requires
        0 <= n < slots.len(),
    ensures
        slots_flat(slots.take(n + 1)) =~= slots_flat(slots.take(n)) + slot_bytes(slots[n]),
    decreases n,
{
    if n == 0 {
        assert(slots.take(1) =~= seq![slots[0]]);
        assert(slots.take(1).drop_first() =~= Seq::<LedSlot>::empty());
        assert(slots.take(0) =~= Seq::<LedSlot>::empty());
    } else {
        let t1 = slots.take(n + 1);
        let t0 = slots.take(n);
        assert(t1[0] == slots[0]);
        assert(t0[0] == slots[0]);
        lemma_slots_flat_snoc(slots.drop_first(), n - 1);
        assert(t1.drop_first() =~= slots.drop_first().take(n));
        assert(t0.drop_first() =~= slots.drop_first().take(n - 1));
        assert(slots.drop_first()[n - 1] == slots[n]);
        assert(slots_flat(t1) == slot_bytes(slots[0]) + slots_flat(slots.drop_first().take(n)));
        assert(slots_flat(t0) == slot_bytes(slots[0]) + slots_flat(
            slots.drop_first().take(n - 1),
        ));
    }
}

/// `slots_flat` is 7 bytes per slot.
proof fn lemma_slots_flat_len(slots: Seq<LedSlot>)
    ensures
        slots_flat(slots).len() == 7 * slots.len(),
    decreases slots.len(),
{
    if slots.len() > 0 {
        lemma_slots_flat_len(slots.drop_first());
    }
}

/// Write `slots` as consecutive 7-byte groups starting at byte 2 of `buf`.
fn encode_slots_to(buf: &mut [u8; REPORT_SIZE], slots: &[LedSlot])
    requires
        2 + 7 * slice_len(slots) <= REPORT_SIZE,
    ensures
        final(buf)@.len() == REPORT_SIZE,
        final(buf)@.subrange(2, 2 + 7 * slots@.len() as int) =~= slots_flat(slots@),
        forall|j: int| 0 <= j < REPORT_SIZE && !(2 <= j < 2 + 7 * slots@.len() as int)
            ==> final(buf)@[j] == old(buf)@[j],
{
    proof {
        lemma_slots_flat_len(slots@);
        assert(slots_flat(slots@.take(0)) =~= Seq::<u8>::empty());
    }
    let n = slots.len();
    for i in 0..n
        invariant
            n == slots@.len(),
            2 + 7 * n <= REPORT_SIZE,
            buf@.len() == REPORT_SIZE,
            buf@.subrange(2, 2 + 7 * i) =~= slots_flat(slots@.take(i as int)),
            forall|j: int| 0 <= j < REPORT_SIZE && !(2 <= j < 2 + 7 * i)
                ==> buf@[j] == old(buf)@[j],
    {
        let ghost pre = buf@;
        slots[i].encode_to(buf, 2 + 7 * i);
        proof {
            lemma_slots_flat_snoc(slots@, i as int);
            lemma_slots_flat_len(slots@.take(i as int));
            lemma_slots_flat_len(slots@.take(i + 1 as int));
            assert(buf@.subrange(2, 2 + 7 * (i + 1)) =~= buf@.subrange(2, 2 + 7 * i) + buf@
                .subrange(2 + 7 * i, 2 + 7 * i + 7));
            assert(buf@.subrange(2, 2 + 7 * i) =~= pre.subrange(2, 2 + 7 * i));
        }
    }
    proof {
        assert(slots@.take(n as int) =~= slots@);
    }
}

/// Spec-level length of a slice (for use in `requires`).
pub open spec fn slice_len(s: &[LedSlot]) -> int {
    s@.len() as int
}

impl HidCommand {
    /// Encode this command into a 64-byte payload (excluding the report-id
    /// byte, which the transport prepends).
    pub fn encode(&self) -> (r: [u8; REPORT_SIZE])
        ensures
            r@ =~= encode_spec(*self),
    {
        let mut buf = [0u8; REPORT_SIZE];
        proof {
            assert(buf@ =~= Seq::new(REPORT_SIZE as nat, |i: int| 0u8));
        }
        match self {
            HidCommand::Init => {
                buf[0] = 0x01;
            },
            HidCommand::SetKnobLeds(slots) => {
                buf[0] = 0x05;
                buf[1] = 0x02;
                encode_slots_to(&mut buf, slots.as_slice());
                proof {
                    lemma_slots_flat_len(slots@);
                }
            },
            HidCommand::SetSliderLabelLeds(slots) => {
                buf[0] = 0x05;
                buf[1] = 0x01;
                encode_slots_to(&mut buf, slots.as_slice());
                proof {
                    lemma_slots_flat_len(slots@);
                }
            },
            HidCommand::SetSliderLeds(slots) => {
                buf[0] = 0x05;
                buf[1] = 0x00;
                encode_slots_to(&mut buf, slots.as_slice());
                proof {
                    lemma_slots_flat_len(slots@);
                }
            },
            HidCommand::SetLogo { mode, r, g, b, speed } => {
                let mode_byte: u8 = match mode {
                    LogoMode::Off => 0,
                    LogoMode::Static => 1,
                    LogoMode::Rainbow => 2,
                    LogoMode::Breathing => 3,
                };
                buf[0] = 0x05;
                buf[1] = 0x03;
                buf[2] = mode_byte;
                buf[3] = *r;
                buf[4] = *g;
                buf[5] = *b;
                buf[6] = *speed;
            },
        }
        buf
    }

    /// The 4-command sequence that blanks every LED zone: knobs, slider
    /// labels, sliders, and the logo (off is encoded as static black, see
    /// [`LedSlot::off`]).
    pub fn all_off_sequence() -> (r: Vec<HidCommand>)
        ensures
            r@.len() == 4,
            r@[0] == HidCommand::SetKnobLeds(
                [LedSlot::off_spec(), LedSlot::off_spec(), LedSlot::off_spec(), LedSlot::off_spec(),
                    LedSlot::off_spec()],
            ),
            r@[1] == HidCommand::SetSliderLabelLeds(
                [LedSlot::off_spec(), LedSlot::off_spec(), LedSlot::off_spec(), LedSlot::off_spec()],
            ),
            r@[2] == HidCommand::SetSliderLeds(
                [LedSlot::off_spec(), LedSlot::off_spec(), LedSlot::off_spec(), LedSlot::off_spec()],
            ),
            r@[3] == (HidCommand::SetLogo { mode: LogoMode::Static, r: 0, g: 0, b: 0, speed: 0 }),
    {
        let off = LedSlot::off();
        let mut v: Vec<HidCommand> = Vec::new();
        v.push(HidCommand::SetKnobLeds([off, off, off, off, off]));
        v.push(HidCommand::SetSliderLabelLeds([off, off, off, off]));
        v.push(HidCommand::SetSliderLeds([off, off, off, off]));
        v.push(HidCommand::SetLogo { mode: LogoMode::Static, r: 0, g: 0, b: 0, speed: 0 });
        v
    }
}

impl LedSlot {
    /// The value of [`LedSlot::off`], for use in contracts.
    pub open spec fn off_spec() -> LedSlot {
        LedSlot { mode: LedMode::Static, r1: 0, g1: 0, b1: 0, r2: 0, g2: 0, b2: 0 }
    }
}

/// Decode a knob-LED command payload back into its 5 LED slots.
/// Returns `None` unless the payload starts with `[0x05, 0x02]`.
pub fn decode_knob_leds(payload: &[u8; REPORT_SIZE]) -> (r: Option<[LedSlot; 5]>)
    ensures
        (payload@[0] == 0x05 && payload@[1] == 0x02) <==> r is Some,
        r matches Some(slots) ==> forall|i: int| 0 <= i < 5
            ==> slots@[i] == slot_of_bytes(payload@.subrange(2 + 7 * i, 2 + 7 * i + 7)),
{
    if payload[0] != 0x05 || payload[1] != 0x02 {
        return None;
    }
    let s0 = LedSlot::decode_from(payload, 2);
    let s1 = LedSlot::decode_from(payload, 9);
    let s2 = LedSlot::decode_from(payload, 16);
    let s3 = LedSlot::decode_from(payload, 23);
    let s4 = LedSlot::decode_from(payload, 30);
    Some([s0, s1, s2, s3, s4])
}

/// Decode a slider-LED command payload back into its 4 LED slots.
/// Returns `None` unless the payload starts with `[0x05, 0x00]`.
pub fn decode_slider_leds(payload: &[u8; REPORT_SIZE]) -> (r: Option<[LedSlot; 4]>)
    ensures
        (payload@[0] == 0x05 && payload@[1] == 0x00) <==> r is Some,
        r matches Some(slots) ==> forall|i: int| 0 <= i < 4
            ==> slots@[i] == slot_of_bytes(payload@.subrange(2 + 7 * i, 2 + 7 * i + 7)),
{
    if payload[0] != 0x05 || payload[1] != 0x00 {
        return None;
    }
    let s0 = LedSlot::decode_from(payload, 2);
    let s1 = LedSlot::decode_from(payload, 9);
    let s2 = LedSlot::decode_from(payload, 16);
    let s3 = LedSlot::decode_from(payload, 23);
    Some([s0, s1, s2, s3])
}

/// Decoding a slot's own wire bytes gives the slot back.
proof fn lemma_slot_round_trip(s: LedSlot)
    ensures
        slot_of_bytes(slot_bytes(s)) == s,
{
}

/// LED command encoding round-trips: decoding the encoded payload of a
/// knob-LED command yields exactly the slots that were encoded.
pub proof fn lemma_knob_leds_round_trip(slots: [LedSlot; 5])
    ensures
        ({
            let payload = encode_spec(HidCommand::SetKnobLeds(slots));
            &&& payload[0] == 0x05
            &&& payload[1] == 0x02
            &&& forall|i: int| 0 <= i < 5
                ==> slot_of_bytes(payload.subrange(2 + 7 * i, 2 + 7 * i + 7)) == slots@[i]
        }),
{
    let payload = encode_spec(HidCommand::SetKnobLeds(slots));
    lemma_slots_flat_len(slots@);
    assert forall|i: int| 0 <= i < 5 implies slot_of_bytes(
        payload.subrange(2 + 7 * i, 2 + 7 * i + 7),
    ) == slots@[i] by {
        lemma_slots_flat_index(slots@, i);
        assert(payload.subrange(2 + 7 * i, 2 + 7 * i + 7) =~= slot_bytes(slots@[i]));
        lemma_slot_round_trip(slots@[i]);
    }
}

/// LED command encoding round-trips for the slider zone as well.
pub proof fn lemma_slider_leds_round_trip(slots: [LedSlot; 4])
    ensures
        ({
            let payload = encode_spec(HidCommand::SetSliderLeds(slots));
            &&& payload[0] == 0x05
            &&& payload[1] == 0x00
            &&& forall|i: int| 0 <= i < 4
                ==> slot_of_bytes(payload.subrange(2 + 7 * i, 2 + 7 * i + 7)) == slots@[i]
        }),
{
    let payload = encode_spec(HidCommand::SetSliderLeds(slots));
    lemma_slots_flat_len(slots@);
    assert forall|i: int| 0 <= i < 4 implies slot_of_bytes(
        payload.subrange(2 + 7 * i, 2 + 7 * i + 7),
    ) == slots@[i] by {
        lemma_slots_flat_index(slots@, i);
        assert(payload.subrange(2 + 7 * i, 2 + 7 * i + 7) =~= slot_bytes(slots@[i]));
        lemma_slot_round_trip(slots@[i]);
    }
}

/// The bytes of slot `i` within `slots_flat` are that slot's own bytes.
proof fn lemma_slots_flat_index(slots: Seq<LedSlot>, i: int)
    requires
        0 <= i < slots.len(),
    ensures
        slots_flat(slots).subrange(7 * i, 7 * i + 7) =~= slot_bytes(slots[i]),
    decreases i,
{
    lemma_slots_flat_len(slots);
    lemma_slots_flat_len(slots.drop_first());
    if i == 0 {
    } else {
        lemma_slots_flat_index(slots.drop_first(), i - 1);
        assert(slots.drop_first()[i - 1] == slots[i]);
        assert(slots_flat(slots).subrange(7 * i, 7 * i + 7) =~= slots_flat(
            slots.drop_first(),
        ).subrange(7 * (i - 1), 7 * (i - 1) + 7));
    }
}

} // verus!

