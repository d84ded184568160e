//! Identity of the physical controls: five knobs (each with a dial and a
//! push-button) and four sliders (dial only).

use vstd::prelude::*;

verus! {

use vstd::string::{StrSliceExecFns, StringExecFns};

use crate::text::str_eq;

/// Number of knobs on the panel.
pub const NUM_KNOBS: u8 = 5;

/// Number of sliders on the panel.
pub const NUM_SLIDERS: u8 = 4;

/// Total number of analog controls (knobs first, then sliders).
pub const NUM_ANALOG: u8 = 9;

/// Identifies a physical control on the panel.
///
/// Knobs 0-4 (rotary encoders with buttons), sliders 0-3 (linear faders).
#[derive(Debug, Clone, Copy, PartialEq, Eq, Structural)]
pub enum ControlId {
    Knob(u8),
    Slider(u8),
}

impl ControlId {
    /// A control identifier is well formed when its index is in range for
    /// its kind.
    pub open spec fn wf(self) -> bool {
        match self {
            ControlId::Knob(n) => n < NUM_KNOBS,
            ControlId::Slider(n) => n < NUM_SLIDERS,
        }
    }

    /// The analog index of a well-formed control: knobs 0-4, sliders 5-8.
    pub open spec fn analog_id(self) -> u8 {
        match self {
            ControlId::Knob(n) => n,
            ControlId::Slider(n) => (NUM_KNOBS + n) as u8,
        }
    }

    /// Convert an analog control index (0-8) to a `ControlId`.
    /// Indices 0-4 are knobs, 5-8 are sliders; anything larger is rejected.
    pub fn from_analog_id(id: u8) -> (r: Option<Self>)
        ensures
            id < NUM_KNOBS ==> r == Some(ControlId::Knob(id)),
            NUM_KNOBS <= id < NUM_ANALOG ==> r == Some(ControlId::Slider((id - NUM_KNOBS) as u8)),
            id >= NUM_ANALOG ==> r is None,
            r is Some ==> r->0.wf() && r->0.analog_id() == id,
    {
        if id < NUM_KNOBS {
            Some(ControlId::Knob(id))
        } else if id < NUM_ANALOG {
            Some(ControlId::Slider(id - NUM_KNOBS))
        } else {
            None
        }
    }

    /// Convert back to an analog control index (0-8).
    pub fn to_analog_id(self) -> (r: u8)
        requires
            self.wf(),
        ensures
            r == self.analog_id(),
            r < NUM_ANALOG,
    {
        match self {
            ControlId::Knob(n) => n,
            ControlId::Slider(n) => NUM_KNOBS + n,
        }
    }

    /// Convert a button index (0-4) to a `ControlId`. Only knobs have buttons.
    pub fn from_button_id(id: u8) -> (r: Option<Self>)
        ensures
            id < NUM_KNOBS ==> r == Some(ControlId::Knob(id)),
            id >= NUM_KNOBS ==> r is None,
            r is Some ==> r->0.wf(),
    {
        if id < NUM_KNOBS {
            Some(ControlId::Knob(id))
        } else {
            None
        }
    }

    /// Is the index in range for this control's kind?
    pub fn is_wf(&self) -> (r: bool)
        ensures
            r == self.wf(),
    {
        match self {
            ControlId::Knob(n) => *n < NUM_KNOBS,
            ControlId::Slider(n) => *n < NUM_SLIDERS,
        }
    }

    /// Returns true if this control is a knob (has both dial and button).
    pub fn is_knob(self) -> (r: bool)
        ensures
            r == (self is Knob),
    {
        matches!(self, ControlId::Knob(_))
    }

    /// Returns true if this control is a slider (analog only).
    pub fn is_slider(self) -> (r: bool)
        ensures
            r == (self is Slider),
    {
        matches!(self, ControlId::Slider(_))
    }
}

/// Round trip through the analog index: every well-formed control maps to an
/// in-range index, and that index maps back to the same control.
pub proof fn lemma_analog_id_round_trip(c: ControlId)
    requires
        c.wf(),
    ensures
        c.analog_id() < NUM_ANALOG,
        c is Knob ==> c.analog_id() < NUM_KNOBS && c == ControlId::Knob(c.analog_id()),
        c is Slider ==> NUM_KNOBS <= c.analog_id()
            && c == ControlId::Slider((c.analog_id() - NUM_KNOBS) as u8),
{
}

/// The digit character of a one-digit number.
pub open spec fn digit_for(n: u8) -> char {
    if n == 1 {
        '1'
    } else if n == 2 {
        '2'
    } else if n == 3 {
        '3'
    } else if n == 4 {
        '4'
    } else if n == 5 {
        '5'
    } else if n == 6 {
        '6'
    } else if n == 7 {
        '7'
    } else if n == 8 {
        '8'
    } else if n == 9 {
        '9'
    } else {
        '0'
    }
}

/// The human-readable key of a control: 1-based, `knob1`..`knob5` and
/// `slider1`..`slider4`.
pub open spec fn config_key_spec(c: ControlId) -> Seq<char> {
    match c {
        ControlId::Knob(n) => seq!['k', 'n', 'o', 'b', digit_for((n + 1) as u8)],
        ControlId::Slider(n) => seq!['s', 'l', 'i', 'd', 'e', 'r', digit_for((n + 1) as u8)],
    }
}

/// Does `s` start with `pre`?
pub open spec fn starts_with(s: Seq<char>, pre: Seq<char>) -> bool {
    s.len() >= pre.len() && s.take(pre.len() as int) == pre
}

/// What parsing a human-readable control key yields: `knob1`..`knob5` and
/// `slider1`..`slider4` (1-based), everything else rejected.
pub open spec fn from_config_key_spec(s: Seq<char>) -> Option<ControlId> {
    if starts_with(s, seq!['k', 'n', 'o', 'b']) {
        match crate::text::parse_u8_spec(s.skip(4)) {
            Some(n) => if 1 <= n <= NUM_KNOBS {
                Some(ControlId::Knob((n - 1) as u8))
            } else {
                None
            },
            None => None,
        }
    } else if starts_with(s, seq!['s', 'l', 'i', 'd', 'e', 'r']) {
        match crate::text::parse_u8_spec(s.skip(6)) {
            Some(n) => if 1 <= n <= NUM_SLIDERS {
                Some(ControlId::Slider((n - 1) as u8))
            } else {
                None
            },
            None => None,
        }
    } else {
        None
    }
}

/// Does `s` (of length `n`) start with `pre` (of length `m`)?
fn starts_with_exec(s: &str, n: usize, pre: &str, m: usize) -> (r: bool)
    requires
        n == s@.len(),
        m == pre@.len(),
    ensures
        r == starts_with(s@, pre@),
{
    if m > n {
        return false;
    }
    let mut j: usize = 0;
    while j < m
        invariant
            m <= n,
            n == s@.len(),
            m == pre@.len(),
            j <= m,
            forall|k: int| 0 <= k < j ==> s@[k] == pre@[k],
        decreases m - j,
    {
        if s.get_char(j) != pre.get_char(j) {
            proof {
                assert(s@.take(m as int)[j as int] != pre@[j as int]);
            }
            return false;
        }
        j = j + 1;
    }
    proof {
        assert(s@.take(m as int) =~= pre@);
    }
    true
}

impl ControlId {
    /// The configuration key name of this control (`"knob1"`, `"slider2"`,
    /// ...), 1-based for human readability.
    pub fn config_key(&self) -> (r: String)
        requires
            self.wf(),
        ensures
            r@ == config_key_spec(*self),
    {
        let r: String = match self {
            ControlId::Knob(n) => {
                if *n == 0 {
                    "knob1".to_owned()
                } else if *n == 1 {
                    "knob2".to_owned()
                } else if *n == 2 {
                    "knob3".to_owned()
                } else if *n == 3 {
                    "knob4".to_owned()
                } else {
                    "knob5".to_owned()
                }
            },
            ControlId::Slider(n) => {
                if *n == 0 {
                    "slider1".to_owned()
                } else if *n == 1 {
                    "slider2".to_owned()
                } else if *n == 2 {
                    "slider3".to_owned()
                } else {
                    "slider4".to_owned()
                }
            },
        };
        proof {
            reveal_strlit("knob1");
            reveal_strlit("knob2");
            reveal_strlit("knob3");
            reveal_strlit("knob4");
            reveal_strlit("knob5");
            reveal_strlit("slider1");
            reveal_strlit("slider2");
            reveal_strlit("slider3");
            reveal_strlit("slider4");
            assert(r@ =~= config_key_spec(*self));
        }
        r
    }

    /// Parse a configuration key name back to a control, with strict range
    /// validation: only `knob1`..`knob5` and `slider1`..`slider4` match.
    pub fn from_config_key(key: &str) -> (r: Option<Self>)
        ensures
            r == from_config_key_spec(key@),
            r matches Some(c) ==> c.wf(),
    {
        let n = key.unicode_len();
        proof {
            reveal_strlit("knob");
            reveal_strlit("slider");
            assert("knob"@ =~= seq!['k', 'n', 'o', 'b']);
            assert("slider"@ =~= seq!['s', 'l', 'i', 'd', 'e', 'r']);
        }
        if starts_with_exec(key, n, "knob", 4) {
            match crate::text::parse_u8_from(key, 4) {
                Some(num) => {
                    if 1 <= num && num <= NUM_KNOBS {
                        Some(ControlId::Knob(num - 1))
                    } else {
                        None
                    }
                },
                None => None,
            }
        } else if starts_with_exec(key, n, "slider", 6) {
            match crate::text::parse_u8_from(key, 6) {
                Some(num) => {
                    if 1 <= num && num <= NUM_SLIDERS {
                        Some(ControlId::Slider(num - 1))
                    } else {
                        None
                    }
                },
                None => None,
            }
        } else {
            None
        }
    }
}

/// Matches application audio streams by application properties.
///
/// When multiple fields are set, ALL must match (AND logic). Each field uses
/// case-insensitive substring matching. An empty matcher matches nothing.
#[derive(Debug, Clone, PartialEq, Eq)]
pub struct AppMatcher {
    /// Matched against the stream's process binary name.
    pub binary: Option<String>,
    /// Matched against the stream's application name.
    pub name: Option<String>,
    /// Matched against the stream's sandboxed-application id.
    pub flatpak_id: Option<String>,
}

/// Properties of an application audio stream used for matching.
#[derive(Debug, Clone, PartialEq, Eq)]
pub struct AppProperties {
    pub binary: Option<String>,
    pub name: Option<String>,
    pub flatpak_id: Option<String>,
}

/// One matcher field against one property: a set field must be a
/// case-insensitive substring of a present property; an unset field is
/// always satisfied.
pub open spec fn field_matches(pattern: Option<String>, value: Option<String>) -> bool {
    match pattern {
        Some(p) => match value {
            Some(v) => crate::text::contains_seq(
                crate::text::lower_of(v@),
                crate::text::lower_of(p@),
            ),
            None => false,
        },
        None => true,
    }
}

/// The full matcher semantics: at least one field set, and every set field
/// satisfied.
pub open spec fn matches_spec(m: AppMatcher, p: AppProperties) -> bool {
    &&& m.is_valid_spec()
    &&& field_matches(m.binary, p.binary)
    &&& field_matches(m.name, p.name)
    &&& field_matches(m.flatpak_id, p.flatpak_id)
}

/// One matcher field against one property value.
fn check_field(pattern: &Option<String>, value: &Option<String>) -> (r: bool)
    ensures
        r == field_matches(*pattern, *value),
{
    match pattern {
        Some(p) => match value {
            Some(v) => {
                let lv = crate::text::lowercase(v.as_str());
                let lp = crate::text::lowercase(p.as_str());
                crate::text::contains_str(lv.as_str(), lp.as_str())
            },
            None => false,
        },
        None => true,
    }
}

impl AppMatcher {
    /// At least one field is set.
    pub open spec fn is_valid_spec(self) -> bool {
        self.binary is Some || self.name is Some || self.flatpak_id is Some
    }

    /// Returns true if this matcher has at least one field set.
    pub fn is_valid(&self) -> (r: bool)
        ensures
            r == self.is_valid_spec(),
    {
        self.binary.is_some() || self.name.is_some() || self.flatpak_id.is_some()
    }

    /// Check whether a stream's properties satisfy this matcher: every set
    /// field must be a case-insensitive substring of the corresponding
    /// property, and an empty matcher matches nothing.
    pub fn matches(&self, props: &AppProperties) -> (r: bool)
        ensures
            r == matches_spec(*self, *props),
    {
        if !self.is_valid() {
            return false;
        }
        check_field(&self.binary, &props.binary) && check_field(&self.name, &props.name)
            && check_field(&self.flatpak_id, &props.flatpak_id)
    }
}

impl Default for AppMatcher {
    /// The empty matcher (matches nothing).
    fn default() -> (r: Self)
        ensures
            r.binary is None,
            r.name is None,
            r.flatpak_id is None,
    {
        AppMatcher { binary: None, name: None, flatpak_id: None }
    }
}

impl Default for AppProperties {
    /// All properties absent.
    fn default() -> (r: Self)
        ensures
            r.binary is None,
            r.name is None,
            r.flatpak_id is None,
    {
        AppProperties { binary: None, name: None, flatpak_id: None }
    }
}

/// An empty matcher never matches any properties; a matcher with only one
/// field set matches exactly when that field's pattern is a case-insensitive
/// substring of the corresponding property (a missing property never
/// matches), the other fields being ignored.
pub proof fn lemma_matcher_fields(p: AppProperties, pat: String)
    ensures
        !matches_spec(AppMatcher { binary: None, name: None, flatpak_id: None }, p),
        matches_spec(AppMatcher { binary: Some(pat), name: None, flatpak_id: None }, p) <==> (
        p.binary matches Some(v) && crate::text::contains_seq(
            crate::text::lower_of(v@),
            crate::text::lower_of(pat@),
        )),
        matches_spec(AppMatcher { binary: None, name: Some(pat), flatpak_id: None }, p) <==> (
        p.name matches Some(v) && crate::text::contains_seq(
            crate::text::lower_of(v@),
            crate::text::lower_of(pat@),
        )),
        matches_spec(AppMatcher { binary: None, name: None, flatpak_id: Some(pat) }, p) <==> (
        p.flatpak_id matches Some(v) && crate::text::contains_seq(
            crate::text::lower_of(v@),
            crate::text::lower_of(pat@),
        )),
{
}

/// The target for a volume/mute action.
#[derive(Debug, Clone, PartialEq, Eq)]
pub enum AudioTarget {
    /// The default audio output device.
    DefaultOutput,
    /// The default audio input device.
    DefaultInput,
    /// Every application stream matched by properties.
    App { matcher: AppMatcher },
    /// The currently focused window's application streams.
    FocusedApp,
}

/// Action for a dial (knob rotation or slider movement).
#[derive(Debug, Clone, PartialEq, Eq)]
pub enum DialAction {
    Volume { target: AudioTarget },
}

/// A media-transport command.
#[derive(Debug, Clone, Copy, PartialEq, Eq, Structural)]
pub enum MediaCommand {
    PlayPause,
    Play,
    Pause,
    Next,
    Previous,
    Stop,
}

/// The transport method name of a media command.
pub open spec fn method_name_spec(c: MediaCommand) -> Seq<char> {
    match c {
        MediaCommand::PlayPause => "PlayPause"@,
        MediaCommand::Play => "Play"@,
        MediaCommand::Pause => "Pause"@,
        MediaCommand::Next => "Next"@,
        MediaCommand::Previous => "Previous"@,
        MediaCommand::Stop => "Stop"@,
    }
}

impl MediaCommand {
    /// The method name this command maps to on a media player's transport
    /// interface.
    pub fn method_name(self) -> (r: &'static str)
        ensures
            r@ == method_name_spec(self),
    {
        match self {
            MediaCommand::PlayPause => "PlayPause",
            MediaCommand::Play => "Play",
            MediaCommand::Pause => "Pause",
            MediaCommand::Next => "Next",
            MediaCommand::Previous => "Previous",
            MediaCommand::Stop => "Stop",
        }
    }
}

/// Action for a button press.
#[derive(Debug, Clone, PartialEq, Eq)]
pub enum ButtonAction {
    Mute { target: AudioTarget },
    Media { command: MediaCommand },
    Exec { command: String },
}

/// Configuration for a single physical control; either action may be absent.
#[derive(Debug, Clone, PartialEq, Eq)]
pub struct ControlConfig {
    pub dial: Option<DialAction>,
    pub button: Option<ButtonAction>,
}

impl Default for ControlConfig {
    /// No dial action and no button action.
    fn default() -> (r: Self)
        ensures
            r.dial is None,
            r.button is None,
    {
        ControlConfig { dial: None, button: None }
    }
}

/// The separator between rendered matcher fields.
pub open spec fn desc_sep() -> Seq<char> {
    ", "@
}

/// The rendered fields of a matcher, in order: binary, name, flatpak id.
pub open spec fn matcher_parts(m: AppMatcher) -> Seq<Seq<char>> {
    (match m.binary {
        Some(b) => seq!["binary="@ + b@],
        None => Seq::empty(),
    }) + (match m.name {
        Some(n) => seq!["name="@ + n@],
        None => Seq::empty(),
    }) + (match m.flatpak_id {
        Some(f) => seq!["flatpak="@ + f@],
        None => Seq::empty(),
    })
}

/// Parts joined with the separator.
pub open spec fn join_parts(parts: Seq<Seq<char>>) -> Seq<char>
    decreases parts.len(),
{
    if parts.len() == 0 {
        Seq::empty()
    } else if parts.len() == 1 {
        parts[0]
    } else {
        parts[0] + desc_sep() + join_parts(parts.drop_first())
    }
}

/// Joining one more part appends a separator exactly when parts came before.
proof fn lemma_join_parts_snoc(parts: Seq<Seq<char>>, i: int)
    requires
        0 <= i < parts.len(),
    ensures
        join_parts(parts.take(i + 1)) =~= join_parts(parts.take(i)) + (if i == 0 {
            Seq::<char>::empty()
        } else {
            desc_sep()
        }) + parts[i],
    decreases i,
{
    if i == 0 {
        assert(parts.take(1) =~= seq![parts[0]]);
    } else {
        lemma_join_parts_snoc(parts.drop_first(), i - 1);
        assert(parts.take(i + 1).drop_first() =~= parts.drop_first().take(i));
        assert(parts.take(i).drop_first() =~= parts.drop_first().take(i - 1));
        assert(parts.take(i + 1)[0] == parts[0]);
        assert(parts.take(i)[0] == parts[0]);
        assert(parts.take(i + 1).len() == i + 1);
        if i == 1 {
            assert(parts.take(1) =~= seq![parts[0]]);
        }
        assert(parts.drop_first()[i - 1] == parts[i]);
    }
}

/// The human-readable rendering of a target: `default-output`,
/// `default-input`, `focused`, or `app(...)` with the set matcher fields.
pub open spec fn target_description_spec(t: AudioTarget) -> Seq<char> {
    match t {
        AudioTarget::DefaultOutput => "default-output"@,
        AudioTarget::DefaultInput => "default-input"@,
        AudioTarget::App { matcher } => "app("@ + join_parts(matcher_parts(matcher)) + ")"@,
        AudioTarget::FocusedApp => "focused"@,
    }
}

impl AudioTarget {
    /// Render this target for status display.
    pub fn description(&self) -> (r: String)
        ensures
            r@ == target_description_spec(*self),
    {
        match self {
            AudioTarget::DefaultOutput => "default-output".to_owned(),
            AudioTarget::DefaultInput => "default-input".to_owned(),
            AudioTarget::FocusedApp => "focused".to_owned(),
            AudioTarget::App { matcher } => {
                let mut parts: Vec<String> = Vec::new();
                if let Some(b) = &matcher.binary {
                    let mut part = "binary=".to_owned();
                    part.append(b.as_str());
                    parts.push(part);
                }
                if let Some(n) = &matcher.name {
                    let mut part = "name=".to_owned();
                    part.append(n.as_str());
                    parts.push(part);
                }
                if let Some(f) = &matcher.flatpak_id {
                    let mut part = "flatpak=".to_owned();
                    part.append(f.as_str());
                    parts.push(part);
                }
                proof {
                    assert(parts.deep_view() =~~= matcher_parts(*matcher));
                }
                let mut out = "app(".to_owned();
                let n = parts.len();
                let mut i: usize = 0;
                proof {
                    assert(join_parts(parts.deep_view().take(0)) =~= Seq::<char>::empty());
                    assert(out@ =~= "app("@ + join_parts(parts.deep_view().take(0)));
                }
                while i < n
                    invariant
                        n == parts@.len(),
                        i <= n,
                        out@ =~= "app("@ + join_parts(parts.deep_view().take(i as int)),
                    decreases n - i,
                {
                    if i > 0 {
                        out.append(", ");
                    }
                    out.append(parts[i].as_str());
                    proof {
                        lemma_join_parts_snoc(parts.deep_view(), i as int);
                        assert(parts.deep_view()[i as int] == parts@[i as int]@);
                    }
                    i = i + 1;
                }
                proof {
                    assert(parts.deep_view().take(n as int) =~= parts.deep_view());
                }
                out.append(")");
                out
            },
        }
    }
}

/// The rendered form of a dial action.
pub open spec fn dial_description_spec(d: DialAction) -> Seq<char> {
    match d {
        DialAction::Volume { target } => "volume "@ + target_description_spec(target),
    }
}

/// Render a dial action for status display.
pub fn describe_dial(d: &DialAction) -> (r: String)
    ensures
        r@ == dial_description_spec(*d),
{
    match d {
        DialAction::Volume { target } => {
            let mut out = "volume ".to_owned();
            let t = target.description();
            out.append(t.as_str());
            out
        },
    }
}

/// The rendered form of a button action.
pub open spec fn button_description_spec(b: ButtonAction) -> Seq<char> {
    match b {
        ButtonAction::Mute { target } => "mute "@ + target_description_spec(target),
        ButtonAction::Media { command } => "media "@ + method_name_spec(command),
        ButtonAction::Exec { command } => "exec "@ + command@,
    }
}

/// Render a button action for status display.
pub fn describe_button(b: &ButtonAction) -> (r: String)
    ensures
        r@ == button_description_spec(*b),
{
    match b {
        ButtonAction::Mute { target } => {
            let mut out = "mute ".to_owned();
            let t = target.description();
            out.append(t.as_str());
            out
        },
        ButtonAction::Media { command } => {
            let mut out = "media ".to_owned();
            out.append(command.method_name());
            out
        },
        ButtonAction::Exec { command } => {
            let mut out = "exec ".to_owned();
            out.append(command.as_str());
            out
        },
    }
}

/// Why a target expression was rejected.
#[derive(Debug, Clone, Copy, PartialEq, Eq, Structural)]
pub enum TargetParseError {
    /// Not one of the known target names.
    UnknownTarget,
    /// An `app` target with no matcher field set.
    EmptyMatcher,
}

/// What parsing a target expression yields: the current names, the legacy
/// aliases, and `app` with at least one matcher flag.
pub open spec fn parse_target_spec(
    t: Seq<char>,
    binary: Option<String>,
    name: Option<String>,
    flatpak_id: Option<String>,
) -> Result<AudioTarget, TargetParseError> {
    if t == "default-output"@ || t == "default-sink"@ {
        Ok(AudioTarget::DefaultOutput)
    } else if t == "default-input"@ || t == "default-source"@ {
        Ok(AudioTarget::DefaultInput)
    } else if t == "app"@ {
        if binary is Some || name is Some || flatpak_id is Some {
            Ok(AudioTarget::App { matcher: AppMatcher { binary, name, flatpak_id } })
        } else {
            Err(TargetParseError::EmptyMatcher)
        }
    } else if t == "focused"@ {
        Ok(AudioTarget::FocusedApp)
    } else {
        Err(TargetParseError::UnknownTarget)
    }
}

/// Parse a target expression (`default-output`, `default-input`, legacy
/// `default-sink`/`default-source`, `app` with matcher flags, `focused`).
pub fn parse_target(
    target: &str,
    binary: Option<String>,
    name: Option<String>,
    flatpak_id: Option<String>,
) -> (r: Result<AudioTarget, TargetParseError>)
    ensures
        r == parse_target_spec(target@, binary, name, flatpak_id),
{
    if str_eq(target, "default-output") || str_eq(target, "default-sink") {
        Ok(AudioTarget::DefaultOutput)
    } else if str_eq(target, "default-input") || str_eq(target, "default-source") {
        Ok(AudioTarget::DefaultInput)
    } else if str_eq(target, "app") {
        let matcher = AppMatcher { binary, name, flatpak_id };
        if matcher.is_valid() {
            Ok(AudioTarget::App { matcher })
        } else {
            Err(TargetParseError::EmptyMatcher)
        }
    } else if str_eq(target, "focused") {
        Ok(AudioTarget::FocusedApp)
    } else {
        Err(TargetParseError::UnknownTarget)
    }
}

/// What parsing a media-command word yields.
pub open spec fn parse_media_command_spec(t: Seq<char>) -> Option<MediaCommand> {
    if t == "play_pause"@ {
        Some(MediaCommand::PlayPause)
    } else if t == "play"@ {
        Some(MediaCommand::Play)
    } else if t == "pause"@ {
        Some(MediaCommand::Pause)
    } else if t == "next"@ {
        Some(MediaCommand::Next)
    } else if t == "previous"@ {
        Some(MediaCommand::Previous)
    } else if t == "stop"@ {
        Some(MediaCommand::Stop)
    } else {
        None
    }
}

/// Parse a media-command word (`play_pause`, `play`, `pause`, `next`,
/// `previous`, `stop`).
pub fn parse_media_command(value: &str) -> (r: Option<MediaCommand>)
    ensures
        r == parse_media_command_spec(value@),
{
    if str_eq(value, "play_pause") {
        Some(MediaCommand::PlayPause)
    } else if str_eq(value, "play") {
        Some(MediaCommand::Play)
    } else if str_eq(value, "pause") {
        Some(MediaCommand::Pause)
    } else if str_eq(value, "next") {
        Some(MediaCommand::Next)
    } else if str_eq(value, "previous") {
        Some(MediaCommand::Previous)
    } else if str_eq(value, "stop") {
        Some(MediaCommand::Stop)
    } else {
        None
    }
}

/// Facts about one-digit keys: the digit characters are digits, not `+`,
/// and denote their value.
proof fn lemma_digit_for(k: u8)
    requires
        1 <= k <= 9,
    ensures
        crate::text::is_digit(digit_for(k)),
        digit_for(k) as int == '0' as int + k,
        digit_for(k) != '+',
{
    if k == 1 {
        assert('1' as int == 49);
    } else if k == 2 {
        assert('2' as int == 50);
    } else if k == 3 {
        assert('3' as int == 51);
    } else if k == 4 {
        assert('4' as int == 52);
    } else if k == 5 {
        assert('5' as int == 53);
    } else if k == 6 {
        assert('6' as int == 54);
    } else if k == 7 {
        assert('7' as int == 55);
    } else if k == 8 {
        assert('8' as int == 56);
    } else {
        assert('9' as int == 57);
    }
    assert('0' as int == 48);
    assert('+' as int == 43);
}

/// The key round trip: every well-formed control's key parses back to that
/// same control.
pub proof fn lemma_config_key_round_trip(c: ControlId)
    requires
        c.wf(),
    ensures
        from_config_key_spec(config_key_spec(c)) == Some(c),
{
    let key = config_key_spec(c);
    match c {
        ControlId::Knob(n) => {
            let d = digit_for((n + 1) as u8);
            assert(key.take(4) =~= seq!['k', 'n', 'o', 'b']);
            assert(key.skip(4) =~= seq![d]);
            lemma_digit_for((n + 1) as u8);
            let t = crate::text::parse_tail(key.skip(4));
            assert(t =~= seq![d]);
            assert(t.len() == 1 && t.last() == d);
            assert(t.drop_last() =~= Seq::<char>::empty());
            assert(crate::text::digits_val(Seq::<char>::empty()) == 0);
            assert(crate::text::digits_val(t) == n + 1);
        },
        ControlId::Slider(n) => {
            let d = digit_for((n + 1) as u8);
            assert(!starts_with(key, seq!['k', 'n', 'o', 'b']));
            assert(key.take(6) =~= seq!['s', 'l', 'i', 'd', 'e', 'r']);
            assert(key.skip(6) =~= seq![d]);
            lemma_digit_for((n + 1) as u8);
            let t = crate::text::parse_tail(key.skip(6));
            assert(t =~= seq![d]);
            assert(t.len() == 1 && t.last() == d);
            assert(t.drop_last() =~= Seq::<char>::empty());
            assert(crate::text::digits_val(Seq::<char>::empty()) == 0);
            assert(crate::text::digits_val(t) == n + 1);
        },
    }
}

} // verus!
