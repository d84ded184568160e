//! Focused-window identity and the heuristics that match an application
//! audio stream to the focused window. Six strategies are tried in priority
//! order until one succeeds; absent fields never match.

use vstd::prelude::*;

verus! {

use vstd::string::StrSliceExecFns;

use crate::audio::SinkInputInfo;
use crate::text::{
    binary_stem, binary_stem_spec, desktop_file_stem, desktop_file_stem_spec,
    eq_ignore_ascii_case_spec, eq_ignore_ascii_case_str,
};

/// Identity hints of the currently focused window; any subset may be absent.
#[derive(Debug, Clone, PartialEq, Eq)]
pub struct FocusedWindowInfo {
    /// The desktop file id (e.g. a reverse-DNS application id).
    pub desktop_file: Option<String>,
    /// The windowing system's resource name (typically the binary name).
    pub resource_name: Option<String>,
    /// The windowing system's resource class.
    pub resource_class: Option<String>,
    /// The process id of the focused window.
    pub pid: Option<u32>,
}

/// Normalize a raw focused-window report: empty strings and non-positive
/// pids count as absent, and a report with nothing present is no report.
pub fn focused_window_from_parts(
    desktop_file: &str,
    resource_name: &str,
    resource_class: &str,
    pid: i64,
) -> (r: Option<FocusedWindowInfo>)
    ensures
        ({
            let df_absent = desktop_file@.len() == 0;
            let rn_absent = resource_name@.len() == 0;
            let rc_absent = resource_class@.len() == 0;
            let pid_absent = !(0 < pid <= u32::MAX);
            if df_absent && rn_absent && rc_absent && pid_absent {
                r is None
            } else {
                r matches Some(f) && {
                    &&& (f.desktop_file is None <==> df_absent)
                    &&& (f.desktop_file matches Some(s) ==> s@ == desktop_file@)
                    &&& (f.resource_name is None <==> rn_absent)
                    &&& (f.resource_name matches Some(s) ==> s@ == resource_name@)
                    &&& (f.resource_class is None <==> rc_absent)
                    &&& (f.resource_class matches Some(s) ==> s@ == resource_class@)
                    &&& f.pid == (if pid_absent {
                        Option::<u32>::None
                    } else {
                        Some(pid as u32)
                    })
                }
            }
        }),
{
    let df = if desktop_file.unicode_len() == 0 {
        None
    } else {
        Some(desktop_file.to_owned())
    };
    let rn = if resource_name.unicode_len() == 0 {
        None
    } else {
        Some(resource_name.to_owned())
    };
    let rc = if resource_class.unicode_len() == 0 {
        None
    } else {
        Some(resource_class.to_owned())
    };
    let p: Option<u32> = if 0 < pid && pid <= u32::MAX as i64 {
        Some(pid as u32)
    } else {
        None
    };
    if df.is_none() && rn.is_none() && rc.is_none() && p.is_none() {
        None
    } else {
        Some(
            FocusedWindowInfo {
                desktop_file: df,
                resource_name: rn,
                resource_class: rc,
                pid: p,
            },
        )
    }
}

/// Two optional strings are present and equal up to ASCII case.
pub open spec fn opt_eq_ci(a: Option<String>, b: Option<String>) -> bool {
    match a {
        Some(x) => match b {
            Some(y) => eq_ignore_ascii_case_spec(x@, y@),
            None => false,
        },
        None => false,
    }
}

/// The six matching strategies, in priority order: desktop file against
/// sandboxed-application id; resource name against binary; desktop-file stem
/// against binary stem; desktop file against binary; resource class against
/// binary; process id against process id.
pub open spec fn matches_focused_spec(si: SinkInputInfo, f: FocusedWindowInfo) -> bool {
    ||| opt_eq_ci(f.desktop_file, si.flatpak_id)
    ||| opt_eq_ci(f.resource_name, si.binary)
    ||| (f.desktop_file matches Some(df) && si.binary matches Some(b)
        && eq_ignore_ascii_case_spec(desktop_file_stem_spec(df@), binary_stem_spec(b@)))
    ||| opt_eq_ci(f.desktop_file, si.binary)
    ||| opt_eq_ci(f.resource_class, si.binary)
    ||| (f.pid matches Some(wp) && si.pid matches Some(sp) && wp == sp)
}

/// Present-and-equal-up-to-ASCII-case on optional strings.
fn opt_eq_ci_exec(a: &Option<String>, b: &Option<String>) -> (r: bool)
    ensures
        r == opt_eq_ci(*a, *b),
{
    match a {
        Some(x) => match b {
            Some(y) => eq_ignore_ascii_case_str(x.as_str(), y.as_str()),
            None => false,
        },
        None => false,
    }
}

/// Does this stream belong to the focused window, by any of the six
/// strategies?
pub fn sink_input_matches_focused(si: &SinkInputInfo, focused: &FocusedWindowInfo) -> (r: bool)
    ensures
        r == matches_focused_spec(*si, *focused),
{
    if opt_eq_ci_exec(&focused.desktop_file, &si.flatpak_id) {
        return true;
    }
    if opt_eq_ci_exec(&focused.resource_name, &si.binary) {
        return true;
    }
    if let Some(df) = &focused.desktop_file {
        if let Some(b) = &si.binary {
            let ds = desktop_file_stem(df.as_str());
            let bs = binary_stem(b.as_str());
            if eq_ignore_ascii_case_str(ds, bs) {
                return true;
            }
        }
    }
    if opt_eq_ci_exec(&focused.desktop_file, &si.binary) {
        return true;
    }
    if opt_eq_ci_exec(&focused.resource_class, &si.binary) {
        return true;
    }
    if let Some(wp) = focused.pid {
        if let Some(sp) = si.pid {
            if wp == sp {
                return true;
            }
        }
    }
    false
}

/// The streams of the focused window, in order, de-duplicated by stream
/// index (`seen` holds the indices already taken).
pub open spec fn focused_filter(
    f: FocusedWindowInfo,
    inputs: Seq<SinkInputInfo>,
    seen: Set<u32>,
) -> Seq<SinkInputInfo>
    decreases inputs.len(),
{
    if inputs.len() == 0 {
        Seq::empty()
    } else {
        let si = inputs[0];
        if !seen.contains(si.index) && matches_focused_spec(si, f) {
            seq![si] + focused_filter(f, inputs.drop_first(), seen.insert(si.index))
        } else {
            focused_filter(f, inputs.drop_first(), seen)
        }
    }
}

/// Is `x` among the first `n` elements of `v`?
fn contains_u32(v: &Vec<u32>, x: u32) -> (r: bool)
    ensures
        r == exists|i: int| 0 <= i < v@.len() && v@[i] == x,
{
    let n = v.len();
    let mut i: usize = 0;
    while i < n
        invariant
            n == v@.len(),
            i <= n,
            forall|k: int| 0 <= k < i ==> v@[k] != x,
        decreases n - i,
    {
        if v[i] == x {
            return true;
        }
        i = i + 1;
    }
    false
}

/// Find the streams that belong to the focused window, de-duplicated by
/// stream index so each one gets at most one command.
pub fn find_focused_sink_inputs(
    focused: &FocusedWindowInfo,
    sink_inputs: &Vec<SinkInputInfo>,
) -> (r: Vec<SinkInputInfo>)
    ensures
        r@ == focused_filter(*focused, sink_inputs@, Set::empty()),
{
    let mut results: Vec<SinkInputInfo> = Vec::new();
    let mut seen: Vec<u32> = Vec::new();
    let ghost mut seen_set: Set<u32> = Set::empty();
    let n = sink_inputs.len();
    let mut i: usize = 0;
    proof {
        assert(sink_inputs@.skip(0) =~= sink_inputs@);
    }
    while i < n
        invariant
            n == sink_inputs@.len(),
            i <= n,
            forall|x: u32| seen_set.contains(x) <==> exists|k: int|
                0 <= k < seen@.len() && seen@[k] == x,
            focused_filter(*focused, sink_inputs@, Set::empty()) =~= results@ + focused_filter(
                *focused,
                sink_inputs@.skip(i as int),
                seen_set,
            ),
        decreases n - i,
    {
        let ghost pre_seen = seen_set;
        let ghost pre_vec = seen@;
        proof {
            assert(sink_inputs@.skip(i as int)[0] == sink_inputs@[i as int]);
            assert(sink_inputs@.skip(i as int).drop_first() =~= sink_inputs@.skip(i + 1));
        }
        let si = &sink_inputs[i];
        let dup = contains_u32(&seen, si.index);
        proof {
            assert(dup == seen_set.contains(si.index));
        }
        if !dup && sink_input_matches_focused(si, focused) {
            seen.push(si.index);
            proof {
                seen_set = pre_seen.insert(si.index);
                assert(seen@ =~= pre_vec.push(si.index));
                assert forall|x: u32| seen_set.contains(x) implies exists|k: int|
                    0 <= k < seen@.len() && seen@[k] == x by {
                    if x == si.index {
                        assert(seen@[seen@.len() - 1] == x);
                    } else {
                        assert(pre_seen.contains(x));
                        let k = choose|k: int| 0 <= k < pre_vec.len() && pre_vec[k] == x;
                        assert(seen@[k] == x);
                    }
                }
                assert forall|x: u32| (exists|k: int| 0 <= k < seen@.len() && seen@[k] == x)
                    implies seen_set.contains(x) by {
                    let k = choose|k: int| 0 <= k < seen@.len() && seen@[k] == x;
                    if k < seen@.len() - 1 {
                        assert(pre_vec[k] == x);
                        assert(pre_seen.contains(x));
                    } else {
                        assert(x == si.index);
                    }
                }
            }
            results.push(si.clone_info());
        }
        i = i + 1;
    }
    proof {
        assert(sink_inputs@.skip(n as int) =~= Seq::<SinkInputInfo>::empty());
    }
    results
}

} // verus!
