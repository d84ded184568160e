//! Text helpers used by the matching heuristics and the key parsers:
//! Unicode lowercasing (named, trusted), verified substring search,
//! ASCII-case-insensitive comparison, identifier stems, UTF-8-aware
//! truncation and strict decimal parsing.

use vstd::prelude::*;

verus! {

use vstd::string::StrSliceExecFns;

/// What `str::to_lowercase` returns for a given character sequence.
pub uninterp spec fn lower_of(s: Seq<char>) -> Seq<char>;

/// Relies on str::to_lowercase: the Unicode-lowercased form, a function of
/// the characters alone; an empty string stays empty.
#[verifier::external_body]
pub fn lowercase(s: &str) -> (r: String)
    ensures
        r@ == lower_of(s@),
        s@.len() == 0 ==> r@.len() == 0,
{
    s.to_lowercase()
}

/// `needle` occurs as a contiguous subsequence of `hay`.
pub open spec fn contains_seq(hay: Seq<char>, needle: Seq<char>) -> bool {
    exists|i: int|
        0 <= i && i + needle.len() <= hay.len() && #[trigger] hay.subrange(
            i,
            i + needle.len() as int,
        ) == needle
}

/// Does `needle` occur at position `i` of `hay`?
fn match_at(hay: &str, needle: &str, i: usize, hn: usize, nn: usize) -> (r: bool)
    requires
        hn == hay@.len(),
        nn == needle@.len(),
        i + nn <= hn,
    ensures
        r <==> hay@.subrange(i as int, i + nn) == needle@,
{
    let mut j: usize = 0;
    while j < nn
        invariant
            j <= nn,
            i + nn <= hn,
            hn == hay@.len(),
            nn == needle@.len(),
            forall|k: int| 0 <= k < j ==> hay@[i + k] == needle@[k],
        decreases nn - j,
    {
        if hay.get_char(i + j) != needle.get_char(j) {
            proof {
                assert(hay@.subrange(i as int, i + nn)[j as int] != needle@[j as int]);
            }
            return false;
        }
        j = j + 1;
    }
    proof {
        assert(hay@.subrange(i as int, i + nn) =~= needle@);
    }
    true
}

/// Substring search: does `needle` occur anywhere in `hay`?
pub fn contains_str(hay: &str, needle: &str) -> (r: bool)
    ensures
        r == contains_seq(hay@, needle@),
{
    let hn = hay.unicode_len();
    let nn = needle.unicode_len();
    if nn > hn {
        return false;
    }
    if nn == 0 {
        proof {
            assert(hay@.subrange(0, 0 + needle@.len() as int) =~= needle@);
        }
        return true;
    }
    let mut i: usize = 0;
    while i <= hn - nn
        invariant
            1 <= nn <= hn,
            hn == hay@.len(),
            nn == needle@.len(),
            i <= hn - nn + 1,
            forall|k: int| 0 <= k < i ==> #[trigger] hay@.subrange(k, k + nn as int) != needle@,
        decreases hn - nn - i + 1,
    {
        if match_at(hay, needle, i, hn, nn) {
            return true;
        }
        i = i + 1;
    }
    false
}

/// The ASCII-lowercased code point.
pub open spec fn ascii_lower_u32(u: u32) -> u32 {
    if 65 <= u <= 90 {
        (u + 32) as u32
    } else {
        u
    }
}

/// Equality up to ASCII case, character by character.
pub open spec fn eq_ignore_ascii_case_spec(a: Seq<char>, b: Seq<char>) -> bool {
    a.len() == b.len() && forall|i: int|
        0 <= i < a.len() ==> ascii_lower_u32(a[i] as u32) == ascii_lower_u32(b[i] as u32)
}

/// ASCII-case-insensitive string comparison.
pub fn eq_ignore_ascii_case_str(a: &str, b: &str) -> (r: bool)
    ensures
        r == eq_ignore_ascii_case_spec(a@, b@),
{
    let an = a.unicode_len();
    let bn = b.unicode_len();
    if an != bn {
        return false;
    }
    let mut i: usize = 0;
    while i < an
        invariant
            an == a@.len(),
            an == b@.len(),
            i <= an,
            forall|k: int| 0 <= k < i ==> ascii_lower_u32(a@[k] as u32) == ascii_lower_u32(
                b@[k] as u32,
            ),
        decreases an - i,
    {
        let ca = a.get_char(i) as u32;
        let cb = b.get_char(i) as u32;
        let la = if 65 <= ca && ca <= 90 {
            ca + 32
        } else {
            ca
        };
        let lb = if 65 <= cb && cb <= 90 {
            cb + 32
        } else {
            cb
        };
        if la != lb {
            return false;
        }
        i = i + 1;
    }
    true
}

/// The position of the last occurrence of `c` in `s`, if any.
pub open spec fn rfind_char(s: Seq<char>, c: char) -> Option<int>
    decreases s.len(),
{
    if s.len() == 0 {
        None
    } else if s.last() == c {
        Some(s.len() - 1)
    } else {
        rfind_char(s.drop_last(), c)
    }
}

/// `rfind_char` finds the last occurrence: the position holds `c` and nothing
/// after it does; `None` means `c` does not occur at all.
pub proof fn lemma_rfind_char(s: Seq<char>, c: char)
    ensures
        match rfind_char(s, c) {
            Some(p) => 0 <= p < s.len() && s[p] == c && forall|k: int|
                p < k < s.len() ==> s[k] != c,
            None => forall|k: int| 0 <= k < s.len() ==> s[k] != c,
        },
    decreases s.len(),
{
    if s.len() > 0 {
        lemma_rfind_char(s.drop_last(), c);
        assert(s[s.len() - 1] == s.last());
        assert(forall|k: int| 0 <= k < s.len() - 1 ==> s.drop_last()[k] == s[k]);
    }
}

/// Find the last occurrence of `c` in `s`.
fn rfind_char_exec(s: &str, c: char, n: usize) -> (r: Option<usize>)
    requires
        n == s@.len(),
    ensures
        match r {
            Some(p) => p < s@.len() && rfind_char(s@, c) == Some(p as int),
            None => rfind_char(s@, c) is None,
        },
{
    let mut i: usize = n;
    while i > 0
        invariant
            n == s@.len(),
            i <= n,
            forall|k: int| i <= k < n ==> s@[k] != c,
        decreases i,
    {
        if s.get_char(i - 1) == c {
            proof {
                lemma_rfind_char(s@, c);
                match rfind_char(s@, c) {
                    Some(p) => {
                        if p < i - 1 {
                            assert(s@[i - 1] != c);
                            assert(false);
                        }
                        if p > i - 1 {
                            assert(s@[p] != c);
                            assert(false);
                        }
                    },
                    None => {
                        assert(s@[i - 1] != c);
                        assert(false);
                    },
                }
            }
            return Some(i - 1);
        }
        i = i - 1;
    }
    proof {
        lemma_rfind_char(s@, c);
        match rfind_char(s@, c) {
            Some(p) => {
                assert(s@[p] != c);
                assert(false);
            },
            None => {},
        }
    }
    None
}

/// The stem of a desktop-file id: the part after the last dot, or the whole
/// id when it has no dot (`"org.mozilla.firefox"` gives `"firefox"`).
pub open spec fn desktop_file_stem_spec(s: Seq<char>) -> Seq<char> {
    match rfind_char(s, '.') {
        Some(p) => s.subrange(p + 1, s.len() as int),
        None => s,
    }
}

/// Extract the stem of a desktop-file id.
pub fn desktop_file_stem(s: &str) -> (r: &str)
    ensures
        r@ == desktop_file_stem_spec(s@),
{
    let n = s.unicode_len();
    match rfind_char_exec(s, '.', n) {
        Some(p) => s.substring_char(p + 1, n),
        None => s,
    }
}

/// Does `s` end with `suf`?
pub open spec fn ends_with(s: Seq<char>, suf: Seq<char>) -> bool {
    s.len() >= suf.len() && s.subrange(s.len() - suf.len(), s.len() as int) == suf
}

/// The wrapper suffix `-bin`.
pub open spec fn suffix_bin() -> Seq<char> {
    seq!['-', 'b', 'i', 'n']
}

/// The wrapper suffix `-wrapped`.
pub open spec fn suffix_wrapped() -> Seq<char> {
    seq!['-', 'w', 'r', 'a', 'p', 'p', 'e', 'd']
}

/// A binary name without a trailing file extension: the extension starts at
/// the last dot, and only if that dot is not the first character.
pub open spec fn without_extension(s: Seq<char>) -> Seq<char> {
    match rfind_char(s, '.') {
        Some(p) => if p > 0 {
            s.take(p)
        } else {
            s
        },
        None => s,
    }
}

/// The stem of a binary name: one file extension removed first, then one
/// well-known wrapper suffix (`-bin`, `-wrapped`), each at most once
/// (`"vlc.bin"` gives `"vlc"`, `"firefox-bin"` gives `"firefox"`, `"cabin"`
/// stays `"cabin"`).
pub open spec fn binary_stem_spec(s: Seq<char>) -> Seq<char> {
    let w = without_extension(s);
    if ends_with(w, suffix_bin()) {
        w.take(w.len() - 4)
    } else if ends_with(w, suffix_wrapped()) {
        w.take(w.len() - 8)
    } else {
        w
    }
}

/// Does `s` (of length `n`) end with `suf` (of length `m`)?
fn ends_with_exec(s: &str, n: usize, suf: &str, m: usize) -> (r: bool)
    requires
        n == s@.len(),
        m == suf@.len(),
    ensures
        r == ends_with(s@, suf@),
{
    if m > n {
        return false;
    }
    let mut j: usize = 0;
    while j < m
        invariant
            m <= n,
            n == s@.len(),
            m == suf@.len(),
            j <= m,
            forall|k: int| 0 <= k < j ==> s@[n - m + k] == suf@[k],
        decreases m - j,
    {
        if s.get_char(n - m + j) != suf.get_char(j) {
            proof {
                assert(s@.subrange(n - m, n as int)[j as int] != suf@[j as int]);
            }
            return false;
        }
        j = j + 1;
    }
    proof {
        assert(s@.subrange(n - m, n as int) =~= suf@);
    }
    true
}

/// Strip a file extension and well-known wrapper suffixes from a binary name.
pub fn binary_stem(s: &str) -> (r: &str)
    ensures
        r@ == binary_stem_spec(s@),
{
    let n = s.unicode_len();
    let cut: usize = match rfind_char_exec(s, '.', n) {
        Some(p) => if p > 0 {
            p
        } else {
            n
        },
        None => n,
    };
    proof {
        assert(s@.take(n as int) =~= s@);
        assert(s@.take(cut as int) =~= without_extension(s@));
    }
    let w = s.substring_char(0, cut);
    let wn = cut;
    proof {
        assert(w@ =~= without_extension(s@));
        reveal_strlit("-bin");
        reveal_strlit("-wrapped");
        assert("-bin"@ =~= suffix_bin());
        assert("-wrapped"@ =~= suffix_wrapped());
    }
    if ends_with_exec(w, wn, "-bin", 4) {
        let r = w.substring_char(0, wn - 4);
        proof {
            assert(r@ =~= binary_stem_spec(s@));
        }
        r
    } else if ends_with_exec(w, wn, "-wrapped", 8) {
        let r = w.substring_char(0, wn - 8);
        proof {
            assert(r@ =~= binary_stem_spec(s@));
        }
        r
    } else {
        w
    }
}

/// Exact string equality.
pub fn str_eq(a: &str, b: &str) -> (r: bool)
    ensures
        r == (a@ == b@),
{
    let an = a.unicode_len();
    let bn = b.unicode_len();
    if an != bn {
        return false;
    }
    let mut i: usize = 0;
    while i < an
        invariant
            an == a@.len(),
            an == b@.len(),
            i <= an,
            forall|k: int| 0 <= k < i ==> a@[k] == b@[k],
        decreases an - i,
    {
        if a.get_char(i) != b.get_char(i) {
            return false;
        }
        i = i + 1;
    }
    proof {
        assert(a@ =~= b@);
    }
    true
}

/// UTF-8 length of one character.
pub open spec fn char_utf8_len(c: char) -> int {
    let u = c as int;
    if u < 0x80 {
        1
    } else if u < 0x800 {
        2
    } else if u < 0x10000 {
        3
    } else {
        4
    }
}

/// How many leading characters fit in `budget` UTF-8 bytes, greedily.
pub open spec fn keep_count(s: Seq<char>, budget: int) -> int
    decreases s.len(),
{
    if s.len() == 0 {
        0
    } else if char_utf8_len(s[0]) <= budget {
        1 + keep_count(s.drop_first(), budget - char_utf8_len(s[0]))
    } else {
        0
    }
}

/// The longest prefix of `s` whose UTF-8 encoding fits in `max_len` bytes
/// (never splits a character).
pub fn truncate(s: &str, max_len: usize) -> (r: String)
    ensures
        r@ == s@.take(keep_count(s@, max_len as int)),
{
    let n = s.unicode_len();
    let mut i: usize = 0;
    let mut used: usize = 0;
    let mut stop = false;
    proof {
        assert(s@.skip(0) =~= s@);
    }
    while i < n && !stop
        invariant
            n == s@.len(),
            i <= n,
            used <= max_len,
            stop ==> keep_count(s@, max_len as int) == i,
            !stop ==> keep_count(s@, max_len as int) == i + keep_count(
                s@.skip(i as int),
                max_len - used,
            ),
        decreases n - i, (if stop { 0int } else { 1int }),
    {
        let u = s.get_char(i) as u32;
        let l: usize = if u < 0x80 {
            1
        } else if u < 0x800 {
            2
        } else if u < 0x10000 {
            3
        } else {
            4
        };
        proof {
            assert(s@.skip(i as int)[0] == s@[i as int]);
            assert(l == char_utf8_len(s@[i as int]));
            assert(s@.skip(i as int).drop_first() =~= s@.skip(i + 1));
        }
        if l > max_len - used {
            proof {
                assert(keep_count(s@.skip(i as int), max_len - used) == 0);
            }
            stop = true;
        } else {
            used = used + l;
            i = i + 1;
        }
    }
    proof {
        if !stop {
            assert(s@.skip(n as int) =~= Seq::<char>::empty());
        }
        assert(keep_count(s@, max_len as int) == i);
    }
    let pre = s.substring_char(0, i);
    pre.to_owned()
}

/// Is `c` an ASCII decimal digit?
pub open spec fn is_digit(c: char) -> bool {
    '0' as int <= c as int <= '9' as int
}

/// The number the digit string `s` denotes (most significant first).
pub open spec fn digits_val(s: Seq<char>) -> int
    decreases s.len(),
{
    if s.len() == 0 {
        0
    } else {
        10 * digits_val(s.drop_last()) + (s.last() as int - '0' as int)
    }
}

/// A decimal string with its optional leading `+` removed.
pub open spec fn parse_tail(s: Seq<char>) -> Seq<char> {
    if s.len() > 0 && s[0] == '+' {
        s.drop_first()
    } else {
        s
    }
}

/// What `u8::from_str` accepts: an optional leading `+`, then one or more
/// decimal digits denoting a value of at most 255.
pub open spec fn parse_u8_spec(s: Seq<char>) -> Option<u8> {
    let t = parse_tail(s);
    if t.len() == 0 {
        None
    } else if exists|i: int| 0 <= i < t.len() && !(#[trigger] is_digit(t[i])) {
        None
    } else if digits_val(t) <= 255 {
        Some(digits_val(t) as u8)
    } else {
        None
    }
}

/// Parse the tail of `s` starting at `start` as a `u8`, with the exact
/// acceptance rules of [`parse_u8_spec`].
pub fn parse_u8_from(s: &str, start: usize) -> (r: Option<u8>)
    requires
        start <= s@.len(),
    ensures
        r == parse_u8_spec(s@.skip(start as int)),
{
    let n = s.unicode_len();
    let ghost tail = s@.skip(start as int);
    let mut j: usize = start;
    if j < n && s.get_char(j) == '+' {
        j = j + 1;
    }
    let ghost t = parse_tail(tail);
    proof {
        if start < n && s@[start as int] == '+' {
            assert(tail[0] == '+');
            assert(t =~= s@.skip(j as int));
        } else {
            if tail.len() > 0 {
                assert(tail[0] == s@[start as int]);
            }
            assert(t =~= s@.skip(j as int));
        }
    }
    if j >= n {
        proof {
            assert(t.len() == 0);
        }
        return None;
    }
    let mut acc: u32 = 0;
    let mut k: usize = j;
    while k < n
        invariant
            j <= k <= n,
            j < n,
            n == s@.len(),
            t == s@.skip(j as int),
            t == parse_tail(tail),
            tail == s@.skip(start as int),
            acc <= 2559,
            forall|m: int| 0 <= m < k - j ==> #[trigger] is_digit(t[m]),
            acc <= 255 ==> acc == digits_val(t.take(k - j)),
            acc > 255 ==> digits_val(t.take(k - j)) > 255,
        decreases n - k,
    {
        let u = s.get_char(k) as u32;
        proof {
            assert(t[k - j] == s@[k as int]);
        }
        if u < 48 || u > 57 {
            proof {
                assert(!is_digit(t[(k - j) as int]));
                assert(t.len() > 0);
            }
            return None;
        }
        let d = u - 48;
        if acc <= 255 {
            acc = acc * 10 + d;
        }
        k = k + 1;
        proof {
            assert(t.take((k - j) as int).drop_last() =~= t.take((k - j) as int - 1));
            assert(t.take((k - j) as int).last() == t[(k - j) as int - 1]);
            assert(digits_val(t.take((k - j) as int)) == 10 * digits_val(
                t.take((k - j) as int - 1),
            ) + (t[(k - j) as int - 1] as int - '0' as int));
            assert('0' as int == 48);
        }
    }
    proof {
        assert(t.take((n - j) as int) =~= t);
        assert(forall|m: int| 0 <= m < t.len() ==> #[trigger] is_digit(t[m]));
        assert(t.len() > 0);
    }
    if acc <= 255 {
        Some(acc as u8)
    } else {
        None
    }
}

} // verus!
