use pcpaneld::text::{
    binary_stem, contains_str, desktop_file_stem, eq_ignore_ascii_case_str, lowercase, truncate,
};

#[test]
fn truncate_ascii_within_limit() {
    assert_eq!(truncate("hello", 10), "hello");
}

#[test]
fn truncate_ascii_at_limit() {
    assert_eq!(truncate("hello", 5), "hello");
}

#[test]
fn truncate_ascii_over_limit() {
    assert_eq!(truncate("hello world", 5), "hello");
}

#[test]
fn truncate_multibyte_backs_up_to_char_boundary() {
    // 'ü' is 2 bytes (0xC3 0xBC). "Müsik" = [M, ü(2), s, i, k] = 6 bytes
    // Truncating at 2 would split inside 'ü', should back up to 1
    assert_eq!(truncate("Müsik", 2), "M");
}

#[test]
fn truncate_multibyte_exact_boundary() {
    // Truncating at 3 lands right after 'ü' (byte 3 is 's')
    assert_eq!(truncate("Müsik", 3), "Mü");
}

#[test]
fn truncate_empty_string() {
    assert_eq!(truncate("", 5), "");
}

#[test]
fn truncate_zero_max() {
    assert_eq!(truncate("hello", 0), "");
}

#[test]
fn desktop_file_stem_extracts_last_segment() {
    assert_eq!(desktop_file_stem("org.mozilla.firefox"), "firefox");
    assert_eq!(desktop_file_stem("com.spotify.Client"), "Client");
}

#[test]
fn desktop_file_stem_returns_whole_string_without_dots() {
    assert_eq!(desktop_file_stem("firefox"), "firefox");
}

#[test]
fn binary_stem_strips_wrapper_suffixes() {
    assert_eq!(binary_stem("firefox-bin"), "firefox");
    assert_eq!(binary_stem("some-app-bin"), "some-app");
    assert_eq!(binary_stem("ptyxis-wrapped"), "ptyxis");
}

#[test]
fn binary_stem_strips_file_extension() {
    assert_eq!(binary_stem("vlc.bin"), "vlc");
    assert_eq!(binary_stem("app.x86_64"), "app");
}

#[test]
fn binary_stem_strips_extension_then_wrapper() {
    // Extension stripped first, then wrapper suffix
    assert_eq!(binary_stem("foo-bin.exe"), "foo");
}

#[test]
fn binary_stem_returns_whole_string_without_suffix() {
    assert_eq!(binary_stem("spotify"), "spotify");
    // "cabin" must not be mangled — suffix stripping is exact, not a trim
    assert_eq!(binary_stem("cabin"), "cabin");
}

#[test]
fn lowercase_folds_unicode() {
    assert_eq!(lowercase("FIREFOX"), "firefox");
    assert_eq!(lowercase("MÜSIK"), "müsik");
    assert_eq!(lowercase(""), "");
}

#[test]
fn contains_substring_search() {
    assert!(contains_str("firefox", "fire"));
    assert!(contains_str("firefox", "fox"));
    assert!(contains_str("firefox", ""));
    assert!(!contains_str("firefox", "chrome"));
    assert!(!contains_str("fox", "firefox"));
}

#[test]
fn eq_ignore_ascii_case_matches() {
    assert!(eq_ignore_ascii_case_str("FireFox", "firefox"));
    assert!(eq_ignore_ascii_case_str("", ""));
    assert!(!eq_ignore_ascii_case_str("firefox", "firefo"));
    // ASCII-only folding: non-ASCII letters must match exactly
    assert!(!eq_ignore_ascii_case_str("MÜSIK", "müsik"));
}
