use preflight::{copy_destination, get_pre_glob_path, parse_u32_radix, str_eq};

#[test]
fn pre_glob_no_wildcard_returns_pattern() {
    assert_eq!(get_pre_glob_path("a/b/c"), "a/b/c");
    assert_eq!(get_pre_glob_path("/etc/passwd"), "/etc/passwd");
    assert_eq!(get_pre_glob_path(""), "");
    assert_eq!(get_pre_glob_path("plain"), "plain");
}

#[test]
fn pre_glob_cuts_before_first_wildcard_segment() {
    assert_eq!(get_pre_glob_path("a/b/*/c"), "a/b");
}

#[test]
fn pre_glob_wildcard_in_first_segment_is_empty() {
    assert_eq!(get_pre_glob_path("*.txt"), "");
    assert_eq!(get_pre_glob_path("*/sub"), "");
}

#[test]
fn pre_glob_absolute_patterns() {
    assert_eq!(get_pre_glob_path("/data/*"), "/data");
    assert_eq!(get_pre_glob_path("/*"), "");
    assert_eq!(get_pre_glob_path("/srv/www/*.conf"), "/srv/www");
}

#[test]
fn pre_glob_wildcard_inside_segment() {
    assert_eq!(get_pre_glob_path("logs/app-*.log"), "logs");
    assert_eq!(get_pre_glob_path("a/b*c/d"), "a");
}

#[test]
fn destination_appends_stripped_suffix() {
    // The suffix keeps its leading separator, exactly as the runner joins it.
    assert_eq!(copy_destination("/data", "/data/f.txt", "/dst"), "/dst//f.txt");
    assert_eq!(copy_destination("a/b", "a/b/c/d", "/out"), "/out//c/d");
}

#[test]
fn destination_of_exact_match_is_to_itself() {
    assert_eq!(copy_destination("/data", "/data", "/dst"), "/dst");
}

#[test]
fn destination_without_prefix_match_keeps_whole_path() {
    assert_eq!(copy_destination("x", "a/b", "/out"), "/out/a/b");
}

#[test]
fn destination_with_empty_prefix() {
    assert_eq!(copy_destination("", "match.txt", "/out"), "/out/match.txt");
}

#[test]
fn str_eq_compares_contents() {
    assert!(str_eq("abc", "abc"));
    assert!(!str_eq("abc", "abd"));
    assert!(!str_eq("abc", "ab"));
    assert!(str_eq("", ""));
}

#[test]
fn octal_modes_parse() {
    assert_eq!(parse_u32_radix("0644", 8), Some(0o644));
    assert_eq!(parse_u32_radix("0755", 8), Some(0o755));
    assert_eq!(parse_u32_radix("0600", 8), Some(0o600));
    assert_eq!(parse_u32_radix("+7", 8), Some(7));
}

#[test]
fn bad_octal_modes_are_rejected() {
    assert_eq!(parse_u32_radix("08", 8), None);
    assert_eq!(parse_u32_radix("", 8), None);
    assert_eq!(parse_u32_radix("+", 8), None);
    assert_eq!(parse_u32_radix("rwx", 8), None);
}

#[test]
fn decimal_ids_parse() {
    assert_eq!(parse_u32_radix("1000", 10), Some(1000));
    assert_eq!(parse_u32_radix("0", 10), Some(0));
    assert_eq!(parse_u32_radix("4294967295", 10), Some(u32::MAX));
}

#[test]
fn decimal_overflow_is_rejected() {
    assert_eq!(parse_u32_radix("4294967296", 10), None);
    assert_eq!(parse_u32_radix("99999999999999999999", 10), None);
}
