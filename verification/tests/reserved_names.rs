use path_normalize::{is_reserved_path, ReservedNameMatcher, RESERVED_NAMES};

#[test]
fn the_table_holds_the_device_names() {
    assert_eq!(
        RESERVED_NAMES,
        [
            "AUX", "NUL", "PRN", "CON", "COM1", "COM2", "COM3", "COM4", "COM5", "COM6", "COM7",
            "COM8", "COM9", "LPT1", "LPT2", "LPT3", "LPT4", "LPT5", "LPT6", "LPT7", "LPT8",
            "LPT9",
        ]
    );
}

#[test]
fn every_name_is_reserved_in_upper_case() {
    let matcher = ReservedNameMatcher::DosDevices;
    for name in RESERVED_NAMES {
        assert!(matcher.matches(name), "{name}");
        assert_eq!(matcher.reserved_name(name), Some(name));
    }
}

#[test]
fn every_name_is_reserved_in_lower_case() {
    let matcher = ReservedNameMatcher::DosDevices;
    for name in RESERVED_NAMES {
        let lower = name.to_ascii_lowercase();
        assert!(matcher.matches(&lower), "{lower}");
        assert_eq!(matcher.reserved_name(&lower), Some(name));
    }
}

#[test]
fn names_are_reserved_in_mixed_case() {
    let matcher = ReservedNameMatcher::DosDevices;
    assert_eq!(matcher.reserved_name("cOn"), Some("CON"));
    assert_eq!(matcher.reserved_name("Lpt1"), Some("LPT1"));
    assert_eq!(matcher.reserved_name("aUx"), Some("AUX"));
    assert_eq!(matcher.reserved_name("coM9"), Some("COM9"));
}

#[test]
fn a_reserved_name_inside_a_longer_path_is_not_reserved() {
    let matcher = ReservedNameMatcher::DosDevices;
    for path in ["dir/con", "./con", ".\\con", "con/", "con\\", "C:\\con", "con.txt", " con", "con ", "con."] {
        assert!(!matcher.matches(path), "{path}");
        assert_eq!(matcher.reserved_name(path), None);
    }
}

#[test]
fn near_misses_are_not_reserved() {
    let matcher = ReservedNameMatcher::DosDevices;
    for path in ["", "C", "CO", "COM", "LPT", "COM0", "LPT0", "COM10", "LPT10", "NULL", "AUXX", "PRM"] {
        assert!(!matcher.matches(path), "{path}");
    }
}

#[test]
fn only_ascii_letters_are_folded() {
    let matcher = ReservedNameMatcher::DosDevices;
    // a full-width letter is no ASCII letter, and an accent makes a longer text
    assert!(!matcher.matches("\u{ff43}on"));
    assert!(!matcher.matches("au\u{ff58}"));
    assert!(!matcher.matches("prn\u{0301}"));
}

#[test]
fn a_platform_without_reserved_names_reserves_nothing() {
    let matcher = ReservedNameMatcher::Inert;
    for name in RESERVED_NAMES {
        assert!(!matcher.matches(name));
        assert_eq!(matcher.reserved_name(name), None);
        assert!(!matcher.matches(&name.to_ascii_lowercase()));
    }
    assert!(!matcher.matches(""));
    assert!(!matcher.matches("dir/con"));
}

#[test]
fn is_reserved_path_asks_the_matcher() {
    assert!(is_reserved_path("con", &ReservedNameMatcher::DosDevices));
    assert!(is_reserved_path("NUL", &ReservedNameMatcher::DosDevices));
    assert!(!is_reserved_path("con", &ReservedNameMatcher::Inert));
    assert!(!is_reserved_path("console", &ReservedNameMatcher::DosDevices));
    assert!(!is_reserved_path("a/con", &ReservedNameMatcher::DosDevices));
}
