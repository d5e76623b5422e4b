use code_core::log_dirs::{migrate_entry, migrate_legacy_log_dirs};
use code_core::omap::OrderedMap;
use code_core::text::{
    contains, decimal_text, eq_ignore_ascii_case, join, replace, starts_with, str_eq,
    str_lt, take_chars, to_ascii_lowercase, trim, trim_end_matches, trim_matches, trim_start,
    trim_start_matches,
};
use code_core::time::{nanos_of_days, nanos_of_hours, Timestamp};

#[test]
fn texts_are_trimmed_and_compared() {
    assert_eq!(trim("\u{3000} a b\t\n"), "a b");
    assert_eq!(trim(" \u{200b} "), "\u{200b}");
    assert_eq!(trim_start("  a "), "a ");
    assert_eq!(trim(&trim("  x ")), "x");
    assert!(str_eq("ä", "ä"));
    assert!(str_lt("a", "b") && str_lt("a", "ab") && !str_lt("b", "a") && !str_lt("a", "a"));
    assert!(eq_ignore_ascii_case("GpT", "gPt") && !eq_ignore_ascii_case("Ä", "ä"));
    assert_eq!(to_ascii_lowercase("AÄz"), "aÄz");
    assert!(starts_with("abc", "ab") && !starts_with("a", "ab"));
    assert!(contains("abc", "bc") && contains("", "") && !contains("abc", "ca"));
}

#[test]
fn texts_are_cut_and_joined() {
    assert_eq!(trim_end_matches("a//", '/'), "a");
    assert_eq!(trim_start_matches("//a/", '/'), "a/");
    assert_eq!(trim_matches("\"a\"", '"'), "a");
    assert_eq!(take_chars("äöü", 2), "äö");
    assert_eq!(replace("aXbX", "X", "--"), "a--b--");
    assert_eq!(replace("aaa", "aa", "b"), "ba");
    assert_eq!(join(&vec!["a".to_string(), "b".to_string()], ", "), "a, b");
    assert_eq!(decimal_text(0), "0");
    assert_eq!(decimal_text(18_446_744_073_709_551_615), "18446744073709551615");
}

#[test]
fn map_keeps_its_keys_in_order() {
    let mut m: OrderedMap<u32> = OrderedMap::new();
    m.insert("b".to_string(), 1);
    m.insert("a".to_string(), 2);
    m.insert("b".to_string(), 3);
    assert_eq!(m.keys(), vec!["a".to_string(), "b".to_string()]);
    assert_eq!(m.get("b"), Some(&3));
    assert_eq!(m.remove("a"), Some(2));
    assert_eq!(m.remove("a"), None);
    assert!(!m.contains_key("a"));
    assert_eq!(m.len(), 1);
    assert_eq!(m.into_entries(), vec![("b".to_string(), 3)]);
}

#[test]
fn times_are_read_and_written() {
    let t = Timestamp::parse("2026-02-01T01:00:00.5+01:00").expect("a time");
    assert_eq!(t.to_rfc3339(), "2026-02-01T00:00:00.500+00:00");
    assert_eq!((t.secs(), t.nanos()), (1_769_904_000, 500_000_000));
    assert!(Timestamp::parse("yesterday").is_none());
    let later = Timestamp::new(t.secs() + 86_400, 0).expect("a time");
    assert!(t.is_before(&later) && !later.is_before(&t));
    assert_eq!(later.since(&t), 86_399_500_000_000);
    assert_eq!(nanos_of_days(1), 86_400_000_000_000);
    assert_eq!(nanos_of_hours(1), 3_600_000_000_000);
    assert_eq!(nanos_of_hours(-1), 0);
    assert!(Timestamp::new(0, 2_000_000_000).is_none());
    assert!(!Timestamp::now().is_before(&t));
}

#[test]
fn logs_of_old_are_moved() {
    let moves = migrate_legacy_log_dirs("/home/x/.code");
    assert_eq!(moves.len(), 2);
    assert_eq!(moves[0].source.parts, vec!["log"]);
    assert_eq!(moves[1].source.parts, vec!["logs"]);
    for m in &moves {
        assert_eq!(m.target.base, "/home/x/.code");
        assert_eq!(m.target.parts, vec!["debug_logs"]);
    }
}

#[test]
fn moved_file_gets_the_first_free_name() {
    let taken = |v: &[&str]| v.iter().map(|s| s.to_string()).collect::<Vec<String>>();
    assert_eq!(migrate_entry(Some("a.log"), &taken(&["b.log"])), Some("a.log".to_string()));
    assert_eq!(
        migrate_entry(Some("a.log"), &taken(&["a.log"])),
        Some("a.log.legacy.1".to_string())
    );
    assert_eq!(
        migrate_entry(Some("a.log"), &taken(&["a.log", "a.log.legacy.1", "a.log.legacy.3"])),
        Some("a.log.legacy.2".to_string())
    );
    assert_eq!(migrate_entry(None, &taken(&["a.log"])), None);
}
