use judger::metadata::get_ms;
use judger::metadata::get_u64;
use judger::metadata::metadata_file_to_hashmap;

#[test]
fn parses_key_value_lines() {
    let t = metadata_file_to_hashmap("time: 0.002\nmax-rss: 1234\nkilled:1\n");
    assert_eq!(get_u64(&t, "max-rss"), 1234);
    assert_eq!(get_u64(&t, "killed"), 1);
}

#[test]
fn missing_key_reads_as_zero() {
    let t = metadata_file_to_hashmap("time: 0.002\n");
    assert_eq!(get_u64(&t, "max-rss"), 0);
    assert_eq!(get_ms(&t, "wall-time"), 0);
}

#[test]
fn unparseable_value_reads_as_zero() {
    let t = metadata_file_to_hashmap("max-rss: lots\ntime: fast\n");
    assert_eq!(get_u64(&t, "max-rss"), 0);
    assert_eq!(get_ms(&t, "time"), 0);
}

#[test]
fn first_colon_wins() {
    let t = metadata_file_to_hashmap("status: RE: signal 11\n");
    let v = t.get("status").unwrap();
    assert_eq!(v, "RE: signal 11");
}

#[test]
fn both_sides_are_trimmed() {
    let t = metadata_file_to_hashmap("  max-rss  :   42  \n");
    assert_eq!(get_u64(&t, "max-rss"), 42);
}

#[test]
fn lines_without_colon_contribute_nothing() {
    let t = metadata_file_to_hashmap("garbage\nmax-rss: 7\n\n");
    assert_eq!(get_u64(&t, "max-rss"), 7);
    assert!(t.get("garbage").is_none());
}

#[test]
fn later_entries_win() {
    let t = metadata_file_to_hashmap("k: 1\nk: 2\n");
    assert_eq!(get_u64(&t, "k"), 2);
}

#[test]
fn seconds_become_milliseconds() {
    let t = metadata_file_to_hashmap("a: 0.002\nb: 1.5\nc: 2\nd: 0.0267\ne: .5\nf: 3.\n");
    assert_eq!(get_ms(&t, "a"), 2);
    assert_eq!(get_ms(&t, "b"), 1500);
    assert_eq!(get_ms(&t, "c"), 2000);
    assert_eq!(get_ms(&t, "d"), 26);
    assert_eq!(get_ms(&t, "e"), 500);
    assert_eq!(get_ms(&t, "f"), 3000);
}

#[test]
fn numbers_with_plus_sign_parse() {
    let t = metadata_file_to_hashmap("k: +5\n");
    assert_eq!(get_u64(&t, "k"), 5);
}

#[test]
fn overflowing_numbers_read_as_zero() {
    let t = metadata_file_to_hashmap("k: 99999999999999999999999999\n");
    assert_eq!(get_u64(&t, "k"), 0);
}

#[test]
fn contains_key_reports_presence() {
    let t = metadata_file_to_hashmap("killed: 1\n");
    assert!(t.contains_key("killed"));
    assert!(!t.contains_key("status"));
}

#[test]
fn has_value_compares_exactly() {
    let t = metadata_file_to_hashmap("status: TO\n");
    assert!(t.has_value("status", "TO"));
    assert!(!t.has_value("status", "RE"));
    assert!(!t.has_value("exitsig", "11"));
}
