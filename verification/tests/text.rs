use etch::decimal::{parse_decimal, push_decimal, push_hex2};
use etch::metrics::{average_speed_centis, elapsed_centis, parse_fixed2, push_fixed2};
use etch::paths::{has_extension, path_file_name, path_is_dev_entry};
use etch::text::{chars_of, find_text, holds, string_of, text_find, text_find_from};
use etch::words::{next_line, next_word, text_trim};

fn chars(s: &str) -> Vec<char> {
    s.chars().collect()
}

fn text(c: &[char]) -> String {
    c.iter().collect()
}

#[test]
fn chars_and_strings_convert_both_ways() {
    assert_eq!(chars_of("a\u{e9}\u{2713}z"), vec!['a', '\u{e9}', '\u{2713}', 'z']);
    assert_eq!(chars_of(""), Vec::<char>::new());
    assert_eq!(string_of(&['o', 'k', '\u{b7}']), "ok\u{b7}");
    assert_eq!(string_of(&[]), "");
}

#[test]
fn find_gives_the_first_occurrence() {
    let s = chars("/devices/usb1/1-1/usb2/x");
    let usb = chars("/usb");
    assert_eq!(text_find(&s, &usb), Some(8));
    assert_eq!(text_find_from(&s, &usb, 9), Some(17));
    assert_eq!(text_find_from(&s, &usb, 18), None);
    assert_eq!(text_find_from(&s, &usb, 1000), None);
    assert_eq!(text_find(&s, &[]), Some(0));
    assert_eq!(text_find_from(&s, &[], s.len()), Some(s.len()));
    assert_eq!(find_text(&s, "usb2", 0), Some(18));
    assert!(holds(&s, "1-1"));
    assert!(!holds(&s, "1-2"));
    assert!(!holds(&chars("ab"), "abc"));
}

#[test]
fn trim_takes_whitespace_off_both_ends() {
    assert_eq!(text(text_trim(&chars("  \t 1\n"))), "1");
    assert_eq!(text(text_trim(&chars("a b"))), "a b");
    assert_eq!(text(text_trim(&chars(" \u{a0}\u{3000} "))), "");
    assert_eq!(text(text_trim(&chars(""))), "");
    assert_eq!(text(text_trim(&chars("\u{2028}x\u{85}"))), "x");
}

#[test]
fn words_are_runs_without_whitespace() {
    let s = chars("  one\ttwo  three ");
    assert_eq!(next_word(&s, 0), Some((2, 5)));
    assert_eq!(next_word(&s, 5), Some((6, 9)));
    assert_eq!(next_word(&s, 9), Some((11, 16)));
    assert_eq!(next_word(&s, 16), None);
    assert_eq!(next_word(&s, s.len()), None);
}

#[test]
fn lines_end_at_line_feeds() {
    let s = chars("a\r\nb\n\nc\r");
    let (l, n) = next_line(&s, 0).unwrap();
    assert_eq!((text(l), n), ("a".to_string(), 3));
    let (l, n) = next_line(&s, n).unwrap();
    assert_eq!((text(l), n), ("b".to_string(), 5));
    let (l, n) = next_line(&s, n).unwrap();
    assert_eq!((text(l), n), (String::new(), 6));
    let (l, n) = next_line(&s, n).unwrap();
    assert_eq!((text(l), n), ("c\r".to_string(), 8));
    assert!(next_line(&s, n).is_none());
    let t = chars("x\n");
    let (l, n) = next_line(&t, 0).unwrap();
    assert_eq!((text(l), n), ("x".to_string(), 2));
    assert!(next_line(&t, n).is_none());
}

#[test]
fn decimal_numbers_read_and_write() {
    assert_eq!(parse_decimal(&chars("0"), 255), Some(0));
    assert_eq!(parse_decimal(&chars("255"), 255), Some(255));
    assert_eq!(parse_decimal(&chars("256"), 255), None);
    assert_eq!(parse_decimal(&chars("+1"), 255), Some(1));
    assert_eq!(parse_decimal(&chars("0001"), 255), Some(1));
    assert_eq!(parse_decimal(&chars(""), 255), None);
    assert_eq!(parse_decimal(&chars("+"), 255), None);
    assert_eq!(parse_decimal(&chars("-1"), 255), None);
    assert_eq!(parse_decimal(&chars("1 "), 255), None);
    assert_eq!(parse_decimal(&chars("1a"), 255), None);
    assert_eq!(parse_decimal(&chars("\u{661}"), 255), None);
    assert_eq!(parse_decimal(&chars("18446744073709551615"), u64::MAX), Some(u64::MAX));
    assert_eq!(parse_decimal(&chars("18446744073709551616"), u64::MAX), None);
    assert_eq!(parse_decimal(&chars("99999999999999999999999"), u64::MAX), None);
    let mut out = chars("n=");
    push_decimal(&mut out, 0);
    push_decimal(&mut out, 1907);
    assert_eq!(text(&out), "n=01907");
    let mut hex = Vec::new();
    push_hex2(&mut hex, 0x00);
    push_hex2(&mut hex, 0x0a);
    push_hex2(&mut hex, 0xff);
    assert_eq!(text(&hex), "000aff");
}

#[test]
fn figures_have_two_decimal_places() {
    let mut out = Vec::new();
    push_fixed2(&mut out, 0);
    out.push(' ');
    push_fixed2(&mut out, 7);
    out.push(' ');
    push_fixed2(&mut out, 123456);
    assert_eq!(text(&out), "0.00 0.07 1234.56");
    assert_eq!(parse_fixed2(&chars("1234.56")), Some(123456));
    assert_eq!(parse_fixed2(&chars("0.07")), Some(7));
    assert_eq!(parse_fixed2(&chars(".07")), None);
    assert_eq!(parse_fixed2(&chars("1.5")), None);
    assert_eq!(parse_fixed2(&chars("1.567")), None);
    assert_eq!(parse_fixed2(&chars("1,50")), None);
    assert_eq!(parse_fixed2(&chars("184467440737095516.15")), Some(u64::MAX));
    assert_eq!(parse_fixed2(&chars("184467440737095516.16")), None);
}

#[test]
fn metrics_round_to_the_nearest_hundredth() {
    assert_eq!(elapsed_centis(0, 12_344_999_999), 1234);
    assert_eq!(elapsed_centis(0, 12_345_000_000), 1235);
    assert_eq!(elapsed_centis(5, 4), 0);
    // 1 GB in 10 s is 100 MB/s.
    assert_eq!(average_speed_centis(1_000_000_000, 0, 10_000_000_000), 10000);
    // 10 MiB in 0.125 s is 83.886 MB/s.
    assert_eq!(average_speed_centis(10_485_760, 1_000, 125_001_000), 8389);
    assert_eq!(average_speed_centis(10_485_760, 7, 7), 0);
    assert_eq!(average_speed_centis(u64::MAX, 0, 1), u64::MAX);
}

#[test]
fn file_names_are_final_components() {
    let name = |p: &str| path_file_name(&chars(p)).map(text);
    assert_eq!(name("/dev/sda1"), Some("sda1".to_string()));
    assert_eq!(name("/usr/bin/"), Some("bin".to_string()));
    assert_eq!(name("tmp/foo.txt"), Some("foo.txt".to_string()));
    assert_eq!(name("foo.txt/."), Some("foo.txt".to_string()));
    assert_eq!(name("foo.txt/.//"), Some("foo.txt".to_string()));
    assert_eq!(name("foo.txt/.."), None);
    assert_eq!(name("/"), None);
    assert_eq!(name(""), None);
    assert_eq!(name("."), None);
    assert_eq!(name("./"), None);
    assert_eq!(name(".."), None);
    assert_eq!(name("..."), Some("...".to_string()));
    assert_eq!(name("rootfs"), Some("rootfs".to_string()));
}

#[test]
fn entries_of_dev_are_told_by_their_components() {
    let ok = |p: &str| path_is_dev_entry(&chars(p));
    assert!(ok("/dev/sdb"));
    assert!(ok("/dev//sdb"));
    assert!(ok("/dev/./sdb/"));
    assert!(ok("//dev/nvme0n1"));
    assert!(!ok("dev/sdb"));
    assert!(!ok("/dev"));
    assert!(!ok("/dev/"));
    assert!(!ok("/dev/disk/sdb"));
    assert!(!ok("/tmp/sdb"));
    assert!(!ok("/devices/sdb"));
    assert!(!ok("/dev/../dev/sdb"));
    assert!(!ok(""));
}

#[test]
fn extensions_follow_the_last_full_stop() {
    assert!(has_extension("/data/backups/cache_backup_20250101_120000.db", "db"));
    assert!(has_extension("a.tar.db", "db"));
    assert!(!has_extension("a.db.bak", "db"));
    assert!(!has_extension("db", "db"));
    assert!(!has_extension(".db", "db"));
    assert!(!has_extension("a.DB", "db"));
    assert!(!has_extension("a.", "db"));
    assert!(has_extension("dir.x/a.db/", "db"));
}
