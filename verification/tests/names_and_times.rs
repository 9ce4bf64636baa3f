use chrono::TimeZone;
use live_replay::cli::{expand_path, expand_path_with};
use live_replay::clock::{
    format_id, local_time, new_id, saturating_after, saturating_gap, saturating_later, IdCounter,
};
use live_replay::naming::{
    join_path, parse_source_name, raw_prefix, raw_source_extension, safe_file_component, source_name,
};
use live_replay::paths::{
    is_same_path, path_components,
    extension, extension_is, file_name, file_stem, split_file_name, with_extension,
};
use live_replay::retry::{next_retry_timestamp, retry_at, upload_backoff, verification_backoff};
use live_replay::text::{
    decimal_i64, decimal_u64, join, lower, not_after, padded_i64, parse_unsigned,
    push_decimal_u128, push_hex, rsplit_once, split_once, strip_prefix, take_chars, trim,
    trim_of, trim_start_of, zero_fill,
};

fn texts(items: &[&str]) -> Vec<String> {
    items.iter().map(|item| item.to_string()).collect()
}

#[test]
fn numbers_are_written_in_decimal() {
    assert_eq!(decimal_u64(0), "0");
    assert_eq!(decimal_u64(u64::MAX), u64::MAX.to_string());
    assert_eq!(decimal_i64(-42), "-42");
    assert_eq!(decimal_i64(i64::MIN), i64::MIN.to_string());
    let mut out = String::from("n=");
    push_decimal_u128(&mut out, u128::MAX);
    assert_eq!(out, format!("n={}", u128::MAX));
}

#[test]
fn numbers_are_padded_as_the_formatter_pads_them() {
    assert_eq!(padded_i64(7, 4), format!("{:04}", 7));
    assert_eq!(padded_i64(-7, 4), format!("{:04}", -7));
    assert_eq!(padded_i64(123456, 4), "123456");
    assert_eq!(zero_fill("12", 5), "00012");
    let mut out = String::new();
    push_hex(&mut out, 0xab, 16);
    assert_eq!(out, format!("{:016x}", 0xab));
}

#[test]
fn numbers_are_read_as_std_reads_them() {
    for text in ["0", "007", "+5", "", "+", "-1", "4294967295", "4294967296", "1a", " 1"] {
        assert_eq!(
            parse_unsigned(text, u32::MAX as u64),
            text.parse::<u32>().ok().map(u64::from),
            "{text}"
        );
    }
    assert_eq!(parse_unsigned("18446744073709551615", u64::MAX), Some(u64::MAX));
    assert_eq!(parse_unsigned("18446744073709551616", u64::MAX), None);
}

#[test]
fn texts_are_cut_as_std_cuts_them() {
    assert_eq!(trim(" \u{3000}名字\t\n"), " \u{3000}名字\t\n".trim());
    assert_eq!(trim_of("..a.b..", '.'), "a.b");
    assert_eq!(trim_start_of("..a.", '.'), "a.");
    assert_eq!(split_once("a-b-c", "-"), Some(("a".to_string(), "b-c".to_string())));
    assert_eq!(rsplit_once("a-b-c", "-"), Some(("a-b".to_string(), "c".to_string())));
    assert_eq!(split_once("abc", "-"), None);
    assert_eq!(strip_prefix(".lr-x", ".lr-"), Some("x".to_string()));
    assert_eq!(strip_prefix("x", ".lr-"), None);
    assert_eq!(take_chars("直播回放", 2), "直播");
    assert_eq!(join(&texts(&["a", "b", "c"]), "; "), "a; b; c");
    assert_eq!(join(&texts(&[]), "; "), "");
    assert_eq!(lower("AbC-中"), "abc-中");
}

#[test]
fn texts_are_ordered_as_std_orders_them() {
    let words = ["", "a", "aa", "ab", "b", "中", "文"];
    for a in words {
        for b in words {
            assert_eq!(not_after(a, b), a <= b, "{a:?} {b:?}");
        }
    }
}

#[test]
fn unsafe_characters_leave_a_file_name() {
    assert_eq!(safe_file_component("a/b\\c:d*e?f\"g<h>i|j\u{7}k"), "a_b_c_d_e_f_g_h_i_j_k");
    assert_eq!(safe_file_component("  ..name..  "), "name");
    assert_eq!(safe_file_component(" . "), "live-replay");
    assert_eq!(safe_file_component(""), "live-replay");
    assert_eq!(safe_file_component(&"播".repeat(100)), "播".repeat(80));
}

#[test]
fn source_names_read_back() {
    let name = source_name("甲-P7-x", 12, "flv");
    assert_eq!(name, ".lr-甲-P7-x-P12-source.flv");
    assert_eq!(
        parse_source_name(&name),
        Some(("甲-P7-x".to_string(), 12, "flv".to_string()))
    );
    assert_eq!(parse_source_name(".lr-a-P1-source.mp4"), None);
    assert_eq!(parse_source_name(".lr-a-P4294967296-source.ts"), None);
    assert_eq!(parse_source_name("a-P1-source.ts"), None);
    assert_eq!(parse_source_name(".lr-a-1-source.ts"), None);
    assert_eq!(parse_source_name(".lr-a-P1.ts"), None);
}

#[test]
fn raw_files_are_known_by_their_ending() {
    assert_eq!(raw_source_extension("x.FLV"), Some("flv"));
    assert_eq!(raw_source_extension("x.flv.part"), Some("flv"));
    assert_eq!(raw_source_extension("x.ts.PART"), Some("ts"));
    assert_eq!(raw_source_extension("x.mp4"), None);
    assert_eq!(raw_prefix("s1"), ".lr-s1-raw-");
}

#[test]
fn paths_are_taken_apart_as_std_takes_them_apart() {
    let paths = [
        "", "/", ".", "..", "a", "a.mp4", "/x/a.b.ts", "x/.hidden", "x/a.", "x/..", "x/a/", "x/a/.",
        ".lr", "a..b", "x//y.flv", "dir.d/file",
    ];
    for path in paths {
        let std_path = std::path::Path::new(path);
        assert_eq!(file_name(path).as_deref(), std_path.file_name().and_then(|n| n.to_str()), "{path}");
        assert_eq!(file_stem(path).as_deref(), std_path.file_stem().and_then(|n| n.to_str()), "{path}");
        assert_eq!(extension(path).as_deref(), std_path.extension().and_then(|n| n.to_str()), "{path}");
    }
    assert_eq!(split_file_name("a.b.c"), ("a.b".to_string(), Some("c".to_string())));
    for path in ["x/a.flv", "x/a", "a.b.ts", "/x/.hidden"] {
        assert_eq!(
            with_extension(path, "mp4"),
            std::path::Path::new(path).with_extension("mp4").to_str().unwrap(),
            "{path}"
        );
    }
    assert!(extension_is("/x/a.XML", "xml"));
    assert!(!extension_is("/x/xml", "xml"));
    assert_eq!(join_path("/x", "a"), "/x/a");
    assert_eq!(join_path("/x/", "a"), "/x/a");
    assert_eq!(join_path("", "a"), "a");
}

#[test]
fn identifiers_hold_prefix_time_and_number() {
    assert_eq!(format_id("upload", 1_700_000_000_123, 4), "upload-1700000000123-4");
    let mut counter = IdCounter::new();
    let first = new_id(&mut counter, "job");
    let second = new_id(&mut counter, "job");
    assert!(first.starts_with("job-") && first.ends_with("-0"));
    assert!(second.ends_with("-1"));
    let millis: i64 = first.split('-').nth(1).unwrap().parse().unwrap();
    let now = std::time::SystemTime::now()
        .duration_since(std::time::UNIX_EPOCH)
        .unwrap()
        .as_millis() as i64;
    assert!((now - millis).abs() < 60_000);
    let mut last = IdCounter { next: u64::MAX };
    assert_eq!(last.take(), u64::MAX);
    assert_eq!(last.next, 0);
}

#[test]
fn local_times_are_those_of_the_calendar() {
    let at = 1_700_000_000;
    let reading = local_time(at);
    let expected = chrono::Local.timestamp_opt(at, 0).single().unwrap();
    assert_eq!(reading.timestamp, at);
    assert_eq!(reading.date, expected.format("%Y-%m-%d").to_string());
    assert_eq!(reading.hour, expected.format("%H").to_string());
    assert_eq!(reading.minute, expected.format("%M").to_string());
    assert_eq!(reading.second, expected.format("%S").to_string());
    assert_eq!(reading.stamp.len(), 17);
}

#[test]
fn a_time_outside_the_calendar_is_read_as_now() {
    let reading = local_time(i64::MAX);
    let now = chrono::Utc::now().timestamp();
    assert!((now - reading.timestamp).abs() < 60);
    assert_eq!(reading.hour.len(), 2);
}

#[test]
fn times_stay_in_range() {
    assert_eq!(saturating_gap(i64::MIN, 1), i64::MIN);
    assert_eq!(saturating_gap(10, 3), 7);
    assert_eq!(saturating_later(i64::MAX, 1), i64::MAX);
    assert_eq!(saturating_later(5, -8), -3);
    assert_eq!(saturating_after(0, u64::MAX), i64::MAX);
    assert_eq!(saturating_after(-5, 8), 3);
}

#[test]
fn delays_double_and_are_capped() {
    let upload: Vec<i64> = (0..12).map(|attempt| retry_at(attempt, 1000) - 1000).collect();
    assert_eq!(upload, [5, 10, 20, 40, 80, 160, 320, 640, 1280, 2560, 3600, 3600]);
    let parts: Vec<i64> = (0..10).map(upload_backoff).collect();
    assert_eq!(parts, [30, 30, 60, 120, 240, 480, 960, 1920, 3600, 3600]);
    let looks: Vec<i64> = (0..9).map(verification_backoff).collect();
    assert_eq!(looks, [5, 5, 10, 20, 40, 80, 160, 160, 160]);
    assert_eq!(retry_at(u32::MAX, i64::MAX), i64::MAX);
}

#[test]
fn a_retry_time_counts_from_now() {
    let now = chrono::Utc::now().timestamp();
    let at = next_retry_timestamp(2);
    assert!(at >= now + 20 && at <= now + 80);
}

#[test]
fn a_tilde_stands_for_the_home_directory() {
    assert_eq!(expand_path("data/x"), "data/x");
    assert_eq!(expand_path("/data/~x"), "/data/~x");
    let expanded = expand_path("~/x");
    assert!(expanded.ends_with("/x"));
    assert_eq!(expand_path_with("~/x", Some("/home/a")), "/home/a/x");
    assert_eq!(expand_path_with("~", Some("/home/a")), "/home/a");
    assert_eq!(expand_path_with("~b/x", Some("/home/a")), "~b/x");
    assert_eq!(expand_path_with("~/x", None), "~/x");
}

#[test]
fn paths_are_compared_by_their_components() {
    for (a, b) in [("a/b", "a//b"), ("a/b", "a/b/"), ("a/b", "a/./b/."), ("/a", "//./a"), ("", "")] {
        assert!(is_same_path(a, b), "{a} {b}");
    }
    for (a, b) in [("a", "./a"), ("a", "/a"), ("a/../b", "b"), ("", "/"), ("", "."), ("a", "A")] {
        assert!(!is_same_path(a, b), "{a} {b}");
    }
    for (a, b) in [
        ("a/b", "a//b"), ("./a/.", "./a"), ("/./a", "/a"), ("a", "./a"), ("..", "../."), ("/", "//"),
        (".", "./"), ("a/..", "a"), ("", "."),
    ] {
        let known = std::path::Path::new(a) == std::path::Path::new(b);
        assert_eq!(is_same_path(a, b), known, "{a} {b}");
    }
    assert_eq!(path_components("./a//./b/.."), [".", "a", "b", ".."]);
    assert!(path_components("/").is_empty());
}
