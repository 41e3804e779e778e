use mkv_batch::logger::{log_output_lines, section, Logger};
use mkv_batch::strutil;
use mkv_batch::substitutions::Substitutions;
use mkv_batch::media_info;
use mkv_batch::utils;

#[test]
fn str_helpers_behave_like_plain_strings() {
    assert!(strutil::str_eq("abc", "abc"));
    assert!(!strutil::str_eq("abc", "abd"));
    assert!(strutil::str_contains("hello world", "lo wo"));
    assert!(!strutil::str_contains("hello", "world"));
    assert!(strutil::str_contains("abc", ""));
    assert_eq!(strutil::replace_all("aaa", "aa", "b"), "ba");
    assert_eq!(strutil::replace_all("x%i%y%i%", "%i%", "in"), "xinyin");
    assert_eq!(strutil::trim("  spaced out \t"), "spaced out");
    assert_eq!(strutil::trim("   "), "");
    let pieces = strutil::split_str("a / b / ", " / ");
    assert_eq!(pieces, vec![String::from("a"), String::from("b"), String::from("")]);
}

#[test]
fn decimal_rendering_and_parsing() {
    assert_eq!(strutil::u64_to_string(0), "0");
    assert_eq!(strutil::u64_to_string(90210), "90210");
    assert_eq!(strutil::i32_to_string(-42), "-42");
    assert_eq!(strutil::padded_usize_to_string(7, 3), "007");
    assert_eq!(strutil::padded_usize_to_string(1234, 3), "1234");
    assert_eq!(strutil::parse_u32("4294967295"), Some(4294967295));
    assert_eq!(strutil::parse_u32("4294967296"), None);
    assert_eq!(strutil::parse_u32(""), None);
    assert_eq!(strutil::parse_u32("12a"), None);
    assert_eq!(strutil::parse_u32("0012"), Some(12));
}

#[test]
fn duration_formatting_pins_exact_phrases() {
    assert_eq!(utils::format_duration(0), "less than 1 second");
    assert_eq!(utils::format_duration(1), "1 second");
    assert_eq!(utils::format_duration(120), "2 minutes");
    assert_eq!(utils::format_duration(61), "1 minute, and 1 second");
    assert_eq!(utils::format_duration(90061), "1 day, 1 hour, 1 minute, and 1 second");
    let unit = utils::DurationUnit::new(3, "hour");
    assert_eq!(unit.render(), "3 hours");
}

#[test]
fn yes_no_rendering() {
    assert_eq!(utils::bool_to_yes_no(true), "yes");
    assert_eq!(utils::bool_to_yes_no(false), "no");
}

#[test]
fn path_helpers() {
    assert_eq!(utils::get_file_name("/a/b/c.txt"), Some(String::from("c.txt")));
    assert_eq!(utils::get_file_name("dir/"), None);
    // The extension comes back lowercased, so an upper-case one shrinks.
    assert_eq!(utils::get_file_extension("movie.MKV"), Some(String::from("mkv")));
    assert_eq!(utils::get_file_extension("archive.tar.GZ"), Some(String::from("gz")));
    assert_eq!(utils::get_file_extension("noext"), None);
    assert_eq!(utils::get_file_extension(".hidden"), None);
    assert_eq!(utils::swap_file_extension("clip.mp4", "mkv"), "clip.mkv");
    assert_eq!(utils::swap_file_extension("clip", "mkv"), "clip.mkv");
    let segs = vec![String::from("7"), String::from("tracks")];
    assert_eq!(utils::join_path_segments("/tmp/work", &segs), "/tmp/work/7/tracks");
    assert_eq!(utils::join_path_segments("", &segs), "7/tracks");
}

#[test]
fn substitutions_apply_in_order() {
    let mut subs = Substitutions {
        convert_to_proper_title_case: false,
        regular_expressions: vec![(String::from("[0-9]+"), String::from("#"))],
        strings: vec![(String::from("&"), String::from("and"))],
        strip_invalid_ntfs_chars: true,
        fix_case_after_dashes: false,
        regex_internal: Vec::new(),
    };
    assert!(subs.initialize_regex());
    // The regex replaces only the leftmost match; the string substitution
    // replaces everywhere; the NTFS strip removes the colon and question mark.
    assert_eq!(subs.apply(" e12 & e34: why? "), "e# and e34 why");
}

#[test]
fn substitutions_title_case_uses_titlecase_rules() {
    let mut subs = Substitutions {
        convert_to_proper_title_case: true,
        regular_expressions: Vec::new(),
        strings: Vec::new(),
        strip_invalid_ntfs_chars: false,
        fix_case_after_dashes: false,
        regex_internal: Vec::new(),
    };
    assert!(subs.initialize_regex());
    assert_eq!(subs.apply("hello world"), "Hello World");
}

#[test]
fn substitutions_fix_case_after_dashes() {
    let mut subs = Substitutions {
        convert_to_proper_title_case: false,
        regular_expressions: Vec::new(),
        strings: Vec::new(),
        strip_invalid_ntfs_chars: false,
        fix_case_after_dashes: true,
        regex_internal: Vec::new(),
    };
    assert!(subs.initialize_regex());
    assert_eq!(subs.apply("Alpha – beta"), "Alpha – Beta");
}

#[test]
fn substitutions_reject_malformed_regex() {
    let mut subs = Substitutions {
        convert_to_proper_title_case: false,
        regular_expressions: vec![(String::from("(oops"), String::from("x"))],
        strings: Vec::new(),
        strip_invalid_ntfs_chars: false,
        fix_case_after_dashes: false,
        regex_internal: Vec::new(),
    };
    assert!(!subs.initialize_regex());
}

#[test]
fn logger_buffers_sections_and_output_lines() {
    let mut logger = Logger::new();
    section(&mut logger, "Setup", false);
    assert_eq!(logger.entries.len(), 1);
    let banner = &logger.entries[0].0;
    assert_eq!(banner.len(), 62);
    assert!(banner.starts_with("---------------------------Setup"));
    assert!(banner.ends_with("\r\n"));

    section(&mut logger, "Next", false);
    // A later section gets a blank line first.
    assert_eq!(logger.entries[1].0, "\r\n");

    log_output_lines(&mut logger, "one\r\n\r\ntwo", true);
    let tail: Vec<String> = logger.entries[3..].iter().map(|e| e.0.clone()).collect();
    assert_eq!(tail, vec![String::from(">\tone\r\n"), String::from(">\ttwo\r\n")]);
}

#[test]
fn media_info_field_mapping() {
    assert_eq!(media_info::string_to_i32("-17"), Some(-17));
    assert_eq!(media_info::string_to_i32("2147483647"), Some(2147483647));
    assert_eq!(media_info::string_to_i32("2147483648"), None);
    assert_eq!(media_info::string_to_i32("-2147483648"), Some(-2147483648));
    assert_eq!(media_info::string_to_i32("x1"), None);
    assert_eq!(media_info::string_to_language_id("und"), "en");
    assert_eq!(media_info::string_to_language_id("ja"), "ja");
    assert_eq!(media_info::yes_no_to_bool("Yes"), Some(true));
    assert_eq!(media_info::yes_no_to_bool("NO"), Some(false));
    assert_eq!(media_info::yes_no_to_bool("maybe"), None);
    assert_eq!(
        media_info::attachment_string_to_vector("font.ttf / cover.png"),
        vec![String::from("font.ttf"), String::from("cover.png")]
    );
    assert_eq!(media_info::default_track_index(), -1);
    assert_eq!(media_info::default_track_language(), "en");
}
