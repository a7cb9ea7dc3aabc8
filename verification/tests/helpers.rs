use myappassistant::dates::{date_before, format_ymd, Date};
use myappassistant::helpers::{format_date, get_file_extension, is_expired, is_expired_on};

#[test]
fn format_date_renders_an_iso_date() {
    assert_eq!(format_date("2024-01-05"), "05 Jan 2024");
}

#[test]
fn format_date_handles_a_leap_day() {
    assert_eq!(format_date("2024-02-29"), "29 Feb 2024");
}

#[test]
fn format_date_rejects_an_invalid_leap_day() {
    assert_eq!(format_date("2023-02-29"), "2023-02-29");
}

#[test]
fn format_date_passes_non_dates_through() {
    assert_eq!(format_date("soon"), "soon");
    assert_eq!(format_date(""), "");
    assert_eq!(format_date("2024-13-01"), "2024-13-01");
}

#[test]
fn format_date_pads_day_and_year() {
    assert_eq!(format_date("0001-12-31"), "31 Dec 0001");
    assert_eq!(format_date("0456-07-09"), "09 Jul 0456");
}

#[test]
fn format_date_signs_years_outside_four_digits() {
    // Years that do not fit four digits carry an explicit sign, as the
    // backend's date strings do.
    assert_eq!(format_date("+12345-06-07"), "07 Jun +12345");
    assert_eq!(format_date("-0308-03-14"), "14 Mar -0308");
    assert_eq!(format_ymd(Date { year: 12345, month: 6, day: 7 }), "07 Jun +12345");
    assert_eq!(format_ymd(Date { year: -5, month: 1, day: 2 }), "02 Jan -0005");
}

#[test]
fn format_ymd_covers_every_month() {
    let names = [
        "Jan", "Feb", "Mar", "Apr", "May", "Jun", "Jul", "Aug", "Sep", "Oct", "Nov", "Dec",
    ];
    for (i, name) in names.iter().enumerate() {
        let d = Date { year: 2026, month: (i + 1) as u32, day: 15 };
        assert_eq!(format_ymd(d), format!("15 {} 2026", name));
    }
}

#[test]
fn date_before_orders_lexicographically() {
    let a = Date { year: 2025, month: 12, day: 31 };
    let b = Date { year: 2026, month: 1, day: 1 };
    assert!(date_before(a, b));
    assert!(!date_before(b, a));
    assert!(!date_before(a, a));
    let c = Date { year: 2025, month: 12, day: 30 };
    assert!(date_before(c, a));
}

#[test]
fn is_expired_on_compares_against_the_given_day() {
    let today = Date { year: 2026, month: 1, day: 1 };
    assert!(is_expired_on("2025-12-31", today));
    assert!(!is_expired_on("2026-01-01", today));
    assert!(!is_expired_on("2026-01-02", today));
}

#[test]
fn is_expired_on_treats_non_dates_as_fresh() {
    let today = Date { year: 2026, month: 1, day: 1 };
    assert!(!is_expired_on("no date", today));
    assert!(!is_expired_on("", today));
}

#[test]
fn is_expired_uses_the_real_clock() {
    assert!(is_expired("1970-01-02"));
    assert!(!is_expired("9999-12-31"));
    assert!(!is_expired("not a date"));
}

#[test]
fn get_file_extension_takes_the_last_dot() {
    assert_eq!(get_file_extension("photo.jpg"), Some("jpg".to_string()));
    assert_eq!(get_file_extension("/tmp/a/archive.tar.gz"), Some("gz".to_string()));
    assert_eq!(get_file_extension("foo."), Some("".to_string()));
}

#[test]
fn get_file_extension_scopes_to_the_final_component() {
    assert_eq!(get_file_extension("dir.x/file"), None);
    assert_eq!(get_file_extension("dir.x/file.txt"), Some("txt".to_string()));
}

#[test]
fn get_file_extension_ignores_hidden_file_dots() {
    assert_eq!(get_file_extension(".bashrc"), None);
    assert_eq!(get_file_extension("/home/u/.bashrc"), None);
    assert_eq!(get_file_extension(".tar.gz"), Some("gz".to_string()));
}

#[test]
fn get_file_extension_needs_a_dot() {
    assert_eq!(get_file_extension("noext"), None);
    assert_eq!(get_file_extension(""), None);
    assert_eq!(get_file_extension("/tmp/dir/"), None);
}

#[test]
fn get_file_extension_ignores_trailing_separators() {
    assert_eq!(get_file_extension("photo.jpg/"), Some("jpg".to_string()));
    assert_eq!(get_file_extension("a/b.tar.gz//"), Some("gz".to_string()));
    assert_eq!(get_file_extension("/"), None);
    assert_eq!(get_file_extension("///"), None);
}

#[test]
fn get_file_extension_drops_dot_components() {
    assert_eq!(get_file_extension("a.b/."), Some("b".to_string()));
    assert_eq!(get_file_extension("a.b/./"), Some("b".to_string()));
    assert_eq!(get_file_extension("./a.txt"), Some("txt".to_string()));
    assert_eq!(get_file_extension("."), None);
    assert_eq!(get_file_extension("./"), None);
    assert_eq!(get_file_extension("..."), Some("".to_string()));
}

#[test]
fn get_file_extension_gives_parent_components_no_name() {
    assert_eq!(get_file_extension(".."), None);
    assert_eq!(get_file_extension("a/.."), None);
    assert_eq!(get_file_extension("a.b/../"), None);
}

#[test]
fn get_file_extension_agrees_with_the_platform() {
    // The contract's path handling mirrors std's.
    for p in [
        "photo.jpg", "photo.jpg/", "a/b.tar.gz//", "/", "///", "a.b/.", "a.b/./", "./a.txt",
        ".", "./", "...", "..", "a/..", "a.b/../", ".bashrc", ".tar.gz", "foo.", "noext",
        "/tmp/dir/", "dir.x/file", "dir.x/file.txt",
    ] {
        let expected = std::path::Path::new(p)
            .extension()
            .and_then(|e| e.to_str())
            .map(|e| e.to_string());
        assert_eq!(get_file_extension(p), expected, "path {:?}", p);
    }
}
