use rotatelog::{
    archive_path, current_path, date_changed, dated_filename, is_archive_path, join_path,
    stamp_label, watch_now, Stamp,
};

fn stamp(year: i32, month: u32, day: u32, hour: u32, minute: u32, second: u32) -> Stamp {
    Stamp { year, month, day, hour, minute, second }
}

#[test]
fn label_of_a_day() {
    assert_eq!(stamp_label(&stamp(2024, 3, 5, 7, 8, 9), false), "2024-03-05");
}

#[test]
fn label_with_time_of_day() {
    assert_eq!(stamp_label(&stamp(2024, 3, 5, 7, 8, 9), true), "2024-03-05.070809");
}

#[test]
fn label_pads_small_years() {
    assert_eq!(stamp_label(&stamp(987, 12, 31, 23, 59, 59), true), "0987-12-31.235959");
}

#[test]
fn dated_filename_joins_base_and_date() {
    assert_eq!(dated_filename("app", &stamp(2023, 11, 1, 0, 0, 0), false), "app-2023-11-01");
    assert_eq!(dated_filename("app", &stamp(2024, 2, 29, 13, 4, 5), true), "app-2024-02-29.130405");
}

#[test]
fn join_adds_one_separator() {
    assert_eq!(join_path("/var/log", "app"), "/var/log/app");
    assert_eq!(join_path("/var/log/", "app"), "/var/log/app");
    assert_eq!(join_path("", "app"), "app");
}

#[test]
fn archive_names() {
    assert_eq!(archive_path("/l/app-2024-01-01"), "/l/app-2024-01-01.gz");
    assert!(is_archive_path("/l/app-2024-01-01.gz"));
    assert!(is_archive_path(".gz"));
    assert!(!is_archive_path("gz"));
    assert!(!is_archive_path("/l/app-2024-01-01"));
    assert!(!is_archive_path("/l/app.gzip"));
}

#[test]
fn date_change_looks_at_the_date_only() {
    let a = stamp(2024, 1, 1, 23, 59, 59);
    assert!(!date_changed(&a, &stamp(2024, 1, 1, 0, 0, 0)));
    assert!(date_changed(&a, &stamp(2024, 1, 2, 0, 0, 0)));
    assert!(date_changed(&a, &stamp(2025, 1, 1, 23, 59, 59)));
    assert!(date_changed(&a, &stamp(2024, 2, 1, 23, 59, 59)));
}

#[test]
fn current_path_names_a_dated_file() {
    let (path, now) = current_path("/srv/logs", "web", false).unwrap();
    let expected = format!("/srv/logs/web-{:04}-{:02}-{:02}", now.year, now.month, now.day);
    assert_eq!(path, expected);
    let (fine, now) = current_path("/srv/logs", "web", true).unwrap();
    assert!(fine.starts_with(&format!("/srv/logs/web-{:04}-{:02}-{:02}.", now.year, now.month, now.day)));
    assert_eq!(fine.len(), "/srv/logs/web-YYYY-MM-DD.HHMMSS".len());
}

#[test]
fn watching_reads_a_real_clock() {
    let (now, step) = watch_now(&stamp(2000, 1, 1, 0, 0, 0)).unwrap();
    assert!(step.rotation_due);
    assert!((1..=12).contains(&now.month) && (1..=31).contains(&now.day));
    assert!(now.hour < 24 && now.minute < 60 && now.second < 60);
    assert_eq!(step.near_end, now.minute >= 59);
    assert_eq!(step.sleep_secs, if step.near_end { 1 } else { 59 });
}

#[test]
fn label_signs_years_beyond_four_digits() {
    assert_eq!(stamp_label(&stamp(12345, 1, 2, 0, 0, 0), false), "+12345-01-02");
    assert_eq!(stamp_label(&stamp(-5, 3, 1, 0, 0, 0), false), "-0005-03-01");
    assert_eq!(stamp_label(&stamp(-12345, 3, 1, 0, 0, 0), false), "-12345-03-01");
}
