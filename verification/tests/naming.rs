use limonium::date::Date;
use limonium::format::BackupFormat;
use limonium::naming::{
    bundle_file_name, day_prefix, embedded_date, extract_date_from_file_name, hash_file_name,
    next_sequence_number, payload_file_name,
};

#[test]
fn test_extract_date_from_file_name() {
    assert_eq!(extract_date_from_file_name(&"hub-everything-10-19-2023-1-bundle.tar.zst".to_string()), "10-19-2023");
    assert_eq!(extract_date_from_file_name(&"hub-11-15-2023-1-bundle.tar.zst".to_string()), "11-15-2023");
    assert_eq!(extract_date_from_file_name(&"hub-11-15-2023-2-bundle.tar.zst".to_string()), "11-15-2023");
    assert_eq!(extract_date_from_file_name(&"hub-10-30-2023-1-bundle.tar.zst".to_string()), "10-30-2023");
    assert_eq!(extract_date_from_file_name(&"testing-9-29-2023-1-bundle.tar.zst".to_string()), "9-29-2023");
    assert_eq!(extract_date_from_file_name(&"testing-9-29-2023-1-bundle.zip".to_string()), "9-29-2023");
    assert_eq!(extract_date_from_file_name(&"testing-9-29-2023-2-bundle.zip".to_string()), "9-29-2023");
    assert_eq!(extract_date_from_file_name(&"testing-everything-9-29-2023-1-bundle.zip".to_string()), "9-29-2023");
    assert_eq!(extract_date_from_file_name(&"hub-11-15-2023-1-bundle.tar.zst".to_string()), "11-15-2023");
    assert_eq!(extract_date_from_file_name(&"can-have-infinite-dashes-right-here-11-4-2023-1-bundle.tar.zst".to_string()), "11-4-2023");
    assert_eq!(extract_date_from_file_name(&"can-have-infinite-dashes-right-here-11-4-2023-2-bundle.tar.zst".to_string()), "11-4-2023");
    assert_eq!(extract_date_from_file_name(&"can-have-infinite-dashes-right-here-11-4-2023-1-bundle.zip".to_string()), "11-4-2023");
}

#[test]
fn extract_date_takes_leftmost_token_and_prefers_two_digits() {
    assert_eq!(extract_date_from_file_name(&"a-1-2-2020-b-3-4-2021".to_string()), "1-2-2020");
    assert_eq!(extract_date_from_file_name(&"x12-31-1999y".to_string()), "12-31-1999");
    assert_eq!(extract_date_from_file_name(&"123-4-2020".to_string()), "23-4-2020");
    assert_eq!(extract_date_from_file_name(&"1-2-20201".to_string()), "1-2-2020");
}

#[test]
fn extract_date_is_empty_without_token() {
    assert_eq!(extract_date_from_file_name(&"".to_string()), "");
    assert_eq!(extract_date_from_file_name(&"backup.tar.gz".to_string()), "");
    assert_eq!(extract_date_from_file_name(&"1-2-202".to_string()), "");
    assert_eq!(extract_date_from_file_name(&"1-234-2020".to_string()), "");
    assert_eq!(extract_date_from_file_name(&"1_2_2020".to_string()), "");
}

fn date(year: u32, month: u32, day: u32) -> Date {
    Date::from_parts(year as i32, month, day).expect("a date of the calendar")
}

#[test]
fn stamp_has_no_padding_but_in_the_year() {
    assert_eq!(date(2023, 9, 5).stamp(), "9-5-2023");
    assert_eq!(date(2023, 10, 19).stamp(), "10-19-2023");
    assert_eq!(date(987, 1, 1).stamp(), "1-1-0987");
    assert_eq!(date(0, 12, 31).stamp(), "12-31-0000");
    assert_eq!(date(9999, 12, 31).stamp(), "12-31-9999");
}

#[test]
fn file_names_follow_the_format() {
    let d = date(2023, 11, 4);
    assert_eq!(day_prefix("hub", &d), "hub-11-4-2023");
    assert_eq!(payload_file_name("hub", &d, BackupFormat::TarGz), "hub-11-4-2023.tar.gz");
    assert_eq!(payload_file_name("hub", &d, BackupFormat::TarZst), "hub-11-4-2023.tar.zst");
    assert_eq!(payload_file_name("hub", &d, BackupFormat::Zip), "hub-11-4-2023.zip");
    assert_eq!(hash_file_name("hub", &d), "hub-11-4-2023_hash.txt");
    assert_eq!(bundle_file_name("hub", &d, 1, BackupFormat::TarZst), "hub-11-4-2023-1-bundle.tar.zst");
    assert_eq!(bundle_file_name("hub", &d, 12, BackupFormat::Zip), "hub-11-4-2023-12-bundle.zip");
    assert_eq!(bundle_file_name("hub", &d, 0, BackupFormat::TarGz), "hub-11-4-2023-0-bundle.tar.gz");
}

#[test]
fn bundle_name_round_trips_to_its_date() {
    let names = ["hub", "hub-everything", "can-have-infinite-dashes-right-here", "a1", "x-5", "", "9"];
    let dates = [date(2023, 10, 19), date(2023, 9, 5), date(2024, 2, 29), date(1, 1, 1), date(9999, 12, 31)];
    let formats = [BackupFormat::TarGz, BackupFormat::TarZst, BackupFormat::Zip];
    for name in names {
        for d in dates {
            for seq in [1u64, 2, 10, 1234, 20231019] {
                for format in formats {
                    let file = bundle_file_name(name, &d, seq, format);
                    assert_eq!(extract_date_from_file_name(&file), d.stamp());
                    assert_eq!(embedded_date(&file), Some(d));
                }
            }
        }
    }
}

#[test]
fn name_with_a_date_token_of_its_own_hides_the_date() {
    let file = bundle_file_name("old-1-2-2020", &date(2023, 10, 19), 1, BackupFormat::Zip);
    assert_eq!(extract_date_from_file_name(&file), "1-2-2020");
}

#[test]
fn embedded_date_needs_a_day_of_the_calendar() {
    assert_eq!(embedded_date("hub-2-29-2024-1-bundle.zip"), Some(date(2024, 2, 29)));
    assert_eq!(embedded_date("hub-2-29-2023-1-bundle.zip"), None);
    assert_eq!(embedded_date("hub-13-1-2023-1-bundle.zip"), None);
    assert_eq!(embedded_date("hub-0-1-2023-1-bundle.zip"), None);
    assert_eq!(embedded_date("hub-4-31-2023-1-bundle.zip"), None);
    assert_eq!(embedded_date("hub-1-bundle.zip"), None);
    assert_eq!(embedded_date("hub-02-03-2023"), Some(date(2023, 2, 3)));
}

#[test]
fn three_bundles_of_one_day_are_numbered_one_two_three() {
    let d = date(2023, 10, 19);
    let mut listing: Vec<String> = vec!["other-10-19-2023-1-bundle.tar.gz".to_string(), "notes.txt".to_string()];
    let mut made = Vec::new();
    for _ in 0..3 {
        let seq = next_sequence_number(&listing, "testing", &d);
        let name = bundle_file_name("testing", &d, seq, BackupFormat::TarGz);
        assert!(!listing.contains(&name));
        listing.push(name.clone());
        made.push(name);
    }
    assert_eq!(
        made,
        vec![
            "testing-10-19-2023-1-bundle.tar.gz".to_string(),
            "testing-10-19-2023-2-bundle.tar.gz".to_string(),
            "testing-10-19-2023-3-bundle.tar.gz".to_string(),
        ]
    );
}

#[test]
fn sequence_number_counts_every_file_of_the_day() {
    let d = date(2023, 1, 2);
    let listing = vec![
        "hub-1-2-2023-1-bundle.zip".to_string(),
        "hub-1-2-2023_hash.txt".to_string(),
        "hub-1-2-2024-1-bundle.zip".to_string(),
        "hub-1-3-2023-1-bundle.zip".to_string(),
        "xhub-1-2-2023-1-bundle.zip".to_string(),
        "hub-1-2-20235".to_string(),
    ];
    assert_eq!(next_sequence_number(&listing, "hub", &d), 4);
    assert_eq!(next_sequence_number(&Vec::new(), "hub", &d), 1);
}
