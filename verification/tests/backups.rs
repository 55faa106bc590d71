use identity_reset::backup::{config_backup_name, store_backup_name, Timestamp};

#[test]
fn timestamp_new_accepts_a_date_and_time() {
    let t = Timestamp::new(2024, 1, 31, 23, 59, 59).unwrap();
    assert_eq!(
        t,
        Timestamp { year: 2024, month: 1, day: 31, hour: 23, minute: 59, second: 59 }
    );
}

#[test]
fn timestamp_new_refuses_fields_out_of_range() {
    assert_eq!(Timestamp::new(10000, 1, 1, 0, 0, 0), None);
    assert_eq!(Timestamp::new(2024, 0, 1, 0, 0, 0), None);
    assert_eq!(Timestamp::new(2024, 13, 1, 0, 0, 0), None);
    assert_eq!(Timestamp::new(2024, 1, 0, 0, 0, 0), None);
    assert_eq!(Timestamp::new(2024, 1, 32, 0, 0, 0), None);
    assert_eq!(Timestamp::new(2024, 1, 1, 24, 0, 0), None);
    assert_eq!(Timestamp::new(2024, 1, 1, 0, 60, 0), None);
    assert_eq!(Timestamp::new(2024, 1, 1, 0, 0, 61), None);
}

#[test]
fn timestamp_new_accepts_the_edges() {
    assert!(Timestamp::new(0, 1, 1, 0, 0, 0).is_some());
    assert!(Timestamp::new(9999, 12, 31, 23, 59, 60).is_some());
}

#[test]
fn stamp_is_year_month_day_underscore_time() {
    let t = Timestamp::new(2024, 1, 31, 23, 59, 59).unwrap();
    assert_eq!(t.stamp(), "20240131_235959");
}

#[test]
fn stamp_pads_every_field_with_zeros() {
    let t = Timestamp::new(7, 2, 3, 4, 5, 6).unwrap();
    assert_eq!(t.stamp(), "00070203_040506");
    let zero = Timestamp::new(0, 1, 1, 0, 0, 0).unwrap();
    assert_eq!(zero.stamp(), "00000101_000000");
    let last = Timestamp::new(9999, 12, 31, 23, 59, 60).unwrap();
    assert_eq!(last.stamp(), "99991231_235960");
}

#[test]
fn stamp_agrees_with_chrono() {
    let cases = [(2025u16, 6u8, 9u8, 7u8, 8u8, 9u8), (1999, 12, 31, 0, 0, 0), (812, 10, 1, 13, 30, 45)];
    for (y, mo, d, h, mi, s) in cases {
        let ours = Timestamp::new(y, mo, d, h, mi, s).unwrap().stamp();
        let theirs = chrono::NaiveDate::from_ymd_opt(y as i32, mo as u32, d as u32)
            .unwrap()
            .and_hms_opt(h as u32, mi as u32, s as u32)
            .unwrap()
            .format("%Y%m%d_%H%M%S")
            .to_string();
        assert_eq!(ours, theirs);
    }
}

#[test]
fn config_backup_name_follows_the_scheme() {
    let t = Timestamp::new(2024, 1, 31, 23, 59, 59).unwrap();
    assert_eq!(config_backup_name("storage.json", &t), "storage.json.backup_20240131_235959");
    assert_eq!(config_backup_name("", &t), ".backup_20240131_235959");
}

#[test]
fn store_backup_name_follows_the_scheme() {
    let t = Timestamp::new(2024, 1, 31, 23, 59, 59).unwrap();
    assert_eq!(store_backup_name("MachineGuid", &t, "reg"), "MachineGuid_20240131_235959.reg");
}

#[test]
fn backups_a_second_apart_have_different_names() {
    let first = Timestamp::new(2024, 1, 31, 23, 59, 58).unwrap();
    let second = Timestamp::new(2024, 1, 31, 23, 59, 59).unwrap();
    assert_ne!(config_backup_name("storage.json", &first), config_backup_name("storage.json", &second));
    assert_ne!(
        store_backup_name("MachineGuid", &first, "reg"),
        store_backup_name("MachineGuid", &second, "reg")
    );
}
