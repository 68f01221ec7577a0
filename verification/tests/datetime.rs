use zipstream::date::ZipDateTime;

fn dt(year: u16, month: u8, day: u8, hour: u8, minute: u8, second: u8) -> ZipDateTime {
    ZipDateTime { year, month, day, hour, minute, second }
}

#[test]
fn round_trip_even_second() {
    let d = dt(2000, 1, 1, 0, 0, 0);
    let (time, date) = d.to_packed();
    assert_eq!(ZipDateTime::from_packed(date, time), d);

    let d = dt(2018, 6, 2, 10, 30, 14);
    let (time, date) = d.to_packed();
    assert_eq!(ZipDateTime::from_packed(date, time), d);

    let d = dt(2107, 12, 31, 23, 59, 58);
    let (time, date) = d.to_packed();
    assert_eq!(ZipDateTime::from_packed(date, time), d);

    let d = dt(1980, 1, 1, 0, 0, 0);
    let (time, date) = d.to_packed();
    assert_eq!(ZipDateTime::from_packed(date, time), d);
}

#[test]
fn odd_second_truncates_down() {
    let d = dt(1999, 12, 31, 23, 59, 59);
    let (time, date) = d.to_packed();
    assert_eq!(ZipDateTime::from_packed(date, time), dt(1999, 12, 31, 23, 59, 58));

    let d = dt(1980, 1, 1, 0, 0, 1);
    let (time, date) = d.to_packed();
    assert_eq!(ZipDateTime::from_packed(date, time), dt(1980, 1, 1, 0, 0, 0));
}

#[test]
fn packed_bit_layout_exact() {
    // 2018-06-02: (2018-1980) << 9 | 6 << 5 | 2
    let d = dt(2018, 6, 2, 10, 30, 14);
    let (time, date) = d.to_packed();
    assert_eq!(date, (38 << 9) | (6 << 5) | 2);
    // 10:30:14 -> hour << 11 | minute << 5 | second / 2
    assert_eq!(time, (10 << 11) | (30 << 5) | 7);
}

#[test]
fn unix_timestamp_known_values() {
    assert_eq!(dt(2000, 1, 1, 0, 0, 0).unix_timestamp(), Some(946684800));
    assert_eq!(dt(1980, 1, 1, 0, 0, 0).unix_timestamp(), Some(315532800));
    // Day 31 of a 30-day month names no real calendar moment.
    assert_eq!(dt(2000, 4, 31, 0, 0, 0).unix_timestamp(), None);
}

#[test]
fn now_is_in_packed_range() {
    let n = ZipDateTime::now();
    assert!((1980..=2107).contains(&n.year));
    assert!((1..=12).contains(&n.month));
    assert!((1..=31).contains(&n.day));
    assert!(n.hour <= 23);
    assert!(n.minute <= 59);
    assert!(n.second <= 59);
}
