use sandbox_ui::time::deserialize_datetime;
use sandbox_ui::time::serialize_datetime;
use sandbox_ui::time::AnalysisDate;
use sandbox_ui::time::DateError;

#[test]
fn a_date_is_written_with_its_offset() {
    let d = AnalysisDate { secs: 1_431_648_000, nanos: 0 };
    assert_eq!(d.to_text(), Ok(String::from("2015-05-15 00:00:00 +0000")));
    let epoch = AnalysisDate { secs: 0, nanos: 0 };
    assert_eq!(epoch.to_text(), Ok(String::from("1970-01-01 00:00:00 +0000")));
    let late = AnalysisDate { secs: 1_700_000_000, nanos: 0 };
    assert_eq!(late.to_text(), Ok(String::from("2023-11-14 22:13:20 +0000")));
}

#[test]
fn the_text_drops_the_part_below_the_second() {
    let d = AnalysisDate { secs: 1_431_648_000, nanos: 999_999_999 };
    assert_eq!(d.to_text(), Ok(String::from("2015-05-15 00:00:00 +0000")));
}

#[test]
fn a_date_outside_the_calendar_is_not_written() {
    let d = AnalysisDate { secs: i64::MAX, nanos: 0 };
    assert_eq!(d.to_text(), Err(DateError::OutOfRange));
    let bad = AnalysisDate { secs: 0, nanos: 3_000_000_000 };
    assert_eq!(bad.to_text(), Err(DateError::OutOfRange));
}

#[test]
fn a_date_is_read_back() {
    assert_eq!(
        AnalysisDate::from_text("2015-05-15 00:00:00 +0000"),
        Ok(AnalysisDate { secs: 1_431_648_000, nanos: 0 })
    );
}

#[test]
fn a_date_with_another_offset_is_read_as_utc() {
    assert_eq!(
        AnalysisDate::from_text("2015-05-15 02:00:00 +0200"),
        Ok(AnalysisDate { secs: 1_431_648_000, nanos: 0 })
    );
    assert_eq!(
        AnalysisDate::from_text("2015-05-14 19:00:00 -0500"),
        Ok(AnalysisDate { secs: 1_431_648_000, nanos: 0 })
    );
}

#[test]
fn a_malformed_date_is_rejected() {
    for text in [
        "",
        "2015-05-15",
        "2015-05-15 00:00:00",
        "2015-13-15 00:00:00 +0000",
        "2015-02-30 00:00:00 +0000",
        "2015-05-15T00:00:00 +0000",
        "yesterday",
    ] {
        assert_eq!(AnalysisDate::from_text(text), Err(DateError::Malformed));
    }
}

#[test]
fn whole_seconds_round_trip() {
    for secs in [0i64, 1, 59, 86_399, 86_400, 951_782_400, 1_431_648_000, 1_700_000_000, 4_102_444_800] {
        let d = AnalysisDate { secs, nanos: 0 };
        let text = d.to_text().unwrap();
        assert_eq!(AnalysisDate::from_text(&text), Ok(d));
    }
}

#[test]
fn an_optional_date_is_written_and_read() {
    let d = AnalysisDate { secs: 1_431_648_000, nanos: 0 };
    assert_eq!(serialize_datetime(&None), Ok(None));
    assert_eq!(
        serialize_datetime(&Some(d)),
        Ok(Some(String::from("2015-05-15 00:00:00 +0000")))
    );
    assert_eq!(
        serialize_datetime(&Some(AnalysisDate { secs: i64::MIN, nanos: 0 })),
        Err(DateError::OutOfRange)
    );
    assert_eq!(deserialize_datetime(None), Ok(None));
    assert_eq!(deserialize_datetime(Some("2015-05-15 00:00:00 +0000")), Ok(Some(d)));
    assert_eq!(deserialize_datetime(Some("soon")), Err(DateError::Malformed));
}

#[test]
fn later_dates_compare_as_later() {
    let a = AnalysisDate { secs: 10, nanos: 5 };
    let b = AnalysisDate { secs: 10, nanos: 6 };
    let c = AnalysisDate { secs: 11, nanos: 0 };
    assert!(b.after(&a));
    assert!(c.after(&b));
    assert!(c.after(&a));
    assert!(!a.after(&b));
    assert!(!a.after(&a));
    assert!(!b.after(&c));
}

#[test]
fn now_is_a_recent_instant() {
    let a = AnalysisDate::now();
    let b = AnalysisDate::now();
    assert!(a.secs > 1_600_000_000);
    assert!(!a.after(&b));
    assert!(a.to_text().is_ok());
    assert!(a.nanos < 1_000_000_000);
    assert!(b.nanos < 1_000_000_000);
    assert!(sandbox_ui::time::serialize_datetime(&Some(b)).unwrap().is_some());
}
