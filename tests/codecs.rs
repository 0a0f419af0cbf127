use lenex::number::{decimal_string, decode_sentinel, decode_unsigned, decode_version, encode_sentinel, version_string};
use lenex::time::pad_fraction;
use lenex::{ClockTime, Date, DecodeError, SupportedFileExtension, FileExtensionError, SwimDuration};

#[test]
fn sentinel_round_trip_over_the_age_domain() {
    for u in 0u64..=255 {
        let text = encode_sentinel(Some(u));
        assert_eq!(Ok(Some(u)), decode_sentinel(&text, 255));
    }
}

#[test]
fn sentinel_absent_values() {
    assert_eq!("-1", encode_sentinel(None));
    assert_eq!(Ok(None), decode_sentinel("-1", 255));
    assert_eq!(Ok(None), decode_sentinel("-5", 255));
    assert_eq!(Ok(None), decode_sentinel("-123456789012345678901234567890", 255));
}

#[test]
fn sentinel_errors() {
    assert_eq!(Err(DecodeError::NumericOverflow), decode_sentinel("300", 255));
    assert_eq!(Err(DecodeError::InvalidNumber), decode_sentinel("1a", 255));
    assert_eq!(Err(DecodeError::InvalidNumber), decode_sentinel("", 255));
    assert_eq!(Ok(Some(4294967295)), decode_sentinel("4294967295", 4294967295));
    assert_eq!(Err(DecodeError::NumericOverflow), decode_sentinel("4294967296", 4294967295));
}

#[test]
fn unsigned_numbers() {
    assert_eq!(Ok(42), decode_unsigned("42", 100));
    assert_eq!(Ok(7), decode_unsigned("+7", 100));
    assert_eq!(Err(DecodeError::InvalidNumber), decode_unsigned("-7", 100));
    assert_eq!(Err(DecodeError::NumericOverflow), decode_unsigned("101", 100));
    assert_eq!(Err(DecodeError::NumericOverflow), decode_unsigned("99999999999999999999999", u64::MAX));
    assert_eq!("18446744073709551615", decimal_string(u64::MAX));
    assert_eq!("0", decimal_string(0));
}

#[test]
fn version_numbers() {
    assert_eq!(Ok(30), decode_version("3.0"));
    assert_eq!(Ok(30), decode_version("3"));
    assert_eq!(Ok(31), decode_version("3.15"));
    assert_eq!(Err(DecodeError::InvalidNumber), decode_version("3."));
    assert_eq!(Err(DecodeError::InvalidNumber), decode_version("v3"));
    assert_eq!("3.0", version_string(30));
    assert_eq!("12.5", version_string(125));
}

#[test]
fn swim_duration_reads_a_padded_fraction() {
    let d = SwimDuration::decode("00:00:01.25").unwrap();
    assert_eq!(1, d.num_seconds());
    assert_eq!(1250, d.num_milliseconds());
    assert_eq!("00:00:01.250", pad_fraction("00:00:01.25"));
    assert_eq!("00:00:01.000", pad_fraction("00:00:01."));
    assert_eq!("00:00:01", pad_fraction("00:00:01"));
}

#[test]
fn swim_duration_whole_clock() {
    let d = SwimDuration::decode("01:02:03.4").unwrap();
    assert_eq!(3723400, d.num_milliseconds());
    assert_eq!(1, d.num_hours());
    assert_eq!(62, d.num_minutes());
    assert_eq!(Err(DecodeError::InvalidTime), SwimDuration::decode("1:2"));
    assert_eq!(Err(DecodeError::InvalidTime), SwimDuration::decode("00:00:01.2500"));
}

#[test]
fn swim_duration_writes_two_fractional_digits() {
    assert_eq!("00:00:05.50", SwimDuration::from_milliseconds(5500).encode());
    assert_eq!("00:01:05.00", SwimDuration::from_milliseconds(65000).encode());
    assert_eq!("25:00:00.01", SwimDuration::from_milliseconds(90_000_006).encode());
    assert_eq!("00:00:01.25", SwimDuration::from_milliseconds(1254).encode());
    assert_eq!("00:00:01.26", SwimDuration::from_milliseconds(1255).encode());
}

#[test]
fn clock_times() {
    let t = ClockTime::decode("18:05").unwrap();
    assert_eq!(18, t.hour());
    assert_eq!(5, t.minute());
    assert_eq!("18:05", t.encode());
    assert_eq!("07:00", ClockTime::from_hm(7, 0).unwrap().encode());
    assert!(ClockTime::from_hm(24, 0).is_none());
    assert_eq!(Err(DecodeError::InvalidTime), ClockTime::decode("25:00"));
    assert_eq!(Err(DecodeError::InvalidTime), ClockTime::decode("18:00:00"));
}

#[test]
fn dates() {
    let d = Date::decode("2023-02-11").unwrap();
    assert_eq!(2023, d.year());
    assert_eq!(2, d.month());
    assert_eq!(11, d.day());
    assert_eq!("2023-02-11", d.encode());
    assert_eq!("1970-01-01", Date::default().encode());
    assert_eq!("0099-12-31", Date::from_ymd(99, 12, 31).unwrap().encode());
    assert_eq!("+12345-01-01", Date::from_ymd(12345, 1, 1).unwrap().encode());
    assert_eq!("-0005-03-01", Date::from_ymd(-5, 3, 1).unwrap().encode());
    assert!(Date::from_ymd(2023, 2, 29).is_none());
    assert!(Date::from_ymd(2024, 2, 29).is_some());
    assert!(Date::from_ymd(1900, 2, 29).is_none());
    assert_eq!(Err(DecodeError::InvalidDate), Date::decode("2023-02-30"));
    assert_eq!(Err(DecodeError::InvalidDate), Date::decode("yesterday"));
}

#[test]
fn file_extensions() {
    assert_eq!(Ok(SupportedFileExtension::Lef), SupportedFileExtension::from_extension(Some("lef")));
    assert_eq!(Ok(SupportedFileExtension::Lxf), SupportedFileExtension::from_extension(Some("lxf")));
    assert_eq!(
        Err(FileExtensionError::UnsupportedExtension("xml".to_string())),
        SupportedFileExtension::from_extension(Some("xml"))
    );
    assert_eq!(Err(FileExtensionError::UnknownExtension), SupportedFileExtension::from_extension(None));
}
