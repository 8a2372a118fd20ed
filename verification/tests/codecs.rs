use hko::common::decimal_text;
use hko::common::signed_text;
use hko::common::Lang;
use hko::common::Message;
use hko::deserialize::deserialize_local_time;
use hko::deserialize::deserialize_rfc3339;
use hko::deserialize::deserialize_to_bool;
use hko::deserialize::deserialize_to_psr;
use hko::deserialize::deserialize_to_rainfall_value;
use hko::deserialize::deserialize_value_unit;
use hko::deserialize::deserialize_yyyymmdd_to_date;
use hko::error::APIRequestError;
use hko::hourly_rainfall::RainfallValue;
use hko::lunardate;
use hko::text;
use hko::time;
use hko::time::Date;
use hko::time::TimePoint;
use hko::weather::Action;
use hko::weather::Code;
use hko::weather::WarningStatementCode;
use hko::weather::WarningSubtypeCode;
use hko::weather::PSR;
use hko::common::EnumNameDesc;

fn hong_kong(year: i32, month: u32, day: u32, hour: u32, minute: u32) -> TimePoint {
    TimePoint { year, month, day, hour, minute, second: 0, nanosecond: 0, offset: 28800 }
}

#[test]
fn local_clock_and_rfc3339_agree() {
    let a = deserialize_local_time("202201010100").unwrap();
    let b = deserialize_rfc3339("2022-01-01T01:00:00+08:00").unwrap();
    assert_eq!(a, b);
    assert_eq!(a, hong_kong(2022, 1, 1, 1, 0));
    assert_eq!(deserialize_local_time("202201010100").unwrap(), a);
    assert_eq!(deserialize_local_time("20220101").unwrap(), hong_kong(2022, 1, 1, 0, 0));
}

#[test]
fn local_clock_rejects_other_patterns() {
    for bad in ["", "2022", "2022010101", "2022010101000", "2022-01-01", "20220230", "202201012460", "20221301", " 20220101", "+2022010", "2022010a"] {
        let e = deserialize_local_time(bad).unwrap_err();
        assert_eq!(e.found, bad);
        assert_eq!(e.expected, "time formatted in YYYYMMDD or YYYYMMDDHHMM");
    }
    assert_eq!(time::decode_minute("202402291230"), Some(hong_kong(2024, 2, 29, 12, 30)));
    assert_eq!(time::decode_minute("202302291230"), None);
    assert_eq!(time::decode_minute("20240229"), None);
}

#[test]
fn rfc3339_keeps_the_offset_it_reads() {
    let t = deserialize_rfc3339("2021-12-08T09:21:05.5-02:30").unwrap();
    assert_eq!(
        t,
        TimePoint {
            year: 2021,
            month: 12,
            day: 8,
            hour: 9,
            minute: 21,
            second: 5,
            nanosecond: 500_000_000,
            offset: -9000
        }
    );
    assert!(deserialize_rfc3339("2021-12-08 09:21").is_err());
    assert!(deserialize_rfc3339("202201010100").is_err());
}

#[test]
fn dates() {
    assert_eq!(
        deserialize_yyyymmdd_to_date("20210914").ok(),
        Some(Date { year: 2021, month: 9, day: 14 })
    );
    let e = deserialize_yyyymmdd_to_date("20210931").unwrap_err();
    assert_eq!(e.expected, "string of date formatted in YYYYMMDD");
    assert_eq!(e.found, "20210931");
    assert!(deserialize_yyyymmdd_to_date("2021-09-14").is_err());
    assert_eq!(time::compact_date(Date { year: 2022, month: 1, day: 1 }), "20220101");
    assert_eq!(time::dashed_date(Date { year: 987, month: 12, day: 31 }), "0987-12-31");
    assert_eq!(time::year_string(-5), "-0005");
    assert_eq!(time::year_string(12345), "+12345");
    assert_eq!(time::padded_text(7, 2), "07");
    assert_eq!(time::padded_text(123, 2), "123");
    assert_eq!(
        deserialize_yyyymmdd_to_date("20220101").ok(),
        Some(Date { year: 2022, month: 1, day: 1 })
    );
    assert_eq!(time::decode_date("00000229"), Some(Date { year: 0, month: 2, day: 29 }));
    assert_eq!(time::decode_date("19000229"), None);
    assert_eq!(time::decode_date("20000229"), Some(Date { year: 2000, month: 2, day: 29 }));
    assert_eq!(time::decode_date("20230431"), None);
    assert_eq!(time::decode_date("20231231"), Some(Date { year: 2023, month: 12, day: 31 }));
    assert_eq!(time::decode_date("20230001"), None);
    assert_eq!(time::decode_date("20230100"), None);
    assert_eq!(time::decode_minute("999912312359").map(|t| (t.year, t.hour, t.minute, t.second)), Some((9999, 23, 59, 0)));
    assert_eq!(time::decode_minute("202201012400"), None);
    assert_eq!(time::decode_minute("202201010060"), None);
    assert!(Date { year: 2024, month: 2, day: 29 }.is_valid());
    assert!(!Date { year: 2023, month: 2, day: 29 }.is_valid());
    assert!(!Date { year: 2023, month: 13, day: 1 }.is_valid());
    assert!(Date { year: -4, month: 2, day: 29 }.is_valid());
}

#[test]
fn flags() {
    assert_eq!(deserialize_to_bool("TRUE").ok(), Some(true));
    assert_eq!(deserialize_to_bool("true").ok(), Some(true));
    assert_eq!(deserialize_to_bool("False").ok(), Some(false));
    assert_eq!(deserialize_to_bool("").ok(), Some(false));
    let e = deserialize_to_bool("yes").unwrap_err();
    assert_eq!((e.expected.as_str(), e.found.as_str()), ("`TRUE` or `FALSE`", "yes"));
    assert!(deserialize_to_bool(" TRUE").is_err());
    assert_eq!(deserialize_to_bool("fal\u{17f}e").ok(), Some(false));
    assert_eq!("fal\u{17f}e".to_uppercase(), "FALSE");
    assert_eq!(deserialize_to_bool("FAL\u{17f}E").ok(), Some(false));
    assert!(deserialize_to_bool("tr\u{17f}e").is_err());
    assert!(deserialize_to_bool("fal\u{df}e").is_err());
    for text in ["TRUE", "tRuE", "false", "", "yes", "fal\u{17f}e", "\u{17f}", "truE "] {
        let upper = text.to_uppercase();
        let expected = if upper == "TRUE" {
            Some(true)
        } else if upper == "FALSE" || upper.is_empty() {
            Some(false)
        } else {
            None
        };
        assert_eq!(deserialize_to_bool(text).ok(), expected, "{}", text);
    }
}

#[test]
fn rain_labels() {
    assert_eq!(deserialize_to_psr("Medium Low").ok(), Some(PSR::MediumLow));
    assert_eq!(deserialize_to_psr("高").ok(), Some(PSR::High));
    let e = deserialize_to_psr("medium").unwrap_err();
    assert_eq!(e.expected, "string of the probability of significant rain");
    assert_eq!(e.found, "medium");
}

#[test]
fn rainfall_sentinel_and_amounts() {
    assert_eq!(deserialize_to_rainfall_value("M").ok(), Some(RainfallValue::UnderMaintenance));
    assert_eq!(deserialize_to_rainfall_value("m").ok(), Some(RainfallValue::UnderMaintenance));
    assert_eq!(deserialize_to_rainfall_value("0").ok(), Some(RainfallValue::Rainfall(0)));
    assert_eq!(deserialize_to_rainfall_value("017").ok(), Some(RainfallValue::Rainfall(17)));
    assert_eq!(
        deserialize_to_rainfall_value("4294967295").ok(),
        Some(RainfallValue::Rainfall(4294967295))
    );
    for bad in ["4294967296", "-1", "1.5", "", "MM", "+", "trace"] {
        let e = deserialize_to_rainfall_value(bad).unwrap_err();
        assert_eq!((e.expected.as_str(), e.found.as_str()), ("`M` or an integer", bad));
    }
    assert_eq!(RainfallValue::UnderMaintenance.encode(), "M");
    assert_eq!(RainfallValue::Rainfall(250).encode(), "250");
    for v in [RainfallValue::UnderMaintenance, RainfallValue::Rainfall(0), RainfallValue::Rainfall(99)] {
        assert_eq!(deserialize_to_rainfall_value(&v.encode()).ok(), Some(v));
    }
}

#[test]
fn numbers_with_units() {
    let v = deserialize_value_unit("10km").unwrap();
    assert_eq!((v.value.as_str(), v.unit.as_str()), ("10", "km"));
    let v = deserialize_value_unit("0.53").unwrap();
    assert_eq!((v.value.as_str(), v.unit.as_str()), ("0.53", ""));
    let v = deserialize_value_unit("-1.5e3  percent ").unwrap();
    assert_eq!((v.value.as_str(), v.unit.as_str()), ("-1.5e3", "percent"));
    assert_eq!(v.value.parse::<f32>().unwrap(), -1500.0);
    let e = deserialize_value_unit("km").unwrap_err();
    assert_eq!((e.expected.as_str(), e.found.as_str()), ("number with a unit", "km"));
    assert!(deserialize_value_unit("").is_err());
}

#[test]
fn texts() {
    assert_eq!(text::trim("  a b \n"), "a b");
    assert_eq!(text::trim("\u{3000}x\u{a0}"), "x");
    assert_eq!(text::trim(" \t "), "");
    assert_eq!(text::parse_unsigned("+12"), Some(12));
    assert_eq!(text::parse_unsigned("0219"), Some(219));
    assert_eq!(text::parse_unsigned("4294967296"), None);
    assert_eq!(text::parse_unsigned("99999999999999999999999"), None);
    assert_eq!(text::parse_unsigned("1 "), None);
    assert_eq!(text::parse_unsigned(""), None);
    for good in ["0.53", "1", "-2.", ".5", "+1e5", "1E-3", "inf", "-Infinity", "NaN", "1.e2"] {
        assert!(text::is_float(good), "{}", good);
        assert!(good.parse::<f32>().is_ok(), "{}", good);
    }
    for bad in ["", ".", "+", "1e", "e5", "1.5.2", "***", "trace", "N/A", " 1", "1 ", "infinit", "1e+", "0x10", "1_0"] {
        assert!(!text::is_float(bad), "{}", bad);
        assert!(bad.parse::<f32>().is_err(), "{}", bad);
    }
    assert_eq!(text::split_span("a-b-c"), Some(("a", "b")));
    assert_eq!(text::split_span("ab-"), Some(("ab", "")));
    assert_eq!(text::split_span("ab"), None);
    assert!(text::equals_ignoring_case("FaLsE", "false"));
    assert!(!text::equals_ignoring_case("fals", "false"));
    assert_eq!(decimal_text(0), "0");
    assert_eq!(decimal_text(4294967295), "4294967295");
    assert_eq!(signed_text(-2147483648), "-2147483648");
    assert_eq!(signed_text(2020), "2020");
}

#[test]
fn messages() {
    let one = Message::String("a".to_string());
    let many = Message::List(vec!["x".to_string(), "".to_string(), "z".to_string()]);
    assert!(one.is_string() && !one.is_list());
    assert!(many.is_list() && !many.is_string());
    assert_eq!(one.len(), 1);
    assert_eq!(many.len(), 3);
    let mut it = many.iter();
    assert_eq!(it.next().map(|s| s.as_str()), Some("x"));
    assert_eq!(it.next().map(|s| s.as_str()), Some(""));
    assert_eq!(it.next().map(|s| s.as_str()), Some("z"));
    assert_eq!(it.next(), None);
    assert_eq!(it.next(), None);
    let mut it = one.iter();
    assert_eq!(it.next().map(|s| s.as_str()), Some("a"));
    assert_eq!(it.next(), None);
    assert_eq!(Message::List(Vec::new()).iter().next(), None);
    assert_eq!(one.clone().string(), Some("a".to_string()));
    assert_eq!(one.clone().list(), None);
    assert_eq!(many.clone().string(), None);
    assert_eq!(many.clone().into_vec().len(), 3);
    assert_eq!(one.into_vec(), vec!["a".to_string()]);
    assert_eq!(many.get(2).map(|s| s.as_str()), Some("z"));
    assert_eq!(many.get(3), None);
}

#[test]
fn warning_codes() {
    assert_eq!(WarningStatementCode::from_str("WTS"), Some(WarningStatementCode::WTS));
    assert_eq!(WarningStatementCode::from_str("wts"), None);
    assert_eq!(WarningSubtypeCode::from_str("TC8NE"), Some(WarningSubtypeCode::TC8NE));
    assert_eq!(Code::from_str("WHOT"), Some(Code::WarningStatement(WarningStatementCode::WHOT)));
    assert_eq!(Code::from_str("WRAINR"), Some(Code::WarningSubType(WarningSubtypeCode::WRAINR)));
    assert_eq!(Code::from_str("TC3"), Some(Code::WarningSubType(WarningSubtypeCode::TC3)));
    assert_eq!(Code::from_str("X"), None);
    assert_eq!(Action::from_str("ISSUE"), Some(Action::ISSUE));
    assert_eq!(Action::from_str("issue"), None);
    assert_eq!(WarningStatementCode::WTS.name(Lang::EN), "Thunderstorm Warning");
    assert_eq!(WarningStatementCode::WTS.desc(Lang::SC), "雷暴警告");
    assert_eq!(WarningSubtypeCode::TC10.name(Lang::TC), "十號颶風信號");
    assert_eq!(Code::WarningSubType(WarningSubtypeCode::TC1).name(Lang::EN), "Standby Signal No. 1");
    assert_eq!(WarningStatementCode::WFNTSA.code(), "WFNTSA");
    assert_eq!(Lang::TC.code(), "tc");
}

#[test]
fn test_test() {
    let response =
        lunardate::Response::from_str(r#"{"LunarYear":"癸卯年，兔","LunarDate":"正月初一"}"#).unwrap();
    assert_eq!(response.lunar_year, "癸卯年，兔");
    assert_eq!(response.lunar_date, "正月初一");
    assert!(lunardate::Response::from_str(r#"{"LunarYear":"癸卯年，兔"}"#).is_err());
    assert_eq!(
        APIRequestError("x".to_string()).message(),
        "illegal parameter: x"
    );
}
