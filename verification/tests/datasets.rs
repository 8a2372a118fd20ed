use hko::error::DataError;
use hko::json;
use hko::json::Json;
use hko::opendata::clmtemp;
use hko::opendata::hhot;
use hko::opendata::hlt;
use hko::opendata::lhl;
use hko::opendata::ltmv;
use hko::opendata::mrs;
use hko::opendata::ryes;
use hko::opendata::srs;
use hko::table;
use hko::table::Encoding;
use hko::time::Date;
use hko::time::TimePoint;

fn float(text: &str) -> f32 {
    text.parse::<f32>().unwrap()
}

fn hong_kong(year: i32, month: u32, day: u32, hour: u32, minute: u32) -> TimePoint {
    TimePoint { year, month, day, hour, minute, second: 0, nanosecond: 0, offset: 8 * 3600 }
}

fn strings(cells: &[&str]) -> Vec<String> {
    cells.iter().map(|c| c.to_string()).collect()
}

#[test]
fn tide_events_without_labels() {
    let hlt::Response(r) =
        hlt::Response::from_str("01,01,0219,0.53,0930,1.55,1308,1.26,1934,2.60").unwrap();
    assert_eq!(r.len(), 4);
    let got: Vec<(u32, u32, u32, u32, f32)> =
        r.iter().map(|u| (u.month, u.day, u.hour, u.minute, float(&u.height))).collect();
    assert_eq!(
        got,
        vec![(1, 1, 2, 19, 0.53), (1, 1, 9, 30, 1.55), (1, 1, 13, 8, 1.26), (1, 1, 19, 34, 2.60)]
    );
}

#[test]
fn tide_events_skip_empty_pairs() {
    let hlt::Response(r) = hlt::Response::from_str(
        "Month,Date,Time,Height(m),Time,Height(m)\n01,02,0313,0.31,,\n01,03,,,1443,1.30",
    )
    .unwrap();
    assert_eq!(r.len(), 2);
    assert_eq!((r[0].day, r[0].hour, r[0].minute), (2, 3, 13));
    assert_eq!(r[0].height, "0.31");
    assert_eq!((r[1].day, r[1].hour, r[1].minute), (3, 14, 43));
}

#[test]
fn empty_body_is_early_end() {
    for body in ["", "   ", "\n\t \r\n"] {
        assert!(matches!(hhot::Response::from_str(body), Err(DataError::EarlyEOF)));
        assert!(matches!(hlt::Response::from_str(body), Err(DataError::EarlyEOF)));
        assert!(matches!(lhl::Response::from_str(body), Err(DataError::EarlyEOF)));
        assert!(matches!(ltmv::Response::from_str(body), Err(DataError::EarlyEOF)));
        assert!(matches!(srs::Response::from_str(body), Err(DataError::EarlyEOF)));
        assert!(matches!(clmtemp::Response::from_str(body), Err(DataError::EarlyEOF)));
        assert!(matches!(table::sniff(body), Err(DataError::EarlyEOF)));
    }
    assert_eq!(DataError::EarlyEOF.message(), "early EOF found");
}

#[test]
fn encoding_goes_by_first_character() {
    assert_eq!(table::sniff("  {\"data\": []}").ok(), Some(Encoding::Json));
    assert_eq!(table::sniff("\n01,01,0.5").ok(), Some(Encoding::Tabular));
    assert_eq!(table::sniff("[1]").ok(), Some(Encoding::Tabular));
    assert!(table::detect_labels("MM,DD,01\n01,01,0.5"));
    assert!(!table::detect_labels("01,01,0.5\n01,02,0.7\n"));
}

#[test]
fn broken_envelope_is_source_format() {
    assert!(matches!(hlt::Response::from_str("{\"data\": "), Err(DataError::SourceFormat(_))));
    assert!(matches!(hlt::Response::from_str("{\"fields\": []}"), Err(DataError::SourceFormat(_))));
    assert!(matches!(
        hlt::Response::from_str("{\"data\": [[1, 2]]}"),
        Err(DataError::SourceFormat(_))
    ));
    assert!(matches!(
        hhot::Response::from_str("{\"fields\": 3, \"data\": []}"),
        Err(DataError::SourceFormat(_))
    ));
    assert!(matches!(ryes::Response::from_str("{}"), Err(DataError::SourceFormat(_))));
    assert!(matches!(ryes::Response::from_str(""), Err(DataError::SourceFormat(_))));
    let e = hlt::Response::from_str("{\"fields\": []}").unwrap_err();
    assert_eq!(e.message(), "Source format error: missing field `data`");
}

#[test]
fn lightning_span_splits_into_two_minutes() {
    let lhl::Response(r) = lhl::Response::from_str(
        r#"{"data":[["202201010100-202201010159", "Cloud-to-ground", "Lantau", "3"]]}"#,
    )
    .unwrap();
    assert_eq!(r.len(), 1);
    assert_eq!(r[0].start_time, hong_kong(2022, 1, 1, 1, 0));
    assert_eq!(r[0].end_time, hong_kong(2022, 1, 1, 1, 59));
    assert_eq!(r[0].kind, "Cloud-to-ground");
    assert_eq!(r[0].region, "Lantau");
    assert_eq!(r[0].count, 3);
}

#[test]
fn one_malformed_row_costs_one_record() {
    let good = "202201010100-202201010159,Cloud-to-ground,Lantau,3\n202201010200-202201010259,Cloud-to-cloud,Lantau,4";
    let bad = "202201010100-202201010159,Cloud-to-ground,Lantau,3\n202202300100-202202300159,Cloud-to-ground,Lantau,1\n202201010200-202201010259,Cloud-to-cloud,Lantau,4";
    let lhl::Response(a) = lhl::Response::from_str(good).unwrap();
    let lhl::Response(b) = lhl::Response::from_str(bad).unwrap();
    assert_eq!(a.len(), 2);
    assert_eq!(b.len(), 2);
    for i in 0..2 {
        assert_eq!(a[i].start_time, b[i].start_time);
        assert_eq!(a[i].end_time, b[i].end_time);
        assert_eq!(a[i].kind, b[i].kind);
        assert_eq!(a[i].count, b[i].count);
    }
    let rows = vec![
        strings(&["01", "01", "0.70"]),
        strings(&["xx", "01", "0.80"]),
        strings(&["01", "02", "0.90", "oops", "1.10"]),
    ];
    let hhot::Response(r) = hhot::Response::from_rows(&Vec::new(), &rows);
    let got: Vec<(u32, u32, u32, &str)> =
        r.iter().map(|u| (u.month, u.day, u.hour, u.height.as_str())).collect();
    assert_eq!(got, vec![(1, 1, 1, "0.70"), (1, 2, 1, "0.90"), (1, 2, 3, "1.10")]);
}

#[test]
fn labels_name_the_hour_of_their_column() {
    let labels = strings(&["MM", "DD", "07", "noon", "13"]);
    let rows = vec![strings(&["12", "31", "1.0", "2.0", "3.0", "4.0"])];
    let hhot::Response(r) = hhot::Response::from_rows(&labels, &rows);
    let hours: Vec<u32> = r.iter().map(|u| u.hour).collect();
    assert_eq!(hours, vec![7, 2, 13, 4]);
}

#[test]
fn visibility_keeps_number_and_unit() {
    let ltmv::Response(r) = ltmv::Response::from_str(
        "202201010110,Central,10km\n202201010110,\"Sai Wan Ho\", 14.5 km \n202201010110,\"Waglan Island\",N/A",
    )
    .unwrap();
    assert_eq!(r.len(), 1);
    assert_eq!(r[0].time, hong_kong(2022, 1, 1, 1, 10));
    assert_eq!(r[0].station, "Central");
    assert_eq!(float(&r[0].visibility.value), 10.0);
    assert_eq!(r[0].visibility.unit, "km");
    let ltmv::Response(j) = ltmv::Response::from_str(
        r#"{"data":[["202201010110", "Chek Lap Kok", "9.5 km "]]}"#,
    )
    .unwrap();
    assert_eq!(j[0].visibility.value, "9.5");
    assert_eq!(j[0].visibility.unit, "km");
}

#[test]
fn rise_transit_set() {
    let srs::Response(r1) = srs::Response::from_str(
        r#"YYYY-MM-DD,RISE,TRAN.,SET
2022-01-01,07:03,12:27,17:51
2022-01-02,07:03,12:27,17:51
2022-01-03,07:03,12:28,17:52"#,
    )
    .unwrap();
    let srs::Response(r2) = srs::Response::from_str(
        r#"2022-01-01,07:03,12:27,17:51
2022-01-02,07:03,12:27,17:51
2022-01-03,07:03,12:28,17:52"#,
    )
    .unwrap();
    let mrs::Response(r3) = mrs::Response::from_str(
        r#"{
    "fields": ["YYYY-MM-DD", "RISE", "TRAN.", "SET"],
    "data":[
        ["2022-01-01", "07:03", "12:27", "17:51"],
        ["2022-01-02", "07:03", "12:27", "17:51"],
        ["2022-01-03", "07:03", "12:28", "17:52"]]}"#,
    )
    .unwrap();
    assert!(r1.len() == r2.len() && r2.len() == r3.len());
    assert_eq!(r1.len(), 3);
    assert!(r1[0].rise == r2[0].rise && r2[0].rise == r3[0].rise);
    assert!(r1[0].transit == r2[0].transit && r2[0].transit == r3[0].transit);
    assert!(r1[0].set == r2[0].set && r2[0].set == r3[0].set);
    assert_eq!(r1[2].rise, hong_kong(2022, 1, 3, 7, 3));
    assert_eq!(r1[2].transit, hong_kong(2022, 1, 3, 12, 28));
    assert_eq!(r1[2].set, hong_kong(2022, 1, 3, 17, 52));
}

#[test]
fn climate_records() {
    let clmtemp::Response(r1) = clmtemp::Response::from_str(
        "\u{FEFF}\u{22}\u{FEFF}氣溫(攝氏度) - 天文台\"\n\"Temperature (°C) at the Hong Kong Observatory\"\n年/Year,月/Month,日/Day,數值/Value,\"數據完整性/data Completeness\"\n1884,3,1,***,\n2021,11,29,23.9,#\n2021,11,30,21.3,C\n2021,12,1,,\n\"*** 沒有數據/unavailable\"\n\"# 數據不完整/data incomplete\"\n\"C 數據完整/data Complete\"",
    )
    .unwrap();
    let clmtemp::Response(r2) = clmtemp::Response::from_str(
        r##"{
    "type": [
        "氣溫(攝氏度) - 天文台",
        "Temperature (°C) at the Hong Kong Observatory"
    ],
    "fields": [
        "年\/Year", "月\/Month", "日\/Day", "數值\/Value", "數據完整性\/data Completeness"
    ],
    "data": [
        ["1884", "3", "1", "***", ""],
        ["2021", "11", "29", "23.9", "#"],
        ["2021", "11", "30", "21.3", "C"],
        ["2021", "12", "1", "", ""]
    ],
    "legend": [
        "*** 沒有數據\/unavailable",
        "# 數據不完整\/data incomplete",
        "C 數據完整\/data Complete"
    ]
}"##,
    )
    .unwrap();
    assert!(r1.len() == r2.len() && r1.len() == 4);
    assert_eq!(r1[0].year, r2[0].year);
    assert_eq!(r1[1].month, r2[1].month);
    assert_eq!(r1[2].day, r2[2].day);
    assert_eq!(r1[2].temp, r2[2].temp);
    assert_eq!(r1[3].completeness, r2[3].completeness);
    assert_eq!((r1[0].year, r1[0].month, r1[0].day), (1884, 3, 1));
    assert_eq!(r1[0].temp, None);
    assert_eq!(r1[1].temp.as_deref().map(float), Some(23.9));
    assert!(!r1[1].completeness);
    assert!(r1[2].completeness);
    assert_eq!(r2[3].temp, None);
}

#[test]
fn area_keys_unpack_by_station() {
    let r = ryes::Response::from_str(
        r#"{
    "BulletinTime": "0015",
    "BulletinDate": "20220102",
    "ReportTimeInfoDate": "20220101",
    "HongKongDesc": "Average ambient gamma radiation dose rate.",
    "NoteDesc": "First note.",
    "NoteDesc1": "",
    "NoteDesc2": "Third note.",
    "NoteDesc3": "",
    "HKOReadingsAvgRainfall": "trace",
    "HKOReadingsMaxRH": "81",
    "KingsParkLocationName": "King's Park",
    "KingsParkMicrosieverts": "0.14",
    "KingsParkReadingsMaxTemp": "18.9",
    "KingsParkReadingsMinTemp": "15.1",
    "KingsParkMaxTemp": "19.0",
    "TsingYiLocationName": "Tsing Yi",
    "TsingYiMaxTemp": "",
    "TsingYiMinTemp": 3,
    "Unknown": "x"
}"#,
    )
    .unwrap();
    assert_eq!(r.hong_kong_desc, "Average ambient gamma radiation dose rate.");
    assert_eq!(r.note_desc, vec!["First note.".to_string(), "Third note.".to_string()]);
    assert_eq!(r.report_time_info_date, Date { year: 2022, month: 1, day: 1 });
    assert_eq!(r.bulletin_date_time, hong_kong(2022, 1, 2, 0, 15));
    let stations: Vec<&str> = r.area_data.iter().map(|a| a.station.as_str()).collect();
    assert_eq!(stations, vec!["HKO", "KingsPark", "TsingYi"]);
    let hko = &r.area_data[0];
    assert_eq!(hko.name, "");
    assert_eq!(hko.readings_average_rainfall, None);
    assert_eq!(hko.readings_max_rh.as_deref(), Some("81"));
    let kp = &r.area_data[1];
    assert_eq!(kp.name, "King's Park");
    assert_eq!(kp.microsieverts.as_deref().map(float), Some(0.14));
    assert_eq!(kp.readings_max_temp.as_deref().map(float), Some(18.9));
    assert_eq!(kp.readings_min_temp.as_deref().map(float), Some(15.1));
    assert_eq!(kp.max_temp.as_deref().map(float), Some(19.0));
    assert_eq!(kp.min_temp, None);
    let ty = &r.area_data[2];
    assert_eq!(ty.name, "Tsing Yi");
    assert_eq!(ty.max_temp, None);
    assert_eq!(ty.min_temp, None);
    assert!(r.area_data.iter().all(|a| a.station != "KingsParkReadings"));
}

#[test]
fn readings_names_are_tried_before_plain_ones() {
    let m = ryes::match_attribute("KingsParkReadingsMaxTemp").unwrap();
    assert_eq!(m.0, "KingsPark");
    assert_eq!(m.1, ryes::Attribute::ReadingsMaxTemp);
    let m = ryes::match_attribute("KingsParkReadingsMinTemp").unwrap();
    assert_eq!((m.0.as_str(), m.1), ("KingsPark", ryes::Attribute::ReadingsMinTemp));
    let m = ryes::match_attribute("ShaTinMaxTemp").unwrap();
    assert_eq!((m.0.as_str(), m.1), ("ShaTin", ryes::Attribute::MaxTemp));
    let m = ryes::match_attribute("HKOReadingsMinGrassTemp").unwrap();
    assert_eq!((m.0.as_str(), m.1), ("HKO", ryes::Attribute::ReadingsMinGrassTemp));
    assert!(ryes::match_attribute("BulletinDate").is_none());
    assert!(ryes::match_attribute("HongKongDesc").is_none());
    assert!(ryes::match_attribute("NoteDesc3").is_none());
    let blank = ryes::AreaData::new();
    assert_eq!(blank.name, "");
    assert_eq!(blank.max_temp, None);
}

#[test]
fn json_documents_as_values() {
    let doc = json::parse(r#"{"b": [1.5, "x", null, true], "a": {"k": "v"}}"#).unwrap();
    match doc.member("b") {
        Some(Json::Array(items)) => {
            assert_eq!(items.len(), 4);
            assert!(matches!(&items[0], Json::Number(n) if n == "1.5"));
            assert!(matches!(&items[1], Json::Text(t) if t == "x"));
            assert!(matches!(&items[2], Json::Null));
            assert!(matches!(&items[3], Json::Bool(true)));
        }
        _ => panic!("member b is no array"),
    }
    assert!(matches!(doc.member("a").and_then(|a| a.member("k")), Some(Json::Text(t)) if t == "v"));
    assert!(doc.member("c").is_none());
    assert!(doc.member("b").unwrap().to_list().is_none());
    let rows = json::parse(r#"[["a", "b"], []]"#).unwrap().to_table().unwrap();
    assert_eq!(rows, vec![strings(&["a", "b"]), strings(&[])]);
    assert!(matches!(json::parse("{"), Err(DataError::SourceFormat(_))));
}

#[test]
fn delimited_rows() {
    let rows = table::read_rows("a,\"b c\",d\n1,2,3\n\n4,5\n6,7,8", false, false);
    assert_eq!(rows, vec![strings(&["a", "b c", "d"]), strings(&["1", "2", "3"]), strings(&["6", "7", "8"])]);
    let rows = table::read_rows("a,b\n1,2\n3", true, true);
    assert_eq!(rows, vec![strings(&["1", "2"]), strings(&["3"])]);
    assert_eq!(table::read_labels("MM,DD,01\n1,2,3"), strings(&["MM", "DD", "01"]));
    assert_eq!(table::read_labels(""), strings(&[]));
    assert_eq!(hhot::Response::from_text("MM,DD,05\n01,02,0.7").0[0].hour, 5);
}
