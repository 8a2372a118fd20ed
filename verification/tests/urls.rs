use hko::api_url;
use hko::common::Lang;
use hko::hourly_rainfall;
use hko::lunardate;
use hko::opendata::clmmaxt;
use hko::opendata::clmmint;
use hko::opendata::clmtemp;
use hko::opendata::hhot;
use hko::opendata::hlt;
use hko::opendata::lhl;
use hko::opendata::ltmv;
use hko::opendata::mrs;
use hko::opendata::ryes;
use hko::opendata::srs;
use hko::opendata::ResponseFormat;
use hko::opendata::SeaStation;
use hko::opendata::TempStation;
use hko::opendata::WeatherStation;
use hko::time::Date;

const BASE: &str = "https://data.weather.gov.hk/weatherAPI/opendata/opendata.php?dataType=";

fn reason<T>(r: Result<T, hko::error::APIRequestError>) -> String {
    match r {
        Ok(_) => panic!("the request was accepted"),
        Err(e) => e.0,
    }
}

#[test]
fn hourly_tide_addresses() {
    assert_eq!(
        hhot::url(&SeaStation::CCH, 2021, None, None, None, None).unwrap(),
        format!("{}HHOT&station=CCH&year=2021", BASE)
    );
    assert_eq!(
        hhot::url(&SeaStation::WAG, 2024, Some(1), Some(2), Some(3), Some(ResponseFormat::CSV))
            .unwrap(),
        format!("{}HHOT&station=WAG&year=2024&rformat=csv&month=1&day=2&hour=3", BASE)
    );
    assert_eq!(
        hhot::url(&SeaStation::QUB, 2022, Some(12), None, None, Some(ResponseFormat::JSON)).unwrap(),
        format!("{}HHOT&station=QUB&year=2022&rformat=json&month=12", BASE)
    );
    assert_eq!(reason(hhot::url(&SeaStation::CCH, 2020, None, None, None, None)), "year must be 2021-2024");
    assert_eq!(reason(hhot::url(&SeaStation::CCH, 2025, None, None, None, None)), "year must be 2021-2024");
    assert_eq!(reason(hhot::url(&SeaStation::CCH, 2021, Some(0), None, None, None)), "month must be 1-12");
    assert_eq!(reason(hhot::url(&SeaStation::CCH, 2021, Some(13), None, None, None)), "month must be 1-12");
    assert_eq!(
        reason(hhot::url(&SeaStation::CCH, 2021, None, Some(5), None, None)),
        "day must be 1-31 and month must be specified"
    );
    assert_eq!(
        reason(hhot::url(&SeaStation::CCH, 2021, Some(1), Some(32), None, None)),
        "day must be 1-31 and month must be specified"
    );
    assert_eq!(
        reason(hhot::url(&SeaStation::CCH, 2021, Some(1), None, Some(5), None)),
        "hour must be 1-24 and day must be specified"
    );
    assert_eq!(
        reason(hhot::url(&SeaStation::CCH, 2021, Some(1), Some(1), Some(25), None)),
        "hour must be 1-24 and day must be specified"
    );
}

#[test]
fn tide_event_addresses() {
    assert_eq!(
        hlt::url(SeaStation::CCH, 2021, None).unwrap(),
        format!("{}HLT&station=CCH&year=2021", BASE)
    );
    assert_eq!(
        hlt::url(SeaStation::TPK, 2023, Some(ResponseFormat::JSON)).unwrap(),
        format!("{}HLT&station=TPK&year=2023&rformat=json", BASE)
    );
    assert_eq!(reason(hlt::url(SeaStation::CCH, 1999, None)), "year must be 2021-2024, got 1999");
    assert_eq!(reason(hlt::url(SeaStation::CCH, -7, None)), "year must be 2021-2024, got -7");
}

#[test]
fn addresses_by_language() {
    assert_eq!(lhl::url(Lang::TC, None), format!("{}LHL&lang=tc", BASE));
    assert_eq!(
        lhl::url(Lang::EN, Some(ResponseFormat::CSV)),
        format!("{}LHL&lang=en&rformat=csv", BASE)
    );
    assert_eq!(ltmv::url(&Lang::SC, None), format!("{}LTMV&lang=sc", BASE));
    assert_eq!(
        ltmv::url(&Lang::EN, Some(ResponseFormat::JSON)),
        format!("{}LTMV&lang=en&rformat=json", BASE)
    );
    assert_eq!(
        hourly_rainfall::url(&Lang::TC),
        "https://data.weather.gov.hk/weatherAPI/opendata/hourlyRainfall.php?lang=tc"
    );
    assert_eq!(
        api_url("weather", "rhrread", Lang::EN),
        "https://data.weather.gov.hk/weatherAPI/opendata/weather.php?dataType=rhrread&lang=en"
    );
    assert_eq!(
        api_url("earthquake", "qem", Lang::SC),
        "https://data.weather.gov.hk/weatherAPI/opendata/earthquake.php?dataType=qem&lang=sc"
    );
}

#[test]
fn rise_and_set_addresses() {
    assert_eq!(srs::url(2022, None, None, None).unwrap(), format!("{}SRS&year=2022", BASE));
    assert_eq!(
        mrs::url(2018, Some(2), Some(28), Some(ResponseFormat::CSV)).unwrap(),
        format!("{}MRS&year=2018&rformat=csv&month=2&day=28", BASE)
    );
    assert_eq!(reason(srs::url(2017, None, None, None)), "year must be 2018-2024");
    assert_eq!(reason(srs::url(2020, Some(13), None, None)), "month must be 1-12");
    assert_eq!(
        reason(mrs::url(2020, None, Some(1), None)),
        "day must be 1-31 and month must be specified"
    );
    assert_eq!(
        reason(mrs::url(2020, Some(1), Some(0), None)),
        "day must be 1-31 and month must be specified"
    );
}

#[test]
fn climate_addresses() {
    assert_eq!(
        clmtemp::url(TempStation::CCH, None, None, None).unwrap(),
        format!("{}CLMTEMP&station=CCH", BASE)
    );
    assert_eq!(
        clmmaxt::url(TempStation::HKO, Some(1884), Some(3), Some(ResponseFormat::JSON)).unwrap(),
        format!("{}CLMMAXT&station=HKO&year=1884&month=3&rformat=json", BASE)
    );
    assert_eq!(
        clmmint::url(TempStation::YCT, Some(2022), None, None).unwrap(),
        format!("{}CLMMINT&station=YCT&year=2022", BASE)
    );
    assert_eq!(
        reason(clmtemp::url(TempStation::HKO, Some(1943), None, None)),
        "Year 1943 is not available for HKO"
    );
    assert_eq!(
        reason(clmtemp::url(TempStation::HKO, Some(1883), None, None)),
        "Year 1883 is not available for HKO"
    );
    assert_eq!(
        reason(clmtemp::url(TempStation::YCT, Some(2021), None, None)),
        "Year 2021 is not available for YCT"
    );
    assert!(clmtemp::url(TempStation::HKO, Some(1947), None, None).is_ok());
}

#[test]
fn report_and_lunar_addresses() {
    let day = Date { year: 2022, month: 1, day: 1 };
    assert_eq!(ryes::url(day, None, None), format!("{}RYES&date=20220101", BASE));
    assert_eq!(
        ryes::url(day, Some(Lang::TC), Some(WeatherStation::HKO)),
        format!("{}RYES&date=20220101&lang=tc&station=HKO", BASE)
    );
    assert_eq!(
        lunardate::url(Date { year: 2023, month: 1, day: 1 }).unwrap(),
        "https://data.weather.gov.hk/weatherAPI/opendata/lunardate.php?date=2023-01-01"
    );
    assert_eq!(
        reason(lunardate::url(Date { year: 2022, month: 12, day: 31 })),
        "date must be between 2023-01-01 and 2027-12-31"
    );
    assert!(lunardate::url(Date { year: 2027, month: 12, day: 31 }).is_ok());
    assert!(lunardate::url(Date { year: 2028, month: 1, day: 1 }).is_err());
}

#[test]
fn dataset_addresses() {
    assert_eq!(
        <hko::weather::Current as hko::API>::url(Lang::EN),
        "https://data.weather.gov.hk/weatherAPI/opendata/weather.php?dataType=rhrread&lang=en"
    );
    assert_eq!(
        <hko::weather::NineDay as hko::API>::url(Lang::TC),
        "https://data.weather.gov.hk/weatherAPI/opendata/weather.php?dataType=fnd&lang=tc"
    );
    assert_eq!(
        <hko::weather::Summary as hko::API>::url(Lang::SC),
        "https://data.weather.gov.hk/weatherAPI/opendata/weather.php?dataType=warnsum&lang=sc"
    );
    assert_eq!(
        <hko::earthquake::FeltReport as hko::API>::url(Lang::EN),
        "https://data.weather.gov.hk/weatherAPI/opendata/earthquake.php?dataType=feltearthquake&lang=en"
    );
}
