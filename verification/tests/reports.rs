use hko::common::EnumNameDesc;
use hko::common::Lang;
use hko::earthquake::FeltReport;
use hko::earthquake::Message;
use hko::hourly_rainfall;
use hko::hourly_rainfall::RainfallValue;
use hko::json::Json;
use hko::weather::Action;
use hko::time::TimePoint;
use hko::weather::Code;
use hko::weather::Current;
use hko::weather::Info;
use hko::weather::Local;
use hko::weather::Name;
use hko::weather::NineDay;
use hko::weather::Summary;
use hko::weather::Tips;
use hko::weather::WarningStatementCode;
use hko::weather::WarningSubtypeCode;
use hko::weather::PSR;

fn hong_kong(year: i32, month: u32, day: u32, hour: u32, minute: u32) -> TimePoint {
    TimePoint { year, month, day, hour, minute, second: 0, nanosecond: 0, offset: 28800 }
}

#[test]
fn current_test() {
    let test_input = {
        r#"{
    "lightning": {
        "data": [
            {
                "place": "大嶼山",
                "occur": "true"
            }
        ],
        "startTime": "2021-10-07T18:45:00+08:00",
        "endTime": "2021-10-07T19:45:00+08:00"
    },
    "rainfall": {
        "data": [
            {
                "unit": "mm",
                "place": "中西區",
                "max": 0,
                "main": "FALSE"
            },
            {
                "unit": "mm",
                "place": "東區",
                "max": 0,
                "main": "FALSE"
            }
        ],
        "startTime": "2021-09-28T14:45:00+08:00",
        "endTime": "2021-09-28T15:45:00+08:00"
    },
    "warningMessage": [
        "酷熱天氣警告現正生效，市民應慎防中暑，多補充水分。"
    ],
    "icon": [
        51
    ],
    "iconUpdateTime": "2021-09-28T06:00:00+08:00",
    "uvindex": {
        "data": [
            {
                "place": "京士柏",
                "value": 2,
                "desc": "低"
            }
        ],
        "recordDesc": "過去一小時"
    },
    "updateTime": "2021-09-28T16:02:00+08:00",
    "temperature": {
        "data": [
            {
                "place": "京士柏",
                "value": 31,
                "unit": "C"
            },
            {
                "place": "香港天文台",
                "value": 32,
                "unit": "C"
            }
        ],
        "recordTime": "2021-09-28T16:00:00+08:00"
    },
    "tcmessage": "",
    "mintempFrom00To09": "",
    "rainfallFrom00To12": "",
    "rainfallLastMonth": "",
    "rainfallJanuaryToLastMonth": "",
    "humidity": {
        "recordTime": "2021-09-28T16:00:00+08:00",
        "data": [
            {
                "unit": "percent",
                "value": 71,
                "place": "香港天文台"
            }
        ]
    }
}"#
    };

    let current: Current = Current::from_str(test_input).unwrap();
    println!("{:?}", current);
    assert_eq!(current.temperature.data[0].value.parse::<f32>().unwrap(), 31.);
    println!("{}", current.icon.icon[0].name(Lang::TC));

}

#[test]
fn local_test() {
    let test_input = {
        r#"{
            "generalSituation": "廣東沿岸風勢微弱。此外，驟雨正影響該區。本港方面，今早部分地區錄得超過10毫米雨量，而西貢的雨量更超過30毫米。",
            "tcInfo": "在正午十二時，颱風燦都集結在上海以東約230公里，預料移動緩慢，在上海以東海域徘徊。",
            "fireDangerWarning": "",
            "forecastPeriod": "本港地區下午及今晚天氣預測",
            "forecastDesc": "大致多雲，間中有驟雨及雷暴，初時局部地區雨勢頗大。吹微風。",
            "outlook": "未來兩三日間中有驟雨。週末期間部分時間有陽光。",
            "updateTime": "2021-09-14T12:45:00+08:00"
        }"#
    };

    let local: Local = Local::from_str(test_input).unwrap();
    println!("{:?}", local);

    assert!(!local.general_situation.is_empty());

}

#[test]
fn nineday_test() {
    let test_input = {
        r#"{
            "generalSituation": "熱帶氣旋泰利會在今明兩日繼續增強，大致移向雷州半島至海南島一帶，並為廣東沿岸帶來狂風驟雨及雷暴。預料泰利會在本週中期遠離廣東沿岸，但受南海中至北部的一道廣闊低壓槽影響，廣東沿岸仍有驟雨。而高空反氣旋會在接近週末增強，廣東地區天色稍為好轉。",
            "weatherForecast": [
                {
                    "forecastDate": "20230717",
                    "week": "星期一",
                    "forecastWind": "東至東北風7級，間中8級，漸轉東至東南風7至8級，離岸及高地達9級，稍後東至東南風6至7級。",
                    "forecastWeather": "密雲，有狂風驟雨及雷暴，雨勢有時頗大。海有大至非常大浪及有湧浪。",
                    "forecastMaxtemp": {
                        "value": 29,
                        "unit": "C"
                    },
                    "forecastMintemp": {
                        "value": 26,
                        "unit": "C"
                    },
                    "forecastMaxrh": {
                        "value": 95,
                        "unit": "percent"
                    },
                    "forecastMinrh": {
                        "value": 80,
                        "unit": "percent"
                    },
                    "ForecastIcon": 64,
                    "PSR": "高"
                },
                {
                    "forecastDate": "20230718",
                    "week": "星期二",
                    "forecastWind": "東至東南風5至6級，初時離岸及高地間中7級。",
                    "forecastWeather": "多雲，有狂風驟雨及雷暴，初時雨勢有時頗大。海有湧浪。",
                    "forecastMaxtemp": {
                        "value": 29,
                        "unit": "C"
                    },
                    "forecastMintemp": {
                        "value": 26,
                        "unit": "C"
                    },
                    "forecastMaxrh": {
                        "value": 95,
                        "unit": "percent"
                    },
                    "forecastMinrh": {
                        "value": 80,
                        "unit": "percent"
                    },
                    "ForecastIcon": 64,
                    "PSR": "高"
                },
                {
                    "forecastDate": "20230719",
                    "week": "星期三",
                    "forecastWind": "東至東南風4至5級，離岸及高地間中6級。",
                    "forecastWeather": "大致多雲，間中有驟雨及雷暴。初時驟雨較多。",
                    "forecastMaxtemp": {
                        "value": 30,
                        "unit": "C"
                    },
                    "forecastMintemp": {
                        "value": 27,
                        "unit": "C"
                    },
                    "forecastMaxrh": {
                        "value": 95,
                        "unit": "percent"
                    },
                    "forecastMinrh": {
                        "value": 75,
                        "unit": "percent"
                    },
                    "ForecastIcon": 63,
                    "PSR": "高"
                },
                {
                    "forecastDate": "20230720",
                    "week": "星期四",
                    "forecastWind": "東至東南風4級，間中5級。",
                    "forecastWeather": "大致多雲，有幾陣驟雨，局部地區有雷暴。",
                    "forecastMaxtemp": {
                        "value": 31,
                        "unit": "C"
                    },
                    "forecastMintemp": {
                        "value": 27,
                        "unit": "C"
                    },
                    "forecastMaxrh": {
                        "value": 95,
                        "unit": "percent"
                    },
                    "forecastMinrh": {
                        "value": 75,
                        "unit": "percent"
                    },
                    "ForecastIcon": 62,
                    "PSR": "中低"
                },
                {
                    "forecastDate": "20230721",
                    "week": "星期五",
                    "forecastWind": "東至東南風4級，間中5級。",
                    "forecastWeather": "短暫時間有陽光，有幾陣驟雨。",
                    "forecastMaxtemp": {
                        "value": 32,
                        "unit": "C"
                    },
                    "forecastMintemp": {
                        "value": 27,
                        "unit": "C"
                    },
                    "forecastMaxrh": {
                        "value": 95,
                        "unit": "percent"
                    },
                    "forecastMinrh": {
                        "value": 75,
                        "unit": "percent"
                    },
                    "ForecastIcon": 54,
                    "PSR": "低"
                },
                {
                    "forecastDate": "20230722",
                    "week": "星期六",
                    "forecastWind": "東至東南風4級。",
                    "forecastWeather": "部分時間有陽光，有一兩陣驟雨。",
                    "forecastMaxtemp": {
                        "value": 32,
                        "unit": "C"
                    },
                    "forecastMintemp": {
                        "value": 27,
                        "unit": "C"
                    },
                    "forecastMaxrh": {
                        "value": 95,
                        "unit": "percent"
                    },
                    "forecastMinrh": {
                        "value": 70,
                        "unit": "percent"
                    },
                    "ForecastIcon": 53,
                    "PSR": "低"
                },
                {
                    "forecastDate": "20230723",
                    "week": "星期日",
                    "forecastWind": "東風3級。",
                    "forecastWeather": "部分時間有陽光及酷熱。有幾陣驟雨，稍後局部地區有雷暴。",
                    "forecastMaxtemp": {
                        "value": 33,
                        "unit": "C"
                    },
                    "forecastMintemp": {
                        "value": 28,
                        "unit": "C"
                    },
                    "forecastMaxrh": {
                        "value": 90,
                        "unit": "percent"
                    },
                    "forecastMinrh": {
                        "value": 65,
                        "unit": "percent"
                    },
                    "ForecastIcon": 53,
                    "PSR": "中低"
                },
                {
                    "forecastDate": "20230724",
                    "week": "星期一",
                    "forecastWind": "東至東北風3至4級。",
                    "forecastWeather": "短暫時間有陽光及酷熱。有幾陣驟雨，稍後局部地區有雷暴。",
                    "forecastMaxtemp": {
                        "value": 33,
                        "unit": "C"
                    },
                    "forecastMintemp": {
                        "value": 28,
                        "unit": "C"
                    },
                    "forecastMaxrh": {
                        "value": 90,
                        "unit": "percent"
                    },
                    "forecastMinrh": {
                        "value": 65,
                        "unit": "percent"
                    },
                    "ForecastIcon": 54,
                    "PSR": "中"
                },
                {
                    "forecastDate": "20230725",
                    "week": "星期二",
                    "forecastWind": "東至東南風4至5級。",
                    "forecastWeather": "大致多雲，有幾陣驟雨。",
                    "forecastMaxtemp": {
                        "value": 32,
                        "unit": "C"
                    },
                    "forecastMintemp": {
                        "value": 28,
                        "unit": "C"
                    },
                    "forecastMaxrh": {
                        "value": 95,
                        "unit": "percent"
                    },
                    "forecastMinrh": {
                        "value": 75,
                        "unit": "percent"
                    },
                    "ForecastIcon": 62,
                    "PSR": "中"
                }
            ],
            "updateTime": "2023-07-16T19:50:00+08:00",
            "seaTemp": {
                "place": "北角",
                "value": 29,
                "unit": "C",
                "recordTime": "2023-07-16T14:00:00+08:00"
            },
            "soilTemp": [
                {
                    "place": "香港天文台",
                    "value": 30.9,
                    "unit": "C",
                    "recordTime": "2023-07-16T07:00:00+08:00",
                    "depth": {
                        "unit": "metre",
                        "value": 0.5
                    }
                },
                {
                    "place": "香港天文台",
                    "value": 30.2,
                    "unit": "C",
                    "recordTime": "2023-07-16T07:00:00+08:00",
                    "depth": {
                        "unit": "metre",
                        "value": 1
                    }
                }
            ]
        }"#
    };

    let nine_day: NineDay = NineDay::from_str(test_input).unwrap();
    println!("{:?}", nine_day);

}

#[test]
fn tips_test() {
    let test_input = {
        r#"{
        "swt": [
            {
                "desc": "Tips 1",
                "updateTime": "2020-09-24T14:10:00+08:00"
            },
            {
                "desc": "Tips 2"
            }
        ]
    }"#
    };

    let tips: Tips = Tips::from_str(test_input).unwrap();
    println!("{:?}", tips);
    assert_eq!(tips.tips[1].desc, Some("Tips 2".to_owned()));

}

#[test]
fn info_test() {
    let test_input = {
        r#"{
    "details": [
        {
            "contents": [
                "雷暴警告",
                "天文台在9月24日上午11時40分發出之雷暴警告，有效時間延長至今日下午7時30分，預料香港有雷暴。",
                "雷暴發生時，請採取以下預防措施：",
                "1. 留在室內。在室外的人士應躲入建築物內。",
                "2. 切勿站立於高地或接近導電的物體、樹木或桅杆。"
            ],
            "warningStatementCode": "WTS",
            "updateTime": "2020-09-24T05:00:00+08:00"
        },
        {
            "contents": [
                "強烈季候風信號在11時15分發出。"
            ],
            "warningStatementCode": "WMSGNL",
            "updateTime": "2020-09-24T11:15:00+08:00"
        },
        {
            "contents": [
                "三號強風信號在上午11時15分發出。"
            ],
            "subtype": "TC3",
            "warningStatementCode": "WTCSGNL",
            "updateTime": "2020-09-24T11:15:00+08:00"
        },
        {
            "contents": [
                "香港天文台在07時00分發出酷熱天氣警告。",
                "天文台預料今日本港天氣酷熱，加上風勢輕微，市民應提高警惕，以防中暑。",
                "在戶外工作或活動的人士，應多喝水和不要過度勞累。於感覺不適時，應盡快到陰涼的地方休息。",
                "在沒有空調設備室內的人士，應盡量打開窗戶以保持空氣流通。",
                "避免長時間在陽光下曝曬，以免受太陽紫外線曬傷。應穿上鬆身衣服以及配戴適當帽子和能阻隔紫外線的太陽眼鏡。",
                "泳客或在戶外遊玩的人士應重複塗抹防曬系數15 或以上的太陽油。",
                "請關注長者或慢性病患者的健康狀況。如認識他們，請間中致電或探訪他們，看看是否需要提供幫助。"
            ],
            "warningStatementCode": "WHOT",
            "updateTime": "2020-09-24T07:00:00+08:00"
        }
    ]
}"#
    };

    let warning: Info = Info::from_str(test_input).unwrap();
    println!("{warning:?}");

}

#[test]
fn summary_test() {
    let test_input = {
        r#"{
    "WHOT": {
        "name": "酷熱天氣警告",
        "code": "WHOT",
        "actionCode": "ISSUE",
        "issueTime": "2020-09-24T07:00:00+08:00",
        "updateTime": "2020-09-24T07:00:00+08:00"
    },
    "WRAIN": {
        "name": "暴雨警告信號",
        "code": "WRAINR",
        "type": "紅色",
        "actionCode": "ISSUE",
        "issueTime": "2020-09-24T11:15:00+08:00",
        "updateTime": "2020-09-24T11:15:00+08:00"
    },
    "WTS": {
        "name": "雷暴警告",
        "code": "WTS",
        "actionCode": "EXTEND",
        "issueTime": "2020-09-24T11:40:00+08:00",
        "expireTime": "2020-09-24T19:30:00+08:00",
        "updateTime": "2020-09-24T05:00:00+08:00"
    },
    "WTCSGNL": {
        "name": "熱帶氣旋警告信號",
        "code": "TC3",
        "actionCode": "ISSUE",
        "type": "三號強風信號",
        "issueTime": "2020-09-24T11:15:00+08:00",
        "updateTime": "2020-09-24T11:15:00+08:00"
    }
}"#
    };

    let summary: Summary = Summary::from_str(test_input).unwrap();
    println!("{summary:?}");

}

#[test]
fn message_test() {
    let test_input = {
        r#"{
    "lat": 44.28,
    "lon": -129.14,
    "mag": 6.0,
    "region": "俄勒岡離岸海域",
    "ptime": "2021-12-08T09:21:00+08:00",
    "updateTime": "2021-12-08T09:31:00+08:00"
}"#
    };

    let message: Message = Message::from_str(test_input).unwrap();
    println!("{message:?}");

}

#[test]
fn felt_report_test() {
    let test_input = {
        r#"{
    "updateTime": "2022-03-14T03:15:00+08:00",
    "mag": 4.1,
    "region": "中國東南部近岸",
    "intensity": 4,
    "lat": 22.51,
    "lon": 115.04,
    "details": [
        "（更新）據香港天文台的初步分析，2022年3月14日(星期一)上午2時29分中國東南部近岸發生一次 4.1級地震，震中位於北緯22.51度，東經115.04度附近，即香港之東北偏東約92公里。",
        "震中位置圖 ︰ https:\/\/www.hko.gov.hk\/tc\/gts\/equake\/map.htm",
        "香港天文台接獲超過八千名市民報告，表示感到輕微震動，震動維持數秒。初步分析顯示本港的地震烈度為修訂麥加利地震烈度表的第IV (四)度，即懸掛的物件擺動。門、窗、碗碟發出響聲。",
        "有關修訂麥加利地震烈度表的詳細解釋，請參閱以下網頁︰https:\/\/www.hko.gov.hk\/tc\/gts\/equake\/mms.htm"
    ],
    "ptime": "2022-03-14T02:29:00+08:00"
}"#
    };

    let felt_report: FeltReport = FeltReport::from_str(test_input).unwrap();
    println!("{felt_report:?}");

}

#[test]
fn hourly_rainfall_test() {
    let test_input = r#"{
    "obsTime": "2022-09-01T08:00:00+08:00",
    "hourlyRainfall": [
        {
        "automaticWeatherStation": "Lau Fau Shan",
        "automaticWeatherStationID": "RF001",
        "value": "0",
        "unit": "mm"
        },
        {
        "automaticWeatherStation": "Shui Pin Wai",
        "automaticWeatherStationID": "N12",
        "value": "M",
        "unit": "mm"
        }
    ]
}"#;

    let response = hourly_rainfall::Response::from_str(test_input).unwrap();
    println!("{response:?}");
    assert_eq!(response.obs_time, hong_kong(2022, 9, 1, 8, 0));
    assert_eq!(response.hourly_rainfall.len(), 2);
    assert_eq!(response.hourly_rainfall[0].automatic_weather_station, "Lau Fau Shan");
    assert_eq!(response.hourly_rainfall[0].automatic_weather_station_id, "RF001");
    assert_eq!(response.hourly_rainfall[0].value, RainfallValue::Rainfall(0));
    assert_eq!(response.hourly_rainfall[1].value, RainfallValue::UnderMaintenance);
    assert_eq!(response.hourly_rainfall[1].unit, "mm");
    assert!(hourly_rainfall::Response::from_str(&test_input.replace("\"M\"", "\"x\"")).is_err());
    assert!(hourly_rainfall::Response::from_str(&test_input.replace("obsTime", "time")).is_err());
}

#[test]
fn reports_hold_what_the_documents_say() {
    let current = Current::from_str(
        r#"{"rainfall": {"data": [{"unit": "mm", "place": "Sha Tin", "max": 1.5, "main": "TRUE"}],
            "startTime": "2021-09-28T14:45:00+08:00", "endTime": "2021-09-28T15:45:00+08:00"},
            "warningMessage": "", "icon": [51, 62], "iconUpdateTime": "2021-09-28T06:00:00+08:00",
            "uvindex": "", "updateTime": "2021-09-28T16:02:00+08:00",
            "temperature": {"data": [{"place": "King's Park", "value": 31.5, "unit": "C"}],
                            "recordTime": "2021-09-28T16:00:00+08:00"},
            "specialWxTips": ["a", "b"], "tcmessage": null,
            "humidity": {"recordTime": "2021-09-28T16:00:00+08:00", "data": []}}"#,
    )
    .unwrap();
    assert!(current.lightning.is_none());
    assert_eq!(current.rainfall.data[0].max.as_deref(), Some("1.5"));
    assert_eq!(current.rainfall.data[0].min, None);
    assert!(current.rainfall.data[0].maintenance);
    assert_eq!(current.rainfall.end_time, hong_kong(2021, 9, 28, 15, 45));
    assert!(current.warning_message.is_string());
    assert_eq!(current.icon.icon, vec![Name::SunnyPeriods, Name::LightRain]);
    assert!(current.uv_index.is_empty());
    assert_eq!(current.special_tips.map(|m| m.into_vec()), Some(vec!["a".to_string(), "b".to_string()]));
    assert!(current.tcmessage.is_none());
    assert_eq!(current.rainstorm_reminder, None);
    assert_eq!(current.temperature.data[0].place, "King's Park");
    assert_eq!(current.temperature.data[0].value.parse::<f32>().unwrap(), 31.5);
    assert!(current.humidity.data.is_empty());
    assert!(Current::from_str(r#"{"icon": [51]}"#).is_err());
    assert!(Current::from_str("").is_err());

    let summary = Summary::from_str(
        r#"{"WTS": {"name": "Thunderstorm Warning", "code": "WTS", "actionCode": "EXTEND",
                    "issueTime": "2020-09-24T11:40:00+08:00", "expireTime": "2020-09-24T19:30:00+08:00",
                    "updateTime": "2020-09-24T17:00:00+08:00"},
            "WTCSGNL": {"name": "Tropical Cyclone Warning Signal", "code": "TC3", "type": "x",
                    "actionCode": "ISSUE", "issueTime": "2020-09-24T11:40:00+08:00",
                    "updateTime": "2020-09-24T17:00:00+08:00"}}"#,
    )
    .unwrap();
    assert_eq!(summary.fields.len(), 2);
    let wts = summary.get("WTS").unwrap();
    assert_eq!(wts.code, Code::WarningStatement(WarningStatementCode::WTS));
    assert_eq!(wts.expire_time, Some(hong_kong(2020, 9, 24, 19, 30)));
    let tc = summary.get("WTCSGNL").unwrap();
    assert_eq!(tc.code, Code::WarningSubType(WarningSubtypeCode::TC3));
    assert_eq!(tc.expire_time, None);
    assert!(summary.get("WHOT").is_none());
    assert!(Summary::from_str(r#"{"WTS": {"name": "x"}}"#).is_err());

    let forecast = NineDay::from_str(
        r#"{"generalSituation": "g", "weatherForecast": [{"forecastDate": "20230717", "week": "Mon",
            "forecastWind": "w", "forecastWeather": "rain",
            "forecastMaxtemp": {"value": 29, "unit": "C"}, "forecastMintemp": {"value": 26, "unit": "C"},
            "forecastMaxrh": {"value": 95, "unit": "percent"}, "forecastMinrh": {"value": 80, "unit": "percent"},
            "ForecastIcon": 64, "PSR": "Medium Low"}],
            "updateTime": "2023-07-17T07:50:00+08:00",
            "seaTemp": {"place": "North Point", "value": 28, "unit": "C", "recordTime": "2023-07-17T07:00:00+08:00"},
            "soilTemp": [{"place": "HKO", "value": 29.8, "unit": "C", "recordTime": "2023-07-17T07:00:00+08:00",
                          "depth": {"unit": "metre", "value": 0.5}}]}"#,
    )
    .unwrap();
    let day = &forecast.weather_forecast[0];
    assert_eq!((day.date.year, day.date.month, day.date.day), (2023, 7, 17));
    assert_eq!(day.icon, Name::HeavyRain);
    assert_eq!(day.psr, PSR::MediumLow);
    assert_eq!(day.max_temp.value, "29");
    assert_eq!(day.min_humidity.unit, "percent");
    assert_eq!(forecast.sea_temp.temp.place, "North Point");
    assert_eq!(forecast.soil_temp[0].depth.value.parse::<f32>().unwrap(), 0.5);

    let felt = FeltReport::from_str(r#"{"mag": 4.1, "intensity": 4, "details": ["a"], "lat": null}"#).unwrap();
    assert_eq!(felt.magnitude.as_deref(), Some("4.1"));
    assert_eq!(felt.intensity.as_deref(), Some("4"));
    assert_eq!(felt.latitude, None);
    assert_eq!(felt.details, Some(vec!["a".to_string()]));
    assert_eq!(felt.occur_time, None);
    assert!(Message::from_str(r#"{"lat": 1}"#).is_err());
    assert!(Local::from_str("{}").is_err());
    assert!(Tips::from_str(r#"{"swt": []}"#).unwrap().tips.is_empty());
    assert!(Info::from_str("{}").unwrap().details.is_none());
}

fn signal(name: &str, action: &str) -> Json {
    let text = |t: &str| Json::Text(t.to_string());
    Json::Object(vec![
        ("name".to_string(), text(name)),
        ("code".to_string(), text("WTS")),
        ("actionCode".to_string(), text(action)),
        ("issueTime".to_string(), text("2020-09-24T11:40:00+08:00")),
        ("updateTime".to_string(), text("2020-09-24T17:00:00+08:00")),
    ])
}

#[test]
fn summary_holds_each_key_once() {
    let doc = Json::Object(vec![
        ("WTS".to_string(), signal("first", "ISSUE")),
        ("WHOT".to_string(), signal("hot", "ISSUE")),
        ("WTS".to_string(), signal("second", "EXTEND")),
    ]);
    let summary = Summary::from_json(&doc).unwrap();
    let keys: Vec<&str> = summary.fields.iter().map(|f| f.0.as_str()).collect();
    assert_eq!(keys, vec!["WTS", "WHOT"]);
    let wts = summary.get("WTS").unwrap();
    assert_eq!(wts.name, "second");
    assert_eq!(wts.action, Action::EXTEND);
    assert_eq!(summary.get("WHOT").unwrap().name, "hot");
    assert!(summary.get("WCOLD").is_none());
}
