//! Weather status names.

use crate::common::decimal_digits;
use crate::common::decimal_text;
use crate::common::EnumNameDesc;
use crate::common::Lang;
use vstd::prelude::*;
use vstd::string::StringExecFns;

verus! {

/// Weather status names.
#[derive(Clone, Copy, Debug, PartialEq, Eq, Hash, Structural)]
pub enum Name {
    Sunny,
    SunnyPeriods,
    SunnyIntervals,
    SunnyPeriodsWithAFewShowers,
    SunnyIntervalsWithShowers,
    Cloudy,
    Overcast,
    LightRain,
    Rain,
    HeavyRain,
    Thunderstorms,
    Fine0,
    Fine1,
    Fine2,
    Fine3,
    Fine4,
    Fine5,
    MainlyCloudy,
    MainlyFine,
    Windy,
    Dry,
    Humid,
    Fog,
    Mist,
    Haze,
    Hot,
    Warm,
    Cool,
    Cold,
}

impl Name {
    /// The number of the weather icon.
    pub open spec fn number_spec(self) -> u32 {
        match self {
            Name::Sunny => 50,
            Name::SunnyPeriods => 51,
            Name::SunnyIntervals => 52,
            Name::SunnyPeriodsWithAFewShowers => 53,
            Name::SunnyIntervalsWithShowers => 54,
            Name::Cloudy => 60,
            Name::Overcast => 61,
            Name::LightRain => 62,
            Name::Rain => 63,
            Name::HeavyRain => 64,
            Name::Thunderstorms => 65,
            Name::Fine0 => 70,
            Name::Fine1 => 71,
            Name::Fine2 => 72,
            Name::Fine3 => 73,
            Name::Fine4 => 74,
            Name::Fine5 => 75,
            Name::MainlyCloudy => 76,
            Name::MainlyFine => 77,
            Name::Windy => 80,
            Name::Dry => 81,
            Name::Humid => 82,
            Name::Fog => 83,
            Name::Mist => 84,
            Name::Haze => 85,
            Name::Hot => 90,
            Name::Warm => 91,
            Name::Cool => 92,
            Name::Cold => 93,
        }
    }

    /// The number of the weather icon.
    pub fn number(&self) -> (r: u32)
        ensures
            r == self.number_spec(),
    {
        match self {
            Name::Sunny => 50,
            Name::SunnyPeriods => 51,
            Name::SunnyIntervals => 52,
            Name::SunnyPeriodsWithAFewShowers => 53,
            Name::SunnyIntervalsWithShowers => 54,
            Name::Cloudy => 60,
            Name::Overcast => 61,
            Name::LightRain => 62,
            Name::Rain => 63,
            Name::HeavyRain => 64,
            Name::Thunderstorms => 65,
            Name::Fine0 => 70,
            Name::Fine1 => 71,
            Name::Fine2 => 72,
            Name::Fine3 => 73,
            Name::Fine4 => 74,
            Name::Fine5 => 75,
            Name::MainlyCloudy => 76,
            Name::MainlyFine => 77,
            Name::Windy => 80,
            Name::Dry => 81,
            Name::Humid => 82,
            Name::Fog => 83,
            Name::Mist => 84,
            Name::Haze => 85,
            Name::Hot => 90,
            Name::Warm => 91,
            Name::Cool => 92,
            Name::Cold => 93,
        }
    }

    /// The weather status that an icon number stands for.
    pub open spec fn of_number(n: u32) -> Option<Name> {
        if n == 50 {
            Some(Name::Sunny)
        } else if n == 51 {
            Some(Name::SunnyPeriods)
        } else if n == 52 {
            Some(Name::SunnyIntervals)
        } else if n == 53 {
            Some(Name::SunnyPeriodsWithAFewShowers)
        } else if n == 54 {
            Some(Name::SunnyIntervalsWithShowers)
        } else if n == 60 {
            Some(Name::Cloudy)
        } else if n == 61 {
            Some(Name::Overcast)
        } else if n == 62 {
            Some(Name::LightRain)
        } else if n == 63 {
            Some(Name::Rain)
        } else if n == 64 {
            Some(Name::HeavyRain)
        } else if n == 65 {
            Some(Name::Thunderstorms)
        } else if n == 70 {
            Some(Name::Fine0)
        } else if n == 71 {
            Some(Name::Fine1)
        } else if n == 72 {
            Some(Name::Fine2)
        } else if n == 73 {
            Some(Name::Fine3)
        } else if n == 74 {
            Some(Name::Fine4)
        } else if n == 75 {
            Some(Name::Fine5)
        } else if n == 76 {
            Some(Name::MainlyCloudy)
        } else if n == 77 {
            Some(Name::MainlyFine)
        } else if n == 80 {
            Some(Name::Windy)
        } else if n == 81 {
            Some(Name::Dry)
        } else if n == 82 {
            Some(Name::Humid)
        } else if n == 83 {
            Some(Name::Fog)
        } else if n == 84 {
            Some(Name::Mist)
        } else if n == 85 {
            Some(Name::Haze)
        } else if n == 90 {
            Some(Name::Hot)
        } else if n == 91 {
            Some(Name::Warm)
        } else if n == 92 {
            Some(Name::Cool)
        } else if n == 93 {
            Some(Name::Cold)
        } else {
            None
        }
    }

    /// The weather status that an icon number stands for.
    pub fn from_number(n: u32) -> (r: Option<Name>)
        ensures
            r == Name::of_number(n),
            r is Some ==> r->Some_0.number_spec() == n,
            r is None ==> forall|x: Name| x.number_spec() != n,
    {
        if n == 50 {
            Some(Name::Sunny)
        } else if n == 51 {
            Some(Name::SunnyPeriods)
        } else if n == 52 {
            Some(Name::SunnyIntervals)
        } else if n == 53 {
            Some(Name::SunnyPeriodsWithAFewShowers)
        } else if n == 54 {
            Some(Name::SunnyIntervalsWithShowers)
        } else if n == 60 {
            Some(Name::Cloudy)
        } else if n == 61 {
            Some(Name::Overcast)
        } else if n == 62 {
            Some(Name::LightRain)
        } else if n == 63 {
            Some(Name::Rain)
        } else if n == 64 {
            Some(Name::HeavyRain)
        } else if n == 65 {
            Some(Name::Thunderstorms)
        } else if n == 70 {
            Some(Name::Fine0)
        } else if n == 71 {
            Some(Name::Fine1)
        } else if n == 72 {
            Some(Name::Fine2)
        } else if n == 73 {
            Some(Name::Fine3)
        } else if n == 74 {
            Some(Name::Fine4)
        } else if n == 75 {
            Some(Name::Fine5)
        } else if n == 76 {
            Some(Name::MainlyCloudy)
        } else if n == 77 {
            Some(Name::MainlyFine)
        } else if n == 80 {
            Some(Name::Windy)
        } else if n == 81 {
            Some(Name::Dry)
        } else if n == 82 {
            Some(Name::Humid)
        } else if n == 83 {
            Some(Name::Fog)
        } else if n == 84 {
            Some(Name::Mist)
        } else if n == 85 {
            Some(Name::Haze)
        } else if n == 90 {
            Some(Name::Hot)
        } else if n == 91 {
            Some(Name::Warm)
        } else if n == 92 {
            Some(Name::Cool)
        } else if n == 93 {
            Some(Name::Cold)
        } else {
            None
        }
    }

    /// The address of the weather icon.
    pub fn icon_uri(&self) -> (r: String)
        ensures
            r@ == "https://www.hko.gov.hk/images/HKOWxIconOutline/pic"@ + decimal_digits(
                self.number_spec() as nat,
            ) + ".png"@,
    {
        let mut s: String = String::from_str("https://www.hko.gov.hk/images/HKOWxIconOutline/pic");
        let digits: String = decimal_text(self.number());
        s.append(digits.as_str());
        s.append(".png");
        s
    }
}

impl EnumNameDesc for Name {
    open spec fn name_text(&self, lang: Lang) -> Seq<char> {
        match *self {
            Name::Sunny => match lang {
                Lang::EN => "Sunny"@,
                Lang::TC => "陽光充沛"@,
                Lang::SC => "阳光充沛"@,
            },
            Name::SunnyPeriods => match lang {
                Lang::EN => "Sunny Periods"@,
                Lang::TC => "間有陽光"@,
                Lang::SC => "间有阳光"@,
            },
            Name::SunnyIntervals => match lang {
                Lang::EN => "Sunny Intervals"@,
                Lang::TC => "短暫陽光"@,
                Lang::SC => "短暂阳光"@,
            },
            Name::SunnyPeriodsWithAFewShowers => match lang {
                Lang::EN => "Sunny Periods with A Few Showers"@,
                Lang::TC => "間有陽光幾陣驟雨"@,
                Lang::SC => "间有阳光几阵骤雨"@,
            },
            Name::SunnyIntervalsWithShowers => match lang {
                Lang::EN => "Sunny Intervals with Showers"@,
                Lang::TC => "短暫陽光有驟雨"@,
                Lang::SC => "短暂阳光有骤雨"@,
            },
            Name::Cloudy => match lang {
                Lang::EN => "Cloudy"@,
                Lang::TC => "多雲"@,
                Lang::SC => "多云"@,
            },
            Name::Overcast => match lang {
                Lang::EN => "Overcast"@,
                Lang::TC => "密雲"@,
                Lang::SC => "密云"@,
            },
            Name::LightRain => match lang {
                Lang::EN => "Light Rain"@,
                Lang::TC => "微雨"@,
                Lang::SC => "微雨"@,
            },
            Name::Rain => match lang {
                Lang::EN => "Rain"@,
                Lang::TC => "雨"@,
                Lang::SC => "雨"@,
            },
            Name::HeavyRain => match lang {
                Lang::EN => "Heavy Rain"@,
                Lang::TC => "大雨"@,
                Lang::SC => "大雨"@,
            },
            Name::Thunderstorms => match lang {
                Lang::EN => "Thunderstorms"@,
                Lang::TC => "雷暴"@,
                Lang::SC => "雷暴"@,
            },
            Name::Fine0 => match lang {
                Lang::EN => "Fine"@,
                Lang::TC => "天色良好"@,
                Lang::SC => "天色良好"@,
            },
            Name::Fine1 => match lang {
                Lang::EN => "Fine"@,
                Lang::TC => "天色良好"@,
                Lang::SC => "天色良好"@,
            },
            Name::Fine2 => match lang {
                Lang::EN => "Fine"@,
                Lang::TC => "天色良好"@,
                Lang::SC => "天色良好"@,
            },
            Name::Fine3 => match lang {
                Lang::EN => "Fine"@,
                Lang::TC => "天色良好"@,
                Lang::SC => "天色良好"@,
            },
            Name::Fine4 => match lang {
                Lang::EN => "Fine"@,
                Lang::TC => "天色良好"@,
                Lang::SC => "天色良好"@,
            },
            Name::Fine5 => match lang {
                Lang::EN => "Fine"@,
                Lang::TC => "天色良好"@,
                Lang::SC => "天色良好"@,
            },
            Name::MainlyCloudy => match lang {
                Lang::EN => "Mainly Cloudy"@,
                Lang::TC => "大致多雲"@,
                Lang::SC => "大致多云"@,
            },
            Name::MainlyFine => match lang {
                Lang::EN => "Mainly Fine"@,
                Lang::TC => "天色大致良好"@,
                Lang::SC => "天色大致良好"@,
            },
            Name::Windy => match lang {
                Lang::EN => "Windy"@,
                Lang::TC => "大風"@,
                Lang::SC => "大风"@,
            },
            Name::Dry => match lang {
                Lang::EN => "Dry"@,
                Lang::TC => "乾燥"@,
                Lang::SC => "干燥"@,
            },
            Name::Humid => match lang {
                Lang::EN => "Humid"@,
                Lang::TC => "潮濕"@,
                Lang::SC => "潮湿"@,
            },
            Name::Fog => match lang {
                Lang::EN => "Fog"@,
                Lang::TC => "霧"@,
                Lang::SC => "雾"@,
            },
            Name::Mist => match lang {
                Lang::EN => "Mist"@,
                Lang::TC => "薄霧"@,
                Lang::SC => "薄雾"@,
            },
            Name::Haze => match lang {
                Lang::EN => "Haze"@,
                Lang::TC => "煙霞"@,
                Lang::SC => "烟霞"@,
            },
            Name::Hot => match lang {
                Lang::EN => "Hot"@,
                Lang::TC => "熱"@,
                Lang::SC => "热"@,
            },
            Name::Warm => match lang {
                Lang::EN => "Warm"@,
                Lang::TC => "暖"@,
                Lang::SC => "暖"@,
            },
            Name::Cool => match lang {
                Lang::EN => "Cool"@,
                Lang::TC => "涼"@,
                Lang::SC => "凉"@,
            },
            Name::Cold => match lang {
                Lang::EN => "Cold"@,
                Lang::TC => "冷"@,
                Lang::SC => "冷"@,
            },
        }
    }

    open spec fn desc_text(&self, lang: Lang) -> Seq<char> {
        match *self {
            Name::Sunny => match lang {
                Lang::EN => "Sunny"@,
                Lang::TC => "陽光充沛"@,
                Lang::SC => "阳光充沛"@,
            },
            Name::SunnyPeriods => match lang {
                Lang::EN => "Sunny Periods"@,
                Lang::TC => "間有陽光"@,
                Lang::SC => "间有阳光"@,
            },
            Name::SunnyIntervals => match lang {
                Lang::EN => "Sunny Intervals"@,
                Lang::TC => "短暫陽光"@,
                Lang::SC => "短暂阳光"@,
            },
            Name::SunnyPeriodsWithAFewShowers => match lang {
                Lang::EN => "Sunny Periods with A Few Showers"@,
                Lang::TC => "間有陽光幾陣驟雨"@,
                Lang::SC => "间有阳光几阵骤雨"@,
            },
            Name::SunnyIntervalsWithShowers => match lang {
                Lang::EN => "Sunny Intervals with Showers"@,
                Lang::TC => "短暫陽光有驟雨"@,
                Lang::SC => "短暂阳光有骤雨"@,
            },
            Name::Cloudy => match lang {
                Lang::EN => "Cloudy"@,
                Lang::TC => "多雲"@,
                Lang::SC => "多云"@,
            },
            Name::Overcast => match lang {
                Lang::EN => "Overcast"@,
                Lang::TC => "密雲"@,
                Lang::SC => "密云"@,
            },
            Name::LightRain => match lang {
                Lang::EN => "Light Rain"@,
                Lang::TC => "微雨"@,
                Lang::SC => "微雨"@,
            },
            Name::Rain => match lang {
                Lang::EN => "Rain"@,
                Lang::TC => "雨"@,
                Lang::SC => "雨"@,
            },
            Name::HeavyRain => match lang {
                Lang::EN => "Heavy Rain"@,
                Lang::TC => "大雨"@,
                Lang::SC => "大雨"@,
            },
            Name::Thunderstorms => match lang {
                Lang::EN => "Thunderstorms"@,
                Lang::TC => "雷暴"@,
                Lang::SC => "雷暴"@,
            },
            Name::Fine0 => match lang {
                Lang::EN => "Fine ( use only in night-time on 1st of the Lunar Month )"@,
                Lang::TC => "天色良好(只在農曆第一日晚間使用)"@,
                Lang::SC => "天色良好(只在农曆第一日晚间使用)"@,
            },
            Name::Fine1 => match lang {
                Lang::EN => "Fine ( use only in night-time on 2nd to 6th of the Lunar Month )"@,
                Lang::TC => "天色良好(只在農曆第二日至第六日晚間使用)"@,
                Lang::SC => "天色良好(只在农曆第二日至第六日晚间使用)"@,
            },
            Name::Fine2 => match lang {
                Lang::EN => "Fine ( use only in night-time during 7th to 13th of Lunar Month )"@,
                Lang::TC => "天色良好(只在農曆第七日至第十三日晚間使用)"@,
                Lang::SC => "天色良好(只在农曆第七日至第十三日晚间使用)"@,
            },
            Name::Fine3 => match lang {
                Lang::EN => "Fine ( use only in night-time during 14th to 17th of Lunar Month )"@,
                Lang::TC => "天色良好(只在農曆第十四日至第十七日晚間使用)"@,
                Lang::SC => "天色良好(只在农曆第十四日至第十七日晚间使用)"@,
            },
            Name::Fine4 => match lang {
                Lang::EN => "Fine ( use only in night-time during 18th to 24th of Lunar Month )"@,
                Lang::TC => "天色良好(只在農曆第十八日至第二十四日晚間使用)"@,
                Lang::SC => "天色良好(只在农曆第十八日至第二十四日晚间使用)"@,
            },
            Name::Fine5 => match lang {
                Lang::EN => "Mainly Cloudy ( use only in night-time during 25th to 30th of Lunar Month )"@,
                Lang::TC => "天色良好(只在農曆第二十五日至第三十日晚間使用)"@,
                Lang::SC => "天色良好(只在农曆第二十五日至第三十日晚间使用)"@,
            },
            Name::MainlyCloudy => match lang {
                Lang::EN => "Mainly Cloudy ( use only in night-time )"@,
                Lang::TC => "大致多雲(只在晚間使用)"@,
                Lang::SC => "大致多云(只在晚间使用)"@,
            },
            Name::MainlyFine => match lang {
                Lang::EN => "Mainly Fine ( use only in night-time )"@,
                Lang::TC => "天色大致良好(只在晚間使用)"@,
                Lang::SC => "天色大致良好(只在晚间使用)"@,
            },
            Name::Windy => match lang {
                Lang::EN => "Windy"@,
                Lang::TC => "大風"@,
                Lang::SC => "大风"@,
            },
            Name::Dry => match lang {
                Lang::EN => "Dry"@,
                Lang::TC => "乾燥"@,
                Lang::SC => "干燥"@,
            },
            Name::Humid => match lang {
                Lang::EN => "Humid"@,
                Lang::TC => "潮濕"@,
                Lang::SC => "潮湿"@,
            },
            Name::Fog => match lang {
                Lang::EN => "Fog"@,
                Lang::TC => "霧"@,
                Lang::SC => "雾"@,
            },
            Name::Mist => match lang {
                Lang::EN => "Mist"@,
                Lang::TC => "薄霧"@,
                Lang::SC => "薄雾"@,
            },
            Name::Haze => match lang {
                Lang::EN => "Haze"@,
                Lang::TC => "煙霞"@,
                Lang::SC => "烟霞"@,
            },
            Name::Hot => match lang {
                Lang::EN => "Hot"@,
                Lang::TC => "熱"@,
                Lang::SC => "热"@,
            },
            Name::Warm => match lang {
                Lang::EN => "Warm"@,
                Lang::TC => "暖"@,
                Lang::SC => "暖"@,
            },
            Name::Cool => match lang {
                Lang::EN => "Cool"@,
                Lang::TC => "涼"@,
                Lang::SC => "凉"@,
            },
            Name::Cold => match lang {
                Lang::EN => "Cold"@,
                Lang::TC => "冷"@,
                Lang::SC => "冷"@,
            },
        }
    }

    fn name(&self, lang: Lang) -> (r: String) {
        let text: &str = match *self {
            Name::Sunny => match lang {
                Lang::EN => "Sunny",
                Lang::TC => "陽光充沛",
                Lang::SC => "阳光充沛",
            },
            Name::SunnyPeriods => match lang {
                Lang::EN => "Sunny Periods",
                Lang::TC => "間有陽光",
                Lang::SC => "间有阳光",
            },
            Name::SunnyIntervals => match lang {
                Lang::EN => "Sunny Intervals",
                Lang::TC => "短暫陽光",
                Lang::SC => "短暂阳光",
            },
            Name::SunnyPeriodsWithAFewShowers => match lang {
                Lang::EN => "Sunny Periods with A Few Showers",
                Lang::TC => "間有陽光幾陣驟雨",
                Lang::SC => "间有阳光几阵骤雨",
            },
            Name::SunnyIntervalsWithShowers => match lang {
                Lang::EN => "Sunny Intervals with Showers",
                Lang::TC => "短暫陽光有驟雨",
                Lang::SC => "短暂阳光有骤雨",
            },
            Name::Cloudy => match lang {
                Lang::EN => "Cloudy",
                Lang::TC => "多雲",
                Lang::SC => "多云",
            },
            Name::Overcast => match lang {
                Lang::EN => "Overcast",
                Lang::TC => "密雲",
                Lang::SC => "密云",
            },
            Name::LightRain => match lang {
                Lang::EN => "Light Rain",
                Lang::TC => "微雨",
                Lang::SC => "微雨",
            },
            Name::Rain => match lang {
                Lang::EN => "Rain",
                Lang::TC => "雨",
                Lang::SC => "雨",
            },
            Name::HeavyRain => match lang {
                Lang::EN => "Heavy Rain",
                Lang::TC => "大雨",
                Lang::SC => "大雨",
            },
            Name::Thunderstorms => match lang {
                Lang::EN => "Thunderstorms",
                Lang::TC => "雷暴",
                Lang::SC => "雷暴",
            },
            Name::Fine0 => match lang {
                Lang::EN => "Fine",
                Lang::TC => "天色良好",
                Lang::SC => "天色良好",
            },
            Name::Fine1 => match lang {
                Lang::EN => "Fine",
                Lang::TC => "天色良好",
                Lang::SC => "天色良好",
            },
            Name::Fine2 => match lang {
                Lang::EN => "Fine",
                Lang::TC => "天色良好",
                Lang::SC => "天色良好",
            },
            Name::Fine3 => match lang {
                Lang::EN => "Fine",
                Lang::TC => "天色良好",
                Lang::SC => "天色良好",
            },
            Name::Fine4 => match lang {
                Lang::EN => "Fine",
                Lang::TC => "天色良好",
                Lang::SC => "天色良好",
            },
            Name::Fine5 => match lang {
                Lang::EN => "Fine",
                Lang::TC => "天色良好",
                Lang::SC => "天色良好",
            },
            Name::MainlyCloudy => match lang {
                Lang::EN => "Mainly Cloudy",
                Lang::TC => "大致多雲",
                Lang::SC => "大致多云",
            },
            Name::MainlyFine => match lang {
                Lang::EN => "Mainly Fine",
                Lang::TC => "天色大致良好",
                Lang::SC => "天色大致良好",
            },
            Name::Windy => match lang {
                Lang::EN => "Windy",
                Lang::TC => "大風",
                Lang::SC => "大风",
            },
            Name::Dry => match lang {
                Lang::EN => "Dry",
                Lang::TC => "乾燥",
                Lang::SC => "干燥",
            },
            Name::Humid => match lang {
                Lang::EN => "Humid",
                Lang::TC => "潮濕",
                Lang::SC => "潮湿",
            },
            Name::Fog => match lang {
                Lang::EN => "Fog",
                Lang::TC => "霧",
                Lang::SC => "雾",
            },
            Name::Mist => match lang {
                Lang::EN => "Mist",
                Lang::TC => "薄霧",
                Lang::SC => "薄雾",
            },
            Name::Haze => match lang {
                Lang::EN => "Haze",
                Lang::TC => "煙霞",
                Lang::SC => "烟霞",
            },
            Name::Hot => match lang {
                Lang::EN => "Hot",
                Lang::TC => "熱",
                Lang::SC => "热",
            },
            Name::Warm => match lang {
                Lang::EN => "Warm",
                Lang::TC => "暖",
                Lang::SC => "暖",
            },
            Name::Cool => match lang {
                Lang::EN => "Cool",
                Lang::TC => "涼",
                Lang::SC => "凉",
            },
            Name::Cold => match lang {
                Lang::EN => "Cold",
                Lang::TC => "冷",
                Lang::SC => "冷",
            },
        };
        String::from_str(text)
    }

    fn desc(&self, lang: Lang) -> (r: String) {
        let text: &str = match *self {
            Name::Sunny => match lang {
                Lang::EN => "Sunny",
                Lang::TC => "陽光充沛",
                Lang::SC => "阳光充沛",
            },
            Name::SunnyPeriods => match lang {
                Lang::EN => "Sunny Periods",
                Lang::TC => "間有陽光",
                Lang::SC => "间有阳光",
            },
            Name::SunnyIntervals => match lang {
                Lang::EN => "Sunny Intervals",
                Lang::TC => "短暫陽光",
                Lang::SC => "短暂阳光",
            },
            Name::SunnyPeriodsWithAFewShowers => match lang {
                Lang::EN => "Sunny Periods with A Few Showers",
                Lang::TC => "間有陽光幾陣驟雨",
                Lang::SC => "间有阳光几阵骤雨",
            },
            Name::SunnyIntervalsWithShowers => match lang {
                Lang::EN => "Sunny Intervals with Showers",
                Lang::TC => "短暫陽光有驟雨",
                Lang::SC => "短暂阳光有骤雨",
            },
            Name::Cloudy => match lang {
                Lang::EN => "Cloudy",
                Lang::TC => "多雲",
                Lang::SC => "多云",
            },
            Name::Overcast => match lang {
                Lang::EN => "Overcast",
                Lang::TC => "密雲",
                Lang::SC => "密云",
            },
            Name::LightRain => match lang {
                Lang::EN => "Light Rain",
                Lang::TC => "微雨",
                Lang::SC => "微雨",
            },
            Name::Rain => match lang {
                Lang::EN => "Rain",
                Lang::TC => "雨",
                Lang::SC => "雨",
            },
            Name::HeavyRain => match lang {
                Lang::EN => "Heavy Rain",
                Lang::TC => "大雨",
                Lang::SC => "大雨",
            },
            Name::Thunderstorms => match lang {
                Lang::EN => "Thunderstorms",
                Lang::TC => "雷暴",
                Lang::SC => "雷暴",
            },
            Name::Fine0 => match lang {
                Lang::EN => "Fine ( use only in night-time on 1st of the Lunar Month )",
                Lang::TC => "天色良好(只在農曆第一日晚間使用)",
                Lang::SC => "天色良好(只在农曆第一日晚间使用)",
            },
            Name::Fine1 => match lang {
                Lang::EN => "Fine ( use only in night-time on 2nd to 6th of the Lunar Month )",
                Lang::TC => "天色良好(只在農曆第二日至第六日晚間使用)",
                Lang::SC => "天色良好(只在农曆第二日至第六日晚间使用)",
            },
            Name::Fine2 => match lang {
                Lang::EN => "Fine ( use only in night-time during 7th to 13th of Lunar Month )",
                Lang::TC => "天色良好(只在農曆第七日至第十三日晚間使用)",
                Lang::SC => "天色良好(只在农曆第七日至第十三日晚间使用)",
            },
            Name::Fine3 => match lang {
                Lang::EN => "Fine ( use only in night-time during 14th to 17th of Lunar Month )",
                Lang::TC => "天色良好(只在農曆第十四日至第十七日晚間使用)",
                Lang::SC => "天色良好(只在农曆第十四日至第十七日晚间使用)",
            },
            Name::Fine4 => match lang {
                Lang::EN => "Fine ( use only in night-time during 18th to 24th of Lunar Month )",
                Lang::TC => "天色良好(只在農曆第十八日至第二十四日晚間使用)",
                Lang::SC => "天色良好(只在农曆第十八日至第二十四日晚间使用)",
            },
            Name::Fine5 => match lang {
                Lang::EN => "Mainly Cloudy ( use only in night-time during 25th to 30th of Lunar Month )",
                Lang::TC => "天色良好(只在農曆第二十五日至第三十日晚間使用)",
                Lang::SC => "天色良好(只在农曆第二十五日至第三十日晚间使用)",
            },
            Name::MainlyCloudy => match lang {
                Lang::EN => "Mainly Cloudy ( use only in night-time )",
                Lang::TC => "大致多雲(只在晚間使用)",
                Lang::SC => "大致多云(只在晚间使用)",
            },
            Name::MainlyFine => match lang {
                Lang::EN => "Mainly Fine ( use only in night-time )",
                Lang::TC => "天色大致良好(只在晚間使用)",
                Lang::SC => "天色大致良好(只在晚间使用)",
            },
            Name::Windy => match lang {
                Lang::EN => "Windy",
                Lang::TC => "大風",
                Lang::SC => "大风",
            },
            Name::Dry => match lang {
                Lang::EN => "Dry",
                Lang::TC => "乾燥",
                Lang::SC => "干燥",
            },
            Name::Humid => match lang {
                Lang::EN => "Humid",
                Lang::TC => "潮濕",
                Lang::SC => "潮湿",
            },
            Name::Fog => match lang {
                Lang::EN => "Fog",
                Lang::TC => "霧",
                Lang::SC => "雾",
            },
            Name::Mist => match lang {
                Lang::EN => "Mist",
                Lang::TC => "薄霧",
                Lang::SC => "薄雾",
            },
            Name::Haze => match lang {
                Lang::EN => "Haze",
                Lang::TC => "煙霞",
                Lang::SC => "烟霞",
            },
            Name::Hot => match lang {
                Lang::EN => "Hot",
                Lang::TC => "熱",
                Lang::SC => "热",
            },
            Name::Warm => match lang {
                Lang::EN => "Warm",
                Lang::TC => "暖",
                Lang::SC => "暖",
            },
            Name::Cool => match lang {
                Lang::EN => "Cool",
                Lang::TC => "涼",
                Lang::SC => "凉",
            },
            Name::Cold => match lang {
                Lang::EN => "Cold",
                Lang::TC => "冷",
                Lang::SC => "冷",
            },
        };
        String::from_str(text)
    }
}

} // verus!
