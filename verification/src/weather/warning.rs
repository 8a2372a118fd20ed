//! Weather warning codes.

use crate::error::DataError;
use crate::fetch::API;
use crate::json::json_document;
use crate::json::text_in;
use crate::json::text_member;
use crate::json::Json;
use crate::text::same_text;
use crate::fields::optional_time_in;
use crate::fields::optional_time_member;
use crate::fields::time_in;
use crate::fields::time_member;
use crate::time::TimePoint;
use crate::common::EnumNameDesc;
use crate::common::Lang;
use vstd::prelude::*;
use vstd::string::StringExecFns;

verus! {

/// Warning statement code.
#[derive(Clone, Copy, Debug, PartialEq, Eq, Structural)]
pub enum WarningStatementCode {
    /// Fire Danger Warning
    WFIRE,
    /// Frost Warning
    WFROST,
    /// Hot Weather Warning
    WHOT,
    /// Cold Weather Warning
    WCOLD,
    /// Strong Monsoon Signal
    WMSGNL,
    /// Pre-no.8 Special Announcement
    WTCPRE8,
    /// Rainstorm Warning Signal
    WRAIN,
    /// Special Announcement on Flooding in the northern New Territories
    WFNTSA,
    /// Landslip Warning
    WL,
    /// Tropical Cyclone Warning Signal
    WTCSGNL,
    /// Tsunami Warning
    WTMW,
    /// Thunderstorm Warning
    WTS,
}

impl WarningStatementCode {
    /// The code as the API writes it.
    pub open spec fn code_text(self) -> Seq<char> {
        match self {
            WarningStatementCode::WFIRE => "WFIRE"@,
            WarningStatementCode::WFROST => "WFROST"@,
            WarningStatementCode::WHOT => "WHOT"@,
            WarningStatementCode::WCOLD => "WCOLD"@,
            WarningStatementCode::WMSGNL => "WMSGNL"@,
            WarningStatementCode::WTCPRE8 => "WTCPRE8"@,
            WarningStatementCode::WRAIN => "WRAIN"@,
            WarningStatementCode::WFNTSA => "WFNTSA"@,
            WarningStatementCode::WL => "WL"@,
            WarningStatementCode::WTCSGNL => "WTCSGNL"@,
            WarningStatementCode::WTMW => "WTMW"@,
            WarningStatementCode::WTS => "WTS"@,
        }
    }

    /// The code as the API writes it.
    pub fn code(&self) -> (r: &'static str)
        ensures
            r@ == self.code_text(),
    {
        match self {
            WarningStatementCode::WFIRE => "WFIRE",
            WarningStatementCode::WFROST => "WFROST",
            WarningStatementCode::WHOT => "WHOT",
            WarningStatementCode::WCOLD => "WCOLD",
            WarningStatementCode::WMSGNL => "WMSGNL",
            WarningStatementCode::WTCPRE8 => "WTCPRE8",
            WarningStatementCode::WRAIN => "WRAIN",
            WarningStatementCode::WFNTSA => "WFNTSA",
            WarningStatementCode::WL => "WL",
            WarningStatementCode::WTCSGNL => "WTCSGNL",
            WarningStatementCode::WTMW => "WTMW",
            WarningStatementCode::WTS => "WTS",
        }
    }

    /// The code that a text writes; the match is exact.
    pub open spec fn of_text(s: Seq<char>) -> Option<WarningStatementCode> {
        if s == "WFIRE"@ {
            Some(WarningStatementCode::WFIRE)
        } else if s == "WFROST"@ {
            Some(WarningStatementCode::WFROST)
        } else if s == "WHOT"@ {
            Some(WarningStatementCode::WHOT)
        } else if s == "WCOLD"@ {
            Some(WarningStatementCode::WCOLD)
        } else if s == "WMSGNL"@ {
            Some(WarningStatementCode::WMSGNL)
        } else if s == "WTCPRE8"@ {
            Some(WarningStatementCode::WTCPRE8)
        } else if s == "WRAIN"@ {
            Some(WarningStatementCode::WRAIN)
        } else if s == "WFNTSA"@ {
            Some(WarningStatementCode::WFNTSA)
        } else if s == "WL"@ {
            Some(WarningStatementCode::WL)
        } else if s == "WTCSGNL"@ {
            Some(WarningStatementCode::WTCSGNL)
        } else if s == "WTMW"@ {
            Some(WarningStatementCode::WTMW)
        } else if s == "WTS"@ {
            Some(WarningStatementCode::WTS)
        } else {
            None
        }
    }

    /// Decodes a code.
    pub fn from_str(s: &str) -> (r: Option<WarningStatementCode>)
        ensures
            r == WarningStatementCode::of_text(s@),
    {
        if same_text(s, "WFIRE") {
            Some(WarningStatementCode::WFIRE)
        } else if same_text(s, "WFROST") {
            Some(WarningStatementCode::WFROST)
        } else if same_text(s, "WHOT") {
            Some(WarningStatementCode::WHOT)
        } else if same_text(s, "WCOLD") {
            Some(WarningStatementCode::WCOLD)
        } else if same_text(s, "WMSGNL") {
            Some(WarningStatementCode::WMSGNL)
        } else if same_text(s, "WTCPRE8") {
            Some(WarningStatementCode::WTCPRE8)
        } else if same_text(s, "WRAIN") {
            Some(WarningStatementCode::WRAIN)
        } else if same_text(s, "WFNTSA") {
            Some(WarningStatementCode::WFNTSA)
        } else if same_text(s, "WL") {
            Some(WarningStatementCode::WL)
        } else if same_text(s, "WTCSGNL") {
            Some(WarningStatementCode::WTCSGNL)
        } else if same_text(s, "WTMW") {
            Some(WarningStatementCode::WTMW)
        } else if same_text(s, "WTS") {
            Some(WarningStatementCode::WTS)
        } else {
            None
        }
    }
}

impl EnumNameDesc for WarningStatementCode {
    open spec fn name_text(&self, lang: Lang) -> Seq<char> {
        match *self {
            WarningStatementCode::WFIRE => match lang {
                Lang::EN => "Fire Danger Warning"@,
                Lang::TC => "火災危險警告"@,
                Lang::SC => "火灾危险警告"@,
            },
            WarningStatementCode::WFROST => match lang {
                Lang::EN => "Frost Warning"@,
                Lang::TC => "霜凍警告"@,
                Lang::SC => "霜冻警告"@,
            },
            WarningStatementCode::WHOT => match lang {
                Lang::EN => "Hot Weather Warning"@,
                Lang::TC => "酷熱天氣警告"@,
                Lang::SC => "酷热天气警告"@,
            },
            WarningStatementCode::WCOLD => match lang {
                Lang::EN => "Cold Weather Warning"@,
                Lang::TC => "寒冷天氣警告"@,
                Lang::SC => "寒冷天气警告"@,
            },
            WarningStatementCode::WMSGNL => match lang {
                Lang::EN => "Strong Monsoon Signal"@,
                Lang::TC => "強烈季候風信號"@,
                Lang::SC => "强烈季候风信号"@,
            },
            WarningStatementCode::WTCPRE8 => match lang {
                Lang::EN => "Pre-no.8 Special Announcement"@,
                Lang::TC => "預警八號熱帶氣旋警告信號之特別報告"@,
                Lang::SC => "预警八号热带气旋警告信号之特别报告"@,
            },
            WarningStatementCode::WRAIN => match lang {
                Lang::EN => "Rainstorm Warning Signal"@,
                Lang::TC => "暴雨警告信號"@,
                Lang::SC => "暴雨警告信号"@,
            },
            WarningStatementCode::WFNTSA => match lang {
                Lang::EN => "Special Announcement on Flooding in the northern New Territories"@,
                Lang::TC => "新界北部水浸特別報告"@,
                Lang::SC => "新界北部水浸特别报告"@,
            },
            WarningStatementCode::WL => match lang {
                Lang::EN => "Landslip Warning"@,
                Lang::TC => "山泥傾瀉警告"@,
                Lang::SC => "山泥倾泻警告"@,
            },
            WarningStatementCode::WTCSGNL => match lang {
                Lang::EN => "Tropical Cyclone Warning Signal"@,
                Lang::TC => "熱帶氣旋警告信號"@,
                Lang::SC => "热带气旋警告信号"@,
            },
            WarningStatementCode::WTMW => match lang {
                Lang::EN => "Tsunami Warning"@,
                Lang::TC => "海嘯警告"@,
                Lang::SC => "海啸警告"@,
            },
            WarningStatementCode::WTS => match lang {
                Lang::EN => "Thunderstorm Warning"@,
                Lang::TC => "雷暴警告"@,
                Lang::SC => "雷暴警告"@,
            },
        }
    }

    open spec fn desc_text(&self, lang: Lang) -> Seq<char> {
        match *self {
            WarningStatementCode::WFIRE => match lang {
                Lang::EN => "Fire Danger Warning"@,
                Lang::TC => "火災危險警告"@,
                Lang::SC => "火灾危险警告"@,
            },
            WarningStatementCode::WFROST => match lang {
                Lang::EN => "Frost Warning"@,
                Lang::TC => "霜凍警告"@,
                Lang::SC => "霜冻警告"@,
            },
            WarningStatementCode::WHOT => match lang {
                Lang::EN => "Hot Weather Warning"@,
                Lang::TC => "酷熱天氣警告"@,
                Lang::SC => "酷热天气警告"@,
            },
            WarningStatementCode::WCOLD => match lang {
                Lang::EN => "Cold Weather Warning"@,
                Lang::TC => "寒冷天氣警告"@,
                Lang::SC => "寒冷天气警告"@,
            },
            WarningStatementCode::WMSGNL => match lang {
                Lang::EN => "Strong Monsoon Signal"@,
                Lang::TC => "強烈季候風信號"@,
                Lang::SC => "强烈季候风信号"@,
            },
            WarningStatementCode::WTCPRE8 => match lang {
                Lang::EN => "Pre-no.8 Special Announcement"@,
                Lang::TC => "預警八號熱帶氣旋警告信號之特別報告"@,
                Lang::SC => "预警八号热带气旋警告信号之特别报告"@,
            },
            WarningStatementCode::WRAIN => match lang {
                Lang::EN => "Rainstorm Warning Signal"@,
                Lang::TC => "暴雨警告信號"@,
                Lang::SC => "暴雨警告信号"@,
            },
            WarningStatementCode::WFNTSA => match lang {
                Lang::EN => "Special Announcement on Flooding in the northern New Territories"@,
                Lang::TC => "新界北部水浸特別報告"@,
                Lang::SC => "新界北部水浸特别报告"@,
            },
            WarningStatementCode::WL => match lang {
                Lang::EN => "Landslip Warning"@,
                Lang::TC => "山泥傾瀉警告"@,
                Lang::SC => "山泥倾泻警告"@,
            },
            WarningStatementCode::WTCSGNL => match lang {
                Lang::EN => "Tropical Cyclone Warning Signal"@,
                Lang::TC => "熱帶氣旋警告信號"@,
                Lang::SC => "热带气旋警告信号"@,
            },
            WarningStatementCode::WTMW => match lang {
                Lang::EN => "Tsunami Warning"@,
                Lang::TC => "海嘯警告"@,
                Lang::SC => "海啸警告"@,
            },
            WarningStatementCode::WTS => match lang {
                Lang::EN => "Thunderstorm Warning"@,
                Lang::TC => "雷暴警告"@,
                Lang::SC => "雷暴警告"@,
            },
        }
    }

    fn name(&self, lang: Lang) -> (r: String) {
        let text: &str = match *self {
            WarningStatementCode::WFIRE => match lang {
                Lang::EN => "Fire Danger Warning",
                Lang::TC => "火災危險警告",
                Lang::SC => "火灾危险警告",
            },
            WarningStatementCode::WFROST => match lang {
                Lang::EN => "Frost Warning",
                Lang::TC => "霜凍警告",
                Lang::SC => "霜冻警告",
            },
            WarningStatementCode::WHOT => match lang {
                Lang::EN => "Hot Weather Warning",
                Lang::TC => "酷熱天氣警告",
                Lang::SC => "酷热天气警告",
            },
            WarningStatementCode::WCOLD => match lang {
                Lang::EN => "Cold Weather Warning",
                Lang::TC => "寒冷天氣警告",
                Lang::SC => "寒冷天气警告",
            },
            WarningStatementCode::WMSGNL => match lang {
                Lang::EN => "Strong Monsoon Signal",
                Lang::TC => "強烈季候風信號",
                Lang::SC => "强烈季候风信号",
            },
            WarningStatementCode::WTCPRE8 => match lang {
                Lang::EN => "Pre-no.8 Special Announcement",
                Lang::TC => "預警八號熱帶氣旋警告信號之特別報告",
                Lang::SC => "预警八号热带气旋警告信号之特别报告",
            },
            WarningStatementCode::WRAIN => match lang {
                Lang::EN => "Rainstorm Warning Signal",
                Lang::TC => "暴雨警告信號",
                Lang::SC => "暴雨警告信号",
            },
            WarningStatementCode::WFNTSA => match lang {
                Lang::EN => "Special Announcement on Flooding in the northern New Territories",
                Lang::TC => "新界北部水浸特別報告",
                Lang::SC => "新界北部水浸特别报告",
            },
            WarningStatementCode::WL => match lang {
                Lang::EN => "Landslip Warning",
                Lang::TC => "山泥傾瀉警告",
                Lang::SC => "山泥倾泻警告",
            },
            WarningStatementCode::WTCSGNL => match lang {
                Lang::EN => "Tropical Cyclone Warning Signal",
                Lang::TC => "熱帶氣旋警告信號",
                Lang::SC => "热带气旋警告信号",
            },
            WarningStatementCode::WTMW => match lang {
                Lang::EN => "Tsunami Warning",
                Lang::TC => "海嘯警告",
                Lang::SC => "海啸警告",
            },
            WarningStatementCode::WTS => match lang {
                Lang::EN => "Thunderstorm Warning",
                Lang::TC => "雷暴警告",
                Lang::SC => "雷暴警告",
            },
        };
        String::from_str(text)
    }

    fn desc(&self, lang: Lang) -> (r: String) {
        let text: &str = match *self {
            WarningStatementCode::WFIRE => match lang {
                Lang::EN => "Fire Danger Warning",
                Lang::TC => "火災危險警告",
                Lang::SC => "火灾危险警告",
            },
            WarningStatementCode::WFROST => match lang {
                Lang::EN => "Frost Warning",
                Lang::TC => "霜凍警告",
                Lang::SC => "霜冻警告",
            },
            WarningStatementCode::WHOT => match lang {
                Lang::EN => "Hot Weather Warning",
                Lang::TC => "酷熱天氣警告",
                Lang::SC => "酷热天气警告",
            },
            WarningStatementCode::WCOLD => match lang {
                Lang::EN => "Cold Weather Warning",
                Lang::TC => "寒冷天氣警告",
                Lang::SC => "寒冷天气警告",
            },
            WarningStatementCode::WMSGNL => match lang {
                Lang::EN => "Strong Monsoon Signal",
                Lang::TC => "強烈季候風信號",
                Lang::SC => "强烈季候风信号",
            },
            WarningStatementCode::WTCPRE8 => match lang {
                Lang::EN => "Pre-no.8 Special Announcement",
                Lang::TC => "預警八號熱帶氣旋警告信號之特別報告",
                Lang::SC => "预警八号热带气旋警告信号之特别报告",
            },
            WarningStatementCode::WRAIN => match lang {
                Lang::EN => "Rainstorm Warning Signal",
                Lang::TC => "暴雨警告信號",
                Lang::SC => "暴雨警告信号",
            },
            WarningStatementCode::WFNTSA => match lang {
                Lang::EN => "Special Announcement on Flooding in the northern New Territories",
                Lang::TC => "新界北部水浸特別報告",
                Lang::SC => "新界北部水浸特别报告",
            },
            WarningStatementCode::WL => match lang {
                Lang::EN => "Landslip Warning",
                Lang::TC => "山泥傾瀉警告",
                Lang::SC => "山泥倾泻警告",
            },
            WarningStatementCode::WTCSGNL => match lang {
                Lang::EN => "Tropical Cyclone Warning Signal",
                Lang::TC => "熱帶氣旋警告信號",
                Lang::SC => "热带气旋警告信号",
            },
            WarningStatementCode::WTMW => match lang {
                Lang::EN => "Tsunami Warning",
                Lang::TC => "海嘯警告",
                Lang::SC => "海啸警告",
            },
            WarningStatementCode::WTS => match lang {
                Lang::EN => "Thunderstorm Warning",
                Lang::TC => "雷暴警告",
                Lang::SC => "雷暴警告",
            },
        };
        String::from_str(text)
    }
}

/// Warning subtype code.
#[derive(Clone, Copy, Debug, PartialEq, Eq, Structural)]
pub enum WarningSubtypeCode {
    /// Yellow Fire Danger Warning
    WFIREY,
    /// Red Fire Danger Warning
    WFIRER,
    /// Amber Rainstorm Warning
    WRAINA,
    /// Red Rainstorm Warning
    WRAINR,
    /// Black Rainstorm Warning
    WRAINB,
    /// No. 1 Tropical Cyclone Warning
    TC1,
    /// No. 3 Tropical Cyclone Warning
    TC3,
    /// No. 8 North East Tropical Cyclone Warning
    TC8NE,
    /// No. 8 South East Tropical Cyclone Warning
    TC8SE,
    /// No. 8 South West Tropical Cyclone Warning
    TC8SW,
    /// No. 8 North West Tropical Cyclone Warning
    TC8NW,
    /// No. 9 Tropical Cyclone Warning
    TC9,
    /// No. 10 Tropical Cyclone Warning
    TC10,
    /// Cancel All Signals
    CANCEL,
}

impl WarningSubtypeCode {
    /// The code as the API writes it.
    pub open spec fn code_text(self) -> Seq<char> {
        match self {
            WarningSubtypeCode::WFIREY => "WFIREY"@,
            WarningSubtypeCode::WFIRER => "WFIRER"@,
            WarningSubtypeCode::WRAINA => "WRAINA"@,
            WarningSubtypeCode::WRAINR => "WRAINR"@,
            WarningSubtypeCode::WRAINB => "WRAINB"@,
            WarningSubtypeCode::TC1 => "TC1"@,
            WarningSubtypeCode::TC3 => "TC3"@,
            WarningSubtypeCode::TC8NE => "TC8NE"@,
            WarningSubtypeCode::TC8SE => "TC8SE"@,
            WarningSubtypeCode::TC8SW => "TC8SW"@,
            WarningSubtypeCode::TC8NW => "TC8NW"@,
            WarningSubtypeCode::TC9 => "TC9"@,
            WarningSubtypeCode::TC10 => "TC10"@,
            WarningSubtypeCode::CANCEL => "CANCEL"@,
        }
    }

    /// The code as the API writes it.
    pub fn code(&self) -> (r: &'static str)
        ensures
            r@ == self.code_text(),
    {
        match self {
            WarningSubtypeCode::WFIREY => "WFIREY",
            WarningSubtypeCode::WFIRER => "WFIRER",
            WarningSubtypeCode::WRAINA => "WRAINA",
            WarningSubtypeCode::WRAINR => "WRAINR",
            WarningSubtypeCode::WRAINB => "WRAINB",
            WarningSubtypeCode::TC1 => "TC1",
            WarningSubtypeCode::TC3 => "TC3",
            WarningSubtypeCode::TC8NE => "TC8NE",
            WarningSubtypeCode::TC8SE => "TC8SE",
            WarningSubtypeCode::TC8SW => "TC8SW",
            WarningSubtypeCode::TC8NW => "TC8NW",
            WarningSubtypeCode::TC9 => "TC9",
            WarningSubtypeCode::TC10 => "TC10",
            WarningSubtypeCode::CANCEL => "CANCEL",
        }
    }

    /// The code that a text writes; the match is exact.
    pub open spec fn of_text(s: Seq<char>) -> Option<WarningSubtypeCode> {
        if s == "WFIREY"@ {
            Some(WarningSubtypeCode::WFIREY)
        } else if s == "WFIRER"@ {
            Some(WarningSubtypeCode::WFIRER)
        } else if s == "WRAINA"@ {
            Some(WarningSubtypeCode::WRAINA)
        } else if s == "WRAINR"@ {
            Some(WarningSubtypeCode::WRAINR)
        } else if s == "WRAINB"@ {
            Some(WarningSubtypeCode::WRAINB)
        } else if s == "TC1"@ {
            Some(WarningSubtypeCode::TC1)
        } else if s == "TC3"@ {
            Some(WarningSubtypeCode::TC3)
        } else if s == "TC8NE"@ {
            Some(WarningSubtypeCode::TC8NE)
        } else if s == "TC8SE"@ {
            Some(WarningSubtypeCode::TC8SE)
        } else if s == "TC8SW"@ {
            Some(WarningSubtypeCode::TC8SW)
        } else if s == "TC8NW"@ {
            Some(WarningSubtypeCode::TC8NW)
        } else if s == "TC9"@ {
            Some(WarningSubtypeCode::TC9)
        } else if s == "TC10"@ {
            Some(WarningSubtypeCode::TC10)
        } else if s == "CANCEL"@ {
            Some(WarningSubtypeCode::CANCEL)
        } else {
            None
        }
    }

    /// Decodes a code.
    pub fn from_str(s: &str) -> (r: Option<WarningSubtypeCode>)
        ensures
            r == WarningSubtypeCode::of_text(s@),
    {
        if same_text(s, "WFIREY") {
            Some(WarningSubtypeCode::WFIREY)
        } else if same_text(s, "WFIRER") {
            Some(WarningSubtypeCode::WFIRER)
        } else if same_text(s, "WRAINA") {
            Some(WarningSubtypeCode::WRAINA)
        } else if same_text(s, "WRAINR") {
            Some(WarningSubtypeCode::WRAINR)
        } else if same_text(s, "WRAINB") {
            Some(WarningSubtypeCode::WRAINB)
        } else if same_text(s, "TC1") {
            Some(WarningSubtypeCode::TC1)
        } else if same_text(s, "TC3") {
            Some(WarningSubtypeCode::TC3)
        } else if same_text(s, "TC8NE") {
            Some(WarningSubtypeCode::TC8NE)
        } else if same_text(s, "TC8SE") {
            Some(WarningSubtypeCode::TC8SE)
        } else if same_text(s, "TC8SW") {
            Some(WarningSubtypeCode::TC8SW)
        } else if same_text(s, "TC8NW") {
            Some(WarningSubtypeCode::TC8NW)
        } else if same_text(s, "TC9") {
            Some(WarningSubtypeCode::TC9)
        } else if same_text(s, "TC10") {
            Some(WarningSubtypeCode::TC10)
        } else if same_text(s, "CANCEL") {
            Some(WarningSubtypeCode::CANCEL)
        } else {
            None
        }
    }
}

impl EnumNameDesc for WarningSubtypeCode {
    open spec fn name_text(&self, lang: Lang) -> Seq<char> {
        match *self {
            WarningSubtypeCode::WFIREY => match lang {
                Lang::EN => "Yellow Fire Danger Warning"@,
                Lang::TC => "黃色火災危險警告"@,
                Lang::SC => "黄色火灾危险警告"@,
            },
            WarningSubtypeCode::WFIRER => match lang {
                Lang::EN => "Red Fire Danger Warning"@,
                Lang::TC => "紅色火災危險警告"@,
                Lang::SC => "红色火灾危险警告"@,
            },
            WarningSubtypeCode::WRAINA => match lang {
                Lang::EN => "Amber Rainstorm Warning Signal"@,
                Lang::TC => "黃色暴雨警告信號"@,
                Lang::SC => "黄色暴雨警告信号"@,
            },
            WarningSubtypeCode::WRAINR => match lang {
                Lang::EN => "Red Rainstorm Warning Signal"@,
                Lang::TC => "紅色暴雨警告信號"@,
                Lang::SC => "红色暴雨警告信号"@,
            },
            WarningSubtypeCode::WRAINB => match lang {
                Lang::EN => "Black Rainstorm Warning Signal"@,
                Lang::TC => "黑色暴雨警告信號"@,
                Lang::SC => "黑色暴雨警告信号"@,
            },
            WarningSubtypeCode::TC1 => match lang {
                Lang::EN => "Standby Signal No. 1"@,
                Lang::TC => "一號戒備信號"@,
                Lang::SC => "一号戒备信号"@,
            },
            WarningSubtypeCode::TC3 => match lang {
                Lang::EN => "Strong Wind Signal No. 3"@,
                Lang::TC => "三號強風信號"@,
                Lang::SC => "三号强风信号"@,
            },
            WarningSubtypeCode::TC8NE => match lang {
                Lang::EN => "No. 8 Northeast Gale or Storm Signal"@,
                Lang::TC => "八號東北烈風或暴風信號"@,
                Lang::SC => "八号东北烈风或暴风信号"@,
            },
            WarningSubtypeCode::TC8SE => match lang {
                Lang::EN => "No. 8 Southeast Gale or Storm Signal"@,
                Lang::TC => "八號東南烈風或暴風信號"@,
                Lang::SC => "八号东南烈风或暴风信号"@,
            },
            WarningSubtypeCode::TC8SW => match lang {
                Lang::EN => "No. 8 Southwest Gale or Storm Signal"@,
                Lang::TC => "八號西南烈風或暴風信號"@,
                Lang::SC => "八号西南烈风或暴风信号"@,
            },
            WarningSubtypeCode::TC8NW => match lang {
                Lang::EN => "No. 8 Northwest Gale or Storm Signal"@,
                Lang::TC => "八號西北烈風或暴風信號"@,
                Lang::SC => "八号西北烈风或暴风信号"@,
            },
            WarningSubtypeCode::TC9 => match lang {
                Lang::EN => "Increasing Gale or Storm Signal No. 9"@,
                Lang::TC => "九號烈風或暴風風力增強信號"@,
                Lang::SC => "九号烈风或暴风风力增强信号"@,
            },
            WarningSubtypeCode::TC10 => match lang {
                Lang::EN => "Hurricane Signal No. 10"@,
                Lang::TC => "十號颶風信號"@,
                Lang::SC => "十号飓风信号"@,
            },
            WarningSubtypeCode::CANCEL => match lang {
                Lang::EN => "Cancel All Signals"@,
                Lang::TC => "取消所有信號"@,
                Lang::SC => "取消所有信号"@,
            },
        }
    }

    open spec fn desc_text(&self, lang: Lang) -> Seq<char> {
        match *self {
            WarningSubtypeCode::WFIREY => match lang {
                Lang::EN => "Yellow Fire Danger Warning"@,
                Lang::TC => "黃色火災危險警告"@,
                Lang::SC => "黄色火灾危险警告"@,
            },
            WarningSubtypeCode::WFIRER => match lang {
                Lang::EN => "Red Fire Danger Warning"@,
                Lang::TC => "紅色火災危險警告"@,
                Lang::SC => "红色火灾危险警告"@,
            },
            WarningSubtypeCode::WRAINA => match lang {
                Lang::EN => "Amber Rainstorm Warning Signal"@,
                Lang::TC => "黃色暴雨警告信號"@,
                Lang::SC => "黄色暴雨警告信号"@,
            },
            WarningSubtypeCode::WRAINR => match lang {
                Lang::EN => "Red Rainstorm Warning Signal"@,
                Lang::TC => "紅色暴雨警告信號"@,
                Lang::SC => "红色暴雨警告信号"@,
            },
            WarningSubtypeCode::WRAINB => match lang {
                Lang::EN => "Black Rainstorm Warning Signal"@,
                Lang::TC => "黑色暴雨警告信號"@,
                Lang::SC => "黑色暴雨警告信号"@,
            },
            WarningSubtypeCode::TC1 => match lang {
                Lang::EN => "Standby Signal No. 1"@,
                Lang::TC => "一號戒備信號"@,
                Lang::SC => "一号戒备信号"@,
            },
            WarningSubtypeCode::TC3 => match lang {
                Lang::EN => "Strong Wind Signal No. 3"@,
                Lang::TC => "三號強風信號"@,
                Lang::SC => "三号强风信号"@,
            },
            WarningSubtypeCode::TC8NE => match lang {
                Lang::EN => "No. 8 Northeast Gale or Storm Signal"@,
                Lang::TC => "八號東北烈風或暴風信號"@,
                Lang::SC => "八号东北烈风或暴风信号"@,
            },
            WarningSubtypeCode::TC8SE => match lang {
                Lang::EN => "No. 8 Southeast Gale or Storm Signal"@,
                Lang::TC => "八號東南烈風或暴風信號"@,
                Lang::SC => "八号东南烈风或暴风信号"@,
            },
            WarningSubtypeCode::TC8SW => match lang {
                Lang::EN => "No. 8 Southwest Gale or Storm Signal"@,
                Lang::TC => "八號西南烈風或暴風信號"@,
                Lang::SC => "八号西南烈风或暴风信号"@,
            },
            WarningSubtypeCode::TC8NW => match lang {
                Lang::EN => "No. 8 Northwest Gale or Storm Signal"@,
                Lang::TC => "八號西北烈風或暴風信號"@,
                Lang::SC => "八号西北烈风或暴风信号"@,
            },
            WarningSubtypeCode::TC9 => match lang {
                Lang::EN => "Increasing Gale or Storm Signal No. 9"@,
                Lang::TC => "九號烈風或暴風風力增強信號"@,
                Lang::SC => "九号烈风或暴风风力增强信号"@,
            },
            WarningSubtypeCode::TC10 => match lang {
                Lang::EN => "Hurricane Signal No. 10"@,
                Lang::TC => "十號颶風信號"@,
                Lang::SC => "十号飓风信号"@,
            },
            WarningSubtypeCode::CANCEL => match lang {
                Lang::EN => "Cancel All Signals"@,
                Lang::TC => "取消所有信號"@,
                Lang::SC => "取消所有信号"@,
            },
        }
    }

    fn name(&self, lang: Lang) -> (r: String) {
        let text: &str = match *self {
            WarningSubtypeCode::WFIREY => match lang {
                Lang::EN => "Yellow Fire Danger Warning",
                Lang::TC => "黃色火災危險警告",
                Lang::SC => "黄色火灾危险警告",
            },
            WarningSubtypeCode::WFIRER => match lang {
                Lang::EN => "Red Fire Danger Warning",
                Lang::TC => "紅色火災危險警告",
                Lang::SC => "红色火灾危险警告",
            },
            WarningSubtypeCode::WRAINA => match lang {
                Lang::EN => "Amber Rainstorm Warning Signal",
                Lang::TC => "黃色暴雨警告信號",
                Lang::SC => "黄色暴雨警告信号",
            },
            WarningSubtypeCode::WRAINR => match lang {
                Lang::EN => "Red Rainstorm Warning Signal",
                Lang::TC => "紅色暴雨警告信號",
                Lang::SC => "红色暴雨警告信号",
            },
            WarningSubtypeCode::WRAINB => match lang {
                Lang::EN => "Black Rainstorm Warning Signal",
                Lang::TC => "黑色暴雨警告信號",
                Lang::SC => "黑色暴雨警告信号",
            },
            WarningSubtypeCode::TC1 => match lang {
                Lang::EN => "Standby Signal No. 1",
                Lang::TC => "一號戒備信號",
                Lang::SC => "一号戒备信号",
            },
            WarningSubtypeCode::TC3 => match lang {
                Lang::EN => "Strong Wind Signal No. 3",
                Lang::TC => "三號強風信號",
                Lang::SC => "三号强风信号",
            },
            WarningSubtypeCode::TC8NE => match lang {
                Lang::EN => "No. 8 Northeast Gale or Storm Signal",
                Lang::TC => "八號東北烈風或暴風信號",
                Lang::SC => "八号东北烈风或暴风信号",
            },
            WarningSubtypeCode::TC8SE => match lang {
                Lang::EN => "No. 8 Southeast Gale or Storm Signal",
                Lang::TC => "八號東南烈風或暴風信號",
                Lang::SC => "八号东南烈风或暴风信号",
            },
            WarningSubtypeCode::TC8SW => match lang {
                Lang::EN => "No. 8 Southwest Gale or Storm Signal",
                Lang::TC => "八號西南烈風或暴風信號",
                Lang::SC => "八号西南烈风或暴风信号",
            },
            WarningSubtypeCode::TC8NW => match lang {
                Lang::EN => "No. 8 Northwest Gale or Storm Signal",
                Lang::TC => "八號西北烈風或暴風信號",
                Lang::SC => "八号西北烈风或暴风信号",
            },
            WarningSubtypeCode::TC9 => match lang {
                Lang::EN => "Increasing Gale or Storm Signal No. 9",
                Lang::TC => "九號烈風或暴風風力增強信號",
                Lang::SC => "九号烈风或暴风风力增强信号",
            },
            WarningSubtypeCode::TC10 => match lang {
                Lang::EN => "Hurricane Signal No. 10",
                Lang::TC => "十號颶風信號",
                Lang::SC => "十号飓风信号",
            },
            WarningSubtypeCode::CANCEL => match lang {
                Lang::EN => "Cancel All Signals",
                Lang::TC => "取消所有信號",
                Lang::SC => "取消所有信号",
            },
        };
        String::from_str(text)
    }

    fn desc(&self, lang: Lang) -> (r: String) {
        let text: &str = match *self {
            WarningSubtypeCode::WFIREY => match lang {
                Lang::EN => "Yellow Fire Danger Warning",
                Lang::TC => "黃色火災危險警告",
                Lang::SC => "黄色火灾危险警告",
            },
            WarningSubtypeCode::WFIRER => match lang {
                Lang::EN => "Red Fire Danger Warning",
                Lang::TC => "紅色火災危險警告",
                Lang::SC => "红色火灾危险警告",
            },
            WarningSubtypeCode::WRAINA => match lang {
                Lang::EN => "Amber Rainstorm Warning Signal",
                Lang::TC => "黃色暴雨警告信號",
                Lang::SC => "黄色暴雨警告信号",
            },
            WarningSubtypeCode::WRAINR => match lang {
                Lang::EN => "Red Rainstorm Warning Signal",
                Lang::TC => "紅色暴雨警告信號",
                Lang::SC => "红色暴雨警告信号",
            },
            WarningSubtypeCode::WRAINB => match lang {
                Lang::EN => "Black Rainstorm Warning Signal",
                Lang::TC => "黑色暴雨警告信號",
                Lang::SC => "黑色暴雨警告信号",
            },
            WarningSubtypeCode::TC1 => match lang {
                Lang::EN => "Standby Signal No. 1",
                Lang::TC => "一號戒備信號",
                Lang::SC => "一号戒备信号",
            },
            WarningSubtypeCode::TC3 => match lang {
                Lang::EN => "Strong Wind Signal No. 3",
                Lang::TC => "三號強風信號",
                Lang::SC => "三号强风信号",
            },
            WarningSubtypeCode::TC8NE => match lang {
                Lang::EN => "No. 8 Northeast Gale or Storm Signal",
                Lang::TC => "八號東北烈風或暴風信號",
                Lang::SC => "八号东北烈风或暴风信号",
            },
            WarningSubtypeCode::TC8SE => match lang {
                Lang::EN => "No. 8 Southeast Gale or Storm Signal",
                Lang::TC => "八號東南烈風或暴風信號",
                Lang::SC => "八号东南烈风或暴风信号",
            },
            WarningSubtypeCode::TC8SW => match lang {
                Lang::EN => "No. 8 Southwest Gale or Storm Signal",
                Lang::TC => "八號西南烈風或暴風信號",
                Lang::SC => "八号西南烈风或暴风信号",
            },
            WarningSubtypeCode::TC8NW => match lang {
                Lang::EN => "No. 8 Northwest Gale or Storm Signal",
                Lang::TC => "八號西北烈風或暴風信號",
                Lang::SC => "八号西北烈风或暴风信号",
            },
            WarningSubtypeCode::TC9 => match lang {
                Lang::EN => "Increasing Gale or Storm Signal No. 9",
                Lang::TC => "九號烈風或暴風風力增強信號",
                Lang::SC => "九号烈风或暴风风力增强信号",
            },
            WarningSubtypeCode::TC10 => match lang {
                Lang::EN => "Hurricane Signal No. 10",
                Lang::TC => "十號颶風信號",
                Lang::SC => "十号飓风信号",
            },
            WarningSubtypeCode::CANCEL => match lang {
                Lang::EN => "Cancel All Signals",
                Lang::TC => "取消所有信號",
                Lang::SC => "取消所有信号",
            },
        };
        String::from_str(text)
    }
}

/// What a warning summary reports of a signal.
#[derive(Clone, Copy, Debug, PartialEq, Eq, Structural)]
pub enum Action {
    ISSUE,
    REISSUE,
    CANCEL,
    EXTEND,
    UPDATE,
}

impl Action {
    /// The action that a text writes; the match is exact.
    pub open spec fn of_text(s: Seq<char>) -> Option<Action> {
        if s == "ISSUE"@ {
            Some(Action::ISSUE)
        } else if s == "REISSUE"@ {
            Some(Action::REISSUE)
        } else if s == "CANCEL"@ {
            Some(Action::CANCEL)
        } else if s == "EXTEND"@ {
            Some(Action::EXTEND)
        } else if s == "UPDATE"@ {
            Some(Action::UPDATE)
        } else {
            None
        }
    }

    /// Decodes an action.
    pub fn from_str(s: &str) -> (r: Option<Action>)
        ensures
            r == Action::of_text(s@),
    {
        if same_text(s, "ISSUE") {
            Some(Action::ISSUE)
        } else if same_text(s, "REISSUE") {
            Some(Action::REISSUE)
        } else if same_text(s, "CANCEL") {
            Some(Action::CANCEL)
        } else if same_text(s, "EXTEND") {
            Some(Action::EXTEND)
        } else if same_text(s, "UPDATE") {
            Some(Action::UPDATE)
        } else {
            None
        }
    }
}

/// The code of a warning summary: a statement code, or a subtype code where
/// the statement has subtypes.
#[derive(Clone, Copy, Debug, PartialEq, Eq, Structural)]
pub enum Code {
    WarningStatement(WarningStatementCode),
    WarningSubType(WarningSubtypeCode),
}

impl Code {
    /// The code that a text writes: a statement code where it is one, else a
    /// subtype code.
    pub open spec fn of_text(s: Seq<char>) -> Option<Code> {
        match WarningStatementCode::of_text(s) {
            Some(c) => Some(Code::WarningStatement(c)),
            None => match WarningSubtypeCode::of_text(s) {
                Some(c) => Some(Code::WarningSubType(c)),
                None => None,
            },
        }
    }

    /// Decodes a code.
    pub fn from_str(s: &str) -> (r: Option<Code>)
        ensures
            r == Code::of_text(s@),
    {
        match WarningStatementCode::from_str(s) {
            Some(c) => Some(Code::WarningStatement(c)),
            None => match WarningSubtypeCode::from_str(s) {
                Some(c) => Some(Code::WarningSubType(c)),
                None => None,
            },
        }
    }
}

impl EnumNameDesc for Code {
    open spec fn name_text(&self, lang: Lang) -> Seq<char> {
        match *self {
            Code::WarningStatement(w) => w.name_text(lang),
            Code::WarningSubType(w) => w.name_text(lang),
        }
    }

    open spec fn desc_text(&self, lang: Lang) -> Seq<char> {
        match *self {
            Code::WarningStatement(w) => w.desc_text(lang),
            Code::WarningSubType(w) => w.desc_text(lang),
        }
    }

    fn name(&self, lang: Lang) -> (r: String) {
        match self {
            Code::WarningStatement(w) => w.name(lang),
            Code::WarningSubType(w) => w.name(lang),
        }
    }

    fn desc(&self, lang: Lang) -> (r: String) {
        match self {
            Code::WarningStatement(w) => w.desc(lang),
            Code::WarningSubType(w) => w.desc(lang),
        }
    }
}


/// One weather warning signal in force.
#[derive(Clone, Debug)]
pub struct SummaryItem {
    pub name: String,
    /// Warning code: a subtype code where the statement has subtypes.
    pub code: Code,
    /// Action code
    pub action: Action,
    pub issue_time: TimePoint,
    pub expire_time: Option<TimePoint>,
    pub update_time: TimePoint,
}

/// What a `SummaryItem` holds.
pub struct Signal {
    pub name: Seq<char>,
    pub code: Code,
    pub action: Action,
    pub issue_time: TimePoint,
    pub expire_time: Option<TimePoint>,
    pub update_time: TimePoint,
}

impl View for SummaryItem {
    type V = Signal;

    open spec fn view(&self) -> Signal {
        Signal {
            name: self.name@,
            code: self.code,
            action: self.action,
            issue_time: self.issue_time,
            expire_time: self.expire_time,
            update_time: self.update_time,
        }
    }
}

/// A summary of the weather warnings in force: one item under each warning
/// statement code that is active, each code once, in the order in which the
/// codes first occur in the document.
#[derive(Clone, Debug)]
pub struct Summary {
    pub fields: Vec<(String, SummaryItem)>,
}

/// The signal that a value describes: nothing where its name, code, action
/// or one of its times is missing or cannot be read.
pub open spec fn signal_of(j: Json) -> Option<Signal> {
    if text_in(j, "name"@) is Some && text_in(j, "code"@) is Some && Code::of_text(
        text_in(j, "code"@)->Some_0,
    ) is Some && text_in(j, "actionCode"@) is Some && Action::of_text(
        text_in(j, "actionCode"@)->Some_0,
    ) is Some && time_in(j, "issueTime"@) is Some && optional_time_in(j, "expireTime"@) is Some
        && time_in(j, "updateTime"@) is Some {
        Some(
            Signal {
                name: text_in(j, "name"@)->Some_0,
                code: Code::of_text(text_in(j, "code"@)->Some_0)->Some_0,
                action: Action::of_text(text_in(j, "actionCode"@)->Some_0)->Some_0,
                issue_time: time_in(j, "issueTime"@)->Some_0,
                expire_time: optional_time_in(j, "expireTime"@)->Some_0,
                update_time: time_in(j, "updateTime"@)->Some_0,
            },
        )
    } else {
        None
    }
}

/// What a list of items under their keys holds.
pub open spec fn signals(fields: Seq<(String, SummaryItem)>) -> Seq<(Seq<char>, Signal)> {
    Seq::new(fields.len(), |i: int| (fields[i].0@, fields[i].1@))
}

/// The place of the first signal, at or after `from`, under a key; the
/// length of the list or more where there is none.
pub open spec fn key_place(list: Seq<(Seq<char>, Signal)>, key: Seq<char>, from: int) -> int
    decreases list.len() - from,
{
    if 0 <= from < list.len() && list[from].0 != key {
        key_place(list, key, from + 1)
    } else {
        from
    }
}

/// The list once a signal is put under a key: in the place of the signal
/// that the list has under the key, else at the end.
pub open spec fn put(list: Seq<(Seq<char>, Signal)>, key: Seq<char>, signal: Signal) -> Seq<
    (Seq<char>, Signal),
> {
    let i = key_place(list, key, 0);
    if i < list.len() {
        list.update(i, (key, signal))
    } else {
        list.push((key, signal))
    }
}

/// The signals of the first `n` members of a document, each put under its
/// key in turn.
pub open spec fn gathered(entries: Seq<(String, Json)>, n: int) -> Seq<(Seq<char>, Signal)>
    decreases n,
{
    if n <= 0 || n > entries.len() {
        seq![]
    } else {
        put(gathered(entries, n - 1), entries[n - 1].0@, signal_of(entries[n - 1].1)->Some_0)
    }
}

/// The signals of the members of a document, each under its key, where
/// every member describes one.
pub open spec fn signals_of(entries: Seq<(String, Json)>) -> Option<Seq<(Seq<char>, Signal)>> {
    if forall|i: int| 0 <= i < entries.len() ==> signal_of((#[trigger] entries[i]).1) is Some {
        Some(gathered(entries, entries.len() as int))
    } else {
        None
    }
}

/// Whether no two signals of a list stand under the same key.
pub open spec fn distinct_keys(list: Seq<(Seq<char>, Signal)>) -> bool {
    forall|i: int, j: int| 0 <= i < j < list.len() ==> (#[trigger] list[i]).0 != (#[trigger] list[j]).0
}

/// The place of a key is within the list or at its end; within the list the
/// signal there stands under the key, and at the end no signal from `from`
/// on does.
pub proof fn lemma_key_place(list: Seq<(Seq<char>, Signal)>, key: Seq<char>, from: int)
    requires
        0 <= from <= list.len(),
    ensures
        from <= key_place(list, key, from) <= list.len(),
        key_place(list, key, from) < list.len() ==> list[key_place(list, key, from)].0 == key,
        key_place(list, key, from) >= list.len() ==> forall|k: int|
            from <= k < list.len() ==> (#[trigger] list[k]).0 != key,
    decreases list.len() - from,
{
    if from < list.len() && list[from].0 != key {
        lemma_key_place(list, key, from + 1);
    }
}

/// Putting a signal under a key keeps the keys of a list distinct.
pub proof fn lemma_put_distinct(list: Seq<(Seq<char>, Signal)>, key: Seq<char>, signal: Signal)
    requires
        distinct_keys(list),
    ensures
        distinct_keys(put(list, key, signal)),
{
    let i = key_place(list, key, 0);
    let after = put(list, key, signal);
    lemma_key_place(list, key, 0);
    assert forall|a: int, b: int| 0 <= a < b < after.len() implies (#[trigger] after[a]).0 != (
    #[trigger] after[b]).0 by {
        if i < list.len() {
            assert(after[a].0 == list[a].0);
            assert(after[b].0 == list[b].0);
        } else {
            assert(after[a] == list[a]);
            if b < list.len() {
                assert(after[b] == list[b]);
            }
        }
    }
}

/// No key occurs twice among the signals of the members of a document.
pub proof fn lemma_gathered_distinct(entries: Seq<(String, Json)>, n: int)
    ensures
        distinct_keys(gathered(entries, n)),
    decreases n,
{
    if 0 < n <= entries.len() {
        lemma_gathered_distinct(entries, n - 1);
        lemma_put_distinct(
            gathered(entries, n - 1),
            entries[n - 1].0@,
            signal_of(entries[n - 1].1)->Some_0,
        );
    }
}

fn put_item(fields: &mut Vec<(String, SummaryItem)>, key: String, item: SummaryItem)
    ensures
        signals(final(fields)@) == put(signals(old(fields)@), key@, item@),
{
    let ghost before = signals(fields@);
    let mut i: usize = 0;
    while i < fields.len() && !same_text(fields[i].0.as_str(), key.as_str())
        invariant
            i <= fields.len(),
            before == signals(fields@),
            key_place(before, key@, i as int) == key_place(before, key@, 0),
        decreases fields.len() - i,
    {
        assert(before[i as int].0 == fields@[i as int].0@);
        i = i + 1;
    }
    if i < fields.len() {
        assert(before[i as int].0 == fields@[i as int].0@);
        let _ = fields.remove(i);
        fields.insert(i, (key, item));
        assert(signals(fields@) =~= before.update(i as int, (key@, item@)));
    } else {
        fields.push((key, item));
        assert(signals(fields@) =~= before.push((key@, item@)));
    }
}

/// The signals of a document: nothing unless it is an object whose members
/// all describe signals.
pub open spec fn json_summary(doc: Json) -> Option<Seq<(Seq<char>, Signal)>> {
    match doc {
        Json::Object(entries) => signals_of(entries@),
        _ => None,
    }
}

/// The signals of a response body.
pub open spec fn body_summary(s: Seq<char>) -> Option<Seq<(Seq<char>, Signal)>> {
    match json_document(s) {
        Some(doc) => json_summary(doc),
        None => None,
    }
}

impl SummaryItem {
    /// Decodes the description of one signal.
    pub fn from_json(j: &Json) -> (r: Option<SummaryItem>)
        ensures
            r is Some <==> signal_of(*j) is Some,
            r is Some ==> r->Some_0@ == signal_of(*j)->Some_0,
    {
        let name: String = match text_member(j, "name") {
            Some(t) => t,
            None => {
                return None;
            },
        };
        let code_text: String = match text_member(j, "code") {
            Some(t) => t,
            None => {
                return None;
            },
        };
        let code: Code = match Code::from_str(code_text.as_str()) {
            Some(c) => c,
            None => {
                return None;
            },
        };
        let action_text: String = match text_member(j, "actionCode") {
            Some(t) => t,
            None => {
                return None;
            },
        };
        let action: Action = match Action::from_str(action_text.as_str()) {
            Some(a) => a,
            None => {
                return None;
            },
        };
        let issue_time: TimePoint = match time_member(j, "issueTime") {
            Some(t) => t,
            None => {
                return None;
            },
        };
        let expire_time: Option<TimePoint> = match optional_time_member(j, "expireTime") {
            Some(t) => t,
            None => {
                return None;
            },
        };
        let update_time: TimePoint = match time_member(j, "updateTime") {
            Some(t) => t,
            None => {
                return None;
            },
        };
        Some(SummaryItem { name, code, action, issue_time, expire_time, update_time })
    }
}

impl Summary {
    /// What the summary holds: each signal under its key.
    pub open spec fn content(self) -> Seq<(Seq<char>, Signal)> {
        signals(self.fields@)
    }

    /// No key occurs twice.
    pub open spec fn wf(self) -> bool {
        distinct_keys(self.content())
    }

    /// Decodes a JSON document. Where a key occurs twice, the later item
    /// takes the place of the earlier one.
    pub fn from_json(doc: &Json) -> (r: Result<Summary, DataError>)
        ensures
            r is Ok <==> json_summary(*doc) is Some,
            r is Ok ==> r->Ok_0.content() == json_summary(*doc)->Some_0,
            r is Ok ==> r->Ok_0.wf(),
            r is Err ==> r->Err_0 is SourceFormat,
    {
        let entries: &Vec<(String, Json)> = match doc {
            Json::Object(entries) => entries,
            _ => {
                return Err(DataError::SourceFormat("the summary is no object".to_owned()));
            },
        };
        let mut fields: Vec<(String, SummaryItem)> = Vec::new();
        let mut i: usize = 0;
        assert(signals(fields@) =~= seq![]);
        while i < entries.len()
            invariant
                i <= entries.len(),
                json_summary(*doc) == signals_of(entries@),
                forall|k: int| 0 <= k < i ==> signal_of((#[trigger] entries@[k]).1) is Some,
                signals(fields@) == gathered(entries@, i as int),
            decreases entries.len() - i,
        {
            match SummaryItem::from_json(&entries[i].1) {
                Some(item) => {
                    put_item(&mut fields, entries[i].0.clone(), item);
                },
                None => {
                    assert(signal_of(entries@[i as int].1) is None);
                    return Err(
                        DataError::SourceFormat("a member describes no warning signal".to_owned()),
                    );
                },
            }
            i = i + 1;
        }
        proof {
            lemma_gathered_distinct(entries@, entries@.len() as int);
        }
        Ok(Summary { fields })
    }

    /// Decodes a response body.
    pub fn from_str(s: &str) -> (r: Result<Summary, DataError>)
        ensures
            r is Ok <==> body_summary(s@) is Some,
            r is Ok ==> r->Ok_0.content() == body_summary(s@)->Some_0,
            r is Ok ==> r->Ok_0.wf(),
            r is Err ==> r->Err_0 is SourceFormat,
    {
        match crate::json::parse(s) {
            Ok(doc) => Summary::from_json(&doc),
            Err(e) => Err(e),
        }
    }

    /// The place of the first item, at or after `from`, under a key; the
    /// number of items or more where there is none.
    pub open spec fn place_of(self, key: Seq<char>, from: int) -> int
        decreases self.fields@.len() - from,
    {
        if 0 <= from < self.fields@.len() && self.fields@[from].0@ != key {
            self.place_of(key, from + 1)
        } else {
            from
        }
    }

    /// The first item under a warning statement code, if the summary has
    /// one.
    pub fn get(&self, key: &str) -> (r: Option<&SummaryItem>)
        ensures
            r is Some <==> self.place_of(key@, 0) < self.fields@.len(),
            r is Some ==> *r->Some_0 == self.fields@[self.place_of(key@, 0)].1,
            r is Some ==> self.fields@[self.place_of(key@, 0)].0@ == key@,
            r is None ==> forall|i: int|
                0 <= i < self.fields@.len() ==> (#[trigger] self.fields@[i]).0@ != key@,
    {
        let mut i: usize = 0;
        while i < self.fields.len()
            invariant
                i <= self.fields.len(),
                self.place_of(key@, i as int) == self.place_of(key@, 0),
                forall|k: int| 0 <= k < i ==> (#[trigger] self.fields@[k]).0@ != key@,
            decreases self.fields.len() - i,
        {
            if same_text(self.fields[i].0.as_str(), key) {
                return Some(&self.fields[i].1);
            }
            i = i + 1;
        }
        None
    }
}

impl API for Summary {
    open spec fn base_text() -> Seq<char> {
        "weather"@
    }

    open spec fn datatype_text() -> Seq<char> {
        "warnsum"@
    }

    fn base() -> &'static str {
        "weather"
    }

    fn datatype() -> &'static str {
        "warnsum"
    }
}

} // verus!
