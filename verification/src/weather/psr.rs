//! Probability of significant rain.

use crate::error::InvalidPSRError;
use crate::text::same_text;
use crate::common::EnumNameDesc;
use crate::common::Lang;
use vstd::prelude::*;
use vstd::string::StringExecFns;

verus! {

/// Probability of significant rain.
#[derive(Clone, Copy, Debug, PartialEq, Eq, Hash, Structural)]
pub enum PSR {
    High,
    MediumHigh,
    Medium,
    MediumLow,
    Low,
}

/// The level that a label names, in English or in Chinese; the match is
/// exact.
pub open spec fn psr_of(s: Seq<char>) -> Option<PSR> {
    if s == "High"@ || s == "高"@ {
        Some(PSR::High)
    } else if s == "Medium High"@ || s == "中高"@ {
        Some(PSR::MediumHigh)
    } else if s == "Medium"@ || s == "中"@ {
        Some(PSR::Medium)
    } else if s == "Medium Low"@ || s == "中低"@ {
        Some(PSR::MediumLow)
    } else if s == "Low"@ || s == "低"@ {
        Some(PSR::Low)
    } else {
        None
    }
}

impl PSR {
    /// The word for the level in the name of its icon.
    pub open spec fn word_text(self) -> Seq<char> {
        match self {
            PSR::High => "High"@,
            PSR::MediumHigh => "MediumHigh"@,
            PSR::Medium => "Medium"@,
            PSR::MediumLow => "MediumLow"@,
            PSR::Low => "Low"@,
        }
    }

    /// The word for the level in the name of its icon.
    pub fn word(&self) -> (r: &'static str)
        ensures
            r@ == self.word_text(),
    {
        match self {
            PSR::High => "High",
            PSR::MediumHigh => "MediumHigh",
            PSR::Medium => "Medium",
            PSR::MediumLow => "MediumLow",
            PSR::Low => "Low",
        }
    }

    /// Decodes a label of the probability of significant rain.
    pub fn from_str(s: &str) -> (r: Result<PSR, InvalidPSRError>)
        ensures
            match psr_of(s@) {
                Some(p) => r is Ok && r->Ok_0 == p,
                None => r is Err,
            },
    {
        if same_text(s, "High") || same_text(s, "高") {
            Ok(PSR::High)
        } else if same_text(s, "Medium High") || same_text(s, "中高") {
            Ok(PSR::MediumHigh)
        } else if same_text(s, "Medium") || same_text(s, "中") {
            Ok(PSR::Medium)
        } else if same_text(s, "Medium Low") || same_text(s, "中低") {
            Ok(PSR::MediumLow)
        } else if same_text(s, "Low") || same_text(s, "低") {
            Ok(PSR::Low)
        } else {
            Err(InvalidPSRError)
        }
    }

    /// The address of the icon of the level.
    pub fn icon_uri(&self) -> (r: String)
        ensures
            r@ == "https://www.hko.gov.hk/common/images/PSR"@ + self.word_text() + "_50_light.png"@,
    {
        let mut s: String = String::from_str("https://www.hko.gov.hk/common/images/PSR");
        s.append(self.word());
        s.append("_50_light.png");
        s
    }
}

impl EnumNameDesc for PSR {
    open spec fn name_text(&self, lang: Lang) -> Seq<char> {
        match *self {
            PSR::High => match lang {
                Lang::EN => "High"@,
                Lang::TC => "高"@,
                Lang::SC => "高"@,
            },
            PSR::MediumHigh => match lang {
                Lang::EN => "Medium High"@,
                Lang::TC => "中高"@,
                Lang::SC => "中高"@,
            },
            PSR::Medium => match lang {
                Lang::EN => "Medium"@,
                Lang::TC => "中"@,
                Lang::SC => "中"@,
            },
            PSR::MediumLow => match lang {
                Lang::EN => "Medium Low"@,
                Lang::TC => "中低"@,
                Lang::SC => "中低"@,
            },
            PSR::Low => match lang {
                Lang::EN => "Low"@,
                Lang::TC => "低"@,
                Lang::SC => "低"@,
            },
        }
    }

    open spec fn desc_text(&self, lang: Lang) -> Seq<char> {
        match *self {
            PSR::High => match lang {
                Lang::EN => "For every 100 forecasts with a \"high\" probability, there are about 70 times or more with an average accumulated rainfall of 10 mm or above in actual observation."@,
                Lang::TC => "每100次概率為「高」的預測中，實際上約有70次或以上平均累積雨量達到10毫米或以上。"@,
                Lang::SC => "每100次概率为「高」的预测中，实际上约有70次或以上平均累积雨量达到10毫米或以上。"@,
            },
            PSR::MediumHigh => match lang {
                Lang::EN => "For every 100 forecasts with a \"medium high\" probability, there are about 55 to 69 times with an average accumulated rainfall of 10 mm or above in actual observation."@,
                Lang::TC => "每100次概率為「中高」的預測中，實際上約有55至69次平均累積雨量達到10毫米或以上。"@,
                Lang::SC => "每100次概率为「中高」的预测中，实际上约有55至69次平均累积雨量达到10毫米或以上。"@,
            },
            PSR::Medium => match lang {
                Lang::EN => "For every 100 forecasts with a \"medium\" probability, there are about 45 to 54 times with an average accumulated rainfall of 10 mm or above in actual observation."@,
                Lang::TC => "每100次概率為「中」的預測中，實際上約有45至54次平均累積雨量達到10毫米或以上。"@,
                Lang::SC => "每100次概率为「中」的预测中，实际上约有45至54次平均累积雨量达到10毫米或以上。"@,
            },
            PSR::MediumLow => match lang {
                Lang::EN => "For every 100 forecasts with a \"medium low\" probability, there are about 30 to 44 times with an average accumulated rainfall of 10 mm or above in actual observation."@,
                Lang::TC => "每100次概率為「中低」的預測中，實際上約有30至44次平均累積雨量達到10毫米或以上。"@,
                Lang::SC => "每100次概率为「中低」的预测中，实际上约有30至44次平均累积雨量达到10毫米或以上。"@,
            },
            PSR::Low => match lang {
                Lang::EN => "For every 100 forecasts with a \"low\" probability, there are about less than 30 times with an average accumulated rainfall of 10 mm or above in actual observation."@,
                Lang::TC => "每100次概率為「低」的預測中，實際上約有少於30次平均累積雨量達到10毫米或以上。"@,
                Lang::SC => "每100次概率为「低」的预测中，实际上约有少于30次平均累积雨量达到10毫米或以上。"@,
            },
        }
    }

    fn name(&self, lang: Lang) -> (r: String) {
        let text: &str = match *self {
            PSR::High => match lang {
                Lang::EN => "High",
                Lang::TC => "高",
                Lang::SC => "高",
            },
            PSR::MediumHigh => match lang {
                Lang::EN => "Medium High",
                Lang::TC => "中高",
                Lang::SC => "中高",
            },
            PSR::Medium => match lang {
                Lang::EN => "Medium",
                Lang::TC => "中",
                Lang::SC => "中",
            },
            PSR::MediumLow => match lang {
                Lang::EN => "Medium Low",
                Lang::TC => "中低",
                Lang::SC => "中低",
            },
            PSR::Low => match lang {
                Lang::EN => "Low",
                Lang::TC => "低",
                Lang::SC => "低",
            },
        };
        String::from_str(text)
    }

    fn desc(&self, lang: Lang) -> (r: String) {
        let text: &str = match *self {
            PSR::High => match lang {
                Lang::EN => "For every 100 forecasts with a \"high\" probability, there are about 70 times or more with an average accumulated rainfall of 10 mm or above in actual observation.",
                Lang::TC => "每100次概率為「高」的預測中，實際上約有70次或以上平均累積雨量達到10毫米或以上。",
                Lang::SC => "每100次概率为「高」的预测中，实际上约有70次或以上平均累积雨量达到10毫米或以上。",
            },
            PSR::MediumHigh => match lang {
                Lang::EN => "For every 100 forecasts with a \"medium high\" probability, there are about 55 to 69 times with an average accumulated rainfall of 10 mm or above in actual observation.",
                Lang::TC => "每100次概率為「中高」的預測中，實際上約有55至69次平均累積雨量達到10毫米或以上。",
                Lang::SC => "每100次概率为「中高」的预测中，实际上约有55至69次平均累积雨量达到10毫米或以上。",
            },
            PSR::Medium => match lang {
                Lang::EN => "For every 100 forecasts with a \"medium\" probability, there are about 45 to 54 times with an average accumulated rainfall of 10 mm or above in actual observation.",
                Lang::TC => "每100次概率為「中」的預測中，實際上約有45至54次平均累積雨量達到10毫米或以上。",
                Lang::SC => "每100次概率为「中」的预测中，实际上约有45至54次平均累积雨量达到10毫米或以上。",
            },
            PSR::MediumLow => match lang {
                Lang::EN => "For every 100 forecasts with a \"medium low\" probability, there are about 30 to 44 times with an average accumulated rainfall of 10 mm or above in actual observation.",
                Lang::TC => "每100次概率為「中低」的預測中，實際上約有30至44次平均累積雨量達到10毫米或以上。",
                Lang::SC => "每100次概率为「中低」的预测中，实际上约有30至44次平均累积雨量达到10毫米或以上。",
            },
            PSR::Low => match lang {
                Lang::EN => "For every 100 forecasts with a \"low\" probability, there are about less than 30 times with an average accumulated rainfall of 10 mm or above in actual observation.",
                Lang::TC => "每100次概率為「低」的預測中，實際上約有少於30次平均累積雨量達到10毫米或以上。",
                Lang::SC => "每100次概率为「低」的预测中，实际上约有少于30次平均累积雨量达到10毫米或以上。",
            },
        };
        String::from_str(text)
    }
}

} // verus!
