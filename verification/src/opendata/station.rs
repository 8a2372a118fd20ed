//! The stations that the datasets report from.

use vstd::prelude::*;

verus! {

/// A tide gauge.
#[derive(Clone, Copy, Debug, PartialEq, Eq, Structural)]
pub enum SeaStation {
    /// Cheung Chau
    CCH,
    /// Chek Lap Kok
    CLK,
    /// Chi Ma Wan
    CMW,
    /// Kwai Chung
    KCT,
    /// Ko Lau Wan
    KLW,
    /// Lok On Pai
    LOP,
    /// Ma Wan
    MWC,
    /// Quarry Bay
    QUB,
    /// Shek Pik
    SPW,
    /// Tai O
    TAO,
    /// Tsim Bei Tsui
    TBT,
    /// Tai Miu Wan
    TMW,
    /// Tai Po Kau
    TPK,
    /// Waglan Island
    WAG,
}

impl SeaStation {
    /// The code of the station, as a request names it.
    pub open spec fn code_text(self) -> Seq<char> {
        match self {
            SeaStation::CCH => "CCH"@,
            SeaStation::CLK => "CLK"@,
            SeaStation::CMW => "CMW"@,
            SeaStation::KCT => "KCT"@,
            SeaStation::KLW => "KLW"@,
            SeaStation::LOP => "LOP"@,
            SeaStation::MWC => "MWC"@,
            SeaStation::QUB => "QUB"@,
            SeaStation::SPW => "SPW"@,
            SeaStation::TAO => "TAO"@,
            SeaStation::TBT => "TBT"@,
            SeaStation::TMW => "TMW"@,
            SeaStation::TPK => "TPK"@,
            SeaStation::WAG => "WAG"@,
        }
    }

    /// The code of the station, as a request names it.
    pub fn code(&self) -> (r: &'static str)
        ensures
            r@ == self.code_text(),
    {
        match self {
            SeaStation::CCH => "CCH",
            SeaStation::CLK => "CLK",
            SeaStation::CMW => "CMW",
            SeaStation::KCT => "KCT",
            SeaStation::KLW => "KLW",
            SeaStation::LOP => "LOP",
            SeaStation::MWC => "MWC",
            SeaStation::QUB => "QUB",
            SeaStation::SPW => "SPW",
            SeaStation::TAO => "TAO",
            SeaStation::TBT => "TBT",
            SeaStation::TMW => "TMW",
            SeaStation::TPK => "TPK",
            SeaStation::WAG => "WAG",
        }
    }
}

/// A station that measures the temperature of the air.
#[derive(Clone, Copy, Debug, PartialEq, Eq, Structural)]
pub enum TempStation {
    /// Cheung Chau
    CCH,
    /// Clear Water Bay
    CWB,
    /// Hong Kong International Airport
    HKA,
    /// Hong Kong Observatory
    HKO,
    /// Hong Kong Park
    HKP,
    /// Wong Chuk Hang
    HKS,
    /// Happy Valley
    HPV,
    /// Tseung Kwan O
    JKB,
    /// Kowloon City
    KLT,
    /// King's Park
    KP,
    /// Kau Sai Chau
    KSC,
    /// Kwun Tong
    KTG,
    /// Lau Fau Shan
    LFS,
    /// Ngong Ping
    NGP,
    /// Peng Chau
    PEN,
    /// Tai Mei Tuk
    PLC,
    /// Kai Tak Runway Park
    SE1,
    /// Shek Kong
    SEK,
    /// Sha Tin
    SHA,
    /// Sai Kung
    SKG,
    /// Shau Kei Wan
    SKW,
    /// Sheung Shui
    SSH,
    /// Sham Shui Po
    SSP,
    /// Stanley
    STY,
    /// Tate's Cairn
    TC,
    /// Ta Kwu Ling
    TKL,
    /// Tai Mo Shan
    TMS,
    /// Tai Po (Conservation Studies Centre)
    TPO,
    /// Tuen Mun Children and Juvenile Home
    TU1,
    /// Tsuen Wan Shing Mun Valley
    TW,
    /// Tsuen Wan
    TWN,
    /// New Tsing Yi Station
    TY1,
    /// Pak Tam Chung (Tsak Yue Wu)
    TYW,
    /// The Peak
    VP1,
    /// Waglan Island
    WGL,
    /// Wetland Park
    WLP,
    /// Wong Tai Sin
    WTS,
    /// Tai Po (Yuan Chau Tsai Park)
    YCT,
    /// Yuen Long Park
    YLP,
}

impl TempStation {
    /// The code of the station, as a request names it.
    pub open spec fn code_text(self) -> Seq<char> {
        match self {
            TempStation::CCH => "CCH"@,
            TempStation::CWB => "CWB"@,
            TempStation::HKA => "HKA"@,
            TempStation::HKO => "HKO"@,
            TempStation::HKP => "HKP"@,
            TempStation::HKS => "HKS"@,
            TempStation::HPV => "HPV"@,
            TempStation::JKB => "JKB"@,
            TempStation::KLT => "KLT"@,
            TempStation::KP => "KP"@,
            TempStation::KSC => "KSC"@,
            TempStation::KTG => "KTG"@,
            TempStation::LFS => "LFS"@,
            TempStation::NGP => "NGP"@,
            TempStation::PEN => "PEN"@,
            TempStation::PLC => "PLC"@,
            TempStation::SE1 => "SE1"@,
            TempStation::SEK => "SEK"@,
            TempStation::SHA => "SHA"@,
            TempStation::SKG => "SKG"@,
            TempStation::SKW => "SKW"@,
            TempStation::SSH => "SSH"@,
            TempStation::SSP => "SSP"@,
            TempStation::STY => "STY"@,
            TempStation::TC => "TC"@,
            TempStation::TKL => "TKL"@,
            TempStation::TMS => "TMS"@,
            TempStation::TPO => "TPO"@,
            TempStation::TU1 => "TU1"@,
            TempStation::TW => "TW"@,
            TempStation::TWN => "TWN"@,
            TempStation::TY1 => "TY1"@,
            TempStation::TYW => "TYW"@,
            TempStation::VP1 => "VP1"@,
            TempStation::WGL => "WGL"@,
            TempStation::WLP => "WLP"@,
            TempStation::WTS => "WTS"@,
            TempStation::YCT => "YCT"@,
            TempStation::YLP => "YLP"@,
        }
    }

    /// The code of the station, as a request names it.
    pub fn code(&self) -> (r: &'static str)
        ensures
            r@ == self.code_text(),
    {
        match self {
            TempStation::CCH => "CCH",
            TempStation::CWB => "CWB",
            TempStation::HKA => "HKA",
            TempStation::HKO => "HKO",
            TempStation::HKP => "HKP",
            TempStation::HKS => "HKS",
            TempStation::HPV => "HPV",
            TempStation::JKB => "JKB",
            TempStation::KLT => "KLT",
            TempStation::KP => "KP",
            TempStation::KSC => "KSC",
            TempStation::KTG => "KTG",
            TempStation::LFS => "LFS",
            TempStation::NGP => "NGP",
            TempStation::PEN => "PEN",
            TempStation::PLC => "PLC",
            TempStation::SE1 => "SE1",
            TempStation::SEK => "SEK",
            TempStation::SHA => "SHA",
            TempStation::SKG => "SKG",
            TempStation::SKW => "SKW",
            TempStation::SSH => "SSH",
            TempStation::SSP => "SSP",
            TempStation::STY => "STY",
            TempStation::TC => "TC",
            TempStation::TKL => "TKL",
            TempStation::TMS => "TMS",
            TempStation::TPO => "TPO",
            TempStation::TU1 => "TU1",
            TempStation::TW => "TW",
            TempStation::TWN => "TWN",
            TempStation::TY1 => "TY1",
            TempStation::TYW => "TYW",
            TempStation::VP1 => "VP1",
            TempStation::WGL => "WGL",
            TempStation::WLP => "WLP",
            TempStation::WTS => "WTS",
            TempStation::YCT => "YCT",
            TempStation::YLP => "YLP",
        }
    }
}

/// A station of the weather and radiation level report.
#[derive(Clone, Copy, Debug, PartialEq, Eq, Structural)]
pub enum WeatherStation {
    /// Cheung Chau
    CCH,
    /// Chek Lap Kok
    CLK,
    /// Ping Chau
    EPC,
    /// Hong Kong Observatory
    HKO,
    /// Hong Kong Park
    HKP,
    /// Wong Chuk Hang
    HKS,
    /// Happy Valley
    HPV,
    /// Tseung Kwan O
    JKB,
    /// Kat O
    KAT,
    /// Kowloon City
    KLT,
    /// King's Park
    KP,
    /// Kwun Tong
    KTG,
    /// Lau Fau Shan
    LFS,
    /// Tai Mei Tuk
    PLC,
    /// Kai Tak Runway Park
    SE1,
    /// Shek Kong
    SEK,
    /// Sha Tin
    SHA,
    /// Sai Kung
    SKG,
    /// Shau Kei Wan
    SKW,
    /// Sham Shui Po
    SSP,
    /// Sha Tau Kok
    STK,
    /// Stanley
    STY,
    /// Sai Wan Ho
    SWH,
    /// Tap Mun
    TAP,
    /// Tsim Bei Tsui
    TBT,
    /// Ta Kwu Ling
    TKL,
    /// Tuen Mun
    TUN,
    /// Tsuen Wan Shing Mun Valley
    TW,
    /// Tsuen Wan Ho Koon
    TWN,
    /// Tsing Yi
    TY1,
    /// Wong Tai Sin
    WTS,
    /// Tai Po
    TCT,
    /// Yuen Long Park
    YLP,
    /// Yuen Ng Fan
    YNF,
}

impl WeatherStation {
    /// The code of the station, as a request names it.
    pub open spec fn code_text(self) -> Seq<char> {
        match self {
            WeatherStation::CCH => "CCH"@,
            WeatherStation::CLK => "CLK"@,
            WeatherStation::EPC => "EPC"@,
            WeatherStation::HKO => "HKO"@,
            WeatherStation::HKP => "HKP"@,
            WeatherStation::HKS => "HKS"@,
            WeatherStation::HPV => "HPV"@,
            WeatherStation::JKB => "JKB"@,
            WeatherStation::KAT => "KAT"@,
            WeatherStation::KLT => "KLT"@,
            WeatherStation::KP => "KP"@,
            WeatherStation::KTG => "KTG"@,
            WeatherStation::LFS => "LFS"@,
            WeatherStation::PLC => "PLC"@,
            WeatherStation::SE1 => "SE1"@,
            WeatherStation::SEK => "SEK"@,
            WeatherStation::SHA => "SHA"@,
            WeatherStation::SKG => "SKG"@,
            WeatherStation::SKW => "SKW"@,
            WeatherStation::SSP => "SSP"@,
            WeatherStation::STK => "STK"@,
            WeatherStation::STY => "STY"@,
            WeatherStation::SWH => "SWH"@,
            WeatherStation::TAP => "TAP"@,
            WeatherStation::TBT => "TBT"@,
            WeatherStation::TKL => "TKL"@,
            WeatherStation::TUN => "TUN"@,
            WeatherStation::TW => "TW"@,
            WeatherStation::TWN => "TWN"@,
            WeatherStation::TY1 => "TY1"@,
            WeatherStation::WTS => "WTS"@,
            WeatherStation::TCT => "TCT"@,
            WeatherStation::YLP => "YLP"@,
            WeatherStation::YNF => "YNF"@,
        }
    }

    /// The code of the station, as a request names it.
    pub fn code(&self) -> (r: &'static str)
        ensures
            r@ == self.code_text(),
    {
        match self {
            WeatherStation::CCH => "CCH",
            WeatherStation::CLK => "CLK",
            WeatherStation::EPC => "EPC",
            WeatherStation::HKO => "HKO",
            WeatherStation::HKP => "HKP",
            WeatherStation::HKS => "HKS",
            WeatherStation::HPV => "HPV",
            WeatherStation::JKB => "JKB",
            WeatherStation::KAT => "KAT",
            WeatherStation::KLT => "KLT",
            WeatherStation::KP => "KP",
            WeatherStation::KTG => "KTG",
            WeatherStation::LFS => "LFS",
            WeatherStation::PLC => "PLC",
            WeatherStation::SE1 => "SE1",
            WeatherStation::SEK => "SEK",
            WeatherStation::SHA => "SHA",
            WeatherStation::SKG => "SKG",
            WeatherStation::SKW => "SKW",
            WeatherStation::SSP => "SSP",
            WeatherStation::STK => "STK",
            WeatherStation::STY => "STY",
            WeatherStation::SWH => "SWH",
            WeatherStation::TAP => "TAP",
            WeatherStation::TBT => "TBT",
            WeatherStation::TKL => "TKL",
            WeatherStation::TUN => "TUN",
            WeatherStation::TW => "TW",
            WeatherStation::TWN => "TWN",
            WeatherStation::TY1 => "TY1",
            WeatherStation::WTS => "WTS",
            WeatherStation::TCT => "TCT",
            WeatherStation::YLP => "YLP",
            WeatherStation::YNF => "YNF",
        }
    }
}

} // verus!
