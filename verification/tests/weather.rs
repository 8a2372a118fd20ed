use hko::common::EnumNameDesc;
use hko::common::Lang;
use hko::weather::Name;
use hko::weather::PSR;

#[test]
fn test_name() {
    let psr = PSR::High;
    println!("{}", psr.name(Lang::SC));
    println!("{}", psr.name(Lang::EN));
    println!("{}", psr.desc(Lang::EN));
    println!("{}", psr.name(Lang::TC));
    println!("{}", psr.desc(Lang::SC));
    println!("{}", psr.desc(Lang::TC));
    assert_eq!(psr.name(Lang::EN), "High");
    assert_eq!(psr.name(Lang::TC), "高");
    assert_eq!(
        psr.desc(Lang::EN),
        "For every 100 forecasts with a \"high\" probability, there are about 70 times or more with an average accumulated rainfall of 10 mm or above in actual observation."
    );
}

#[test]
fn psr_labels_decode_exactly() {
    assert_eq!(PSR::from_str("High").ok(), Some(PSR::High));
    assert_eq!(PSR::from_str("中高").ok(), Some(PSR::MediumHigh));
    assert_eq!(PSR::from_str("Medium").ok(), Some(PSR::Medium));
    assert_eq!(PSR::from_str("Medium Low").ok(), Some(PSR::MediumLow));
    assert_eq!(PSR::from_str("低").ok(), Some(PSR::Low));
    assert!(PSR::from_str("high").is_err());
    assert!(PSR::from_str("").is_err());
    assert_eq!(PSR::from_str("x").unwrap_err().message(), "PSR value is not valid");
}

#[test]
fn icon_addresses() {
    assert_eq!(
        PSR::MediumHigh.icon_uri(),
        "https://www.hko.gov.hk/common/images/PSRMediumHigh_50_light.png"
    );
    assert_eq!(
        Name::SunnyPeriods.icon_uri(),
        "https://www.hko.gov.hk/images/HKOWxIconOutline/pic51.png"
    );
    assert_eq!(Name::from_number(93), Some(Name::Cold));
    assert_eq!(Name::from_number(55), None);
    assert_eq!(Name::Fine0.name(Lang::EN), "Fine");
    assert_eq!(
        Name::Fine0.desc(Lang::EN),
        "Fine ( use only in night-time on 1st of the Lunar Month )"
    );
    assert_eq!(Name::Rain.desc(Lang::TC), "雨");
}
