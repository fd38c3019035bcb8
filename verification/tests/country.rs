use std::collections::HashSet;
use std::collections::hash_map::DefaultHasher;
use std::hash::{Hash, Hasher};

use phonenumber::country::{Code, Id, Source};
use phonenumber::error::Parse;

fn all_ids() -> Vec<Id> {
    vec![
        Id::AC, Id::AD, Id::AE, Id::AF, Id::AG, Id::AI, Id::AL, Id::AM, Id::AO, Id::AR, Id::AS, Id::AT,
        Id::AU, Id::AW, Id::AX, Id::AZ, Id::BA, Id::BB, Id::BD, Id::BE, Id::BF, Id::BG, Id::BH, Id::BI,
        Id::BJ, Id::BL, Id::BM, Id::BN, Id::BO, Id::BQ, Id::BR, Id::BS, Id::BT, Id::BW, Id::BY, Id::BZ,
        Id::CA, Id::CC, Id::CD, Id::CF, Id::CG, Id::CH, Id::CI, Id::CK, Id::CL, Id::CM, Id::CN, Id::CO,
        Id::CR, Id::CU, Id::CV, Id::CW, Id::CX, Id::CY, Id::CZ, Id::DE, Id::DJ, Id::DK, Id::DM, Id::DO,
        Id::DZ, Id::EC, Id::EE, Id::EG, Id::EH, Id::ER, Id::ES, Id::ET, Id::FI, Id::FJ, Id::FK, Id::FM,
        Id::FO, Id::FR, Id::GA, Id::GB, Id::GD, Id::GE, Id::GF, Id::GG, Id::GH, Id::GI, Id::GL, Id::GM,
        Id::GN, Id::GP, Id::GQ, Id::GR, Id::GT, Id::GU, Id::GW, Id::GY, Id::HK, Id::HN, Id::HR, Id::HT,
        Id::HU, Id::ID, Id::IE, Id::IL, Id::IM, Id::IN, Id::IO, Id::IQ, Id::IR, Id::IS, Id::IT, Id::JE,
        Id::JM, Id::JO, Id::JP, Id::KE, Id::KG, Id::KH, Id::KI, Id::KM, Id::KN, Id::KP, Id::KR, Id::KW,
        Id::KY, Id::KZ, Id::LA, Id::LB, Id::LC, Id::LI, Id::LK, Id::LR, Id::LS, Id::LT, Id::LU, Id::LV,
        Id::LY, Id::MA, Id::MC, Id::MD, Id::ME, Id::MF, Id::MG, Id::MH, Id::MK, Id::ML, Id::MM, Id::MN,
        Id::MO, Id::MP, Id::MQ, Id::MR, Id::MS, Id::MT, Id::MU, Id::MV, Id::MW, Id::MX, Id::MY, Id::MZ,
        Id::NA, Id::NC, Id::NE, Id::NF, Id::NG, Id::NI, Id::NL, Id::NO, Id::NP, Id::NR, Id::NU, Id::NZ,
        Id::OM, Id::PA, Id::PE, Id::PF, Id::PG, Id::PH, Id::PK, Id::PL, Id::PM, Id::PR, Id::PS, Id::PT,
        Id::PW, Id::PY, Id::QA, Id::RE, Id::RO, Id::RS, Id::RU, Id::RW, Id::SA, Id::SB, Id::SC, Id::SD,
        Id::SE, Id::SG, Id::SH, Id::SI, Id::SJ, Id::SK, Id::SL, Id::SM, Id::SN, Id::SO, Id::SR, Id::SS,
        Id::ST, Id::SV, Id::SX, Id::SY, Id::SZ, Id::TA, Id::TC, Id::TD, Id::TG, Id::TH, Id::TJ, Id::TK,
        Id::TL, Id::TM, Id::TN, Id::TO, Id::TR, Id::TT, Id::TV, Id::TW, Id::TZ, Id::UA, Id::UG, Id::US,
        Id::UY, Id::UZ, Id::VA, Id::VC, Id::VE, Id::VG, Id::VI, Id::VN, Id::VU, Id::WF, Id::WS, Id::XK,
        Id::YE, Id::YT, Id::ZA, Id::ZM, Id::ZW,
    ]
}

fn hash_of<T: Hash>(t: &T) -> u64 {
    let mut hasher = DefaultHasher::new();
    t.hash(&mut hasher);
    hasher.finish()
}

#[test]
fn round_trip_all_ids() {
    let ids = all_ids();
    assert_eq!(ids.len(), 245);
    for &id in &ids {
        assert_eq!(Id::from_str(id.as_ref()), Ok(id));
    }
}

#[test]
fn texts_are_distinct_two_letter_codes() {
    let ids = all_ids();
    let mut seen: HashSet<&'static str> = HashSet::new();
    for &id in &ids {
        let text = id.as_ref();
        assert_eq!(text.len(), 2);
        assert!(text.chars().all(|c| c.is_ascii_uppercase()));
        assert!(seen.insert(text));
    }
    assert_eq!(seen.len(), 245);
}

#[test]
fn from_text_scenario() {
    assert_eq!(Id::from_str("FR"), Ok(Id::FR));
    assert_eq!(Id::FR.as_ref(), "FR");
}

#[test]
fn from_text_rejects_lowercase() {
    assert_eq!(Id::from_str("fr"), Err(Parse::InvalidCountryCode));
    assert_eq!(Id::from_str("us"), Err(Parse::InvalidCountryCode));
    assert_eq!(Id::from_str("Fr"), Err(Parse::InvalidCountryCode));
}

#[test]
fn from_text_rejects_wrong_length() {
    assert_eq!(Id::from_str(""), Err(Parse::InvalidCountryCode));
    assert_eq!(Id::from_str("F"), Err(Parse::InvalidCountryCode));
    assert_eq!(Id::from_str("USA"), Err(Parse::InvalidCountryCode));
}

#[test]
fn from_text_rejects_unassigned_and_noise() {
    assert_eq!(Id::from_str("ZZ"), Err(Parse::InvalidCountryCode));
    assert_eq!(Id::from_str("A1"), Err(Parse::InvalidCountryCode));
    assert_eq!(Id::from_str("+3"), Err(Parse::InvalidCountryCode));
    assert_eq!(Id::from_str("fR"), Err(Parse::InvalidCountryCode));
}

#[test]
fn code_equality_considers_both_fields() {
    let plus = Code::new(33, Source::Plus);
    let default = Code::new(33, Source::Default);
    assert_ne!(plus, default);
    assert_ne!(hash_of(&plus), hash_of(&default));
    let plus_again = Code::new(33, Source::Plus);
    assert_eq!(plus, plus_again);
    assert_eq!(hash_of(&plus), hash_of(&plus_again));
}

#[test]
fn code_narrows_to_its_value() {
    let code = Code::new(33, Source::Idd);
    assert_eq!(u16::from(code), 33);
    assert_eq!(code.value(), 33);
    assert_eq!(code.source(), Source::Idd);
    for source in [Source::Plus, Source::Idd, Source::Number, Source::Default] {
        assert_eq!(u16::from(Code::new(998, source)), 998);
    }
}

#[test]
fn code_without_source_defaults_to_default_region() {
    let code = Code::from_value(49);
    assert_eq!(code.value(), 49);
    assert_eq!(code.source(), Source::Default);
    assert_eq!(Source::default(), Source::Default);
}

#[test]
fn source_interchange_names() {
    assert_eq!(Source::Plus.name(), "plus");
    assert_eq!(Source::Idd.name(), "idd");
    assert_eq!(Source::Number.name(), "number");
    assert_eq!(Source::Default.name(), "default");
}

#[test]
fn source_name_round_trip() {
    for source in [Source::Plus, Source::Idd, Source::Number, Source::Default] {
        assert_eq!(Source::from_name(source.name()), Some(source));
    }
}

#[test]
fn source_from_name_rejects_other_text() {
    assert_eq!(Source::from_name(""), None);
    assert_eq!(Source::from_name("Plus"), None);
    assert_eq!(Source::from_name("PLUS"), None);
    assert_eq!(Source::from_name("plus "), None);
    assert_eq!(Source::from_name("defaults"), None);
    assert_eq!(Source::from_name("idd2"), None);
}
