//! ISO 3166-1 country codes.

use vstd::prelude::*;

verus! {

use crate::errors::InvalidCountryError;
use crate::strutil::str_eq;
use vstd::string::StringExecFns;

/// ISO 3166-1 country codes.
#[derive(Debug, Clone, Copy, PartialEq, Eq, Hash)]
pub enum Country {
    /// ALBANIA
    AL,
    /// ALGERIA
    DZ,
    /// ANDORRA
    AD,
    /// ANGOLA
    AO,
    /// ANGUILLA
    AI,
    /// ANTIGUA and BARBUDA
    AG,
    /// ARGENTINA
    AR,
    /// ARMENIA
    AM,
    /// ARUBA
    AW,
    /// AUSTRALIA
    AU,
    /// AUSTRIA
    AT,
    /// AZERBAIJAN
    AZ,
    /// BAHAMAS
    BS,
    /// BAHRAIN
    BH,
    /// BARBADOS
    BB,
    /// BELARUS
    BY,
    /// BELGIUM
    BE,
    /// BELIZE
    BZ,
    /// BENIN
    BJ,
    /// BERMUDA
    BM,
    /// BHUTAN
    BT,
    /// BOLIVIA
    BO,
    /// BOSNIA and HERZEGOVINA
    BA,
    /// BOTSWANA
    BW,
    /// BRAZIL
    BR,
    /// BRITISH VIRGIN ISLANDS
    VG,
    /// BRUNEI
    BN,
    /// BULGARIA
    BG,
    /// BURKINA FASO
    BF,
    /// BURUNDI
    BI,
    /// CAMBODIA
    KH,
    /// CAMEROON
    CM,
    /// CANADA
    CA,
    /// CAPE VERDE
    CV,
    /// CAYMAN ISLANDS
    KY,
    /// CHAD
    TD,
    /// CHILE
    CL,
    /// COLOMBIA
    CO,
    /// COMOROS
    KM,
    /// CONGO - BRAZZAVILLE
    CG,
    /// CONGO - KINSHASA
    CD,
    /// COOK ISLANDS
    CK,
    /// COSTA RICA
    CR,
    /// CÔTE D’IVOIRE
    CI,
    /// CROATIA
    HR,
    /// CYPRUS
    CY,
    /// CZECH REPUBLIC
    CZ,
    /// DENMARK
    DK,
    /// DJIBOUTI
    DJ,
    /// DOMINICA
    DM,
    /// DOMINICAN REPUBLIC
    DO,
    /// ECUADOR
    EC,
    /// EGYPT
    EG,
    /// EL SALVADOR
    SV,
    /// ERITREA
    ER,
    /// ESTONIA
    EE,
    /// ETHIOPIA
    ET,
    /// FALKLAND ISLANDS
    FK,
    /// FAROE ISLANDS
    FO,
    /// FIJI
    FJ,
    /// FINLAND
    FI,
    /// FRANCE
    FR,
    /// FRENCH GUIANA
    GF,
    /// FRENCH POLYNESIA
    PF,
    /// GABON
    GA,
    /// GAMBIA
    GM,
    /// GEORGIA
    GE,
    /// GERMANY
    DE,
    /// GIBRALTAR
    GI,
    /// GREECE
    GR,
    /// GREENLAND
    GL,
    /// GRENADA
    GD,
    /// GUADELOUPE
    GP,
    /// GUATEMALA
    GT,
    /// GUINEA
    GN,
    /// GUINEA-BISSAU
    GW,
    /// GUYANA
    GY,
    /// HONDURAS
    HN,
    /// HONG KONG SAR CHINA
    HK,
    /// HUNGARY
    HU,
    /// ICELAND
    IS,
    /// INDIA
    IN,
    /// INDONESIA
    ID,
    /// IRELAND
    IE,
    /// ISRAEL
    IL,
    /// ITALY
    IT,
    /// JAMAICA
    JM,
    /// JAPAN
    JP,
    /// JORDAN
    JO,
    /// KAZAKHSTAN
    KZ,
    /// KENYA
    KE,
    /// KIRIBATI
    KI,
    /// KUWAIT
    KW,
    /// KYRGYZSTAN
    KG,
    /// LAOS
    LA,
    /// LATVIA
    LV,
    /// LESOTHO
    LS,
    /// LIECHTENSTEIN
    LI,
    /// LITHUANIA
    LT,
    /// LUXEMBOURG
    LU,
    /// MACEDONIA
    MK,
    /// MADAGASCAR
    MG,
    /// MALAWI
    MW,
    /// MALAYSIA
    MY,
    /// MALDIVES
    MV,
    /// MALI
    ML,
    /// MALTA
    MT,
    /// MARSHALL ISLANDS
    MH,
    /// MARTINIQUE
    MQ,
    /// MAURITANIA
    MR,
    /// MAURITIUS
    MU,
    /// MAYOTTE
    YT,
    /// MEXICO
    MX,
    /// MICRONESIA
    FM,
    /// MOLDOVA
    MD,
    /// MONACO
    MC,
    /// MONGOLIA
    MN,
    /// MONTENEGRO
    ME,
    /// MONTSERRAT
    MS,
    /// MOROCCO
    MA,
    /// MOZAMBIQUE
    MZ,
    /// NAMIBIA
    NA,
    /// NAURU
    NR,
    /// NEPAL
    NP,
    /// NETHERLANDS
    NL,
    /// NEW CALEDONIA
    NC,
    /// NEW ZEALAND
    NZ,
    /// NICARAGUA
    NI,
    /// NIGER
    NE,
    /// NIGERIA
    NG,
    /// NIUE
    NU,
    /// NORFOLK ISLAND
    NF,
    /// NORWAY
    NO,
    /// OMAN
    OM,
    /// PALAU
    PW,
    /// PANAMA
    PA,
    /// PAPUA NEW GUINEA
    PG,
    /// PARAGUAY
    PY,
    /// PERU
    PE,
    /// PHILIPPINES
    PH,
    /// PITCAIRN ISLANDS
    PN,
    /// POLAND
    PL,
    /// PORTUGAL
    PT,
    /// QATAR
    QA,
    /// RÉUNION
    RE,
    /// ROMANIA
    RO,
    /// RUSSIA
    RU,
    /// RWANDA
    RW,
    /// SAMOA
    WS,
    /// SAN MARINO
    SM,
    /// SÃO TOMÉ and PRÍNCIPE
    ST,
    /// SAUDI ARABIA
    SA,
    /// SENEGAL
    SN,
    /// SERBIA
    RS,
    /// SEYCHELLES
    SC,
    /// SIERRA LEONE
    SL,
    /// SINGAPORE
    SG,
    /// SLOVAKIA
    SK,
    /// SLOVENIA
    SI,
    /// SOLOMON ISLANDS
    SB,
    /// SOMALIA
    SO,
    /// SOUTH AFRICA
    ZA,
    /// SOUTH KOREA
    KR,
    /// SPAIN
    ES,
    /// SRI LANKA
    LK,
    /// ST. HELENA
    SH,
    /// ST. KITTS and NEVIS
    KN,
    /// ST. LUCIA
    LC,
    /// ST. PIERRE and MIQUELON
    PM,
    /// ST. VINCENT and GRENADINES
    VC,
    /// SURINAME
    SR,
    /// SVALBARD and JAN MAYEN
    SJ,
    /// SWAZILAND
    SZ,
    /// SWEDEN
    SE,
    /// SWITZERLAND
    CH,
    /// TAIWAN
    TW,
    /// TAJIKISTAN
    TJ,
    /// TANZANIA
    TZ,
    /// THAILAND
    TH,
    /// TOGO
    TG,
    /// TONGA
    TO,
    /// TRINIDAD and TOBAGO
    TT,
    /// TUNISIA
    TN,
    /// TURKMENISTAN
    TM,
    /// TURKS and CAICOS ISLANDS
    TC,
    /// TUVALU
    TV,
    /// UGANDA
    UG,
    /// UKRAINE
    UA,
    /// UNITED ARAB EMIRATES
    AE,
    /// UNITED KINGDOM
    GB,
    /// UNITED STATES
    US,
    /// URUGUAY
    UY,
    /// VANUATU
    VU,
    /// VATICAN CITY
    VA,
    /// VENEZUELA
    VE,
    /// VIETNAM
    VN,
    /// WALLIS and FUTUNA
    WF,
    /// YEMEN
    YE,
    /// ZAMBIA
    ZM,
    /// ZIMBABWE
    ZW,
}

impl Country {
    /// The two-letter code of this country.
    pub open spec fn spec_code(self) -> Seq<char> {
        match self {
            Country::AL => "AL"@,
            Country::DZ => "DZ"@,
            Country::AD => "AD"@,
            Country::AO => "AO"@,
            Country::AI => "AI"@,
            Country::AG => "AG"@,
            Country::AR => "AR"@,
            Country::AM => "AM"@,
            Country::AW => "AW"@,
            Country::AU => "AU"@,
            Country::AT => "AT"@,
            Country::AZ => "AZ"@,
            Country::BS => "BS"@,
            Country::BH => "BH"@,
            Country::BB => "BB"@,
            Country::BY => "BY"@,
            Country::BE => "BE"@,
            Country::BZ => "BZ"@,
            Country::BJ => "BJ"@,
            Country::BM => "BM"@,
            Country::BT => "BT"@,
            Country::BO => "BO"@,
            Country::BA => "BA"@,
            Country::BW => "BW"@,
            Country::BR => "BR"@,
            Country::VG => "VG"@,
            Country::BN => "BN"@,
            Country::BG => "BG"@,
            Country::BF => "BF"@,
            Country::BI => "BI"@,
            Country::KH => "KH"@,
            Country::CM => "CM"@,
            Country::CA => "CA"@,
            Country::CV => "CV"@,
            Country::KY => "KY"@,
            Country::TD => "TD"@,
            Country::CL => "CL"@,
            Country::CO => "CO"@,
            Country::KM => "KM"@,
            Country::CG => "CG"@,
            Country::CD => "CD"@,
            Country::CK => "CK"@,
            Country::CR => "CR"@,
            Country::CI => "CI"@,
            Country::HR => "HR"@,
            Country::CY => "CY"@,
            Country::CZ => "CZ"@,
            Country::DK => "DK"@,
            Country::DJ => "DJ"@,
            Country::DM => "DM"@,
            Country::DO => "DO"@,
            Country::EC => "EC"@,
            Country::EG => "EG"@,
            Country::SV => "SV"@,
            Country::ER => "ER"@,
            Country::EE => "EE"@,
            Country::ET => "ET"@,
            Country::FK => "FK"@,
            Country::FO => "FO"@,
            Country::FJ => "FJ"@,
            Country::FI => "FI"@,
            Country::FR => "FR"@,
            Country::GF => "GF"@,
            Country::PF => "PF"@,
            Country::GA => "GA"@,
            Country::GM => "GM"@,
            Country::GE => "GE"@,
            Country::DE => "DE"@,
            Country::GI => "GI"@,
            Country::GR => "GR"@,
            Country::GL => "GL"@,
            Country::GD => "GD"@,
            Country::GP => "GP"@,
            Country::GT => "GT"@,
            Country::GN => "GN"@,
            Country::GW => "GW"@,
            Country::GY => "GY"@,
            Country::HN => "HN"@,
            Country::HK => "HK"@,
            Country::HU => "HU"@,
            Country::IS => "IS"@,
            Country::IN => "IN"@,
            Country::ID => "ID"@,
            Country::IE => "IE"@,
            Country::IL => "IL"@,
            Country::IT => "IT"@,
            Country::JM => "JM"@,
            Country::JP => "JP"@,
            Country::JO => "JO"@,
            Country::KZ => "KZ"@,
            Country::KE => "KE"@,
            Country::KI => "KI"@,
            Country::KW => "KW"@,
            Country::KG => "KG"@,
            Country::LA => "LA"@,
            Country::LV => "LV"@,
            Country::LS => "LS"@,
            Country::LI => "LI"@,
            Country::LT => "LT"@,
            Country::LU => "LU"@,
            Country::MK => "MK"@,
            Country::MG => "MG"@,
            Country::MW => "MW"@,
            Country::MY => "MY"@,
            Country::MV => "MV"@,
            Country::ML => "ML"@,
            Country::MT => "MT"@,
            Country::MH => "MH"@,
            Country::MQ => "MQ"@,
            Country::MR => "MR"@,
            Country::MU => "MU"@,
            Country::YT => "YT"@,
            Country::MX => "MX"@,
            Country::FM => "FM"@,
            Country::MD => "MD"@,
            Country::MC => "MC"@,
            Country::MN => "MN"@,
            Country::ME => "ME"@,
            Country::MS => "MS"@,
            Country::MA => "MA"@,
            Country::MZ => "MZ"@,
            Country::NA => "NA"@,
            Country::NR => "NR"@,
            Country::NP => "NP"@,
            Country::NL => "NL"@,
            Country::NC => "NC"@,
            Country::NZ => "NZ"@,
            Country::NI => "NI"@,
            Country::NE => "NE"@,
            Country::NG => "NG"@,
            Country::NU => "NU"@,
            Country::NF => "NF"@,
            Country::NO => "NO"@,
            Country::OM => "OM"@,
            Country::PW => "PW"@,
            Country::PA => "PA"@,
            Country::PG => "PG"@,
            Country::PY => "PY"@,
            Country::PE => "PE"@,
            Country::PH => "PH"@,
            Country::PN => "PN"@,
            Country::PL => "PL"@,
            Country::PT => "PT"@,
            Country::QA => "QA"@,
            Country::RE => "RE"@,
            Country::RO => "RO"@,
            Country::RU => "RU"@,
            Country::RW => "RW"@,
            Country::WS => "WS"@,
            Country::SM => "SM"@,
            Country::ST => "ST"@,
            Country::SA => "SA"@,
            Country::SN => "SN"@,
            Country::RS => "RS"@,
            Country::SC => "SC"@,
            Country::SL => "SL"@,
            Country::SG => "SG"@,
            Country::SK => "SK"@,
            Country::SI => "SI"@,
            Country::SB => "SB"@,
            Country::SO => "SO"@,
            Country::ZA => "ZA"@,
            Country::KR => "KR"@,
            Country::ES => "ES"@,
            Country::LK => "LK"@,
            Country::SH => "SH"@,
            Country::KN => "KN"@,
            Country::LC => "LC"@,
            Country::PM => "PM"@,
            Country::VC => "VC"@,
            Country::SR => "SR"@,
            Country::SJ => "SJ"@,
            Country::SZ => "SZ"@,
            Country::SE => "SE"@,
            Country::CH => "CH"@,
            Country::TW => "TW"@,
            Country::TJ => "TJ"@,
            Country::TZ => "TZ"@,
            Country::TH => "TH"@,
            Country::TG => "TG"@,
            Country::TO => "TO"@,
            Country::TT => "TT"@,
            Country::TN => "TN"@,
            Country::TM => "TM"@,
            Country::TC => "TC"@,
            Country::TV => "TV"@,
            Country::UG => "UG"@,
            Country::UA => "UA"@,
            Country::AE => "AE"@,
            Country::GB => "GB"@,
            Country::US => "US"@,
            Country::UY => "UY"@,
            Country::VU => "VU"@,
            Country::VA => "VA"@,
            Country::VE => "VE"@,
            Country::VN => "VN"@,
            Country::WF => "WF"@,
            Country::YE => "YE"@,
            Country::ZM => "ZM"@,
            Country::ZW => "ZW"@,
        }
    }

    /// The country a two-letter code names, if any.
    pub open spec fn spec_from_code(s: Seq<char>) -> Option<Country> {
        if s == "AL"@ {
            Some(Country::AL)
        } else if s == "DZ"@ {
            Some(Country::DZ)
        } else if s == "AD"@ {
            Some(Country::AD)
        } else if s == "AO"@ {
            Some(Country::AO)
        } else if s == "AI"@ {
            Some(Country::AI)
        } else if s == "AG"@ {
            Some(Country::AG)
        } else if s == "AR"@ {
            Some(Country::AR)
        } else if s == "AM"@ {
            Some(Country::AM)
        } else if s == "AW"@ {
            Some(Country::AW)
        } else if s == "AU"@ {
            Some(Country::AU)
        } else if s == "AT"@ {
            Some(Country::AT)
        } else if s == "AZ"@ {
            Some(Country::AZ)
        } else if s == "BS"@ {
            Some(Country::BS)
        } else if s == "BH"@ {
            Some(Country::BH)
        } else if s == "BB"@ {
            Some(Country::BB)
        } else if s == "BY"@ {
            Some(Country::BY)
        } else if s == "BE"@ {
            Some(Country::BE)
        } else if s == "BZ"@ {
            Some(Country::BZ)
        } else if s == "BJ"@ {
            Some(Country::BJ)
        } else if s == "BM"@ {
            Some(Country::BM)
        } else if s == "BT"@ {
            Some(Country::BT)
        } else if s == "BO"@ {
            Some(Country::BO)
        } else if s == "BA"@ {
            Some(Country::BA)
        } else if s == "BW"@ {
            Some(Country::BW)
        } else if s == "BR"@ {
            Some(Country::BR)
        } else if s == "VG"@ {
            Some(Country::VG)
        } else if s == "BN"@ {
            Some(Country::BN)
        } else if s == "BG"@ {
            Some(Country::BG)
        } else if s == "BF"@ {
            Some(Country::BF)
        } else if s == "BI"@ {
            Some(Country::BI)
        } else if s == "KH"@ {
            Some(Country::KH)
        } else if s == "CM"@ {
            Some(Country::CM)
        } else if s == "CA"@ {
            Some(Country::CA)
        } else if s == "CV"@ {
            Some(Country::CV)
        } else if s == "KY"@ {
            Some(Country::KY)
        } else if s == "TD"@ {
            Some(Country::TD)
        } else if s == "CL"@ {
            Some(Country::CL)
        } else if s == "CO"@ {
            Some(Country::CO)
        } else if s == "KM"@ {
            Some(Country::KM)
        } else if s == "CG"@ {
            Some(Country::CG)
        } else if s == "CD"@ {
            Some(Country::CD)
        } else if s == "CK"@ {
            Some(Country::CK)
        } else if s == "CR"@ {
            Some(Country::CR)
        } else if s == "CI"@ {
            Some(Country::CI)
        } else if s == "HR"@ {
            Some(Country::HR)
        } else if s == "CY"@ {
            Some(Country::CY)
        } else if s == "CZ"@ {
            Some(Country::CZ)
        } else if s == "DK"@ {
            Some(Country::DK)
        } else if s == "DJ"@ {
            Some(Country::DJ)
        } else if s == "DM"@ {
            Some(Country::DM)
        } else if s == "DO"@ {
            Some(Country::DO)
        } else if s == "EC"@ {
            Some(Country::EC)
        } else if s == "EG"@ {
            Some(Country::EG)
        } else if s == "SV"@ {
            Some(Country::SV)
        } else if s == "ER"@ {
            Some(Country::ER)
        } else if s == "EE"@ {
            Some(Country::EE)
        } else if s == "ET"@ {
            Some(Country::ET)
        } else if s == "FK"@ {
            Some(Country::FK)
        } else if s == "FO"@ {
            Some(Country::FO)
        } else if s == "FJ"@ {
            Some(Country::FJ)
        } else if s == "FI"@ {
            Some(Country::FI)
        } else if s == "FR"@ {
            Some(Country::FR)
        } else if s == "GF"@ {
            Some(Country::GF)
        } else if s == "PF"@ {
            Some(Country::PF)
        } else if s == "GA"@ {
            Some(Country::GA)
        } else if s == "GM"@ {
            Some(Country::GM)
        } else if s == "GE"@ {
            Some(Country::GE)
        } else if s == "DE"@ {
            Some(Country::DE)
        } else if s == "GI"@ {
            Some(Country::GI)
        } else if s == "GR"@ {
            Some(Country::GR)
        } else if s == "GL"@ {
            Some(Country::GL)
        } else if s == "GD"@ {
            Some(Country::GD)
        } else if s == "GP"@ {
            Some(Country::GP)
        } else if s == "GT"@ {
            Some(Country::GT)
        } else if s == "GN"@ {
            Some(Country::GN)
        } else if s == "GW"@ {
            Some(Country::GW)
        } else if s == "GY"@ {
            Some(Country::GY)
        } else if s == "HN"@ {
            Some(Country::HN)
        } else if s == "HK"@ {
            Some(Country::HK)
        } else if s == "HU"@ {
            Some(Country::HU)
        } else if s == "IS"@ {
            Some(Country::IS)
        } else if s == "IN"@ {
            Some(Country::IN)
        } else if s == "ID"@ {
            Some(Country::ID)
        } else if s == "IE"@ {
            Some(Country::IE)
        } else if s == "IL"@ {
            Some(Country::IL)
        } else if s == "IT"@ {
            Some(Country::IT)
        } else if s == "JM"@ {
            Some(Country::JM)
        } else if s == "JP"@ {
            Some(Country::JP)
        } else if s == "JO"@ {
            Some(Country::JO)
        } else if s == "KZ"@ {
            Some(Country::KZ)
        } else if s == "KE"@ {
            Some(Country::KE)
        } else if s == "KI"@ {
            Some(Country::KI)
        } else if s == "KW"@ {
            Some(Country::KW)
        } else if s == "KG"@ {
            Some(Country::KG)
        } else if s == "LA"@ {
            Some(Country::LA)
        } else if s == "LV"@ {
            Some(Country::LV)
        } else if s == "LS"@ {
            Some(Country::LS)
        } else if s == "LI"@ {
            Some(Country::LI)
        } else if s == "LT"@ {
            Some(Country::LT)
        } else if s == "LU"@ {
            Some(Country::LU)
        } else if s == "MK"@ {
            Some(Country::MK)
        } else if s == "MG"@ {
            Some(Country::MG)
        } else if s == "MW"@ {
            Some(Country::MW)
        } else if s == "MY"@ {
            Some(Country::MY)
        } else if s == "MV"@ {
            Some(Country::MV)
        } else if s == "ML"@ {
            Some(Country::ML)
        } else if s == "MT"@ {
            Some(Country::MT)
        } else if s == "MH"@ {
            Some(Country::MH)
        } else if s == "MQ"@ {
            Some(Country::MQ)
        } else if s == "MR"@ {
            Some(Country::MR)
        } else if s == "MU"@ {
            Some(Country::MU)
        } else if s == "YT"@ {
            Some(Country::YT)
        } else if s == "MX"@ {
            Some(Country::MX)
        } else if s == "FM"@ {
            Some(Country::FM)
        } else if s == "MD"@ {
            Some(Country::MD)
        } else if s == "MC"@ {
            Some(Country::MC)
        } else if s == "MN"@ {
            Some(Country::MN)
        } else if s == "ME"@ {
            Some(Country::ME)
        } else if s == "MS"@ {
            Some(Country::MS)
        } else if s == "MA"@ {
            Some(Country::MA)
        } else if s == "MZ"@ {
            Some(Country::MZ)
        } else if s == "NA"@ {
            Some(Country::NA)
        } else if s == "NR"@ {
            Some(Country::NR)
        } else if s == "NP"@ {
            Some(Country::NP)
        } else if s == "NL"@ {
            Some(Country::NL)
        } else if s == "NC"@ {
            Some(Country::NC)
        } else if s == "NZ"@ {
            Some(Country::NZ)
        } else if s == "NI"@ {
            Some(Country::NI)
        } else if s == "NE"@ {
            Some(Country::NE)
        } else if s == "NG"@ {
            Some(Country::NG)
        } else if s == "NU"@ {
            Some(Country::NU)
        } else if s == "NF"@ {
            Some(Country::NF)
        } else if s == "NO"@ {
            Some(Country::NO)
        } else if s == "OM"@ {
            Some(Country::OM)
        } else if s == "PW"@ {
            Some(Country::PW)
        } else if s == "PA"@ {
            Some(Country::PA)
        } else if s == "PG"@ {
            Some(Country::PG)
        } else if s == "PY"@ {
            Some(Country::PY)
        } else if s == "PE"@ {
            Some(Country::PE)
        } else if s == "PH"@ {
            Some(Country::PH)
        } else if s == "PN"@ {
            Some(Country::PN)
        } else if s == "PL"@ {
            Some(Country::PL)
        } else if s == "PT"@ {
            Some(Country::PT)
        } else if s == "QA"@ {
            Some(Country::QA)
        } else if s == "RE"@ {
            Some(Country::RE)
        } else if s == "RO"@ {
            Some(Country::RO)
        } else if s == "RU"@ {
            Some(Country::RU)
        } else if s == "RW"@ {
            Some(Country::RW)
        } else if s == "WS"@ {
            Some(Country::WS)
        } else if s == "SM"@ {
            Some(Country::SM)
        } else if s == "ST"@ {
            Some(Country::ST)
        } else if s == "SA"@ {
            Some(Country::SA)
        } else if s == "SN"@ {
            Some(Country::SN)
        } else if s == "RS"@ {
            Some(Country::RS)
        } else if s == "SC"@ {
            Some(Country::SC)
        } else if s == "SL"@ {
            Some(Country::SL)
        } else if s == "SG"@ {
            Some(Country::SG)
        } else if s == "SK"@ {
            Some(Country::SK)
        } else if s == "SI"@ {
            Some(Country::SI)
        } else if s == "SB"@ {
            Some(Country::SB)
        } else if s == "SO"@ {
            Some(Country::SO)
        } else if s == "ZA"@ {
            Some(Country::ZA)
        } else if s == "KR"@ {
            Some(Country::KR)
        } else if s == "ES"@ {
            Some(Country::ES)
        } else if s == "LK"@ {
            Some(Country::LK)
        } else if s == "SH"@ {
            Some(Country::SH)
        } else if s == "KN"@ {
            Some(Country::KN)
        } else if s == "LC"@ {
            Some(Country::LC)
        } else if s == "PM"@ {
            Some(Country::PM)
        } else if s == "VC"@ {
            Some(Country::VC)
        } else if s == "SR"@ {
            Some(Country::SR)
        } else if s == "SJ"@ {
            Some(Country::SJ)
        } else if s == "SZ"@ {
            Some(Country::SZ)
        } else if s == "SE"@ {
            Some(Country::SE)
        } else if s == "CH"@ {
            Some(Country::CH)
        } else if s == "TW"@ {
            Some(Country::TW)
        } else if s == "TJ"@ {
            Some(Country::TJ)
        } else if s == "TZ"@ {
            Some(Country::TZ)
        } else if s == "TH"@ {
            Some(Country::TH)
        } else if s == "TG"@ {
            Some(Country::TG)
        } else if s == "TO"@ {
            Some(Country::TO)
        } else if s == "TT"@ {
            Some(Country::TT)
        } else if s == "TN"@ {
            Some(Country::TN)
        } else if s == "TM"@ {
            Some(Country::TM)
        } else if s == "TC"@ {
            Some(Country::TC)
        } else if s == "TV"@ {
            Some(Country::TV)
        } else if s == "UG"@ {
            Some(Country::UG)
        } else if s == "UA"@ {
            Some(Country::UA)
        } else if s == "AE"@ {
            Some(Country::AE)
        } else if s == "GB"@ {
            Some(Country::GB)
        } else if s == "US"@ {
            Some(Country::US)
        } else if s == "UY"@ {
            Some(Country::UY)
        } else if s == "VU"@ {
            Some(Country::VU)
        } else if s == "VA"@ {
            Some(Country::VA)
        } else if s == "VE"@ {
            Some(Country::VE)
        } else if s == "VN"@ {
            Some(Country::VN)
        } else if s == "WF"@ {
            Some(Country::WF)
        } else if s == "YE"@ {
            Some(Country::YE)
        } else if s == "ZM"@ {
            Some(Country::ZM)
        } else if s == "ZW"@ {
            Some(Country::ZW)
        } else {
            None
        }
    }

    /// Renders the two-letter code of this country.
    pub fn to_string(&self) -> (r: String)
        ensures
            r@ == self.spec_code(),
    {
        match self {
            Country::AL => String::from_str("AL"),
            Country::DZ => String::from_str("DZ"),
            Country::AD => String::from_str("AD"),
            Country::AO => String::from_str("AO"),
            Country::AI => String::from_str("AI"),
            Country::AG => String::from_str("AG"),
            Country::AR => String::from_str("AR"),
            Country::AM => String::from_str("AM"),
            Country::AW => String::from_str("AW"),
            Country::AU => String::from_str("AU"),
            Country::AT => String::from_str("AT"),
            Country::AZ => String::from_str("AZ"),
            Country::BS => String::from_str("BS"),
            Country::BH => String::from_str("BH"),
            Country::BB => String::from_str("BB"),
            Country::BY => String::from_str("BY"),
            Country::BE => String::from_str("BE"),
            Country::BZ => String::from_str("BZ"),
            Country::BJ => String::from_str("BJ"),
            Country::BM => String::from_str("BM"),
            Country::BT => String::from_str("BT"),
            Country::BO => String::from_str("BO"),
            Country::BA => String::from_str("BA"),
            Country::BW => String::from_str("BW"),
            Country::BR => String::from_str("BR"),
            Country::VG => String::from_str("VG"),
            Country::BN => String::from_str("BN"),
            Country::BG => String::from_str("BG"),
            Country::BF => String::from_str("BF"),
            Country::BI => String::from_str("BI"),
            Country::KH => String::from_str("KH"),
            Country::CM => String::from_str("CM"),
            Country::CA => String::from_str("CA"),
            Country::CV => String::from_str("CV"),
            Country::KY => String::from_str("KY"),
            Country::TD => String::from_str("TD"),
            Country::CL => String::from_str("CL"),
            Country::CO => String::from_str("CO"),
            Country::KM => String::from_str("KM"),
            Country::CG => String::from_str("CG"),
            Country::CD => String::from_str("CD"),
            Country::CK => String::from_str("CK"),
            Country::CR => String::from_str("CR"),
            Country::CI => String::from_str("CI"),
            Country::HR => String::from_str("HR"),
            Country::CY => String::from_str("CY"),
            Country::CZ => String::from_str("CZ"),
            Country::DK => String::from_str("DK"),
            Country::DJ => String::from_str("DJ"),
            Country::DM => String::from_str("DM"),
            Country::DO => String::from_str("DO"),
            Country::EC => String::from_str("EC"),
            Country::EG => String::from_str("EG"),
            Country::SV => String::from_str("SV"),
            Country::ER => String::from_str("ER"),
            Country::EE => String::from_str("EE"),
            Country::ET => String::from_str("ET"),
            Country::FK => String::from_str("FK"),
            Country::FO => String::from_str("FO"),
            Country::FJ => String::from_str("FJ"),
            Country::FI => String::from_str("FI"),
            Country::FR => String::from_str("FR"),
            Country::GF => String::from_str("GF"),
            Country::PF => String::from_str("PF"),
            Country::GA => String::from_str("GA"),
            Country::GM => String::from_str("GM"),
            Country::GE => String::from_str("GE"),
            Country::DE => String::from_str("DE"),
            Country::GI => String::from_str("GI"),
            Country::GR => String::from_str("GR"),
            Country::GL => String::from_str("GL"),
            Country::GD => String::from_str("GD"),
            Country::GP => String::from_str("GP"),
            Country::GT => String::from_str("GT"),
            Country::GN => String::from_str("GN"),
            Country::GW => String::from_str("GW"),
            Country::GY => String::from_str("GY"),
            Country::HN => String::from_str("HN"),
            Country::HK => String::from_str("HK"),
            Country::HU => String::from_str("HU"),
            Country::IS => String::from_str("IS"),
            Country::IN => String::from_str("IN"),
            Country::ID => String::from_str("ID"),
            Country::IE => String::from_str("IE"),
            Country::IL => String::from_str("IL"),
            Country::IT => String::from_str("IT"),
            Country::JM => String::from_str("JM"),
            Country::JP => String::from_str("JP"),
            Country::JO => String::from_str("JO"),
            Country::KZ => String::from_str("KZ"),
            Country::KE => String::from_str("KE"),
            Country::KI => String::from_str("KI"),
            Country::KW => String::from_str("KW"),
            Country::KG => String::from_str("KG"),
            Country::LA => String::from_str("LA"),
            Country::LV => String::from_str("LV"),
            Country::LS => String::from_str("LS"),
            Country::LI => String::from_str("LI"),
            Country::LT => String::from_str("LT"),
            Country::LU => String::from_str("LU"),
            Country::MK => String::from_str("MK"),
            Country::MG => String::from_str("MG"),
            Country::MW => String::from_str("MW"),
            Country::MY => String::from_str("MY"),
            Country::MV => String::from_str("MV"),
            Country::ML => String::from_str("ML"),
            Country::MT => String::from_str("MT"),
            Country::MH => String::from_str("MH"),
            Country::MQ => String::from_str("MQ"),
            Country::MR => String::from_str("MR"),
            Country::MU => String::from_str("MU"),
            Country::YT => String::from_str("YT"),
            Country::MX => String::from_str("MX"),
            Country::FM => String::from_str("FM"),
            Country::MD => String::from_str("MD"),
            Country::MC => String::from_str("MC"),
            Country::MN => String::from_str("MN"),
            Country::ME => String::from_str("ME"),
            Country::MS => String::from_str("MS"),
            Country::MA => String::from_str("MA"),
            Country::MZ => String::from_str("MZ"),
            Country::NA => String::from_str("NA"),
            Country::NR => String::from_str("NR"),
            Country::NP => String::from_str("NP"),
            Country::NL => String::from_str("NL"),
            Country::NC => String::from_str("NC"),
            Country::NZ => String::from_str("NZ"),
            Country::NI => String::from_str("NI"),
            Country::NE => String::from_str("NE"),
            Country::NG => String::from_str("NG"),
            Country::NU => String::from_str("NU"),
            Country::NF => String::from_str("NF"),
            Country::NO => String::from_str("NO"),
            Country::OM => String::from_str("OM"),
            Country::PW => String::from_str("PW"),
            Country::PA => String::from_str("PA"),
            Country::PG => String::from_str("PG"),
            Country::PY => String::from_str("PY"),
            Country::PE => String::from_str("PE"),
            Country::PH => String::from_str("PH"),
            Country::PN => String::from_str("PN"),
            Country::PL => String::from_str("PL"),
            Country::PT => String::from_str("PT"),
            Country::QA => String::from_str("QA"),
            Country::RE => String::from_str("RE"),
            Country::RO => String::from_str("RO"),
            Country::RU => String::from_str("RU"),
            Country::RW => String::from_str("RW"),
            Country::WS => String::from_str("WS"),
            Country::SM => String::from_str("SM"),
            Country::ST => String::from_str("ST"),
            Country::SA => String::from_str("SA"),
            Country::SN => String::from_str("SN"),
            Country::RS => String::from_str("RS"),
            Country::SC => String::from_str("SC"),
            Country::SL => String::from_str("SL"),
            Country::SG => String::from_str("SG"),
            Country::SK => String::from_str("SK"),
            Country::SI => String::from_str("SI"),
            Country::SB => String::from_str("SB"),
            Country::SO => String::from_str("SO"),
            Country::ZA => String::from_str("ZA"),
            Country::KR => String::from_str("KR"),
            Country::ES => String::from_str("ES"),
            Country::LK => String::from_str("LK"),
            Country::SH => String::from_str("SH"),
            Country::KN => String::from_str("KN"),
            Country::LC => String::from_str("LC"),
            Country::PM => String::from_str("PM"),
            Country::VC => String::from_str("VC"),
            Country::SR => String::from_str("SR"),
            Country::SJ => String::from_str("SJ"),
            Country::SZ => String::from_str("SZ"),
            Country::SE => String::from_str("SE"),
            Country::CH => String::from_str("CH"),
            Country::TW => String::from_str("TW"),
            Country::TJ => String::from_str("TJ"),
            Country::TZ => String::from_str("TZ"),
            Country::TH => String::from_str("TH"),
            Country::TG => String::from_str("TG"),
            Country::TO => String::from_str("TO"),
            Country::TT => String::from_str("TT"),
            Country::TN => String::from_str("TN"),
            Country::TM => String::from_str("TM"),
            Country::TC => String::from_str("TC"),
            Country::TV => String::from_str("TV"),
            Country::UG => String::from_str("UG"),
            Country::UA => String::from_str("UA"),
            Country::AE => String::from_str("AE"),
            Country::GB => String::from_str("GB"),
            Country::US => String::from_str("US"),
            Country::UY => String::from_str("UY"),
            Country::VU => String::from_str("VU"),
            Country::VA => String::from_str("VA"),
            Country::VE => String::from_str("VE"),
            Country::VN => String::from_str("VN"),
            Country::WF => String::from_str("WF"),
            Country::YE => String::from_str("YE"),
            Country::ZM => String::from_str("ZM"),
            Country::ZW => String::from_str("ZW"),
        }
    }

    /// Parses a two-letter country code.
    pub fn from_str(s: &str) -> (r: Result<Country, InvalidCountryError>)
        ensures
            match r {
                Ok(c) => Self::spec_from_code(s@) == Some(c),
                Err(e) => Self::spec_from_code(s@) is None && e.0@ == s@,
            },
    {
        if str_eq(s, "AL") {
            Ok(Country::AL)
        } else if str_eq(s, "DZ") {
            Ok(Country::DZ)
        } else if str_eq(s, "AD") {
            Ok(Country::AD)
        } else if str_eq(s, "AO") {
            Ok(Country::AO)
        } else if str_eq(s, "AI") {
            Ok(Country::AI)
        } else if str_eq(s, "AG") {
            Ok(Country::AG)
        } else if str_eq(s, "AR") {
            Ok(Country::AR)
        } else if str_eq(s, "AM") {
            Ok(Country::AM)
        } else if str_eq(s, "AW") {
            Ok(Country::AW)
        } else if str_eq(s, "AU") {
            Ok(Country::AU)
        } else if str_eq(s, "AT") {
            Ok(Country::AT)
        } else if str_eq(s, "AZ") {
            Ok(Country::AZ)
        } else if str_eq(s, "BS") {
            Ok(Country::BS)
        } else if str_eq(s, "BH") {
            Ok(Country::BH)
        } else if str_eq(s, "BB") {
            Ok(Country::BB)
        } else if str_eq(s, "BY") {
            Ok(Country::BY)
        } else if str_eq(s, "BE") {
            Ok(Country::BE)
        } else if str_eq(s, "BZ") {
            Ok(Country::BZ)
        } else if str_eq(s, "BJ") {
            Ok(Country::BJ)
        } else if str_eq(s, "BM") {
            Ok(Country::BM)
        } else if str_eq(s, "BT") {
            Ok(Country::BT)
        } else if str_eq(s, "BO") {
            Ok(Country::BO)
        } else if str_eq(s, "BA") {
            Ok(Country::BA)
        } else if str_eq(s, "BW") {
            Ok(Country::BW)
        } else if str_eq(s, "BR") {
            Ok(Country::BR)
        } else if str_eq(s, "VG") {
            Ok(Country::VG)
        } else if str_eq(s, "BN") {
            Ok(Country::BN)
        } else if str_eq(s, "BG") {
            Ok(Country::BG)
        } else if str_eq(s, "BF") {
            Ok(Country::BF)
        } else if str_eq(s, "BI") {
            Ok(Country::BI)
        } else if str_eq(s, "KH") {
            Ok(Country::KH)
        } else if str_eq(s, "CM") {
            Ok(Country::CM)
        } else if str_eq(s, "CA") {
            Ok(Country::CA)
        } else if str_eq(s, "CV") {
            Ok(Country::CV)
        } else if str_eq(s, "KY") {
            Ok(Country::KY)
        } else if str_eq(s, "TD") {
            Ok(Country::TD)
        } else if str_eq(s, "CL") {
            Ok(Country::CL)
        } else if str_eq(s, "CO") {
            Ok(Country::CO)
        } else if str_eq(s, "KM") {
            Ok(Country::KM)
        } else if str_eq(s, "CG") {
            Ok(Country::CG)
        } else if str_eq(s, "CD") {
            Ok(Country::CD)
        } else if str_eq(s, "CK") {
            Ok(Country::CK)
        } else if str_eq(s, "CR") {
            Ok(Country::CR)
        } else if str_eq(s, "CI") {
            Ok(Country::CI)
        } else if str_eq(s, "HR") {
            Ok(Country::HR)
        } else if str_eq(s, "CY") {
            Ok(Country::CY)
        } else if str_eq(s, "CZ") {
            Ok(Country::CZ)
        } else if str_eq(s, "DK") {
            Ok(Country::DK)
        } else if str_eq(s, "DJ") {
            Ok(Country::DJ)
        } else if str_eq(s, "DM") {
            Ok(Country::DM)
        } else if str_eq(s, "DO") {
            Ok(Country::DO)
        } else if str_eq(s, "EC") {
            Ok(Country::EC)
        } else if str_eq(s, "EG") {
            Ok(Country::EG)
        } else if str_eq(s, "SV") {
            Ok(Country::SV)
        } else if str_eq(s, "ER") {
            Ok(Country::ER)
        } else if str_eq(s, "EE") {
            Ok(Country::EE)
        } else if str_eq(s, "ET") {
            Ok(Country::ET)
        } else if str_eq(s, "FK") {
            Ok(Country::FK)
        } else if str_eq(s, "FO") {
            Ok(Country::FO)
        } else if str_eq(s, "FJ") {
            Ok(Country::FJ)
        } else if str_eq(s, "FI") {
            Ok(Country::FI)
        } else if str_eq(s, "FR") {
            Ok(Country::FR)
        } else if str_eq(s, "GF") {
            Ok(Country::GF)
        } else if str_eq(s, "PF") {
            Ok(Country::PF)
        } else if str_eq(s, "GA") {
            Ok(Country::GA)
        } else if str_eq(s, "GM") {
            Ok(Country::GM)
        } else if str_eq(s, "GE") {
            Ok(Country::GE)
        } else if str_eq(s, "DE") {
            Ok(Country::DE)
        } else if str_eq(s, "GI") {
            Ok(Country::GI)
        } else if str_eq(s, "GR") {
            Ok(Country::GR)
        } else if str_eq(s, "GL") {
            Ok(Country::GL)
        } else if str_eq(s, "GD") {
            Ok(Country::GD)
        } else if str_eq(s, "GP") {
            Ok(Country::GP)
        } else if str_eq(s, "GT") {
            Ok(Country::GT)
        } else if str_eq(s, "GN") {
            Ok(Country::GN)
        } else if str_eq(s, "GW") {
            Ok(Country::GW)
        } else if str_eq(s, "GY") {
            Ok(Country::GY)
        } else if str_eq(s, "HN") {
            Ok(Country::HN)
        } else if str_eq(s, "HK") {
            Ok(Country::HK)
        } else if str_eq(s, "HU") {
            Ok(Country::HU)
        } else if str_eq(s, "IS") {
            Ok(Country::IS)
        } else if str_eq(s, "IN") {
            Ok(Country::IN)
        } else if str_eq(s, "ID") {
            Ok(Country::ID)
        } else if str_eq(s, "IE") {
            Ok(Country::IE)
        } else if str_eq(s, "IL") {
            Ok(Country::IL)
        } else if str_eq(s, "IT") {
            Ok(Country::IT)
        } else if str_eq(s, "JM") {
            Ok(Country::JM)
        } else if str_eq(s, "JP") {
            Ok(Country::JP)
        } else if str_eq(s, "JO") {
            Ok(Country::JO)
        } else if str_eq(s, "KZ") {
            Ok(Country::KZ)
        } else if str_eq(s, "KE") {
            Ok(Country::KE)
        } else if str_eq(s, "KI") {
            Ok(Country::KI)
        } else if str_eq(s, "KW") {
            Ok(Country::KW)
        } else if str_eq(s, "KG") {
            Ok(Country::KG)
        } else if str_eq(s, "LA") {
            Ok(Country::LA)
        } else if str_eq(s, "LV") {
            Ok(Country::LV)
        } else if str_eq(s, "LS") {
            Ok(Country::LS)
        } else if str_eq(s, "LI") {
            Ok(Country::LI)
        } else if str_eq(s, "LT") {
            Ok(Country::LT)
        } else if str_eq(s, "LU") {
            Ok(Country::LU)
        } else if str_eq(s, "MK") {
            Ok(Country::MK)
        } else if str_eq(s, "MG") {
            Ok(Country::MG)
        } else if str_eq(s, "MW") {
            Ok(Country::MW)
        } else if str_eq(s, "MY") {
            Ok(Country::MY)
        } else if str_eq(s, "MV") {
            Ok(Country::MV)
        } else if str_eq(s, "ML") {
            Ok(Country::ML)
        } else if str_eq(s, "MT") {
            Ok(Country::MT)
        } else if str_eq(s, "MH") {
            Ok(Country::MH)
        } else if str_eq(s, "MQ") {
            Ok(Country::MQ)
        } else if str_eq(s, "MR") {
            Ok(Country::MR)
        } else if str_eq(s, "MU") {
            Ok(Country::MU)
        } else if str_eq(s, "YT") {
            Ok(Country::YT)
        } else if str_eq(s, "MX") {
            Ok(Country::MX)
        } else if str_eq(s, "FM") {
            Ok(Country::FM)
        } else if str_eq(s, "MD") {
            Ok(Country::MD)
        } else if str_eq(s, "MC") {
            Ok(Country::MC)
        } else if str_eq(s, "MN") {
            Ok(Country::MN)
        } else if str_eq(s, "ME") {
            Ok(Country::ME)
        } else if str_eq(s, "MS") {
            Ok(Country::MS)
        } else if str_eq(s, "MA") {
            Ok(Country::MA)
        } else if str_eq(s, "MZ") {
            Ok(Country::MZ)
        } else if str_eq(s, "NA") {
            Ok(Country::NA)
        } else if str_eq(s, "NR") {
            Ok(Country::NR)
        } else if str_eq(s, "NP") {
            Ok(Country::NP)
        } else if str_eq(s, "NL") {
            Ok(Country::NL)
        } else if str_eq(s, "NC") {
            Ok(Country::NC)
        } else if str_eq(s, "NZ") {
            Ok(Country::NZ)
        } else if str_eq(s, "NI") {
            Ok(Country::NI)
        } else if str_eq(s, "NE") {
            Ok(Country::NE)
        } else if str_eq(s, "NG") {
            Ok(Country::NG)
        } else if str_eq(s, "NU") {
            Ok(Country::NU)
        } else if str_eq(s, "NF") {
            Ok(Country::NF)
        } else if str_eq(s, "NO") {
            Ok(Country::NO)
        } else if str_eq(s, "OM") {
            Ok(Country::OM)
        } else if str_eq(s, "PW") {
            Ok(Country::PW)
        } else if str_eq(s, "PA") {
            Ok(Country::PA)
        } else if str_eq(s, "PG") {
            Ok(Country::PG)
        } else if str_eq(s, "PY") {
            Ok(Country::PY)
        } else if str_eq(s, "PE") {
            Ok(Country::PE)
        } else if str_eq(s, "PH") {
            Ok(Country::PH)
        } else if str_eq(s, "PN") {
            Ok(Country::PN)
        } else if str_eq(s, "PL") {
            Ok(Country::PL)
        } else if str_eq(s, "PT") {
            Ok(Country::PT)
        } else if str_eq(s, "QA") {
            Ok(Country::QA)
        } else if str_eq(s, "RE") {
            Ok(Country::RE)
        } else if str_eq(s, "RO") {
            Ok(Country::RO)
        } else if str_eq(s, "RU") {
            Ok(Country::RU)
        } else if str_eq(s, "RW") {
            Ok(Country::RW)
        } else if str_eq(s, "WS") {
            Ok(Country::WS)
        } else if str_eq(s, "SM") {
            Ok(Country::SM)
        } else if str_eq(s, "ST") {
            Ok(Country::ST)
        } else if str_eq(s, "SA") {
            Ok(Country::SA)
        } else if str_eq(s, "SN") {
            Ok(Country::SN)
        } else if str_eq(s, "RS") {
            Ok(Country::RS)
        } else if str_eq(s, "SC") {
            Ok(Country::SC)
        } else if str_eq(s, "SL") {
            Ok(Country::SL)
        } else if str_eq(s, "SG") {
            Ok(Country::SG)
        } else if str_eq(s, "SK") {
            Ok(Country::SK)
        } else if str_eq(s, "SI") {
            Ok(Country::SI)
        } else if str_eq(s, "SB") {
            Ok(Country::SB)
        } else if str_eq(s, "SO") {
            Ok(Country::SO)
        } else if str_eq(s, "ZA") {
            Ok(Country::ZA)
        } else if str_eq(s, "KR") {
            Ok(Country::KR)
        } else if str_eq(s, "ES") {
            Ok(Country::ES)
        } else if str_eq(s, "LK") {
            Ok(Country::LK)
        } else if str_eq(s, "SH") {
            Ok(Country::SH)
        } else if str_eq(s, "KN") {
            Ok(Country::KN)
        } else if str_eq(s, "LC") {
            Ok(Country::LC)
        } else if str_eq(s, "PM") {
            Ok(Country::PM)
        } else if str_eq(s, "VC") {
            Ok(Country::VC)
        } else if str_eq(s, "SR") {
            Ok(Country::SR)
        } else if str_eq(s, "SJ") {
            Ok(Country::SJ)
        } else if str_eq(s, "SZ") {
            Ok(Country::SZ)
        } else if str_eq(s, "SE") {
            Ok(Country::SE)
        } else if str_eq(s, "CH") {
            Ok(Country::CH)
        } else if str_eq(s, "TW") {
            Ok(Country::TW)
        } else if str_eq(s, "TJ") {
            Ok(Country::TJ)
        } else if str_eq(s, "TZ") {
            Ok(Country::TZ)
        } else if str_eq(s, "TH") {
            Ok(Country::TH)
        } else if str_eq(s, "TG") {
            Ok(Country::TG)
        } else if str_eq(s, "TO") {
            Ok(Country::TO)
        } else if str_eq(s, "TT") {
            Ok(Country::TT)
        } else if str_eq(s, "TN") {
            Ok(Country::TN)
        } else if str_eq(s, "TM") {
            Ok(Country::TM)
        } else if str_eq(s, "TC") {
            Ok(Country::TC)
        } else if str_eq(s, "TV") {
            Ok(Country::TV)
        } else if str_eq(s, "UG") {
            Ok(Country::UG)
        } else if str_eq(s, "UA") {
            Ok(Country::UA)
        } else if str_eq(s, "AE") {
            Ok(Country::AE)
        } else if str_eq(s, "GB") {
            Ok(Country::GB)
        } else if str_eq(s, "US") {
            Ok(Country::US)
        } else if str_eq(s, "UY") {
            Ok(Country::UY)
        } else if str_eq(s, "VU") {
            Ok(Country::VU)
        } else if str_eq(s, "VA") {
            Ok(Country::VA)
        } else if str_eq(s, "VE") {
            Ok(Country::VE)
        } else if str_eq(s, "VN") {
            Ok(Country::VN)
        } else if str_eq(s, "WF") {
            Ok(Country::WF)
        } else if str_eq(s, "YE") {
            Ok(Country::YE)
        } else if str_eq(s, "ZM") {
            Ok(Country::ZM)
        } else if str_eq(s, "ZW") {
            Ok(Country::ZW)
        } else {
            Err(InvalidCountryError(s.to_owned()))
        }
    }
}

impl Default for Country {
    /// The default country.
    fn default() -> (r: Self)
        ensures
            r == Country::US,
    {
        Country::US
    }
}

} // verus!
