//! Country related types.

use crate::error::Parse;
use vstd::prelude::*;

verus! {

/// A numeric calling code paired with the way it was derived.
#[derive(Copy, Clone, Eq, PartialEq, Structural, Hash, Debug)]
pub struct Code {
    value: u16,
    source: Source,
}

/// The source from which the country code is derived. This is not set in the
/// general parsing method, but in the method that parses and keeps raw_input.
#[derive(Eq, PartialEq, Structural, Copy, Clone, Hash, Debug)]
pub enum Source {
    /// The country code is derived based on a phone number with a leading "+",
    /// e.g. the French number "+33 1 42 68 53 00".
    Plus,

    /// The country code is derived based on a phone number with a leading IDD,
    /// e.g. the French number "011 33 1 42 68 53 00", as it is dialled from US.
    Idd,

    /// The country code is derived based on a phone number without a leading
    /// "+", e.g. the French number "33 1 42 68 53 00" when the default country
    /// is supplied as France.
    Number,

    /// The country code is derived NOT based on the phone number itself, but
    /// from the default country parameter provided in the parsing function by
    /// the clients. This happens mostly for numbers written in the national
    /// format (without country code). For example, this would be set when
    /// parsing the French number "01 42 68 53 00", when the default country is
    /// supplied as France.
    Default,
}

impl Default for Source {
    /// The provenance assumed when none is supplied explicitly: the code was
    /// inferred from the caller-supplied default region.
    fn default() -> (r: Self)
        ensures
            r == Source::Default,
    {
        Source::Default
    }
}

/// The interchange name of a derivation source: the stable
/// lower-case-with-underscore textual form used for serialization,
/// independent of any internal renaming.
pub open spec fn source_name(source: Source) -> Seq<char> {
    match source {
        Source::Plus => seq!['p', 'l', 'u', 's'],
        Source::Idd => seq!['i', 'd', 'd'],
        Source::Number => seq!['n', 'u', 'm', 'b', 'e', 'r'],
        Source::Default => seq!['d', 'e', 'f', 'a', 'u', 'l', 't'],
    }
}

/// The derivation source whose interchange name is exactly the text `s`,
/// if there is one.
pub open spec fn source_from_name(s: Seq<char>) -> Option<Source> {
    if s == source_name(Source::Plus) {
        Some(Source::Plus)
    } else if s == source_name(Source::Idd) {
        Some(Source::Idd)
    } else if s == source_name(Source::Number) {
        Some(Source::Number)
    } else if s == source_name(Source::Default) {
        Some(Source::Default)
    } else {
        None
    }
}

impl Source {
    /// The interchange name of this derivation source.
    pub fn name(&self) -> (r: &'static str)
        ensures
            r@ == source_name(*self),
    {
        match *self {
            Source::Plus => {
                proof {
                    reveal_strlit("plus");
                    assert("plus"@ =~= source_name(Source::Plus));
                }
                "plus"
            },
            Source::Idd => {
                proof {
                    reveal_strlit("idd");
                    assert("idd"@ =~= source_name(Source::Idd));
                }
                "idd"
            },
            Source::Number => {
                proof {
                    reveal_strlit("number");
                    assert("number"@ =~= source_name(Source::Number));
                }
                "number"
            },
            Source::Default => {
                proof {
                    reveal_strlit("default");
                    assert("default"@ =~= source_name(Source::Default));
                }
                "default"
            },
        }
    }

    /// Parses a derivation source from its interchange name.  The match is
    /// exact: any other text names no source.
    pub fn from_name(text: &str) -> (r: Option<Source>)
        ensures
            match r {
                Some(source) => source_from_name(text@) == Some(source)
                    && source_name(source) == text@,
                None => source_from_name(text@) is None,
            },
    {
        let len = text.unicode_len();
        if len == 3 {
            if text.get_char(0) == 'i' && text.get_char(1) == 'd' && text.get_char(2) == 'd' {
                proof {
                    assert(text@ =~= source_name(Source::Idd));
                }
                Some(Source::Idd)
            } else {
                None
            }
        } else if len == 4 {
            if text.get_char(0) == 'p' && text.get_char(1) == 'l' && text.get_char(2) == 'u'
                && text.get_char(3) == 's' {
                proof {
                    assert(text@ =~= source_name(Source::Plus));
                }
                Some(Source::Plus)
            } else {
                None
            }
        } else if len == 6 {
            if text.get_char(0) == 'n' && text.get_char(1) == 'u' && text.get_char(2) == 'm'
                && text.get_char(3) == 'b' && text.get_char(4) == 'e'
                && text.get_char(5) == 'r' {
                proof {
                    assert(text@ =~= source_name(Source::Number));
                }
                Some(Source::Number)
            } else {
                None
            }
        } else if len == 7 {
            if text.get_char(0) == 'd' && text.get_char(1) == 'e' && text.get_char(2) == 'f'
                && text.get_char(3) == 'a' && text.get_char(4) == 'u' && text.get_char(5) == 'l'
                && text.get_char(6) == 't' {
                proof {
                    assert(text@ =~= source_name(Source::Default));
                }
                Some(Source::Default)
            } else {
                None
            }
        } else {
            None
        }
    }
}

/// Round trip: the interchange name of any derivation source parses back to
/// that source.
pub proof fn lemma_source_name_round_trip(source: Source)
    ensures
        source_from_name(source_name(source)) == Some(source),
{
}

/// Injectivity: distinct derivation sources have distinct interchange
/// names, so the interchange representation is unambiguous.
pub proof fn lemma_source_name_injective(a: Source, b: Source)
    requires
        source_name(a) == source_name(b),
    ensures
        a == b,
{
    lemma_source_name_round_trip(a);
    lemma_source_name_round_trip(b);
}

impl Code {
    /// The stored country code value, for use in contracts.
    pub closed spec fn spec_value(self) -> u16 {
        self.value
    }

    /// The stored derivation source, for use in contracts.
    pub closed spec fn spec_source(self) -> Source {
        self.source
    }

    /// Bundles a numeric calling code with the provenance of its derivation.
    pub fn new(value: u16, source: Source) -> (r: Code)
        ensures
            r.spec_value() == value,
            r.spec_source() == source,
    {
        Code { value, source }
    }

    /// Wraps a bare numeric calling code without explicit provenance; the
    /// source defaults to the caller-supplied default region.
    pub fn from_value(value: u16) -> (r: Code)
        ensures
            r.spec_value() == value,
            r.spec_source() == Source::Default,
    {
        Code { value, source: Source::default() }
    }

    /// The country code number.
    pub fn value(&self) -> (r: u16)
        ensures
            r == self.spec_value(),
    {
        self.value
    }

    /// How the country was inferred.
    pub fn source(&self) -> (r: Source)
        ensures
            r == self.spec_source(),
    {
        self.source
    }
}

/// Equality on calling codes considers both fields: two codes are equal
/// exactly when the numeric value and the derivation source both agree, so
/// provenance alone distinguishes two codes with the same number.
pub proof fn lemma_code_eq(a: Code, b: Code)
    ensures
        (a == b) <==> (a.spec_value() == b.spec_value() && a.spec_source() == b.spec_source()),
{
}

impl From<Code> for u16 {
    /// The lossless narrowing conversion to the bare numeric type.
    fn from(code: Code) -> (r: u16) {
        code.value
    }
}

impl vstd::std_specs::convert::FromSpecImpl<Code> for u16 {
    open spec fn obeys_from_spec() -> bool {
        true
    }

    open spec fn from_spec(code: Code) -> u16 {
        code.spec_value()
    }
}

/// CLDR country IDs: the closed set of territory identifiers, each named
/// by its canonical two-letter code.
#[derive(Eq, PartialEq, Structural, Copy, Clone, Hash, Debug)]
pub enum Id {
    AC,
    AD,
    AE,
    AF,
    AG,
    AI,
    AL,
    AM,
    AO,
    AR,
    AS,
    AT,
    AU,
    AW,
    AX,
    AZ,
    BA,
    BB,
    BD,
    BE,
    BF,
    BG,
    BH,
    BI,
    BJ,
    BL,
    BM,
    BN,
    BO,
    BQ,
    BR,
    BS,
    BT,
    BW,
    BY,
    BZ,
    CA,
    CC,
    CD,
    CF,
    CG,
    CH,
    CI,
    CK,
    CL,
    CM,
    CN,
    CO,
    CR,
    CU,
    CV,
    CW,
    CX,
    CY,
    CZ,
    DE,
    DJ,
    DK,
    DM,
    DO,
    DZ,
    EC,
    EE,
    EG,
    EH,
    ER,
    ES,
    ET,
    FI,
    FJ,
    FK,
    FM,
    FO,
    FR,
    GA,
    GB,
    GD,
    GE,
    GF,
    GG,
    GH,
    GI,
    GL,
    GM,
    GN,
    GP,
    GQ,
    GR,
    GT,
    GU,
    GW,
    GY,
    HK,
    HN,
    HR,
    HT,
    HU,
    ID,
    IE,
    IL,
    IM,
    IN,
    IO,
    IQ,
    IR,
    IS,
    IT,
    JE,
    JM,
    JO,
    JP,
    KE,
    KG,
    KH,
    KI,
    KM,
    KN,
    KP,
    KR,
    KW,
    KY,
    KZ,
    LA,
    LB,
    LC,
    LI,
    LK,
    LR,
    LS,
    LT,
    LU,
    LV,
    LY,
    MA,
    MC,
    MD,
    ME,
    MF,
    MG,
    MH,
    MK,
    ML,
    MM,
    MN,
    MO,
    MP,
    MQ,
    MR,
    MS,
    MT,
    MU,
    MV,
    MW,
    MX,
    MY,
    MZ,
    NA,
    NC,
    NE,
    NF,
    NG,
    NI,
    NL,
    NO,
    NP,
    NR,
    NU,
    NZ,
    OM,
    PA,
    PE,
    PF,
    PG,
    PH,
    PK,
    PL,
    PM,
    PR,
    PS,
    PT,
    PW,
    PY,
    QA,
    RE,
    RO,
    RS,
    RU,
    RW,
    SA,
    SB,
    SC,
    SD,
    SE,
    SG,
    SH,
    SI,
    SJ,
    SK,
    SL,
    SM,
    SN,
    SO,
    SR,
    SS,
    ST,
    SV,
    SX,
    SY,
    SZ,
    TA,
    TC,
    TD,
    TG,
    TH,
    TJ,
    TK,
    TL,
    TM,
    TN,
    TO,
    TR,
    TT,
    TV,
    TW,
    TZ,
    UA,
    UG,
    US,
    UY,
    UZ,
    VA,
    VC,
    VE,
    VG,
    VI,
    VN,
    VU,
    WF,
    WS,
    XK,
    YE,
    YT,
    ZA,
    ZM,
    ZW,
}

/// The canonical two-letter code of a territory identifier, as a
/// sequence of characters.
pub open spec fn id_text(id: Id) -> Seq<char> {
    match id {
        Id::AC => seq!['A', 'C'],
        Id::AD => seq!['A', 'D'],
        Id::AE => seq!['A', 'E'],
        Id::AF => seq!['A', 'F'],
        Id::AG => seq!['A', 'G'],
        Id::AI => seq!['A', 'I'],
        Id::AL => seq!['A', 'L'],
        Id::AM => seq!['A', 'M'],
        Id::AO => seq!['A', 'O'],
        Id::AR => seq!['A', 'R'],
        Id::AS => seq!['A', 'S'],
        Id::AT => seq!['A', 'T'],
        Id::AU => seq!['A', 'U'],
        Id::AW => seq!['A', 'W'],
        Id::AX => seq!['A', 'X'],
        Id::AZ => seq!['A', 'Z'],
        Id::BA => seq!['B', 'A'],
        Id::BB => seq!['B', 'B'],
        Id::BD => seq!['B', 'D'],
        Id::BE => seq!['B', 'E'],
        Id::BF => seq!['B', 'F'],
        Id::BG => seq!['B', 'G'],
        Id::BH => seq!['B', 'H'],
        Id::BI => seq!['B', 'I'],
        Id::BJ => seq!['B', 'J'],
        Id::BL => seq!['B', 'L'],
        Id::BM => seq!['B', 'M'],
        Id::BN => seq!['B', 'N'],
        Id::BO => seq!['B', 'O'],
        Id::BQ => seq!['B', 'Q'],
        Id::BR => seq!['B', 'R'],
        Id::BS => seq!['B', 'S'],
        Id::BT => seq!['B', 'T'],
        Id::BW => seq!['B', 'W'],
        Id::BY => seq!['B', 'Y'],
        Id::BZ => seq!['B', 'Z'],
        Id::CA => seq!['C', 'A'],
        Id::CC => seq!['C', 'C'],
        Id::CD => seq!['C', 'D'],
        Id::CF => seq!['C', 'F'],
        Id::CG => seq!['C', 'G'],
        Id::CH => seq!['C', 'H'],
        Id::CI => seq!['C', 'I'],
        Id::CK => seq!['C', 'K'],
        Id::CL => seq!['C', 'L'],
        Id::CM => seq!['C', 'M'],
        Id::CN => seq!['C', 'N'],
        Id::CO => seq!['C', 'O'],
        Id::CR => seq!['C', 'R'],
        Id::CU => seq!['C', 'U'],
        Id::CV => seq!['C', 'V'],
        Id::CW => seq!['C', 'W'],
        Id::CX => seq!['C', 'X'],
        Id::CY => seq!['C', 'Y'],
        Id::CZ => seq!['C', 'Z'],
        Id::DE => seq!['D', 'E'],
        Id::DJ => seq!['D', 'J'],
        Id::DK => seq!['D', 'K'],
        Id::DM => seq!['D', 'M'],
        Id::DO => seq!['D', 'O'],
        Id::DZ => seq!['D', 'Z'],
        Id::EC => seq!['E', 'C'],
        Id::EE => seq!['E', 'E'],
        Id::EG => seq!['E', 'G'],
        Id::EH => seq!['E', 'H'],
        Id::ER => seq!['E', 'R'],
        Id::ES => seq!['E', 'S'],
        Id::ET => seq!['E', 'T'],
        Id::FI => seq!['F', 'I'],
        Id::FJ => seq!['F', 'J'],
        Id::FK => seq!['F', 'K'],
        Id::FM => seq!['F', 'M'],
        Id::FO => seq!['F', 'O'],
        Id::FR => seq!['F', 'R'],
        Id::GA => seq!['G', 'A'],
        Id::GB => seq!['G', 'B'],
        Id::GD => seq!['G', 'D'],
        Id::GE => seq!['G', 'E'],
        Id::GF => seq!['G', 'F'],
        Id::GG => seq!['G', 'G'],
        Id::GH => seq!['G', 'H'],
        Id::GI => seq!['G', 'I'],
        Id::GL => seq!['G', 'L'],
        Id::GM => seq!['G', 'M'],
        Id::GN => seq!['G', 'N'],
        Id::GP => seq!['G', 'P'],
        Id::GQ => seq!['G', 'Q'],
        Id::GR => seq!['G', 'R'],
        Id::GT => seq!['G', 'T'],
        Id::GU => seq!['G', 'U'],
        Id::GW => seq!['G', 'W'],
        Id::GY => seq!['G', 'Y'],
        Id::HK => seq!['H', 'K'],
        Id::HN => seq!['H', 'N'],
        Id::HR => seq!['H', 'R'],
        Id::HT => seq!['H', 'T'],
        Id::HU => seq!['H', 'U'],
        Id::ID => seq!['I', 'D'],
        Id::IE => seq!['I', 'E'],
        Id::IL => seq!['I', 'L'],
        Id::IM => seq!['I', 'M'],
        Id::IN => seq!['I', 'N'],
        Id::IO => seq!['I', 'O'],
        Id::IQ => seq!['I', 'Q'],
        Id::IR => seq!['I', 'R'],
        Id::IS => seq!['I', 'S'],
        Id::IT => seq!['I', 'T'],
        Id::JE => seq!['J', 'E'],
        Id::JM => seq!['J', 'M'],
        Id::JO => seq!['J', 'O'],
        Id::JP => seq!['J', 'P'],
        Id::KE => seq!['K', 'E'],
        Id::KG => seq!['K', 'G'],
        Id::KH => seq!['K', 'H'],
        Id::KI => seq!['K', 'I'],
        Id::KM => seq!['K', 'M'],
        Id::KN => seq!['K', 'N'],
        Id::KP => seq!['K', 'P'],
        Id::KR => seq!['K', 'R'],
        Id::KW => seq!['K', 'W'],
        Id::KY => seq!['K', 'Y'],
        Id::KZ => seq!['K', 'Z'],
        Id::LA => seq!['L', 'A'],
        Id::LB => seq!['L', 'B'],
        Id::LC => seq!['L', 'C'],
        Id::LI => seq!['L', 'I'],
        Id::LK => seq!['L', 'K'],
        Id::LR => seq!['L', 'R'],
        Id::LS => seq!['L', 'S'],
        Id::LT => seq!['L', 'T'],
        Id::LU => seq!['L', 'U'],
        Id::LV => seq!['L', 'V'],
        Id::LY => seq!['L', 'Y'],
        Id::MA => seq!['M', 'A'],
        Id::MC => seq!['M', 'C'],
        Id::MD => seq!['M', 'D'],
        Id::ME => seq!['M', 'E'],
        Id::MF => seq!['M', 'F'],
        Id::MG => seq!['M', 'G'],
        Id::MH => seq!['M', 'H'],
        Id::MK => seq!['M', 'K'],
        Id::ML => seq!['M', 'L'],
        Id::MM => seq!['M', 'M'],
        Id::MN => seq!['M', 'N'],
        Id::MO => seq!['M', 'O'],
        Id::MP => seq!['M', 'P'],
        Id::MQ => seq!['M', 'Q'],
        Id::MR => seq!['M', 'R'],
        Id::MS => seq!['M', 'S'],
        Id::MT => seq!['M', 'T'],
        Id::MU => seq!['M', 'U'],
        Id::MV => seq!['M', 'V'],
        Id::MW => seq!['M', 'W'],
        Id::MX => seq!['M', 'X'],
        Id::MY => seq!['M', 'Y'],
        Id::MZ => seq!['M', 'Z'],
        Id::NA => seq!['N', 'A'],
        Id::NC => seq!['N', 'C'],
        Id::NE => seq!['N', 'E'],
        Id::NF => seq!['N', 'F'],
        Id::NG => seq!['N', 'G'],
        Id::NI => seq!['N', 'I'],
        Id::NL => seq!['N', 'L'],
        Id::NO => seq!['N', 'O'],
        Id::NP => seq!['N', 'P'],
        Id::NR => seq!['N', 'R'],
        Id::NU => seq!['N', 'U'],
        Id::NZ => seq!['N', 'Z'],
        Id::OM => seq!['O', 'M'],
        Id::PA => seq!['P', 'A'],
        Id::PE => seq!['P', 'E'],
        Id::PF => seq!['P', 'F'],
        Id::PG => seq!['P', 'G'],
        Id::PH => seq!['P', 'H'],
        Id::PK => seq!['P', 'K'],
        Id::PL => seq!['P', 'L'],
        Id::PM => seq!['P', 'M'],
        Id::PR => seq!['P', 'R'],
        Id::PS => seq!['P', 'S'],
        Id::PT => seq!['P', 'T'],
        Id::PW => seq!['P', 'W'],
        Id::PY => seq!['P', 'Y'],
        Id::QA => seq!['Q', 'A'],
        Id::RE => seq!['R', 'E'],
        Id::RO => seq!['R', 'O'],
        Id::RS => seq!['R', 'S'],
        Id::RU => seq!['R', 'U'],
        Id::RW => seq!['R', 'W'],
        Id::SA => seq!['S', 'A'],
        Id::SB => seq!['S', 'B'],
        Id::SC => seq!['S', 'C'],
        Id::SD => seq!['S', 'D'],
        Id::SE => seq!['S', 'E'],
        Id::SG => seq!['S', 'G'],
        Id::SH => seq!['S', 'H'],
        Id::SI => seq!['S', 'I'],
        Id::SJ => seq!['S', 'J'],
        Id::SK => seq!['S', 'K'],
        Id::SL => seq!['S', 'L'],
        Id::SM => seq!['S', 'M'],
        Id::SN => seq!['S', 'N'],
        Id::SO => seq!['S', 'O'],
        Id::SR => seq!['S', 'R'],
        Id::SS => seq!['S', 'S'],
        Id::ST => seq!['S', 'T'],
        Id::SV => seq!['S', 'V'],
        Id::SX => seq!['S', 'X'],
        Id::SY => seq!['S', 'Y'],
        Id::SZ => seq!['S', 'Z'],
        Id::TA => seq!['T', 'A'],
        Id::TC => seq!['T', 'C'],
        Id::TD => seq!['T', 'D'],
        Id::TG => seq!['T', 'G'],
        Id::TH => seq!['T', 'H'],
        Id::TJ => seq!['T', 'J'],
        Id::TK => seq!['T', 'K'],
        Id::TL => seq!['T', 'L'],
        Id::TM => seq!['T', 'M'],
        Id::TN => seq!['T', 'N'],
        Id::TO => seq!['T', 'O'],
        Id::TR => seq!['T', 'R'],
        Id::TT => seq!['T', 'T'],
        Id::TV => seq!['T', 'V'],
        Id::TW => seq!['T', 'W'],
        Id::TZ => seq!['T', 'Z'],
        Id::UA => seq!['U', 'A'],
        Id::UG => seq!['U', 'G'],
        Id::US => seq!['U', 'S'],
        Id::UY => seq!['U', 'Y'],
        Id::UZ => seq!['U', 'Z'],
        Id::VA => seq!['V', 'A'],
        Id::VC => seq!['V', 'C'],
        Id::VE => seq!['V', 'E'],
        Id::VG => seq!['V', 'G'],
        Id::VI => seq!['V', 'I'],
        Id::VN => seq!['V', 'N'],
        Id::VU => seq!['V', 'U'],
        Id::WF => seq!['W', 'F'],
        Id::WS => seq!['W', 'S'],
        Id::XK => seq!['X', 'K'],
        Id::YE => seq!['Y', 'E'],
        Id::YT => seq!['Y', 'T'],
        Id::ZA => seq!['Z', 'A'],
        Id::ZM => seq!['Z', 'M'],
        Id::ZW => seq!['Z', 'W'],
    }
}

/// The territory identifier whose canonical code is the two characters
/// `c0` then `c1`, if there is one.
pub open spec fn id_from_pair(c0: char, c1: char) -> Option<Id> {
    if c0 == 'A' {
        if c1 == 'C' {
            Some(Id::AC)
        } else if c1 == 'D' {
            Some(Id::AD)
        } else if c1 == 'E' {
            Some(Id::AE)
        } else if c1 == 'F' {
            Some(Id::AF)
        } else if c1 == 'G' {
            Some(Id::AG)
        } else if c1 == 'I' {
            Some(Id::AI)
        } else if c1 == 'L' {
            Some(Id::AL)
        } else if c1 == 'M' {
            Some(Id::AM)
        } else if c1 == 'O' {
            Some(Id::AO)
        } else if c1 == 'R' {
            Some(Id::AR)
        } else if c1 == 'S' {
            Some(Id::AS)
        } else if c1 == 'T' {
            Some(Id::AT)
        } else if c1 == 'U' {
            Some(Id::AU)
        } else if c1 == 'W' {
            Some(Id::AW)
        } else if c1 == 'X' {
            Some(Id::AX)
        } else if c1 == 'Z' {
            Some(Id::AZ)
        } else {
            None
        }
    } else if c0 == 'B' {
        if c1 == 'A' {
            Some(Id::BA)
        } else if c1 == 'B' {
            Some(Id::BB)
        } else if c1 == 'D' {
            Some(Id::BD)
        } else if c1 == 'E' {
            Some(Id::BE)
        } else if c1 == 'F' {
            Some(Id::BF)
        } else if c1 == 'G' {
            Some(Id::BG)
        } else if c1 == 'H' {
            Some(Id::BH)
        } else if c1 == 'I' {
            Some(Id::BI)
        } else if c1 == 'J' {
            Some(Id::BJ)
        } else if c1 == 'L' {
            Some(Id::BL)
        } else if c1 == 'M' {
            Some(Id::BM)
        } else if c1 == 'N' {
            Some(Id::BN)
        } else if c1 == 'O' {
            Some(Id::BO)
        } else if c1 == 'Q' {
            Some(Id::BQ)
        } else if c1 == 'R' {
            Some(Id::BR)
        } else if c1 == 'S' {
            Some(Id::BS)
        } else if c1 == 'T' {
            Some(Id::BT)
        } else if c1 == 'W' {
            Some(Id::BW)
        } else if c1 == 'Y' {
            Some(Id::BY)
        } else if c1 == 'Z' {
            Some(Id::BZ)
        } else {
            None
        }
    } else if c0 == 'C' {
        if c1 == 'A' {
            Some(Id::CA)
        } else if c1 == 'C' {
            Some(Id::CC)
        } else if c1 == 'D' {
            Some(Id::CD)
        } else if c1 == 'F' {
            Some(Id::CF)
        } else if c1 == 'G' {
            Some(Id::CG)
        } else if c1 == 'H' {
            Some(Id::CH)
        } else if c1 == 'I' {
            Some(Id::CI)
        } else if c1 == 'K' {
            Some(Id::CK)
        } else if c1 == 'L' {
            Some(Id::CL)
        } else if c1 == 'M' {
            Some(Id::CM)
        } else if c1 == 'N' {
            Some(Id::CN)
        } else if c1 == 'O' {
            Some(Id::CO)
        } else if c1 == 'R' {
            Some(Id::CR)
        } else if c1 == 'U' {
            Some(Id::CU)
        } else if c1 == 'V' {
            Some(Id::CV)
        } else if c1 == 'W' {
            Some(Id::CW)
        } else if c1 == 'X' {
            Some(Id::CX)
        } else if c1 == 'Y' {
            Some(Id::CY)
        } else if c1 == 'Z' {
            Some(Id::CZ)
        } else {
            None
        }
    } else if c0 == 'D' {
        if c1 == 'E' {
            Some(Id::DE)
        } else if c1 == 'J' {
            Some(Id::DJ)
        } else if c1 == 'K' {
            Some(Id::DK)
        } else if c1 == 'M' {
            Some(Id::DM)
        } else if c1 == 'O' {
            Some(Id::DO)
        } else if c1 == 'Z' {
            Some(Id::DZ)
        } else {
            None
        }
    } else if c0 == 'E' {
        if c1 == 'C' {
            Some(Id::EC)
        } else if c1 == 'E' {
            Some(Id::EE)
        } else if c1 == 'G' {
            Some(Id::EG)
        } else if c1 == 'H' {
            Some(Id::EH)
        } else if c1 == 'R' {
            Some(Id::ER)
        } else if c1 == 'S' {
            Some(Id::ES)
        } else if c1 == 'T' {
            Some(Id::ET)
        } else {
            None
        }
    } else if c0 == 'F' {
        if c1 == 'I' {
            Some(Id::FI)
        } else if c1 == 'J' {
            Some(Id::FJ)
        } else if c1 == 'K' {
            Some(Id::FK)
        } else if c1 == 'M' {
            Some(Id::FM)
        } else if c1 == 'O' {
            Some(Id::FO)
        } else if c1 == 'R' {
            Some(Id::FR)
        } else {
            None
        }
    } else if c0 == 'G' {
        if c1 == 'A' {
            Some(Id::GA)
        } else if c1 == 'B' {
            Some(Id::GB)
        } else if c1 == 'D' {
            Some(Id::GD)
        } else if c1 == 'E' {
            Some(Id::GE)
        } else if c1 == 'F' {
            Some(Id::GF)
        } else if c1 == 'G' {
            Some(Id::GG)
        } else if c1 == 'H' {
            Some(Id::GH)
        } else if c1 == 'I' {
            Some(Id::GI)
        } else if c1 == 'L' {
            Some(Id::GL)
        } else if c1 == 'M' {
            Some(Id::GM)
        } else if c1 == 'N' {
            Some(Id::GN)
        } else if c1 == 'P' {
            Some(Id::GP)
        } else if c1 == 'Q' {
            Some(Id::GQ)
        } else if c1 == 'R' {
            Some(Id::GR)
        } else if c1 == 'T' {
            Some(Id::GT)
        } else if c1 == 'U' {
            Some(Id::GU)
        } else if c1 == 'W' {
            Some(Id::GW)
        } else if c1 == 'Y' {
            Some(Id::GY)
        } else {
            None
        }
    } else if c0 == 'H' {
        if c1 == 'K' {
            Some(Id::HK)
        } else if c1 == 'N' {
            Some(Id::HN)
        } else if c1 == 'R' {
            Some(Id::HR)
        } else if c1 == 'T' {
            Some(Id::HT)
        } else if c1 == 'U' {
            Some(Id::HU)
        } else {
            None
        }
    } else if c0 == 'I' {
        if c1 == 'D' {
            Some(Id::ID)
        } else if c1 == 'E' {
            Some(Id::IE)
        } else if c1 == 'L' {
            Some(Id::IL)
        } else if c1 == 'M' {
            Some(Id::IM)
        } else if c1 == 'N' {
            Some(Id::IN)
        } else if c1 == 'O' {
            Some(Id::IO)
        } else if c1 == 'Q' {
            Some(Id::IQ)
        } else if c1 == 'R' {
            Some(Id::IR)
        } else if c1 == 'S' {
            Some(Id::IS)
        } else if c1 == 'T' {
            Some(Id::IT)
        } else {
            None
        }
    } else if c0 == 'J' {
        if c1 == 'E' {
            Some(Id::JE)
        } else if c1 == 'M' {
            Some(Id::JM)
        } else if c1 == 'O' {
            Some(Id::JO)
        } else if c1 == 'P' {
            Some(Id::JP)
        } else {
            None
        }
    } else if c0 == 'K' {
        if c1 == 'E' {
            Some(Id::KE)
        } else if c1 == 'G' {
            Some(Id::KG)
        } else if c1 == 'H' {
            Some(Id::KH)
        } else if c1 == 'I' {
            Some(Id::KI)
        } else if c1 == 'M' {
            Some(Id::KM)
        } else if c1 == 'N' {
            Some(Id::KN)
        } else if c1 == 'P' {
            Some(Id::KP)
        } else if c1 == 'R' {
            Some(Id::KR)
        } else if c1 == 'W' {
            Some(Id::KW)
        } else if c1 == 'Y' {
            Some(Id::KY)
        } else if c1 == 'Z' {
            Some(Id::KZ)
        } else {
            None
        }
    } else if c0 == 'L' {
        if c1 == 'A' {
            Some(Id::LA)
        } else if c1 == 'B' {
            Some(Id::LB)
        } else if c1 == 'C' {
            Some(Id::LC)
        } else if c1 == 'I' {
            Some(Id::LI)
        } else if c1 == 'K' {
            Some(Id::LK)
        } else if c1 == 'R' {
            Some(Id::LR)
        } else if c1 == 'S' {
            Some(Id::LS)
        } else if c1 == 'T' {
            Some(Id::LT)
        } else if c1 == 'U' {
            Some(Id::LU)
        } else if c1 == 'V' {
            Some(Id::LV)
        } else if c1 == 'Y' {
            Some(Id::LY)
        } else {
            None
        }
    } else if c0 == 'M' {
        if c1 == 'A' {
            Some(Id::MA)
        } else if c1 == 'C' {
            Some(Id::MC)
        } else if c1 == 'D' {
            Some(Id::MD)
        } else if c1 == 'E' {
            Some(Id::ME)
        } else if c1 == 'F' {
            Some(Id::MF)
        } else if c1 == 'G' {
            Some(Id::MG)
        } else if c1 == 'H' {
            Some(Id::MH)
        } else if c1 == 'K' {
            Some(Id::MK)
        } else if c1 == 'L' {
            Some(Id::ML)
        } else if c1 == 'M' {
            Some(Id::MM)
        } else if c1 == 'N' {
            Some(Id::MN)
        } else if c1 == 'O' {
            Some(Id::MO)
        } else if c1 == 'P' {
            Some(Id::MP)
        } else if c1 == 'Q' {
            Some(Id::MQ)
        } else if c1 == 'R' {
            Some(Id::MR)
        } else if c1 == 'S' {
            Some(Id::MS)
        } else if c1 == 'T' {
            Some(Id::MT)
        } else if c1 == 'U' {
            Some(Id::MU)
        } else if c1 == 'V' {
            Some(Id::MV)
        } else if c1 == 'W' {
            Some(Id::MW)
        } else if c1 == 'X' {
            Some(Id::MX)
        } else if c1 == 'Y' {
            Some(Id::MY)
        } else if c1 == 'Z' {
            Some(Id::MZ)
        } else {
            None
        }
    } else if c0 == 'N' {
        if c1 == 'A' {
            Some(Id::NA)
        } else if c1 == 'C' {
            Some(Id::NC)
        } else if c1 == 'E' {
            Some(Id::NE)
        } else if c1 == 'F' {
            Some(Id::NF)
        } else if c1 == 'G' {
            Some(Id::NG)
        } else if c1 == 'I' {
            Some(Id::NI)
        } else if c1 == 'L' {
            Some(Id::NL)
        } else if c1 == 'O' {
            Some(Id::NO)
        } else if c1 == 'P' {
            Some(Id::NP)
        } else if c1 == 'R' {
            Some(Id::NR)
        } else if c1 == 'U' {
            Some(Id::NU)
        } else if c1 == 'Z' {
            Some(Id::NZ)
        } else {
            None
        }
    } else if c0 == 'O' {
        if c1 == 'M' {
            Some(Id::OM)
        } else {
            None
        }
    } else if c0 == 'P' {
        if c1 == 'A' {
            Some(Id::PA)
        } else if c1 == 'E' {
            Some(Id::PE)
        } else if c1 == 'F' {
            Some(Id::PF)
        } else if c1 == 'G' {
            Some(Id::PG)
        } else if c1 == 'H' {
            Some(Id::PH)
        } else if c1 == 'K' {
            Some(Id::PK)
        } else if c1 == 'L' {
            Some(Id::PL)
        } else if c1 == 'M' {
            Some(Id::PM)
        } else if c1 == 'R' {
            Some(Id::PR)
        } else if c1 == 'S' {
            Some(Id::PS)
        } else if c1 == 'T' {
            Some(Id::PT)
        } else if c1 == 'W' {
            Some(Id::PW)
        } else if c1 == 'Y' {
            Some(Id::PY)
        } else {
            None
        }
    } else if c0 == 'Q' {
        if c1 == 'A' {
            Some(Id::QA)
        } else {
            None
        }
    } else if c0 == 'R' {
        if c1 == 'E' {
            Some(Id::RE)
        } else if c1 == 'O' {
            Some(Id::RO)
        } else if c1 == 'S' {
            Some(Id::RS)
        } else if c1 == 'U' {
            Some(Id::RU)
        } else if c1 == 'W' {
            Some(Id::RW)
        } else {
            None
        }
    } else if c0 == 'S' {
        if c1 == 'A' {
            Some(Id::SA)
        } else if c1 == 'B' {
            Some(Id::SB)
        } else if c1 == 'C' {
            Some(Id::SC)
        } else if c1 == 'D' {
            Some(Id::SD)
        } else if c1 == 'E' {
            Some(Id::SE)
        } else if c1 == 'G' {
            Some(Id::SG)
        } else if c1 == 'H' {
            Some(Id::SH)
        } else if c1 == 'I' {
            Some(Id::SI)
        } else if c1 == 'J' {
            Some(Id::SJ)
        } else if c1 == 'K' {
            Some(Id::SK)
        } else if c1 == 'L' {
            Some(Id::SL)
        } else if c1 == 'M' {
            Some(Id::SM)
        } else if c1 == 'N' {
            Some(Id::SN)
        } else if c1 == 'O' {
            Some(Id::SO)
        } else if c1 == 'R' {
            Some(Id::SR)
        } else if c1 == 'S' {
            Some(Id::SS)
        } else if c1 == 'T' {
            Some(Id::ST)
        } else if c1 == 'V' {
            Some(Id::SV)
        } else if c1 == 'X' {
            Some(Id::SX)
        } else if c1 == 'Y' {
            Some(Id::SY)
        } else if c1 == 'Z' {
            Some(Id::SZ)
        } else {
            None
        }
    } else if c0 == 'T' {
        if c1 == 'A' {
            Some(Id::TA)
        } else if c1 == 'C' {
            Some(Id::TC)
        } else if c1 == 'D' {
            Some(Id::TD)
        } else if c1 == 'G' {
            Some(Id::TG)
        } else if c1 == 'H' {
            Some(Id::TH)
        } else if c1 == 'J' {
            Some(Id::TJ)
        } else if c1 == 'K' {
            Some(Id::TK)
        } else if c1 == 'L' {
            Some(Id::TL)
        } else if c1 == 'M' {
            Some(Id::TM)
        } else if c1 == 'N' {
            Some(Id::TN)
        } else if c1 == 'O' {
            Some(Id::TO)
        } else if c1 == 'R' {
            Some(Id::TR)
        } else if c1 == 'T' {
            Some(Id::TT)
        } else if c1 == 'V' {
            Some(Id::TV)
        } else if c1 == 'W' {
            Some(Id::TW)
        } else if c1 == 'Z' {
            Some(Id::TZ)
        } else {
            None
        }
    } else if c0 == 'U' {
        if c1 == 'A' {
            Some(Id::UA)
        } else if c1 == 'G' {
            Some(Id::UG)
        } else if c1 == 'S' {
            Some(Id::US)
        } else if c1 == 'Y' {
            Some(Id::UY)
        } else if c1 == 'Z' {
            Some(Id::UZ)
        } else {
            None
        }
    } else if c0 == 'V' {
        if c1 == 'A' {
            Some(Id::VA)
        } else if c1 == 'C' {
            Some(Id::VC)
        } else if c1 == 'E' {
            Some(Id::VE)
        } else if c1 == 'G' {
            Some(Id::VG)
        } else if c1 == 'I' {
            Some(Id::VI)
        } else if c1 == 'N' {
            Some(Id::VN)
        } else if c1 == 'U' {
            Some(Id::VU)
        } else {
            None
        }
    } else if c0 == 'W' {
        if c1 == 'F' {
            Some(Id::WF)
        } else if c1 == 'S' {
            Some(Id::WS)
        } else {
            None
        }
    } else if c0 == 'X' {
        if c1 == 'K' {
            Some(Id::XK)
        } else {
            None
        }
    } else if c0 == 'Y' {
        if c1 == 'E' {
            Some(Id::YE)
        } else if c1 == 'T' {
            Some(Id::YT)
        } else {
            None
        }
    } else if c0 == 'Z' {
        if c1 == 'A' {
            Some(Id::ZA)
        } else if c1 == 'M' {
            Some(Id::ZM)
        } else if c1 == 'W' {
            Some(Id::ZW)
        } else {
            None
        }
    } else {
        None
    }
}

/// The territory identifier whose canonical code is exactly the text `s`,
/// if there is one.  Text of any other length, or with any other
/// characters, names no identifier.
pub open spec fn id_from_text(s: Seq<char>) -> Option<Id> {
    if s.len() == 2 {
        id_from_pair(s[0], s[1])
    } else {
        None
    }
}

impl Id {
    /// Parses a territory identifier from its canonical uppercase
    /// two-letter code.  The match is exact and case-sensitive: any other
    /// text fails with `InvalidCountryCode`, without normalization.
    pub fn from_str(text: &str) -> (r: Result<Id, Parse>)
        ensures
            match r {
                Ok(id) => id_from_text(text@) == Some(id) && id_text(id) == text@,
                Err(e) => id_from_text(text@) is None && e == Parse::InvalidCountryCode,
            },
    {
        if text.unicode_len() != 2 {
            return Err(Parse::InvalidCountryCode);
        }
        let c0 = text.get_char(0);
        let c1 = text.get_char(1);
        if c0 == 'A' {
            if c1 == 'C' {
                proof { assert(text@ =~= id_text(Id::AC)); }
                Ok(Id::AC)
            } else if c1 == 'D' {
                proof { assert(text@ =~= id_text(Id::AD)); }
                Ok(Id::AD)
            } else if c1 == 'E' {
                proof { assert(text@ =~= id_text(Id::AE)); }
                Ok(Id::AE)
            } else if c1 == 'F' {
                proof { assert(text@ =~= id_text(Id::AF)); }
                Ok(Id::AF)
            } else if c1 == 'G' {
                proof { assert(text@ =~= id_text(Id::AG)); }
                Ok(Id::AG)
            } else if c1 == 'I' {
                proof { assert(text@ =~= id_text(Id::AI)); }
                Ok(Id::AI)
            } else if c1 == 'L' {
                proof { assert(text@ =~= id_text(Id::AL)); }
                Ok(Id::AL)
            } else if c1 == 'M' {
                proof { assert(text@ =~= id_text(Id::AM)); }
                Ok(Id::AM)
            } else if c1 == 'O' {
                proof { assert(text@ =~= id_text(Id::AO)); }
                Ok(Id::AO)
            } else if c1 == 'R' {
                proof { assert(text@ =~= id_text(Id::AR)); }
                Ok(Id::AR)
            } else if c1 == 'S' {
                proof { assert(text@ =~= id_text(Id::AS)); }
                Ok(Id::AS)
            } else if c1 == 'T' {
                proof { assert(text@ =~= id_text(Id::AT)); }
                Ok(Id::AT)
            } else if c1 == 'U' {
                proof { assert(text@ =~= id_text(Id::AU)); }
                Ok(Id::AU)
            } else if c1 == 'W' {
                proof { assert(text@ =~= id_text(Id::AW)); }
                Ok(Id::AW)
            } else if c1 == 'X' {
                proof { assert(text@ =~= id_text(Id::AX)); }
                Ok(Id::AX)
            } else if c1 == 'Z' {
                proof { assert(text@ =~= id_text(Id::AZ)); }
                Ok(Id::AZ)
            } else {
                Err(Parse::InvalidCountryCode)
            }
        } else if c0 == 'B' {
            if c1 == 'A' {
                proof { assert(text@ =~= id_text(Id::BA)); }
                Ok(Id::BA)
            } else if c1 == 'B' {
                proof { assert(text@ =~= id_text(Id::BB)); }
                Ok(Id::BB)
            } else if c1 == 'D' {
                proof { assert(text@ =~= id_text(Id::BD)); }
                Ok(Id::BD)
            } else if c1 == 'E' {
                proof { assert(text@ =~= id_text(Id::BE)); }
                Ok(Id::BE)
            } else if c1 == 'F' {
                proof { assert(text@ =~= id_text(Id::BF)); }
                Ok(Id::BF)
            } else if c1 == 'G' {
                proof { assert(text@ =~= id_text(Id::BG)); }
                Ok(Id::BG)
            } else if c1 == 'H' {
                proof { assert(text@ =~= id_text(Id::BH)); }
                Ok(Id::BH)
            } else if c1 == 'I' {
                proof { assert(text@ =~= id_text(Id::BI)); }
                Ok(Id::BI)
            } else if c1 == 'J' {
                proof { assert(text@ =~= id_text(Id::BJ)); }
                Ok(Id::BJ)
            } else if c1 == 'L' {
                proof { assert(text@ =~= id_text(Id::BL)); }
                Ok(Id::BL)
            } else if c1 == 'M' {
                proof { assert(text@ =~= id_text(Id::BM)); }
                Ok(Id::BM)
            } else if c1 == 'N' {
                proof { assert(text@ =~= id_text(Id::BN)); }
                Ok(Id::BN)
            } else if c1 == 'O' {
                proof { assert(text@ =~= id_text(Id::BO)); }
                Ok(Id::BO)
            } else if c1 == 'Q' {
                proof { assert(text@ =~= id_text(Id::BQ)); }
                Ok(Id::BQ)
            } else if c1 == 'R' {
                proof { assert(text@ =~= id_text(Id::BR)); }
                Ok(Id::BR)
            } else if c1 == 'S' {
                proof { assert(text@ =~= id_text(Id::BS)); }
                Ok(Id::BS)
            } else if c1 == 'T' {
                proof { assert(text@ =~= id_text(Id::BT)); }
                Ok(Id::BT)
            } else if c1 == 'W' {
                proof { assert(text@ =~= id_text(Id::BW)); }
                Ok(Id::BW)
            } else if c1 == 'Y' {
                proof { assert(text@ =~= id_text(Id::BY)); }
                Ok(Id::BY)
            } else if c1 == 'Z' {
                proof { assert(text@ =~= id_text(Id::BZ)); }
                Ok(Id::BZ)
            } else {
                Err(Parse::InvalidCountryCode)
            }
        } else if c0 == 'C' {
            if c1 == 'A' {
                proof { assert(text@ =~= id_text(Id::CA)); }
                Ok(Id::CA)
            } else if c1 == 'C' {
                proof { assert(text@ =~= id_text(Id::CC)); }
                Ok(Id::CC)
            } else if c1 == 'D' {
                proof { assert(text@ =~= id_text(Id::CD)); }
                Ok(Id::CD)
            } else if c1 == 'F' {
                proof { assert(text@ =~= id_text(Id::CF)); }
                Ok(Id::CF)
            } else if c1 == 'G' {
                proof { assert(text@ =~= id_text(Id::CG)); }
                Ok(Id::CG)
            } else if c1 == 'H' {
                proof { assert(text@ =~= id_text(Id::CH)); }
                Ok(Id::CH)
            } else if c1 == 'I' {
                proof { assert(text@ =~= id_text(Id::CI)); }
                Ok(Id::CI)
            } else if c1 == 'K' {
                proof { assert(text@ =~= id_text(Id::CK)); }
                Ok(Id::CK)
            } else if c1 == 'L' {
                proof { assert(text@ =~= id_text(Id::CL)); }
                Ok(Id::CL)
            } else if c1 == 'M' {
                proof { assert(text@ =~= id_text(Id::CM)); }
                Ok(Id::CM)
            } else if c1 == 'N' {
                proof { assert(text@ =~= id_text(Id::CN)); }
                Ok(Id::CN)
            } else if c1 == 'O' {
                proof { assert(text@ =~= id_text(Id::CO)); }
                Ok(Id::CO)
            } else if c1 == 'R' {
                proof { assert(text@ =~= id_text(Id::CR)); }
                Ok(Id::CR)
            } else if c1 == 'U' {
                proof { assert(text@ =~= id_text(Id::CU)); }
                Ok(Id::CU)
            } else if c1 == 'V' {
                proof { assert(text@ =~= id_text(Id::CV)); }
                Ok(Id::CV)
            } else if c1 == 'W' {
                proof { assert(text@ =~= id_text(Id::CW)); }
                Ok(Id::CW)
            } else if c1 == 'X' {
                proof { assert(text@ =~= id_text(Id::CX)); }
                Ok(Id::CX)
            } else if c1 == 'Y' {
                proof { assert(text@ =~= id_text(Id::CY)); }
                Ok(Id::CY)
            } else if c1 == 'Z' {
                proof { assert(text@ =~= id_text(Id::CZ)); }
                Ok(Id::CZ)
            } else {
                Err(Parse::InvalidCountryCode)
            }
        } else if c0 == 'D' {
            if c1 == 'E' {
                proof { assert(text@ =~= id_text(Id::DE)); }
                Ok(Id::DE)
            } else if c1 == 'J' {
                proof { assert(text@ =~= id_text(Id::DJ)); }
                Ok(Id::DJ)
            } else if c1 == 'K' {
                proof { assert(text@ =~= id_text(Id::DK)); }
                Ok(Id::DK)
            } else if c1 == 'M' {
                proof { assert(text@ =~= id_text(Id::DM)); }
                Ok(Id::DM)
            } else if c1 == 'O' {
                proof { assert(text@ =~= id_text(Id::DO)); }
                Ok(Id::DO)
            } else if c1 == 'Z' {
                proof { assert(text@ =~= id_text(Id::DZ)); }
                Ok(Id::DZ)
            } else {
                Err(Parse::InvalidCountryCode)
            }
        } else if c0 == 'E' {
            if c1 == 'C' {
                proof { assert(text@ =~= id_text(Id::EC)); }
                Ok(Id::EC)
            } else if c1 == 'E' {
                proof { assert(text@ =~= id_text(Id::EE)); }
                Ok(Id::EE)
            } else if c1 == 'G' {
                proof { assert(text@ =~= id_text(Id::EG)); }
                Ok(Id::EG)
            } else if c1 == 'H' {
                proof { assert(text@ =~= id_text(Id::EH)); }
                Ok(Id::EH)
            } else if c1 == 'R' {
                proof { assert(text@ =~= id_text(Id::ER)); }
                Ok(Id::ER)
            } else if c1 == 'S' {
                proof { assert(text@ =~= id_text(Id::ES)); }
                Ok(Id::ES)
            } else if c1 == 'T' {
                proof { assert(text@ =~= id_text(Id::ET)); }
                Ok(Id::ET)
            } else {
                Err(Parse::InvalidCountryCode)
            }
        } else if c0 == 'F' {
            if c1 == 'I' {
                proof { assert(text@ =~= id_text(Id::FI)); }
                Ok(Id::FI)
            } else if c1 == 'J' {
                proof { assert(text@ =~= id_text(Id::FJ)); }
                Ok(Id::FJ)
            } else if c1 == 'K' {
                proof { assert(text@ =~= id_text(Id::FK)); }
                Ok(Id::FK)
            } else if c1 == 'M' {
                proof { assert(text@ =~= id_text(Id::FM)); }
                Ok(Id::FM)
            } else if c1 == 'O' {
                proof { assert(text@ =~= id_text(Id::FO)); }
                Ok(Id::FO)
            } else if c1 == 'R' {
                proof { assert(text@ =~= id_text(Id::FR)); }
                Ok(Id::FR)
            } else {
                Err(Parse::InvalidCountryCode)
            }
        } else if c0 == 'G' {
            if c1 == 'A' {
                proof { assert(text@ =~= id_text(Id::GA)); }
                Ok(Id::GA)
            } else if c1 == 'B' {
                proof { assert(text@ =~= id_text(Id::GB)); }
                Ok(Id::GB)
            } else if c1 == 'D' {
                proof { assert(text@ =~= id_text(Id::GD)); }
                Ok(Id::GD)
            } else if c1 == 'E' {
                proof { assert(text@ =~= id_text(Id::GE)); }
                Ok(Id::GE)
            } else if c1 == 'F' {
                proof { assert(text@ =~= id_text(Id::GF)); }
                Ok(Id::GF)
            } else if c1 == 'G' {
                proof { assert(text@ =~= id_text(Id::GG)); }
                Ok(Id::GG)
            } else if c1 == 'H' {
                proof { assert(text@ =~= id_text(Id::GH)); }
                Ok(Id::GH)
            } else if c1 == 'I' {
                proof { assert(text@ =~= id_text(Id::GI)); }
                Ok(Id::GI)
            } else if c1 == 'L' {
                proof { assert(text@ =~= id_text(Id::GL)); }
                Ok(Id::GL)
            } else if c1 == 'M' {
                proof { assert(text@ =~= id_text(Id::GM)); }
                Ok(Id::GM)
            } else if c1 == 'N' {
                proof { assert(text@ =~= id_text(Id::GN)); }
                Ok(Id::GN)
            } else if c1 == 'P' {
                proof { assert(text@ =~= id_text(Id::GP)); }
                Ok(Id::GP)
            } else if c1 == 'Q' {
                proof { assert(text@ =~= id_text(Id::GQ)); }
                Ok(Id::GQ)
            } else if c1 == 'R' {
                proof { assert(text@ =~= id_text(Id::GR)); }
                Ok(Id::GR)
            } else if c1 == 'T' {
                proof { assert(text@ =~= id_text(Id::GT)); }
                Ok(Id::GT)
            } else if c1 == 'U' {
                proof { assert(text@ =~= id_text(Id::GU)); }
                Ok(Id::GU)
            } else if c1 == 'W' {
                proof { assert(text@ =~= id_text(Id::GW)); }
                Ok(Id::GW)
            } else if c1 == 'Y' {
                proof { assert(text@ =~= id_text(Id::GY)); }
                Ok(Id::GY)
            } else {
                Err(Parse::InvalidCountryCode)
            }
        } else if c0 == 'H' {
            if c1 == 'K' {
                proof { assert(text@ =~= id_text(Id::HK)); }
                Ok(Id::HK)
            } else if c1 == 'N' {
                proof { assert(text@ =~= id_text(Id::HN)); }
                Ok(Id::HN)
            } else if c1 == 'R' {
                proof { assert(text@ =~= id_text(Id::HR)); }
                Ok(Id::HR)
            } else if c1 == 'T' {
                proof { assert(text@ =~= id_text(Id::HT)); }
                Ok(Id::HT)
            } else if c1 == 'U' {
                proof { assert(text@ =~= id_text(Id::HU)); }
                Ok(Id::HU)
            } else {
                Err(Parse::InvalidCountryCode)
            }
        } else if c0 == 'I' {
            if c1 == 'D' {
                proof { assert(text@ =~= id_text(Id::ID)); }
                Ok(Id::ID)
            } else if c1 == 'E' {
                proof { assert(text@ =~= id_text(Id::IE)); }
                Ok(Id::IE)
            } else if c1 == 'L' {
                proof { assert(text@ =~= id_text(Id::IL)); }
                Ok(Id::IL)
            } else if c1 == 'M' {
                proof { assert(text@ =~= id_text(Id::IM)); }
                Ok(Id::IM)
            } else if c1 == 'N' {
                proof { assert(text@ =~= id_text(Id::IN)); }
                Ok(Id::IN)
            } else if c1 == 'O' {
                proof { assert(text@ =~= id_text(Id::IO)); }
                Ok(Id::IO)
            } else if c1 == 'Q' {
                proof { assert(text@ =~= id_text(Id::IQ)); }
                Ok(Id::IQ)
            } else if c1 == 'R' {
                proof { assert(text@ =~= id_text(Id::IR)); }
                Ok(Id::IR)
            } else if c1 == 'S' {
                proof { assert(text@ =~= id_text(Id::IS)); }
                Ok(Id::IS)
            } else if c1 == 'T' {
                proof { assert(text@ =~= id_text(Id::IT)); }
                Ok(Id::IT)
            } else {
                Err(Parse::InvalidCountryCode)
            }
        } else if c0 == 'J' {
            if c1 == 'E' {
                proof { assert(text@ =~= id_text(Id::JE)); }
                Ok(Id::JE)
            } else if c1 == 'M' {
                proof { assert(text@ =~= id_text(Id::JM)); }
                Ok(Id::JM)
            } else if c1 == 'O' {
                proof { assert(text@ =~= id_text(Id::JO)); }
                Ok(Id::JO)
            } else if c1 == 'P' {
                proof { assert(text@ =~= id_text(Id::JP)); }
                Ok(Id::JP)
            } else {
                Err(Parse::InvalidCountryCode)
            }
        } else if c0 == 'K' {
            if c1 == 'E' {
                proof { assert(text@ =~= id_text(Id::KE)); }
                Ok(Id::KE)
            } else if c1 == 'G' {
                proof { assert(text@ =~= id_text(Id::KG)); }
                Ok(Id::KG)
            } else if c1 == 'H' {
                proof { assert(text@ =~= id_text(Id::KH)); }
                Ok(Id::KH)
            } else if c1 == 'I' {
                proof { assert(text@ =~= id_text(Id::KI)); }
                Ok(Id::KI)
            } else if c1 == 'M' {
                proof { assert(text@ =~= id_text(Id::KM)); }
                Ok(Id::KM)
            } else if c1 == 'N' {
                proof { assert(text@ =~= id_text(Id::KN)); }
                Ok(Id::KN)
            } else if c1 == 'P' {
                proof { assert(text@ =~= id_text(Id::KP)); }
                Ok(Id::KP)
            } else if c1 == 'R' {
                proof { assert(text@ =~= id_text(Id::KR)); }
                Ok(Id::KR)
            } else if c1 == 'W' {
                proof { assert(text@ =~= id_text(Id::KW)); }
                Ok(Id::KW)
            } else if c1 == 'Y' {
                proof { assert(text@ =~= id_text(Id::KY)); }
                Ok(Id::KY)
            } else if c1 == 'Z' {
                proof { assert(text@ =~= id_text(Id::KZ)); }
                Ok(Id::KZ)
            } else {
                Err(Parse::InvalidCountryCode)
            }
        } else if c0 == 'L' {
            if c1 == 'A' {
                proof { assert(text@ =~= id_text(Id::LA)); }
                Ok(Id::LA)
            } else if c1 == 'B' {
                proof { assert(text@ =~= id_text(Id::LB)); }
                Ok(Id::LB)
            } else if c1 == 'C' {
                proof { assert(text@ =~= id_text(Id::LC)); }
                Ok(Id::LC)
            } else if c1 == 'I' {
                proof { assert(text@ =~= id_text(Id::LI)); }
                Ok(Id::LI)
            } else if c1 == 'K' {
                proof { assert(text@ =~= id_text(Id::LK)); }
                Ok(Id::LK)
            } else if c1 == 'R' {
                proof { assert(text@ =~= id_text(Id::LR)); }
                Ok(Id::LR)
            } else if c1 == 'S' {
                proof { assert(text@ =~= id_text(Id::LS)); }
                Ok(Id::LS)
            } else if c1 == 'T' {
                proof { assert(text@ =~= id_text(Id::LT)); }
                Ok(Id::LT)
            } else if c1 == 'U' {
                proof { assert(text@ =~= id_text(Id::LU)); }
                Ok(Id::LU)
            } else if c1 == 'V' {
                proof { assert(text@ =~= id_text(Id::LV)); }
                Ok(Id::LV)
            } else if c1 == 'Y' {
                proof { assert(text@ =~= id_text(Id::LY)); }
                Ok(Id::LY)
            } else {
                Err(Parse::InvalidCountryCode)
            }
        } else if c0 == 'M' {
            if c1 == 'A' {
                proof { assert(text@ =~= id_text(Id::MA)); }
                Ok(Id::MA)
            } else if c1 == 'C' {
                proof { assert(text@ =~= id_text(Id::MC)); }
                Ok(Id::MC)
            } else if c1 == 'D' {
                proof { assert(text@ =~= id_text(Id::MD)); }
                Ok(Id::MD)
            } else if c1 == 'E' {
                proof { assert(text@ =~= id_text(Id::ME)); }
                Ok(Id::ME)
            } else if c1 == 'F' {
                proof { assert(text@ =~= id_text(Id::MF)); }
                Ok(Id::MF)
            } else if c1 == 'G' {
                proof { assert(text@ =~= id_text(Id::MG)); }
                Ok(Id::MG)
            } else if c1 == 'H' {
                proof { assert(text@ =~= id_text(Id::MH)); }
                Ok(Id::MH)
            } else if c1 == 'K' {
                proof { assert(text@ =~= id_text(Id::MK)); }
                Ok(Id::MK)
            } else if c1 == 'L' {
                proof { assert(text@ =~= id_text(Id::ML)); }
                Ok(Id::ML)
            } else if c1 == 'M' {
                proof { assert(text@ =~= id_text(Id::MM)); }
                Ok(Id::MM)
            } else if c1 == 'N' {
                proof { assert(text@ =~= id_text(Id::MN)); }
                Ok(Id::MN)
            } else if c1 == 'O' {
                proof { assert(text@ =~= id_text(Id::MO)); }
                Ok(Id::MO)
            } else if c1 == 'P' {
                proof { assert(text@ =~= id_text(Id::MP)); }
                Ok(Id::MP)
            } else if c1 == 'Q' {
                proof { assert(text@ =~= id_text(Id::MQ)); }
                Ok(Id::MQ)
            } else if c1 == 'R' {
                proof { assert(text@ =~= id_text(Id::MR)); }
                Ok(Id::MR)
            } else if c1 == 'S' {
                proof { assert(text@ =~= id_text(Id::MS)); }
                Ok(Id::MS)
            } else if c1 == 'T' {
                proof { assert(text@ =~= id_text(Id::MT)); }
                Ok(Id::MT)
            } else if c1 == 'U' {
                proof { assert(text@ =~= id_text(Id::MU)); }
                Ok(Id::MU)
            } else if c1 == 'V' {
                proof { assert(text@ =~= id_text(Id::MV)); }
                Ok(Id::MV)
            } else if c1 == 'W' {
                proof { assert(text@ =~= id_text(Id::MW)); }
                Ok(Id::MW)
            } else if c1 == 'X' {
                proof { assert(text@ =~= id_text(Id::MX)); }
                Ok(Id::MX)
            } else if c1 == 'Y' {
                proof { assert(text@ =~= id_text(Id::MY)); }
                Ok(Id::MY)
            } else if c1 == 'Z' {
                proof { assert(text@ =~= id_text(Id::MZ)); }
                Ok(Id::MZ)
            } else {
                Err(Parse::InvalidCountryCode)
            }
        } else if c0 == 'N' {
            if c1 == 'A' {
                proof { assert(text@ =~= id_text(Id::NA)); }
                Ok(Id::NA)
            } else if c1 == 'C' {
                proof { assert(text@ =~= id_text(Id::NC)); }
                Ok(Id::NC)
            } else if c1 == 'E' {
                proof { assert(text@ =~= id_text(Id::NE)); }
                Ok(Id::NE)
            } else if c1 == 'F' {
                proof { assert(text@ =~= id_text(Id::NF)); }
                Ok(Id::NF)
            } else if c1 == 'G' {
                proof { assert(text@ =~= id_text(Id::NG)); }
                Ok(Id::NG)
            } else if c1 == 'I' {
                proof { assert(text@ =~= id_text(Id::NI)); }
                Ok(Id::NI)
            } else if c1 == 'L' {
                proof { assert(text@ =~= id_text(Id::NL)); }
                Ok(Id::NL)
            } else if c1 == 'O' {
                proof { assert(text@ =~= id_text(Id::NO)); }
                Ok(Id::NO)
            } else if c1 == 'P' {
                proof { assert(text@ =~= id_text(Id::NP)); }
                Ok(Id::NP)
            } else if c1 == 'R' {
                proof { assert(text@ =~= id_text(Id::NR)); }
                Ok(Id::NR)
            } else if c1 == 'U' {
                proof { assert(text@ =~= id_text(Id::NU)); }
                Ok(Id::NU)
            } else if c1 == 'Z' {
                proof { assert(text@ =~= id_text(Id::NZ)); }
                Ok(Id::NZ)
            } else {
                Err(Parse::InvalidCountryCode)
            }
        } else if c0 == 'O' {
            if c1 == 'M' {
                proof { assert(text@ =~= id_text(Id::OM)); }
                Ok(Id::OM)
            } else {
                Err(Parse::InvalidCountryCode)
            }
        } else if c0 == 'P' {
            if c1 == 'A' {
                proof { assert(text@ =~= id_text(Id::PA)); }
                Ok(Id::PA)
            } else if c1 == 'E' {
                proof { assert(text@ =~= id_text(Id::PE)); }
                Ok(Id::PE)
            } else if c1 == 'F' {
                proof { assert(text@ =~= id_text(Id::PF)); }
                Ok(Id::PF)
            } else if c1 == 'G' {
                proof { assert(text@ =~= id_text(Id::PG)); }
                Ok(Id::PG)
            } else if c1 == 'H' {
                proof { assert(text@ =~= id_text(Id::PH)); }
                Ok(Id::PH)
            } else if c1 == 'K' {
                proof { assert(text@ =~= id_text(Id::PK)); }
                Ok(Id::PK)
            } else if c1 == 'L' {
                proof { assert(text@ =~= id_text(Id::PL)); }
                Ok(Id::PL)
            } else if c1 == 'M' {
                proof { assert(text@ =~= id_text(Id::PM)); }
                Ok(Id::PM)
            } else if c1 == 'R' {
                proof { assert(text@ =~= id_text(Id::PR)); }
                Ok(Id::PR)
            } else if c1 == 'S' {
                proof { assert(text@ =~= id_text(Id::PS)); }
                Ok(Id::PS)
            } else if c1 == 'T' {
                proof { assert(text@ =~= id_text(Id::PT)); }
                Ok(Id::PT)
            } else if c1 == 'W' {
                proof { assert(text@ =~= id_text(Id::PW)); }
                Ok(Id::PW)
            } else if c1 == 'Y' {
                proof { assert(text@ =~= id_text(Id::PY)); }
                Ok(Id::PY)
            } else {
                Err(Parse::InvalidCountryCode)
            }
        } else if c0 == 'Q' {
            if c1 == 'A' {
                proof { assert(text@ =~= id_text(Id::QA)); }
                Ok(Id::QA)
            } else {
                Err(Parse::InvalidCountryCode)
            }
        } else if c0 == 'R' {
            if c1 == 'E' {
                proof { assert(text@ =~= id_text(Id::RE)); }
                Ok(Id::RE)
            } else if c1 == 'O' {
                proof { assert(text@ =~= id_text(Id::RO)); }
                Ok(Id::RO)
            } else if c1 == 'S' {
                proof { assert(text@ =~= id_text(Id::RS)); }
                Ok(Id::RS)
            } else if c1 == 'U' {
                proof { assert(text@ =~= id_text(Id::RU)); }
                Ok(Id::RU)
            } else if c1 == 'W' {
                proof { assert(text@ =~= id_text(Id::RW)); }
                Ok(Id::RW)
            } else {
                Err(Parse::InvalidCountryCode)
            }
        } else if c0 == 'S' {
            if c1 == 'A' {
                proof { assert(text@ =~= id_text(Id::SA)); }
                Ok(Id::SA)
            } else if c1 == 'B' {
                proof { assert(text@ =~= id_text(Id::SB)); }
                Ok(Id::SB)
            } else if c1 == 'C' {
                proof { assert(text@ =~= id_text(Id::SC)); }
                Ok(Id::SC)
            } else if c1 == 'D' {
                proof { assert(text@ =~= id_text(Id::SD)); }
                Ok(Id::SD)
            } else if c1 == 'E' {
                proof { assert(text@ =~= id_text(Id::SE)); }
                Ok(Id::SE)
            } else if c1 == 'G' {
                proof { assert(text@ =~= id_text(Id::SG)); }
                Ok(Id::SG)
            } else if c1 == 'H' {
                proof { assert(text@ =~= id_text(Id::SH)); }
                Ok(Id::SH)
            } else if c1 == 'I' {
                proof { assert(text@ =~= id_text(Id::SI)); }
                Ok(Id::SI)
            } else if c1 == 'J' {
                proof { assert(text@ =~= id_text(Id::SJ)); }
                Ok(Id::SJ)
            } else if c1 == 'K' {
                proof { assert(text@ =~= id_text(Id::SK)); }
                Ok(Id::SK)
            } else if c1 == 'L' {
                proof { assert(text@ =~= id_text(Id::SL)); }
                Ok(Id::SL)
            } else if c1 == 'M' {
                proof { assert(text@ =~= id_text(Id::SM)); }
                Ok(Id::SM)
            } else if c1 == 'N' {
                proof { assert(text@ =~= id_text(Id::SN)); }
                Ok(Id::SN)
            } else if c1 == 'O' {
                proof { assert(text@ =~= id_text(Id::SO)); }
                Ok(Id::SO)
            } else if c1 == 'R' {
                proof { assert(text@ =~= id_text(Id::SR)); }
                Ok(Id::SR)
            } else if c1 == 'S' {
                proof { assert(text@ =~= id_text(Id::SS)); }
                Ok(Id::SS)
            } else if c1 == 'T' {
                proof { assert(text@ =~= id_text(Id::ST)); }
                Ok(Id::ST)
            } else if c1 == 'V' {
                proof { assert(text@ =~= id_text(Id::SV)); }
                Ok(Id::SV)
            } else if c1 == 'X' {
                proof { assert(text@ =~= id_text(Id::SX)); }
                Ok(Id::SX)
            } else if c1 == 'Y' {
                proof { assert(text@ =~= id_text(Id::SY)); }
                Ok(Id::SY)
            } else if c1 == 'Z' {
                proof { assert(text@ =~= id_text(Id::SZ)); }
                Ok(Id::SZ)
            } else {
                Err(Parse::InvalidCountryCode)
            }
        } else if c0 == 'T' {
            if c1 == 'A' {
                proof { assert(text@ =~= id_text(Id::TA)); }
                Ok(Id::TA)
            } else if c1 == 'C' {
                proof { assert(text@ =~= id_text(Id::TC)); }
                Ok(Id::TC)
            } else if c1 == 'D' {
                proof { assert(text@ =~= id_text(Id::TD)); }
                Ok(Id::TD)
            } else if c1 == 'G' {
                proof { assert(text@ =~= id_text(Id::TG)); }
                Ok(Id::TG)
            } else if c1 == 'H' {
                proof { assert(text@ =~= id_text(Id::TH)); }
                Ok(Id::TH)
            } else if c1 == 'J' {
                proof { assert(text@ =~= id_text(Id::TJ)); }
                Ok(Id::TJ)
            } else if c1 == 'K' {
                proof { assert(text@ =~= id_text(Id::TK)); }
                Ok(Id::TK)
            } else if c1 == 'L' {
                proof { assert(text@ =~= id_text(Id::TL)); }
                Ok(Id::TL)
            } else if c1 == 'M' {
                proof { assert(text@ =~= id_text(Id::TM)); }
                Ok(Id::TM)
            } else if c1 == 'N' {
                proof { assert(text@ =~= id_text(Id::TN)); }
                Ok(Id::TN)
            } else if c1 == 'O' {
                proof { assert(text@ =~= id_text(Id::TO)); }
                Ok(Id::TO)
            } else if c1 == 'R' {
                proof { assert(text@ =~= id_text(Id::TR)); }
                Ok(Id::TR)
            } else if c1 == 'T' {
                proof { assert(text@ =~= id_text(Id::TT)); }
                Ok(Id::TT)
            } else if c1 == 'V' {
                proof { assert(text@ =~= id_text(Id::TV)); }
                Ok(Id::TV)
            } else if c1 == 'W' {
                proof { assert(text@ =~= id_text(Id::TW)); }
                Ok(Id::TW)
            } else if c1 == 'Z' {
                proof { assert(text@ =~= id_text(Id::TZ)); }
                Ok(Id::TZ)
            } else {
                Err(Parse::InvalidCountryCode)
            }
        } else if c0 == 'U' {
            if c1 == 'A' {
                proof { assert(text@ =~= id_text(Id::UA)); }
                Ok(Id::UA)
            } else if c1 == 'G' {
                proof { assert(text@ =~= id_text(Id::UG)); }
                Ok(Id::UG)
            } else if c1 == 'S' {
                proof { assert(text@ =~= id_text(Id::US)); }
                Ok(Id::US)
            } else if c1 == 'Y' {
                proof { assert(text@ =~= id_text(Id::UY)); }
                Ok(Id::UY)
            } else if c1 == 'Z' {
                proof { assert(text@ =~= id_text(Id::UZ)); }
                Ok(Id::UZ)
            } else {
                Err(Parse::InvalidCountryCode)
            }
        } else if c0 == 'V' {
            if c1 == 'A' {
                proof { assert(text@ =~= id_text(Id::VA)); }
                Ok(Id::VA)
            } else if c1 == 'C' {
                proof { assert(text@ =~= id_text(Id::VC)); }
                Ok(Id::VC)
            } else if c1 == 'E' {
                proof { assert(text@ =~= id_text(Id::VE)); }
                Ok(Id::VE)
            } else if c1 == 'G' {
                proof { assert(text@ =~= id_text(Id::VG)); }
                Ok(Id::VG)
            } else if c1 == 'I' {
                proof { assert(text@ =~= id_text(Id::VI)); }
                Ok(Id::VI)
            } else if c1 == 'N' {
                proof { assert(text@ =~= id_text(Id::VN)); }
                Ok(Id::VN)
            } else if c1 == 'U' {
                proof { assert(text@ =~= id_text(Id::VU)); }
                Ok(Id::VU)
            } else {
                Err(Parse::InvalidCountryCode)
            }
        } else if c0 == 'W' {
            if c1 == 'F' {
                proof { assert(text@ =~= id_text(Id::WF)); }
                Ok(Id::WF)
            } else if c1 == 'S' {
                proof { assert(text@ =~= id_text(Id::WS)); }
                Ok(Id::WS)
            } else {
                Err(Parse::InvalidCountryCode)
            }
        } else if c0 == 'X' {
            if c1 == 'K' {
                proof { assert(text@ =~= id_text(Id::XK)); }
                Ok(Id::XK)
            } else {
                Err(Parse::InvalidCountryCode)
            }
        } else if c0 == 'Y' {
            if c1 == 'E' {
                proof { assert(text@ =~= id_text(Id::YE)); }
                Ok(Id::YE)
            } else if c1 == 'T' {
                proof { assert(text@ =~= id_text(Id::YT)); }
                Ok(Id::YT)
            } else {
                Err(Parse::InvalidCountryCode)
            }
        } else if c0 == 'Z' {
            if c1 == 'A' {
                proof { assert(text@ =~= id_text(Id::ZA)); }
                Ok(Id::ZA)
            } else if c1 == 'M' {
                proof { assert(text@ =~= id_text(Id::ZM)); }
                Ok(Id::ZM)
            } else if c1 == 'W' {
                proof { assert(text@ =~= id_text(Id::ZW)); }
                Ok(Id::ZW)
            } else {
                Err(Parse::InvalidCountryCode)
            }
        } else {
            Err(Parse::InvalidCountryCode)
        }
    }

    /// The canonical uppercase two-letter code of this identifier.
    pub fn as_ref(&self) -> (r: &'static str)
        ensures
            r@ == id_text(*self),
    {
        match *self {
            Id::AC => {
                proof {
                    reveal_strlit("AC");
                    assert("AC"@ =~= id_text(Id::AC));
                }
                "AC"
            },
            Id::AD => {
                proof {
                    reveal_strlit("AD");
                    assert("AD"@ =~= id_text(Id::AD));
                }
                "AD"
            },
            Id::AE => {
                proof {
                    reveal_strlit("AE");
                    assert("AE"@ =~= id_text(Id::AE));
                }
                "AE"
            },
            Id::AF => {
                proof {
                    reveal_strlit("AF");
                    assert("AF"@ =~= id_text(Id::AF));
                }
                "AF"
            },
            Id::AG => {
                proof {
                    reveal_strlit("AG");
                    assert("AG"@ =~= id_text(Id::AG));
                }
                "AG"
            },
            Id::AI => {
                proof {
                    reveal_strlit("AI");
                    assert("AI"@ =~= id_text(Id::AI));
                }
                "AI"
            },
            Id::AL => {
                proof {
                    reveal_strlit("AL");
                    assert("AL"@ =~= id_text(Id::AL));
                }
                "AL"
            },
            Id::AM => {
                proof {
                    reveal_strlit("AM");
                    assert("AM"@ =~= id_text(Id::AM));
                }
                "AM"
            },
            Id::AO => {
                proof {
                    reveal_strlit("AO");
                    assert("AO"@ =~= id_text(Id::AO));
                }
                "AO"
            },
            Id::AR => {
                proof {
                    reveal_strlit("AR");
                    assert("AR"@ =~= id_text(Id::AR));
                }
                "AR"
            },
            Id::AS => {
                proof {
                    reveal_strlit("AS");
                    assert("AS"@ =~= id_text(Id::AS));
                }
                "AS"
            },
            Id::AT => {
                proof {
                    reveal_strlit("AT");
                    assert("AT"@ =~= id_text(Id::AT));
                }
                "AT"
            },
            Id::AU => {
                proof {
                    reveal_strlit("AU");
                    assert("AU"@ =~= id_text(Id::AU));
                }
                "AU"
            },
            Id::AW => {
                proof {
                    reveal_strlit("AW");
                    assert("AW"@ =~= id_text(Id::AW));
                }
                "AW"
            },
            Id::AX => {
                proof {
                    reveal_strlit("AX");
                    assert("AX"@ =~= id_text(Id::AX));
                }
                "AX"
            },
            Id::AZ => {
                proof {
                    reveal_strlit("AZ");
                    assert("AZ"@ =~= id_text(Id::AZ));
                }
                "AZ"
            },
            Id::BA => {
                proof {
                    reveal_strlit("BA");
                    assert("BA"@ =~= id_text(Id::BA));
                }
                "BA"
            },
            Id::BB => {
                proof {
                    reveal_strlit("BB");
                    assert("BB"@ =~= id_text(Id::BB));
                }
                "BB"
            },
            Id::BD => {
                proof {
                    reveal_strlit("BD");
                    assert("BD"@ =~= id_text(Id::BD));
                }
                "BD"
            },
            Id::BE => {
                proof {
                    reveal_strlit("BE");
                    assert("BE"@ =~= id_text(Id::BE));
                }
                "BE"
            },
            Id::BF => {
                proof {
                    reveal_strlit("BF");
                    assert("BF"@ =~= id_text(Id::BF));
                }
                "BF"
            },
            Id::BG => {
                proof {
                    reveal_strlit("BG");
                    assert("BG"@ =~= id_text(Id::BG));
                }
                "BG"
            },
            Id::BH => {
                proof {
                    reveal_strlit("BH");
                    assert("BH"@ =~= id_text(Id::BH));
                }
                "BH"
            },
            Id::BI => {
                proof {
                    reveal_strlit("BI");
                    assert("BI"@ =~= id_text(Id::BI));
                }
                "BI"
            },
            Id::BJ => {
                proof {
                    reveal_strlit("BJ");
                    assert("BJ"@ =~= id_text(Id::BJ));
                }
                "BJ"
            },
            Id::BL => {
                proof {
                    reveal_strlit("BL");
                    assert("BL"@ =~= id_text(Id::BL));
                }
                "BL"
            },
            Id::BM => {
                proof {
                    reveal_strlit("BM");
                    assert("BM"@ =~= id_text(Id::BM));
                }
                "BM"
            },
            Id::BN => {
                proof {
                    reveal_strlit("BN");
                    assert("BN"@ =~= id_text(Id::BN));
                }
                "BN"
            },
            Id::BO => {
                proof {
                    reveal_strlit("BO");
                    assert("BO"@ =~= id_text(Id::BO));
                }
                "BO"
            },
            Id::BQ => {
                proof {
                    reveal_strlit("BQ");
                    assert("BQ"@ =~= id_text(Id::BQ));
                }
                "BQ"
            },
            Id::BR => {
                proof {
                    reveal_strlit("BR");
                    assert("BR"@ =~= id_text(Id::BR));
                }
                "BR"
            },
            Id::BS => {
                proof {
                    reveal_strlit("BS");
                    assert("BS"@ =~= id_text(Id::BS));
                }
                "BS"
            },
            Id::BT => {
                proof {
                    reveal_strlit("BT");
                    assert("BT"@ =~= id_text(Id::BT));
                }
                "BT"
            },
            Id::BW => {
                proof {
                    reveal_strlit("BW");
                    assert("BW"@ =~= id_text(Id::BW));
                }
                "BW"
            },
            Id::BY => {
                proof {
                    reveal_strlit("BY");
                    assert("BY"@ =~= id_text(Id::BY));
                }
                "BY"
            },
            Id::BZ => {
                proof {
                    reveal_strlit("BZ");
                    assert("BZ"@ =~= id_text(Id::BZ));
                }
                "BZ"
            },
            Id::CA => {
                proof {
                    reveal_strlit("CA");
                    assert("CA"@ =~= id_text(Id::CA));
                }
                "CA"
            },
            Id::CC => {
                proof {
                    reveal_strlit("CC");
                    assert("CC"@ =~= id_text(Id::CC));
                }
                "CC"
            },
            Id::CD => {
                proof {
                    reveal_strlit("CD");
                    assert("CD"@ =~= id_text(Id::CD));
                }
                "CD"
            },
            Id::CF => {
                proof {
                    reveal_strlit("CF");
                    assert("CF"@ =~= id_text(Id::CF));
                }
                "CF"
            },
            Id::CG => {
                proof {
                    reveal_strlit("CG");
                    assert("CG"@ =~= id_text(Id::CG));
                }
                "CG"
            },
            Id::CH => {
                proof {
                    reveal_strlit("CH");
                    assert("CH"@ =~= id_text(Id::CH));
                }
                "CH"
            },
            Id::CI => {
                proof {
                    reveal_strlit("CI");
                    assert("CI"@ =~= id_text(Id::CI));
                }
                "CI"
            },
            Id::CK => {
                proof {
                    reveal_strlit("CK");
                    assert("CK"@ =~= id_text(Id::CK));
                }
                "CK"
            },
            Id::CL => {
                proof {
                    reveal_strlit("CL");
                    assert("CL"@ =~= id_text(Id::CL));
                }
                "CL"
            },
            Id::CM => {
                proof {
                    reveal_strlit("CM");
                    assert("CM"@ =~= id_text(Id::CM));
                }
                "CM"
            },
            Id::CN => {
                proof {
                    reveal_strlit("CN");
                    assert("CN"@ =~= id_text(Id::CN));
                }
                "CN"
            },
            Id::CO => {
                proof {
                    reveal_strlit("CO");
                    assert("CO"@ =~= id_text(Id::CO));
                }
                "CO"
            },
            Id::CR => {
                proof {
                    reveal_strlit("CR");
                    assert("CR"@ =~= id_text(Id::CR));
                }
                "CR"
            },
            Id::CU => {
                proof {
                    reveal_strlit("CU");
                    assert("CU"@ =~= id_text(Id::CU));
                }
                "CU"
            },
            Id::CV => {
                proof {
                    reveal_strlit("CV");
                    assert("CV"@ =~= id_text(Id::CV));
                }
                "CV"
            },
            Id::CW => {
                proof {
                    reveal_strlit("CW");
                    assert("CW"@ =~= id_text(Id::CW));
                }
                "CW"
            },
            Id::CX => {
                proof {
                    reveal_strlit("CX");
                    assert("CX"@ =~= id_text(Id::CX));
                }
                "CX"
            },
            Id::CY => {
                proof {
                    reveal_strlit("CY");
                    assert("CY"@ =~= id_text(Id::CY));
                }
                "CY"
            },
            Id::CZ => {
                proof {
                    reveal_strlit("CZ");
                    assert("CZ"@ =~= id_text(Id::CZ));
                }
                "CZ"
            },
            Id::DE => {
                proof {
                    reveal_strlit("DE");
                    assert("DE"@ =~= id_text(Id::DE));
                }
                "DE"
            },
            Id::DJ => {
                proof {
                    reveal_strlit("DJ");
                    assert("DJ"@ =~= id_text(Id::DJ));
                }
                "DJ"
            },
            Id::DK => {
                proof {
                    reveal_strlit("DK");
                    assert("DK"@ =~= id_text(Id::DK));
                }
                "DK"
            },
            Id::DM => {
                proof {
                    reveal_strlit("DM");
                    assert("DM"@ =~= id_text(Id::DM));
                }
                "DM"
            },
            Id::DO => {
                proof {
                    reveal_strlit("DO");
                    assert("DO"@ =~= id_text(Id::DO));
                }
                "DO"
            },
            Id::DZ => {
                proof {
                    reveal_strlit("DZ");
                    assert("DZ"@ =~= id_text(Id::DZ));
                }
                "DZ"
            },
            Id::EC => {
                proof {
                    reveal_strlit("EC");
                    assert("EC"@ =~= id_text(Id::EC));
                }
                "EC"
            },
            Id::EE => {
                proof {
                    reveal_strlit("EE");
                    assert("EE"@ =~= id_text(Id::EE));
                }
                "EE"
            },
            Id::EG => {
                proof {
                    reveal_strlit("EG");
                    assert("EG"@ =~= id_text(Id::EG));
                }
                "EG"
            },
            Id::EH => {
                proof {
                    reveal_strlit("EH");
                    assert("EH"@ =~= id_text(Id::EH));
                }
                "EH"
            },
            Id::ER => {
                proof {
                    reveal_strlit("ER");
                    assert("ER"@ =~= id_text(Id::ER));
                }
                "ER"
            },
            Id::ES => {
                proof {
                    reveal_strlit("ES");
                    assert("ES"@ =~= id_text(Id::ES));
                }
                "ES"
            },
            Id::ET => {
                proof {
                    reveal_strlit("ET");
                    assert("ET"@ =~= id_text(Id::ET));
                }
                "ET"
            },
            Id::FI => {
                proof {
                    reveal_strlit("FI");
                    assert("FI"@ =~= id_text(Id::FI));
                }
                "FI"
            },
            Id::FJ => {
                proof {
                    reveal_strlit("FJ");
                    assert("FJ"@ =~= id_text(Id::FJ));
                }
                "FJ"
            },
            Id::FK => {
                proof {
                    reveal_strlit("FK");
                    assert("FK"@ =~= id_text(Id::FK));
                }
                "FK"
            },
            Id::FM => {
                proof {
                    reveal_strlit("FM");
                    assert("FM"@ =~= id_text(Id::FM));
                }
                "FM"
            },
            Id::FO => {
                proof {
                    reveal_strlit("FO");
                    assert("FO"@ =~= id_text(Id::FO));
                }
                "FO"
            },
            Id::FR => {
                proof {
                    reveal_strlit("FR");
                    assert("FR"@ =~= id_text(Id::FR));
                }
                "FR"
            },
            Id::GA => {
                proof {
                    reveal_strlit("GA");
                    assert("GA"@ =~= id_text(Id::GA));
                }
                "GA"
            },
            Id::GB => {
                proof {
                    reveal_strlit("GB");
                    assert("GB"@ =~= id_text(Id::GB));
                }
                "GB"
            },
            Id::GD => {
                proof {
                    reveal_strlit("GD");
                    assert("GD"@ =~= id_text(Id::GD));
                }
                "GD"
            },
            Id::GE => {
                proof {
                    reveal_strlit("GE");
                    assert("GE"@ =~= id_text(Id::GE));
                }
                "GE"
            },
            Id::GF => {
                proof {
                    reveal_strlit("GF");
                    assert("GF"@ =~= id_text(Id::GF));
                }
                "GF"
            },
            Id::GG => {
                proof {
                    reveal_strlit("GG");
                    assert("GG"@ =~= id_text(Id::GG));
                }
                "GG"
            },
            Id::GH => {
                proof {
                    reveal_strlit("GH");
                    assert("GH"@ =~= id_text(Id::GH));
                }
                "GH"
            },
            Id::GI => {
                proof {
                    reveal_strlit("GI");
                    assert("GI"@ =~= id_text(Id::GI));
                }
                "GI"
            },
            Id::GL => {
                proof {
                    reveal_strlit("GL");
                    assert("GL"@ =~= id_text(Id::GL));
                }
                "GL"
            },
            Id::GM => {
                proof {
                    reveal_strlit("GM");
                    assert("GM"@ =~= id_text(Id::GM));
                }
                "GM"
            },
            Id::GN => {
                proof {
                    reveal_strlit("GN");
                    assert("GN"@ =~= id_text(Id::GN));
                }
                "GN"
            },
            Id::GP => {
                proof {
                    reveal_strlit("GP");
                    assert("GP"@ =~= id_text(Id::GP));
                }
                "GP"
            },
            Id::GQ => {
                proof {
                    reveal_strlit("GQ");
                    assert("GQ"@ =~= id_text(Id::GQ));
                }
                "GQ"
            },
            Id::GR => {
                proof {
                    reveal_strlit("GR");
                    assert("GR"@ =~= id_text(Id::GR));
                }
                "GR"
            },
            Id::GT => {
                proof {
                    reveal_strlit("GT");
                    assert("GT"@ =~= id_text(Id::GT));
                }
                "GT"
            },
            Id::GU => {
                proof {
                    reveal_strlit("GU");
                    assert("GU"@ =~= id_text(Id::GU));
                }
                "GU"
            },
            Id::GW => {
                proof {
                    reveal_strlit("GW");
                    assert("GW"@ =~= id_text(Id::GW));
                }
                "GW"
            },
            Id::GY => {
                proof {
                    reveal_strlit("GY");
                    assert("GY"@ =~= id_text(Id::GY));
                }
                "GY"
            },
            Id::HK => {
                proof {
                    reveal_strlit("HK");
                    assert("HK"@ =~= id_text(Id::HK));
                }
                "HK"
            },
            Id::HN => {
                proof {
                    reveal_strlit("HN");
                    assert("HN"@ =~= id_text(Id::HN));
                }
                "HN"
            },
            Id::HR => {
                proof {
                    reveal_strlit("HR");
                    assert("HR"@ =~= id_text(Id::HR));
                }
                "HR"
            },
            Id::HT => {
                proof {
                    reveal_strlit("HT");
                    assert("HT"@ =~= id_text(Id::HT));
                }
                "HT"
            },
            Id::HU => {
                proof {
                    reveal_strlit("HU");
                    assert("HU"@ =~= id_text(Id::HU));
                }
                "HU"
            },
            Id::ID => {
                proof {
                    reveal_strlit("ID");
                    assert("ID"@ =~= id_text(Id::ID));
                }
                "ID"
            },
            Id::IE => {
                proof {
                    reveal_strlit("IE");
                    assert("IE"@ =~= id_text(Id::IE));
                }
                "IE"
            },
            Id::IL => {
                proof {
                    reveal_strlit("IL");
                    assert("IL"@ =~= id_text(Id::IL));
                }
                "IL"
            },
            Id::IM => {
                proof {
                    reveal_strlit("IM");
                    assert("IM"@ =~= id_text(Id::IM));
                }
                "IM"
            },
            Id::IN => {
                proof {
                    reveal_strlit("IN");
                    assert("IN"@ =~= id_text(Id::IN));
                }
                "IN"
            },
            Id::IO => {
                proof {
                    reveal_strlit("IO");
                    assert("IO"@ =~= id_text(Id::IO));
                }
                "IO"
            },
            Id::IQ => {
                proof {
                    reveal_strlit("IQ");
                    assert("IQ"@ =~= id_text(Id::IQ));
                }
                "IQ"
            },
            Id::IR => {
                proof {
                    reveal_strlit("IR");
                    assert("IR"@ =~= id_text(Id::IR));
                }
                "IR"
            },
            Id::IS => {
                proof {
                    reveal_strlit("IS");
                    assert("IS"@ =~= id_text(Id::IS));
                }
                "IS"
            },
            Id::IT => {
                proof {
                    reveal_strlit("IT");
                    assert("IT"@ =~= id_text(Id::IT));
                }
                "IT"
            },
            Id::JE => {
                proof {
                    reveal_strlit("JE");
                    assert("JE"@ =~= id_text(Id::JE));
                }
                "JE"
            },
            Id::JM => {
                proof {
                    reveal_strlit("JM");
                    assert("JM"@ =~= id_text(Id::JM));
                }
                "JM"
            },
            Id::JO => {
                proof {
                    reveal_strlit("JO");
                    assert("JO"@ =~= id_text(Id::JO));
                }
                "JO"
            },
            Id::JP => {
                proof {
                    reveal_strlit("JP");
                    assert("JP"@ =~= id_text(Id::JP));
                }
                "JP"
            },
            Id::KE => {
                proof {
                    reveal_strlit("KE");
                    assert("KE"@ =~= id_text(Id::KE));
                }
                "KE"
            },
            Id::KG => {
                proof {
                    reveal_strlit("KG");
                    assert("KG"@ =~= id_text(Id::KG));
                }
                "KG"
            },
            Id::KH => {
                proof {
                    reveal_strlit("KH");
                    assert("KH"@ =~= id_text(Id::KH));
                }
                "KH"
            },
            Id::KI => {
                proof {
                    reveal_strlit("KI");
                    assert("KI"@ =~= id_text(Id::KI));
                }
                "KI"
            },
            Id::KM => {
                proof {
                    reveal_strlit("KM");
                    assert("KM"@ =~= id_text(Id::KM));
                }
                "KM"
            },
            Id::KN => {
                proof {
                    reveal_strlit("KN");
                    assert("KN"@ =~= id_text(Id::KN));
                }
                "KN"
            },
            Id::KP => {
                proof {
                    reveal_strlit("KP");
                    assert("KP"@ =~= id_text(Id::KP));
                }
                "KP"
            },
            Id::KR => {
                proof {
                    reveal_strlit("KR");
                    assert("KR"@ =~= id_text(Id::KR));
                }
                "KR"
            },
            Id::KW => {
                proof {
                    reveal_strlit("KW");
                    assert("KW"@ =~= id_text(Id::KW));
                }
                "KW"
            },
            Id::KY => {
                proof {
                    reveal_strlit("KY");
                    assert("KY"@ =~= id_text(Id::KY));
                }
                "KY"
            },
            Id::KZ => {
                proof {
                    reveal_strlit("KZ");
                    assert("KZ"@ =~= id_text(Id::KZ));
                }
                "KZ"
            },
            Id::LA => {
                proof {
                    reveal_strlit("LA");
                    assert("LA"@ =~= id_text(Id::LA));
                }
                "LA"
            },
            Id::LB => {
                proof {
                    reveal_strlit("LB");
                    assert("LB"@ =~= id_text(Id::LB));
                }
                "LB"
            },
            Id::LC => {
                proof {
                    reveal_strlit("LC");
                    assert("LC"@ =~= id_text(Id::LC));
                }
                "LC"
            },
            Id::LI => {
                proof {
                    reveal_strlit("LI");
                    assert("LI"@ =~= id_text(Id::LI));
                }
                "LI"
            },
            Id::LK => {
                proof {
                    reveal_strlit("LK");
                    assert("LK"@ =~= id_text(Id::LK));
                }
                "LK"
            },
            Id::LR => {
                proof {
                    reveal_strlit("LR");
                    assert("LR"@ =~= id_text(Id::LR));
                }
                "LR"
            },
            Id::LS => {
                proof {
                    reveal_strlit("LS");
                    assert("LS"@ =~= id_text(Id::LS));
                }
                "LS"
            },
            Id::LT => {
                proof {
                    reveal_strlit("LT");
                    assert("LT"@ =~= id_text(Id::LT));
                }
                "LT"
            },
            Id::LU => {
                proof {
                    reveal_strlit("LU");
                    assert("LU"@ =~= id_text(Id::LU));
                }
                "LU"
            },
            Id::LV => {
                proof {
                    reveal_strlit("LV");
                    assert("LV"@ =~= id_text(Id::LV));
                }
                "LV"
            },
            Id::LY => {
                proof {
                    reveal_strlit("LY");
                    assert("LY"@ =~= id_text(Id::LY));
                }
                "LY"
            },
            Id::MA => {
                proof {
                    reveal_strlit("MA");
                    assert("MA"@ =~= id_text(Id::MA));
                }
                "MA"
            },
            Id::MC => {
                proof {
                    reveal_strlit("MC");
                    assert("MC"@ =~= id_text(Id::MC));
                }
                "MC"
            },
            Id::MD => {
                proof {
                    reveal_strlit("MD");
                    assert("MD"@ =~= id_text(Id::MD));
                }
                "MD"
            },
            Id::ME => {
                proof {
                    reveal_strlit("ME");
                    assert("ME"@ =~= id_text(Id::ME));
                }
                "ME"
            },
            Id::MF => {
                proof {
                    reveal_strlit("MF");
                    assert("MF"@ =~= id_text(Id::MF));
                }
                "MF"
            },
            Id::MG => {
                proof {
                    reveal_strlit("MG");
                    assert("MG"@ =~= id_text(Id::MG));
                }
                "MG"
            },
            Id::MH => {
                proof {
                    reveal_strlit("MH");
                    assert("MH"@ =~= id_text(Id::MH));
                }
                "MH"
            },
            Id::MK => {
                proof {
                    reveal_strlit("MK");
                    assert("MK"@ =~= id_text(Id::MK));
                }
                "MK"
            },
            Id::ML => {
                proof {
                    reveal_strlit("ML");
                    assert("ML"@ =~= id_text(Id::ML));
                }
                "ML"
            },
            Id::MM => {
                proof {
                    reveal_strlit("MM");
                    assert("MM"@ =~= id_text(Id::MM));
                }
                "MM"
            },
            Id::MN => {
                proof {
                    reveal_strlit("MN");
                    assert("MN"@ =~= id_text(Id::MN));
                }
                "MN"
            },
            Id::MO => {
                proof {
                    reveal_strlit("MO");
                    assert("MO"@ =~= id_text(Id::MO));
                }
                "MO"
            },
            Id::MP => {
                proof {
                    reveal_strlit("MP");
                    assert("MP"@ =~= id_text(Id::MP));
                }
                "MP"
            },
            Id::MQ => {
                proof {
                    reveal_strlit("MQ");
                    assert("MQ"@ =~= id_text(Id::MQ));
                }
                "MQ"
            },
            Id::MR => {
                proof {
                    reveal_strlit("MR");
                    assert("MR"@ =~= id_text(Id::MR));
                }
                "MR"
            },
            Id::MS => {
                proof {
                    reveal_strlit("MS");
                    assert("MS"@ =~= id_text(Id::MS));
                }
                "MS"
            },
            Id::MT => {
                proof {
                    reveal_strlit("MT");
                    assert("MT"@ =~= id_text(Id::MT));
                }
                "MT"
            },
            Id::MU => {
                proof {
                    reveal_strlit("MU");
                    assert("MU"@ =~= id_text(Id::MU));
                }
                "MU"
            },
            Id::MV => {
                proof {
                    reveal_strlit("MV");
                    assert("MV"@ =~= id_text(Id::MV));
                }
                "MV"
            },
            Id::MW => {
                proof {
                    reveal_strlit("MW");
                    assert("MW"@ =~= id_text(Id::MW));
                }
                "MW"
            },
            Id::MX => {
                proof {
                    reveal_strlit("MX");
                    assert("MX"@ =~= id_text(Id::MX));
                }
                "MX"
            },
            Id::MY => {
                proof {
                    reveal_strlit("MY");
                    assert("MY"@ =~= id_text(Id::MY));
                }
                "MY"
            },
            Id::MZ => {
                proof {
                    reveal_strlit("MZ");
                    assert("MZ"@ =~= id_text(Id::MZ));
                }
                "MZ"
            },
            Id::NA => {
                proof {
                    reveal_strlit("NA");
                    assert("NA"@ =~= id_text(Id::NA));
                }
                "NA"
            },
            Id::NC => {
                proof {
                    reveal_strlit("NC");
                    assert("NC"@ =~= id_text(Id::NC));
                }
                "NC"
            },
            Id::NE => {
                proof {
                    reveal_strlit("NE");
                    assert("NE"@ =~= id_text(Id::NE));
                }
                "NE"
            },
            Id::NF => {
                proof {
                    reveal_strlit("NF");
                    assert("NF"@ =~= id_text(Id::NF));
                }
                "NF"
            },
            Id::NG => {
                proof {
                    reveal_strlit("NG");
                    assert("NG"@ =~= id_text(Id::NG));
                }
                "NG"
            },
            Id::NI => {
                proof {
                    reveal_strlit("NI");
                    assert("NI"@ =~= id_text(Id::NI));
                }
                "NI"
            },
            Id::NL => {
                proof {
                    reveal_strlit("NL");
                    assert("NL"@ =~= id_text(Id::NL));
                }
                "NL"
            },
            Id::NO => {
                proof {
                    reveal_strlit("NO");
                    assert("NO"@ =~= id_text(Id::NO));
                }
                "NO"
            },
            Id::NP => {
                proof {
                    reveal_strlit("NP");
                    assert("NP"@ =~= id_text(Id::NP));
                }
                "NP"
            },
            Id::NR => {
                proof {
                    reveal_strlit("NR");
                    assert("NR"@ =~= id_text(Id::NR));
                }
                "NR"
            },
            Id::NU => {
                proof {
                    reveal_strlit("NU");
                    assert("NU"@ =~= id_text(Id::NU));
                }
                "NU"
            },
            Id::NZ => {
                proof {
                    reveal_strlit("NZ");
                    assert("NZ"@ =~= id_text(Id::NZ));
                }
                "NZ"
            },
            Id::OM => {
                proof {
                    reveal_strlit("OM");
                    assert("OM"@ =~= id_text(Id::OM));
                }
                "OM"
            },
            Id::PA => {
                proof {
                    reveal_strlit("PA");
                    assert("PA"@ =~= id_text(Id::PA));
                }
                "PA"
            },
            Id::PE => {
                proof {
                    reveal_strlit("PE");
                    assert("PE"@ =~= id_text(Id::PE));
                }
                "PE"
            },
            Id::PF => {
                proof {
                    reveal_strlit("PF");
                    assert("PF"@ =~= id_text(Id::PF));
                }
                "PF"
            },
            Id::PG => {
                proof {
                    reveal_strlit("PG");
                    assert("PG"@ =~= id_text(Id::PG));
                }
                "PG"
            },
            Id::PH => {
                proof {
                    reveal_strlit("PH");
                    assert("PH"@ =~= id_text(Id::PH));
                }
                "PH"
            },
            Id::PK => {
                proof {
                    reveal_strlit("PK");
                    assert("PK"@ =~= id_text(Id::PK));
                }
                "PK"
            },
            Id::PL => {
                proof {
                    reveal_strlit("PL");
                    assert("PL"@ =~= id_text(Id::PL));
                }
                "PL"
            },
            Id::PM => {
                proof {
                    reveal_strlit("PM");
                    assert("PM"@ =~= id_text(Id::PM));
                }
                "PM"
            },
            Id::PR => {
                proof {
                    reveal_strlit("PR");
                    assert("PR"@ =~= id_text(Id::PR));
                }
                "PR"
            },
            Id::PS => {
                proof {
                    reveal_strlit("PS");
                    assert("PS"@ =~= id_text(Id::PS));
                }
                "PS"
            },
            Id::PT => {
                proof {
                    reveal_strlit("PT");
                    assert("PT"@ =~= id_text(Id::PT));
                }
                "PT"
            },
            Id::PW => {
                proof {
                    reveal_strlit("PW");
                    assert("PW"@ =~= id_text(Id::PW));
                }
                "PW"
            },
            Id::PY => {
                proof {
                    reveal_strlit("PY");
                    assert("PY"@ =~= id_text(Id::PY));
                }
                "PY"
            },
            Id::QA => {
                proof {
                    reveal_strlit("QA");
                    assert("QA"@ =~= id_text(Id::QA));
                }
                "QA"
            },
            Id::RE => {
                proof {
                    reveal_strlit("RE");
                    assert("RE"@ =~= id_text(Id::RE));
                }
                "RE"
            },
            Id::RO => {
                proof {
                    reveal_strlit("RO");
                    assert("RO"@ =~= id_text(Id::RO));
                }
                "RO"
            },
            Id::RS => {
                proof {
                    reveal_strlit("RS");
                    assert("RS"@ =~= id_text(Id::RS));
                }
                "RS"
            },
            Id::RU => {
                proof {
                    reveal_strlit("RU");
                    assert("RU"@ =~= id_text(Id::RU));
                }
                "RU"
            },
            Id::RW => {
                proof {
                    reveal_strlit("RW");
                    assert("RW"@ =~= id_text(Id::RW));
                }
                "RW"
            },
            Id::SA => {
                proof {
                    reveal_strlit("SA");
                    assert("SA"@ =~= id_text(Id::SA));
                }
                "SA"
            },
            Id::SB => {
                proof {
                    reveal_strlit("SB");
                    assert("SB"@ =~= id_text(Id::SB));
                }
                "SB"
            },
            Id::SC => {
                proof {
                    reveal_strlit("SC");
                    assert("SC"@ =~= id_text(Id::SC));
                }
                "SC"
            },
            Id::SD => {
                proof {
                    reveal_strlit("SD");
                    assert("SD"@ =~= id_text(Id::SD));
                }
                "SD"
            },
            Id::SE => {
                proof {
                    reveal_strlit("SE");
                    assert("SE"@ =~= id_text(Id::SE));
                }
                "SE"
            },
            Id::SG => {
                proof {
                    reveal_strlit("SG");
                    assert("SG"@ =~= id_text(Id::SG));
                }
                "SG"
            },
            Id::SH => {
                proof {
                    reveal_strlit("SH");
                    assert("SH"@ =~= id_text(Id::SH));
                }
                "SH"
            },
            Id::SI => {
                proof {
                    reveal_strlit("SI");
                    assert("SI"@ =~= id_text(Id::SI));
                }
                "SI"
            },
            Id::SJ => {
                proof {
                    reveal_strlit("SJ");
                    assert("SJ"@ =~= id_text(Id::SJ));
                }
                "SJ"
            },
            Id::SK => {
                proof {
                    reveal_strlit("SK");
                    assert("SK"@ =~= id_text(Id::SK));
                }
                "SK"
            },
            Id::SL => {
                proof {
                    reveal_strlit("SL");
                    assert("SL"@ =~= id_text(Id::SL));
                }
                "SL"
            },
            Id::SM => {
                proof {
                    reveal_strlit("SM");
                    assert("SM"@ =~= id_text(Id::SM));
                }
                "SM"
            },
            Id::SN => {
                proof {
                    reveal_strlit("SN");
                    assert("SN"@ =~= id_text(Id::SN));
                }
                "SN"
            },
            Id::SO => {
                proof {
                    reveal_strlit("SO");
                    assert("SO"@ =~= id_text(Id::SO));
                }
                "SO"
            },
            Id::SR => {
                proof {
                    reveal_strlit("SR");
                    assert("SR"@ =~= id_text(Id::SR));
                }
                "SR"
            },
            Id::SS => {
                proof {
                    reveal_strlit("SS");
                    assert("SS"@ =~= id_text(Id::SS));
                }
                "SS"
            },
            Id::ST => {
                proof {
                    reveal_strlit("ST");
                    assert("ST"@ =~= id_text(Id::ST));
                }
                "ST"
            },
            Id::SV => {
                proof {
                    reveal_strlit("SV");
                    assert("SV"@ =~= id_text(Id::SV));
                }
                "SV"
            },
            Id::SX => {
                proof {
                    reveal_strlit("SX");
                    assert("SX"@ =~= id_text(Id::SX));
                }
                "SX"
            },
            Id::SY => {
                proof {
                    reveal_strlit("SY");
                    assert("SY"@ =~= id_text(Id::SY));
                }
                "SY"
            },
            Id::SZ => {
                proof {
                    reveal_strlit("SZ");
                    assert("SZ"@ =~= id_text(Id::SZ));
                }
                "SZ"
            },
            Id::TA => {
                proof {
                    reveal_strlit("TA");
                    assert("TA"@ =~= id_text(Id::TA));
                }
                "TA"
            },
            Id::TC => {
                proof {
                    reveal_strlit("TC");
                    assert("TC"@ =~= id_text(Id::TC));
                }
                "TC"
            },
            Id::TD => {
                proof {
                    reveal_strlit("TD");
                    assert("TD"@ =~= id_text(Id::TD));
                }
                "TD"
            },
            Id::TG => {
                proof {
                    reveal_strlit("TG");
                    assert("TG"@ =~= id_text(Id::TG));
                }
                "TG"
            },
            Id::TH => {
                proof {
                    reveal_strlit("TH");
                    assert("TH"@ =~= id_text(Id::TH));
                }
                "TH"
            },
            Id::TJ => {
                proof {
                    reveal_strlit("TJ");
                    assert("TJ"@ =~= id_text(Id::TJ));
                }
                "TJ"
            },
            Id::TK => {
                proof {
                    reveal_strlit("TK");
                    assert("TK"@ =~= id_text(Id::TK));
                }
                "TK"
            },
            Id::TL => {
                proof {
                    reveal_strlit("TL");
                    assert("TL"@ =~= id_text(Id::TL));
                }
                "TL"
            },
            Id::TM => {
                proof {
                    reveal_strlit("TM");
                    assert("TM"@ =~= id_text(Id::TM));
                }
                "TM"
            },
            Id::TN => {
                proof {
                    reveal_strlit("TN");
                    assert("TN"@ =~= id_text(Id::TN));
                }
                "TN"
            },
            Id::TO => {
                proof {
                    reveal_strlit("TO");
                    assert("TO"@ =~= id_text(Id::TO));
                }
                "TO"
            },
            Id::TR => {
                proof {
                    reveal_strlit("TR");
                    assert("TR"@ =~= id_text(Id::TR));
                }
                "TR"
            },
            Id::TT => {
                proof {
                    reveal_strlit("TT");
                    assert("TT"@ =~= id_text(Id::TT));
                }
                "TT"
            },
            Id::TV => {
                proof {
                    reveal_strlit("TV");
                    assert("TV"@ =~= id_text(Id::TV));
                }
                "TV"
            },
            Id::TW => {
                proof {
                    reveal_strlit("TW");
                    assert("TW"@ =~= id_text(Id::TW));
                }
                "TW"
            },
            Id::TZ => {
                proof {
                    reveal_strlit("TZ");
                    assert("TZ"@ =~= id_text(Id::TZ));
                }
                "TZ"
            },
            Id::UA => {
                proof {
                    reveal_strlit("UA");
                    assert("UA"@ =~= id_text(Id::UA));
                }
                "UA"
            },
            Id::UG => {
                proof {
                    reveal_strlit("UG");
                    assert("UG"@ =~= id_text(Id::UG));
                }
                "UG"
            },
            Id::US => {
                proof {
                    reveal_strlit("US");
                    assert("US"@ =~= id_text(Id::US));
                }
                "US"
            },
            Id::UY => {
                proof {
                    reveal_strlit("UY");
                    assert("UY"@ =~= id_text(Id::UY));
                }
                "UY"
            },
            Id::UZ => {
                proof {
                    reveal_strlit("UZ");
                    assert("UZ"@ =~= id_text(Id::UZ));
                }
                "UZ"
            },
            Id::VA => {
                proof {
                    reveal_strlit("VA");
                    assert("VA"@ =~= id_text(Id::VA));
                }
                "VA"
            },
            Id::VC => {
                proof {
                    reveal_strlit("VC");
                    assert("VC"@ =~= id_text(Id::VC));
                }
                "VC"
            },
            Id::VE => {
                proof {
                    reveal_strlit("VE");
                    assert("VE"@ =~= id_text(Id::VE));
                }
                "VE"
            },
            Id::VG => {
                proof {
                    reveal_strlit("VG");
                    assert("VG"@ =~= id_text(Id::VG));
                }
                "VG"
            },
            Id::VI => {
                proof {
                    reveal_strlit("VI");
                    assert("VI"@ =~= id_text(Id::VI));
                }
                "VI"
            },
            Id::VN => {
                proof {
                    reveal_strlit("VN");
                    assert("VN"@ =~= id_text(Id::VN));
                }
                "VN"
            },
            Id::VU => {
                proof {
                    reveal_strlit("VU");
                    assert("VU"@ =~= id_text(Id::VU));
                }
                "VU"
            },
            Id::WF => {
                proof {
                    reveal_strlit("WF");
                    assert("WF"@ =~= id_text(Id::WF));
                }
                "WF"
            },
            Id::WS => {
                proof {
                    reveal_strlit("WS");
                    assert("WS"@ =~= id_text(Id::WS));
                }
                "WS"
            },
            Id::XK => {
                proof {
                    reveal_strlit("XK");
                    assert("XK"@ =~= id_text(Id::XK));
                }
                "XK"
            },
            Id::YE => {
                proof {
                    reveal_strlit("YE");
                    assert("YE"@ =~= id_text(Id::YE));
                }
                "YE"
            },
            Id::YT => {
                proof {
                    reveal_strlit("YT");
                    assert("YT"@ =~= id_text(Id::YT));
                }
                "YT"
            },
            Id::ZA => {
                proof {
                    reveal_strlit("ZA");
                    assert("ZA"@ =~= id_text(Id::ZA));
                }
                "ZA"
            },
            Id::ZM => {
                proof {
                    reveal_strlit("ZM");
                    assert("ZM"@ =~= id_text(Id::ZM));
                }
                "ZM"
            },
            Id::ZW => {
                proof {
                    reveal_strlit("ZW");
                    assert("ZW"@ =~= id_text(Id::ZW));
                }
                "ZW"
            },
        }
    }
}

/// Round trip: parsing the canonical code of any territory identifier
/// yields that identifier back, and every canonical code is exactly two
/// uppercase letters.
pub proof fn lemma_id_text_round_trip(id: Id)
    ensures
        id_from_text(id_text(id)) == Some(id),
        id_text(id).len() == 2,
        forall|i: int| 0 <= i < 2 ==> 'A' <= #[trigger] id_text(id)[i] <= 'Z',
{
}

/// Injectivity: distinct territory identifiers have distinct canonical
/// codes, so the text mapping is one-to-one across the whole set.
pub proof fn lemma_id_text_injective(a: Id, b: Id)
    requires
        id_text(a) == id_text(b),
    ensures
        a == b,
{
    lemma_id_text_round_trip(a);
    lemma_id_text_round_trip(b);
}

} // verus!
