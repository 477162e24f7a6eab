use std::str::FromStr;
use vstd::prelude::*;

verus! {

/// The value representation of a field: the closed set of type codes.
#[derive(Clone, Copy, Debug, PartialEq, Eq, Structural)]
pub enum Vr {
    AE,
    AS,
    AT,
    CS,
    DA,
    DS,
    DT,
    FL,
    FD,
    IS,
    LO,
    LT,
    OB,
    OD,
    OF,
    OL,
    OV,
    OW,
    PN,
    SH,
    SL,
    SQ,
    SS,
    ST,
    SV,
    TM,
    UC,
    UI,
    UL,
    UN,
    UR,
    US,
    UT,
    UV,
}

/// How a primitive field of a decoded object turns into a value.
#[derive(Clone, Copy, Debug, PartialEq, Eq, Structural)]
pub enum ValueClass {
    /// Trimmed sub-values joined by line feeds.
    Text,
    /// Sub-values read as 64-bit integers.
    Integer,
    /// Sub-values read as binary64 numbers.
    Decimal,
}

/// How a field of the wire form turns into a value.
#[derive(Clone, Copy, Debug, PartialEq, Eq, Structural)]
pub enum WireClass {
    Sequence,
    PersonName,
    Text,
    Integer,
    Decimal,
    /// A type code whose wire-form values are not read yet.
    Unsupported,
}

/// The value representation whose code is the two characters `a`, `b`, if any.
pub open spec fn vr_of_pair(a: char, b: char) -> Option<Vr> {
    match (a, b) {
        ('A', 'E') => Some(Vr::AE),
        ('A', 'S') => Some(Vr::AS),
        ('A', 'T') => Some(Vr::AT),
        ('C', 'S') => Some(Vr::CS),
        ('D', 'A') => Some(Vr::DA),
        ('D', 'S') => Some(Vr::DS),
        ('D', 'T') => Some(Vr::DT),
        ('F', 'L') => Some(Vr::FL),
        ('F', 'D') => Some(Vr::FD),
        ('I', 'S') => Some(Vr::IS),
        ('L', 'O') => Some(Vr::LO),
        ('L', 'T') => Some(Vr::LT),
        ('O', 'B') => Some(Vr::OB),
        ('O', 'D') => Some(Vr::OD),
        ('O', 'F') => Some(Vr::OF),
        ('O', 'L') => Some(Vr::OL),
        ('O', 'V') => Some(Vr::OV),
        ('O', 'W') => Some(Vr::OW),
        ('P', 'N') => Some(Vr::PN),
        ('S', 'H') => Some(Vr::SH),
        ('S', 'L') => Some(Vr::SL),
        ('S', 'Q') => Some(Vr::SQ),
        ('S', 'S') => Some(Vr::SS),
        ('S', 'T') => Some(Vr::ST),
        ('S', 'V') => Some(Vr::SV),
        ('T', 'M') => Some(Vr::TM),
        ('U', 'C') => Some(Vr::UC),
        ('U', 'I') => Some(Vr::UI),
        ('U', 'L') => Some(Vr::UL),
        ('U', 'N') => Some(Vr::UN),
        ('U', 'R') => Some(Vr::UR),
        ('U', 'S') => Some(Vr::US),
        ('U', 'T') => Some(Vr::UT),
        ('U', 'V') => Some(Vr::UV),
        _ => None,
    }
}

/// The value representation whose code is `s`, if any.
pub open spec fn vr_of_code(s: Seq<char>) -> Option<Vr> {
    if s.len() == 2 {
        vr_of_pair(s[0], s[1])
    } else {
        None
    }
}

/// Reading a code gives the value representation that has that code, and every value
/// representation is read back from its code.
pub proof fn lemma_vr_code_round_trip(s: Seq<char>, v: Vr)
    ensures
        vr_of_code(s) == Some(v) ==> v.code() == s,
        vr_of_code(v.code()) == Some(v),
{
    if vr_of_code(s) == Some(v) {
        assert(s =~= seq![s[0], s[1]]);
    }
}

impl Vr {
    /// The two-letter code of the value representation.
    pub open spec fn code(self) -> Seq<char> {
        match self {
            Vr::AE => seq!['A', 'E'],
            Vr::AS => seq!['A', 'S'],
            Vr::AT => seq!['A', 'T'],
            Vr::CS => seq!['C', 'S'],
            Vr::DA => seq!['D', 'A'],
            Vr::DS => seq!['D', 'S'],
            Vr::DT => seq!['D', 'T'],
            Vr::FL => seq!['F', 'L'],
            Vr::FD => seq!['F', 'D'],
            Vr::IS => seq!['I', 'S'],
            Vr::LO => seq!['L', 'O'],
            Vr::LT => seq!['L', 'T'],
            Vr::OB => seq!['O', 'B'],
            Vr::OD => seq!['O', 'D'],
            Vr::OF => seq!['O', 'F'],
            Vr::OL => seq!['O', 'L'],
            Vr::OV => seq!['O', 'V'],
            Vr::OW => seq!['O', 'W'],
            Vr::PN => seq!['P', 'N'],
            Vr::SH => seq!['S', 'H'],
            Vr::SL => seq!['S', 'L'],
            Vr::SQ => seq!['S', 'Q'],
            Vr::SS => seq!['S', 'S'],
            Vr::ST => seq!['S', 'T'],
            Vr::SV => seq!['S', 'V'],
            Vr::TM => seq!['T', 'M'],
            Vr::UC => seq!['U', 'C'],
            Vr::UI => seq!['U', 'I'],
            Vr::UL => seq!['U', 'L'],
            Vr::UN => seq!['U', 'N'],
            Vr::UR => seq!['U', 'R'],
            Vr::US => seq!['U', 'S'],
            Vr::UT => seq!['U', 'T'],
            Vr::UV => seq!['U', 'V'],
        }
    }

    /// The class of a primitive field of a decoded object.
    pub open spec fn binary_class(self) -> ValueClass {
        match self {
            Vr::CS
            | Vr::UI
            | Vr::SH
            | Vr::LO
            | Vr::DT
            | Vr::PN
            | Vr::AE
            | Vr::LT
            | Vr::ST
            | Vr::UR
            | Vr::AS
            | Vr::AT
            | Vr::OB
            | Vr::OW
            | Vr::SQ
            | Vr::SV
            | Vr::UC
            | Vr::UN
            | Vr::UT => ValueClass::Text,
            Vr::DA
            | Vr::IS
            | Vr::US
            | Vr::SS
            | Vr::OL
            | Vr::OV
            | Vr::SL
            | Vr::UL
            | Vr::UV => ValueClass::Integer,
            Vr::TM
            | Vr::DS
            | Vr::FD
            | Vr::FL
            | Vr::OD
            | Vr::OF => ValueClass::Decimal,
        }
    }

    /// The class of a field of the wire form.
    pub open spec fn wire_class(self) -> WireClass {
        match self {
            Vr::SQ => WireClass::Sequence,
            Vr::PN => WireClass::PersonName,
            Vr::AE
            | Vr::AS
            | Vr::CS
            | Vr::DA
            | Vr::DT
            | Vr::LO
            | Vr::LT
            | Vr::SH
            | Vr::ST
            | Vr::TM
            | Vr::UC
            | Vr::UI
            | Vr::UR
            | Vr::UT => WireClass::Text,
            Vr::IS
            | Vr::SS
            | Vr::US
            | Vr::SL
            | Vr::UL
            | Vr::OL
            | Vr::OV
            | Vr::SV
            | Vr::UV => WireClass::Integer,
            Vr::DS
            | Vr::FL
            | Vr::FD
            | Vr::OF
            | Vr::OD => WireClass::Decimal,
            Vr::AT
            | Vr::OB
            | Vr::OW
            | Vr::UN => WireClass::Unsupported,
        }
    }

    /// The class of a primitive field of a decoded object.
    pub fn value_class(&self) -> (c: ValueClass)
        ensures
            c == self.binary_class(),
    {
        match self {
            Vr::CS
            | Vr::UI
            | Vr::SH
            | Vr::LO
            | Vr::DT
            | Vr::PN
            | Vr::AE
            | Vr::LT
            | Vr::ST
            | Vr::UR
            | Vr::AS
            | Vr::AT
            | Vr::OB
            | Vr::OW
            | Vr::SQ
            | Vr::SV
            | Vr::UC
            | Vr::UN
            | Vr::UT => ValueClass::Text,
            Vr::DA
            | Vr::IS
            | Vr::US
            | Vr::SS
            | Vr::OL
            | Vr::OV
            | Vr::SL
            | Vr::UL
            | Vr::UV => ValueClass::Integer,
            Vr::TM
            | Vr::DS
            | Vr::FD
            | Vr::FL
            | Vr::OD
            | Vr::OF => ValueClass::Decimal,
        }
    }

    /// The class of a field of the wire form.
    pub fn wire_value_class(&self) -> (c: WireClass)
        ensures
            c == self.wire_class(),
    {
        match self {
            Vr::SQ => WireClass::Sequence,
            Vr::PN => WireClass::PersonName,
            Vr::AE
            | Vr::AS
            | Vr::CS
            | Vr::DA
            | Vr::DT
            | Vr::LO
            | Vr::LT
            | Vr::SH
            | Vr::ST
            | Vr::TM
            | Vr::UC
            | Vr::UI
            | Vr::UR
            | Vr::UT => WireClass::Text,
            Vr::IS
            | Vr::SS
            | Vr::US
            | Vr::SL
            | Vr::UL
            | Vr::OL
            | Vr::OV
            | Vr::SV
            | Vr::UV => WireClass::Integer,
            Vr::DS
            | Vr::FL
            | Vr::FD
            | Vr::OF
            | Vr::OD => WireClass::Decimal,
            Vr::AT
            | Vr::OB
            | Vr::OW
            | Vr::UN => WireClass::Unsupported,
        }
    }

    /// The value representation whose code is `s`, if any.
    pub fn from_code(s: &str) -> (r: Option<Vr>)
        ensures
            r == vr_of_code(s@),
    {
        if s.unicode_len() != 2 {
            return None;
        }
        let a = s.get_char(0);
        let b = s.get_char(1);
        proof {
            assert(s@ =~= seq![a, b]);
        }
        match (a, b) {
            ('A', 'E') => Some(Vr::AE),
            ('A', 'S') => Some(Vr::AS),
            ('A', 'T') => Some(Vr::AT),
            ('C', 'S') => Some(Vr::CS),
            ('D', 'A') => Some(Vr::DA),
            ('D', 'S') => Some(Vr::DS),
            ('D', 'T') => Some(Vr::DT),
            ('F', 'L') => Some(Vr::FL),
            ('F', 'D') => Some(Vr::FD),
            ('I', 'S') => Some(Vr::IS),
            ('L', 'O') => Some(Vr::LO),
            ('L', 'T') => Some(Vr::LT),
            ('O', 'B') => Some(Vr::OB),
            ('O', 'D') => Some(Vr::OD),
            ('O', 'F') => Some(Vr::OF),
            ('O', 'L') => Some(Vr::OL),
            ('O', 'V') => Some(Vr::OV),
            ('O', 'W') => Some(Vr::OW),
            ('P', 'N') => Some(Vr::PN),
            ('S', 'H') => Some(Vr::SH),
            ('S', 'L') => Some(Vr::SL),
            ('S', 'Q') => Some(Vr::SQ),
            ('S', 'S') => Some(Vr::SS),
            ('S', 'T') => Some(Vr::ST),
            ('S', 'V') => Some(Vr::SV),
            ('T', 'M') => Some(Vr::TM),
            ('U', 'C') => Some(Vr::UC),
            ('U', 'I') => Some(Vr::UI),
            ('U', 'L') => Some(Vr::UL),
            ('U', 'N') => Some(Vr::UN),
            ('U', 'R') => Some(Vr::UR),
            ('U', 'S') => Some(Vr::US),
            ('U', 'T') => Some(Vr::UT),
            ('U', 'V') => Some(Vr::UV),
            _ => None,
        }
    }

    /// Reads a type code of the wire form, as the DICOM library reads it.
    pub fn parse(s: &str) -> (r: Option<Vr>)
        ensures
            r == vr_of_code(s@),
    {
        match dicom_vr_code(s) {
            Some(code) => Vr::from_code(code.as_str()),
            None => {
                proof {
                    if let Some(v) = vr_of_code(s@) {
                        lemma_vr_code_round_trip(s@, v);
                    }
                }
                None
            },
        }
    }
}

/// Relies on dicom's `VR::from_str`, which accepts exactly the two-letter codes
/// of the value representations, and on `VR::to_string`, which gives that code back.
#[verifier::external_body]
fn dicom_vr_code(s: &str) -> (r: Option<String>)
    ensures
        r matches Some(c) ==> c@ == s@,
        r is None ==> forall|v: Vr| #[trigger] v.code() != s@,
{
    dicom::core::VR::from_str(s).ok().map(|v| v.to_string().to_string())
}

} // verus!
