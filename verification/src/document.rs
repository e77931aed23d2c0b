//! The document model: a tree of tagged, typed attributes, held as plain
//! values.
use crate::datetime::{DicomDate, DicomDateTime, DicomTime};
use vstd::prelude::*;

verus! {

/// The identifier of an attribute: its group and its element.
#[derive(Clone, Copy, Debug, PartialEq, Eq, Structural)]
pub struct Tag(pub u16, pub u16);

impl Tag {
    /// The group of the tag.
    pub open spec fn group(self) -> u16 {
        self.0
    }

    /// The element of the tag.
    pub open spec fn element(self) -> u16 {
        self.1
    }
}

/// The value representation of an attribute: how its value is encoded.
#[derive(Clone, Copy, Debug, PartialEq, Eq, Structural)]
pub enum VR {
    AE,
    AS,
    AT,
    CS,
    DA,
    DS,
    DT,
    FD,
    FL,
    IS,
    LO,
    LT,
    OB,
    OD,
    OF,
    OL,
    OV,
    OW,
    PN,
    SH,
    SL,
    SQ,
    SS,
    ST,
    SV,
    TM,
    UC,
    UI,
    UL,
    UN,
    UR,
    US,
    UT,
    UV,
}

impl VR {
    /// The two letters that name the representation.
    pub open spec fn code(self) -> Seq<char> {
        match self {
            VR::AE => "AE"@,
            VR::AS => "AS"@,
            VR::AT => "AT"@,
            VR::CS => "CS"@,
            VR::DA => "DA"@,
            VR::DS => "DS"@,
            VR::DT => "DT"@,
            VR::FD => "FD"@,
            VR::FL => "FL"@,
            VR::IS => "IS"@,
            VR::LO => "LO"@,
            VR::LT => "LT"@,
            VR::OB => "OB"@,
            VR::OD => "OD"@,
            VR::OF => "OF"@,
            VR::OL => "OL"@,
            VR::OV => "OV"@,
            VR::OW => "OW"@,
            VR::PN => "PN"@,
            VR::SH => "SH"@,
            VR::SL => "SL"@,
            VR::SQ => "SQ"@,
            VR::SS => "SS"@,
            VR::ST => "ST"@,
            VR::SV => "SV"@,
            VR::TM => "TM"@,
            VR::UC => "UC"@,
            VR::UI => "UI"@,
            VR::UL => "UL"@,
            VR::UN => "UN"@,
            VR::UR => "UR"@,
            VR::US => "US"@,
            VR::UT => "UT"@,
            VR::UV => "UV"@,
        }
    }

    /// The two letters that name the representation.
    pub fn to_string(&self) -> (r: String)
        ensures
            r@ == self.code(),
    {
        match self {
            VR::AE => "AE".to_owned(),
            VR::AS => "AS".to_owned(),
            VR::AT => "AT".to_owned(),
            VR::CS => "CS".to_owned(),
            VR::DA => "DA".to_owned(),
            VR::DS => "DS".to_owned(),
            VR::DT => "DT".to_owned(),
            VR::FD => "FD".to_owned(),
            VR::FL => "FL".to_owned(),
            VR::IS => "IS".to_owned(),
            VR::LO => "LO".to_owned(),
            VR::LT => "LT".to_owned(),
            VR::OB => "OB".to_owned(),
            VR::OD => "OD".to_owned(),
            VR::OF => "OF".to_owned(),
            VR::OL => "OL".to_owned(),
            VR::OV => "OV".to_owned(),
            VR::OW => "OW".to_owned(),
            VR::PN => "PN".to_owned(),
            VR::SH => "SH".to_owned(),
            VR::SL => "SL".to_owned(),
            VR::SQ => "SQ".to_owned(),
            VR::SS => "SS".to_owned(),
            VR::ST => "ST".to_owned(),
            VR::SV => "SV".to_owned(),
            VR::TM => "TM".to_owned(),
            VR::UC => "UC".to_owned(),
            VR::UI => "UI".to_owned(),
            VR::UL => "UL".to_owned(),
            VR::UN => "UN".to_owned(),
            VR::UR => "UR".to_owned(),
            VR::US => "US".to_owned(),
            VR::UT => "UT".to_owned(),
            VR::UV => "UV".to_owned(),
        }
    }
}

/// How the value of an attribute is read, which its representation
/// decides.
#[derive(Clone, Copy, Debug, PartialEq, Eq, Structural)]
pub enum Decoding {
    /// One text that holds an age, read as a number of years.
    Age,
    /// Dates.
    Dates,
    /// Dates with times.
    DateTimes,
    /// Times of day.
    Times,
    /// Texts.
    Strings,
    /// Texts that hold decimal numbers.
    DecimalStrings,
    /// 32-bit floating-point numbers.
    Floats32,
    /// 64-bit floating-point numbers.
    Floats64,
    /// 32-bit signed integers.
    SignedLongs,
    /// 16-bit signed integers.
    SignedShorts,
    /// 32-bit unsigned integers.
    UnsignedLongs,
    /// 16-bit unsigned integers.
    UnsignedShorts,
    /// The name of a person.
    PersonName,
    /// The nested documents of a sequence.
    Items,
    /// Nothing: the value is not read.
    Unread,
}

impl VR {
    /// How a value of this representation is read.
    pub open spec fn decoding(self) -> Decoding {
        match self {
            VR::AS => Decoding::Age,
            VR::DA => Decoding::Dates,
            VR::DT => Decoding::DateTimes,
            VR::TM => Decoding::Times,
            VR::AE | VR::CS | VR::LT | VR::ST | VR::UI | VR::LO | VR::SH | VR::IS | VR::UT => Decoding::Strings,
            VR::DS => Decoding::DecimalStrings,
            VR::FL => Decoding::Floats32,
            VR::FD => Decoding::Floats64,
            VR::SL => Decoding::SignedLongs,
            VR::SS => Decoding::SignedShorts,
            VR::UL => Decoding::UnsignedLongs,
            VR::US => Decoding::UnsignedShorts,
            VR::PN => Decoding::PersonName,
            VR::SQ => Decoding::Items,
            _ => Decoding::Unread,
        }
    }

    /// How a value of this representation is read.
    pub fn value_decoding(&self) -> (r: Decoding)
        ensures
            r == self.decoding(),
    {
        match self {
            VR::AS => Decoding::Age,
            VR::DA => Decoding::Dates,
            VR::DT => Decoding::DateTimes,
            VR::TM => Decoding::Times,
            VR::AE | VR::CS | VR::LT | VR::ST | VR::UI | VR::LO | VR::SH | VR::IS | VR::UT => Decoding::Strings,
            VR::DS => Decoding::DecimalStrings,
            VR::FL => Decoding::Floats32,
            VR::FD => Decoding::Floats64,
            VR::SL => Decoding::SignedLongs,
            VR::SS => Decoding::SignedShorts,
            VR::UL => Decoding::UnsignedLongs,
            VR::US => Decoding::UnsignedShorts,
            VR::PN => Decoding::PersonName,
            VR::SQ => Decoding::Items,
            _ => Decoding::Unread,
        }
    }
}

impl Decoding {
    /// Whether a value is of the kind that this way of reading yields.
    pub open spec fn yields(self, value: &Value) -> bool {
        match self {
            Decoding::Age | Decoding::DecimalStrings | Decoding::Floats32 | Decoding::Floats64 => value is Decimals,
            Decoding::Dates => value is Dates,
            Decoding::DateTimes => value is DateTimes,
            Decoding::Times => value is Times,
            Decoding::Strings => value is Strings,
            Decoding::SignedLongs | Decoding::SignedShorts | Decoding::UnsignedLongs | Decoding::UnsignedShorts => value is Integers,
            Decoding::PersonName => value is PersonName,
            Decoding::Items => value is Items,
            Decoding::Unread => true,
        }
    }
}

/// One decoded number of an attribute.
#[derive(Clone, Debug, PartialEq, Eq)]
pub enum Decimal {
    /// A number: its decimal rendering with one fractional digit, and
    /// whether it is finite.
    Number { text: String, finite: bool },
    /// Text that is no number, with the message that says why.
    Malformed(String),
}

/// The components of a person's name; each may be absent.
#[derive(Clone, Debug, PartialEq, Eq)]
pub struct PersonName {
    pub family: Option<String>,
    pub middle: Option<String>,
    pub given: Option<String>,
    pub prefix: Option<String>,
    pub suffix: Option<String>,
}

/// The decoded value of an attribute.
#[derive(Debug, PartialEq, Eq)]
pub enum Value {
    /// Raw text values.
    Strings(Vec<String>),
    Dates(Vec<DicomDate>),
    DateTimes(Vec<DicomDateTime>),
    Times(Vec<DicomTime>),
    Decimals(Vec<Decimal>),
    Integers(Vec<i64>),
    PersonName(PersonName),
    /// The nested documents of a sequence.
    Items(Vec<DocumentNode>),
    /// Bytes that are never read.
    Opaque,
    /// A value that could not be decoded, with the message that says why.
    Invalid(String),
}

/// One attribute of a document.  `length` is the length of the encoded
/// value in bytes.
#[derive(Debug, PartialEq, Eq)]
pub struct DataElement {
    pub tag: Tag,
    pub vr: VR,
    pub length: u32,
    pub value: Value,
}

/// A document, or a document nested in a sequence: its attributes in order.
#[derive(Debug, PartialEq, Eq)]
pub struct DocumentNode {
    pub elements: Vec<DataElement>,
}

} // verus!
