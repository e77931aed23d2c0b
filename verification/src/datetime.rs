//! Scalar converters: age strings, and dates and times in ISO 8601 form.
use crate::text::{
    chars_of, padded_decimal, padded_decimal_len, pow10, push_char, push_padded, push_range,
    utf8_len, utf8_len_concat, utf8_len_is_encoded_len, utf8_len_one,
};
use crate::turtle::{IriView, TypedLiteral, TypedLiteralView, IRI};
use vstd::prelude::*;
use vstd::string::StringExecFns;

verus! {

/// A date of which the month and the day may be unknown.
#[derive(Clone, Copy, Debug, PartialEq, Eq)]
pub enum DicomDate {
    Year(u16),
    Month(u16, u8),
    Day(u16, u8, u8),
}

/// A time of day of which all but the hour may be unknown.  The fraction
/// counts microseconds.
#[derive(Clone, Copy, Debug, PartialEq, Eq)]
pub enum DicomTime {
    Hour(u8),
    Minute(u8, u8),
    Second(u8, u8, u8),
    Fraction(u8, u8, u8, u32),
}

/// A date with an optional time of day and an optional time zone, the zone
/// held as the text of its offset from UTC.
#[derive(Clone, Debug, PartialEq, Eq)]
pub struct DicomDateTime {
    pub date: DicomDate,
    pub time: Option<DicomTime>,
    pub time_zone: Option<String>,
}

impl DicomDate {
    /// The year.
    pub open spec fn year(self) -> u16 {
        match self {
            DicomDate::Year(y) => y,
            DicomDate::Month(y, _) => y,
            DicomDate::Day(y, _, _) => y,
        }
    }

    /// The month, where it is known.
    pub open spec fn month(self) -> Option<u8> {
        match self {
            DicomDate::Year(_) => None,
            DicomDate::Month(_, m) => Some(m),
            DicomDate::Day(_, m, _) => Some(m),
        }
    }

    /// The day, where it is known.
    pub open spec fn day(self) -> Option<u8> {
        match self {
            DicomDate::Year(_) => None,
            DicomDate::Month(_, _) => None,
            DicomDate::Day(_, _, d) => Some(d),
        }
    }
}

/// A date in ISO 8601 form: `YYYY`, `YYYY-MM` or `YYYY-MM-DD`.
pub open spec fn date_iso(dd: DicomDate) -> Seq<char> {
    padded_decimal(dd.year() as nat, 4) + (match dd.month() {
        Some(m) => seq!['-'] + padded_decimal(m as nat, 2),
        None => Seq::empty(),
    }) + (match dd.day() {
        Some(d) => seq!['-'] + padded_decimal(d as nat, 2),
        None => Seq::empty(),
    })
}

/// A time of day in ISO 8601 form: `hh`, `hh:mm`, `hh:mm:ss` or
/// `hh:mm:ss.ffffff`.
pub open spec fn time_iso(dt: DicomTime) -> Seq<char> {
    match dt {
        DicomTime::Hour(h) => padded_decimal(h as nat, 2),
        DicomTime::Minute(h, m) => padded_decimal(h as nat, 2) + seq![':'] + padded_decimal(
            m as nat,
            2,
        ),
        DicomTime::Second(h, m, s) => padded_decimal(h as nat, 2) + seq![':'] + padded_decimal(
            m as nat,
            2,
        ) + seq![':'] + padded_decimal(s as nat, 2),
        DicomTime::Fraction(h, m, s, f) => padded_decimal(h as nat, 2) + seq![':']
            + padded_decimal(m as nat, 2) + seq![':'] + padded_decimal(s as nat, 2) + seq!['.']
            + padded_decimal(f as nat, 6),
    }
}

/// A date and time in ISO 8601 form: the date, then `T` and the time where
/// there is one, then the time zone where there is one.
pub open spec fn datetime_iso(ddt: &DicomDateTime) -> Seq<char> {
    date_iso(ddt.date) + (match ddt.time {
        Some(t) => seq!['T'] + time_iso(t),
        None => Seq::empty(),
    }) + (match ddt.time_zone {
        Some(tz) => tz@,
        None => Seq::empty(),
    })
}

/// The datatype that an ISO 8601 text of the given length in bytes has, by
/// its local name: a year for 4, a year and month for 7, a date for 10, a
/// date and time for more; none for any other length.
pub open spec fn temporal_datatype(len: nat) -> Option<Seq<char>> {
    if len == 4 {
        Some("gYear"@)
    } else if len == 7 {
        Some("gYearMonth"@)
    } else if len == 10 {
        Some("date"@)
    } else if len > 10 {
        Some("dateTime"@)
    } else {
        None
    }
}

/// The typed literal for an ISO 8601 text, where its length gives it a
/// datatype.
pub fn typed_temporal_literal(iso: &String) -> (r: Option<TypedLiteral>)
    ensures
        match temporal_datatype(utf8_len(iso@)) {
            Some(name) => r.is_some() && r.unwrap()@ == (TypedLiteralView {
                lexical: iso@,
                datatype: IriView::Prefixed { prefix: "xsd"@, local: name },
            }),
            None => r.is_none(),
        },
{
    proof {
        utf8_len_is_encoded_len(iso@);
    }
    let len = iso.as_str().as_bytes().len();
    if len == 4 {
        Some(TypedLiteral::new(iso.as_str(), IRI::prefix("xsd", "gYear")))
    } else if len == 7 {
        Some(TypedLiteral::new(iso.as_str(), IRI::prefix("xsd", "gYearMonth")))
    } else if len == 10 {
        Some(TypedLiteral::new(iso.as_str(), IRI::prefix("xsd", "date")))
    } else if len > 10 {
        Some(TypedLiteral::new(iso.as_str(), IRI::prefix("xsd", "dateTime")))
    } else {
        None
    }
}

/// The typed literal for an ISO 8601 text whose length gives it a datatype.
pub fn iso_string_to_typed_literal(iso: &String) -> (r: TypedLiteral)
    requires
        temporal_datatype(utf8_len(iso@)).is_some(),
    ensures
        r@ == (TypedLiteralView {
            lexical: iso@,
            datatype: IriView::Prefixed {
                prefix: "xsd"@,
                local: temporal_datatype(utf8_len(iso@)).unwrap(),
            },
        }),
{
    typed_temporal_literal(iso).unwrap()
}

/// A date in ISO 8601 form.
pub fn date_to_iso(dd: &DicomDate) -> (r: String)
    ensures
        r@ == date_iso(*dd),
{
    let mut r = String::new();
    match dd {
        DicomDate::Year(y) => {
            push_padded(&mut r, *y as u64, 4);
        },
        DicomDate::Month(y, m) => {
            push_padded(&mut r, *y as u64, 4);
            push_char(&mut r, '-');
            push_padded(&mut r, *m as u64, 2);
        },
        DicomDate::Day(y, m, d) => {
            push_padded(&mut r, *y as u64, 4);
            push_char(&mut r, '-');
            push_padded(&mut r, *m as u64, 2);
            push_char(&mut r, '-');
            push_padded(&mut r, *d as u64, 2);
        },
    }
    assert(r@ =~= date_iso(*dd));
    r
}

/// A time of day in ISO 8601 form.
pub fn time_to_iso(dt: &DicomTime) -> (r: String)
    ensures
        r@ == time_iso(*dt),
{
    let mut r = String::new();
    match dt {
        DicomTime::Hour(h) => {
            push_padded(&mut r, *h as u64, 2);
        },
        DicomTime::Minute(h, m) => {
            push_padded(&mut r, *h as u64, 2);
            push_char(&mut r, ':');
            push_padded(&mut r, *m as u64, 2);
        },
        DicomTime::Second(h, m, s) => {
            push_padded(&mut r, *h as u64, 2);
            push_char(&mut r, ':');
            push_padded(&mut r, *m as u64, 2);
            push_char(&mut r, ':');
            push_padded(&mut r, *s as u64, 2);
        },
        DicomTime::Fraction(h, m, s, f) => {
            push_padded(&mut r, *h as u64, 2);
            push_char(&mut r, ':');
            push_padded(&mut r, *m as u64, 2);
            push_char(&mut r, ':');
            push_padded(&mut r, *s as u64, 2);
            push_char(&mut r, '.');
            push_padded(&mut r, *f as u64, 6);
        },
    }
    assert(r@ =~= time_iso(*dt));
    r
}

/// A date and time in ISO 8601 form.
pub fn datetime_to_iso(ddt: &DicomDateTime) -> (r: String)
    ensures
        r@ == datetime_iso(ddt),
{
    let mut r = date_to_iso(&ddt.date);
    match &ddt.time {
        Some(t) => {
            push_char(&mut r, 'T');
            let time = time_to_iso(t);
            r.append(time.as_str());
        },
        None => {},
    }
    match &ddt.time_zone {
        Some(tz) => {
            r.append(tz.as_str());
        },
        None => {},
    }
    assert(r@ =~= datetime_iso(ddt));
    r
}

/// The unit of an age.
#[derive(Clone, Copy, Debug, PartialEq, Eq)]
pub enum AgeUnit {
    Day,
    Week,
    Month,
    Year,
}

/// Why an age string is refused.
#[derive(Clone, Debug, PartialEq, Eq)]
pub enum AgeError {
    /// The string has fewer than two characters; holds what was read.
    TooShort(String),
    /// The part before the unit is no number; holds that part.
    InvalidNumber(String),
    /// The last character is no unit; holds that character.
    InvalidUnit(char),
}

/// The two parts of an age string: the text of the number, and the letter
/// of the unit.
#[derive(Clone, Debug, PartialEq, Eq)]
pub struct AgeParts {
    pub number: String,
    pub unit: char,
}

/// The part of an age string that is read: its first four characters.
pub open spec fn age_window(s: Seq<char>) -> Seq<char> {
    if s.len() > 4 {
        s.take(4)
    } else {
        s
    }
}

/// The unit that a letter stands for, in either case.
pub open spec fn unit_of(c: char) -> Option<AgeUnit> {
    if c == 'D' || c == 'd' {
        Some(AgeUnit::Day)
    } else if c == 'W' || c == 'w' {
        Some(AgeUnit::Week)
    } else if c == 'M' || c == 'm' {
        Some(AgeUnit::Month)
    } else if c == 'Y' || c == 'y' {
        Some(AgeUnit::Year)
    } else {
        None
    }
}

impl AgeError {
    /// The message that reports the refusal.
    pub open spec fn message_text(&self) -> Seq<char> {
        match self {
            AgeError::TooShort(read) => "Invalid length: '"@ + read@ + "'. Too short."@,
            AgeError::InvalidNumber(number) => "Failed to parse numeric value: '"@ + number@
                + "'"@,
            AgeError::InvalidUnit(unit) => "Invalid unit: '"@ + seq![*unit]
                + "'. Must be D, W, M, or Y."@,
        }
    }

    /// The message that reports the refusal.
    pub fn message(&self) -> (r: String)
        ensures
            r@ == self.message_text(),
    {
        match self {
            AgeError::TooShort(read) => {
                let mut r = String::from_str("Invalid length: '");
                r.append(read.as_str());
                r.append("'. Too short.");
                r
            },
            AgeError::InvalidNumber(number) => {
                let mut r = String::from_str("Failed to parse numeric value: '");
                r.append(number.as_str());
                r.append("'");
                r
            },
            AgeError::InvalidUnit(unit) => {
                let mut r = String::from_str("Invalid unit: '");
                push_char(&mut r, *unit);
                r.append("'. Must be D, W, M, or Y.");
                assert(r@ =~= self.message_text());
                r
            },
        }
    }
}

/// Splits an age string into the text of its number and the letter of its
/// unit: of the first four characters the last is the unit, the others the
/// number.  Fewer than two characters are refused.
pub fn split_age_string(age_str: &str) -> (r: Result<AgeParts, AgeError>)
    ensures
        match r {
            Ok(parts) => {
                &&& age_window(age_str@).len() >= 2
                &&& parts.number@ == age_window(age_str@).drop_last()
                &&& parts.unit == age_window(age_str@).last()
            },
            Err(e) => {
                &&& age_window(age_str@).len() < 2
                &&& e matches AgeError::TooShort(read)
                &&& read@ == age_window(age_str@)
            },
        },
{
    let chars = chars_of(age_str);
    let len: usize = if chars.len() > 4 {
        4
    } else {
        chars.len()
    };
    assert(chars@.subrange(0, len as int) =~= age_window(age_str@));
    if len < 2 {
        let mut read = String::new();
        push_range(&mut read, &chars, 0, len);
        assert(read@ =~= age_window(age_str@));
        return Err(AgeError::TooShort(read));
    }
    let mut number = String::new();
    push_range(&mut number, &chars, 0, len - 1);
    assert(number@ =~= age_window(age_str@).drop_last());
    Ok(AgeParts { number, unit: chars[len - 1] })
}

/// The unit that a letter stands for, in either case; any other character
/// is refused.
pub fn age_unit(unit: char) -> (r: Result<AgeUnit, AgeError>)
    ensures
        match r {
            Ok(u) => unit_of(unit) == Some(u),
            Err(e) => unit_of(unit).is_none() && e == AgeError::InvalidUnit(unit),
        },
{
    if unit == 'D' || unit == 'd' {
        Ok(AgeUnit::Day)
    } else if unit == 'W' || unit == 'w' {
        Ok(AgeUnit::Week)
    } else if unit == 'M' || unit == 'm' {
        Ok(AgeUnit::Month)
    } else if unit == 'Y' || unit == 'y' {
        Ok(AgeUnit::Year)
    } else {
        Err(AgeError::InvalidUnit(unit))
    }
}

impl DicomDate {
    /// Whether the date is one of the calendar: a year of at most four
    /// digits, a month from 1 to 12 and a day from 1 to 31.
    pub open spec fn is_calendar_date(self) -> bool {
        &&& self.year() <= 9999
        &&& self.month() matches Some(m) ==> 1 <= m <= 12
        &&& self.day() matches Some(d) ==> 1 <= d <= 31
    }
}

/// The length in bytes of a calendar date in ISO 8601 form: 4 for a year,
/// 7 for a year and month, 10 for a full date.
pub proof fn date_iso_len(dd: DicomDate)
    requires
        dd.is_calendar_date(),
    ensures
        utf8_len(date_iso(dd)) == match dd {
            DicomDate::Year(_) => 4nat,
            DicomDate::Month(_, _) => 7nat,
            DicomDate::Day(_, _, _) => 10nat,
        },
{
    assert(pow10(4) == 10000 && pow10(2) == 100) by {
        reveal_with_fuel(pow10, 5);
    }
    let year = padded_decimal(dd.year() as nat, 4);
    padded_decimal_len(dd.year() as nat, 4);
    utf8_len_one('-');
    match dd {
        DicomDate::Year(_) => {
            assert(date_iso(dd) =~= year);
        },
        DicomDate::Month(_, m) => {
            let month = seq!['-'] + padded_decimal(m as nat, 2);
            padded_decimal_len(m as nat, 2);
            utf8_len_concat(seq!['-'], padded_decimal(m as nat, 2));
            utf8_len_concat(year, month);
            assert(date_iso(dd) =~= year + month);
        },
        DicomDate::Day(_, m, d) => {
            let month = seq!['-'] + padded_decimal(m as nat, 2);
            let day = seq!['-'] + padded_decimal(d as nat, 2);
            padded_decimal_len(m as nat, 2);
            padded_decimal_len(d as nat, 2);
            utf8_len_concat(seq!['-'], padded_decimal(m as nat, 2));
            utf8_len_concat(seq!['-'], padded_decimal(d as nat, 2));
            utf8_len_concat(year, month);
            utf8_len_concat(year + month, day);
        },
    }
}

/// The datatype of a calendar date follows from what is known of it: a
/// year alone is a year, a year and month a year-month, and a full date,
/// which the documents hold in eight characters, a date.
pub proof fn date_picks_its_datatype(dd: DicomDate)
    requires
        dd.is_calendar_date(),
    ensures
        temporal_datatype(utf8_len(date_iso(dd))) == Some(
            match dd {
                DicomDate::Year(_) => "gYear"@,
                DicomDate::Month(_, _) => "gYearMonth"@,
                DicomDate::Day(_, _, _) => "date"@,
            },
        ),
{
    date_iso_len(dd);
}

/// A full calendar date with a time of day is longer than ten bytes, and
/// so a date and time.
pub proof fn date_with_time_is_a_datetime(ddt: &DicomDateTime)
    requires
        ddt.date.is_calendar_date(),
        ddt.date is Day,
        ddt.time.is_some(),
    ensures
        temporal_datatype(utf8_len(datetime_iso(ddt))) == Some("dateTime"@),
{
    date_iso_len(ddt.date);
    let time = seq!['T'] + time_iso(ddt.time.unwrap());
    let zone = match ddt.time_zone {
        Some(tz) => tz@,
        None => Seq::empty(),
    };
    utf8_len_one('T');
    utf8_len_concat(seq!['T'], time_iso(ddt.time.unwrap()));
    utf8_len_concat(date_iso(ddt.date), time);
    utf8_len_concat(date_iso(ddt.date) + time, zone);
}

} // verus!
