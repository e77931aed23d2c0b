use dicom2rdf::datetime::{
    age_unit, date_to_iso, datetime_to_iso, iso_string_to_typed_literal, split_age_string,
    time_to_iso, typed_temporal_literal, AgeError, AgeUnit, DicomDate, DicomDateTime, DicomTime,
};

fn years(age: &str) -> Result<f64, String> {
    let parts = split_age_string(age).map_err(|e| e.message())?;
    let value: f64 = parts
        .number
        .parse()
        .map_err(|_| AgeError::InvalidNumber(parts.number.clone()).message())?;
    match age_unit(parts.unit).map_err(|e| e.message())? {
        AgeUnit::Day => Ok(value / 365.25),
        AgeUnit::Week => Ok(value * 7.0 / 365.25),
        AgeUnit::Month => Ok(value / 12.0),
        AgeUnit::Year => Ok(value),
    }
}

#[test]
fn age_strings_split_into_number_and_unit() {
    let parts = split_age_string("003D").unwrap();
    assert_eq!(parts.number, "003");
    assert_eq!(parts.unit, 'D');
    let parts = split_age_string("010Y").unwrap();
    assert_eq!(parts.number, "010");
    assert_eq!(parts.unit, 'Y');
    let parts = split_age_string("5w").unwrap();
    assert_eq!(parts.number, "5");
    assert_eq!(parts.unit, 'w');
}

#[test]
fn only_the_first_four_characters_of_an_age_are_read() {
    let parts = split_age_string("012Y and more").unwrap();
    assert_eq!(parts.number, "012");
    assert_eq!(parts.unit, 'Y');
}

#[test]
fn ages_convert_to_years() {
    assert_eq!(years("003D"), Ok(3.0 / 365.25));
    assert_eq!(years("010Y"), Ok(10.0));
    assert_eq!(years("000M"), Ok(0.0));
    assert_eq!(years("006M"), Ok(0.5));
    assert_eq!(years("002W"), Ok(14.0 / 365.25));
    assert_eq!(years("002w"), Ok(14.0 / 365.25));
}

#[test]
fn short_age_strings_fail() {
    assert_eq!(years("Y"), Err("Invalid length: 'Y'. Too short.".to_string()));
    assert_eq!(years(""), Err("Invalid length: ''. Too short.".to_string()));
    assert!(matches!(split_age_string("7"), Err(AgeError::TooShort(_))));
}

#[test]
fn unknown_age_units_fail() {
    assert_eq!(
        years("003X"),
        Err("Invalid unit: 'X'. Must be D, W, M, or Y.".to_string())
    );
    assert!(matches!(age_unit('x'), Err(AgeError::InvalidUnit('x'))));
    assert_eq!(age_unit('d').ok(), Some(AgeUnit::Day));
    assert_eq!(age_unit('W').ok(), Some(AgeUnit::Week));
    assert_eq!(age_unit('m').ok(), Some(AgeUnit::Month));
    assert_eq!(age_unit('Y').ok(), Some(AgeUnit::Year));
}

#[test]
fn ages_without_a_number_fail() {
    assert_eq!(
        years("abcY"),
        Err("Failed to parse numeric value: 'abc'".to_string())
    );
}

#[test]
fn dates_are_written_by_their_precision() {
    assert_eq!(date_to_iso(&DicomDate::Year(2024)), "2024");
    assert_eq!(date_to_iso(&DicomDate::Month(2024, 3)), "2024-03");
    assert_eq!(date_to_iso(&DicomDate::Day(2024, 3, 9)), "2024-03-09");
    assert_eq!(date_to_iso(&DicomDate::Day(812, 12, 31)), "0812-12-31");
}

#[test]
fn times_are_written_by_their_precision() {
    assert_eq!(time_to_iso(&DicomTime::Hour(7)), "07");
    assert_eq!(time_to_iso(&DicomTime::Minute(7, 5)), "07:05");
    assert_eq!(time_to_iso(&DicomTime::Second(23, 59, 60)), "23:59:60");
    assert_eq!(time_to_iso(&DicomTime::Fraction(1, 2, 3, 2500)), "01:02:03.002500");
    assert_eq!(time_to_iso(&DicomTime::Fraction(1, 2, 3, 123456)), "01:02:03.123456");
}

#[test]
fn datetimes_join_date_time_and_zone() {
    let only_date = DicomDateTime { date: DicomDate::Month(2024, 3), time: None, time_zone: None };
    assert_eq!(datetime_to_iso(&only_date), "2024-03");
    let with_time = DicomDateTime {
        date: DicomDate::Day(2024, 3, 9),
        time: Some(DicomTime::Minute(13, 45)),
        time_zone: None,
    };
    assert_eq!(datetime_to_iso(&with_time), "2024-03-09T13:45");
    let with_zone = DicomDateTime {
        date: DicomDate::Day(2024, 3, 9),
        time: Some(DicomTime::Second(13, 45, 1)),
        time_zone: Some("+01:00".to_string()),
    };
    assert_eq!(datetime_to_iso(&with_zone), "2024-03-09T13:45:01+01:00");
}

#[test]
fn an_eight_character_date_picks_the_date_datatype() {
    // The eight characters 20240309 are the date 2024-03-09.
    let iso = date_to_iso(&DicomDate::Day(2024, 3, 9));
    assert_eq!(iso_string_to_typed_literal(&iso).to_string(), "\"2024-03-09\"^^xsd:date");
}

#[test]
fn a_year_picks_the_year_datatype() {
    let iso = date_to_iso(&DicomDate::Year(1999));
    assert_eq!(iso_string_to_typed_literal(&iso).to_string(), "\"1999\"^^xsd:gYear");
}

#[test]
fn a_year_and_month_pick_the_year_month_datatype() {
    let iso = date_to_iso(&DicomDate::Month(1999, 12));
    assert_eq!(iso_string_to_typed_literal(&iso).to_string(), "\"1999-12\"^^xsd:gYearMonth");
}

#[test]
fn a_date_with_a_time_picks_the_datetime_datatype() {
    let iso = datetime_to_iso(&DicomDateTime {
        date: DicomDate::Day(2024, 3, 9),
        time: Some(DicomTime::Hour(8)),
        time_zone: None,
    });
    assert_eq!(iso, "2024-03-09T08");
    assert_eq!(
        iso_string_to_typed_literal(&iso).to_string(),
        "\"2024-03-09T08\"^^xsd:dateTime"
    );
}

#[test]
fn other_lengths_have_no_temporal_datatype() {
    assert!(typed_temporal_literal(&"".to_string()).is_none());
    assert!(typed_temporal_literal(&"123".to_string()).is_none());
    assert!(typed_temporal_literal(&"12345".to_string()).is_none());
    assert!(typed_temporal_literal(&"123456789".to_string()).is_none());
    assert!(typed_temporal_literal(&"1234".to_string()).is_some());
    // The length is counted in bytes.
    assert!(typed_temporal_literal(&"12\u{e9}".to_string()).is_some());
}
