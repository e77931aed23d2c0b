use dicom2rdf::config::{Config, DicomConfigEntry, NonDicomConfigEntry};
use dicom2rdf::datetime::{DicomDate, DicomDateTime, DicomTime};
use dicom2rdf::dicom::write_triples;
use dicom2rdf::document::{
    DataElement, Decimal, DocumentNode, PersonName, Tag, Value, VR,
};
use dicom2rdf::turtle::{BlankNodeAllocator, IRI};

fn config() -> Config {
    Config {
        dicom: vec![
            DicomConfigEntry {
                iri: "http://snomed.info/id/".to_string(),
                prefix: "sct".to_string(),
                coding_scheme: "SCT".to_string(),
            },
            DicomConfigEntry {
                iri: "http://dicom.nema.org/resources/ontology/DCM/".to_string(),
                prefix: "dcm".to_string(),
                coding_scheme: "DCM".to_string(),
            },
        ],
        non_dicom: vec![NonDicomConfigEntry {
            iri: "http://qudt.org/schema/qudt/".to_string(),
            prefix: "qudt".to_string(),
        }],
        fallback: NonDicomConfigEntry {
            iri: "http://example.org/fallback/".to_string(),
            prefix: "fb".to_string(),
        },
        forbidden_code_meanings: vec!["Patient Name".to_string(), "Address".to_string()],
        forbidden_dicom_tags: vec![Tag(0x0010, 0x0020)],
    }
}

fn element(group: u16, elem: u16, vr: VR, value: Value) -> DataElement {
    DataElement { tag: Tag(group, elem), vr, length: 8, value }
}

fn strings(values: &[&str]) -> Value {
    Value::Strings(values.iter().map(|s| s.to_string()).collect())
}

fn number(text: &str) -> Decimal {
    Decimal::Number { text: text.to_string(), finite: true }
}

fn node(elements: Vec<DataElement>) -> DocumentNode {
    DocumentNode { elements }
}

struct Walk {
    triples: String,
    errors: String,
    carry: Option<String>,
    max_depth: u8,
}

fn walk(document: &DocumentNode) -> Walk {
    let mut triples = String::new();
    let mut errors = String::new();
    let mut allocator = BlankNodeAllocator::new();
    let subject = IRI::prefix("dicom2rdf", "f.dcm");
    let (carry, max_depth) = write_triples(
        &mut triples,
        &mut errors,
        &mut allocator,
        &subject,
        document,
        "f.dcm",
        &config(),
        0,
    );
    Walk { triples, errors, carry, max_depth }
}

#[test]
fn an_empty_document_writes_nothing() {
    let w = walk(&node(vec![]));
    assert_eq!(w.triples, "");
    assert_eq!(w.errors, "");
    assert_eq!(w.carry, None);
    assert_eq!(w.max_depth, 0);
}

#[test]
fn an_attribute_with_an_empty_value_writes_nothing() {
    let mut e = element(0x0008, 0x0060, VR::CS, strings(&["SR"]));
    e.length = 0;
    let mut broken = element(0x0020, 0x0013, VR::IS, strings(&["x"]));
    broken.length = 0;
    let w = walk(&node(vec![e, broken]));
    assert_eq!(w.triples, "");
    assert_eq!(w.errors, "");
}

#[test]
fn pixel_data_is_replaced_by_a_placeholder() {
    let w = walk(&node(vec![element(0x7FE0, 0x0010, VR::OW, Value::Opaque)]));
    assert_eq!(w.triples, "dicom2rdf:f.dcm dicom2rdf:7FE00010 \"<pixel data>\" .\n");
}

#[test]
fn a_forbidden_attribute_is_replaced_by_its_tag() {
    let w = walk(&node(vec![element(0x0010, 0x0020, VR::LO, strings(&["12345"]))]));
    assert_eq!(w.triples, "dicom2rdf:f.dcm dicom2rdf:00100020 \"<(0010,0020)>\" .\n");
    assert_eq!(w.errors, "");
}

#[test]
fn text_values_are_cleaned_and_repeated() {
    let w = walk(&node(vec![element(0x0008, 0x0060, VR::CS, strings(&[" SR ", "DOC\0"]))]));
    assert_eq!(
        w.triples,
        "dicom2rdf:f.dcm dicom2rdf:00080060 \"SR\" .\n\
         dicom2rdf:f.dcm dicom2rdf:00080060 \"DOC\" .\n"
    );
}

#[test]
fn every_text_representation_is_a_plain_string() {
    for vr in [VR::AE, VR::CS, VR::LT, VR::ST, VR::UI, VR::LO, VR::SH, VR::UT] {
        let w = walk(&node(vec![element(0x0008, 0x103E, vr, strings(&["a \"b\""]))]));
        assert_eq!(w.triples, "dicom2rdf:f.dcm dicom2rdf:0008103E \"a \\\"b\\\"\" .\n");
        assert_eq!(w.errors, "");
    }
}

#[test]
fn dates_become_typed_literals() {
    let w = walk(&node(vec![element(
        0x0008,
        0x0020,
        VR::DA,
        Value::Dates(vec![DicomDate::Day(2024, 3, 9), DicomDate::Year(1999)]),
    )]));
    assert_eq!(
        w.triples,
        "dicom2rdf:f.dcm dicom2rdf:00080020 \"2024-03-09\"^^xsd:date .\n\
         dicom2rdf:f.dcm dicom2rdf:00080020 \"1999\"^^xsd:gYear .\n"
    );
}

#[test]
fn datetimes_become_typed_literals() {
    let w = walk(&node(vec![element(
        0x0008,
        0x002A,
        VR::DT,
        Value::DateTimes(vec![DicomDateTime {
            date: DicomDate::Day(2024, 3, 9),
            time: Some(DicomTime::Fraction(1, 2, 3, 500000)),
            time_zone: Some("+02:00".to_string()),
        }]),
    )]));
    assert_eq!(
        w.triples,
        "dicom2rdf:f.dcm dicom2rdf:0008002A \"2024-03-09T01:02:03.500000+02:00\"^^xsd:dateTime .\n"
    );
}

#[test]
fn a_datetime_of_no_known_length_fails_the_attribute() {
    let w = walk(&node(vec![element(
        0x0008,
        0x002A,
        VR::DT,
        Value::DateTimes(vec![DicomDateTime {
            date: DicomDate::Year(2024),
            time: None,
            time_zone: Some("Z".to_string()),
        }]),
    )]));
    assert_eq!(w.triples, "");
    assert_eq!(w.errors, "f.dcm: (0008,002A) DT: Value has invalid length\n");
}

#[test]
fn times_have_the_time_datatype() {
    let w = walk(&node(vec![element(
        0x0008,
        0x0030,
        VR::TM,
        Value::Times(vec![DicomTime::Second(13, 5, 0)]),
    )]));
    assert_eq!(w.triples, "dicom2rdf:f.dcm dicom2rdf:00080030 \"13:05:00\"^^xsd:time .\n");
}

#[test]
fn ages_and_floats_are_written_as_numbers() {
    let w = walk(&node(vec![
        element(0x0010, 0x1010, VR::AS, Value::Decimals(vec![number("10.0")])),
        element(0x0018, 0x0050, VR::FL, Value::Decimals(vec![number("1.5"), number("-0.2")])),
    ]));
    assert_eq!(
        w.triples,
        "dicom2rdf:f.dcm dicom2rdf:00101010 10.0 .\n\
         dicom2rdf:f.dcm dicom2rdf:00180050 1.5 .\n\
         dicom2rdf:f.dcm dicom2rdf:00180050 -0.2 .\n"
    );
}

#[test]
fn values_that_are_not_finite_are_passed_over() {
    for vr in [VR::DS, VR::FD] {
        let w = walk(&node(vec![
            element(
                0x0040,
                0xA30A,
                vr,
                Value::Decimals(vec![
                    number("1.0"),
                    Decimal::Number { text: "NaN".to_string(), finite: false },
                    Decimal::Number { text: "inf".to_string(), finite: false },
                    number("2.0"),
                ]),
            ),
            element(0x0008, 0x0060, VR::CS, strings(&["SR"])),
        ]));
        assert_eq!(
            w.triples,
            "dicom2rdf:f.dcm dicom2rdf:0040A30A 1.0 .\n\
             dicom2rdf:f.dcm dicom2rdf:0040A30A 2.0 .\n\
             dicom2rdf:f.dcm dicom2rdf:00080060 \"SR\" .\n"
        );
        assert_eq!(w.errors, "");
    }
}

#[test]
fn a_32_bit_float_that_is_not_finite_is_still_written() {
    let w = walk(&node(vec![element(
        0x0018,
        0x0050,
        VR::FL,
        Value::Decimals(vec![Decimal::Number { text: "inf".to_string(), finite: false }]),
    )]));
    assert_eq!(w.triples, "dicom2rdf:f.dcm dicom2rdf:00180050 inf .\n");
}

#[test]
fn a_malformed_number_fails_the_attribute_after_what_was_written() {
    let w = walk(&node(vec![
        element(
            0x0040,
            0xA30A,
            VR::DS,
            Value::Decimals(vec![
                number("1.0"),
                Decimal::Malformed("invalid float literal".to_string()),
                number("2.0"),
            ]),
        ),
        element(0x0008, 0x0060, VR::CS, strings(&["SR"])),
    ]));
    assert_eq!(
        w.triples,
        "dicom2rdf:f.dcm dicom2rdf:0040A30A 1.0 .\n\
         dicom2rdf:f.dcm dicom2rdf:00080060 \"SR\" .\n"
    );
    assert_eq!(w.errors, "f.dcm: (0040,A30A) DS: invalid float literal\n");
}

#[test]
fn integer_strings_are_read_as_integers() {
    let w = walk(&node(vec![element(0x0020, 0x0013, VR::IS, strings(&[" 12 ", "-3", "x", "4"]))]));
    assert_eq!(
        w.triples,
        "dicom2rdf:f.dcm dicom2rdf:00200013 12 .\n\
         dicom2rdf:f.dcm dicom2rdf:00200013 -3 .\n"
    );
    assert_eq!(w.errors, "f.dcm: (0020,0013) IS: invalid digit found in string\n");
}

#[test]
fn binary_integers_are_widened() {
    for vr in [VR::SL, VR::SS, VR::UL, VR::US] {
        let w = walk(&node(vec![element(
            0x0028,
            0x0010,
            vr,
            Value::Integers(vec![512, -7, 4294967295]),
        )]));
        assert_eq!(
            w.triples,
            "dicom2rdf:f.dcm dicom2rdf:00280010 512 .\n\
             dicom2rdf:f.dcm dicom2rdf:00280010 -7 .\n\
             dicom2rdf:f.dcm dicom2rdf:00280010 4294967295 .\n"
        );
    }
}

#[test]
fn opaque_streams_are_replaced_by_placeholders() {
    let w = walk(&node(vec![
        element(0x0042, 0x0011, VR::OB, Value::Opaque),
        element(0x0043, 0x0011, VR::UN, Value::Invalid("unreadable".to_string())),
        element(0x0044, 0x0011, VR::OW, Value::Opaque),
    ]));
    assert_eq!(
        w.triples,
        "dicom2rdf:f.dcm dicom2rdf:00420011 \"<octet stream>\" .\n\
         dicom2rdf:f.dcm dicom2rdf:00430011 \"<octet stream>\" .\n\
         dicom2rdf:f.dcm dicom2rdf:00440011 \"<OW>\" .\n"
    );
    assert_eq!(w.errors, "");
}

#[test]
fn other_representations_write_nothing() {
    for vr in [VR::AT, VR::OD, VR::OF, VR::OL, VR::OV, VR::SV, VR::UC, VR::UR, VR::UV] {
        let w = walk(&node(vec![element(0x0042, 0x0011, vr, strings(&["x"]))]));
        assert_eq!(w.triples, "");
        assert_eq!(w.errors, "");
    }
}

#[test]
fn a_value_that_could_not_be_decoded_fails_the_attribute() {
    let w = walk(&node(vec![
        element(0x0008, 0x0020, VR::DA, Value::Invalid("bad date".to_string())),
        element(0x0008, 0x0060, VR::CS, strings(&["SR"])),
    ]));
    assert_eq!(w.triples, "dicom2rdf:f.dcm dicom2rdf:00080060 \"SR\" .\n");
    assert_eq!(w.errors, "f.dcm: (0008,0020) DA: bad date\n");
}

#[test]
fn a_value_of_the_wrong_kind_fails_the_attribute() {
    let w = walk(&node(vec![element(0x0008, 0x0020, VR::DA, strings(&["20240309"]))]));
    assert_eq!(w.triples, "");
    assert_eq!(
        w.errors,
        "f.dcm: (0008,0020) DA: Value does not match its representation\n"
    );
}

#[test]
fn a_known_coding_scheme_becomes_its_identifier() {
    let w = walk(&node(vec![element(0x0008, 0x0102, VR::SH, strings(&["DCM ", "SCT"]))]));
    assert_eq!(
        w.triples,
        "dicom2rdf:f.dcm dicom2rdf:00080102 <http://dicom.nema.org/resources/ontology/DCM/> .\n\
         dicom2rdf:f.dcm dicom2rdf:00080102 <http://snomed.info/id/> .\n"
    );
}

#[test]
fn an_unknown_coding_scheme_falls_back() {
    let w = walk(&node(vec![element(0x0008, 0x0102, VR::SH, strings(&["99 LOCAL"]))]));
    assert_eq!(
        w.triples,
        "dicom2rdf:f.dcm dicom2rdf:00080102 <http://example.org/fallback/99%20LOCAL_> .\n"
    );
}

#[test]
fn a_person_name_gets_a_blank_node() {
    let name = PersonName {
        family: Some("Doe".to_string()),
        middle: None,
        given: Some("Jane".to_string()),
        prefix: Some("Dr".to_string()),
        suffix: None,
    };
    let w = walk(&node(vec![element(0x0010, 0x0010, VR::PN, Value::PersonName(name))]));
    assert_eq!(
        w.triples,
        "dicom2rdf:f.dcm dicom2rdf:person_name <bn0> .\n\
         <bn0> dicom2rdf:pn_family \"Doe\" .\n\
         <bn0> dicom2rdf:pn_given \"Jane\" .\n\
         <bn0> dicom2rdf:pn_prefix \"Dr\" .\n"
    );
    assert_eq!(w.errors, "");
}

#[test]
fn a_person_name_with_all_components_has_five_parts() {
    let name = PersonName {
        family: Some("a".to_string()),
        middle: Some("b".to_string()),
        given: Some("c".to_string()),
        prefix: Some("d".to_string()),
        suffix: Some("e".to_string()),
    };
    let w = walk(&node(vec![element(0x0010, 0x0010, VR::PN, Value::PersonName(name))]));
    assert_eq!(
        w.triples,
        "dicom2rdf:f.dcm dicom2rdf:person_name <bn0> .\n\
         <bn0> dicom2rdf:pn_family \"a\" .\n\
         <bn0> dicom2rdf:pn_middle \"b\" .\n\
         <bn0> dicom2rdf:pn_given \"c\" .\n\
         <bn0> dicom2rdf:pn_prefix \"d\" .\n\
         <bn0> dicom2rdf:pn_suffix \"e\" .\n"
    );
}

#[test]
fn a_sequence_links_each_item_from_a_blank_node() {
    let item = |code: &str| node(vec![element(0x0008, 0x0100, VR::SH, strings(&[code]))]);
    let w = walk(&node(vec![element(
        0x0040,
        0xA043,
        VR::SQ,
        Value::Items(vec![item("A"), item("B")]),
    )]));
    assert_eq!(
        w.triples,
        "dicom2rdf:f.dcm dicom2rdf:0040A043 <bn0> .\n\
         <bn0> dicom2rdf:00080100 \"A\" .\n\
         dicom2rdf:f.dcm dicom2rdf:0040A043 <bn1> .\n\
         <bn1> dicom2rdf:00080100 \"B\" .\n"
    );
    assert_eq!(w.max_depth, 0);
}

#[test]
fn a_content_sequence_numbers_its_items_and_goes_deeper() {
    let item = |code: &str| node(vec![element(0x0040, 0xA040, VR::CS, strings(&[code]))]);
    let w = walk(&node(vec![element(
        0x0040,
        0xA730,
        VR::SQ,
        Value::Items(vec![item("TEXT"), item("CODE")]),
    )]));
    assert_eq!(
        w.triples,
        "dicom2rdf:f.dcm dicom2rdf:0040A730 <bn0> .\n\
         <bn0> dicom2rdf:index 0 .\n\
         <bn0> dicom2rdf:item <bn1> .\n\
         <bn1> dicom2rdf:0040A040 \"TEXT\" .\n\
         dicom2rdf:f.dcm dicom2rdf:0040A730 <bn2> .\n\
         <bn2> dicom2rdf:index 1 .\n\
         <bn2> dicom2rdf:item <bn3> .\n\
         <bn3> dicom2rdf:0040A040 \"CODE\" .\n"
    );
    assert_eq!(w.max_depth, 1);
}

#[test]
fn a_sequence_without_items_fails() {
    let w = walk(&node(vec![element(0x0040, 0xA730, VR::SQ, Value::Opaque)]));
    assert_eq!(w.triples, "");
    assert_eq!(
        w.errors,
        "f.dcm: (0040,A730) SQ: Cannot retrieve items of a non-sequence data element\n"
    );
}

fn content(items: Vec<DocumentNode>) -> DataElement {
    element(0x0040, 0xA730, VR::SQ, Value::Items(items))
}

#[test]
fn three_nested_content_sequences_have_depth_three() {
    let level3 = node(vec![element(0x0040, 0xA040, VR::CS, strings(&["TEXT"]))]);
    let level2 = node(vec![content(vec![level3])]);
    let level1 = node(vec![content(vec![level2])]);
    let document = node(vec![
        element(0x0008, 0x0060, VR::CS, strings(&["SR"])),
        content(vec![level1, node(vec![])]),
    ]);
    assert_eq!(walk(&document).max_depth, 3);
}

#[test]
fn a_document_without_content_sequences_has_depth_zero() {
    let other = element(
        0x0040,
        0xA043,
        VR::SQ,
        Value::Items(vec![node(vec![element(0x0008, 0x0100, VR::SH, strings(&["A"]))])]),
    );
    let document = node(vec![element(0x0008, 0x0060, VR::CS, strings(&["SR"])), other]);
    assert_eq!(walk(&document).max_depth, 0);
}

fn concept_name(meaning: &str) -> DataElement {
    element(
        0x0040,
        0xA043,
        VR::SQ,
        Value::Items(vec![node(vec![
            element(0x0008, 0x0100, VR::SH, strings(&["121029"])),
            element(0x0008, 0x0104, VR::LO, strings(&[meaning])),
        ])]),
    )
}

#[test]
fn free_text_after_a_forbidden_meaning_is_redacted() {
    let item = node(vec![
        element(0x0040, 0xA040, VR::CS, strings(&["TEXT"])),
        concept_name("Patient Name "),
        element(0x0040, 0xA160, VR::UT, strings(&["John Doe"])),
    ]);
    let w = walk(&node(vec![content(vec![item])]));
    assert_eq!(
        w.triples,
        "dicom2rdf:f.dcm dicom2rdf:0040A730 <bn0> .\n\
         <bn0> dicom2rdf:index 0 .\n\
         <bn0> dicom2rdf:item <bn1> .\n\
         <bn1> dicom2rdf:0040A040 \"TEXT\" .\n\
         <bn1> dicom2rdf:0040A043 <bn2> .\n\
         <bn2> dicom2rdf:00080100 \"121029\" .\n\
         <bn2> dicom2rdf:00080104 \"Patient Name\" .\n\
         <bn1> dicom2rdf:0040A160 \"<Patient Name>\" .\n"
    );
    assert_eq!(w.carry, Some("Patient Name".to_string()));
    assert_eq!(w.errors, "");
}

#[test]
fn free_text_after_an_allowed_meaning_is_kept() {
    let item = node(vec![
        concept_name("Finding"),
        element(0x0040, 0xA160, VR::UT, strings(&["no abnormality "])),
    ]);
    let w = walk(&node(vec![content(vec![item])]));
    assert!(w.triples.ends_with("<bn1> dicom2rdf:0040A160 \"no abnormality\" .\n"));
    assert_eq!(w.carry, None);
}

#[test]
fn free_text_before_the_forbidden_meaning_is_kept() {
    let item = node(vec![
        element(0x0040, 0xA160, VR::UT, strings(&["early"])),
        concept_name("Address"),
        element(0x0040, 0xA160, VR::UT, strings(&["late"])),
    ]);
    let w = walk(&node(vec![content(vec![item])]));
    assert!(w.triples.contains("<bn1> dicom2rdf:0040A160 \"early\" .\n"));
    assert!(w.triples.ends_with("<bn1> dicom2rdf:0040A160 \"<Address>\" .\n"));
}

#[test]
fn the_first_carry_wins() {
    let item = node(vec![
        concept_name("Address"),
        concept_name("Patient Name"),
        element(0x0040, 0xA160, VR::UT, strings(&["text"])),
    ]);
    let w = walk(&node(vec![content(vec![item])]));
    assert!(w.triples.ends_with("<bn1> dicom2rdf:0040A160 \"<Address>\" .\n"));
    assert_eq!(w.carry, Some("Address".to_string()));
}

#[test]
fn other_unlimited_text_is_not_redacted() {
    let item = node(vec![
        concept_name("Address"),
        element(0x0040, 0xA161, VR::UT, strings(&["text"])),
    ]);
    let w = walk(&node(vec![content(vec![item])]));
    assert!(w.triples.ends_with("<bn1> dicom2rdf:0040A161 \"text\" .\n"));
}

#[test]
fn a_failure_does_not_end_the_document() {
    let w = walk(&node(vec![
        element(0x0020, 0x0013, VR::IS, strings(&["one"])),
        element(0x0008, 0x0020, VR::DA, Value::Invalid("bad date".to_string())),
        element(0x0008, 0x0060, VR::CS, strings(&["SR"])),
    ]));
    assert_eq!(w.triples, "dicom2rdf:f.dcm dicom2rdf:00080060 \"SR\" .\n");
    assert_eq!(
        w.errors,
        "f.dcm: (0020,0013) IS: invalid digit found in string\n\
         f.dcm: (0008,0020) DA: bad date\n"
    );
}

#[test]
fn long_text_is_cut_in_a_triple() {
    let long = "y".repeat(1500);
    let w = walk(&node(vec![element(0x0040, 0xA160, VR::UT, strings(&[long.as_str()]))]));
    let expected = format!(
        "dicom2rdf:f.dcm dicom2rdf:0040A160 \"{}[\u{e2}\u{20ac}\u{a6}]\" .\n",
        "y".repeat(991)
    );
    assert_eq!(w.triples, expected);
}

#[test]
fn blank_nodes_go_on_from_document_to_document() {
    let document = node(vec![element(
        0x0040,
        0xA043,
        VR::SQ,
        Value::Items(vec![node(vec![])]),
    )]);
    let mut triples = String::new();
    let mut errors = String::new();
    let mut allocator = BlankNodeAllocator::new();
    let subject = IRI::prefix("dicom2rdf", "f.dcm");
    let cfg = config();
    write_triples(&mut triples, &mut errors, &mut allocator, &subject, &document, "f.dcm", &cfg, 0);
    write_triples(&mut triples, &mut errors, &mut allocator, &subject, &document, "f.dcm", &cfg, 0);
    assert_eq!(
        triples,
        "dicom2rdf:f.dcm dicom2rdf:0040A043 <bn0> .\n\
         dicom2rdf:f.dcm dicom2rdf:0040A043 <bn1> .\n"
    );
}

#[test]
fn a_walk_starts_at_the_depth_it_is_given() {
    let mut triples = String::new();
    let mut errors = String::new();
    let mut allocator = BlankNodeAllocator::new();
    let subject = IRI::full("s");
    let (_, depth) = write_triples(
        &mut triples,
        &mut errors,
        &mut allocator,
        &subject,
        &node(vec![content(vec![node(vec![])])]),
        "f.dcm",
        &config(),
        4,
    );
    assert_eq!(depth, 5);
}

#[test]
fn content_nested_too_deeply_fails_the_sequence() {
    let mut triples = String::new();
    let mut errors = String::new();
    let mut allocator = BlankNodeAllocator::new();
    let subject = IRI::full("s");
    let (_, depth) = write_triples(
        &mut triples,
        &mut errors,
        &mut allocator,
        &subject,
        &node(vec![content(vec![node(vec![])])]),
        "f.dcm",
        &config(),
        255,
    );
    assert_eq!(depth, 255);
    assert_eq!(triples, "");
    assert_eq!(errors, "f.dcm: (0040,A730) SQ: Content sequences are nested too deeply\n");
}

fn walk_with(allocator: &mut BlankNodeAllocator, document: &DocumentNode) -> Walk {
    let mut triples = String::new();
    let mut errors = String::new();
    let subject = IRI::prefix("dicom2rdf", "f.dcm");
    let (carry, max_depth) = write_triples(
        &mut triples,
        &mut errors,
        allocator,
        &subject,
        document,
        "f.dcm",
        &config(),
        0,
    );
    Walk { triples, errors, carry, max_depth }
}

#[test]
fn a_person_name_without_a_blank_node_fails() {
    let name = PersonName {
        family: Some("Doe".to_string()),
        middle: None,
        given: None,
        prefix: None,
        suffix: None,
    };
    let mut allocator = BlankNodeAllocator::starting_at(u64::MAX);
    let w = walk_with(
        &mut allocator,
        &node(vec![
            element(0x0010, 0x0010, VR::PN, Value::PersonName(name)),
            element(0x0008, 0x0060, VR::CS, strings(&["SR"])),
        ]),
    );
    assert_eq!(w.triples, "dicom2rdf:f.dcm dicom2rdf:00080060 \"SR\" .\n");
    assert_eq!(w.errors, "f.dcm: (0010,0010) PN: Blank nodes are used up\n");
}

#[test]
fn a_sequence_stops_when_blank_nodes_are_used_up() {
    let mut allocator = BlankNodeAllocator::starting_at(u64::MAX - 1);
    let w = walk_with(
        &mut allocator,
        &node(vec![element(
            0x0040,
            0xA043,
            VR::SQ,
            Value::Items(vec![node(vec![]), node(vec![]), node(vec![])]),
        )]),
    );
    assert_eq!(w.triples, "dicom2rdf:f.dcm dicom2rdf:0040A043 <bn18446744073709551614> .\n");
    assert_eq!(w.errors, "f.dcm: (0040,A043) SQ: Blank nodes are used up\n");
}

#[test]
fn a_content_item_needs_two_blank_nodes() {
    let mut allocator = BlankNodeAllocator::starting_at(u64::MAX - 1);
    let w = walk_with(&mut allocator, &node(vec![content(vec![node(vec![])])]));
    assert_eq!(w.triples, "");
    assert_eq!(w.errors, "f.dcm: (0040,A730) SQ: Blank nodes are used up\n");
    assert_eq!(w.max_depth, 0);
    assert_eq!(allocator.remaining(), 1);
}

#[test]
fn a_person_name_of_the_wrong_kind_fails() {
    let w = walk(&node(vec![element(0x0010, 0x0010, VR::PN, strings(&["Doe^Jane"]))]));
    assert_eq!(w.triples, "");
    assert_eq!(w.errors, "f.dcm: (0010,0010) PN: Value does not match its representation\n");
    let w = walk(&node(vec![element(
        0x0010,
        0x0010,
        VR::PN,
        Value::Invalid("no name".to_string()),
    )]));
    assert_eq!(w.errors, "f.dcm: (0010,0010) PN: no name\n");
}

#[test]
fn the_carry_of_a_nested_document_reaches_its_parent() {
    let inner = node(vec![element(0x0008, 0x0104, VR::LO, strings(&["x", "Address", "Patient Name"]))]);
    let w = walk(&node(vec![
        element(0x0040, 0xA043, VR::SQ, Value::Items(vec![node(vec![]), inner])),
    ]));
    assert_eq!(w.carry, Some("Address".to_string()));
}

#[test]
fn a_forbidden_meaning_under_another_tag_sets_no_carry() {
    let w = walk(&node(vec![
        element(0x0008, 0x0105, VR::LO, strings(&["Address"])),
        element(0x0008, 0x0104, VR::LT, strings(&["Address"])),
        element(0x0040, 0xA160, VR::UT, strings(&["text"])),
    ]));
    assert_eq!(w.carry, None);
    assert!(w.triples.ends_with("dicom2rdf:f.dcm dicom2rdf:0040A160 \"text\" .\n"));
}

#[test]
fn what_was_written_before_a_walk_stays() {
    let mut triples = "before\n".to_string();
    let mut errors = "earlier\n".to_string();
    let mut allocator = BlankNodeAllocator::new();
    let subject = IRI::full("s");
    write_triples(
        &mut triples,
        &mut errors,
        &mut allocator,
        &subject,
        &node(vec![
            element(0x0008, 0x0060, VR::CS, strings(&["SR"])),
            element(0x0020, 0x0013, VR::IS, strings(&[""])),
        ]),
        "f.dcm",
        &config(),
        0,
    );
    assert_eq!(triples, "before\n<s> dicom2rdf:00080060 \"SR\" .\n");
    assert_eq!(
        errors,
        "earlier\nf.dcm: (0020,0013) IS: cannot parse integer from empty string\n"
    );
}
