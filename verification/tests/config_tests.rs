use dicom2rdf::config::{Config, DicomConfigEntry, NonDicomConfigEntry};
use dicom2rdf::document::{Decoding, Tag, VR};

fn sample() -> Config {
    Config {
        dicom: vec![
            DicomConfigEntry {
                iri: "http://a/".to_string(),
                prefix: "a".to_string(),
                coding_scheme: "A".to_string(),
            },
            DicomConfigEntry {
                iri: "http://b/".to_string(),
                prefix: "b".to_string(),
                coding_scheme: "B".to_string(),
            },
            DicomConfigEntry {
                iri: "http://b2/".to_string(),
                prefix: "b2".to_string(),
                coding_scheme: "B".to_string(),
            },
        ],
        non_dicom: vec![NonDicomConfigEntry { iri: "http://n/".to_string(), prefix: "n".to_string() }],
        fallback: NonDicomConfigEntry { iri: "http://f/".to_string(), prefix: "f".to_string() },
        forbidden_code_meanings: vec!["Secret".to_string()],
        forbidden_dicom_tags: vec![Tag(1, 2), Tag(3, 4)],
    }
}

#[test]
fn prefixes_are_listed_in_order_with_the_fallback_last() {
    assert_eq!(
        sample().to_prefix_iri_pairs(),
        vec![
            ("a", "http://a/"),
            ("b", "http://b/"),
            ("b2", "http://b2/"),
            ("n", "http://n/"),
            ("f", "http://f/"),
        ]
    );
}

#[test]
fn forbidden_tags_are_found() {
    let c = sample();
    assert!(c.is_forbidden_tag(Tag(1, 2)));
    assert!(c.is_forbidden_tag(Tag(3, 4)));
    assert!(!c.is_forbidden_tag(Tag(1, 4)));
}

#[test]
fn forbidden_meanings_are_found() {
    let c = sample();
    assert!(c.is_forbidden_meaning("Secret"));
    assert!(!c.is_forbidden_meaning("secret"));
    assert!(!c.is_forbidden_meaning(""));
}

#[test]
fn the_first_vocabulary_of_a_scheme_is_found() {
    let c = sample();
    assert_eq!(c.find_scheme("A"), Some(0));
    assert_eq!(c.find_scheme("B"), Some(1));
    assert_eq!(c.find_scheme("C"), None);
}

#[test]
fn representations_are_named_by_two_letters() {
    assert_eq!(VR::DA.to_string(), "DA");
    assert_eq!(VR::SQ.to_string(), "SQ");
    assert_eq!(VR::UT.to_string(), "UT");
    assert_eq!(VR::OB.to_string(), "OB");
}

#[test]
fn each_representation_names_how_its_value_is_read() {
    assert_eq!(VR::AS.value_decoding(), Decoding::Age);
    assert_eq!(VR::DA.value_decoding(), Decoding::Dates);
    assert_eq!(VR::DT.value_decoding(), Decoding::DateTimes);
    assert_eq!(VR::TM.value_decoding(), Decoding::Times);
    for vr in [VR::AE, VR::CS, VR::LT, VR::ST, VR::UI, VR::LO, VR::SH, VR::IS, VR::UT] {
        assert_eq!(vr.value_decoding(), Decoding::Strings);
    }
    assert_eq!(VR::DS.value_decoding(), Decoding::DecimalStrings);
    assert_eq!(VR::FL.value_decoding(), Decoding::Floats32);
    assert_eq!(VR::FD.value_decoding(), Decoding::Floats64);
    assert_eq!(VR::SL.value_decoding(), Decoding::SignedLongs);
    assert_eq!(VR::SS.value_decoding(), Decoding::SignedShorts);
    assert_eq!(VR::UL.value_decoding(), Decoding::UnsignedLongs);
    assert_eq!(VR::US.value_decoding(), Decoding::UnsignedShorts);
    assert_eq!(VR::PN.value_decoding(), Decoding::PersonName);
    assert_eq!(VR::SQ.value_decoding(), Decoding::Items);
    for vr in [VR::AT, VR::OB, VR::OD, VR::OF, VR::OL, VR::OV, VR::OW, VR::SV, VR::UC, VR::UN,
        VR::UR, VR::UV]
    {
        assert_eq!(vr.value_decoding(), Decoding::Unread);
    }
}
