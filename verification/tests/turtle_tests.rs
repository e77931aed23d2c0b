use dicom2rdf::turtle::{
    create_blank_node, triple, BlankNodeAllocator, PlainLiteral, TripleObject, TypedLiteral, IRI,
};

#[test]
fn full_iri_is_written_in_angle_brackets() {
    assert_eq!(IRI::full("http://example.org/a").to_string(), "<http://example.org/a>");
}

#[test]
fn prefixed_iri_has_its_local_name_percent_encoded() {
    assert_eq!(IRI::prefix("dicom2rdf", "a b/c").to_string(), "dicom2rdf:a%20b%2Fc");
    assert_eq!(IRI::prefix("p", "Az09-._~").to_string(), "p:Az09-._~");
    assert_eq!(IRI::prefix("p", "\u{e9}").to_string(), "p:%C3%A9");
}

#[test]
fn integers_are_written_in_decimal() {
    assert_eq!(PlainLiteral::Integer(0).to_string_with_max_len(1000), "0");
    assert_eq!(PlainLiteral::Integer(-42).to_string_with_max_len(1000), "-42");
    assert_eq!(
        PlainLiteral::Integer(i64::MIN).to_string_with_max_len(1000),
        "-9223372036854775808"
    );
    assert_eq!(
        PlainLiteral::Integer(i64::MAX).to_string_with_max_len(1000),
        "9223372036854775807"
    );
}

#[test]
fn floats_are_written_as_held() {
    assert_eq!(PlainLiteral::Float("10.0".to_string()).to_string_with_max_len(1000), "10.0");
}

#[test]
fn strings_are_quoted_and_escaped() {
    let l = PlainLiteral::String("a\"b\\c\nd\re".to_string());
    assert_eq!(l.to_string_with_max_len(1000), "\"a\\\"b\\\\c\\nd\\re\"");
}

#[test]
fn long_strings_are_cut_before_the_marker() {
    let l = PlainLiteral::String("abcdefghijklmnopqrstuvwxyz".to_string());
    let out = l.to_string_with_max_len(14);
    assert_eq!(out, "\"abcde[\u{e2}\u{20ac}\u{a6}]\"");
    assert!(out.len() - 2 <= 14);
}

#[test]
fn a_cut_never_splits_an_escape_sequence() {
    // Five bytes are free; the quote would need two and only one is left.
    let l = PlainLiteral::String("abcd\"efg".to_string());
    assert_eq!(l.to_string_with_max_len(14), "\"abcd[\u{e2}\u{20ac}\u{a6}]\"");
    // With six bytes free the escaped quote fits whole.
    assert_eq!(l.to_string_with_max_len(15), "\"abcd\\\"[\u{e2}\u{20ac}\u{a6}]\"");
}

#[test]
fn a_cut_never_splits_a_character() {
    let l = PlainLiteral::String("ab\u{20ac}cdefgh".to_string());
    // Four bytes free: the three-byte character does not fit after "ab".
    assert_eq!(l.to_string_with_max_len(13), "\"ab[\u{e2}\u{20ac}\u{a6}]\"");
    assert_eq!(l.to_string_with_max_len(14), "\"ab\u{20ac}[\u{e2}\u{20ac}\u{a6}]\"");
}

#[test]
fn a_string_that_fits_is_written_whole() {
    let l = PlainLiteral::String("abcde".to_string());
    assert_eq!(l.to_string_with_max_len(14), "\"abcde\"");
    assert_eq!(l.to_string_with_max_len(13), "\"abcd[\u{e2}\u{20ac}\u{a6}]\"");
}

#[test]
fn a_maximum_below_the_marker_keeps_nothing() {
    let l = PlainLiteral::String("abc".to_string());
    assert_eq!(l.to_string_with_max_len(3), "\"[\u{e2}\u{20ac}\u{a6}]\"");
    assert_eq!(PlainLiteral::String(String::new()).to_string_with_max_len(0), "\"\"");
}

#[test]
fn typed_literals_name_their_datatype() {
    let l = TypedLiteral::new("2024-01-02", IRI::prefix("xsd", "date"));
    assert_eq!(l.to_string(), "\"2024-01-02\"^^xsd:date");
}

#[test]
fn triples_end_with_a_dot() {
    let s = IRI::prefix("dicom2rdf", "file.dcm");
    let p = IRI::prefix("rdf", "type");
    let o = TripleObject::from(IRI::prefix("dicom2rdf", "DocumentRoot"));
    assert_eq!(
        triple(&s, &p, &o).to_string(),
        "dicom2rdf:file.dcm rdf:type dicom2rdf:DocumentRoot ."
    );
}

#[test]
fn objects_of_triples_are_cut_to_a_thousand_bytes() {
    let s = IRI::full("s");
    let p = IRI::full("p");
    let o = TripleObject::from(PlainLiteral::String("x".repeat(2000)));
    let out = triple(&s, &p, &o).to_string();
    let expected = format!("<s> <p> \"{}[\u{e2}\u{20ac}\u{a6}]\" .", "x".repeat(991));
    assert_eq!(out, expected);
}

#[test]
fn blank_nodes_are_numbered_in_order() {
    let mut allocator = BlankNodeAllocator::new();
    assert_eq!(allocator.remaining(), u64::MAX);
    let a = create_blank_node(&mut allocator).unwrap();
    let b = create_blank_node(&mut allocator).unwrap();
    assert_eq!(a.to_string(), "<bn0>");
    assert_eq!(b.to_string(), "<bn1>");
    assert_eq!(allocator.remaining(), u64::MAX - 2);
}

#[test]
fn blank_nodes_are_never_repeated() {
    let mut allocator = BlankNodeAllocator::new();
    let mut seen = std::collections::HashSet::new();
    for _ in 0..2000 {
        let node = create_blank_node(&mut allocator).unwrap().to_string();
        assert!(seen.insert(node));
    }
}

#[test]
fn the_last_token_is_handed_out_once() {
    let mut allocator = BlankNodeAllocator::starting_at(u64::MAX - 1);
    assert_eq!(allocator.remaining(), 1);
    let last = create_blank_node(&mut allocator).unwrap();
    assert_eq!(last.to_string(), "<bn18446744073709551614>");
    assert_eq!(allocator.remaining(), 0);
    assert!(create_blank_node(&mut allocator).is_none());
    assert!(create_blank_node(&mut allocator).is_none());
    assert_eq!(allocator.remaining(), 0);
}
