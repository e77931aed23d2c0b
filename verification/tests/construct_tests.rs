use dicom2rdf::config::{Config, DicomConfigEntry, NonDicomConfigEntry};
use dicom2rdf::construct::{
    code_query, container_query, nested_construct_queries, num_query, prefixes, text_query,
    top_level_construct_queries, uidref_query, ConstructQuery,
};

fn sample_config() -> Config {
    Config {
        dicom: vec![DicomConfigEntry {
            iri: "http://dicom.nema.org/resources/ontology/DCM/".to_string(),
            prefix: "dcm".to_string(),
            coding_scheme: "DCM".to_string(),
        }],
        non_dicom: vec![NonDicomConfigEntry {
            iri: "http://example.org/rad/".to_string(),
            prefix: "rad".to_string(),
        }],
        fallback: NonDicomConfigEntry {
            iri: "http://example.org/fallback/".to_string(),
            prefix: "fb".to_string(),
        },
        forbidden_code_meanings: vec![],
        forbidden_dicom_tags: vec![],
    }
}

fn lines(v: &[&str]) -> Vec<String> {
    v.iter().map(|s| s.to_string()).collect()
}

#[test]
fn a_query_is_written_in_two_indented_blocks() {
    let q = ConstructQuery::new()
        .with_prefixes(lines(&["PREFIX a: <http://a/>", "PREFIX b: <http://b/>"]))
        .with_construct(lines(&["?s a:p ?o ."]))
        .with_where(lines(&["?s b:p ?o .", "FILTER(?o > 0)"]));
    assert_eq!(
        q.to_sparql(),
        "PREFIX a: <http://a/>\nPREFIX b: <http://b/>\nCONSTRUCT {\n  ?s a:p ?o .\n}\nWHERE {\n  ?s b:p ?o .\n  FILTER(?o > 0)\n}\n"
    );
}

#[test]
fn an_empty_query_has_empty_blocks() {
    assert_eq!(ConstructQuery::new().to_sparql(), "\nCONSTRUCT {\n\n}\nWHERE {\n\n}\n");
}

#[test]
fn builders_append_to_what_is_there() {
    let q = ConstructQuery::new()
        .with_where(lines(&["a"]))
        .with_where(lines(&["b", "c"]))
        .with_construct(lines(&["d"]))
        .with_construct(lines(&[]))
        .with_prefixes(lines(&["e"]));
    assert_eq!(q.where_clause, lines(&["a", "b", "c"]));
    assert_eq!(q.construct, lines(&["d"]));
    assert_eq!(q.prefixes, lines(&["e"]));
}

#[test]
fn every_vocabulary_is_declared_as_a_prefix() {
    assert_eq!(
        prefixes(&sample_config()),
        lines(&[
            "PREFIX dcm: <http://dicom.nema.org/resources/ontology/DCM/>",
            "PREFIX rad: <http://example.org/rad/>",
            "PREFIX fb: <http://example.org/fallback/>",
        ])
    );
}

#[test]
fn the_queries_on_documents_come_in_a_fixed_order() {
    let queries = top_level_construct_queries(&sample_config());
    let names: Vec<&str> = queries.iter().map(|q| q.name.as_str()).collect();
    assert_eq!(
        names,
        vec![
            "accession_number",
            "manufacturer",
            "manufacturers_model_name",
            "modality",
            "protocol_name",
            "referring",
            "series_description",
            "station_ae_title",
            "study_description",
            "content_datetime",
            "series_datetime",
            "study_datetime",
            "series_instance_uid",
            "sop_class_uid",
            "study_instance_uid",
            "sop_instance_uid",
            "labels",
            "patient",
            "procedure",
            "type",
        ]
    );
    for q in &queries {
        assert_eq!(q.query.prefixes, prefixes(&sample_config()));
        assert_eq!(q.query.where_clause[0], "?level0 a dicom2rdf:DocumentRoot .");
    }
}

#[test]
fn an_attribute_is_carried_over_by_its_predicate() {
    let queries = top_level_construct_queries(&sample_config());
    assert_eq!(
        queries[0].query.to_sparql(),
        "PREFIX dcm: <http://dicom.nema.org/resources/ontology/DCM/>\n\
         PREFIX rad: <http://example.org/rad/>\n\
         PREFIX fb: <http://example.org/fallback/>\n\
         CONSTRUCT {\n  ?level0IRI dcm:121022 ?object .\n}\n\
         WHERE {\n  ?level0 a dicom2rdf:DocumentRoot .\n  \
         ?level0 dicom2rdf:00080018 ?sopInstanceUID .\n  \
         BIND(IRI(CONCAT(STR(rad:), \"sopInstance/\", ?sopInstanceUID)) AS ?level0IRI)\n  \
         ?level0 dicom2rdf:00080050 ?object .\n}\n"
    );
}

#[test]
fn a_date_and_a_time_are_carried_over_as_one_value() {
    let queries = top_level_construct_queries(&sample_config());
    let q = &queries[11];
    assert_eq!(q.name, "study_datetime");
    assert_eq!(q.query.construct, lines(&["?level0IRI rad:studyDt ?datetime ."]));
    assert_eq!(
        q.query.where_clause[3..].to_vec(),
        lines(&[
            "?level0 dicom2rdf:00080020 ?date .",
            "OPTIONAL { ?level0 dicom2rdf:00080030 ?time . }",
            "BIND(IF(BOUND(?time),xsd:dateTime(CONCAT(STR(?date), \"T\", STR(?time))),?date) AS ?datetime)",
        ])
    );
}

#[test]
fn a_unique_identifier_is_carried_over_as_an_identifier() {
    let queries = top_level_construct_queries(&sample_config());
    let q = &queries[15];
    assert_eq!(q.name, "sop_instance_uid");
    assert_eq!(q.query.construct, lines(&["?level0IRI rad:siuid ?uidIRI ."]));
    assert_eq!(
        q.query.where_clause[3..].to_vec(),
        lines(&[
            "?level0 dicom2rdf:00080018 ?uid .",
            "BIND(IRI(CONCAT(\"urn:oid:\", ?uid)) AS ?uidIRI)",
        ])
    );
}

#[test]
fn the_other_queries_have_their_own_lines() {
    let queries = top_level_construct_queries(&sample_config());
    assert_eq!(queries[16].query.construct.len(), 7);
    assert_eq!(queries[16].query.where_clause.len(), 3);
    assert_eq!(queries[16].query.construct[0], "rad:cdt rdfs:label \"Content Date Time\"@en .");
    assert_eq!(queries[17].query.construct.len(), 16);
    assert_eq!(queries[17].query.where_clause.len(), 3 + 35);
    assert_eq!(
        queries[17].query.where_clause[37],
        "BIND(IRI(CONCAT(STR(?level0IRI), \"_\", \"patient\")) AS ?patientIRI)"
    );
    assert_eq!(
        queries[18].query.where_clause[6],
        "BIND(IRI(CONCAT(STR(?procedureCodingScheme), ENCODE_FOR_URI(?procedureCode))) AS ?procedure)"
    );
    assert_eq!(queries[19].query.construct, lines(&["?level0IRI a ?type .", "?type rdfs:label ?conceptNameMeaning ."]));
}

#[test]
fn content_at_the_top_is_reached_without_containers() {
    let c = container_query(ConstructQuery::new(), 0);
    assert_eq!(c.next_iri_var, "?level0IRI");
    assert_eq!(c.next_level_var, "?level1");
    assert_eq!(c.next_level_index_var, "?level1Index");
    assert_eq!(c.query.construct, lines(&[]));
    assert_eq!(
        c.query.where_clause,
        lines(&[
            "?level0 dicom2rdf:0040A730 [",
            "  dicom2rdf:index ?level1Index ;",
            "  dicom2rdf:item ?level1",
            "] .",
        ])
    );
}

#[test]
fn each_container_adds_one_level() {
    let c = container_query(ConstructQuery::new(), 2);
    assert_eq!(c.next_iri_var, "?level2IRI");
    assert_eq!(c.next_level_var, "?level3");
    assert_eq!(c.next_level_index_var, "?level3Index");
    assert_eq!(
        c.query.construct,
        lines(&[
            "?level0IRI ?level0to1Predicate ?level1IRI .",
            "?level0to1Predicate rdfs:label ?level1ConceptNameMeaning .",
            "?level1IRI ?level1to2Predicate ?level2IRI .",
            "?level1to2Predicate rdfs:label ?level2ConceptNameMeaning .",
        ])
    );
    assert_eq!(c.query.where_clause.len(), 2 * 21 + 4);
    assert_eq!(
        c.query.where_clause[..21].to_vec(),
        lines(&[
            "?level0 dicom2rdf:0040A730 [",
            "    dicom2rdf:index ?level1Index ;",
            "    dicom2rdf:item ?level1 ;",
            "] .",
            "?level1 dicom2rdf:0040A040 \"CONTAINER\" .",
            "?level1 dicom2rdf:0040A043 [",
            "  dicom2rdf:00080100 ?level1ConceptNameCode ;",
            "  dicom2rdf:00080102 ?level1ConceptNameCodingScheme ;",
            "  dicom2rdf:00080104 ?level1ConceptNameMeaning",
            "] .",
            "BIND(IRI(CONCAT(",
            "  STR(?level1ConceptNameCodingScheme),",
            "  ENCODE_FOR_URI(STR(?level1ConceptNameCode))",
            ")) AS ?level0to1Predicate)",
            "BIND(IRI(CONCAT(",
            "  STR(?level0IRI),",
            "  \"_\",",
            "  STR(?level1Index),",
            "  \"_\",",
            "  ENCODE_FOR_URI(?level1ConceptNameMeaning)",
            ")) AS ?level1IRI)",
        ])
    );
    assert_eq!(c.query.where_clause[21], "?level1 dicom2rdf:0040A730 [");
    assert_eq!(c.query.where_clause[41], ")) AS ?level2IRI)");
    assert_eq!(
        c.query.where_clause[42..].to_vec(),
        lines(&[
            "?level2 dicom2rdf:0040A730 [",
            "  dicom2rdf:index ?level3Index ;",
            "  dicom2rdf:item ?level3",
            "] .",
        ])
    );
}

#[test]
fn a_container_query_works_at_the_greatest_nesting() {
    let c = container_query(ConstructQuery::new(), 255);
    assert_eq!(c.next_level_var, "?level256");
    assert_eq!(c.query.construct.len(), 2 * 255);
}

#[test]
fn coded_values_are_read_below_their_container() {
    let q = code_query(ConstructQuery::new(), 1);
    assert_eq!(q.name, "code_1");
    assert_eq!(
        q.query.construct[2..].to_vec(),
        lines(&[
            "?level1IRI ?valuePred ?valueIRI .",
            "?valuePred rdfs:label ?conceptNameMeaning .",
            "?valueIRI rdfs:label ?conceptMeaning .",
        ])
    );
    assert_eq!(
        q.query.where_clause[25..].to_vec(),
        lines(&[
            "?level2 dicom2rdf:0040A040 \"CODE\" .",
            "?level2 dicom2rdf:0040A043 [",
            "  dicom2rdf:00080100 ?conceptNameCode ;",
            "  dicom2rdf:00080102 ?conceptNameCodingScheme ;",
            "  dicom2rdf:00080104 ?conceptNameMeaning",
            "] .",
            "?level2 dicom2rdf:0040A168 [",
            "  dicom2rdf:00080100 ?conceptCode ;",
            "  dicom2rdf:00080102 ?conceptCodingScheme ;",
            "  dicom2rdf:00080104 ?conceptMeaning",
            "] .",
            "BIND(IRI(CONCAT(",
            "  STR(?conceptNameCodingScheme),",
            "  ENCODE_FOR_URI(?conceptNameCode)",
            ")) AS ?valuePred)",
            "BIND(IRI(CONCAT(",
            "  STR(?conceptCodingScheme),",
            "  ENCODE_FOR_URI(?conceptCode)",
            ")) AS ?valueIRI)",
        ])
    );
}

#[test]
fn text_values_are_read_below_their_container() {
    let q = text_query(ConstructQuery::new(), 0);
    assert_eq!(q.name, "text_0");
    assert_eq!(
        q.query.construct,
        lines(&["?level0IRI ?valuePred ?value .", "?valuePred rdfs:label ?conceptNameMeaning ."])
    );
    assert_eq!(
        q.query.where_clause[4..].to_vec(),
        lines(&[
            "?level1 dicom2rdf:0040A040 \"TEXT\" .",
            "?level1 dicom2rdf:0040A043 [",
            "  dicom2rdf:00080100 ?conceptNameCode ;",
            "  dicom2rdf:00080102 ?conceptNameCodingScheme ;",
            "  dicom2rdf:00080104 ?conceptNameMeaning",
            "] .",
            "?level1 dicom2rdf:0040A160 ?value",
            "BIND(IRI(CONCAT(",
            "  STR(?conceptNameCodingScheme),",
            "  ENCODE_FOR_URI(?conceptNameCode)",
            ")) AS ?valuePred)",
        ])
    );
}

#[test]
fn numeric_values_are_read_with_their_unit() {
    let q = num_query(ConstructQuery::new(), 0);
    assert_eq!(q.name, "num_0");
    assert_eq!(
        q.query.construct,
        lines(&[
            "?level0IRI ?valuePred ?valueIRI .",
            "?valueIRI a qudt:QuantityValue; qudt:numericValue ?value; qudt:unit ?valueUnitIRI .",
            "?valuePred rdfs:label ?conceptNameMeaning .",
            "?valueUnitIRI rdfs:label ?valueUnitCodeMeaning .",
        ])
    );
    assert_eq!(
        q.query.where_clause[4..].to_vec(),
        lines(&[
            "?level1 dicom2rdf:0040A040 \"NUM\" .",
            "?level1 dicom2rdf:0040A043 [",
            "  dicom2rdf:00080100 ?conceptNameCode ;",
            "  dicom2rdf:00080102 ?conceptNameCodingScheme ;",
            "  dicom2rdf:00080104 ?conceptNameMeaning",
            "] .",
            "?level1 dicom2rdf:0040A300 ?measuredValue .",
            "?measuredValue dicom2rdf:004008EA [",
            "  dicom2rdf:00080100 ?valueUnitCode ;",
            "  dicom2rdf:00080102 ?valueUnitCodingScheme ;",
            "  dicom2rdf:00080104 ?valueUnitCodeMeaning",
            "] .",
            "OPTIONAL { ?measuredValue dicom2rdf:0040A161 ?fpValue }",
            "OPTIONAL { ?measuredValue dicom2rdf:0040A30A ?numValue }",
            "BIND(COALESCE(xsd:decimal(?fpValue), xsd:decimal(?numValue)) AS ?value)",
            "FILTER(BOUND(?value))",
            "BIND(IRI(CONCAT(STR(?conceptNameCodingScheme), ENCODE_FOR_URI(?conceptNameCode))) AS ?valuePred)",
            "BIND(IRI(CONCAT(STR(?level0IRI), \"_\", STR(?level1Index))) AS ?valueIRI)",
            "BIND(IRI(CONCAT(STR(?valueUnitCodingScheme), ENCODE_FOR_URI(?valueUnitCode))) as ?valueUnitIRI)",
        ])
    );
}

#[test]
fn references_are_read_as_identifiers() {
    let q = uidref_query(ConstructQuery::new(), 0);
    assert_eq!(q.name, "uidref_0");
    assert_eq!(
        q.query.where_clause[10..].to_vec(),
        lines(&[
            "?level1 dicom2rdf:0040A124 ?value",
            "BIND(IRI(CONCAT(\"urn:oid:\", ?value)) AS ?valueIRI)",
            "BIND(IRI(CONCAT(STR(?conceptNameCodingScheme), ENCODE_FOR_URI(?conceptNameCode))) AS ?valuePred)",
        ])
    );
}

#[test]
fn there_are_four_queries_for_each_nesting() {
    let queries = nested_construct_queries(&sample_config(), 3);
    let names: Vec<&str> = queries.iter().map(|q| q.name.as_str()).collect();
    assert_eq!(
        names,
        vec![
            "code_0", "num_0", "text_0", "uidref_0", "code_1", "num_1", "text_1", "uidref_1",
            "code_2", "num_2", "text_2", "uidref_2",
        ]
    );
    for q in &queries {
        assert_eq!(q.query.prefixes, prefixes(&sample_config()));
        assert_eq!(
            q.query.where_clause[2],
            "BIND(IRI(CONCAT(STR(rad:), \"sopInstance/\", ?sopInstanceUID)) AS ?level0IRI)"
        );
    }
    assert!(nested_construct_queries(&sample_config(), 0).is_empty());
}
