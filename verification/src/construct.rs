//! The queries that derive the normalized graph from the statements that
//! the emitter writes.
use crate::config::Config;
use crate::text::{decimal_digits, decimal_string};
use vstd::prelude::*;
use vstd::string::StringExecFns;

verus! {

/// A query of the form `CONSTRUCT { .. } WHERE { .. }`, line by line.
#[derive(Debug, PartialEq, Eq)]
pub struct ConstructQuery {
    pub prefixes: Vec<String>,
    pub construct: Vec<String>,
    pub where_clause: Vec<String>,
}

/// What a query holds.
pub struct ConstructQueryView {
    pub prefixes: Seq<Seq<char>>,
    pub construct: Seq<Seq<char>>,
    pub where_clause: Seq<Seq<char>>,
}

/// A query with the name under which its result is stored.
#[derive(Debug, PartialEq, Eq)]
pub struct MkQueryResult {
    pub name: String,
    pub query: ConstructQuery,
}

/// What a named query holds.
pub struct MkQueryResultView {
    pub name: Seq<char>,
    pub query: ConstructQueryView,
}

/// The texts of a list of strings.
pub open spec fn texts(lines: Seq<String>) -> Seq<Seq<char>> {
    Seq::new(lines.len(), |i: int| lines[i]@)
}

/// The texts of a list of string slices.
pub open spec fn slices(lines: Seq<&str>) -> Seq<Seq<char>> {
    Seq::new(lines.len(), |i: int| lines[i]@)
}

impl View for ConstructQuery {
    type V = ConstructQueryView;

    open spec fn view(&self) -> ConstructQueryView {
        ConstructQueryView {
            prefixes: texts(self.prefixes@),
            construct: texts(self.construct@),
            where_clause: texts(self.where_clause@),
        }
    }
}

impl View for MkQueryResult {
    type V = MkQueryResultView;

    open spec fn view(&self) -> MkQueryResultView {
        MkQueryResultView { name: self.name@, query: self.query@ }
    }
}

/// What a list of named queries holds.
pub open spec fn results(queries: Seq<MkQueryResult>) -> Seq<MkQueryResultView> {
    Seq::new(queries.len(), |i: int| queries[i]@)
}

/// The lines of a text, with a separator between each two.
pub open spec fn joined(lines: Seq<Seq<char>>, sep: Seq<char>) -> Seq<char>
    decreases lines.len(),
{
    if lines.len() == 0 {
        Seq::empty()
    } else if lines.len() == 1 {
        lines[0]
    } else {
        joined(lines.drop_last(), sep) + sep + lines.last()
    }
}

/// The lines, each after two spaces.
pub open spec fn indented(lines: Seq<Seq<char>>) -> Seq<Seq<char>> {
    Seq::new(lines.len(), |i: int| "  "@ + lines[i])
}

/// Joins lines with `Itertools::join`: the lines in order, with the
/// separator between each two, and nothing for no line.
#[verifier::external_body]
pub(crate) fn join_lines(lines: &Vec<String>, sep: &str) -> (r: String)
    ensures
        r@ == joined(texts(lines@), sep@),
{
    itertools::Itertools::join(&mut lines.iter(), sep)
}

/// The strings that hold the given lines.
fn owned(lines: Vec<&str>) -> (r: Vec<String>)
    ensures
        texts(r@) == slices(lines@),
{
    let mut r: Vec<String> = Vec::new();
    let mut i: usize = 0;
    while i < lines.len()
        invariant
            i <= lines.len(),
            r@.len() == i,
            forall|k: int| 0 <= k < i ==> (#[trigger] r@[k])@ == lines@[k]@,
        decreases lines.len() - i,
    {
        r.push(String::from_str(lines[i]));
        i += 1;
    }
    assert(texts(r@) =~= slices(lines@));
    r
}

/// A copy of the lines.
fn copy_lines(lines: &Vec<String>) -> (r: Vec<String>)
    ensures
        texts(r@) == texts(lines@),
{
    let mut r: Vec<String> = Vec::new();
    let mut i: usize = 0;
    while i < lines.len()
        invariant
            i <= lines.len(),
            r@.len() == i,
            forall|k: int| 0 <= k < i ==> (#[trigger] r@[k])@ == lines@[k]@,
        decreases lines.len() - i,
    {
        r.push(lines[i].clone());
        i += 1;
    }
    assert(texts(r@) =~= texts(lines@));
    r
}

/// Moves the lines of `more` behind those of `lines`.
fn extend_lines(lines: &mut Vec<String>, more: Vec<String>)
    ensures
        texts(final(lines)@) == texts(old(lines)@) + texts(more@),
{
    let mut more = more;
    let ghost added = more@;
    lines.append(&mut more);
    assert(texts(lines@) =~= texts(old(lines)@) + texts(added));
}

impl Clone for ConstructQuery {
    fn clone(&self) -> (r: Self)
        ensures
            r@ == self@,
    {
        ConstructQuery {
            prefixes: copy_lines(&self.prefixes),
            construct: copy_lines(&self.construct),
            where_clause: copy_lines(&self.where_clause),
        }
    }
}

impl ConstructQueryView {
    /// The text of the query: the prefixes, then the two blocks with their
    /// lines indented.
    pub open spec fn sparql(self) -> Seq<char> {
        joined(self.prefixes, "\n"@) + "\nCONSTRUCT {\n"@ + joined(indented(self.construct), "\n"@)
            + "\n}\n"@ + "WHERE {\n"@ + joined(indented(self.where_clause), "\n"@) + "\n}\n"@
    }
}

/// The lines, each after two spaces.
fn indent(lines: &Vec<String>) -> (r: Vec<String>)
    ensures
        texts(r@) == indented(texts(lines@)),
{
    let mut r: Vec<String> = Vec::new();
    let mut i: usize = 0;
    while i < lines.len()
        invariant
            i <= lines.len(),
            r@.len() == i,
            forall|k: int| 0 <= k < i ==> (#[trigger] r@[k])@ == "  "@ + lines@[k]@,
        decreases lines.len() - i,
    {
        let mut line = String::from_str("  ");
        line.append(lines[i].as_str());
        r.push(line);
        i += 1;
    }
    assert(texts(r@) =~= indented(texts(lines@)));
    r
}

impl ConstructQuery {
    /// The text of the query.
    pub fn to_sparql(&self) -> (r: String)
        ensures
            r@ == self@.sparql(),
    {
        let mut query = String::new();
        let prefixes = join_lines(&self.prefixes, "\n");
        query.append(prefixes.as_str());
        query.append("\nCONSTRUCT {\n");
        let construct = join_lines(&indent(&self.construct), "\n");
        query.append(construct.as_str());
        query.append("\n}\n");
        query.append("WHERE {\n");
        let where_clause = join_lines(&indent(&self.where_clause), "\n");
        query.append(where_clause.as_str());
        query.append("\n}\n");
        assert(query@ =~= self@.sparql());
        query
    }

    /// A query without lines.
    pub fn new() -> (r: Self)
        ensures
            r@ == (ConstructQueryView {
                prefixes: Seq::empty(),
                construct: Seq::empty(),
                where_clause: Seq::empty(),
            }),
    {
        let r = ConstructQuery {
            prefixes: Vec::new(),
            construct: Vec::new(),
            where_clause: Vec::new(),
        };
        assert(texts(r.prefixes@) =~= Seq::<Seq<char>>::empty());
        assert(texts(r.construct@) =~= Seq::<Seq<char>>::empty());
        assert(texts(r.where_clause@) =~= Seq::<Seq<char>>::empty());
        r
    }

    /// The query with more lines in its `CONSTRUCT` block.
    pub fn with_construct(self, construct: Vec<String>) -> (r: Self)
        ensures
            r@ == (ConstructQueryView {
                construct: self@.construct + texts(construct@),
                ..self@
            }),
    {
        let mut r = self;
        extend_lines(&mut r.construct, construct);
        r
    }

    /// The query with more prefixes.
    pub fn with_prefixes(self, prefixes: Vec<String>) -> (r: Self)
        ensures
            r@ == (ConstructQueryView { prefixes: self@.prefixes + texts(prefixes@), ..self@ }),
    {
        let mut r = self;
        extend_lines(&mut r.prefixes, prefixes);
        r
    }

    /// The query with more lines in its `WHERE` block.
    pub fn with_where(self, where_clause: Vec<String>) -> (r: Self)
        ensures
            r@ == (ConstructQueryView {
                where_clause: self@.where_clause + texts(where_clause@),
                ..self@
            }),
    {
        let mut r = self;
        extend_lines(&mut r.where_clause, where_clause);
        r
    }
}

/// The declaration of one prefix in a query.
pub open spec fn prefix_line(pair: (Seq<char>, Seq<char>)) -> Seq<char> {
    "PREFIX "@ + pair.0 + ": <"@ + pair.1 + ">"@
}

/// The declarations of the prefixes of all vocabularies.
pub open spec fn prefix_lines(config: &Config) -> Seq<Seq<char>> {
    Seq::new(
        config.prefix_iri_pairs().len(),
        |i: int| prefix_line(config.prefix_iri_pairs()[i]),
    )
}

/// The declarations of the prefixes of all vocabularies.
pub fn prefixes(config: &Config) -> (r: Vec<String>)
    ensures
        texts(r@) == prefix_lines(config),
{
    let pairs = config.to_prefix_iri_pairs();
    let mut r: Vec<String> = Vec::new();
    let mut i: usize = 0;
    while i < pairs.len()
        invariant
            i <= pairs.len(),
            r@.len() == i,
            pairs@.len() == config.prefix_iri_pairs().len(),
            forall|k: int|
                0 <= k < pairs@.len() ==> (#[trigger] pairs@[k]).0@ == config.prefix_iri_pairs()[k].0
                    && pairs@[k].1@ == config.prefix_iri_pairs()[k].1,
            forall|k: int|
                0 <= k < i ==> (#[trigger] r@[k])@ == prefix_line(config.prefix_iri_pairs()[k]),
        decreases pairs.len() - i,
    {
        let mut line = String::from_str("PREFIX ");
        line.append(pairs[i].0);
        line.append(": <");
        line.append(pairs[i].1);
        line.append(">");
        assert(line@ =~= prefix_line(config.prefix_iri_pairs()[i as int]));
        r.push(line);
        i += 1;
    }
    assert(texts(r@) =~= prefix_lines(config));
    r
}

/// The lines that every query starts its `WHERE` block with: they bind the
/// document and its identifier.
pub open spec fn base_where() -> Seq<Seq<char>> {
    seq![
        "?level0 a dicom2rdf:DocumentRoot ."@,
        "?level0 dicom2rdf:00080018 ?sopInstanceUID ."@,
        "BIND(IRI(CONCAT(STR(rad:), \"sopInstance/\", ?sopInstanceUID)) AS ?level0IRI)"@,
    ]
}

/// The attributes that are carried over as they are: the name of the query,
/// the predicate that is constructed, and the predicate that is read.
pub open spec fn simple_rows() -> Seq<(Seq<char>, Seq<char>, Seq<char>)> {
    seq![
        ("accession_number"@, "dcm:121022"@, "dicom2rdf:00080050"@),
        ("manufacturer"@, "dcm:121194"@, "dicom2rdf:00080070"@),
        ("manufacturers_model_name"@, "dcm:121195"@, "dicom2rdf:00081090"@),
        ("modality"@, "dcm:121139"@, "dicom2rdf:00080060"@),
        ("protocol_name"@, "dicom2rdf:00181030"@, "dicom2rdf:00181030"@),
        ("referring"@, "dcm:121095"@, "dicom2rdf:00080090"@),
        ("series_description"@, "dicom2rdf:0008103E"@, "dicom2rdf:0008103E"@),
        ("station_ae_title"@, "dcm:110119"@, "dicom2rdf:00080055"@),
        ("study_description"@, "dicom2rdf:00081030"@, "dicom2rdf:00081030"@),
    ]
}

/// The pairs of a date and a time that are carried over as one value: the
/// name of the query, the predicate that is constructed, and the predicates
/// of the date and of the time.
pub open spec fn datetime_rows() -> Seq<(Seq<char>, Seq<char>, Seq<char>, Seq<char>)> {
    seq![
        ("content_datetime"@, "rad:cdt"@, "dicom2rdf:00080023"@, "dicom2rdf:00080033"@),
        ("series_datetime"@, "rad:seriesDt"@, "dicom2rdf:00080021"@, "dicom2rdf:00080031"@),
        ("study_datetime"@, "rad:studyDt"@, "dicom2rdf:00080020"@, "dicom2rdf:00080030"@),
    ]
}

/// The unique identifiers that are carried over as identifiers: the name of
/// the query, the predicate that is constructed, and the predicate that is
/// read.
pub open spec fn uid_rows() -> Seq<(Seq<char>, Seq<char>, Seq<char>)> {
    seq![
        ("series_instance_uid"@, "dcm:112002"@, "dicom2rdf:0020000E"@),
        ("sop_class_uid"@, "dcm:110181"@, "dicom2rdf:00080016"@),
        ("study_instance_uid"@, "dcm:110180"@, "dicom2rdf:0020000D"@),
        ("sop_instance_uid"@, "rad:siuid"@, "dicom2rdf:00080018"@),
    ]
}

/// The labels of the predicates that the queries construct.
pub open spec fn labels_construct() -> Seq<Seq<char>> {
    seq![
        "rad:cdt rdfs:label \"Content Date Time\"@en ."@,
        "rad:patient rdfs:label \"patient\"@en ."@,
        "rad:seriesDt rdfs:label \"Series Date Time\"@en ."@,
        "rad:siuid rdfs:label \"SOP Instance UID\"@en ."@,
        "rad:studyDt rdfs:label \"Study Date Time\"@en ."@,
        "rad:value rdfs:label \"value\"@en ."@,
        "sct:71388002 rdfs:label \"Procedure\"@en ."@,
    ]
}

/// What is constructed for the patient.
pub open spec fn patient_construct() -> Seq<Seq<char>> {
    seq![
        "?level0IRI rad:patient ?patientIRI ."@,
        "?patientIRI schema:familyName ?family ;"@,
        "schema:additionalName ?middle ;"@,
        "schema:givenName ?given ;"@,
        "schema:honorificPrefix ?prefix ;"@,
        "schema:honorificSuffix ?suffix ;"@,
        "schema:identifier ?identifier ;"@,
        "dcm:110190 ?issuer ;"@,
        "schema:birthDate ?birthDate ;"@,
        "ln:LP97565-3 ?birthTime ;"@,
        "schema:gender ?sex ;"@,
        "rad:age ?age ;"@,
        "schema:height ?size ;"@,
        "schema:weight ?weight ;"@,
        "schema:address ?address ;"@,
        "rdfs:comment ?comments ."@,
    ]
}

/// What is read for the patient.
pub open spec fn patient_where() -> Seq<Seq<char>> {
    seq![
        "?level0 dicom2rdf:person_name ?pn ."@,
        "OPTIONAL { ?pn dicom2rdf:pn_family ?family . }"@,
        "OPTIONAL { ?pn dicom2rdf:pn_middle ?middle . }"@,
        "OPTIONAL { ?pn dicom2rdf:pn_given ?given . }"@,
        "OPTIONAL { ?pn dicom2rdf:pn_prefix ?prefix . }"@,
        "OPTIONAL { ?pn dicom2rdf:pn_prefix ?suffix . }"@,
        "OPTIONAL { ?level0 dicom2rdf:00100020 ?identifier . }"@,
        "OPTIONAL { ?level0 dicom2rdf:00100021 ?issuer . }"@,
        "OPTIONAL { ?level0 dicom2rdf:00100030 ?birthDate . }"@,
        "OPTIONAL { ?level0 dicom2rdf:00100032 ?birthTime . }"@,
        "OPTIONAL {"@,
        "?level0 dicom2rdf:00100040 ?sex_ ."@,
        "BIND("@,
        "IF (?sex_ = \"M\", \"male\","@,
        "IF (?sex_ = \"F\", \"female\","@,
        "IF (?sex_ = \"W\", \"female\","@,
        "IF (?sex_ = \"O\", \"other\", ?sex_)"@,
        ")"@,
        ")"@,
        ") AS ?sex"@,
        ")"@,
        "}"@,
        "OPTIONAL { ?level0 dicom2rdf:00101010 ?age . }"@,
        "OPTIONAL {"@,
        "?level0 dicom2rdf:00101020 ?size_ ."@,
        "FILTER(?size_ > 0)"@,
        "BIND( IF( xsd:decimal(?size_) <= 3, xsd:decimal(?size_) * 100, xsd:decimal(?size_) ) AS ?size)"@,
        "}"@,
        "OPTIONAL {"@,
        "?level0 dicom2rdf:00101030 ?weight ."@,
        "FILTER(?weight > 0)"@,
        "}"@,
        "OPTIONAL { ?level0 dicom2rdf:00101040 ?address . }"@,
        "OPTIONAL { ?level0 dicom2rdf:00104000 ?comments . }"@,
        "BIND(IRI(CONCAT(STR(?level0IRI), \"_\", \"patient\")) AS ?patientIRI)"@,
    ]
}

/// What is constructed for the procedure.
pub open spec fn procedure_construct() -> Seq<Seq<char>> {
    seq![
        "?level0IRI sct:71388002 ?procedure ."@,
        "?procedure rdfs:label ?procedureCodeMeaning ."@,
    ]
}

/// What is read for the procedure.
pub open spec fn procedure_where() -> Seq<Seq<char>> {
    seq![
        "?level0 dicom2rdf:00081032/dicom2rdf:00080102 ?procedureCodingScheme ."@,
        "?level0 dicom2rdf:00081032/dicom2rdf:00080100 ?procedureCode ."@,
        "?level0 dicom2rdf:00081032/dicom2rdf:00080104 ?procedureCodeMeaning ."@,
        "BIND(IRI(CONCAT(STR(?procedureCodingScheme), ENCODE_FOR_URI(?procedureCode))) AS ?procedure)"@,
    ]
}

/// What is constructed for the type of the document.
pub open spec fn type_construct() -> Seq<Seq<char>> {
    seq![
        "?level0IRI a ?type ."@,
        "?type rdfs:label ?conceptNameMeaning ."@,
    ]
}

/// What is read for the type of the document.
pub open spec fn type_where() -> Seq<Seq<char>> {
    seq![
        "?level0 dicom2rdf:0040A043 ["@,
        "  dicom2rdf:00080100 ?conceptNameCode ;"@,
        "  dicom2rdf:00080102 ?conceptNameCodingScheme ;"@,
        "  dicom2rdf:00080104 ?conceptNameMeaning"@,
        "] ."@,
        "BIND(IRI(CONCAT(STR(?conceptNameCodingScheme), ENCODE_FOR_URI(?conceptNameCode))) AS ?type)"@,
    ]
}


/// A query under a name.
pub open spec fn named(name: Seq<char>, query: ConstructQueryView) -> MkQueryResultView {
    MkQueryResultView { name, query }
}

/// The query `base` with more lines in its two blocks.
pub open spec fn extended(
    base: ConstructQueryView,
    construct: Seq<Seq<char>>,
    where_clause: Seq<Seq<char>>,
) -> ConstructQueryView {
    ConstructQueryView {
        prefixes: base.prefixes,
        construct: base.construct + construct,
        where_clause: base.where_clause + where_clause,
    }
}

/// The query that every query on whole documents starts from: the prefixes
/// of all vocabularies, and the lines that bind the document.
pub open spec fn base_query(config: &Config) -> ConstructQueryView {
    ConstructQueryView {
        prefixes: prefix_lines(config),
        construct: Seq::empty(),
        where_clause: base_where(),
    }
}

/// The query that carries one attribute over as it is.
pub open spec fn simple_query(
    base: ConstructQueryView,
    row: (Seq<char>, Seq<char>, Seq<char>),
) -> MkQueryResultView {
    named(
        row.0,
        extended(
            base,
            seq!["?level0IRI "@ + row.1 + " ?object ."@],
            seq!["?level0 "@ + row.2 + " ?object ."@],
        ),
    )
}

/// The query that carries a date and a time over as one value.
pub open spec fn datetime_query(
    base: ConstructQueryView,
    row: (Seq<char>, Seq<char>, Seq<char>, Seq<char>),
) -> MkQueryResultView {
    named(
        row.0,
        extended(
            base,
            seq!["?level0IRI "@ + row.1 + " ?datetime ."@],
            seq![
                "?level0 "@ + row.2 + " ?date ."@,
                "OPTIONAL { ?level0 "@ + row.3 + " ?time . }"@,
                "BIND(IF(BOUND(?time),xsd:dateTime(CONCAT(STR(?date), \"T\", STR(?time))),?date) AS ?datetime)"@,
            ],
        ),
    )
}

/// The query that carries a unique identifier over as an identifier.
pub open spec fn uid_query(
    base: ConstructQueryView,
    row: (Seq<char>, Seq<char>, Seq<char>),
) -> MkQueryResultView {
    named(
        row.0,
        extended(
            base,
            seq!["?level0IRI "@ + row.1 + " ?uidIRI ."@],
            seq![
                "?level0 "@ + row.2 + " ?uid ."@,
                "BIND(IRI(CONCAT(\"urn:oid:\", ?uid)) AS ?uidIRI)"@,
            ],
        ),
    )
}

/// The queries that carry attributes over as they are.
pub open spec fn simple_results(base: ConstructQueryView) -> Seq<MkQueryResultView> {
    Seq::new(simple_rows().len(), |i: int| simple_query(base, simple_rows()[i]))
}

/// The queries that carry dates and times over.
pub open spec fn datetime_results(base: ConstructQueryView) -> Seq<MkQueryResultView> {
    Seq::new(datetime_rows().len(), |i: int| datetime_query(base, datetime_rows()[i]))
}

/// The queries that carry unique identifiers over.
pub open spec fn uid_results(base: ConstructQueryView) -> Seq<MkQueryResultView> {
    Seq::new(uid_rows().len(), |i: int| uid_query(base, uid_rows()[i]))
}

/// The queries for labels, patient, procedure and type.
pub open spec fn other_results(base: ConstructQueryView) -> Seq<MkQueryResultView> {
    seq![
        named("labels"@, extended(base, labels_construct(), Seq::empty())),
        named("patient"@, extended(base, patient_construct(), patient_where())),
        named("procedure"@, extended(base, procedure_construct(), procedure_where())),
        named("type"@, extended(base, type_construct(), type_where())),
    ]
}

/// Three parts of a text, put together.
fn cat3(a: &str, b: &str, c: &str) -> (r: String)
    ensures
        r@ == a@ + b@ + c@,
{
    let mut r = String::from_str(a);
    r.append(b);
    r.append(c);
    r
}

/// Five parts of a text, put together.
fn cat5(a: &str, b: &str, c: &str, d: &str, e: &str) -> (r: String)
    ensures
        r@ == a@ + b@ + c@ + d@ + e@,
{
    let mut r = cat3(a, b, c);
    r.append(d);
    r.append(e);
    r
}

/// Seven parts of a text, put together.
fn cat7(a: &str, b: &str, c: &str, d: &str, e: &str, f: &str, g: &str) -> (r: String)
    ensures
        r@ == a@ + b@ + c@ + d@ + e@ + f@ + g@,
{
    let mut r = cat5(a, b, c, d, e);
    r.append(f);
    r.append(g);
    r
}

/// Nine parts of a text, put together.
fn cat9(
    a: &str,
    b: &str,
    c: &str,
    d: &str,
    e: &str,
    f: &str,
    g: &str,
    h: &str,
    i: &str,
) -> (r: String)
    ensures
        r@ == a@ + b@ + c@ + d@ + e@ + f@ + g@ + h@ + i@,
{
    let mut r = cat7(a, b, c, d, e, f, g);
    r.append(h);
    r.append(i);
    r
}

/// The query `base` under a name, with more lines in its two blocks.
fn extend(base: &ConstructQuery, name: &str, construct: Vec<String>, where_clause: Vec<String>) -> (r:
    MkQueryResult)
    ensures
        r@ == named(name@, extended(base@, texts(construct@), texts(where_clause@))),
{
    MkQueryResult {
        name: String::from_str(name),
        query: base.clone().with_construct(construct).with_where(where_clause),
    }
}

/// The lines given as literal text.
fn literal_lines(lines: Vec<&str>, Ghost(expected): Ghost<Seq<Seq<char>>>) -> (r: Vec<String>)
    requires
        slices(lines@) =~= expected,
    ensures
        texts(r@) == expected,
{
    owned(lines)
}

/// The queries that carry attributes over as they are, from `base`.
pub fn simple_queries(base: &ConstructQuery) -> (r: Vec<MkQueryResult>)
    ensures
        results(r@) == simple_results(base@),
{
    let rows: Vec<(&str, &str, &str)> = vec![
        ("accession_number", "dcm:121022", "dicom2rdf:00080050"),
        ("manufacturer", "dcm:121194", "dicom2rdf:00080070"),
        ("manufacturers_model_name", "dcm:121195", "dicom2rdf:00081090"),
        ("modality", "dcm:121139", "dicom2rdf:00080060"),
        ("protocol_name", "dicom2rdf:00181030", "dicom2rdf:00181030"),
        ("referring", "dcm:121095", "dicom2rdf:00080090"),
        ("series_description", "dicom2rdf:0008103E", "dicom2rdf:0008103E"),
        ("station_ae_title", "dcm:110119", "dicom2rdf:00080055"),
        ("study_description", "dicom2rdf:00081030", "dicom2rdf:00081030"),
    ];
    let mut r: Vec<MkQueryResult> = Vec::new();
    let mut i: usize = 0;
    assert forall|k: int| 0 <= k < rows@.len() implies (#[trigger] rows@[k]).0@ == simple_rows()[k].0
        && rows@[k].1@ == simple_rows()[k].1 && rows@[k].2@ == simple_rows()[k].2 by {}
    while i < rows.len()
        invariant
            i <= rows.len(),
            rows@.len() == simple_rows().len(),
            r@.len() == i,
            forall|k: int|
                0 <= k < rows@.len() ==> (#[trigger] rows@[k]).0@ == simple_rows()[k].0
                    && rows@[k].1@ == simple_rows()[k].1 && rows@[k].2@ == simple_rows()[k].2,
            forall|k: int| 0 <= k < i ==> (#[trigger] r@[k])@ == simple_query(base@, simple_rows()[k]),
        decreases rows.len() - i,
    {
        let row = rows[i];
        let construct = vec![cat3("?level0IRI ", row.1, " ?object .")];
        let where_clause = vec![cat3("?level0 ", row.2, " ?object .")];
        assert(texts(construct@) =~= seq!["?level0IRI "@ + row.1@ + " ?object ."@]);
        assert(texts(where_clause@) =~= seq!["?level0 "@ + row.2@ + " ?object ."@]);
        r.push(extend(base, row.0, construct, where_clause));
        i += 1;
    }
    assert(results(r@) =~= simple_results(base@));
    r
}

/// The queries that carry dates and times over, from `base`.
pub fn datetime_queries(base: &ConstructQuery) -> (r: Vec<MkQueryResult>)
    ensures
        results(r@) == datetime_results(base@),
{
    let rows: Vec<(&str, &str, &str, &str)> = vec![
        ("content_datetime", "rad:cdt", "dicom2rdf:00080023", "dicom2rdf:00080033"),
        ("series_datetime", "rad:seriesDt", "dicom2rdf:00080021", "dicom2rdf:00080031"),
        ("study_datetime", "rad:studyDt", "dicom2rdf:00080020", "dicom2rdf:00080030"),
    ];
    let mut r: Vec<MkQueryResult> = Vec::new();
    let mut i: usize = 0;
    assert forall|k: int| 0 <= k < rows@.len() implies (#[trigger] rows@[k]).0@
        == datetime_rows()[k].0 && rows@[k].1@ == datetime_rows()[k].1 && rows@[k].2@
        == datetime_rows()[k].2 && rows@[k].3@ == datetime_rows()[k].3 by {}
    while i < rows.len()
        invariant
            i <= rows.len(),
            rows@.len() == datetime_rows().len(),
            r@.len() == i,
            forall|k: int|
                0 <= k < rows@.len() ==> (#[trigger] rows@[k]).0@ == datetime_rows()[k].0
                    && rows@[k].1@ == datetime_rows()[k].1 && rows@[k].2@ == datetime_rows()[k].2
                    && rows@[k].3@ == datetime_rows()[k].3,
            forall|k: int|
                0 <= k < i ==> (#[trigger] r@[k])@ == datetime_query(base@, datetime_rows()[k]),
        decreases rows.len() - i,
    {
        let row = rows[i];
        let construct = vec![cat3("?level0IRI ", row.1, " ?datetime .")];
        let where_clause = vec![
            cat3("?level0 ", row.2, " ?date ."),
            cat3("OPTIONAL { ?level0 ", row.3, " ?time . }"),
            String::from_str(
                "BIND(IF(BOUND(?time),xsd:dateTime(CONCAT(STR(?date), \"T\", STR(?time))),?date) AS ?datetime)",
            ),
        ];
        assert(texts(construct@) =~= seq!["?level0IRI "@ + row.1@ + " ?datetime ."@]);
        assert(texts(where_clause@) =~= seq![
            "?level0 "@ + row.2@ + " ?date ."@,
            "OPTIONAL { ?level0 "@ + row.3@ + " ?time . }"@,
            "BIND(IF(BOUND(?time),xsd:dateTime(CONCAT(STR(?date), \"T\", STR(?time))),?date) AS ?datetime)"@,
        ]);
        r.push(extend(base, row.0, construct, where_clause));
        i += 1;
    }
    assert(results(r@) =~= datetime_results(base@));
    r
}

/// The queries that carry unique identifiers over, from `base`.
pub fn uid_queries(base: &ConstructQuery) -> (r: Vec<MkQueryResult>)
    ensures
        results(r@) == uid_results(base@),
{
    let rows: Vec<(&str, &str, &str)> = vec![
        ("series_instance_uid", "dcm:112002", "dicom2rdf:0020000E"),
        ("sop_class_uid", "dcm:110181", "dicom2rdf:00080016"),
        ("study_instance_uid", "dcm:110180", "dicom2rdf:0020000D"),
        ("sop_instance_uid", "rad:siuid", "dicom2rdf:00080018"),
    ];
    let mut r: Vec<MkQueryResult> = Vec::new();
    let mut i: usize = 0;
    assert forall|k: int| 0 <= k < rows@.len() implies (#[trigger] rows@[k]).0@ == uid_rows()[k].0
        && rows@[k].1@ == uid_rows()[k].1 && rows@[k].2@ == uid_rows()[k].2 by {}
    while i < rows.len()
        invariant
            i <= rows.len(),
            rows@.len() == uid_rows().len(),
            r@.len() == i,
            forall|k: int|
                0 <= k < rows@.len() ==> (#[trigger] rows@[k]).0@ == uid_rows()[k].0 && rows@[k].1@
                    == uid_rows()[k].1 && rows@[k].2@ == uid_rows()[k].2,
            forall|k: int| 0 <= k < i ==> (#[trigger] r@[k])@ == uid_query(base@, uid_rows()[k]),
        decreases rows.len() - i,
    {
        let row = rows[i];
        let construct = vec![cat3("?level0IRI ", row.1, " ?uidIRI .")];
        let where_clause = vec![
            cat3("?level0 ", row.2, " ?uid ."),
            String::from_str("BIND(IRI(CONCAT(\"urn:oid:\", ?uid)) AS ?uidIRI)"),
        ];
        assert(texts(construct@) =~= seq!["?level0IRI "@ + row.1@ + " ?uidIRI ."@]);
        assert(texts(where_clause@) =~= seq![
            "?level0 "@ + row.2@ + " ?uid ."@,
            "BIND(IRI(CONCAT(\"urn:oid:\", ?uid)) AS ?uidIRI)"@,
        ]);
        r.push(extend(base, row.0, construct, where_clause));
        i += 1;
    }
    assert(results(r@) =~= uid_results(base@));
    r
}

fn labels_query(base: &ConstructQuery) -> (r: MkQueryResult)
    ensures
        r@ == named("labels"@, extended(base@, labels_construct(), Seq::empty())),
{
    let construct: Vec<&str> = vec![
        "rad:cdt rdfs:label \"Content Date Time\"@en .",
        "rad:patient rdfs:label \"patient\"@en .",
        "rad:seriesDt rdfs:label \"Series Date Time\"@en .",
        "rad:siuid rdfs:label \"SOP Instance UID\"@en .",
        "rad:studyDt rdfs:label \"Study Date Time\"@en .",
        "rad:value rdfs:label \"value\"@en .",
        "sct:71388002 rdfs:label \"Procedure\"@en .",
    ];
    let where_clause: Vec<&str> = Vec::new();
    extend(
        base,
        "labels",
        literal_lines(construct, Ghost(labels_construct())),
        literal_lines(where_clause, Ghost(Seq::empty())),
    )
}

fn patient_query(base: &ConstructQuery) -> (r: MkQueryResult)
    ensures
        r@ == named("patient"@, extended(base@, patient_construct(), patient_where())),
{
    let construct: Vec<&str> = vec![
        "?level0IRI rad:patient ?patientIRI .",
        "?patientIRI schema:familyName ?family ;",
        "schema:additionalName ?middle ;",
        "schema:givenName ?given ;",
        "schema:honorificPrefix ?prefix ;",
        "schema:honorificSuffix ?suffix ;",
        "schema:identifier ?identifier ;",
        "dcm:110190 ?issuer ;",
        "schema:birthDate ?birthDate ;",
        "ln:LP97565-3 ?birthTime ;",
        "schema:gender ?sex ;",
        "rad:age ?age ;",
        "schema:height ?size ;",
        "schema:weight ?weight ;",
        "schema:address ?address ;",
        "rdfs:comment ?comments .",
    ];
    let where_clause: Vec<&str> = vec![
        "?level0 dicom2rdf:person_name ?pn .",
        "OPTIONAL { ?pn dicom2rdf:pn_family ?family . }",
        "OPTIONAL { ?pn dicom2rdf:pn_middle ?middle . }",
        "OPTIONAL { ?pn dicom2rdf:pn_given ?given . }",
        "OPTIONAL { ?pn dicom2rdf:pn_prefix ?prefix . }",
        "OPTIONAL { ?pn dicom2rdf:pn_prefix ?suffix . }",
        "OPTIONAL { ?level0 dicom2rdf:00100020 ?identifier . }",
        "OPTIONAL { ?level0 dicom2rdf:00100021 ?issuer . }",
        "OPTIONAL { ?level0 dicom2rdf:00100030 ?birthDate . }",
        "OPTIONAL { ?level0 dicom2rdf:00100032 ?birthTime . }",
        "OPTIONAL {",
        "?level0 dicom2rdf:00100040 ?sex_ .",
        "BIND(",
        "IF (?sex_ = \"M\", \"male\",",
        "IF (?sex_ = \"F\", \"female\",",
        "IF (?sex_ = \"W\", \"female\",",
        "IF (?sex_ = \"O\", \"other\", ?sex_)",
        ")",
        ")",
        ") AS ?sex",
        ")",
        "}",
        "OPTIONAL { ?level0 dicom2rdf:00101010 ?age . }",
        "OPTIONAL {",
        "?level0 dicom2rdf:00101020 ?size_ .",
        "FILTER(?size_ > 0)",
        "BIND( IF( xsd:decimal(?size_) <= 3, xsd:decimal(?size_) * 100, xsd:decimal(?size_) ) AS ?size)",
        "}",
        "OPTIONAL {",
        "?level0 dicom2rdf:00101030 ?weight .",
        "FILTER(?weight > 0)",
        "}",
        "OPTIONAL { ?level0 dicom2rdf:00101040 ?address . }",
        "OPTIONAL { ?level0 dicom2rdf:00104000 ?comments . }",
        "BIND(IRI(CONCAT(STR(?level0IRI), \"_\", \"patient\")) AS ?patientIRI)",
    ];
    extend(
        base,
        "patient",
        literal_lines(construct, Ghost(patient_construct())),
        literal_lines(where_clause, Ghost(patient_where())),
    )
}

fn procedure_query(base: &ConstructQuery) -> (r: MkQueryResult)
    ensures
        r@ == named("procedure"@, extended(base@, procedure_construct(), procedure_where())),
{
    let construct: Vec<&str> = vec![
        "?level0IRI sct:71388002 ?procedure .",
        "?procedure rdfs:label ?procedureCodeMeaning .",
    ];
    let where_clause: Vec<&str> = vec![
        "?level0 dicom2rdf:00081032/dicom2rdf:00080102 ?procedureCodingScheme .",
        "?level0 dicom2rdf:00081032/dicom2rdf:00080100 ?procedureCode .",
        "?level0 dicom2rdf:00081032/dicom2rdf:00080104 ?procedureCodeMeaning .",
        "BIND(IRI(CONCAT(STR(?procedureCodingScheme), ENCODE_FOR_URI(?procedureCode))) AS ?procedure)",
    ];
    extend(
        base,
        "procedure",
        literal_lines(construct, Ghost(procedure_construct())),
        literal_lines(where_clause, Ghost(procedure_where())),
    )
}

fn type_query(base: &ConstructQuery) -> (r: MkQueryResult)
    ensures
        r@ == named("type"@, extended(base@, type_construct(), type_where())),
{
    let construct: Vec<&str> = vec![
        "?level0IRI a ?type .",
        "?type rdfs:label ?conceptNameMeaning .",
    ];
    let where_clause: Vec<&str> = vec![
        "?level0 dicom2rdf:0040A043 [",
        "  dicom2rdf:00080100 ?conceptNameCode ;",
        "  dicom2rdf:00080102 ?conceptNameCodingScheme ;",
        "  dicom2rdf:00080104 ?conceptNameMeaning",
        "] .",
        "BIND(IRI(CONCAT(STR(?conceptNameCodingScheme), ENCODE_FOR_URI(?conceptNameCode))) AS ?type)",
    ];
    extend(
        base,
        "type",
        literal_lines(construct, Ghost(type_construct())),
        literal_lines(where_clause, Ghost(type_where())),
    )
}

/// The queries for labels, patient, procedure and type, from `base`.
pub fn other_queries(base: &ConstructQuery) -> (r: Vec<MkQueryResult>)
    ensures
        results(r@) == other_results(base@),
{
    let r = vec![labels_query(base), patient_query(base), procedure_query(base), type_query(base)];
    assert(results(r@) =~= other_results(base@));
    r
}

/// The query that every query on whole documents starts from.
fn top_level_base(config: &Config) -> (r: ConstructQuery)
    ensures
        r@ == base_query(config),
{
    let lines: Vec<&str> = vec![
            "?level0 a dicom2rdf:DocumentRoot .",
            "?level0 dicom2rdf:00080018 ?sopInstanceUID .",
            "BIND(IRI(CONCAT(STR(rad:), \"sopInstance/\", ?sopInstanceUID)) AS ?level0IRI)",
        ];
    let r = ConstructQuery::new().with_prefixes(prefixes(config)).with_where(
        literal_lines(lines, Ghost(base_where())),
    );
    assert(r@.prefixes =~= prefix_lines(config));
    assert(r@.where_clause =~= base_where());
    r
}

/// Moves the queries of `more` behind those of `queries`.
fn extend_queries(queries: &mut Vec<MkQueryResult>, more: Vec<MkQueryResult>)
    ensures
        results(final(queries)@) == results(old(queries)@) + results(more@),
{
    let mut more = more;
    let ghost added = more@;
    queries.append(&mut more);
    assert(results(queries@) =~= results(old(queries)@) + results(added));
}

/// The queries on whole documents: those that carry attributes, dates and
/// times, and unique identifiers over, then those for labels, patient,
/// procedure and type.
pub fn top_level_construct_queries(config: &Config) -> (r: Vec<MkQueryResult>)
    ensures
        results(r@) == simple_results(base_query(config)) + datetime_results(base_query(config))
            + uid_results(base_query(config)) + other_results(base_query(config)),
{
    let base = top_level_base(config);
    let mut r = simple_queries(&base);
    extend_queries(&mut r, datetime_queries(&base));
    extend_queries(&mut r, uid_queries(&base));
    extend_queries(&mut r, other_queries(&base));
    r
}


/// The variable that holds the identifier of the container at a level.
pub open spec fn iri_var(n: nat) -> Seq<char> {
    "?level"@ + decimal_digits(n) + "IRI"@
}

/// The variable that holds the content at a level.
pub open spec fn level_var(n: nat) -> Seq<char> {
    "?level"@ + decimal_digits(n)
}

/// The variable that holds the index of the content at a level.
pub open spec fn index_var(n: nat) -> Seq<char> {
    "?level"@ + decimal_digits(n) + "Index"@
}

/// What is constructed for the container at level `i`: its link from the
/// container one level up, and the label of that link.
pub open spec fn level_construct(i: nat) -> Seq<Seq<char>> {
    let p = decimal_digits((i - 1) as nat);
    let c = decimal_digits(i);
    seq![
        "?level"@ + p + "IRI ?level"@ + p + "to"@ + c + "Predicate ?level"@ + c + "IRI ."@,
        "?level"@ + p + "to"@ + c + "Predicate rdfs:label ?level"@ + c + "ConceptNameMeaning ."@,
    ]
}

/// What is read for the container at level `i`.
pub open spec fn level_where(i: nat) -> Seq<Seq<char>> {
    let p = decimal_digits((i - 1) as nat);
    let c = decimal_digits(i);
    seq![
        "?level"@ + p + " dicom2rdf:0040A730 ["@,
        "    dicom2rdf:index ?level"@ + c + "Index ;"@,
        "    dicom2rdf:item ?level"@ + c + " ;"@,
        "] ."@,
        "?level"@ + c + " dicom2rdf:0040A040 \"CONTAINER\" ."@,
        "?level"@ + c + " dicom2rdf:0040A043 ["@,
        "  dicom2rdf:00080100 ?level"@ + c + "ConceptNameCode ;"@,
        "  dicom2rdf:00080102 ?level"@ + c + "ConceptNameCodingScheme ;"@,
        "  dicom2rdf:00080104 ?level"@ + c + "ConceptNameMeaning"@,
        "] ."@,
        "BIND(IRI(CONCAT("@,
        "  STR(?level"@ + c + "ConceptNameCodingScheme),"@,
        "  ENCODE_FOR_URI(STR(?level"@ + c + "ConceptNameCode))"@,
        ")) AS ?level"@ + p + "to"@ + c + "Predicate)"@,
        "BIND(IRI(CONCAT("@,
        "  STR(?level"@ + p + "IRI),"@,
        "  \"_\","@,
        "  STR(?level"@ + c + "Index),"@,
        "  \"_\","@,
        "  ENCODE_FOR_URI(?level"@ + c + "ConceptNameMeaning)"@,
        ")) AS ?level"@ + c + "IRI)"@,
    ]
}

/// What is read for the content below the container at level `n`.
pub open spec fn container_tail(n: nat) -> Seq<Seq<char>> {
    seq![
        "?level"@ + decimal_digits(n) + " dicom2rdf:0040A730 ["@,
        "  dicom2rdf:index "@ + index_var(n + 1) + " ;"@,
        "  dicom2rdf:item "@ + level_var(n + 1),
        "] ."@,
    ]
}

/// What is constructed for a coded value below the container at level `n`.
pub open spec fn code_construct(n: nat) -> Seq<Seq<char>> {
    seq![
        iri_var(n) + " ?valuePred ?valueIRI ."@,
        "?valuePred rdfs:label ?conceptNameMeaning ."@,
        "?valueIRI rdfs:label ?conceptMeaning ."@,
    ]
}

/// What is read for a coded value below the container at level `n`.
pub open spec fn code_where(n: nat) -> Seq<Seq<char>> {
    seq![
        level_var(n + 1) + " dicom2rdf:0040A040 \"CODE\" ."@,
        level_var(n + 1) + " dicom2rdf:0040A043 ["@,
        "  dicom2rdf:00080100 ?conceptNameCode ;"@,
        "  dicom2rdf:00080102 ?conceptNameCodingScheme ;"@,
        "  dicom2rdf:00080104 ?conceptNameMeaning"@,
        "] ."@,
        level_var(n + 1) + " dicom2rdf:0040A168 ["@,
        "  dicom2rdf:00080100 ?conceptCode ;"@,
        "  dicom2rdf:00080102 ?conceptCodingScheme ;"@,
        "  dicom2rdf:00080104 ?conceptMeaning"@,
        "] ."@,
        "BIND(IRI(CONCAT("@,
        "  STR(?conceptNameCodingScheme),"@,
        "  ENCODE_FOR_URI(?conceptNameCode)"@,
        ")) AS ?valuePred)"@,
        "BIND(IRI(CONCAT("@,
        "  STR(?conceptCodingScheme),"@,
        "  ENCODE_FOR_URI(?conceptCode)"@,
        ")) AS ?valueIRI)"@,
    ]
}

/// What is constructed for a text value below the container at level `n`.
pub open spec fn text_construct(n: nat) -> Seq<Seq<char>> {
    seq![
        iri_var(n) + " ?valuePred ?value ."@,
        "?valuePred rdfs:label ?conceptNameMeaning ."@,
    ]
}

/// What is read for a text value below the container at level `n`.
pub open spec fn text_where(n: nat) -> Seq<Seq<char>> {
    seq![
        level_var(n + 1) + " dicom2rdf:0040A040 \"TEXT\" ."@,
        level_var(n + 1) + " dicom2rdf:0040A043 ["@,
        "  dicom2rdf:00080100 ?conceptNameCode ;"@,
        "  dicom2rdf:00080102 ?conceptNameCodingScheme ;"@,
        "  dicom2rdf:00080104 ?conceptNameMeaning"@,
        "] ."@,
        level_var(n + 1) + " dicom2rdf:0040A160 ?value"@,
        "BIND(IRI(CONCAT("@,
        "  STR(?conceptNameCodingScheme),"@,
        "  ENCODE_FOR_URI(?conceptNameCode)"@,
        ")) AS ?valuePred)"@,
    ]
}

/// What is constructed for a numeric value below the container at level `n`.
pub open spec fn num_construct(n: nat) -> Seq<Seq<char>> {
    seq![
        iri_var(n) + " ?valuePred ?valueIRI ."@,
        "?valueIRI a qudt:QuantityValue; qudt:numericValue ?value; qudt:unit ?valueUnitIRI ."@,
        "?valuePred rdfs:label ?conceptNameMeaning ."@,
        "?valueUnitIRI rdfs:label ?valueUnitCodeMeaning ."@,
    ]
}

/// What is read for a numeric value below the container at level `n`.
pub open spec fn num_where(n: nat) -> Seq<Seq<char>> {
    seq![
        level_var(n + 1) + " dicom2rdf:0040A040 \"NUM\" ."@,
        level_var(n + 1) + " dicom2rdf:0040A043 ["@,
        "  dicom2rdf:00080100 ?conceptNameCode ;"@,
        "  dicom2rdf:00080102 ?conceptNameCodingScheme ;"@,
        "  dicom2rdf:00080104 ?conceptNameMeaning"@,
        "] ."@,
        level_var(n + 1) + " dicom2rdf:0040A300 ?measuredValue ."@,
        "?measuredValue dicom2rdf:004008EA ["@,
        "  dicom2rdf:00080100 ?valueUnitCode ;"@,
        "  dicom2rdf:00080102 ?valueUnitCodingScheme ;"@,
        "  dicom2rdf:00080104 ?valueUnitCodeMeaning"@,
        "] ."@,
        "OPTIONAL { ?measuredValue dicom2rdf:0040A161 ?fpValue }"@,
        "OPTIONAL { ?measuredValue dicom2rdf:0040A30A ?numValue }"@,
        "BIND(COALESCE(xsd:decimal(?fpValue), xsd:decimal(?numValue)) AS ?value)"@,
        "FILTER(BOUND(?value))"@,
        "BIND(IRI(CONCAT(STR(?conceptNameCodingScheme), ENCODE_FOR_URI(?conceptNameCode))) AS ?valuePred)"@,
        "BIND(IRI(CONCAT(STR("@ + iri_var(n) + "), \"_\", STR("@ + index_var(n + 1) + "))) AS ?valueIRI)"@,
        "BIND(IRI(CONCAT(STR(?valueUnitCodingScheme), ENCODE_FOR_URI(?valueUnitCode))) as ?valueUnitIRI)"@,
    ]
}

/// What is constructed for a reference to a unique identifier below the container at level `n`.
pub open spec fn uidref_construct(n: nat) -> Seq<Seq<char>> {
    seq![
        iri_var(n) + " ?valuePred ?valueIRI ."@,
        "?valuePred rdfs:label ?conceptNameMeaning ."@,
    ]
}

/// What is read for a reference to a unique identifier below the container at level `n`.
pub open spec fn uidref_where(n: nat) -> Seq<Seq<char>> {
    seq![
        level_var(n + 1) + " dicom2rdf:0040A040 \"UIDREF\" ."@,
        level_var(n + 1) + " dicom2rdf:0040A043 ["@,
        "  dicom2rdf:00080100 ?conceptNameCode ;"@,
        "  dicom2rdf:00080102 ?conceptNameCodingScheme ;"@,
        "  dicom2rdf:00080104 ?conceptNameMeaning"@,
        "] ."@,
        level_var(n + 1) + " dicom2rdf:0040A124 ?value"@,
        "BIND(IRI(CONCAT(\"urn:oid:\", ?value)) AS ?valueIRI)"@,
        "BIND(IRI(CONCAT(STR(?conceptNameCodingScheme), ENCODE_FOR_URI(?conceptNameCode))) AS ?valuePred)"@,
    ]
}

/// What is constructed for the container at level `i`.
fn level_construct_lines(i: u16) -> (r: Vec<String>)
    requires
        i >= 1,
    ensures
        texts(r@) == level_construct(i as nat),
{
    let p = decimal_string((i - 1) as u64);
    let c = decimal_string(i as u64);
    let r = vec![
        cat9("?level", p.as_str(), "IRI ?level", p.as_str(), "to", c.as_str(), "Predicate ?level", c.as_str(), "IRI ."),
        cat7("?level", p.as_str(), "to", c.as_str(), "Predicate rdfs:label ?level", c.as_str(), "ConceptNameMeaning ."),
    ];
    assert(texts(r@) =~= level_construct(i as nat));
    r
}

/// What is read for the container at level `i`.
fn level_where_lines(i: u16) -> (r: Vec<String>)
    requires
        i >= 1,
    ensures
        texts(r@) == level_where(i as nat),
{
    let p = decimal_string((i - 1) as u64);
    let c = decimal_string(i as u64);
    let r = vec![
        cat3("?level", p.as_str(), " dicom2rdf:0040A730 ["),
        cat3("    dicom2rdf:index ?level", c.as_str(), "Index ;"),
        cat3("    dicom2rdf:item ?level", c.as_str(), " ;"),
        String::from_str("] ."),
        cat3("?level", c.as_str(), " dicom2rdf:0040A040 \"CONTAINER\" ."),
        cat3("?level", c.as_str(), " dicom2rdf:0040A043 ["),
        cat3("  dicom2rdf:00080100 ?level", c.as_str(), "ConceptNameCode ;"),
        cat3("  dicom2rdf:00080102 ?level", c.as_str(), "ConceptNameCodingScheme ;"),
        cat3("  dicom2rdf:00080104 ?level", c.as_str(), "ConceptNameMeaning"),
        String::from_str("] ."),
        String::from_str("BIND(IRI(CONCAT("),
        cat3("  STR(?level", c.as_str(), "ConceptNameCodingScheme),"),
        cat3("  ENCODE_FOR_URI(STR(?level", c.as_str(), "ConceptNameCode))"),
        cat5(")) AS ?level", p.as_str(), "to", c.as_str(), "Predicate)"),
        String::from_str("BIND(IRI(CONCAT("),
        cat3("  STR(?level", p.as_str(), "IRI),"),
        String::from_str("  \"_\","),
        cat3("  STR(?level", c.as_str(), "Index),"),
        String::from_str("  \"_\","),
        cat3("  ENCODE_FOR_URI(?level", c.as_str(), "ConceptNameMeaning)"),
        cat3(")) AS ?level", c.as_str(), "IRI)"),
    ];
    assert(texts(r@) =~= level_where(i as nat));
    r
}

/// What is read for the content below the container at level `n`.
fn container_tail_lines(n: u8, iri: &str, level: &str, index: &str) -> (r: Vec<String>)
    requires
        iri@ == iri_var(n as nat),
        level@ == level_var(n as nat + 1),
        index@ == index_var(n as nat + 1),
    ensures
        texts(r@) == container_tail(n as nat),
{
    let d = decimal_string(n as u64);
    let r = vec![
        cat3("?level", d.as_str(), " dicom2rdf:0040A730 ["),
        cat3("  dicom2rdf:index ", index, " ;"),
        cat2("  dicom2rdf:item ", level),
        String::from_str("] ."),
    ];
    assert(texts(r@) =~= container_tail(n as nat));
    r
}

/// What is constructed for a coded value.
fn code_construct_lines(n: u8, iri: &str, level: &str, index: &str) -> (r: Vec<String>)
    requires
        iri@ == iri_var(n as nat),
        level@ == level_var(n as nat + 1),
        index@ == index_var(n as nat + 1),
    ensures
        texts(r@) == code_construct(n as nat),
{
    let r = vec![
        cat2(iri, " ?valuePred ?valueIRI ."),
        String::from_str("?valuePred rdfs:label ?conceptNameMeaning ."),
        String::from_str("?valueIRI rdfs:label ?conceptMeaning ."),
    ];
    assert(texts(r@) =~= code_construct(n as nat));
    r
}

/// What is read for a coded value.
fn code_where_lines(n: u8, iri: &str, level: &str, index: &str) -> (r: Vec<String>)
    requires
        iri@ == iri_var(n as nat),
        level@ == level_var(n as nat + 1),
        index@ == index_var(n as nat + 1),
    ensures
        texts(r@) == code_where(n as nat),
{
    let r = vec![
        cat2(level, " dicom2rdf:0040A040 \"CODE\" ."),
        cat2(level, " dicom2rdf:0040A043 ["),
        String::from_str("  dicom2rdf:00080100 ?conceptNameCode ;"),
        String::from_str("  dicom2rdf:00080102 ?conceptNameCodingScheme ;"),
        String::from_str("  dicom2rdf:00080104 ?conceptNameMeaning"),
        String::from_str("] ."),
        cat2(level, " dicom2rdf:0040A168 ["),
        String::from_str("  dicom2rdf:00080100 ?conceptCode ;"),
        String::from_str("  dicom2rdf:00080102 ?conceptCodingScheme ;"),
        String::from_str("  dicom2rdf:00080104 ?conceptMeaning"),
        String::from_str("] ."),
        String::from_str("BIND(IRI(CONCAT("),
        String::from_str("  STR(?conceptNameCodingScheme),"),
        String::from_str("  ENCODE_FOR_URI(?conceptNameCode)"),
        String::from_str(")) AS ?valuePred)"),
        String::from_str("BIND(IRI(CONCAT("),
        String::from_str("  STR(?conceptCodingScheme),"),
        String::from_str("  ENCODE_FOR_URI(?conceptCode)"),
        String::from_str(")) AS ?valueIRI)"),
    ];
    assert(texts(r@) =~= code_where(n as nat));
    r
}

/// What is constructed for a text value.
fn text_construct_lines(n: u8, iri: &str, level: &str, index: &str) -> (r: Vec<String>)
    requires
        iri@ == iri_var(n as nat),
        level@ == level_var(n as nat + 1),
        index@ == index_var(n as nat + 1),
    ensures
        texts(r@) == text_construct(n as nat),
{
    let r = vec![
        cat2(iri, " ?valuePred ?value ."),
        String::from_str("?valuePred rdfs:label ?conceptNameMeaning ."),
    ];
    assert(texts(r@) =~= text_construct(n as nat));
    r
}

/// What is read for a text value.
fn text_where_lines(n: u8, iri: &str, level: &str, index: &str) -> (r: Vec<String>)
    requires
        iri@ == iri_var(n as nat),
        level@ == level_var(n as nat + 1),
        index@ == index_var(n as nat + 1),
    ensures
        texts(r@) == text_where(n as nat),
{
    let r = vec![
        cat2(level, " dicom2rdf:0040A040 \"TEXT\" ."),
        cat2(level, " dicom2rdf:0040A043 ["),
        String::from_str("  dicom2rdf:00080100 ?conceptNameCode ;"),
        String::from_str("  dicom2rdf:00080102 ?conceptNameCodingScheme ;"),
        String::from_str("  dicom2rdf:00080104 ?conceptNameMeaning"),
        String::from_str("] ."),
        cat2(level, " dicom2rdf:0040A160 ?value"),
        String::from_str("BIND(IRI(CONCAT("),
        String::from_str("  STR(?conceptNameCodingScheme),"),
        String::from_str("  ENCODE_FOR_URI(?conceptNameCode)"),
        String::from_str(")) AS ?valuePred)"),
    ];
    assert(texts(r@) =~= text_where(n as nat));
    r
}

/// What is constructed for a numeric value.
fn num_construct_lines(n: u8, iri: &str, level: &str, index: &str) -> (r: Vec<String>)
    requires
        iri@ == iri_var(n as nat),
        level@ == level_var(n as nat + 1),
        index@ == index_var(n as nat + 1),
    ensures
        texts(r@) == num_construct(n as nat),
{
    let r = vec![
        cat2(iri, " ?valuePred ?valueIRI ."),
        String::from_str("?valueIRI a qudt:QuantityValue; qudt:numericValue ?value; qudt:unit ?valueUnitIRI ."),
        String::from_str("?valuePred rdfs:label ?conceptNameMeaning ."),
        String::from_str("?valueUnitIRI rdfs:label ?valueUnitCodeMeaning ."),
    ];
    assert(texts(r@) =~= num_construct(n as nat));
    r
}

/// What is read for a numeric value.
fn num_where_lines(n: u8, iri: &str, level: &str, index: &str) -> (r: Vec<String>)
    requires
        iri@ == iri_var(n as nat),
        level@ == level_var(n as nat + 1),
        index@ == index_var(n as nat + 1),
    ensures
        texts(r@) == num_where(n as nat),
{
    let r = vec![
        cat2(level, " dicom2rdf:0040A040 \"NUM\" ."),
        cat2(level, " dicom2rdf:0040A043 ["),
        String::from_str("  dicom2rdf:00080100 ?conceptNameCode ;"),
        String::from_str("  dicom2rdf:00080102 ?conceptNameCodingScheme ;"),
        String::from_str("  dicom2rdf:00080104 ?conceptNameMeaning"),
        String::from_str("] ."),
        cat2(level, " dicom2rdf:0040A300 ?measuredValue ."),
        String::from_str("?measuredValue dicom2rdf:004008EA ["),
        String::from_str("  dicom2rdf:00080100 ?valueUnitCode ;"),
        String::from_str("  dicom2rdf:00080102 ?valueUnitCodingScheme ;"),
        String::from_str("  dicom2rdf:00080104 ?valueUnitCodeMeaning"),
        String::from_str("] ."),
        String::from_str("OPTIONAL { ?measuredValue dicom2rdf:0040A161 ?fpValue }"),
        String::from_str("OPTIONAL { ?measuredValue dicom2rdf:0040A30A ?numValue }"),
        String::from_str("BIND(COALESCE(xsd:decimal(?fpValue), xsd:decimal(?numValue)) AS ?value)"),
        String::from_str("FILTER(BOUND(?value))"),
        String::from_str("BIND(IRI(CONCAT(STR(?conceptNameCodingScheme), ENCODE_FOR_URI(?conceptNameCode))) AS ?valuePred)"),
        cat5("BIND(IRI(CONCAT(STR(", iri, "), \"_\", STR(", index, "))) AS ?valueIRI)"),
        String::from_str("BIND(IRI(CONCAT(STR(?valueUnitCodingScheme), ENCODE_FOR_URI(?valueUnitCode))) as ?valueUnitIRI)"),
    ];
    assert(texts(r@) =~= num_where(n as nat));
    r
}

/// What is constructed for a reference to a unique identifier.
fn uidref_construct_lines(n: u8, iri: &str, level: &str, index: &str) -> (r: Vec<String>)
    requires
        iri@ == iri_var(n as nat),
        level@ == level_var(n as nat + 1),
        index@ == index_var(n as nat + 1),
    ensures
        texts(r@) == uidref_construct(n as nat),
{
    let r = vec![
        cat2(iri, " ?valuePred ?valueIRI ."),
        String::from_str("?valuePred rdfs:label ?conceptNameMeaning ."),
    ];
    assert(texts(r@) =~= uidref_construct(n as nat));
    r
}

/// What is read for a reference to a unique identifier.
fn uidref_where_lines(n: u8, iri: &str, level: &str, index: &str) -> (r: Vec<String>)
    requires
        iri@ == iri_var(n as nat),
        level@ == level_var(n as nat + 1),
        index@ == index_var(n as nat + 1),
    ensures
        texts(r@) == uidref_where(n as nat),
{
    let r = vec![
        cat2(level, " dicom2rdf:0040A040 \"UIDREF\" ."),
        cat2(level, " dicom2rdf:0040A043 ["),
        String::from_str("  dicom2rdf:00080100 ?conceptNameCode ;"),
        String::from_str("  dicom2rdf:00080102 ?conceptNameCodingScheme ;"),
        String::from_str("  dicom2rdf:00080104 ?conceptNameMeaning"),
        String::from_str("] ."),
        cat2(level, " dicom2rdf:0040A124 ?value"),
        String::from_str("BIND(IRI(CONCAT(\"urn:oid:\", ?value)) AS ?valueIRI)"),
        String::from_str("BIND(IRI(CONCAT(STR(?conceptNameCodingScheme), ENCODE_FOR_URI(?conceptNameCode))) AS ?valuePred)"),
    ];
    assert(texts(r@) =~= uidref_where(n as nat));
    r
}


/// What is constructed for the containers at the levels from 1 to `n`.
pub open spec fn levels_construct(n: nat) -> Seq<Seq<char>>
    decreases n,
{
    if n == 0 {
        Seq::empty()
    } else {
        levels_construct((n - 1) as nat) + level_construct(n)
    }
}

/// What is read for the containers at the levels from 1 to `n`.
pub open spec fn levels_where(n: nat) -> Seq<Seq<char>>
    decreases n,
{
    if n == 0 {
        Seq::empty()
    } else {
        levels_where((n - 1) as nat) + level_where(n)
    }
}

/// The query that reaches the content below `n` nested containers.
pub open spec fn container_view(base: ConstructQueryView, n: nat) -> ConstructQueryView {
    extended(base, levels_construct(n), levels_where(n) + container_tail(n))
}

/// The query for the coded values below `n` nested containers.
pub open spec fn code_result(base: ConstructQueryView, n: nat) -> MkQueryResultView {
    named(
        "code_"@ + decimal_digits(n),
        extended(container_view(base, n), code_construct(n), code_where(n)),
    )
}

/// The query for the text values below `n` nested containers.
pub open spec fn text_result(base: ConstructQueryView, n: nat) -> MkQueryResultView {
    named(
        "text_"@ + decimal_digits(n),
        extended(container_view(base, n), text_construct(n), text_where(n)),
    )
}

/// The query for the numeric values below `n` nested containers.
pub open spec fn num_result(base: ConstructQueryView, n: nat) -> MkQueryResultView {
    named(
        "num_"@ + decimal_digits(n),
        extended(container_view(base, n), num_construct(n), num_where(n)),
    )
}

/// The query for the references to unique identifiers below `n` nested
/// containers.
pub open spec fn uidref_result(base: ConstructQueryView, n: nat) -> MkQueryResultView {
    named(
        "uidref_"@ + decimal_digits(n),
        extended(container_view(base, n), uidref_construct(n), uidref_where(n)),
    )
}

/// The queries for the values below fewer than `k` nested containers: for
/// each number of containers those for coded, numeric and text values and
/// for references, in this order.
pub open spec fn nested_results(base: ConstructQueryView, k: nat) -> Seq<MkQueryResultView>
    decreases k,
{
    if k == 0 {
        Seq::empty()
    } else {
        nested_results(base, (k - 1) as nat) + seq![
            code_result(base, (k - 1) as nat),
            num_result(base, (k - 1) as nat),
            text_result(base, (k - 1) as nat),
            uidref_result(base, (k - 1) as nat),
        ]
    }
}

/// Two parts of a text, put together.
fn cat2(a: &str, b: &str) -> (r: String)
    ensures
        r@ == a@ + b@,
{
    let mut r = String::from_str(a);
    r.append(b);
    r
}

/// A query that reaches the content below nested containers, with the
/// variables that queries on that content speak of.
pub struct ContainerResult {
    pub query: ConstructQuery,
    pub next_iri_var: String,
    pub next_level_index_var: String,
    pub next_level_var: String,
}

/// The query that reaches the content below `nesting` nested containers.
pub fn container_query(base: ConstructQuery, nesting: u8) -> (r: ContainerResult)
    ensures
        r.query@ == container_view(base@, nesting as nat),
        r.next_iri_var@ == iri_var(nesting as nat),
        r.next_level_index_var@ == index_var(nesting as nat + 1),
        r.next_level_var@ == level_var(nesting as nat + 1),
{
    let mut construct: Vec<String> = Vec::new();
    let mut where_clause: Vec<String> = Vec::new();
    let mut i: u16 = 1;
    assert(texts(construct@) =~= levels_construct(0));
    assert(texts(where_clause@) =~= levels_where(0));
    while i <= nesting as u16
        invariant
            1 <= i <= nesting + 1,
            texts(construct@) == levels_construct((i - 1) as nat),
            texts(where_clause@) == levels_where((i - 1) as nat),
        decreases nesting + 1 - i,
    {
        extend_lines(&mut construct, level_construct_lines(i));
        extend_lines(&mut where_clause, level_where_lines(i));
        i += 1;
    }
    let here = decimal_string(nesting as u64);
    let next = decimal_string(nesting as u64 + 1);
    let next_iri_var = cat3("?level", here.as_str(), "IRI");
    let next_level_index_var = cat3("?level", next.as_str(), "Index");
    let next_level_var = cat2("?level", next.as_str());
    extend_lines(
        &mut where_clause,
        container_tail_lines(
            nesting,
            next_iri_var.as_str(),
            next_level_var.as_str(),
            next_level_index_var.as_str(),
        ),
    );
    ContainerResult {
        query: base.with_construct(construct).with_where(where_clause),
        next_iri_var,
        next_level_index_var,
        next_level_var,
    }
}

/// The query for the coded values below `nesting` nested containers.
pub fn code_query(base: ConstructQuery, nesting: u8) -> (r: MkQueryResult)
    ensures
        r@ == code_result(base@, nesting as nat),
{
    let c = container_query(base, nesting);
    let construct = code_construct_lines(
        nesting,
        c.next_iri_var.as_str(),
        c.next_level_var.as_str(),
        c.next_level_index_var.as_str(),
    );
    let where_clause = code_where_lines(
        nesting,
        c.next_iri_var.as_str(),
        c.next_level_var.as_str(),
        c.next_level_index_var.as_str(),
    );
    let number = decimal_string(nesting as u64);
    MkQueryResult {
        name: cat2("code_", number.as_str()),
        query: c.query.with_construct(construct).with_where(where_clause),
    }
}

/// The query for the text values below `nesting` nested containers.
pub fn text_query(base: ConstructQuery, nesting: u8) -> (r: MkQueryResult)
    ensures
        r@ == text_result(base@, nesting as nat),
{
    let c = container_query(base, nesting);
    let construct = text_construct_lines(
        nesting,
        c.next_iri_var.as_str(),
        c.next_level_var.as_str(),
        c.next_level_index_var.as_str(),
    );
    let where_clause = text_where_lines(
        nesting,
        c.next_iri_var.as_str(),
        c.next_level_var.as_str(),
        c.next_level_index_var.as_str(),
    );
    let number = decimal_string(nesting as u64);
    MkQueryResult {
        name: cat2("text_", number.as_str()),
        query: c.query.with_construct(construct).with_where(where_clause),
    }
}

/// The query for the numeric values below `nesting` nested containers.
pub fn num_query(base: ConstructQuery, nesting: u8) -> (r: MkQueryResult)
    ensures
        r@ == num_result(base@, nesting as nat),
{
    let c = container_query(base, nesting);
    let construct = num_construct_lines(
        nesting,
        c.next_iri_var.as_str(),
        c.next_level_var.as_str(),
        c.next_level_index_var.as_str(),
    );
    let where_clause = num_where_lines(
        nesting,
        c.next_iri_var.as_str(),
        c.next_level_var.as_str(),
        c.next_level_index_var.as_str(),
    );
    let number = decimal_string(nesting as u64);
    MkQueryResult {
        name: cat2("num_", number.as_str()),
        query: c.query.with_construct(construct).with_where(where_clause),
    }
}

/// The query for the references to unique identifiers below `nesting`
/// nested containers.
pub fn uidref_query(base: ConstructQuery, nesting: u8) -> (r: MkQueryResult)
    ensures
        r@ == uidref_result(base@, nesting as nat),
{
    let c = container_query(base, nesting);
    let construct = uidref_construct_lines(
        nesting,
        c.next_iri_var.as_str(),
        c.next_level_var.as_str(),
        c.next_level_index_var.as_str(),
    );
    let where_clause = uidref_where_lines(
        nesting,
        c.next_iri_var.as_str(),
        c.next_level_var.as_str(),
        c.next_level_index_var.as_str(),
    );
    let number = decimal_string(nesting as u64);
    MkQueryResult {
        name: cat2("uidref_", number.as_str()),
        query: c.query.with_construct(construct).with_where(where_clause),
    }
}

/// The queries on the content of documents, for content below fewer than
/// `max_nesting` nested containers.
pub fn nested_construct_queries(config: &Config, max_nesting: u8) -> (r: Vec<MkQueryResult>)
    ensures
        results(r@) == nested_results(base_query(config), max_nesting as nat),
{
    let base = top_level_base(config);
    let mut r: Vec<MkQueryResult> = Vec::new();
    let mut n: u8 = 0;
    assert(results(r@) =~= nested_results(base@, 0));
    while n < max_nesting
        invariant
            n <= max_nesting,
            base@ == base_query(config),
            results(r@) == nested_results(base@, n as nat),
        decreases max_nesting - n,
    {
        let four = vec![
            code_query(base.clone(), n),
            num_query(base.clone(), n),
            text_query(base.clone(), n),
            uidref_query(base.clone(), n),
        ];
        assert(results(four@) =~= seq![
            code_result(base@, n as nat),
            num_result(base@, n as nat),
            text_result(base@, n as nat),
            uidref_result(base@, n as nat),
        ]);
        extend_queries(&mut r, four);
        n += 1;
    }
    r
}

} // verus!
