//! The triple emitter: walks a document and writes one statement for each
//! value of each attribute.
use crate::config::Config;
use crate::datetime::{
    date_iso, date_to_iso, datetime_iso, datetime_to_iso, temporal_datatype, time_iso,
    time_to_iso, typed_temporal_literal,
};
use crate::document::{DataElement, Decimal, DocumentNode, PersonName, Tag, Value, VR};
use crate::text::{
    clean, cleaned, hex4, integer_reading, parse_integer, push_char, push_hex4, trim, trimmed,
    utf8_len,
};
use crate::turtle::{
    blank_node, create_blank_node, percent_encoded, statement, triple, url_encode,
    BlankNodeAllocator, IriView, PlainLiteral, PlainLiteralView, TripleObject, TripleObjectView,
    TypedLiteral, TypedLiteralView, IRI,
};
use vstd::prelude::*;
use vstd::string::StringExecFns;
use vstd::utf8::encode_utf8;

verus! {

/// What the emitter writes to, as it stands at one moment: the text of the
/// statements, the text of the error log, and the number of blank-node
/// tokens handed out.
pub struct Sinks {
    pub triples: Seq<char>,
    pub errors: Seq<char>,
    pub issued: nat,
}

/// The state of a walk: the sinks, the redaction carry of the subtree
/// walked so far, and the greatest depth seen in it.
pub struct Outcome {
    pub sinks: Sinks,
    pub carry: Option<Seq<char>>,
    pub max_depth: u8,
}

/// The state of a walk through the items of a sequence, with the failure
/// that ended it, if one did.
pub struct Progress {
    pub outcome: Outcome,
    pub failure: Option<Seq<char>>,
}

/// What one value of an attribute comes to.
#[derive(Debug, PartialEq, Eq)]
pub enum ValueStep {
    /// A statement with this object.
    Emit(TripleObject),
    /// Nothing.
    Skip,
    /// The failure of the attribute, with its message.
    Fail(String),
}

/// What a step holds.
pub enum ValueStepView {
    Emit(TripleObjectView),
    Skip,
    Fail(Seq<char>),
}

impl View for ValueStep {
    type V = ValueStepView;

    open spec fn view(&self) -> ValueStepView {
        match self {
            ValueStep::Emit(o) => ValueStepView::Emit(o@),
            ValueStep::Skip => ValueStepView::Skip,
            ValueStep::Fail(m) => ValueStepView::Fail(m@),
        }
    }
}

/// Whether the tag is that of the pixel data.
pub open spec fn is_pixel_data(tag: Tag) -> bool {
    tag.0 == 0x7FE0 && tag.1 == 0x0010
}

/// Whether the tag is that of the meaning of a coded concept.
pub open spec fn is_code_meaning(tag: Tag) -> bool {
    tag.0 == 0x0008 && tag.1 == 0x0104
}

/// Whether the tag is that of the coding scheme of a coded concept.
pub open spec fn is_coding_scheme_designator(tag: Tag) -> bool {
    tag.0 == 0x0008 && tag.1 == 0x0102
}

/// Whether the tag is that of the content sequence, which nests
/// documents one level deeper.
pub open spec fn is_content_sequence(tag: Tag) -> bool {
    tag.0 == 0x0040 && tag.1 == 0xA730
}

/// Whether the tag is that of the free text of a content item.
pub open spec fn is_text_value(tag: Tag) -> bool {
    tag.0 == 0x0040 && tag.1 == 0xA160
}

/// An identifier of the emitter's own vocabulary.
pub open spec fn own(local: Seq<char>) -> IriView {
    IriView::Prefixed { prefix: "dicom2rdf"@, local }
}

/// The predicate that stands for an attribute: its tag as eight
/// hexadecimal digits.
pub open spec fn predicate_of(tag: Tag) -> IriView {
    own(hex4(tag.0) + hex4(tag.1))
}

/// The object that is a plain string.
pub open spec fn plain_string(s: Seq<char>) -> TripleObjectView {
    TripleObjectView::PlainLiteral(PlainLiteralView::String(s))
}

/// The object that is a number, given by its rendering.
pub open spec fn plain_float(text: Seq<char>) -> TripleObjectView {
    TripleObjectView::PlainLiteral(PlainLiteralView::Float(text))
}

/// One line of the statements' text.
pub open spec fn line(subject: IriView, predicate: IriView, object: TripleObjectView) -> Seq<
    char,
> {
    statement(subject, predicate, object) + seq!['\n']
}

/// The text that stands for the value of a forbidden attribute: its tag.
pub open spec fn tag_placeholder(tag: Tag) -> Seq<char> {
    "<("@ + hex4(tag.0) + seq![','] + hex4(tag.1) + ")>"@
}

/// The text that stands for a redacted free text: the carried meaning in
/// angle brackets.
pub open spec fn redaction(meaning: Seq<char>) -> Seq<char> {
    seq!['<'] + meaning + seq!['>']
}

/// The identifier that a coding scheme stands for: that of the first
/// vocabulary that the scheme names; where none does, the fallback's
/// identifier, the percent-encoded scheme and an underscore.
pub open spec fn scheme_identifier(config: &Config, scheme: Seq<char>) -> Seq<char> {
    match config.scheme_index(scheme, config.dicom@.len()) {
        Some(i) => config.dicom@[i].iri@,
        None => config.fallback.iri@ + percent_encoded(encode_utf8(scheme)) + seq!['_'],
    }
}

/// One line of the error log: the file, the tag, the representation and
/// the message.
pub open spec fn error_line(file_name: Seq<char>, element: &DataElement, message: Seq<char>) -> Seq<
    char,
> {
    file_name + ": ("@ + hex4(element.tag.0) + seq![','] + hex4(element.tag.1) + ") "@
        + element.vr.code() + ": "@ + message + seq!['\n']
}

/// The message for a value that is not of the kind that its representation
/// asks for: the decoder's own message where it left one.
pub open spec fn mismatch(value: &Value) -> Seq<char> {
    match value {
        Value::Invalid(message) => message@,
        _ => "Value does not match its representation"@,
    }
}

/// What a text value written as a typed temporal literal comes to.
pub open spec fn temporal_step(iso: Seq<char>) -> ValueStepView {
    match temporal_datatype(utf8_len(iso)) {
        Some(name) => ValueStepView::Emit(
            TripleObjectView::TypedLiteral(
                TypedLiteralView {
                    lexical: iso,
                    datatype: IriView::Prefixed { prefix: "xsd"@, local: name },
                },
            ),
        ),
        None => ValueStepView::Fail("Value has invalid length"@),
    }
}

/// What a decoded number comes to; `finite_only` says whether a number
/// that is not finite is passed over.
pub open spec fn decimal_step(d: &Decimal, finite_only: bool) -> ValueStepView {
    match d {
        Decimal::Number { text, finite } => if finite_only && !*finite {
            ValueStepView::Skip
        } else {
            ValueStepView::Emit(plain_float(text@))
        },
        Decimal::Malformed(message) => ValueStepView::Fail(message@),
    }
}

/// What a text comes to where it has to be an integer.
pub open spec fn integer_step(s: Seq<char>) -> ValueStepView {
    match integer_reading(trim(s)) {
        Ok(n) => ValueStepView::Emit(
            TripleObjectView::PlainLiteral(PlainLiteralView::Integer(n as i64)),
        ),
        Err(e) => ValueStepView::Fail(e.message_text()),
    }
}

/// Whether the attribute is written as a list of values: all but person
/// names and sequences.
pub open spec fn has_values(config: &Config, e: &DataElement) -> bool {
    is_pixel_data(e.tag) || config.forbids_tag(e.tag) || (e.vr != VR::PN && e.vr != VR::SQ)
}

/// The number of steps that the attribute's value comes to.
#[verifier::opaque]
pub open spec fn value_count(config: &Config, e: &DataElement) -> nat {
    if is_pixel_data(e.tag) || config.forbids_tag(e.tag) {
        1
    } else {
        match e.vr {
            VR::OW | VR::OB | VR::UN => 1,
            VR::AS | VR::DS | VR::FL | VR::FD => match e.value {
                Value::Decimals(v) => v@.len(),
                _ => 1,
            },
            VR::DA => match e.value {
                Value::Dates(v) => v@.len(),
                _ => 1,
            },
            VR::DT => match e.value {
                Value::DateTimes(v) => v@.len(),
                _ => 1,
            },
            VR::TM => match e.value {
                Value::Times(v) => v@.len(),
                _ => 1,
            },
            VR::AE | VR::CS | VR::LT | VR::ST | VR::UI | VR::LO | VR::SH | VR::IS | VR::UT => match e.value {
                Value::Strings(v) => v@.len(),
                _ => 1,
            },
            VR::SL | VR::SS | VR::UL | VR::US => match e.value {
                Value::Integers(v) => v@.len(),
                _ => 1,
            },
            _ => 0,
        }
    }
}

/// What the `j`-th value of the attribute comes to, with the redaction
/// carry as it stands before the attribute.
#[verifier::opaque]
pub open spec fn value_step(
    config: &Config,
    e: &DataElement,
    carry: Option<Seq<char>>,
    j: int,
) -> ValueStepView {
    if is_pixel_data(e.tag) {
        ValueStepView::Emit(plain_string("<pixel data>"@))
    } else if config.forbids_tag(e.tag) {
        ValueStepView::Emit(plain_string(tag_placeholder(e.tag)))
    } else {
        match e.vr {
            VR::OW => ValueStepView::Emit(plain_string("<OW>"@)),
            VR::OB | VR::UN => ValueStepView::Emit(plain_string("<octet stream>"@)),
            VR::AS | VR::FL => match e.value {
                Value::Decimals(v) => decimal_step(&v@[j], false),
                _ => ValueStepView::Fail(mismatch(&e.value)),
            },
            VR::DS | VR::FD => match e.value {
                Value::Decimals(v) => decimal_step(&v@[j], true),
                _ => ValueStepView::Fail(mismatch(&e.value)),
            },
            VR::DA => match e.value {
                Value::Dates(v) => temporal_step(date_iso(v@[j])),
                _ => ValueStepView::Fail(mismatch(&e.value)),
            },
            VR::DT => match e.value {
                Value::DateTimes(v) => temporal_step(datetime_iso(&v@[j])),
                _ => ValueStepView::Fail(mismatch(&e.value)),
            },
            VR::TM => match e.value {
                Value::Times(v) => ValueStepView::Emit(
                    TripleObjectView::TypedLiteral(
                        TypedLiteralView {
                            lexical: time_iso(v@[j]),
                            datatype: IriView::Prefixed { prefix: "xsd"@, local: "time"@ },
                        },
                    ),
                ),
                _ => ValueStepView::Fail(mismatch(&e.value)),
            },
            VR::AE | VR::CS | VR::LT | VR::ST | VR::UI | VR::LO => match e.value {
                Value::Strings(v) => ValueStepView::Emit(plain_string(clean(v@[j]@))),
                _ => ValueStepView::Fail(mismatch(&e.value)),
            },
            VR::SH => match e.value {
                Value::Strings(v) => if is_coding_scheme_designator(e.tag) {
                    ValueStepView::Emit(
                        TripleObjectView::IRI(
                            IriView::Full(scheme_identifier(config, clean(v@[j]@))),
                        ),
                    )
                } else {
                    ValueStepView::Emit(plain_string(clean(v@[j]@)))
                },
                _ => ValueStepView::Fail(mismatch(&e.value)),
            },
            VR::IS => match e.value {
                Value::Strings(v) => integer_step(v@[j]@),
                _ => ValueStepView::Fail(mismatch(&e.value)),
            },
            VR::UT => match e.value {
                Value::Strings(v) => if is_text_value(e.tag) && carry.is_some() {
                    ValueStepView::Emit(plain_string(redaction(carry.unwrap())))
                } else {
                    ValueStepView::Emit(plain_string(clean(v@[j]@)))
                },
                _ => ValueStepView::Fail(mismatch(&e.value)),
            },
            VR::SL | VR::SS | VR::UL | VR::US => match e.value {
                Value::Integers(v) => ValueStepView::Emit(
                    TripleObjectView::PlainLiteral(PlainLiteralView::Integer(v@[j])),
                ),
                _ => ValueStepView::Fail(mismatch(&e.value)),
            },
            _ => ValueStepView::Skip,
        }
    }
}

/// The failure among the first `n` values of the attribute, if there is
/// one: the message of the first.
pub open spec fn values_failure(
    config: &Config,
    e: &DataElement,
    carry: Option<Seq<char>>,
    n: nat,
) -> Option<Seq<char>>
    decreases n,
{
    if n == 0 {
        None
    } else {
        match values_failure(config, e, carry, (n - 1) as nat) {
            Some(message) => Some(message),
            None => match value_step(config, e, carry, n - 1) {
                ValueStepView::Fail(message) => Some(message),
                _ => None,
            },
        }
    }
}

/// The lines written for the first `n` values of the attribute: one for
/// each value that comes to a statement, up to the first failure.
pub open spec fn values_text(
    subject: IriView,
    config: &Config,
    e: &DataElement,
    carry: Option<Seq<char>>,
    n: nat,
) -> Seq<char>
    decreases n,
{
    if n == 0 {
        Seq::empty()
    } else {
        let before = values_text(subject, config, e, carry, (n - 1) as nat);
        if values_failure(config, e, carry, (n - 1) as nat).is_some() {
            before
        } else {
            match value_step(config, e, carry, n - 1) {
                ValueStepView::Emit(object) => before + line(subject, predicate_of(e.tag), object),
                _ => before,
            }
        }
    }
}

/// The first of the first `n` cleaned texts that is a forbidden meaning.
pub open spec fn first_forbidden(config: &Config, values: Seq<String>, n: nat) -> Option<Seq<char>>
    decreases n,
{
    if n == 0 {
        None
    } else {
        match first_forbidden(config, values, (n - 1) as nat) {
            Some(meaning) => Some(meaning),
            None => if config.forbids_meaning(clean(values[n - 1]@)) {
                Some(clean(values[n - 1]@))
            } else {
                None
            },
        }
    }
}

/// The redaction carry after an attribute that is written as a list of
/// values.  A carry that is set stays.  Where none is set, the meaning of a
/// coded concept sets it if it is forbidden.
pub open spec fn carry_after(config: &Config, e: &DataElement, carry: Option<Seq<char>>) -> Option<
    Seq<char>,
> {
    if carry.is_some() {
        carry
    } else if !is_pixel_data(e.tag) && !config.forbids_tag(e.tag) && e.vr == VR::LO
        && is_code_meaning(e.tag) {
        match e.value {
            Value::Strings(v) => first_forbidden(config, v@, v@.len()),
            _ => None,
        }
    } else {
        None
    }
}

/// The errors' text after a failure, or after none.
pub open spec fn with_failure(
    errors: Seq<char>,
    file_name: Seq<char>,
    e: &DataElement,
    failure: Option<Seq<char>>,
) -> Seq<char> {
    match failure {
        Some(message) => errors + error_line(file_name, e, message),
        None => errors,
    }
}

/// The state after an attribute that is written as a list of values.
#[verifier::opaque]
pub open spec fn values_outcome(
    file_name: Seq<char>,
    config: &Config,
    subject: IriView,
    e: &DataElement,
    before: Outcome,
) -> Outcome {
    let n = value_count(config, e);
    Outcome {
        sinks: Sinks {
            triples: before.sinks.triples + values_text(subject, config, e, before.carry, n),
            errors: with_failure(
                before.sinks.errors,
                file_name,
                e,
                values_failure(config, e, before.carry, n),
            ),
            issued: before.sinks.issued,
        },
        carry: carry_after(config, e, before.carry),
        max_depth: before.max_depth,
    }
}

/// The line for one component of a person's name, where it is present.
pub open spec fn name_part(node: IriView, local: Seq<char>, part: Option<String>) -> Seq<char> {
    match part {
        Some(text) => line(node, own(local), plain_string(text@)),
        None => Seq::empty(),
    }
}

/// The lines for a person's name: the link from the subject to a blank
/// node, then one line for each component that is present.
pub open spec fn person_name_text(subject: IriView, node: IriView, name: &PersonName) -> Seq<char> {
    line(subject, own("person_name"@), TripleObjectView::IRI(node)) + name_part(
        node,
        "pn_family"@,
        name.family,
    ) + name_part(node, "pn_middle"@, name.middle) + name_part(node, "pn_given"@, name.given)
        + name_part(node, "pn_prefix"@, name.prefix) + name_part(node, "pn_suffix"@, name.suffix)
}

/// The message for a blank node that cannot be had.
pub open spec fn tokens_used_up() -> Seq<char> {
    "Blank nodes are used up"@
}

/// The message for a content sequence below the greatest depth.
pub open spec fn nested_too_deeply() -> Seq<char> {
    "Content sequences are nested too deeply"@
}

/// The message for a sequence whose value holds no items.
pub open spec fn not_a_sequence() -> Seq<char> {
    "Cannot retrieve items of a non-sequence data element"@
}

/// The state after an attribute that holds a person's name.
#[verifier::opaque]
pub open spec fn person_name_outcome(
    file_name: Seq<char>,
    subject: IriView,
    e: &DataElement,
    before: Outcome,
) -> Outcome {
    match e.value {
        Value::PersonName(name) => if before.sinks.issued < u64::MAX {
            Outcome {
                sinks: Sinks {
                    triples: before.sinks.triples + person_name_text(
                        subject,
                        blank_node(before.sinks.issued),
                        &name,
                    ),
                    errors: before.sinks.errors,
                    issued: before.sinks.issued + 1,
                },
                ..before
            }
        } else {
            failed(file_name, e, before, tokens_used_up())
        },
        _ => failed(file_name, e, before, mismatch(&e.value)),
    }
}

/// The state after an attribute that failed with the given message, and
/// wrote nothing more.
pub open spec fn failed(
    file_name: Seq<char>,
    e: &DataElement,
    before: Outcome,
    message: Seq<char>,
) -> Outcome {
    Outcome {
        sinks: Sinks {
            errors: before.sinks.errors + error_line(file_name, e, message),
            ..before.sinks
        },
        ..before
    }
}

/// The state of the enclosing walk after a nested one: the sinks are those
/// that the nested walk left; a carry that is set stays, else the nested
/// one is taken; the depth is the greater of the two.
pub open spec fn merged(before: Outcome, child: Outcome) -> Outcome {
    Outcome {
        sinks: child.sinks,
        carry: if before.carry.is_some() {
            before.carry
        } else {
            child.carry
        },
        max_depth: if child.max_depth > before.max_depth {
            child.max_depth
        } else {
            before.max_depth
        },
    }
}

/// The state after a whole document: after all its attributes in order,
/// starting with no carry and the document's own depth.
pub open spec fn node_outcome(
    file_name: Seq<char>,
    config: &Config,
    subject: IriView,
    node: &DocumentNode,
    depth: u8,
    sinks: Sinks,
) -> Outcome
    decreases node, 0nat,
{
    elements_outcome(
        file_name,
        config,
        subject,
        node.elements@,
        node.elements@.len(),
        depth,
        sinks,
    )
}

/// The state after the first `n` attributes of a document.
pub open spec fn elements_outcome(
    file_name: Seq<char>,
    config: &Config,
    subject: IriView,
    elements: Seq<DataElement>,
    n: nat,
    depth: u8,
    sinks: Sinks,
) -> Outcome
    decreases elements, n,
{
    if n == 0 || n > elements.len() {
        Outcome { sinks, carry: None, max_depth: depth }
    } else {
        element_outcome(
            file_name,
            config,
            subject,
            &elements[n - 1],
            depth,
            elements_outcome(file_name, config, subject, elements, (n - 1) as nat, depth, sinks),
        )
    }
}

/// The state after one attribute.  An attribute with an empty value leaves
/// the state as it is.
pub open spec fn element_outcome(
    file_name: Seq<char>,
    config: &Config,
    subject: IriView,
    e: &DataElement,
    depth: u8,
    before: Outcome,
) -> Outcome
    decreases e, 0nat,
{
    if e.length == 0 {
        before
    } else if has_values(config, e) {
        values_outcome(file_name, config, subject, e, before)
    } else if e.vr == VR::PN {
        person_name_outcome(file_name, subject, e, before)
    } else {
        match e.value {
            Value::Items(items) => {
                let p = items_progress(
                    file_name,
                    config,
                    subject,
                    predicate_of(e.tag),
                    is_content_sequence(e.tag),
                    items@,
                    items@.len(),
                    depth,
                    before,
                );
                Outcome {
                    sinks: Sinks {
                        errors: with_failure(p.outcome.sinks.errors, file_name, e, p.failure),
                        ..p.outcome.sinks
                    },
                    ..p.outcome
                }
            },
            _ => failed(file_name, e, before, not_a_sequence()),
        }
    }
}

/// The number of blank nodes that an item takes: two in a content
/// sequence, one in any other.
pub open spec fn tokens_needed(content: bool) -> nat {
    if content {
        2
    } else {
        1
    }
}

/// The subject from which an item is walked: in a content sequence the
/// blank node of its content, in any other its own blank node.
pub open spec fn item_subject(content: bool, issued: nat) -> IriView {
    if content {
        blank_node(issued + 1)
    } else {
        blank_node(issued)
    }
}

/// The depth at which an item is walked: one level deeper in a content
/// sequence, the same depth in any other.
pub open spec fn item_depth(content: bool, depth: u8) -> u8 {
    if content {
        (depth + 1) as u8
    } else {
        depth
    }
}

/// The sinks as the walk of an item finds them: after the line that links
/// the item's blank node from the subject and, in a content sequence, the
/// lines that give the item's index and link its content.
pub open spec fn item_sinks(
    subject: IriView,
    predicate: IriView,
    content: bool,
    index: int,
    before: Sinks,
) -> Sinks {
    let node = blank_node(before.issued);
    let linked = before.triples + line(subject, predicate, TripleObjectView::IRI(node));
    if content {
        Sinks {
            triples: linked + line(
                node,
                own("index"@),
                TripleObjectView::PlainLiteral(PlainLiteralView::Integer(index as i64)),
            ) + line(node, own("item"@), TripleObjectView::IRI(blank_node(before.issued + 1))),
            errors: before.errors,
            issued: before.issued + 2,
        }
    } else {
        Sinks { triples: linked, errors: before.errors, issued: before.issued + 1 }
    }
}

/// The state after the first `m` items of a sequence; a failure ends the
/// walk through the items.
pub open spec fn items_progress(
    file_name: Seq<char>,
    config: &Config,
    subject: IriView,
    predicate: IriView,
    content: bool,
    items: Seq<DocumentNode>,
    m: nat,
    depth: u8,
    before: Outcome,
) -> Progress
    decreases items, m,
{
    if m == 0 || m > items.len() {
        Progress { outcome: before, failure: None }
    } else {
        let p = items_progress(
            file_name,
            config,
            subject,
            predicate,
            content,
            items,
            (m - 1) as nat,
            depth,
            before,
        );
        if p.failure.is_some() {
            p
        } else {
            item_progress(
                file_name,
                config,
                subject,
                predicate,
                content,
                &items[m - 1],
                m - 1,
                depth,
                p.outcome,
            )
        }
    }
}

/// The state after one item of a sequence.  The item gets a blank node,
/// linked from the subject by the sequence's predicate.  An item of a
/// content sequence also gets its index and a second blank node for its
/// content, which is walked one level deeper; any other item is walked
/// from its blank node at the same depth.
pub open spec fn item_progress(
    file_name: Seq<char>,
    config: &Config,
    subject: IriView,
    predicate: IriView,
    content: bool,
    item: &DocumentNode,
    index: int,
    depth: u8,
    before: Outcome,
) -> Progress
    decreases item, 1nat,
{
    let issued = before.sinks.issued;
    if content && depth == u8::MAX {
        Progress { outcome: before, failure: Some(nested_too_deeply()) }
    } else if issued + tokens_needed(content) > u64::MAX {
        Progress { outcome: before, failure: Some(tokens_used_up()) }
    } else {
        let child = node_outcome(
            file_name,
            config,
            item_subject(content, issued),
            item,
            item_depth(content, depth),
            item_sinks(subject, predicate, content, index, before.sinks),
        );
        Progress { outcome: merged(before, child), failure: None }
    }
}

/// The text that an optional string holds.
pub open spec fn carried(carry: &Option<String>) -> Option<Seq<char>> {
    match carry {
        Some(text) => Some(text@),
        None => None,
    }
}

/// Appends the line of one statement to the sink.
fn write_line(sink: &mut String, subject: &IRI, predicate: &IRI, object: &TripleObject)
    ensures
        final(sink)@ == old(sink)@ + line(subject@, predicate@, object@),
{
    let text = triple(subject, predicate, object).to_string();
    sink.append(text.as_str());
    push_char(sink, '\n');
    assert(final(sink)@ =~= old(sink)@ + line(subject@, predicate@, object@));
}

/// Appends one line to the error log.
fn write_error(sink: &mut String, file_name: &str, element: &DataElement, message: &str)
    ensures
        final(sink)@ == old(sink)@ + error_line(file_name@, element, message@),
{
    sink.append(file_name);
    sink.append(": (");
    push_hex4(sink, element.tag.0);
    push_char(sink, ',');
    push_hex4(sink, element.tag.1);
    sink.append(") ");
    let code = element.vr.to_string();
    sink.append(code.as_str());
    sink.append(": ");
    sink.append(message);
    push_char(sink, '\n');
    assert(final(sink)@ =~= old(sink)@ + error_line(file_name@, element, message@));
}

/// An identifier of the emitter's own vocabulary.
fn own_iri(local: &str) -> (r: IRI)
    ensures
        r@ == own(local@),
{
    IRI::prefix("dicom2rdf", local)
}

/// The predicate that stands for an attribute.
fn make_predicate(tag: Tag) -> (r: IRI)
    ensures
        r@ == predicate_of(tag),
{
    let mut local = String::new();
    push_hex4(&mut local, tag.0);
    push_hex4(&mut local, tag.1);
    assert(local@ =~= hex4(tag.0) + hex4(tag.1));
    own_iri(local.as_str())
}

/// The object that is a plain string.
fn string_object(s: String) -> (r: TripleObject)
    ensures
        r@ == plain_string(s@),
{
    TripleObject::from(PlainLiteral::String(s))
}

/// The message for a value of the wrong kind.
fn mismatch_message(value: &Value) -> (r: String)
    ensures
        r@ == mismatch(value),
{
    match value {
        Value::Invalid(message) => message.clone(),
        _ => "Value does not match its representation".to_owned(),
    }
}

fn temporal_step_for(iso: String) -> (r: ValueStep)
    ensures
        r@ == temporal_step(iso@),
{
    match typed_temporal_literal(&iso) {
        Some(literal) => ValueStep::Emit(TripleObject::from(literal)),
        None => ValueStep::Fail("Value has invalid length".to_owned()),
    }
}

fn decimal_step_for(d: &Decimal, finite_only: bool) -> (r: ValueStep)
    ensures
        r@ == decimal_step(d, finite_only),
{
    match d {
        Decimal::Number { text, finite } => {
            if finite_only && !*finite {
                ValueStep::Skip
            } else {
                ValueStep::Emit(TripleObject::from(PlainLiteral::Float(text.clone())))
            }
        },
        Decimal::Malformed(message) => ValueStep::Fail(message.clone()),
    }
}

fn integer_step_for(s: &str) -> (r: ValueStep)
    ensures
        r@ == integer_step(s@),
{
    let t = trimmed(s);
    match parse_integer(t.as_str()) {
        Ok(n) => ValueStep::Emit(TripleObject::from(PlainLiteral::Integer(n))),
        Err(e) => ValueStep::Fail(e.message()),
    }
}

/// The identifier that a coding scheme stands for.
fn scheme_identifier_for(config: &Config, scheme: &str) -> (r: String)
    ensures
        r@ == scheme_identifier(config, scheme@),
{
    match config.find_scheme(scheme) {
        Some(i) => config.dicom[i].iri.clone(),
        None => {
            let mut r = config.fallback.iri.clone();
            let encoded = url_encode(scheme);
            r.append(encoded.as_str());
            push_char(&mut r, '_');
            r
        },
    }
}

fn is_pixel_data_tag(tag: Tag) -> (r: bool)
    ensures
        r == is_pixel_data(tag),
{
    tag.0 == 0x7FE0 && tag.1 == 0x0010
}

/// Whether the attribute is written as a list of values.
fn has_values_for(config: &Config, e: &DataElement) -> (r: bool)
    ensures
        r == has_values(config, e),
{
    is_pixel_data_tag(e.tag) || config.is_forbidden_tag(e.tag) || (match e.vr {
        VR::PN => false,
        VR::SQ => false,
        _ => true,
    })
}

/// The number of steps that the attribute's value comes to.
fn count_values(config: &Config, e: &DataElement) -> (r: usize)
    ensures
        r == value_count(config, e),
{
    reveal(value_count);
    if is_pixel_data_tag(e.tag) || config.is_forbidden_tag(e.tag) {
        return 1;
    }
    match e.vr {
        VR::OW | VR::OB | VR::UN => 1,
        VR::AS | VR::DS | VR::FL | VR::FD => match &e.value {
            Value::Decimals(v) => v.len(),
            _ => 1,
        },
        VR::DA => match &e.value {
            Value::Dates(v) => v.len(),
            _ => 1,
        },
        VR::DT => match &e.value {
            Value::DateTimes(v) => v.len(),
            _ => 1,
        },
        VR::TM => match &e.value {
            Value::Times(v) => v.len(),
            _ => 1,
        },
        VR::AE | VR::CS | VR::LT | VR::ST | VR::UI | VR::LO | VR::SH | VR::IS | VR::UT => match &e.value {
            Value::Strings(v) => v.len(),
            _ => 1,
        },
        VR::SL | VR::SS | VR::UL | VR::US => match &e.value {
            Value::Integers(v) => v.len(),
            _ => 1,
        },
        _ => 0,
    }
}

/// What the `j`-th value of the attribute comes to.
fn step_for(config: &Config, e: &DataElement, carry: &Option<String>, j: usize) -> (r: ValueStep)
    requires
        j < value_count(config, e),
    ensures
        r@ == value_step(config, e, carried(carry), j as int),
{
    reveal(value_step);
    reveal(value_count);
    if is_pixel_data_tag(e.tag) {
        return ValueStep::Emit(string_object("<pixel data>".to_owned()));
    }
    if config.is_forbidden_tag(e.tag) {
        let mut text = "<(".to_owned();
        push_hex4(&mut text, e.tag.0);
        push_char(&mut text, ',');
        push_hex4(&mut text, e.tag.1);
        text.append(")>");
        assert(text@ =~= tag_placeholder(e.tag));
        return ValueStep::Emit(string_object(text));
    }
    match e.vr {
        VR::OW => ValueStep::Emit(string_object("<OW>".to_owned())),
        VR::OB | VR::UN => ValueStep::Emit(string_object("<octet stream>".to_owned())),
        VR::AS | VR::FL => match &e.value {
            Value::Decimals(v) => decimal_step_for(&v[j], false),
            _ => ValueStep::Fail(mismatch_message(&e.value)),
        },
        VR::DS | VR::FD => match &e.value {
            Value::Decimals(v) => decimal_step_for(&v[j], true),
            _ => ValueStep::Fail(mismatch_message(&e.value)),
        },
        VR::DA => match &e.value {
            Value::Dates(v) => temporal_step_for(date_to_iso(&v[j])),
            _ => ValueStep::Fail(mismatch_message(&e.value)),
        },
        VR::DT => match &e.value {
            Value::DateTimes(v) => temporal_step_for(datetime_to_iso(&v[j])),
            _ => ValueStep::Fail(mismatch_message(&e.value)),
        },
        VR::TM => match &e.value {
            Value::Times(v) => {
                let iso = time_to_iso(&v[j]);
                ValueStep::Emit(
                    TripleObject::from(
                        TypedLiteral::new(iso.as_str(), IRI::prefix("xsd", "time")),
                    ),
                )
            },
            _ => ValueStep::Fail(mismatch_message(&e.value)),
        },
        VR::AE | VR::CS | VR::LT | VR::ST | VR::UI | VR::LO => match &e.value {
            Value::Strings(v) => ValueStep::Emit(string_object(cleaned(v[j].as_str()))),
            _ => ValueStep::Fail(mismatch_message(&e.value)),
        },
        VR::SH => match &e.value {
            Value::Strings(v) => {
                let text = cleaned(v[j].as_str());
                if e.tag.0 == 0x0008 && e.tag.1 == 0x0102 {
                    let identifier = scheme_identifier_for(config, text.as_str());
                    ValueStep::Emit(TripleObject::from(IRI::full(identifier.as_str())))
                } else {
                    ValueStep::Emit(string_object(text))
                }
            },
            _ => ValueStep::Fail(mismatch_message(&e.value)),
        },
        VR::IS => match &e.value {
            Value::Strings(v) => integer_step_for(v[j].as_str()),
            _ => ValueStep::Fail(mismatch_message(&e.value)),
        },
        VR::UT => match &e.value {
            Value::Strings(v) => {
                if e.tag.0 == 0x0040 && e.tag.1 == 0xA160 && carry.is_some() {
                    let mut text = "<".to_owned();
                    proof {
                        reveal_strlit("<");
                    }
                    match carry {
                        Some(meaning) => {
                            text.append(meaning.as_str());
                        },
                        None => {},
                    }
                    push_char(&mut text, '>');
                    assert(text@ =~= redaction(carried(carry).unwrap()));
                    ValueStep::Emit(string_object(text))
                } else {
                    ValueStep::Emit(string_object(cleaned(v[j].as_str())))
                }
            },
            _ => ValueStep::Fail(mismatch_message(&e.value)),
        },
        VR::SL | VR::SS | VR::UL | VR::US => match &e.value {
            Value::Integers(v) => ValueStep::Emit(
                TripleObject::from(PlainLiteral::Integer(v[j])),
            ),
            _ => ValueStep::Fail(mismatch_message(&e.value)),
        },
        _ => ValueStep::Skip,
    }
}

/// After a failure among the first `n` values, the later values change
/// neither the failure nor the lines written.
proof fn values_stay_failed(
    subject: IriView,
    config: &Config,
    e: &DataElement,
    carry: Option<Seq<char>>,
    n: nat,
    m: nat,
)
    requires
        n <= m,
        values_failure(config, e, carry, n).is_some(),
    ensures
        values_failure(config, e, carry, m) == values_failure(config, e, carry, n),
        values_text(subject, config, e, carry, m) == values_text(subject, config, e, carry, n),
    decreases m,
{
    if n < m {
        values_stay_failed(subject, config, e, carry, n, (m - 1) as nat);
    }
}

/// Writes an attribute that is a list of values: one line for each value
/// that comes to a statement, and one line of the error log for the first
/// failure, which ends the attribute.
fn emit_values(
    triple_writer: &mut String,
    error_writer: &mut String,
    subject: &IRI,
    e: &DataElement,
    file_name: &str,
    config: &Config,
    carry: &Option<String>,
)
    ensures
        final(triple_writer)@ == old(triple_writer)@ + values_text(
            subject@,
            config,
            e,
            carried(carry),
            value_count(config, e),
        ),
        final(error_writer)@ == with_failure(
            old(error_writer)@,
            file_name@,
            e,
            values_failure(config, e, carried(carry), value_count(config, e)),
        ),
{
    let predicate = make_predicate(e.tag);
    let n = count_values(config, e);
    let mut j: usize = 0;
    assert(triple_writer@ =~= old(triple_writer)@ + values_text(
        subject@,
        config,
        e,
        carried(carry),
        0,
    ));
    while j < n
        invariant
            j <= n,
            n == value_count(config, e),
            predicate@ == predicate_of(e.tag),
            values_failure(config, e, carried(carry), j as nat).is_none(),
            triple_writer@ == old(triple_writer)@ + values_text(
                subject@,
                config,
                e,
                carried(carry),
                j as nat,
            ),
            error_writer@ == old(error_writer)@,
        decreases n - j,
    {
        let step = step_for(config, e, carry, j);
        match step {
            ValueStep::Emit(object) => {
                write_line(triple_writer, subject, &predicate, &object);
            },
            ValueStep::Skip => {},
            ValueStep::Fail(message) => {
                write_error(error_writer, file_name, e, message.as_str());
                proof {
                    values_stay_failed(subject@, config, e, carried(carry), (j + 1) as nat, n as nat);
                }
                return ;
            },
        }
        j += 1;
        assert(triple_writer@ =~= old(triple_writer)@ + values_text(
            subject@,
            config,
            e,
            carried(carry),
            j as nat,
        ));
    }
}

/// The first cleaned text among `values` that is a forbidden meaning.
fn find_forbidden(config: &Config, values: &Vec<String>) -> (r: Option<String>)
    ensures
        carried(&r) == first_forbidden(config, values@, values@.len()),
{
    let mut j: usize = 0;
    while j < values.len()
        invariant
            j <= values.len(),
            first_forbidden(config, values@, j as nat).is_none(),
        decreases values.len() - j,
    {
        let text = cleaned(values[j].as_str());
        if config.is_forbidden_meaning(text.as_str()) {
            proof {
                first_forbidden_stays(config, values@, (j + 1) as nat, values@.len());
            }
            return Some(text);
        }
        j += 1;
    }
    None
}

/// Once a forbidden meaning is found, looking further finds the same one.
proof fn first_forbidden_stays(config: &Config, values: Seq<String>, n: nat, m: nat)
    requires
        n <= m,
        first_forbidden(config, values, n).is_some(),
    ensures
        first_forbidden(config, values, m) == first_forbidden(config, values, n),
    decreases m,
{
    if n < m {
        first_forbidden_stays(config, values, n, (m - 1) as nat);
    }
}

/// The redaction carry after an attribute that is written as a list of
/// values.
fn carry_after_for(config: &Config, e: &DataElement, carry: Option<String>) -> (r: Option<String>)
    ensures
        carried(&r) == carry_after(config, e, carried(&carry)),
{
    if carry.is_some() {
        return carry;
    }
    if is_pixel_data_tag(e.tag) || config.is_forbidden_tag(e.tag) {
        return None;
    }
    if !(e.tag.0 == 0x0008 && e.tag.1 == 0x0104) {
        return None;
    }
    match e.vr {
        VR::LO => match &e.value {
            Value::Strings(v) => find_forbidden(config, v),
            _ => None,
        },
        _ => None,
    }
}

/// Appends the line for one component of a person's name, where it is
/// present.
fn write_name_part(sink: &mut String, node: &IRI, local: &str, part: &Option<String>)
    ensures
        final(sink)@ == old(sink)@ + name_part(node@, local@, *part),
{
    match part {
        Some(text) => {
            let predicate = own_iri(local);
            let object = string_object(text.clone());
            write_line(sink, node, &predicate, &object);
        },
        None => {
            assert(sink@ =~= old(sink)@ + name_part(node@, local@, *part));
        },
    }
}

/// Writes an attribute that holds a person's name.
fn emit_person_name(
    triple_writer: &mut String,
    error_writer: &mut String,
    allocator: &mut BlankNodeAllocator,
    subject: &IRI,
    e: &DataElement,
    file_name: &str,
    Ghost(before): Ghost<Outcome>,
)
    requires
        before.sinks.triples == old(triple_writer)@,
        before.sinks.errors == old(error_writer)@,
        before.sinks.issued == old(allocator).issued(),
    ensures
        final(triple_writer)@ == person_name_outcome(file_name@, subject@, e, before).sinks.triples,
        final(error_writer)@ == person_name_outcome(file_name@, subject@, e, before).sinks.errors,
        final(allocator).issued() == person_name_outcome(
            file_name@,
            subject@,
            e,
            before,
        ).sinks.issued,
{
    reveal(person_name_outcome);
    match &e.value {
        Value::PersonName(name) => {
            match create_blank_node(allocator) {
                Some(node) => {
                    let link = own_iri("person_name");
                    let object = TripleObject::from(node.clone());
                    write_line(triple_writer, subject, &link, &object);
                    write_name_part(triple_writer, &node, "pn_family", &name.family);
                    write_name_part(triple_writer, &node, "pn_middle", &name.middle);
                    write_name_part(triple_writer, &node, "pn_given", &name.given);
                    write_name_part(triple_writer, &node, "pn_prefix", &name.prefix);
                    write_name_part(triple_writer, &node, "pn_suffix", &name.suffix);
                    assert(triple_writer@ =~= old(triple_writer)@ + person_name_text(
                        subject@,
                        blank_node(before.sinks.issued),
                        name,
                    ));
                },
                None => {
                    write_error(error_writer, file_name, e, "Blank nodes are used up");
                },
            }
        },
        _ => {
            let message = mismatch_message(&e.value);
            write_error(error_writer, file_name, e, message.as_str());
        },
    }
}

/// The sinks as the three writers hold them.
pub open spec fn sinks_of(
    triple_writer: &String,
    error_writer: &String,
    allocator: &BlankNodeAllocator,
) -> Sinks {
    Sinks { triples: triple_writer@, errors: error_writer@, issued: allocator.issued() }
}

/// Walks a document: writes the statements of its attributes to
/// `triple_writer`, one line each, and one line to `error_writer` for each
/// attribute that fails.  Returns the redaction carry of the document and
/// the greatest depth seen in it.
pub fn write_triples(
    triple_writer: &mut String,
    error_writer: &mut String,
    allocator: &mut BlankNodeAllocator,
    subject: &IRI,
    dicom_object: &DocumentNode,
    file_name: &str,
    config: &Config,
    depth: u8,
) -> (r: (Option<String>, u8))
    ensures
        sinks_of(final(triple_writer), final(error_writer), final(allocator)) == node_outcome(
            file_name@,
            config,
            subject@,
            dicom_object,
            depth,
            sinks_of(old(triple_writer), old(error_writer), old(allocator)),
        ).sinks,
        carried(&r.0) == node_outcome(
            file_name@,
            config,
            subject@,
            dicom_object,
            depth,
            sinks_of(old(triple_writer), old(error_writer), old(allocator)),
        ).carry,
        r.1 == node_outcome(
            file_name@,
            config,
            subject@,
            dicom_object,
            depth,
            sinks_of(old(triple_writer), old(error_writer), old(allocator)),
        ).max_depth,
    decreases dicom_object, 0nat,
{
    let ghost start = sinks_of(triple_writer, error_writer, allocator);
    let mut max_depth_seen = depth;
    let mut carry: Option<String> = None;
    let mut i: usize = 0;
    while i < dicom_object.elements.len()
        invariant
            i <= dicom_object.elements.len(),
            start == sinks_of(old(triple_writer), old(error_writer), old(allocator)),
            elements_outcome(
                file_name@,
                config,
                subject@,
                dicom_object.elements@,
                i as nat,
                depth,
                start,
            ) == (Outcome {
                sinks: sinks_of(triple_writer, error_writer, allocator),
                carry: carried(&carry),
                max_depth: max_depth_seen,
            }),
        decreases dicom_object.elements.len() - i,
    {
        let (next_carry, next_depth) = emit_element(
            triple_writer,
            error_writer,
            allocator,
            subject,
            &dicom_object.elements[i],
            file_name,
            config,
            depth,
            carry,
            max_depth_seen,
        );
        carry = next_carry;
        max_depth_seen = next_depth;
        i += 1;
    }
    (carry, max_depth_seen)
}

/// Writes one attribute, and returns the carry and the depth after it.
fn emit_element(
    triple_writer: &mut String,
    error_writer: &mut String,
    allocator: &mut BlankNodeAllocator,
    subject: &IRI,
    e: &DataElement,
    file_name: &str,
    config: &Config,
    depth: u8,
    carry: Option<String>,
    max_depth: u8,
) -> (r: (Option<String>, u8))
    ensures
        element_outcome(
            file_name@,
            config,
            subject@,
            e,
            depth,
            Outcome {
                sinks: sinks_of(old(triple_writer), old(error_writer), old(allocator)),
                carry: carried(&carry),
                max_depth,
            },
        ) == (Outcome {
            sinks: sinks_of(final(triple_writer), final(error_writer), final(allocator)),
            carry: carried(&r.0),
            max_depth: r.1,
        }),
    decreases e, 0nat,
{
    reveal(values_outcome);
    reveal(person_name_outcome);
    let ghost before = Outcome {
        sinks: sinks_of(triple_writer, error_writer, allocator),
        carry: carried(&carry),
        max_depth,
    };
    if e.length == 0 {
        return (carry, max_depth);
    }
    if has_values_for(config, e) {
        emit_values(triple_writer, error_writer, subject, e, file_name, config, &carry);
        let next = carry_after_for(config, e, carry);
        return (next, max_depth);
    }
    match e.vr {
        VR::PN => {
            emit_person_name(
                triple_writer,
                error_writer,
                allocator,
                subject,
                e,
                file_name,
                Ghost(before),
            );
            (carry, max_depth)
        },
        _ => {
            match &e.value {
                Value::Items(items) => {
                    let predicate = make_predicate(e.tag);
                    let content = e.tag.0 == 0x0040 && e.tag.1 == 0xA730;
                    let (next_carry, next_depth, failure) = emit_items(
                        triple_writer,
                        error_writer,
                        allocator,
                        subject,
                        &predicate,
                        content,
                        items,
                        file_name,
                        config,
                        depth,
                        carry,
                        max_depth,
                    );
                    match failure {
                        Some(message) => {
                            write_error(error_writer, file_name, e, message.as_str());
                        },
                        None => {},
                    }
                    (next_carry, next_depth)
                },
                _ => {
                    write_error(
                        error_writer,
                        file_name,
                        e,
                        "Cannot retrieve items of a non-sequence data element",
                    );
                    (carry, max_depth)
                },
            }
        },
    }
}

/// After a failure among the first `n` items, the later items change
/// nothing.
proof fn items_stay_failed(
    file_name: Seq<char>,
    config: &Config,
    subject: IriView,
    predicate: IriView,
    content: bool,
    items: Seq<DocumentNode>,
    n: nat,
    m: nat,
    depth: u8,
    before: Outcome,
)
    requires
        n <= m <= items.len(),
        items_progress(
            file_name,
            config,
            subject,
            predicate,
            content,
            items,
            n,
            depth,
            before,
        ).failure.is_some(),
    ensures
        items_progress(file_name, config, subject, predicate, content, items, m, depth, before)
            == items_progress(file_name, config, subject, predicate, content, items, n, depth, before),
    decreases m,
{
    if n < m {
        items_stay_failed(
            file_name,
            config,
            subject,
            predicate,
            content,
            items,
            n,
            (m - 1) as nat,
            depth,
            before,
        );
    }
}

/// Writes the items of a sequence, and returns the carry and the depth
/// after them, and the message of the failure that ended the walk, if one
/// did.
#[verifier::rlimit(50)]
fn emit_items(
    triple_writer: &mut String,
    error_writer: &mut String,
    allocator: &mut BlankNodeAllocator,
    subject: &IRI,
    predicate: &IRI,
    content: bool,
    items: &Vec<DocumentNode>,
    file_name: &str,
    config: &Config,
    depth: u8,
    carry: Option<String>,
    max_depth: u8,
) -> (r: (Option<String>, u8, Option<String>))
    ensures
        items_progress(
            file_name@,
            config,
            subject@,
            predicate@,
            content,
            items@,
            items@.len(),
            depth,
            Outcome {
                sinks: sinks_of(old(triple_writer), old(error_writer), old(allocator)),
                carry: carried(&carry),
                max_depth,
            },
        ) == (Progress {
            outcome: Outcome {
                sinks: sinks_of(final(triple_writer), final(error_writer), final(allocator)),
                carry: carried(&r.0),
                max_depth: r.1,
            },
            failure: carried(&r.2),
        }),
    decreases items, 0nat,
{
    let ghost before = Outcome {
        sinks: sinks_of(triple_writer, error_writer, allocator),
        carry: carried(&carry),
        max_depth,
    };
    let mut carry = carry;
    let mut max_depth = max_depth;
    let mut failure: Option<String> = None;
    let mut m: usize = 0;
    while m < items.len() && failure.is_none()
        invariant
            m <= items.len(),
            items_progress(
                file_name@,
                config,
                subject@,
                predicate@,
                content,
                items@,
                m as nat,
                depth,
                before,
            ) == (Progress {
                outcome: Outcome {
                    sinks: sinks_of(triple_writer, error_writer, allocator),
                    carry: carried(&carry),
                    max_depth,
                },
                failure: carried(&failure),
            }),
        decreases items.len() - m,
    {
        let (next_carry, next_depth, next_failure) = emit_item(
            triple_writer,
            error_writer,
            allocator,
            subject,
            predicate,
            content,
            &items[m],
            m,
            file_name,
            config,
            depth,
            carry,
            max_depth,
        );
        carry = next_carry;
        max_depth = next_depth;
        failure = next_failure;
        m += 1;
    }
    proof {
        if failure.is_some() {
            items_stay_failed(
                file_name@,
                config,
                subject@,
                predicate@,
                content,
                items@,
                m as nat,
                items@.len(),
                depth,
                before,
            );
        }
    }
    (carry, max_depth, failure)
}

/// Writes one item of a sequence, and returns the carry and the depth
/// after it, and the message of the failure, if it failed.
fn emit_item(
    triple_writer: &mut String,
    error_writer: &mut String,
    allocator: &mut BlankNodeAllocator,
    subject: &IRI,
    predicate: &IRI,
    content: bool,
    item: &DocumentNode,
    index: usize,
    file_name: &str,
    config: &Config,
    depth: u8,
    carry: Option<String>,
    max_depth: u8,
) -> (r: (Option<String>, u8, Option<String>))
    ensures
        item_progress(
            file_name@,
            config,
            subject@,
            predicate@,
            content,
            item,
            index as int,
            depth,
            Outcome {
                sinks: sinks_of(old(triple_writer), old(error_writer), old(allocator)),
                carry: carried(&carry),
                max_depth,
            },
        ) == (Progress {
            outcome: Outcome {
                sinks: sinks_of(final(triple_writer), final(error_writer), final(allocator)),
                carry: carried(&r.0),
                max_depth: r.1,
            },
            failure: carried(&r.2),
        }),
    decreases item, 1nat,
{
    if content && depth == u8::MAX {
        return (carry, max_depth, Some("Content sequences are nested too deeply".to_owned()));
    }
    let needed: u64 = if content {
        2
    } else {
        1
    };
    if allocator.remaining() < needed {
        return (carry, max_depth, Some("Blank nodes are used up".to_owned()));
    }
    let node = create_blank_node(allocator).unwrap();
    write_line(triple_writer, subject, predicate, &TripleObject::from(node.clone()));
    let (child_carry, child_depth) = if content {
        let inner = create_blank_node(allocator).unwrap();
        write_line(
            triple_writer,
            &node,
            &own_iri("index"),
            &TripleObject::from(PlainLiteral::Integer(#[verifier::truncate] (index as i64))),
        );
        write_line(triple_writer, &node, &own_iri("item"), &TripleObject::from(inner.clone()));
        write_triples(
            triple_writer,
            error_writer,
            allocator,
            &inner,
            item,
            file_name,
            config,
            depth + 1,
        )
    } else {
        write_triples(triple_writer, error_writer, allocator, &node, item, file_name, config, depth)
    };
    let next_carry = if carry.is_none() {
        child_carry
    } else {
        carry
    };
    let next_depth = if child_depth > max_depth {
        child_depth
    } else {
        max_depth
    };
    (next_carry, next_depth, None)
}

/// An attribute whose value is empty writes nothing and changes nothing.
pub proof fn empty_value_writes_nothing(
    file_name: Seq<char>,
    config: &Config,
    subject: IriView,
    e: &DataElement,
    depth: u8,
    before: Outcome,
)
    requires
        e.length == 0,
    ensures
        element_outcome(file_name, config, subject, e, depth, before) == before,
{
}

/// Through the items of a sequence a carry that is set stays, and the
/// greatest depth does not fall.
proof fn items_keep(
    file_name: Seq<char>,
    config: &Config,
    subject: IriView,
    predicate: IriView,
    content: bool,
    items: Seq<DocumentNode>,
    m: nat,
    depth: u8,
    before: Outcome,
)
    ensures
        before.carry.is_some() ==> items_progress(
            file_name,
            config,
            subject,
            predicate,
            content,
            items,
            m,
            depth,
            before,
        ).outcome.carry == before.carry,
        items_progress(
            file_name,
            config,
            subject,
            predicate,
            content,
            items,
            m,
            depth,
            before,
        ).outcome.max_depth >= before.max_depth,
    decreases m,
{
    reveal_with_fuel(items_progress, 2);
    reveal_with_fuel(item_progress, 2);
    if m > 0 && m <= items.len() {
        items_keep(
            file_name,
            config,
            subject,
            predicate,
            content,
            items,
            (m - 1) as nat,
            depth,
            before,
        );
    }
}

/// A redaction carry that is set is never overwritten: whatever the next
/// attribute holds, the carry after it is the carry before it.
pub proof fn carry_stays(
    file_name: Seq<char>,
    config: &Config,
    subject: IriView,
    e: &DataElement,
    depth: u8,
    before: Outcome,
)
    requires
        before.carry.is_some(),
    ensures
        element_outcome(file_name, config, subject, e, depth, before).carry == before.carry,
{
    reveal(values_outcome);
    reveal(person_name_outcome);
    match e.value {
        Value::Items(items) => {
            items_keep(
                file_name,
                config,
                subject,
                predicate_of(e.tag),
                is_content_sequence(e.tag),
                items@,
                items@.len(),
                depth,
                before,
            );
        },
        _ => {},
    }
}

/// The greatest depth seen never falls from one attribute to the next.
pub proof fn depth_never_falls(
    file_name: Seq<char>,
    config: &Config,
    subject: IriView,
    e: &DataElement,
    depth: u8,
    before: Outcome,
)
    ensures
        element_outcome(file_name, config, subject, e, depth, before).max_depth
            >= before.max_depth,
{
    reveal(values_outcome);
    reveal(person_name_outcome);
    match e.value {
        Value::Items(items) => {
            items_keep(
                file_name,
                config,
                subject,
                predicate_of(e.tag),
                is_content_sequence(e.tag),
                items@,
                items@.len(),
                depth,
                before,
            );
        },
        _ => {},
    }
}

/// The greatest depth seen in the first `n` attributes of a document is at
/// least the document's own depth.
proof fn elements_reach_depth(
    file_name: Seq<char>,
    config: &Config,
    subject: IriView,
    elements: Seq<DataElement>,
    n: nat,
    depth: u8,
    sinks: Sinks,
)
    ensures
        elements_outcome(file_name, config, subject, elements, n, depth, sinks).max_depth >= depth,
    decreases n,
{
    if n > 0 && n <= elements.len() {
        elements_reach_depth(file_name, config, subject, elements, (n - 1) as nat, depth, sinks);
        depth_never_falls(
            file_name,
            config,
            subject,
            &elements[n - 1],
            depth,
            elements_outcome(file_name, config, subject, elements, (n - 1) as nat, depth, sinks),
        );
    }
}

/// The greatest depth seen in a document is at least the document's own
/// depth.
pub proof fn depth_is_reached(
    file_name: Seq<char>,
    config: &Config,
    subject: IriView,
    node: &DocumentNode,
    depth: u8,
    sinks: Sinks,
)
    ensures
        node_outcome(file_name, config, subject, node, depth, sinks).max_depth >= depth,
{
    elements_reach_depth(
        file_name,
        config,
        subject,
        node.elements@,
        node.elements@.len(),
        depth,
        sinks,
    );
}

/// Whether none of the first `n` attributes is a sequence that is walked.
pub open spec fn without_sequences(config: &Config, elements: Seq<DataElement>, n: nat) -> bool {
    forall|i: int| 0 <= i < n && i < elements.len() ==> elements[i].length == 0 || has_values(config, &#[trigger] elements[i]) || elements[i].vr != VR::SQ
}

/// Without sequences the greatest depth seen in the first `n` attributes
/// is the document's own depth.
proof fn elements_stay_at_depth(
    file_name: Seq<char>,
    config: &Config,
    subject: IriView,
    elements: Seq<DataElement>,
    n: nat,
    depth: u8,
    sinks: Sinks,
)
    requires
        without_sequences(config, elements, n),
    ensures
        elements_outcome(file_name, config, subject, elements, n, depth, sinks).max_depth == depth,
    decreases n,
{
    reveal(values_outcome);
    reveal(person_name_outcome);
    reveal_with_fuel(elements_outcome, 2);
    reveal_with_fuel(element_outcome, 2);
    if n > 0 && n <= elements.len() {
        elements_stay_at_depth(file_name, config, subject, elements, (n - 1) as nat, depth, sinks);
        assert(has_values(config, &elements[n - 1]) || elements[n - 1].length == 0 || elements[n
            - 1].vr != VR::SQ);
    }
}

/// A document without sequences has its own depth as the greatest depth:
/// walked from depth 0 it yields 0.
pub proof fn depth_without_sequences(
    file_name: Seq<char>,
    config: &Config,
    subject: IriView,
    node: &DocumentNode,
    depth: u8,
    sinks: Sinks,
)
    requires
        without_sequences(config, node.elements@, node.elements@.len()),
    ensures
        node_outcome(file_name, config, subject, node, depth, sinks).max_depth == depth,
{
    elements_stay_at_depth(
        file_name,
        config,
        subject,
        node.elements@,
        node.elements@.len(),
        depth,
        sinks,
    );
}

/// The free text of a text-value attribute is replaced once a carry is
/// set: each of its values is written as the carried meaning in angle
/// brackets.
pub proof fn text_value_is_redacted(
    config: &Config,
    e: &DataElement,
    values: Vec<String>,
    meaning: Seq<char>,
    j: int,
)
    requires
        e.vr == VR::UT,
        is_text_value(e.tag),
        !config.forbids_tag(e.tag),
        e.value == Value::Strings(values),
    ensures
        value_step(config, e, Some(meaning), j) == ValueStepView::Emit(
            plain_string(redaction(meaning)),
        ),
{
    reveal(value_step);
}

/// A forbidden meaning of a coded concept sets the carry where none is
/// set: the carry after the attribute is the first of its cleaned values
/// that is forbidden.
pub proof fn forbidden_meaning_is_carried(
    file_name: Seq<char>,
    config: &Config,
    subject: IriView,
    e: &DataElement,
    values: Vec<String>,
    depth: u8,
    before: Outcome,
)
    requires
        e.vr == VR::LO,
        e.length > 0,
        is_code_meaning(e.tag),
        !config.forbids_tag(e.tag),
        e.value == Value::Strings(values),
        before.carry.is_none(),
    ensures
        element_outcome(file_name, config, subject, e, depth, before).carry == first_forbidden(
            config,
            values@,
            values@.len(),
        ),
{
    reveal(values_outcome);
}

/// A decimal-string or 64-bit float value that is not finite is passed
/// over: it comes to no statement and to no failure.
pub proof fn non_finite_is_passed_over(
    config: &Config,
    e: &DataElement,
    values: Vec<Decimal>,
    carry: Option<Seq<char>>,
    j: int,
)
    requires
        e.vr == VR::DS || e.vr == VR::FD,
        !is_pixel_data(e.tag),
        !config.forbids_tag(e.tag),
        e.value == Value::Decimals(values),
        0 <= j < values@.len(),
        values@[j] matches Decimal::Number { finite, .. } && !finite,
    ensures
        value_step(config, e, carry, j) == ValueStepView::Skip,
{
    reveal(value_step);
}

/// Whether the sinks `after` go on from the sinks `before`: both texts
/// start with what was written before, and no token is handed out again.
pub open spec fn goes_on(before: Sinks, after: Sinks) -> bool {
    &&& before.triples.is_prefix_of(after.triples)
    &&& before.errors.is_prefix_of(after.errors)
    &&& before.issued <= after.issued
}

/// Going on is transitive.
proof fn goes_on_twice(a: Sinks, b: Sinks, c: Sinks)
    requires
        goes_on(a, b),
        goes_on(b, c),
    ensures
        goes_on(a, c),
{
}

/// A text is the start of itself with more text behind it.
proof fn starts(a: Seq<char>, b: Seq<char>)
    ensures
        a.is_prefix_of(a + b),
{
}

/// A walk only adds to the sinks: what was written before a document stays
/// as it was, and the blank-node tokens handed out in the document are not
/// among those handed out before.
pub proof fn walk_goes_on(
    file_name: Seq<char>,
    config: &Config,
    subject: IriView,
    node: &DocumentNode,
    depth: u8,
    sinks: Sinks,
)
    ensures
        goes_on(sinks, node_outcome(file_name, config, subject, node, depth, sinks).sinks),
    decreases node, 0nat,
{
    elements_go_on(file_name, config, subject, node.elements@, node.elements@.len(), depth, sinks);
}

proof fn elements_go_on(
    file_name: Seq<char>,
    config: &Config,
    subject: IriView,
    elements: Seq<DataElement>,
    n: nat,
    depth: u8,
    sinks: Sinks,
)
    ensures
        goes_on(
            sinks,
            elements_outcome(file_name, config, subject, elements, n, depth, sinks).sinks,
        ),
    decreases elements, n,
{
    if n > 0 && n <= elements.len() {
        let before = elements_outcome(
            file_name,
            config,
            subject,
            elements,
            (n - 1) as nat,
            depth,
            sinks,
        );
        elements_go_on(file_name, config, subject, elements, (n - 1) as nat, depth, sinks);
        element_goes_on(file_name, config, subject, &elements[n - 1], depth, before);
        goes_on_twice(
            sinks,
            before.sinks,
            element_outcome(file_name, config, subject, &elements[n - 1], depth, before).sinks,
        );
    }
}

proof fn element_goes_on(
    file_name: Seq<char>,
    config: &Config,
    subject: IriView,
    e: &DataElement,
    depth: u8,
    before: Outcome,
)
    ensures
        goes_on(
            before.sinks,
            element_outcome(file_name, config, subject, e, depth, before).sinks,
        ),
    decreases e, 0nat,
{
    reveal(values_outcome);
    reveal(person_name_outcome);
    if e.length == 0 {
    } else if has_values(config, e) {
        starts(
            before.sinks.triples,
            values_text(subject, config, e, before.carry, value_count(config, e)),
        );
    } else if e.vr == VR::PN {
    } else {
        match e.value {
            Value::Items(items) => {
                items_go_on(
                    file_name,
                    config,
                    subject,
                    predicate_of(e.tag),
                    is_content_sequence(e.tag),
                    items@,
                    items@.len(),
                    depth,
                    before,
                );
            },
            _ => {},
        }
    }
}

proof fn items_go_on(
    file_name: Seq<char>,
    config: &Config,
    subject: IriView,
    predicate: IriView,
    content: bool,
    items: Seq<DocumentNode>,
    m: nat,
    depth: u8,
    before: Outcome,
)
    ensures
        goes_on(
            before.sinks,
            items_progress(
                file_name,
                config,
                subject,
                predicate,
                content,
                items,
                m,
                depth,
                before,
            ).outcome.sinks,
        ),
    decreases items, m,
{
    if m > 0 && m <= items.len() {
        let p = items_progress(
            file_name,
            config,
            subject,
            predicate,
            content,
            items,
            (m - 1) as nat,
            depth,
            before,
        );
        items_go_on(
            file_name,
            config,
            subject,
            predicate,
            content,
            items,
            (m - 1) as nat,
            depth,
            before,
        );
        if p.failure.is_none() {
            item_goes_on(
                file_name,
                config,
                subject,
                predicate,
                content,
                &items[m - 1],
                m - 1,
                depth,
                p.outcome,
            );
            goes_on_twice(
                before.sinks,
                p.outcome.sinks,
                item_progress(
                    file_name,
                    config,
                    subject,
                    predicate,
                    content,
                    &items[m - 1],
                    m - 1,
                    depth,
                    p.outcome,
                ).outcome.sinks,
            );
        }
    }
}

proof fn item_goes_on(
    file_name: Seq<char>,
    config: &Config,
    subject: IriView,
    predicate: IriView,
    content: bool,
    item: &DocumentNode,
    index: int,
    depth: u8,
    before: Outcome,
)
    ensures
        goes_on(
            before.sinks,
            item_progress(
                file_name,
                config,
                subject,
                predicate,
                content,
                item,
                index,
                depth,
                before,
            ).outcome.sinks,
        ),
    decreases item, 1nat,
{
    let issued = before.sinks.issued;
    if !(content && depth == u8::MAX) && issued + tokens_needed(content) <= u64::MAX {
        let start = item_sinks(subject, predicate, content, index, before.sinks);
        assert(goes_on(before.sinks, start));
        walk_goes_on(
            file_name,
            config,
            item_subject(content, issued),
            item,
            item_depth(content, depth),
            start,
        );
        goes_on_twice(
            before.sinks,
            start,
            node_outcome(
                file_name,
                config,
                item_subject(content, issued),
                item,
                item_depth(content, depth),
                start,
            ).sinks,
        );
    }
}

/// A value that was read as its representation asks is never refused as
/// being of the wrong kind: whatever fails in it is a value of its own.
pub proof fn decoded_values_are_of_their_kind(
    config: &Config,
    e: &DataElement,
    carry: Option<Seq<char>>,
    j: int,
)
    requires
        has_values(config, e),
        e.vr.decoding().yields(&e.value),
        0 <= j < value_count(config, e),
        value_step(config, e, carry, j) is Fail,
    ensures
        !is_pixel_data(e.tag),
        !config.forbids_tag(e.tag),
        match e.value {
            Value::Decimals(v) => v@[j] is Malformed,
            Value::Dates(v) => temporal_datatype(utf8_len(date_iso(v@[j]))).is_none(),
            Value::DateTimes(v) => temporal_datatype(utf8_len(datetime_iso(&v@[j]))).is_none(),
            Value::Strings(v) => e.vr == VR::IS && integer_reading(trim(v@[j]@)).is_err(),
            _ => false,
        },
{
    reveal(value_step);
    reveal(value_count);
}

/// From one item of a sequence to a later one the greatest depth does not
/// fall.
proof fn items_depth_grows(
    file_name: Seq<char>,
    config: &Config,
    subject: IriView,
    predicate: IriView,
    content: bool,
    items: Seq<DocumentNode>,
    n: nat,
    m: nat,
    depth: u8,
    before: Outcome,
)
    requires
        n <= m <= items.len(),
    ensures
        items_progress(
            file_name,
            config,
            subject,
            predicate,
            content,
            items,
            m,
            depth,
            before,
        ).outcome.max_depth >= items_progress(
            file_name,
            config,
            subject,
            predicate,
            content,
            items,
            n,
            depth,
            before,
        ).outcome.max_depth,
    decreases m,
{
    reveal_with_fuel(items_progress, 2);
    reveal_with_fuel(item_progress, 2);
    if n < m {
        items_depth_grows(
            file_name,
            config,
            subject,
            predicate,
            content,
            items,
            n,
            (m - 1) as nat,
            depth,
            before,
        );
    }
}

/// A content sequence goes one level deeper: where its first item can be
/// walked, the greatest depth seen after the sequence is above the depth
/// of the document that holds it.
pub proof fn content_goes_deeper(
    file_name: Seq<char>,
    config: &Config,
    subject: IriView,
    e: &DataElement,
    items: Vec<DocumentNode>,
    depth: u8,
    before: Outcome,
)
    requires
        e.length > 0,
        e.vr == VR::SQ,
        is_content_sequence(e.tag),
        !config.forbids_tag(e.tag),
        e.value == Value::Items(items),
        items@.len() > 0,
        depth < u8::MAX,
        before.sinks.issued + 2 <= u64::MAX,
    ensures
        element_outcome(file_name, config, subject, e, depth, before).max_depth > depth,
{
    let predicate = predicate_of(e.tag);
    let first = items_progress(file_name, config, subject, predicate, true, items@, 1, depth, before);
    assert(first.outcome.max_depth > depth) by {
        reveal_with_fuel(items_progress, 2);
        reveal_with_fuel(item_progress, 2);
        depth_is_reached(
            file_name,
            config,
            item_subject(true, before.sinks.issued),
            &items@[0],
            item_depth(true, depth),
            item_sinks(subject, predicate, true, 0, before.sinks),
        );
    }
    items_depth_grows(
        file_name,
        config,
        subject,
        predicate,
        true,
        items@,
        1,
        items@.len(),
        depth,
        before,
    );
}

} // verus!
