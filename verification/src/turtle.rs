//! The graph model: identifiers, literals and triples, and their rendering
//! as text.
use crate::text::{
    chars_of, decimal_digits, decimal_digits_value, decimal_string, decimal_text, hex_char,
    push_char, signed_decimal_string, utf8_len, utf8_len_concat, utf8_len_is_encoded_len,
    utf8_len_one, utf8_width, width_of,
};
use vstd::prelude::*;
use vstd::string::StringExecFns;
use vstd::utf8::encode_utf8;

verus! {

/// The greatest rendered length of a string literal in the object position
/// of a triple, in bytes and without the quotes.
pub const MAX_OBJECT_LENGTH: usize = 1000;

/// The length in bytes of the marker that stands for an omitted remainder.
pub const ELLIPSIS_LENGTH: usize = 9;

/// An identifier: absolute, or abbreviated by a prefix.
#[derive(Debug, PartialEq, Eq)]
pub enum IRI {
    Full(String),
    Prefixed { prefix: String, local: String },
}

/// What an identifier holds.
pub enum IriView {
    Full(Seq<char>),
    Prefixed { prefix: Seq<char>, local: Seq<char> },
}

impl View for IRI {
    type V = IriView;

    open spec fn view(&self) -> IriView {
        match self {
            IRI::Full(s) => IriView::Full(s@),
            IRI::Prefixed { prefix, local } => IriView::Prefixed { prefix: prefix@, local: local@ },
        }
    }
}

/// Whether a byte stands for itself in a percent-encoded text: letters,
/// digits, `-`, `.`, `_` and `~`.
pub open spec fn is_unreserved(b: u8) -> bool {
    ||| 0x30 <= b <= 0x39
    ||| 0x41 <= b <= 0x5A
    ||| 0x61 <= b <= 0x7A
    ||| b == 0x2D
    ||| b == 0x2E
    ||| b == 0x5F
    ||| b == 0x7E
}

/// The percent-encoding of one byte.
pub open spec fn percent_byte(b: u8) -> Seq<char> {
    if is_unreserved(b) {
        seq![b as char]
    } else {
        seq!['%', hex_char(b as int / 16), hex_char(b as int % 16)]
    }
}

/// The percent-encoding of a sequence of bytes.
pub open spec fn percent_encoded(bytes: Seq<u8>) -> Seq<char>
    decreases bytes.len(),
{
    if bytes.len() == 0 {
        Seq::empty()
    } else {
        percent_encoded(bytes.drop_last()) + percent_byte(bytes.last())
    }
}

/// Percent-encodes a text with `urlencoding::encode`: every byte of its
/// UTF-8 form except letters, digits, `-`, `.`, `_` and `~` becomes `%` and
/// two upper-case hexadecimal digits.
#[verifier::external_body]
pub(crate) fn url_encode(data: &str) -> (r: String)
    ensures
        r@ == percent_encoded(encode_utf8(data@)),
{
    urlencoding::encode(data).into_owned()
}

impl IriView {
    /// The text that stands for the identifier in a document: an absolute
    /// identifier in angle brackets, an abbreviated one as its prefix, a
    /// colon and its percent-encoded local name.
    pub open spec fn rendered(self) -> Seq<char> {
        match self {
            IriView::Full(s) => seq!['<'] + s + seq!['>'],
            IriView::Prefixed { prefix, local } => prefix + seq![':'] + percent_encoded(
                encode_utf8(local),
            ),
        }
    }
}

impl IRI {
    /// An absolute identifier.
    pub fn full(s: &str) -> (r: Self)
        ensures
            r@ == IriView::Full(s@),
    {
        IRI::Full(String::from_str(s))
    }

    /// An identifier abbreviated by a prefix.
    pub fn prefix(prefix: &str, local: &str) -> (r: Self)
        ensures
            r@ == (IriView::Prefixed { prefix: prefix@, local: local@ }),
    {
        IRI::Prefixed { prefix: String::from_str(prefix), local: String::from_str(local) }
    }

    /// The text that stands for the identifier in a document.
    pub fn to_string(&self) -> (r: String)
        ensures
            r@ == self@.rendered(),
    {
        match self {
            IRI::Full(s) => {
                let mut r = String::from_str("<");
                proof {
                    reveal_strlit("<");
                    reveal_strlit(">");
                }
                r.append(s.as_str());
                r.append(">");
                assert(r@ =~= self@.rendered());
                r
            },
            IRI::Prefixed { prefix, local } => {
                let mut r = prefix.clone();
                proof {
                    reveal_strlit(":");
                }
                r.append(":");
                let encoded = url_encode(local.as_str());
                r.append(encoded.as_str());
                assert(r@ =~= self@.rendered());
                r
            },
        }
    }
}

impl Clone for IRI {
    fn clone(&self) -> (r: Self)
        ensures
            r@ == self@,
    {
        match self {
            IRI::Full(s) => IRI::Full(s.clone()),
            IRI::Prefixed { prefix, local } => IRI::Prefixed {
                prefix: prefix.clone(),
                local: local.clone(),
            },
        }
    }
}

/// A literal without a datatype.  A floating-point number is held as its
/// decimal rendering with one fractional digit.
#[derive(Debug, PartialEq, Eq)]
pub enum PlainLiteral {
    String(String),
    Integer(i64),
    Float(String),
}

/// What a plain literal holds.
pub enum PlainLiteralView {
    String(Seq<char>),
    Integer(i64),
    Float(Seq<char>),
}

impl View for PlainLiteral {
    type V = PlainLiteralView;

    open spec fn view(&self) -> PlainLiteralView {
        match self {
            PlainLiteral::String(s) => PlainLiteralView::String(s@),
            PlainLiteral::Integer(n) => PlainLiteralView::Integer(*n),
            PlainLiteral::Float(x) => PlainLiteralView::Float(x@),
        }
    }
}

/// Whether a character is written as an escape sequence inside a string
/// literal.
pub open spec fn needs_escape(c: char) -> bool {
    c == '\\' || c == '"' || c == '\n' || c == '\r'
}

/// How one character is written inside a string literal.
pub open spec fn escape_of(c: char) -> Seq<char> {
    if c == '\\' {
        seq!['\\', '\\']
    } else if c == '"' {
        seq!['\\', '"']
    } else if c == '\n' {
        seq!['\\', 'n']
    } else if c == '\r' {
        seq!['\\', 'r']
    } else {
        seq![c]
    }
}

/// The escaped form of a text.
pub open spec fn escaped(s: Seq<char>) -> Seq<char>
    decreases s.len(),
{
    if s.len() == 0 {
        Seq::empty()
    } else {
        escaped(s.drop_last()) + escape_of(s.last())
    }
}

/// The number of bytes that the escaped form of one character takes.
pub open spec fn escaped_width(c: char) -> nat {
    if needs_escape(c) {
        2
    } else {
        utf8_width(c)
    }
}

/// The number of bytes that the escaped form of a text takes.
pub open spec fn escaped_len(s: Seq<char>) -> nat
    decreases s.len(),
{
    if s.len() == 0 {
        0
    } else {
        escaped_len(s.drop_last()) + escaped_width(s.last())
    }
}

/// The marker that stands for the omitted remainder of a truncated literal.
pub open spec fn ellipsis() -> Seq<char> {
    seq!['[', '\u{e2}', '\u{20ac}', '\u{a6}', ']']
}

/// The bytes available to the escaped text of a literal that may be cut:
/// the maximum length less the room for the marker.
pub open spec fn budget(max_len: nat) -> nat {
    if max_len >= ELLIPSIS_LENGTH as nat {
        (max_len - ELLIPSIS_LENGTH as nat) as nat
    } else {
        0
    }
}

/// The number of leading characters of `s` whose escaped forms fit together
/// into `room` bytes.
pub open spec fn fitting_prefix(s: Seq<char>, room: nat) -> nat
    decreases s.len(),
{
    if s.len() == 0 || escaped_width(s[0]) > room {
        0
    } else {
        1 + fitting_prefix(s.drop_first(), (room - escaped_width(s[0])) as nat)
    }
}

/// A string literal as it is written: in quotes and escaped; where the
/// escaped text does not fit into the budget, cut after the last character
/// that fits and closed by the marker.
pub open spec fn quoted(s: Seq<char>, max_len: nat) -> Seq<char> {
    let kept = fitting_prefix(s, budget(max_len));
    if kept >= s.len() {
        seq!['"'] + escaped(s) + seq!['"']
    } else {
        seq!['"'] + escaped(s.take(kept as int)) + ellipsis() + seq!['"']
    }
}

impl PlainLiteralView {
    /// The text that stands for the literal in a document, a string cut to
    /// `max_len` bytes.
    pub open spec fn rendered(self, max_len: nat) -> Seq<char> {
        match self {
            PlainLiteralView::String(s) => quoted(s, max_len),
            PlainLiteralView::Integer(n) => decimal_text(n as int),
            PlainLiteralView::Float(x) => x,
        }
    }
}

/// Appends the escaped form of `c` to `out`.
fn push_escaped(out: &mut String, c: char)
    ensures
        final(out)@ == old(out)@ + escape_of(c),
{
    if c == '\\' {
        push_char(out, '\\');
        push_char(out, '\\');
    } else if c == '"' {
        push_char(out, '\\');
        push_char(out, '"');
    } else if c == '\n' {
        push_char(out, '\\');
        push_char(out, 'n');
    } else if c == '\r' {
        push_char(out, '\\');
        push_char(out, 'r');
    } else {
        push_char(out, c);
    }
    assert(final(out)@ =~= old(out)@ + escape_of(c));
}

fn escaped_width_of(c: char) -> (w: usize)
    ensures
        w == escaped_width(c),
        1 <= w <= 4,
{
    if c == '\\' || c == '"' || c == '\n' || c == '\r' {
        2
    } else {
        width_of(c)
    }
}

proof fn fitting_prefix_step(s: Seq<char>, room: nat, i: int, used: nat)
    requires
        0 <= i < s.len(),
        used <= room,
        fitting_prefix(s, room) == i + fitting_prefix(s.skip(i), (room - used) as nat),
        escaped_width(s[i]) <= room - used,
    ensures
        fitting_prefix(s, room) == i + 1 + fitting_prefix(
            s.skip(i + 1),
            (room - used - escaped_width(s[i])) as nat,
        ),
{
    assert(s.skip(i)[0] == s[i]);
    assert(s.skip(i).drop_first() =~= s.skip(i + 1));
}

/// Appends a string literal to `out`, cut to `max_len` bytes.
fn push_quoted(out: &mut String, s: &str, max_len: usize)
    ensures
        final(out)@ == old(out)@ + quoted(s@, max_len as nat),
{
    let room: usize = if max_len >= ELLIPSIS_LENGTH {
        max_len - ELLIPSIS_LENGTH
    } else {
        0
    };
    let chars = chars_of(s);
    push_char(out, '"');
    let mut used: usize = 0;
    let mut i: usize = 0;
    assert(chars@.skip(0) =~= chars@);
    assert(chars@.take(0) =~= Seq::<char>::empty());
    while i < chars.len()
        invariant
            chars@ == s@,
            room == budget(max_len as nat),
            i <= chars.len(),
            used <= room,
            out@ == old(out)@ + seq!['"'] + escaped(chars@.take(i as int)),
            fitting_prefix(chars@, room as nat) == i + fitting_prefix(
                chars@.skip(i as int),
                (room - used) as nat,
            ),
        decreases chars.len() - i,
    {
        let c = chars[i];
        let w = escaped_width_of(c);
        if w > room - used {
            assert(chars@.skip(i as int)[0] == c);
            assert(fitting_prefix(chars@, room as nat) == i);
            push_char(out, '[');
            push_char(out, '\u{e2}');
            push_char(out, '\u{20ac}');
            push_char(out, '\u{a6}');
            push_char(out, ']');
            push_char(out, '"');
            assert(out@ =~= old(out)@ + quoted(s@, max_len as nat));
            return ;
        }
        proof {
            fitting_prefix_step(chars@, room as nat, i as int, used as nat);
            assert(chars@.take(i as int + 1).drop_last() =~= chars@.take(i as int));
            assert(chars@.take(i as int + 1).last() == c);
        }
        push_escaped(out, c);
        used += w;
        i += 1;
        assert(out@ =~= old(out)@ + seq!['"'] + escaped(chars@.take(i as int)));
    }
    assert(chars@.take(i as int) =~= chars@);
    assert(chars@.skip(i as int).len() == 0);
    push_char(out, '"');
    assert(out@ =~= old(out)@ + quoted(s@, max_len as nat));
}

impl PlainLiteral {
    /// The text that stands for the literal in a document, a string cut to
    /// `max_len` bytes.
    pub fn to_string_with_max_len(&self, max_len: usize) -> (r: String)
        ensures
            r@ == self@.rendered(max_len as nat),
    {
        match self {
            PlainLiteral::String(s) => {
                let mut r = String::new();
                push_quoted(&mut r, s.as_str(), max_len);
                assert(r@ =~= quoted(s@, max_len as nat));
                r
            },
            PlainLiteral::Integer(n) => signed_decimal_string(*n),
            PlainLiteral::Float(x) => x.clone(),
        }
    }
}

/// A literal with a datatype.
#[derive(Debug, PartialEq, Eq)]
pub struct TypedLiteral {
    lexical: String,
    datatype: IRI,
}

/// What a typed literal holds.
pub struct TypedLiteralView {
    pub lexical: Seq<char>,
    pub datatype: IriView,
}

impl View for TypedLiteral {
    type V = TypedLiteralView;

    closed spec fn view(&self) -> TypedLiteralView {
        TypedLiteralView { lexical: self.lexical@, datatype: self.datatype@ }
    }
}

impl TypedLiteralView {
    /// The text that stands for the literal in a document: the lexical form
    /// in quotes, `^^` and the datatype.
    pub open spec fn rendered(self) -> Seq<char> {
        seq!['"'] + self.lexical + seq!['"', '^', '^'] + self.datatype.rendered()
    }
}

impl TypedLiteral {
    /// A literal with the given lexical form and datatype.
    pub fn new(lexical: &str, datatype: IRI) -> (r: Self)
        ensures
            r@ == (TypedLiteralView { lexical: lexical@, datatype: datatype@ }),
    {
        TypedLiteral { lexical: String::from_str(lexical), datatype }
    }

    /// The text that stands for the literal in a document.
    pub fn to_string(&self) -> (r: String)
        ensures
            r@ == self@.rendered(),
    {
        let mut r = String::new();
        push_char(&mut r, '"');
        r.append(self.lexical.as_str());
        push_char(&mut r, '"');
        push_char(&mut r, '^');
        push_char(&mut r, '^');
        let datatype = self.datatype.to_string();
        r.append(datatype.as_str());
        assert(r@ =~= self@.rendered());
        r
    }
}

/// What stands in the object position of a triple.
#[derive(Debug, PartialEq, Eq)]
pub enum TripleObject {
    PlainLiteral(PlainLiteral),
    TypedLiteral(TypedLiteral),
    IRI(IRI),
}

/// What an object holds.
pub enum TripleObjectView {
    PlainLiteral(PlainLiteralView),
    TypedLiteral(TypedLiteralView),
    IRI(IriView),
}

impl View for TripleObject {
    type V = TripleObjectView;

    open spec fn view(&self) -> TripleObjectView {
        match self {
            TripleObject::PlainLiteral(l) => TripleObjectView::PlainLiteral(l@),
            TripleObject::TypedLiteral(l) => TripleObjectView::TypedLiteral(l@),
            TripleObject::IRI(i) => TripleObjectView::IRI(i@),
        }
    }
}

impl TripleObjectView {
    /// The text that stands for the object in a document, a plain string
    /// literal cut to `max_len` bytes.
    pub open spec fn rendered(self, max_len: nat) -> Seq<char> {
        match self {
            TripleObjectView::PlainLiteral(l) => l.rendered(max_len),
            TripleObjectView::TypedLiteral(l) => l.rendered(),
            TripleObjectView::IRI(i) => i.rendered(),
        }
    }
}

impl From<IRI> for TripleObject {
    fn from(iri: IRI) -> (r: Self) {
        TripleObject::IRI(iri)
    }
}

impl vstd::std_specs::convert::FromSpecImpl<IRI> for TripleObject {
    open spec fn obeys_from_spec() -> bool {
        true
    }

    open spec fn from_spec(iri: IRI) -> Self {
        TripleObject::IRI(iri)
    }
}

impl From<PlainLiteral> for TripleObject {
    fn from(literal: PlainLiteral) -> (r: Self) {
        TripleObject::PlainLiteral(literal)
    }
}

impl vstd::std_specs::convert::FromSpecImpl<PlainLiteral> for TripleObject {
    open spec fn obeys_from_spec() -> bool {
        true
    }

    open spec fn from_spec(literal: PlainLiteral) -> Self {
        TripleObject::PlainLiteral(literal)
    }
}

impl From<TypedLiteral> for TripleObject {
    fn from(literal: TypedLiteral) -> (r: Self) {
        TripleObject::TypedLiteral(literal)
    }
}

impl vstd::std_specs::convert::FromSpecImpl<TypedLiteral> for TripleObject {
    open spec fn obeys_from_spec() -> bool {
        true
    }

    open spec fn from_spec(literal: TypedLiteral) -> Self {
        TripleObject::TypedLiteral(literal)
    }
}

impl TripleObject {
    /// The text that stands for the object in a document, a plain string
    /// literal cut to `max_len` bytes.
    pub fn to_string_with_max_len(&self, max_len: usize) -> (r: String)
        ensures
            r@ == self@.rendered(max_len as nat),
    {
        match self {
            TripleObject::PlainLiteral(l) => l.to_string_with_max_len(max_len),
            TripleObject::TypedLiteral(l) => l.to_string(),
            TripleObject::IRI(i) => i.to_string(),
        }
    }
}

/// One statement of the graph.
pub struct Triple<'a> {
    pub subject: &'a IRI,
    pub predicate: &'a IRI,
    pub object: &'a TripleObject,
}

/// The text of one statement: subject, predicate and object, separated by
/// single spaces and closed by ` .`, the object cut to `MAX_OBJECT_LENGTH`.
pub open spec fn statement(subject: IriView, predicate: IriView, object: TripleObjectView) -> Seq<
    char,
> {
    subject.rendered() + seq![' '] + predicate.rendered() + seq![' '] + object.rendered(
        MAX_OBJECT_LENGTH as nat,
    ) + seq![' ', '.']
}

/// The statement with the given subject, predicate and object.
pub fn triple<'a>(subject: &'a IRI, predicate: &'a IRI, object: &'a TripleObject) -> (r: Triple<'a>)
    ensures
        r.subject == subject,
        r.predicate == predicate,
        r.object == object,
{
    Triple { subject, predicate, object }
}

impl<'a> Triple<'a> {
    /// The text of the statement.
    pub fn to_string(&self) -> (r: String)
        ensures
            r@ == statement(self.subject@, self.predicate@, self.object@),
    {
        let mut r = self.subject.to_string();
        push_char(&mut r, ' ');
        let predicate = self.predicate.to_string();
        r.append(predicate.as_str());
        push_char(&mut r, ' ');
        let object = self.object.to_string_with_max_len(MAX_OBJECT_LENGTH);
        r.append(object.as_str());
        push_char(&mut r, ' ');
        push_char(&mut r, '.');
        assert(r@ =~= statement(self.subject@, self.predicate@, self.object@));
        r
    }
}

/// The source of blank-node tokens: a counter that hands each token out
/// once.
#[derive(Debug)]
pub struct BlankNodeAllocator {
    next: u64,
}

/// The identifier of the blank node with the given token.
pub open spec fn blank_node(token: nat) -> IriView {
    IriView::Full(seq!['b', 'n'] + decimal_digits(token))
}

impl BlankNodeAllocator {
    /// The number of tokens handed out so far, which is the next token.
    pub closed spec fn issued(&self) -> nat {
        self.next as nat
    }

    /// An allocator that has handed out nothing.
    pub fn new() -> (r: Self)
        ensures
            r.issued() == 0,
    {
        BlankNodeAllocator { next: 0 }
    }

    /// An allocator that goes on after `issued` tokens were handed out.
    pub fn starting_at(issued: u64) -> (r: Self)
        ensures
            r.issued() == issued,
    {
        BlankNodeAllocator { next: issued }
    }

    /// The number of tokens left to hand out.
    pub fn remaining(&self) -> (r: u64)
        ensures
            r + self.issued() == u64::MAX,
    {
        u64::MAX - self.next
    }

}

/// A fresh blank node: its token is the number of tokens handed out before.
/// `None`, and nothing changes, once the tokens are used up.
pub fn create_blank_node(allocator: &mut BlankNodeAllocator) -> (r: Option<IRI>)
    ensures
        old(allocator).issued() < u64::MAX ==> {
            &&& r.is_some()
            &&& r.unwrap()@ == blank_node(old(allocator).issued())
            &&& final(allocator).issued() == old(allocator).issued() + 1
        },
        old(allocator).issued() >= u64::MAX ==> r.is_none() && final(allocator).issued() == old(
            allocator,
        ).issued(),
{
    if allocator.next == u64::MAX {
        return None;
    }
    let token = allocator.next;
    allocator.next = token + 1;
    let mut label = String::new();
    push_char(&mut label, 'b');
    push_char(&mut label, 'n');
    let digits = decimal_string(token);
    label.append(digits.as_str());
    assert(label@ =~= seq!['b', 'n'] + decimal_digits(token as nat));
    Some(IRI::Full(label))
}

/// The escaped length of a concatenation is the sum of the escaped lengths.
pub proof fn escaped_len_concat(a: Seq<char>, b: Seq<char>)
    ensures
        escaped_len(a + b) == escaped_len(a) + escaped_len(b),
    decreases b.len(),
{
    if b.len() == 0 {
        assert(a + b =~= a);
    } else {
        assert((a + b).drop_last() =~= a + b.drop_last());
        escaped_len_concat(a, b.drop_last());
    }
}

/// `escaped_len` is the length in bytes of the escaped text.
pub proof fn escaped_len_is_utf8_len(s: Seq<char>)
    ensures
        utf8_len(escaped(s)) == escaped_len(s),
    decreases s.len(),
{
    if s.len() > 0 {
        escaped_len_is_utf8_len(s.drop_last());
        utf8_len_concat(escaped(s.drop_last()), escape_of(s.last()));
        let c = s.last();
        if needs_escape(c) {
            let two = escape_of(c);
            utf8_len_one(two[0]);
            assert(two.drop_last() =~= seq![two[0]]);
        } else {
            utf8_len_one(c);
        }
    }
}

/// What `fitting_prefix` counts: the characters it keeps fit into the room,
/// and one more would not.
pub proof fn fitting_prefix_is_greatest(s: Seq<char>, room: nat)
    ensures
        fitting_prefix(s, room) <= s.len(),
        escaped_len(s.take(fitting_prefix(s, room) as int)) <= room,
        fitting_prefix(s, room) < s.len() ==> escaped_len(
            s.take(fitting_prefix(s, room) as int + 1),
        ) > room,
        fitting_prefix(s, room) == s.len() <==> escaped_len(s) <= room,
    decreases s.len(),
{
    let kept = fitting_prefix(s, room);
    if s.len() == 0 {
        assert(s.take(0) =~= s);
    } else {
        let head = seq![s[0]];
        assert(head.drop_last() =~= Seq::<char>::empty());
        assert(head.last() == s[0]);
        assert(escaped_len(head.drop_last()) == 0);
        assert(escaped_len(head) == escaped_width(s[0]));
        assert(s =~= head + s.drop_first());
        escaped_len_concat(head, s.drop_first());
        if escaped_width(s[0]) > room {
            assert(s.take(0) =~= Seq::<char>::empty());
            assert(s.take(1) =~= head);
        } else {
            let rest = s.drop_first();
            let less = (room - escaped_width(s[0])) as nat;
            fitting_prefix_is_greatest(rest, less);
            let k = fitting_prefix(rest, less);
            assert(s.take(k as int + 1) =~= head + rest.take(k as int));
            escaped_len_concat(head, rest.take(k as int));
            if k < rest.len() {
                assert(s.take(k as int + 2) =~= head + rest.take(k as int + 1));
                escaped_len_concat(head, rest.take(k as int + 1));
            } else {
                assert(rest.take(k as int) =~= rest);
            }
        }
    }
}

/// A string literal whose escaped text does not fit into the budget is cut:
/// the text between the quotes is the escaped form of the longest run of
/// leading characters that fits, so that no escape sequence and no
/// character is split, followed by the marker; and where the maximum
/// length has room for the marker, that text takes at most `max_len` bytes.
pub proof fn long_literal_is_cut(s: Seq<char>, max_len: nat)
    requires
        escaped_len(s) > budget(max_len),
    ensures
        fitting_prefix(s, budget(max_len)) < s.len(),
        quoted(s, max_len) == seq!['"'] + escaped(
            s.take(fitting_prefix(s, budget(max_len)) as int),
        ) + ellipsis() + seq!['"'],
        escaped_len(s.take(fitting_prefix(s, budget(max_len)) as int + 1)) > budget(max_len),
        max_len >= ELLIPSIS_LENGTH ==> encode_utf8(
            escaped(s.take(fitting_prefix(s, budget(max_len)) as int)) + ellipsis(),
        ).len() <= max_len,
{
    let kept = fitting_prefix(s, budget(max_len));
    fitting_prefix_is_greatest(s, budget(max_len));
    let body = escaped(s.take(kept as int));
    escaped_len_is_utf8_len(s.take(kept as int));
    ellipsis_length();
    utf8_len_concat(body, ellipsis());
    utf8_len_is_encoded_len(body + ellipsis());
}

/// A string literal whose escaped text fits into the budget is written in
/// full.
pub proof fn short_literal_is_whole(s: Seq<char>, max_len: nat)
    requires
        escaped_len(s) <= budget(max_len),
    ensures
        quoted(s, max_len) == seq!['"'] + escaped(s) + seq!['"'],
{
    fitting_prefix_is_greatest(s, budget(max_len));
}

/// The marker takes `ELLIPSIS_LENGTH` bytes.
pub proof fn ellipsis_length()
    ensures
        utf8_len(ellipsis()) == ELLIPSIS_LENGTH,
{
    let e = ellipsis();
    let e4 = seq!['[', '\u{e2}', '\u{20ac}', '\u{a6}'];
    let e3 = seq!['[', '\u{e2}', '\u{20ac}'];
    let e2 = seq!['[', '\u{e2}'];
    let e1 = seq!['['];
    assert(e.drop_last() =~= e4);
    assert(e4.drop_last() =~= e3);
    assert(e3.drop_last() =~= e2);
    assert(e2.drop_last() =~= e1);
    utf8_len_one('[');
    assert(utf8_len(e2) == 3);
    assert(utf8_len(e3) == 6);
    assert(utf8_len(e4) == 8);
}

/// Blank nodes with different tokens are different identifiers, and are
/// written differently.
pub proof fn blank_nodes_differ(a: nat, b: nat)
    requires
        a != b,
    ensures
        blank_node(a) != blank_node(b),
        blank_node(a).rendered() != blank_node(b).rendered(),
{
    decimal_digits_value(a);
    decimal_digits_value(b);
    let la = seq!['b', 'n'] + decimal_digits(a);
    let lb = seq!['b', 'n'] + decimal_digits(b);
    assert(la.skip(2) =~= decimal_digits(a));
    assert(lb.skip(2) =~= decimal_digits(b));
    assert(la != lb);
    let ra = blank_node(a).rendered();
    let rb = blank_node(b).rendered();
    assert(ra.subrange(1, ra.len() - 1) =~= la);
    assert(rb.subrange(1, rb.len() - 1) =~= lb);
}

/// An identifier is never written as an empty text, so that every
/// statement has a subject and a predicate.
pub proof fn identifier_is_written(iri: IriView)
    ensures
        iri.rendered().len() > 0,
{
}

} // verus!
