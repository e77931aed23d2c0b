//! The output of one worker, and what is read as input.
use crate::config::Config;
use crate::dicom::{line, node_outcome, own, write_triples, Sinks};
use crate::document::DocumentNode;
use crate::text::{
    chars_of, decimal_digits, decimal_string, padded_decimal, push_char, push_padded, same_text,
};
use crate::turtle::{triple, BlankNodeAllocator, IriView, TripleObject, TripleObjectView, IRI};
use vstd::prelude::*;
use vstd::string::StringExecFns;

verus! {

/// The output of one worker: the text that was written and not taken yet,
/// and the greatest depth seen in the documents written so far.
#[derive(Debug)]
pub struct TripleWriter {
    writer: String,
    pub max_depth: u8,
}

/// The statement that records the greatest depth, as one line.
pub open spec fn max_depth_line(max_depth: u8) -> Seq<char> {
    "<> <meta:maxDepth> "@ + decimal_digits(max_depth as nat) + " .\n"@
}

impl TripleWriter {
    /// The text that was written and not taken yet.
    pub closed spec fn pending(&self) -> Seq<char> {
        self.writer@
    }

    /// The greatest depth seen so far.
    pub closed spec fn depth(&self) -> u8 {
        self.max_depth
    }

    /// A writer that starts with the text `writer` and with depth 0.
    pub fn new(writer: String) -> (r: Self)
        ensures
            r.pending() == writer@,
            r.depth() == 0,
    {
        TripleWriter { writer, max_depth: 0 }
    }

    /// Writes `buf` through, unchanged.
    pub fn write(&mut self, buf: &str)
        ensures
            final(self).pending() == old(self).pending() + buf@,
            final(self).depth() == old(self).depth(),
    {
        self.writer.append(buf);
    }

    /// Folds the depth of one more document into the greatest depth.
    pub fn record_depth(&mut self, depth: u8)
        ensures
            final(self).pending() == old(self).pending(),
            final(self).depth() == if depth > old(self).depth() {
                depth
            } else {
                old(self).depth()
            },
    {
        if depth > self.max_depth {
            self.max_depth = depth;
        }
    }

    /// Takes the text that was written, and leaves none pending.
    pub fn take(&mut self) -> (r: String)
        ensures
            r@ == old(self).pending(),
            final(self).pending() == Seq::<char>::empty(),
            final(self).depth() == old(self).depth(),
    {
        let mut taken = String::new();
        std::mem::swap(&mut self.writer, &mut taken);
        taken
    }

    /// Ends the output: the pending text, closed by the one line that
    /// records the greatest depth.  The writer is used up, so the line is
    /// written once.
    pub fn finish(self) -> (r: String)
        ensures
            r@ == self.pending() + max_depth_line(self.depth()),
    {
        let mut r = self.writer;
        r.append("<> <meta:maxDepth> ");
        let depth = decimal_string(self.max_depth as u64);
        r.append(depth.as_str());
        r.append(" .\n");
        assert(r@ =~= self.pending() + max_depth_line(self.max_depth));
        r
    }
}

/// The declarations of the well-known vocabularies, with which the output
/// of a worker starts.
pub open spec fn well_known_prefixes() -> Seq<char> {
    "@prefix dicom2rdf: <http://dicom2rdf.uniklinik-freiburg.de/> .\n"@
        + "@prefix rdf: <http://www.w3.org/1999/02/22-rdf-syntax-ns#> .\n"@
        + "@prefix rdfs: <http://www.w3.org/2000/01/rdf-schema#> .\n"@
        + "@prefix xsd: <http://www.w3.org/2001/XMLSchema#> ."@
}

/// The text with which the output of a worker starts.
pub fn prefix_header() -> (r: String)
    ensures
        r@ == well_known_prefixes(),
{
    let mut r = String::from_str(
        "@prefix dicom2rdf: <http://dicom2rdf.uniklinik-freiburg.de/> .\n",
    );
    r.append("@prefix rdf: <http://www.w3.org/1999/02/22-rdf-syntax-ns#> .\n");
    r.append("@prefix rdfs: <http://www.w3.org/2000/01/rdf-schema#> .\n");
    r.append("@prefix xsd: <http://www.w3.org/2001/XMLSchema#> .");
    r
}

/// The subject that stands for a file.
pub open spec fn file_subject(file_name: Seq<char>) -> IriView {
    own(file_name)
}

/// The line that states that the file's subject is the root of a document.
pub open spec fn root_line(file_name: Seq<char>) -> Seq<char> {
    line(
        file_subject(file_name),
        IriView::Prefixed { prefix: "rdf"@, local: "type"@ },
        TripleObjectView::IRI(own("DocumentRoot"@)),
    )
}

/// Converts one document: writes the statement that its subject is a
/// document root and then the statements of the document, walked from
/// depth 0, to the worker's output; writes the failures of its attributes
/// to the error log; and folds the greatest depth seen into the worker's.
pub fn convert_document(
    triple_writer: &mut TripleWriter,
    error_writer: &mut String,
    allocator: &mut BlankNodeAllocator,
    document: &DocumentNode,
    file_name: &str,
    config: &Config,
)
    ensures
        ({
            let out = node_outcome(
                file_name@,
                config,
                file_subject(file_name@),
                document,
                0,
                Sinks {
                    triples: root_line(file_name@),
                    errors: old(error_writer)@,
                    issued: old(allocator).issued(),
                },
            );
            &&& final(triple_writer).pending() == old(triple_writer).pending() + out.sinks.triples
            &&& final(error_writer)@ == out.sinks.errors
            &&& final(allocator).issued() == out.sinks.issued
            &&& final(triple_writer).depth() == if out.max_depth > old(triple_writer).depth() {
                out.max_depth
            } else {
                old(triple_writer).depth()
            }
        }),
{
    let subject = IRI::prefix("dicom2rdf", file_name);
    let kind = IRI::prefix("rdf", "type");
    let root = TripleObject::from(IRI::prefix("dicom2rdf", "DocumentRoot"));
    let mut buffer = triple(&subject, &kind, &root).to_string();
    push_char(&mut buffer, '\n');
    assert(buffer@ =~= root_line(file_name@));
    let (_, max_depth) = write_triples(
        &mut buffer,
        error_writer,
        allocator,
        &subject,
        document,
        file_name,
        config,
        0,
    );
    triple_writer.record_depth(max_depth);
    triple_writer.write(buffer.as_str());
}

/// What a file is taken for, by its name.
#[derive(Clone, Copy, Debug, PartialEq, Eq)]
pub enum InputKind {
    /// A document, with the extension `dcm`.
    Document,
    /// A compressed archive of one document, with the extension `zst`.
    Archive,
}

/// The extension of a file name: what follows its last dot, where that dot
/// is not its first character.
pub open spec fn extension_of(name: Seq<char>) -> Option<Seq<char>>
    decreases name.len(),
{
    if name.len() <= 1 {
        None
    } else if name.last() == '.' {
        Some(Seq::empty())
    } else {
        match extension_of(name.drop_last()) {
            Some(e) => Some(e.push(name.last())),
            None => None,
        }
    }
}

/// What a file name is taken for: a document or an archive by its
/// extension, and nothing with any other.
pub open spec fn kind_of(name: Seq<char>) -> Option<InputKind> {
    if extension_of(name) == Some("dcm"@) {
        Some(InputKind::Document)
    } else if extension_of(name) == Some("zst"@) {
        Some(InputKind::Archive)
    } else {
        None
    }
}

/// The extension of a file name.
pub fn extension(name: &str) -> (r: Option<String>)
    ensures
        match r {
            Some(e) => extension_of(name@) == Some(e@),
            None => extension_of(name@).is_none(),
        },
{
    let v = chars_of(name);
    let mut i: usize = v.len();
    let mut rev: Vec<char> = Vec::new();
    // Walk back from the end to the last dot.
    while i > 1 && v[i - 1] != '.'
        invariant
            i <= v.len(),
            v@ == name@,
            forall|k: int| i <= k < v.len() ==> v@[k] != '.',
        decreases i,
    {
        i -= 1;
    }
    if i <= 1 {
        proof {
            no_extension(v@, i as int, v@.len() as int);
            assert(v@.take(v@.len() as int) =~= v@);
        }
        return None;
    }
    let mut e = String::new();
    let mut j: usize = i;
    proof {
        extension_from(v@, i as int, i as int);
        assert(v@.subrange(i as int, i as int) =~= Seq::<char>::empty());
    }
    while j < v.len()
        invariant
            2 <= i <= j <= v.len(),
            v@ == name@,
            v@[i - 1] == '.',
            forall|k: int| i <= k < v.len() ==> v@[k] != '.',
            e@ == v@.subrange(i as int, j as int),
            extension_of(v@.take(j as int)) == Some(v@.subrange(i as int, j as int)),
        decreases v.len() - j,
    {
        push_char(&mut e, v[j]);
        j += 1;
        proof {
            extension_from(v@, i as int, j as int);
            assert(e@ =~= v@.subrange(i as int, j as int));
        }
    }
    assert(v@.take(j as int) =~= v@);
    Some(e)
}

/// A name whose characters from `i` to `n` hold no dot, with `i` at most
/// 1, has no extension in its first `n` characters.
proof fn no_extension(s: Seq<char>, i: int, n: int)
    requires
        0 <= i <= 1,
        i <= n <= s.len(),
        forall|k: int| i <= k < n ==> s[k] != '.',
    ensures
        extension_of(s.take(n)).is_none(),
    decreases n,
{
    if n > 1 {
        assert(s.take(n).drop_last() =~= s.take(n - 1));
        no_extension(s, i, n - 1);
    }
}

/// A name with a dot just before `i`, not at its start, and none from `i`
/// to `n`, has the characters from `i` to `n` as the extension of its
/// first `n` characters.
proof fn extension_from(s: Seq<char>, i: int, n: int)
    requires
        2 <= i <= n <= s.len(),
        s[i - 1] == '.',
        forall|k: int| i <= k < n ==> s[k] != '.',
    ensures
        extension_of(s.take(n)) == Some(s.subrange(i, n)),
    decreases n,
{
    if n == i {
        assert(s.take(n).last() == '.');
        assert(s.subrange(i, n) =~= Seq::<char>::empty());
    } else {
        assert(s.take(n).drop_last() =~= s.take(n - 1));
        extension_from(s, i, n - 1);
        assert(s.subrange(i, n - 1).push(s[n - 1]) =~= s.subrange(i, n));
    }
}

/// What a file is taken for, by its name.
pub fn input_kind(file_name: &str) -> (r: Option<InputKind>)
    ensures
        r == kind_of(file_name@),
{
    match extension(file_name) {
        Some(e) => {
            if same_text(e.as_str(), "dcm") {
                Some(InputKind::Document)
            } else if same_text(e.as_str(), "zst") {
                Some(InputKind::Archive)
            } else {
                None
            }
        },
        None => None,
    }
}

/// The name of a worker: `raw-dicom-` and its number in at least three
/// digits.
pub open spec fn worker_name_text(worker: u64) -> Seq<char> {
    "raw-dicom-"@ + padded_decimal(worker as nat, 3)
}

/// The name of a worker.
pub fn worker_name(worker: u64) -> (r: String)
    ensures
        r@ == worker_name_text(worker),
{
    let mut r = String::from_str("raw-dicom-");
    push_padded(&mut r, worker, 3);
    r
}

/// The name of the file that holds a worker's statements.
pub fn output_file_name(worker: u64) -> (r: String)
    ensures
        r@ == worker_name_text(worker) + ".ttl.gz"@,
{
    let mut r = worker_name(worker);
    r.append(".ttl.gz");
    r
}

/// The name of the file that holds a worker's error log.
pub fn error_file_name(worker: u64) -> (r: String)
    ensures
        r@ == worker_name_text(worker) + "-errors.log"@,
{
    let mut r = worker_name(worker);
    r.append("-errors.log");
    r
}

} // verus!
