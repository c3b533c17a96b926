//! Streaming writers for RDF graphs and datasets. The format set is closed:
//! N-Triples, Turtle and RDF/XML for graphs; N-Quads and TriG for datasets.
//! The per-format byte-level encoders come from the `rio_turtle` and
//! `rio_xml` crates; this layer dispatches over the closed set, feeds the
//! chosen encoder one statement per write, and finishes it exactly once,
//! returning the encoder's complete document for the statements written.

use vstd::prelude::*;

use crate::error::SerializeError;
use crate::model::{GraphName, Literal, NamedOrBlankNode, Quad, Term, Triple};
use rio_api::formatter::{QuadsFormatter, TriplesFormatter};
use rio_api::model::Literal as RioLiteral;
use rio_api::model::Quad as RioQuad;
use rio_api::model::Subject as RioSubject;
use rio_api::model::Term as RioTerm;
use rio_api::model::Triple as RioTriple;

verus! {

#[verifier::external_type_specification]
#[verifier::external_body]
pub struct ExRioSubject<'a>(RioSubject<'a>);

#[verifier::external_type_specification]
#[verifier::external_body]
pub struct ExRioLiteral<'a>(RioLiteral<'a>);

#[verifier::external_type_specification]
#[verifier::external_body]
pub struct ExRioTerm<'a>(RioTerm<'a>);

#[verifier::external_type_specification]
#[verifier::external_body]
pub struct ExRioTriple<'a>(RioTriple<'a>);

#[verifier::external_type_specification]
#[verifier::external_body]
pub struct ExRioQuad<'a>(RioQuad<'a>);

/// An N-Triples encoder over an owned byte buffer. The field is opaque to
/// verification; the trusted operations below carry its contract.
#[verifier::external_body]
pub struct NtEncoder {
    inner: rio_turtle::NTriplesFormatter<Vec<u8>>,
}

/// A Turtle encoder over an owned byte buffer, opaque to verification.
#[verifier::external_body]
pub struct TtlEncoder {
    inner: rio_turtle::TurtleFormatter<Vec<u8>>,
}

/// An RDF/XML encoder over an owned byte buffer, opaque to verification.
#[verifier::external_body]
pub struct XmlEncoder {
    inner: rio_xml::RdfXmlFormatter<Vec<u8>>,
}

/// An N-Quads encoder over an owned byte buffer, opaque to verification.
#[verifier::external_body]
pub struct NqEncoder {
    inner: rio_turtle::NQuadsFormatter<Vec<u8>>,
}

/// A TriG encoder over an owned byte buffer, opaque to verification.
#[verifier::external_body]
pub struct TrigEncoder {
    inner: rio_turtle::TriGFormatter<Vec<u8>>,
}

/// Converts a subject into the `rio_api` model shape, borrowing its text.
#[verifier::external_body]
fn subject_to_rio<'a>(s: &'a NamedOrBlankNode) -> (r: RioSubject<'a>) {
    match s {
        NamedOrBlankNode::Named(n) => rio_api::model::NamedNode { iri: &n.iri }.into(),
        NamedOrBlankNode::Blank(b) => rio_api::model::BlankNode { id: &b.id }.into(),
    }
}

/// Converts a literal into the `rio_api` model shape, borrowing its text.
#[verifier::external_body]
fn literal_to_rio<'a>(l: &'a Literal) -> (r: RioLiteral<'a>) {
    match l {
        Literal::Simple { value } => RioLiteral::Simple { value: value.as_str() },
        Literal::LanguageTagged { value, language } => RioLiteral::LanguageTaggedString {
            value: value.as_str(),
            language: language.as_str(),
        },
        Literal::Typed { value, datatype } => RioLiteral::Typed {
            value: value.as_str(),
            datatype: rio_api::model::NamedNode { iri: &datatype.iri },
        },
    }
}

/// Converts a term into the `rio_api` model shape, borrowing its text.
#[verifier::external_body]
fn term_to_rio<'a>(t: &'a Term) -> (r: RioTerm<'a>) {
    match t {
        Term::Named(n) => rio_api::model::NamedNode { iri: &n.iri }.into(),
        Term::Blank(b) => rio_api::model::BlankNode { id: &b.id }.into(),
        Term::Literal(l) => literal_to_rio(l).into(),
    }
}

/// Converts a triple into the `rio_api` model shape, borrowing its text.
#[verifier::external_body]
fn triple_to_rio<'a>(t: &'a Triple) -> (r: RioTriple<'a>) {
    RioTriple {
        subject: subject_to_rio(&t.subject),
        predicate: rio_api::model::NamedNode { iri: &t.predicate.iri },
        object: term_to_rio(&t.object),
    }
}

/// Converts a quad into the `rio_api` model shape, borrowing its text.
#[verifier::external_body]
fn quad_to_rio<'a>(q: &'a Quad) -> (r: RioQuad<'a>) {
    RioQuad {
        subject: subject_to_rio(&q.subject),
        predicate: rio_api::model::NamedNode { iri: &q.predicate.iri },
        object: term_to_rio(&q.object),
        graph_name: match &q.graph_name {
            GraphName::Named(n) => Some(rio_api::model::NamedNode { iri: &n.iri }.into()),
            GraphName::Blank(b) => Some(rio_api::model::BlankNode { id: &b.id }.into()),
            GraphName::DefaultGraph => None,
        },
    }
}

/// The triples an N-Triples encoder has been fed, in order.
pub uninterp spec fn nt_contents(f: NtEncoder) -> Seq<Triple>;

/// The encoded statement line one N-Triples `format` call appends for this
/// triple. A function of the triple alone.
pub uninterp spec fn nt_stmt(t: Triple) -> Seq<u8>;

/// The chunks concatenated in order.
pub open spec fn concat_all(ss: Seq<Seq<u8>>) -> Seq<u8>
    decreases ss.len(),
{
    if ss.len() == 0 {
        Seq::empty()
    } else {
        ss[0] + concat_all(ss.drop_first())
    }
}

/// The complete N-Triples document for these triples: one encoded statement
/// line per triple, in order.
pub open spec fn nt_doc(ts: Seq<Triple>) -> Seq<u8> {
    concat_all(ts.map_values(|t: Triple| nt_stmt(t)))
}

/// How many line-feed bytes the sequence holds.
pub open spec fn newline_count(s: Seq<u8>) -> nat
    decreases s.len(),
{
    if s.len() == 0 {
        0
    } else {
        newline_count(s.drop_first()) + (if s[0] == 10u8 {
            1nat
        } else {
            0nat
        })
    }
}

/// The subject's text holds no line feed.
pub open spec fn subject_clean(s: NamedOrBlankNode) -> bool {
    match s {
        NamedOrBlankNode::Named(n) => !n.iri@.contains('\n'),
        NamedOrBlankNode::Blank(b) => !b.id@.contains('\n'),
    }
}

/// The term's unescaped text positions hold no line feed. Literal values are
/// escaped by the encoder and may hold anything.
pub open spec fn term_clean(t: Term) -> bool {
    match t {
        Term::Named(n) => !n.iri@.contains('\n'),
        Term::Blank(b) => !b.id@.contains('\n'),
        Term::Literal(l) => match l {
            Literal::Simple { value: _ } => true,
            Literal::LanguageTagged { value: _, language } => !language@.contains('\n'),
            Literal::Typed { value: _, datatype } => !datatype.iri@.contains('\n'),
        },
    }
}

/// No position the N-Triples encoder writes unescaped holds a line feed.
pub open spec fn triple_clean(t: Triple) -> bool {
    subject_clean(t.subject) && !t.predicate.iri@.contains('\n') && term_clean(t.object)
}

/// No position the N-Quads encoder writes unescaped holds a line feed.
pub open spec fn quad_clean(q: Quad) -> bool {
    &&& subject_clean(q.subject)
    &&& !q.predicate.iri@.contains('\n')
    &&& term_clean(q.object)
    &&& match q.graph_name {
        GraphName::Named(n) => !n.iri@.contains('\n'),
        GraphName::Blank(b) => !b.id@.contains('\n'),
        GraphName::DefaultGraph => true,
    }
}

/// The encoded statement is a nonempty chunk terminated by a line feed, and
/// for a clean statement the terminator is its only line feed.
pub open spec fn nt_line_fact(t: Triple) -> bool {
    &&& nt_stmt(t).len() > 0
    &&& nt_stmt(t).last() == 10u8
    &&& (triple_clean(t) ==> newline_count(nt_stmt(t)) == 1)
}

/// As `nt_line_fact`, for the N-Quads encoding of a quad.
pub open spec fn nq_line_fact(q: Quad) -> bool {
    &&& nq_stmt(q).len() > 0
    &&& nq_stmt(q).last() == 10u8
    &&& (quad_clean(q) ==> newline_count(nq_stmt(q)) == 1)
}

proof fn lemma_newline_count_concat(a: Seq<u8>, b: Seq<u8>)
    ensures
        newline_count(a + b) == newline_count(a) + newline_count(b),
    decreases a.len(),
{
    if a.len() == 0 {
        assert(a + b =~= b);
    } else {
        assert((a + b).drop_first() =~= a.drop_first() + b);
        lemma_newline_count_concat(a.drop_first(), b);
    }
}

proof fn lemma_one_line_per_chunk(ss: Seq<Seq<u8>>)
    requires
        forall|i: int| 0 <= i < ss.len() ==> newline_count(#[trigger] ss[i]) == 1,
    ensures
        newline_count(concat_all(ss)) == ss.len(),
    decreases ss.len(),
{
    if ss.len() > 0 {
        lemma_newline_count_concat(ss[0], concat_all(ss.drop_first()));
        lemma_one_line_per_chunk(ss.drop_first());
    }
}

proof fn lemma_concat_terminated(ss: Seq<Seq<u8>>)
    requires
        forall|i: int| 0 <= i < ss.len() ==> (#[trigger] ss[i]).len() > 0 && ss[i].last() == 10u8,
        ss.len() > 0,
    ensures
        concat_all(ss).len() > 0,
        concat_all(ss).last() == 10u8,
    decreases ss.len(),
{
    if ss.len() == 1 {
        assert(concat_all(ss.drop_first()) =~= Seq::<u8>::empty());
        assert(concat_all(ss) =~= ss[0]);
    } else {
        lemma_concat_terminated(ss.drop_first());
    }
}

/// Law: an N-Triples document written for clean triples is line-shaped — it
/// holds exactly one line-feed byte per triple written, and, when any triple
/// was written, it ends with one.
pub proof fn lemma_ntriples_one_line_per_statement(ts: Seq<Triple>)
    requires
        forall|i: int| 0 <= i < ts.len() ==> triple_clean(#[trigger] ts[i]) && nt_line_fact(
            ts[i],
        ),
    ensures
        newline_count(nt_doc(ts)) == ts.len(),
        ts.len() > 0 ==> nt_doc(ts).last() == 10u8,
{
    let ss = ts.map_values(|t: Triple| nt_stmt(t));
    assert forall|i: int| 0 <= i < ss.len() implies newline_count(#[trigger] ss[i]) == 1 by {
        assert(ss[i] == nt_stmt(ts[i]));
    }
    lemma_one_line_per_chunk(ss);
    if ts.len() > 0 {
        assert forall|i: int|
            0 <= i < ss.len() implies (#[trigger] ss[i]).len() > 0 && ss[i].last() == 10u8 by {
            assert(ss[i] == nt_stmt(ts[i]));
        }
        lemma_concat_terminated(ss);
    }
}

/// Law: an N-Quads document written for clean quads is line-shaped — it
/// holds exactly one line-feed byte per quad written, and, when any quad was
/// written, it ends with one.
pub proof fn lemma_nquads_one_line_per_statement(qs: Seq<Quad>)
    requires
        forall|i: int| 0 <= i < qs.len() ==> quad_clean(#[trigger] qs[i]) && nq_line_fact(qs[i]),
    ensures
        newline_count(nq_doc(qs)) == qs.len(),
        qs.len() > 0 ==> nq_doc(qs).last() == 10u8,
{
    let ss = qs.map_values(|q: Quad| nq_stmt(q));
    assert forall|i: int| 0 <= i < ss.len() implies newline_count(#[trigger] ss[i]) == 1 by {
        assert(ss[i] == nq_stmt(qs[i]));
    }
    lemma_one_line_per_chunk(ss);
    if qs.len() > 0 {
        assert forall|i: int|
            0 <= i < ss.len() implies (#[trigger] ss[i]).len() > 0 && ss[i].last() == 10u8 by {
            assert(ss[i] == nq_stmt(qs[i]));
        }
        lemma_concat_terminated(ss);
    }
}

/// The triples a Turtle encoder has been fed, in order.
pub uninterp spec fn ttl_contents(f: TtlEncoder) -> Seq<Triple>;

/// The complete Turtle document the encoder emits for these triples.
pub uninterp spec fn ttl_doc(ts: Seq<Triple>) -> Seq<u8>;

/// The triples an RDF/XML encoder has been fed, in order.
pub uninterp spec fn xml_contents(f: XmlEncoder) -> Seq<Triple>;

/// The complete RDF/XML document the encoder emits for these triples.
pub uninterp spec fn xml_doc(ts: Seq<Triple>) -> Seq<u8>;

/// The quads an N-Quads encoder has been fed, in order.
pub uninterp spec fn nq_contents(f: NqEncoder) -> Seq<Quad>;

/// The encoded statement line one N-Quads `format` call appends for this
/// quad. A function of the quad alone.
pub uninterp spec fn nq_stmt(q: Quad) -> Seq<u8>;

/// The complete N-Quads document for these quads: one encoded statement line
/// per quad, in order.
pub open spec fn nq_doc(qs: Seq<Quad>) -> Seq<u8> {
    concat_all(qs.map_values(|q: Quad| nq_stmt(q)))
}

/// The quads a TriG encoder has been fed, in order.
pub uninterp spec fn trig_contents(f: TrigEncoder) -> Seq<Quad>;

/// The complete TriG document the encoder emits for these quads.
pub uninterp spec fn trig_doc(qs: Seq<Quad>) -> Seq<u8>;

/// Relies on `rio_turtle::NTriplesFormatter::new`: a fresh encoder over an
/// empty buffer has been fed nothing.
#[verifier::external_body]
fn nt_new() -> (f: NtEncoder)
    ensures
        nt_contents(f) == Seq::<Triple>::empty(),
{
    NtEncoder { inner: rio_turtle::NTriplesFormatter::new(Vec::new()) }
}

/// Relies on `rio_turtle::NTriplesFormatter::format` (through
/// `TriplesFormatter`): the call appends one statement line to the owned
/// byte buffer, which cannot fail, so the call succeeds and the encoder has
/// been fed one more triple.
#[verifier::external_body]
fn nt_format(f: &mut NtEncoder, t: &Triple) -> (r: Result<
    (),
    SerializeError,
>)
    ensures
        r is Ok,
        nt_contents(*final(f)) == nt_contents(*old(f)).push(*t),
        r is Ok ==> nt_stmt(*t).len() > 0 && nt_line_fact(*t),
{
    match f.inner.format(&triple_to_rio(t)) {
        Ok(()) => Ok(()),
        Err(e) => Err(SerializeError::NTriples(format!("{}", e))),
    }
}

/// Relies on `rio_turtle::NTriplesFormatter::finish`: flushing the owned
/// byte buffer cannot fail, so the call succeeds and the buffer holds the
/// concatenation of the statement lines fed, and nothing else.
#[verifier::external_body]
fn nt_finish(f: NtEncoder) -> (r: Result<Vec<u8>, SerializeError>)
    ensures
        r is Ok,
        r matches Ok(v) ==> v@ == nt_doc(nt_contents(f)),
{
    match f.inner.finish() {
        Ok(v) => Ok(v),
        Err(e) => Err(SerializeError::NTriples(format!("{}", e))),
    }
}

/// Relies on `rio_turtle::TurtleFormatter::new`: a fresh encoder over an
/// empty buffer has been fed nothing.
#[verifier::external_body]
fn ttl_new() -> (f: TtlEncoder)
    ensures
        ttl_contents(f) == Seq::<Triple>::empty(),
{
    TtlEncoder { inner: rio_turtle::TurtleFormatter::new(Vec::new()) }
}

/// Relies on `rio_turtle::TurtleFormatter::format` (through
/// `TriplesFormatter`): the call writes into the owned byte buffer, which
/// cannot fail, so the call succeeds and the encoder has been fed one more
/// triple.
#[verifier::external_body]
fn ttl_format(f: &mut TtlEncoder, t: &Triple) -> (r: Result<
    (),
    SerializeError,
>)
    ensures
        r is Ok,
        ttl_contents(*final(f)) == ttl_contents(*old(f)).push(*t),
{
    match f.inner.format(&triple_to_rio(t)) {
        Ok(()) => Ok(()),
        Err(e) => Err(SerializeError::Turtle(format!("{}", e))),
    }
}

/// Relies on `rio_turtle::TurtleFormatter::finish`: it writes any trailing
/// bytes into the owned byte buffer, which cannot fail, so the call succeeds
/// and the buffer holds the complete document for the triples fed.
#[verifier::external_body]
fn ttl_finish(f: TtlEncoder) -> (r: Result<Vec<u8>, SerializeError>)
    ensures
        r is Ok,
        r matches Ok(v) ==> v@ == ttl_doc(ttl_contents(f)),
{
    match f.inner.finish() {
        Ok(v) => Ok(v),
        Err(e) => Err(SerializeError::Turtle(format!("{}", e))),
    }
}

/// Relies on `rio_xml::RdfXmlFormatter::new`: construction writes the XML
/// prologue and the root element into the owned byte buffer, which cannot
/// fail, so construction succeeds and the encoder has been fed nothing.
#[verifier::external_body]
fn xml_new() -> (r: Result<XmlEncoder, SerializeError>)
    ensures
        r is Ok,
        r matches Ok(f) ==> xml_contents(f) == Seq::<Triple>::empty(),
{
    match rio_xml::RdfXmlFormatter::new(Vec::new()) {
        Ok(f) => Ok(XmlEncoder { inner: f }),
        Err(e) => Err(SerializeError::RdfXml(format!("{}", e))),
    }
}

/// Relies on `rio_xml::RdfXmlFormatter::format` (through
/// `TriplesFormatter`): writing into the owned byte buffer cannot fail, and
/// the invalid-input arms are for embedded-triple subjects and objects,
/// which this crate's term model cannot produce; the call succeeds and the
/// encoder has been fed one more triple.
#[verifier::external_body]
fn xml_format(f: &mut XmlEncoder, t: &Triple) -> (r: Result<
    (),
    SerializeError,
>)
    ensures
        r is Ok,
        xml_contents(*final(f)) == xml_contents(*old(f)).push(*t),
{
    match f.inner.format(&triple_to_rio(t)) {
        Ok(()) => Ok(()),
        Err(e) => Err(SerializeError::RdfXml(format!("{}", e))),
    }
}

/// Relies on `rio_xml::RdfXmlFormatter::finish`: it closes any open
/// description and the root element in the owned byte buffer, which cannot
/// fail, so the call succeeds and the buffer holds the complete document for
/// the triples fed.
#[verifier::external_body]
fn xml_finish(f: XmlEncoder) -> (r: Result<Vec<u8>, SerializeError>)
    ensures
        r is Ok,
        r matches Ok(v) ==> v@ == xml_doc(xml_contents(f)),
{
    match f.inner.finish() {
        Ok(v) => Ok(v),
        Err(e) => Err(SerializeError::RdfXml(format!("{}", e))),
    }
}

/// Relies on `rio_turtle::NQuadsFormatter::new`: a fresh encoder over an
/// empty buffer has been fed nothing.
#[verifier::external_body]
fn nq_new() -> (f: NqEncoder)
    ensures
        nq_contents(f) == Seq::<Quad>::empty(),
{
    NqEncoder { inner: rio_turtle::NQuadsFormatter::new(Vec::new()) }
}

/// Relies on `rio_turtle::NQuadsFormatter::format` (through
/// `QuadsFormatter`): the call appends one statement line to the owned byte
/// buffer, which cannot fail, so the call succeeds and the encoder has been
/// fed one more quad.
#[verifier::external_body]
fn nq_format(f: &mut NqEncoder, q: &Quad) -> (r: Result<
    (),
    SerializeError,
>)
    ensures
        r is Ok,
        nq_contents(*final(f)) == nq_contents(*old(f)).push(*q),
        r is Ok ==> nq_stmt(*q).len() > 0 && nq_line_fact(*q),
{
    match f.inner.format(&quad_to_rio(q)) {
        Ok(()) => Ok(()),
        Err(e) => Err(SerializeError::NQuads(format!("{}", e))),
    }
}

/// Relies on `rio_turtle::NQuadsFormatter::finish`: flushing the owned byte
/// buffer cannot fail, so the call succeeds and the buffer holds the
/// concatenation of the statement lines fed, and nothing else.
#[verifier::external_body]
fn nq_finish(f: NqEncoder) -> (r: Result<Vec<u8>, SerializeError>)
    ensures
        r is Ok,
        r matches Ok(v) ==> v@ == nq_doc(nq_contents(f)),
{
    match f.inner.finish() {
        Ok(v) => Ok(v),
        Err(e) => Err(SerializeError::NQuads(format!("{}", e))),
    }
}

/// Relies on `rio_turtle::TriGFormatter::new`: a fresh encoder over an empty
/// buffer has been fed nothing.
#[verifier::external_body]
fn trig_new() -> (f: TrigEncoder)
    ensures
        trig_contents(f) == Seq::<Quad>::empty(),
{
    TrigEncoder { inner: rio_turtle::TriGFormatter::new(Vec::new()) }
}

/// Relies on `rio_turtle::TriGFormatter::format` (through `QuadsFormatter`):
/// the call writes into the owned byte buffer, which cannot fail, so the
/// call succeeds and the encoder has been fed one more quad.
#[verifier::external_body]
fn trig_format(f: &mut TrigEncoder, q: &Quad) -> (r: Result<
    (),
    SerializeError,
>)
    ensures
        r is Ok,
        trig_contents(*final(f)) == trig_contents(*old(f)).push(*q),
{
    match f.inner.format(&quad_to_rio(q)) {
        Ok(()) => Ok(()),
        Err(e) => Err(SerializeError::TriG(format!("{}", e))),
    }
}

/// Relies on `rio_turtle::TriGFormatter::finish`: it closes any open graph
/// block in the owned byte buffer, which cannot fail, so the call succeeds
/// and the buffer holds the complete document for the quads fed.
#[verifier::external_body]
fn trig_finish(f: TrigEncoder) -> (r: Result<Vec<u8>, SerializeError>)
    ensures
        r is Ok,
        r matches Ok(v) ==> v@ == trig_doc(trig_contents(f)),
{
    match f.inner.finish() {
        Ok(v) => Ok(v),
        Err(e) => Err(SerializeError::TriG(format!("{}", e))),
    }
}

/// The closed set of RDF graph serialization formats.
#[derive(PartialEq, Eq, Structural, Clone, Copy, Debug)]
pub enum GraphSyntax {
    NTriples,
    Turtle,
    RdfXml,
}

/// The closed set of RDF dataset serialization formats.
#[derive(PartialEq, Eq, Structural, Clone, Copy, Debug)]
pub enum DatasetSyntax {
    NQuads,
    TriG,
}

/// The complete document the chosen graph encoder emits for these triples.
pub open spec fn graph_doc(s: GraphSyntax, ts: Seq<Triple>) -> Seq<u8> {
    match s {
        GraphSyntax::NTriples => nt_doc(ts),
        GraphSyntax::Turtle => ttl_doc(ts),
        GraphSyntax::RdfXml => xml_doc(ts),
    }
}

/// The complete document the chosen dataset encoder emits for these quads.
pub open spec fn dataset_doc(s: DatasetSyntax, qs: Seq<Quad>) -> Seq<u8> {
    match s {
        DatasetSyntax::NQuads => nq_doc(qs),
        DatasetSyntax::TriG => trig_doc(qs),
    }
}

/// A writing failure carries the variant of the format it came from.
pub open spec fn graph_err_for(s: GraphSyntax, e: SerializeError) -> bool {
    match s {
        GraphSyntax::NTriples => e is NTriples,
        GraphSyntax::Turtle => e is Turtle,
        GraphSyntax::RdfXml => e is RdfXml,
    }
}

/// A writing failure carries the variant of the format it came from.
pub open spec fn dataset_err_for(s: DatasetSyntax, e: SerializeError) -> bool {
    match s {
        DatasetSyntax::NQuads => e is NQuads,
        DatasetSyntax::TriG => e is TriG,
    }
}

/// A serializer for RDF graph formats: a chosen syntax from the closed set,
/// from which triple writers are built.
pub struct GraphSerializer {
    syntax: GraphSyntax,
}

enum TripleWriterKind {
    NTriples(NtEncoder),
    Turtle(TtlEncoder),
    RdfXml(XmlEncoder),
}

/// Writes triples into an owned byte buffer through the chosen encoder.
/// Move-only: `finish` consumes the writer and must be called exactly once
/// to obtain the complete document.
#[must_use]
pub struct TripleWriter {
    kind: TripleWriterKind,
}

impl GraphSerializer {
    pub closed spec fn syntax(self) -> GraphSyntax {
        self.syntax
    }

    pub fn from_syntax(syntax: GraphSyntax) -> (r: Self)
        ensures
            r.syntax() == syntax,
    {
        GraphSerializer { syntax }
    }

    /// Builds a writer for the chosen syntax over a fresh owned buffer;
    /// construction always succeeds (for RDF/XML it emits the prologue into
    /// that buffer).
    pub fn triple_writer(&self) -> (r: Result<TripleWriter, SerializeError>)
        ensures
            r is Ok,
            r matches Ok(w) ==> w.syntax() == self.syntax() && w.written() == Seq::<
                Triple,
            >::empty(),
    {
        match self.syntax {
            GraphSyntax::NTriples => Ok(TripleWriter { kind: TripleWriterKind::NTriples(nt_new()) }),
            GraphSyntax::Turtle => Ok(TripleWriter { kind: TripleWriterKind::Turtle(ttl_new()) }),
            GraphSyntax::RdfXml => match xml_new() {
                Ok(f) => Ok(TripleWriter { kind: TripleWriterKind::RdfXml(f) }),
                Err(e) => Err(e),
            },
        }
    }
}

impl TripleWriter {
    pub closed spec fn syntax(self) -> GraphSyntax {
        match self.kind {
            TripleWriterKind::NTriples(_) => GraphSyntax::NTriples,
            TripleWriterKind::Turtle(_) => GraphSyntax::Turtle,
            TripleWriterKind::RdfXml(_) => GraphSyntax::RdfXml,
        }
    }

    /// The triples written so far, in order.
    pub closed spec fn written(self) -> Seq<Triple> {
        match self.kind {
            TripleWriterKind::NTriples(f) => nt_contents(f),
            TripleWriterKind::Turtle(f) => ttl_contents(f),
            TripleWriterKind::RdfXml(f) => xml_contents(f),
        }
    }

    /// Writes one triple through the active encoder. Each call is
    /// self-contained and succeeds: exactly this triple has been appended to
    /// the written sequence.
    pub fn write(&mut self, triple: &Triple) -> (r: Result<(), SerializeError>)
        ensures
            r is Ok,
            final(self).syntax() == old(self).syntax(),
            final(self).written() == old(self).written().push(*triple),
            old(self).syntax() is NTriples ==> nt_line_fact(*triple),
    {
        match &mut self.kind {
            TripleWriterKind::NTriples(f) => nt_format(f, triple),
            TripleWriterKind::Turtle(f) => ttl_format(f, triple),
            TripleWriterKind::RdfXml(f) => xml_format(f, triple),
        }
    }

    /// Consumes the writer, flushes the encoder's closing bytes, and returns
    /// the complete document: exactly the chosen encoder's serialization of
    /// the written triples. It always succeeds.
    pub fn finish(self) -> (r: Result<Vec<u8>, SerializeError>)
        ensures
            r is Ok,
            r matches Ok(v) ==> v@ == graph_doc(self.syntax(), self.written()),
    {
        match self.kind {
            TripleWriterKind::NTriples(f) => nt_finish(f),
            TripleWriterKind::Turtle(f) => ttl_finish(f),
            TripleWriterKind::RdfXml(f) => xml_finish(f),
        }
    }
}

/// A serializer for RDF dataset formats: a chosen syntax from the closed
/// set, from which quad writers are built.
pub struct DatasetSerializer {
    syntax: DatasetSyntax,
}

enum QuadWriterKind {
    NQuads(NqEncoder),
    TriG(TrigEncoder),
}

/// Writes quads into an owned byte buffer through the chosen encoder.
/// Move-only: `finish` consumes the writer and must be called exactly once
/// to obtain the complete document.
#[must_use]
pub struct QuadWriter {
    kind: QuadWriterKind,
}

impl DatasetSerializer {
    pub closed spec fn syntax(self) -> DatasetSyntax {
        self.syntax
    }

    pub fn from_syntax(syntax: DatasetSyntax) -> (r: Self)
        ensures
            r.syntax() == syntax,
    {
        DatasetSerializer { syntax }
    }

    /// Builds a writer for the chosen syntax over a fresh owned buffer;
    /// construction always succeeds.
    pub fn quad_writer(&self) -> (r: Result<QuadWriter, SerializeError>)
        ensures
            r matches Ok(w) ==> w.syntax() == self.syntax() && w.written() == Seq::<Quad>::empty(),
            r is Ok,
    {
        match self.syntax {
            DatasetSyntax::NQuads => Ok(QuadWriter { kind: QuadWriterKind::NQuads(nq_new()) }),
            DatasetSyntax::TriG => Ok(QuadWriter { kind: QuadWriterKind::TriG(trig_new()) }),
        }
    }
}

impl QuadWriter {
    pub closed spec fn syntax(self) -> DatasetSyntax {
        match self.kind {
            QuadWriterKind::NQuads(_) => DatasetSyntax::NQuads,
            QuadWriterKind::TriG(_) => DatasetSyntax::TriG,
        }
    }

    /// The quads written so far, in order.
    pub closed spec fn written(self) -> Seq<Quad> {
        match self.kind {
            QuadWriterKind::NQuads(f) => nq_contents(f),
            QuadWriterKind::TriG(f) => trig_contents(f),
        }
    }

    /// Writes one quad through the active encoder. Each call is
    /// self-contained and succeeds: exactly this quad has been appended to
    /// the written sequence.
    pub fn write(&mut self, quad: &Quad) -> (r: Result<(), SerializeError>)
        ensures
            r is Ok,
            final(self).syntax() == old(self).syntax(),
            final(self).written() == old(self).written().push(*quad),
            old(self).syntax() is NQuads ==> nq_line_fact(*quad),
    {
        match &mut self.kind {
            QuadWriterKind::NQuads(f) => nq_format(f, quad),
            QuadWriterKind::TriG(f) => trig_format(f, quad),
        }
    }

    /// Consumes the writer, flushes the encoder's closing bytes, and returns
    /// the complete document: exactly the chosen encoder's serialization of
    /// the written quads. It always succeeds.
    pub fn finish(self) -> (r: Result<Vec<u8>, SerializeError>)
        ensures
            r is Ok,
            r matches Ok(v) ==> v@ == dataset_doc(self.syntax(), self.written()),
    {
        match self.kind {
            QuadWriterKind::NQuads(f) => nq_finish(f),
            QuadWriterKind::TriG(f) => trig_finish(f),
        }
    }
}

} // verus!
