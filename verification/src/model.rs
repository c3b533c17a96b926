//! The term model: IRIs, blank nodes, literals, triples and quads, and the
//! query variables that result rows are indexed by.

use vstd::prelude::*;

verus! {

/// An IRI reference, held as text.
#[derive(Debug, Clone, PartialEq, Eq)]
pub struct NamedNode {
    pub iri: String,
}

/// A blank node, identified by a document- or session-local label.
/// Labels are never compared across sessions.
#[derive(Debug, Clone, PartialEq, Eq)]
pub struct BlankNode {
    pub id: String,
}

/// A literal value: plain text, language-tagged text, or text tagged with a
/// datatype IRI.
#[derive(Debug, Clone, PartialEq, Eq)]
pub enum Literal {
    Simple { value: String },
    LanguageTagged { value: String, language: String },
    Typed { value: String, datatype: NamedNode },
}

/// A subject or graph-name position restricted to IRIs and blank nodes.
#[derive(Debug, Clone, PartialEq, Eq)]
pub enum NamedOrBlankNode {
    Named(NamedNode),
    Blank(BlankNode),
}

/// Any RDF term.
#[derive(Debug, Clone, PartialEq, Eq)]
pub enum Term {
    Named(NamedNode),
    Blank(BlankNode),
    Literal(Literal),
}

/// The graph position of a quad: a named graph, a blank-node graph, or the
/// default graph.
#[derive(Debug, Clone, PartialEq, Eq)]
pub enum GraphName {
    Named(NamedNode),
    Blank(BlankNode),
    DefaultGraph,
}

/// A subject-predicate-object statement.
#[derive(Debug, Clone, PartialEq, Eq)]
pub struct Triple {
    pub subject: NamedOrBlankNode,
    pub predicate: NamedNode,
    pub object: Term,
}

/// A triple together with the graph it belongs to.
#[derive(Debug, Clone, PartialEq, Eq)]
pub struct Quad {
    pub subject: NamedOrBlankNode,
    pub predicate: NamedNode,
    pub object: Term,
    pub graph_name: GraphName,
}

/// The mathematical shape of a literal: its text together with its tag.
pub enum LiteralModel {
    Simple { value: Seq<char> },
    LanguageTagged { value: Seq<char>, language: Seq<char> },
    Typed { value: Seq<char>, datatype: Seq<char> },
}

/// The mathematical shape of a term: an IRI, a blank node identity, or a
/// literal.
pub enum TermModel {
    Named(Seq<char>),
    Blank(Seq<char>),
    Literal(LiteralModel),
}

impl View for NamedNode {
    type V = Seq<char>;

    open spec fn view(&self) -> Seq<char> {
        self.iri@
    }
}

impl View for BlankNode {
    type V = Seq<char>;

    open spec fn view(&self) -> Seq<char> {
        self.id@
    }
}

impl View for Literal {
    type V = LiteralModel;

    open spec fn view(&self) -> LiteralModel {
        match self {
            Literal::Simple { value } => LiteralModel::Simple { value: value@ },
            Literal::LanguageTagged { value, language } => LiteralModel::LanguageTagged {
                value: value@,
                language: language@,
            },
            Literal::Typed { value, datatype } => LiteralModel::Typed {
                value: value@,
                datatype: datatype.iri@,
            },
        }
    }
}

impl View for Term {
    type V = TermModel;

    open spec fn view(&self) -> TermModel {
        match self {
            Term::Named(n) => TermModel::Named(n.iri@),
            Term::Blank(b) => TermModel::Blank(b.id@),
            Term::Literal(l) => TermModel::Literal(l@),
        }
    }
}

/// A declared query variable. Its position in the header's declaration order
/// is its stable index for the lifetime of one document.
#[derive(Debug, Clone, PartialEq, Eq)]
pub struct Variable {
    pub name: String,
}

impl Variable {
    pub fn new(name: String) -> (r: Variable)
        ensures
            r.name == name,
    {
        Variable { name }
    }
}

} // verus!
