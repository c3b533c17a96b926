//! IRI validation. The parser must reject `uri` and `datatype` text that is
//! not a valid IRI reference; the check itself is delegated to the `oxiri`
//! crate.

use vstd::prelude::*;

use crate::model::NamedNode;

verus! {

/// Whether `oxiri::IriRef::parse` accepts the text as an RFC 3987 IRI
/// reference. A function of the text alone.
pub uninterp spec fn iri_ok(s: Seq<char>) -> bool;

/// Relies on `oxiri::IriRef::parse` to validate the text as an IRI
/// reference; parsing keeps the text itself and only checks it.
#[verifier::external_body]
fn check_iri(s: &str) -> (r: bool)
    ensures
        r == iri_ok(s@),
{
    oxiri::IriRef::parse(s).is_ok()
}

/// Validates `text` as an IRI reference and wraps it as a named node;
/// `None` exactly when the text is not a valid IRI reference.
pub fn parse_named_node(text: &String) -> (r: Option<NamedNode>)
    ensures
        r is Some <==> iri_ok(text@),
        r matches Some(n) ==> n.iri@ == text@,
{
    if check_iri(text.as_str()) {
        Some(NamedNode { iri: text.clone() })
    } else {
        None
    }
}

} // verus!
