//! Error taxonomy. Writing fails with a per-format `SerializeError` carrying
//! the backing encoder's message. Parsing fails with a
//! `MalformedResultsDocument`, one variant per way a document can violate the
//! results vocabulary; every parse error is fatal for the whole parse.

use vstd::prelude::*;

verus! {

/// A failure while constructing, feeding or finishing a writer, one variant
/// per backing format, carrying the encoder's own message.
#[derive(Debug, Clone, PartialEq, Eq)]
pub enum SerializeError {
    NTriples(String),
    Turtle(String),
    RdfXml(String),
    NQuads(String),
    TriG(String),
}

/// A fatal violation found while parsing a SPARQL XML results document.
/// The payload, where present, is the offending tag name, attribute value or
/// text.
#[derive(Debug, Clone, PartialEq, Eq)]
pub enum MalformedResultsDocument {
    /// A tag that the current parse state does not allow.
    UnexpectedTag(String),
    /// A `variable` or `link` element in the head that is not self-closing.
    MustBeSelfClosing(String),
    /// An element outside the fixed results-vocabulary namespace.
    UnexpectedNamespace(String),
    /// End of input in a state where the document cannot end.
    IncompleteDocument,
    /// Text content where none is allowed.
    UnexpectedText(String),
    /// Text inside `boolean` that is neither `true` nor `false`.
    InvalidBooleanValue(String),
    /// A `variable` element without a `name` attribute.
    MissingVariableName,
    /// A `binding` element without a `name` attribute.
    MissingBindingName,
    /// A `binding` naming a variable absent from the declared list.
    UnknownVariable(String),
    /// A second value element inside one `binding`.
    DuplicateBindingValue(String),
    /// A `binding` closed without any value element.
    MissingBindingValue,
    /// A `uri` or `datatype` text that is not a valid IRI.
    InvalidIri(String),
    /// A tag shape the row grammar does not allow at all.
    UnexpectedStructure(String),
    /// The underlying XML source could not be tokenized further.
    SourceError(String),
}

} // verus!
