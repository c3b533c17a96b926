//! Serialization boundary of an RDF/SPARQL engine: streaming writers that
//! turn triples and quads into the standard textual formats, and a streaming
//! state-machine parser that recovers variable bindings or a boolean answer
//! from a SPARQL XML results document.

pub mod bnode;
pub mod error;
pub mod header;
pub mod iri;
pub mod model;
pub mod results;
pub mod rows;
pub mod write;
pub mod xml;
