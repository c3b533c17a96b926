use rdf_io::model::{BlankNode, GraphName, Literal, NamedNode, NamedOrBlankNode, Quad, Term, Triple};
use rdf_io::write::{DatasetSerializer, DatasetSyntax, GraphSerializer, GraphSyntax};
use rio_api::parser::TriplesParser;

fn nn(iri: &str) -> NamedNode {
    NamedNode { iri: iri.to_string() }
}

fn triple(object: Term) -> Triple {
    Triple {
        subject: NamedOrBlankNode::Named(nn("http://example.com/s")),
        predicate: nn("http://example.com/p"),
        object,
    }
}

fn write_ntriples(triples: &[Triple]) -> Vec<u8> {
    let mut w = GraphSerializer::from_syntax(GraphSyntax::NTriples)
        .triple_writer()
        .unwrap();
    for t in triples {
        w.write(t).unwrap();
    }
    w.finish().unwrap()
}

fn parse_ntriples_back(bytes: &[u8]) -> Vec<Triple> {
    let mut out = Vec::new();
    rio_turtle::NTriplesParser::new(bytes)
        .parse_all(&mut |t| {
            let subject = match t.subject {
                rio_api::model::Subject::NamedNode(n) => {
                    NamedOrBlankNode::Named(nn(n.iri))
                }
                rio_api::model::Subject::BlankNode(b) => {
                    NamedOrBlankNode::Blank(BlankNode { id: b.id.to_string() })
                }
                _ => panic!("unexpected subject"),
            };
            let object = match t.object {
                rio_api::model::Term::NamedNode(n) => Term::Named(nn(n.iri)),
                rio_api::model::Term::BlankNode(b) => {
                    Term::Blank(BlankNode { id: b.id.to_string() })
                }
                rio_api::model::Term::Literal(rio_api::model::Literal::Simple { value }) => {
                    Term::Literal(Literal::Simple { value: value.to_string() })
                }
                rio_api::model::Term::Literal(
                    rio_api::model::Literal::LanguageTaggedString { value, language },
                ) => Term::Literal(Literal::LanguageTagged {
                    value: value.to_string(),
                    language: language.to_string(),
                }),
                rio_api::model::Term::Literal(rio_api::model::Literal::Typed {
                    value,
                    datatype,
                }) => Term::Literal(Literal::Typed {
                    value: value.to_string(),
                    datatype: nn(datatype.iri),
                }),
                _ => panic!("unexpected object"),
            };
            out.push(Triple { subject, predicate: nn(t.predicate.iri), object });
            Ok(()) as Result<(), rio_turtle::TurtleError>
        })
        .unwrap();
    out
}

#[test]
fn ntriples_round_trip_plain_literal() {
    let t = triple(Term::Literal(Literal::Simple { value: "foo\nbar".to_string() }));
    let bytes = write_ntriples(std::slice::from_ref(&t));
    assert_eq!(parse_ntriples_back(&bytes), vec![t]);
}

#[test]
fn ntriples_round_trip_language_tagged_literal() {
    let t = triple(Term::Literal(Literal::LanguageTagged {
        value: "hello \"quoted\"".to_string(),
        language: "en".to_string(),
    }));
    let bytes = write_ntriples(std::slice::from_ref(&t));
    assert_eq!(parse_ntriples_back(&bytes), vec![t]);
}

#[test]
fn ntriples_round_trip_typed_literal() {
    let t = triple(Term::Literal(Literal::Typed {
        value: "1".to_string(),
        datatype: nn("http://www.w3.org/2001/XMLSchema#integer"),
    }));
    let bytes = write_ntriples(std::slice::from_ref(&t));
    assert_eq!(parse_ntriples_back(&bytes), vec![t]);
}

#[test]
fn ntriples_round_trip_blank_subject() {
    let t = Triple {
        subject: NamedOrBlankNode::Blank(BlankNode { id: "0".to_string() }),
        predicate: nn("http://example.com/p"),
        object: Term::Named(nn("http://example.com/o")),
    };
    let bytes = write_ntriples(std::slice::from_ref(&t));
    assert_eq!(parse_ntriples_back(&bytes), vec![t]);
}

#[test]
fn ntriples_exact_bytes() {
    let t = triple(Term::Named(nn("http://example.com/o")));
    let bytes = write_ntriples(std::slice::from_ref(&t));
    assert_eq!(
        String::from_utf8(bytes).unwrap(),
        "<http://example.com/s> <http://example.com/p> <http://example.com/o> .\n"
    );
}

#[test]
fn ntriples_one_terminated_line_per_statement() {
    let ts = vec![
        triple(Term::Named(nn("http://example.com/o1"))),
        triple(Term::Literal(Literal::Simple { value: "line\nbreak".to_string() })),
        triple(Term::Named(nn("http://example.com/o3"))),
    ];
    let text = String::from_utf8(write_ntriples(&ts)).unwrap();
    let lines: Vec<&str> = text.split_terminator('\n').collect();
    assert_eq!(lines.len(), 3);
    for line in lines {
        assert!(line.ends_with(" ."));
    }
    assert!(text.ends_with('\n'));
}

#[test]
fn empty_ntriples_document_is_empty() {
    assert!(write_ntriples(&[]).is_empty());
}

#[test]
fn turtle_document_is_terminated() {
    let mut w = GraphSerializer::from_syntax(GraphSyntax::Turtle)
        .triple_writer()
        .unwrap();
    w.write(&triple(Term::Named(nn("http://example.com/o")))).unwrap();
    let text = String::from_utf8(w.finish().unwrap()).unwrap();
    assert_eq!(
        text,
        "<http://example.com/s> <http://example.com/p> <http://example.com/o> .\n"
    );
}

#[test]
fn rdfxml_document_has_balanced_root() {
    let mut w = GraphSerializer::from_syntax(GraphSyntax::RdfXml)
        .triple_writer()
        .unwrap();
    w.write(&triple(Term::Literal(Literal::Simple { value: "v".to_string() })))
        .unwrap();
    let text = String::from_utf8(w.finish().unwrap()).unwrap();
    assert!(text.starts_with("<?xml"));
    assert_eq!(text.matches("<rdf:RDF").count(), 1);
    assert_eq!(text.matches("</rdf:RDF>").count(), 1);
    assert!(text.trim_end().ends_with("</rdf:RDF>"));
}

#[test]
fn rdfxml_empty_document_has_balanced_root() {
    let w = GraphSerializer::from_syntax(GraphSyntax::RdfXml)
        .triple_writer()
        .unwrap();
    let text = String::from_utf8(w.finish().unwrap()).unwrap();
    assert!(text.contains("<rdf:RDF"));
    assert!(text.trim_end().ends_with("</rdf:RDF>"));
}

#[test]
fn nquads_writes_graph_name_and_terminated_lines() {
    let mut w = DatasetSerializer::from_syntax(DatasetSyntax::NQuads)
        .quad_writer()
        .unwrap();
    w.write(&Quad {
        subject: NamedOrBlankNode::Named(nn("http://example.com/s")),
        predicate: nn("http://example.com/p"),
        object: Term::Named(nn("http://example.com/o")),
        graph_name: GraphName::Named(nn("http://example.com/g")),
    })
    .unwrap();
    w.write(&Quad {
        subject: NamedOrBlankNode::Named(nn("http://example.com/s")),
        predicate: nn("http://example.com/p"),
        object: Term::Named(nn("http://example.com/o")),
        graph_name: GraphName::DefaultGraph,
    })
    .unwrap();
    let text = String::from_utf8(w.finish().unwrap()).unwrap();
    let lines: Vec<&str> = text.split_terminator('\n').collect();
    assert_eq!(lines.len(), 2);
    assert_eq!(
        lines[0],
        "<http://example.com/s> <http://example.com/p> <http://example.com/o> <http://example.com/g> ."
    );
    assert_eq!(
        lines[1],
        "<http://example.com/s> <http://example.com/p> <http://example.com/o> ."
    );
}

#[test]
fn trig_document_closes_its_graph_block() {
    let mut w = DatasetSerializer::from_syntax(DatasetSyntax::TriG)
        .quad_writer()
        .unwrap();
    w.write(&Quad {
        subject: NamedOrBlankNode::Named(nn("http://example.com/s")),
        predicate: nn("http://example.com/p"),
        object: Term::Named(nn("http://example.com/o")),
        graph_name: GraphName::Named(nn("http://example.com/g")),
    })
    .unwrap();
    let text = String::from_utf8(w.finish().unwrap()).unwrap();
    assert!(text.starts_with("<http://example.com/g> {"));
    assert!(text.ends_with("}\n"));
    assert_eq!(text.matches('{').count(), text.matches('}').count());
}
