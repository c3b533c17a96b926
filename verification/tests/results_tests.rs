use rdf_io::error::MalformedResultsDocument;
use rdf_io::model::{BlankNode, Literal, NamedNode, Term};
use rdf_io::results::{read_xml_results, QueryResult};

fn parse(doc: &str) -> Result<QueryResult, MalformedResultsDocument> {
    read_xml_results(doc.as_bytes().to_vec())
}

#[test]
fn typed_literal_row_with_unbound_slot() {
    let doc = "<sparql><head><variable name=\"x\"/><variable name=\"y\"/></head><results><result><binding name=\"x\"><literal datatype=\"http://www.w3.org/2001/XMLSchema#integer\">1</literal></binding></result></results></sparql>";
    match parse(doc).unwrap() {
        QueryResult::Bindings(vars, mut it) => {
            assert_eq!(vars.len(), 2);
            assert_eq!(vars[0].name, "x");
            assert_eq!(vars[1].name, "y");
            let row = it.next().unwrap().unwrap();
            assert_eq!(row.len(), 2);
            assert_eq!(
                row[0],
                Some(Term::Literal(Literal::Typed {
                    value: "1".to_string(),
                    datatype: NamedNode {
                        iri: "http://www.w3.org/2001/XMLSchema#integer".to_string()
                    },
                }))
            );
            assert_eq!(row[1], None);
            assert!(it.next().is_none());
        }
        QueryResult::Boolean(_) => panic!("expected bindings"),
    }
}

#[test]
fn boolean_true() {
    let doc = "<sparql><head/><boolean>true</boolean></sparql>";
    match parse(doc).unwrap() {
        QueryResult::Boolean(b) => assert!(b),
        QueryResult::Bindings(_, _) => panic!("expected boolean"),
    }
}

#[test]
fn boolean_false() {
    let doc = "<sparql><head/><boolean>false</boolean></sparql>";
    match parse(doc).unwrap() {
        QueryResult::Boolean(b) => assert!(!b),
        QueryResult::Bindings(_, _) => panic!("expected boolean"),
    }
}

#[test]
fn boolean_other_text_is_fatal() {
    let doc = "<sparql><head/><boolean>maybe</boolean></sparql>";
    assert!(matches!(
        parse(doc),
        Err(MalformedResultsDocument::InvalidBooleanValue(v)) if v == "maybe"
    ));
}

#[test]
fn same_label_resolves_to_same_identity_within_one_document() {
    let doc = "<sparql><head><variable name=\"x\"/></head><results><result><binding name=\"x\"><bnode>b0</bnode></binding></result><result><binding name=\"x\"><bnode>b0</bnode></binding></result></results></sparql>";
    match parse(doc).unwrap() {
        QueryResult::Bindings(_, mut it) => {
            let first = it.next().unwrap().unwrap()[0].clone().unwrap();
            let second = it.next().unwrap().unwrap()[0].clone().unwrap();
            assert_eq!(first, second);
            assert!(it.next().is_none());
        }
        QueryResult::Boolean(_) => panic!("expected bindings"),
    }
}

#[test]
fn sessions_do_not_share_label_mappings() {
    // Each parse session mints its identities under a fresh session mark:
    // the same document label `b0` gets unrelated identities in two
    // independent parses, and neither collides with the other session's
    // other identities.
    let doc1 = "<sparql><head><variable name=\"x\"/></head><results><result><binding name=\"x\"><bnode>b0</bnode></binding></result></results></sparql>";
    let doc2 = "<sparql><head><variable name=\"x\"/></head><results><result><binding name=\"x\"><bnode>b9</bnode></binding></result><result><binding name=\"x\"><bnode>b0</bnode></binding></result></results></sparql>";
    let id1 = match parse(doc1).unwrap() {
        QueryResult::Bindings(_, mut it) => it.next().unwrap().unwrap()[0].clone().unwrap(),
        QueryResult::Boolean(_) => panic!("expected bindings"),
    };
    let (first, second) = match parse(doc2).unwrap() {
        QueryResult::Bindings(_, mut it) => {
            let a = it.next().unwrap().unwrap()[0].clone().unwrap();
            let b = it.next().unwrap().unwrap()[0].clone().unwrap();
            (a, b)
        }
        QueryResult::Boolean(_) => panic!("expected bindings"),
    };
    assert_ne!(first, id1);
    assert_ne!(second, id1);
    assert_ne!(first, second);
}

#[test]
fn distinct_labels_get_distinct_identities() {
    let doc = "<sparql><head><variable name=\"x\"/><variable name=\"y\"/></head><results><result><binding name=\"x\"><bnode>u</bnode></binding><binding name=\"y\"><bnode>v</bnode></binding></result></results></sparql>";
    match parse(doc).unwrap() {
        QueryResult::Bindings(_, mut it) => {
            let row = it.next().unwrap().unwrap();
            assert_ne!(row[0], row[1]);
        }
        QueryResult::Boolean(_) => panic!("expected bindings"),
    }
}

#[test]
fn wrong_root_namespace_is_fatal_before_any_row() {
    let doc = "<sparql xmlns=\"http://wrong.example/ns#\"><head/><results/></sparql>";
    assert!(matches!(
        parse(doc),
        Err(MalformedResultsDocument::UnexpectedNamespace(_))
    ));
}

#[test]
fn results_namespace_is_accepted() {
    let doc = "<sparql xmlns=\"http://www.w3.org/2005/sparql-results#\"><head/><boolean>true</boolean></sparql>";
    assert!(matches!(parse(doc), Ok(QueryResult::Boolean(true))));
}

#[test]
fn self_closing_results_is_immediately_exhausted() {
    let doc = "<sparql><head><variable name=\"x\"/></head><results/></sparql>";
    match parse(doc).unwrap() {
        QueryResult::Bindings(vars, mut it) => {
            assert_eq!(vars.len(), 1);
            assert!(it.next().is_none());
            assert!(it.next().is_none());
        }
        QueryResult::Boolean(_) => panic!("expected bindings"),
    }
}

#[test]
fn two_values_in_one_binding_is_a_duplicate() {
    let doc = "<sparql><head><variable name=\"x\"/></head><results><result><binding name=\"x\"><uri>a</uri><uri>b</uri></binding></result></results></sparql>";
    match parse(doc).unwrap() {
        QueryResult::Bindings(_, mut it) => {
            assert!(matches!(
                it.next(),
                Some(Err(MalformedResultsDocument::DuplicateBindingValue(_)))
            ));
            // The iterator is poisoned after the error.
            assert!(it.next().is_none());
        }
        QueryResult::Boolean(_) => panic!("expected bindings"),
    }
}

#[test]
fn uri_and_bnode_and_plain_and_tagged_literals_parse() {
    let doc = "<sparql><head><variable name=\"a\"/><variable name=\"b\"/><variable name=\"c\"/><variable name=\"d\"/></head><results><result><binding name=\"a\"><uri>http://example.com/x</uri></binding><binding name=\"b\"><bnode>n</bnode></binding><binding name=\"c\"><literal>plain</literal></binding><binding name=\"d\"><literal xml:lang=\"en\">hi</literal></binding></result></results></sparql>";
    match parse(doc).unwrap() {
        QueryResult::Bindings(_, mut it) => {
            let row = it.next().unwrap().unwrap();
            assert_eq!(
                row[0],
                Some(Term::Named(NamedNode { iri: "http://example.com/x".to_string() }))
            );
            assert!(matches!(row[1], Some(Term::Blank(_))));
            assert_eq!(
                row[2],
                Some(Term::Literal(Literal::Simple { value: "plain".to_string() }))
            );
            assert_eq!(
                row[3],
                Some(Term::Literal(Literal::LanguageTagged {
                    value: "hi".to_string(),
                    language: "en".to_string(),
                }))
            );
        }
        QueryResult::Boolean(_) => panic!("expected bindings"),
    }
}

#[test]
fn datatype_takes_precedence_over_language() {
    let doc = "<sparql><head><variable name=\"x\"/></head><results><result><binding name=\"x\"><literal xml:lang=\"en\" datatype=\"http://example.com/dt\">v</literal></binding></result></results></sparql>";
    match parse(doc).unwrap() {
        QueryResult::Bindings(_, mut it) => {
            let row = it.next().unwrap().unwrap();
            assert_eq!(
                row[0],
                Some(Term::Literal(Literal::Typed {
                    value: "v".to_string(),
                    datatype: NamedNode { iri: "http://example.com/dt".to_string() },
                }))
            );
        }
        QueryResult::Boolean(_) => panic!("expected bindings"),
    }
}

#[test]
fn root_must_be_sparql() {
    assert!(matches!(
        parse("<foo><head/></foo>"),
        Err(MalformedResultsDocument::UnexpectedTag(t)) if t == "foo"
    ));
}

#[test]
fn variable_must_be_self_closing() {
    let doc = "<sparql><head><variable name=\"x\"></variable></head><results/></sparql>";
    assert!(matches!(
        parse(doc),
        Err(MalformedResultsDocument::MustBeSelfClosing(t)) if t == "variable"
    ));
}

#[test]
fn variable_needs_a_name() {
    let doc = "<sparql><head><variable/></head><results/></sparql>";
    assert!(matches!(
        parse(doc),
        Err(MalformedResultsDocument::MissingVariableName)
    ));
}

#[test]
fn truncated_document_is_incomplete() {
    assert!(matches!(
        parse("<sparql><head>"),
        Err(MalformedResultsDocument::IncompleteDocument)
    ));
}

#[test]
fn text_in_the_header_is_fatal() {
    assert!(matches!(
        parse("<sparql>junk<head/></sparql>"),
        Err(MalformedResultsDocument::UnexpectedText(t)) if t == "junk"
    ));
}

#[test]
fn binding_needs_a_name() {
    let doc = "<sparql><head><variable name=\"x\"/></head><results><result><binding><uri>u</uri></binding></result></results></sparql>";
    match parse(doc).unwrap() {
        QueryResult::Bindings(_, mut it) => {
            assert!(matches!(
                it.next(),
                Some(Err(MalformedResultsDocument::MissingBindingName))
            ));
        }
        QueryResult::Boolean(_) => panic!("expected bindings"),
    }
}

#[test]
fn binding_for_undeclared_variable_is_fatal() {
    let doc = "<sparql><head><variable name=\"x\"/></head><results><result><binding name=\"z\"><uri>u</uri></binding></result></results></sparql>";
    match parse(doc).unwrap() {
        QueryResult::Bindings(_, mut it) => {
            assert!(matches!(
                it.next(),
                Some(Err(MalformedResultsDocument::UnknownVariable(v))) if v == "z"
            ));
        }
        QueryResult::Boolean(_) => panic!("expected bindings"),
    }
}

#[test]
fn binding_without_a_value_is_fatal() {
    let doc = "<sparql><head><variable name=\"x\"/></head><results><result><binding name=\"x\"></binding></result></results></sparql>";
    match parse(doc).unwrap() {
        QueryResult::Bindings(_, mut it) => {
            assert!(matches!(
                it.next(),
                Some(Err(MalformedResultsDocument::MissingBindingValue))
            ));
        }
        QueryResult::Boolean(_) => panic!("expected bindings"),
    }
}

#[test]
fn invalid_iri_text_is_fatal() {
    let doc = "<sparql><head><variable name=\"x\"/></head><results><result><binding name=\"x\"><uri>a b</uri></binding></result></results></sparql>";
    match parse(doc).unwrap() {
        QueryResult::Bindings(_, mut it) => {
            assert!(matches!(
                it.next(),
                Some(Err(MalformedResultsDocument::InvalidIri(v))) if v == "a b"
            ));
        }
        QueryResult::Boolean(_) => panic!("expected bindings"),
    }
}

#[test]
fn self_closing_result_is_a_structure_error() {
    let doc = "<sparql><head><variable name=\"x\"/></head><results><result/></results></sparql>";
    match parse(doc).unwrap() {
        QueryResult::Bindings(_, mut it) => {
            assert!(matches!(
                it.next(),
                Some(Err(MalformedResultsDocument::UnexpectedStructure(t))) if t == "result"
            ));
        }
        QueryResult::Boolean(_) => panic!("expected bindings"),
    }
}

#[test]
fn unparseable_xml_is_a_source_error() {
    assert!(matches!(
        parse("<sparql><head></sparql>"),
        Err(MalformedResultsDocument::SourceError(_))
    ));
}

#[test]
fn empty_result_list_with_open_results_tag() {
    let doc = "<sparql><head><variable name=\"x\"/></head><results></results></sparql>";
    match parse(doc).unwrap() {
        QueryResult::Bindings(vars, mut it) => {
            assert_eq!(vars.len(), 1);
            assert!(it.next().is_none());
        }
        QueryResult::Boolean(_) => panic!("expected bindings"),
    }
}

#[test]
fn entities_are_unescaped_in_text_and_attributes() {
    let doc = "<sparql><head><variable name=\"x\"/></head><results><result><binding name=\"x\"><literal datatype=\"http://example.com/?a=1&amp;b=2\">1 &lt; 2 &amp; 3</literal></binding></result></results></sparql>";
    match parse(doc).unwrap() {
        QueryResult::Bindings(_, mut it) => {
            let row = it.next().unwrap().unwrap();
            assert_eq!(
                row[0],
                Some(Term::Literal(Literal::Typed {
                    value: "1 < 2 & 3".to_string(),
                    datatype: NamedNode { iri: "http://example.com/?a=1&b=2".to_string() },
                }))
            );
        }
        QueryResult::Boolean(_) => panic!("expected bindings"),
    }
}

#[test]
fn identities_follow_first_sight_not_raw_labels() {
    let doc = "<sparql><head><variable name=\"x\"/><variable name=\"y\"/></head><results><result><binding name=\"x\"><bnode>beta</bnode></binding><binding name=\"y\"><bnode>alpha</bnode></binding></result><result><binding name=\"x\"><bnode>alpha</bnode></binding></result></results></sparql>";
    match parse(doc).unwrap() {
        QueryResult::Bindings(_, mut it) => {
            let row1 = it.next().unwrap().unwrap();
            let row2 = it.next().unwrap().unwrap();
            // Two labels, two distinct identities; the second row's `alpha`
            // resolves to the identity `alpha` got in the first row.
            assert_ne!(row1[0], row1[1]);
            assert!(matches!(row1[0], Some(Term::Blank(_))));
            assert!(matches!(row1[1], Some(Term::Blank(_))));
            assert_eq!(row2[0], row1[1]);
        }
        QueryResult::Boolean(_) => panic!("expected bindings"),
    }
}

#[test]
fn xml_declaration_and_comments_are_ignored() {
    let doc = "<?xml version=\"1.0\"?><!-- answer --><sparql><head/><boolean>true</boolean></sparql>";
    assert!(matches!(parse(doc), Ok(QueryResult::Boolean(true))));
}

#[test]
fn pretty_printed_document_parses() {
    let doc = "<?xml version=\"1.0\"?>\n<sparql>\n  <head>\n    <variable name=\"x\"/>\n  </head>\n  <results>\n    <result>\n      <binding name=\"x\">\n        <uri>http://example.com/x</uri>\n      </binding>\n    </result>\n  </results>\n</sparql>\n";
    match parse(doc).unwrap() {
        QueryResult::Bindings(vars, mut it) => {
            assert_eq!(vars.len(), 1);
            let row = it.next().unwrap().unwrap();
            assert_eq!(
                row[0],
                Some(Term::Named(NamedNode { iri: "http://example.com/x".to_string() }))
            );
            assert!(it.next().is_none());
        }
        QueryResult::Boolean(_) => panic!("expected bindings"),
    }
}
