//! The results-header state machine. It consumes the prologue of a SPARQL
//! XML results document, validates structure and namespace, collects the
//! declared variables, and decides between a boolean answer and a row
//! sequence. The transition function is pure; the driver that feeds it
//! tokenizer events lives in `results`.

use vstd::prelude::*;

use crate::error::MalformedResultsDocument;
use crate::xml::{
    events_alike, find_attr, ns_acceptable, ns_ok, results_ns_seq, spec_find_attr, string_eq_str,
    TagInfo, XmlEvent,
};

verus! {

#[derive(PartialEq, Eq, Structural, Clone, Copy, Debug)]
pub enum HeaderState {
    Start,
    InSparqlRoot,
    InHead,
    AfterHead,
    InBoolean,
}

/// What one header transition decides.
pub enum HeaderStep {
    /// Keep parsing the header in the given state.
    Continue(HeaderState),
    /// A declared variable: append it and stay in the head.
    AddVariable(String),
    /// The document is a boolean answer.
    BooleanAnswer(bool),
    /// An opening `results` tag: hand control to the row iterator.
    BeginRows,
    /// A self-closing `results` tag: the row sequence is empty.
    EmptyRows,
    /// A fatal violation.
    Fail(MalformedResultsDocument),
}

/// The transition for an opening or self-closing tag whose namespace has
/// already been accepted.
pub open spec fn spec_header_open(state: HeaderState, t: TagInfo) -> HeaderStep {
    match state {
        HeaderState::Start => {
            if !t.self_closing && t.name@ == "sparql"@ {
                HeaderStep::Continue(HeaderState::InSparqlRoot)
            } else {
                HeaderStep::Fail(MalformedResultsDocument::UnexpectedTag(t.name))
            }
        },
        HeaderState::InSparqlRoot => {
            if t.name@ == "head"@ {
                if t.self_closing {
                    HeaderStep::Continue(HeaderState::AfterHead)
                } else {
                    HeaderStep::Continue(HeaderState::InHead)
                }
            } else {
                HeaderStep::Fail(MalformedResultsDocument::UnexpectedTag(t.name))
            }
        },
        HeaderState::InHead => {
            if t.self_closing {
                if t.name@ == "variable"@ {
                    match spec_find_attr(t.attrs@, "name"@) {
                        Some(a) => HeaderStep::AddVariable(a.value),
                        None => HeaderStep::Fail(MalformedResultsDocument::MissingVariableName),
                    }
                } else if t.name@ == "link"@ {
                    HeaderStep::Continue(HeaderState::InHead)
                } else {
                    HeaderStep::Fail(MalformedResultsDocument::UnexpectedTag(t.name))
                }
            } else {
                if t.name@ == "variable"@ || t.name@ == "link"@ {
                    HeaderStep::Fail(MalformedResultsDocument::MustBeSelfClosing(t.name))
                } else {
                    HeaderStep::Fail(MalformedResultsDocument::UnexpectedTag(t.name))
                }
            }
        },
        HeaderState::AfterHead => {
            if t.self_closing {
                if t.name@ == "results"@ {
                    HeaderStep::EmptyRows
                } else if t.name@ == "link"@ {
                    HeaderStep::Continue(HeaderState::AfterHead)
                } else {
                    HeaderStep::Fail(MalformedResultsDocument::UnexpectedTag(t.name))
                }
            } else {
                if t.name@ == "boolean"@ {
                    HeaderStep::Continue(HeaderState::InBoolean)
                } else if t.name@ == "results"@ {
                    HeaderStep::BeginRows
                } else {
                    HeaderStep::Fail(MalformedResultsDocument::UnexpectedTag(t.name))
                }
            }
        },
        HeaderState::InBoolean => HeaderStep::Fail(
            MalformedResultsDocument::UnexpectedTag(t.name),
        ),
    }
}

/// The header transition: namespace mismatch is fatal before any other
/// interpretation; then the tag table above, boolean text in the boolean
/// state, closing tags only at the end of the head, and end-of-input is fatal
/// everywhere in the header.
pub open spec fn spec_header_step(state: HeaderState, ev: XmlEvent) -> HeaderStep {
    match ev {
        XmlEvent::Open(t) => {
            match t.ns {
                Some(n) => {
                    if n@ != results_ns_seq() {
                        HeaderStep::Fail(MalformedResultsDocument::UnexpectedNamespace(n))
                    } else {
                        spec_header_open(state, t)
                    }
                },
                None => spec_header_open(state, t),
            }
        },
        XmlEvent::Close(ns) => {
            match ns {
                Some(n) => {
                    if n@ != results_ns_seq() {
                        HeaderStep::Fail(MalformedResultsDocument::UnexpectedNamespace(n))
                    } else if state is InHead {
                        HeaderStep::Continue(HeaderState::AfterHead)
                    } else {
                        HeaderStep::Fail(MalformedResultsDocument::IncompleteDocument)
                    }
                },
                None => {
                    if state is InHead {
                        HeaderStep::Continue(HeaderState::AfterHead)
                    } else {
                        HeaderStep::Fail(MalformedResultsDocument::IncompleteDocument)
                    }
                },
            }
        },
        XmlEvent::Text(s) => {
            if state is InBoolean {
                if s@ == "true"@ {
                    HeaderStep::BooleanAnswer(true)
                } else if s@ == "false"@ {
                    HeaderStep::BooleanAnswer(false)
                } else {
                    HeaderStep::Fail(MalformedResultsDocument::InvalidBooleanValue(s))
                }
            } else {
                HeaderStep::Fail(MalformedResultsDocument::UnexpectedText(s))
            }
        },
        XmlEvent::Eof => HeaderStep::Fail(MalformedResultsDocument::IncompleteDocument),
        XmlEvent::Other => HeaderStep::Continue(state),
    }
}

/// One step of the header state machine, exactly the transition table above.
pub fn header_step(state: HeaderState, ev: XmlEvent) -> (r: HeaderStep)
    ensures
        r == spec_header_step(state, ev),
{
    match ev {
        XmlEvent::Open(t) => {
            if !ns_ok(&t.ns) {
                match t.ns {
                    Some(n) => HeaderStep::Fail(MalformedResultsDocument::UnexpectedNamespace(n)),
                    None => {
                        proof {
                            assert(false);
                        }
                        HeaderStep::Fail(MalformedResultsDocument::IncompleteDocument)
                    },
                }
            } else {
                header_open(state, t)
            }
        },
        XmlEvent::Close(ns) => {
            if !ns_ok(&ns) {
                match ns {
                    Some(n) => HeaderStep::Fail(MalformedResultsDocument::UnexpectedNamespace(n)),
                    None => {
                        proof {
                            assert(false);
                        }
                        HeaderStep::Fail(MalformedResultsDocument::IncompleteDocument)
                    },
                }
            } else if matches!(state, HeaderState::InHead) {
                HeaderStep::Continue(HeaderState::AfterHead)
            } else {
                HeaderStep::Fail(MalformedResultsDocument::IncompleteDocument)
            }
        },
        XmlEvent::Text(s) => {
            if matches!(state, HeaderState::InBoolean) {
                if string_eq_str(&s, "true") {
                    HeaderStep::BooleanAnswer(true)
                } else if string_eq_str(&s, "false") {
                    HeaderStep::BooleanAnswer(false)
                } else {
                    HeaderStep::Fail(MalformedResultsDocument::InvalidBooleanValue(s))
                }
            } else {
                HeaderStep::Fail(MalformedResultsDocument::UnexpectedText(s))
            }
        },
        XmlEvent::Eof => HeaderStep::Fail(MalformedResultsDocument::IncompleteDocument),
        XmlEvent::Other => HeaderStep::Continue(state),
    }
}

fn header_open(state: HeaderState, t: TagInfo) -> (r: HeaderStep)
    ensures
        r == spec_header_open(state, t),
{
    let TagInfo { ns: _, name, attrs, self_closing } = t;
    match state {
        HeaderState::Start => {
            if !self_closing && string_eq_str(&name, "sparql") {
                HeaderStep::Continue(HeaderState::InSparqlRoot)
            } else {
                HeaderStep::Fail(MalformedResultsDocument::UnexpectedTag(name))
            }
        },
        HeaderState::InSparqlRoot => {
            if string_eq_str(&name, "head") {
                if self_closing {
                    HeaderStep::Continue(HeaderState::AfterHead)
                } else {
                    HeaderStep::Continue(HeaderState::InHead)
                }
            } else {
                HeaderStep::Fail(MalformedResultsDocument::UnexpectedTag(name))
            }
        },
        HeaderState::InHead => {
            if self_closing {
                if string_eq_str(&name, "variable") {
                    match find_attr(&attrs, "name") {
                        Some(a) => HeaderStep::AddVariable(a.value),
                        None => HeaderStep::Fail(MalformedResultsDocument::MissingVariableName),
                    }
                } else if string_eq_str(&name, "link") {
                    HeaderStep::Continue(HeaderState::InHead)
                } else {
                    HeaderStep::Fail(MalformedResultsDocument::UnexpectedTag(name))
                }
            } else {
                if string_eq_str(&name, "variable") || string_eq_str(&name, "link") {
                    HeaderStep::Fail(MalformedResultsDocument::MustBeSelfClosing(name))
                } else {
                    HeaderStep::Fail(MalformedResultsDocument::UnexpectedTag(name))
                }
            }
        },
        HeaderState::AfterHead => {
            if self_closing {
                if string_eq_str(&name, "results") {
                    HeaderStep::EmptyRows
                } else if string_eq_str(&name, "link") {
                    HeaderStep::Continue(HeaderState::AfterHead)
                } else {
                    HeaderStep::Fail(MalformedResultsDocument::UnexpectedTag(name))
                }
            } else {
                if string_eq_str(&name, "boolean") {
                    HeaderStep::Continue(HeaderState::InBoolean)
                } else if string_eq_str(&name, "results") {
                    HeaderStep::BeginRows
                } else {
                    HeaderStep::Fail(MalformedResultsDocument::UnexpectedTag(name))
                }
            }
        },
        HeaderState::InBoolean => HeaderStep::Fail(MalformedResultsDocument::UnexpectedTag(name)),
    }
}

/// The header transition cannot tell two alike events apart: it reads only
/// the namespace, name, attribute values, text and shape of an event.
pub proof fn lemma_alike_same_header_step(state: HeaderState, a: XmlEvent, b: XmlEvent)
    requires
        events_alike(a, b),
    ensures
        spec_header_step(state, a) == spec_header_step(state, b),
{
    match (a, b) {
        (XmlEvent::Open(x), XmlEvent::Open(y)) => {
            assert(x.attrs@ == y.attrs@);
        },
        _ => {},
    }
}

/// Law: an element carrying a namespace other than the results namespace is
/// fatal in every header state, before any row could be produced.
pub proof fn lemma_wrong_namespace_is_fatal(state: HeaderState, t: TagInfo, n: String)
    requires
        t.ns == Some(n),
        n@ != results_ns_seq(),
    ensures
        spec_header_step(state, XmlEvent::Open(t)) == HeaderStep::Fail(
            MalformedResultsDocument::UnexpectedNamespace(n),
        ),
{
}

/// Law: in the boolean state, text `true` and `false` yield exactly those
/// boolean answers, and any other text in that position is fatal.
pub proof fn lemma_boolean_text_decides(s: String)
    ensures
        s@ == "true"@ ==> spec_header_step(HeaderState::InBoolean, XmlEvent::Text(s))
            == HeaderStep::BooleanAnswer(true),
        s@ == "false"@ ==> spec_header_step(HeaderState::InBoolean, XmlEvent::Text(s))
            == HeaderStep::BooleanAnswer(false),
        s@ != "true"@ && s@ != "false"@ ==> spec_header_step(
            HeaderState::InBoolean,
            XmlEvent::Text(s),
        ) == HeaderStep::Fail(MalformedResultsDocument::InvalidBooleanValue(s)),
{
    reveal_strlit("true");
    reveal_strlit("false");
    assert("true"@.len() == 4);
    assert("false"@.len() == 5);
}

/// Law: a self-closing `results` element after the head, in the results
/// namespace or with no stated namespace, yields the empty row sequence.
pub proof fn lemma_self_closing_results_is_empty(t: TagInfo)
    requires
        t.self_closing,
        t.name@ == "results"@,
        ns_acceptable(t.ns),
    ensures
        spec_header_step(HeaderState::AfterHead, XmlEvent::Open(t)) == HeaderStep::EmptyRows,
{
}

} // verus!
