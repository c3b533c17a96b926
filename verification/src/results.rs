//! Reading a SPARQL XML results document: drive the header state machine
//! over tokenizer events until it decides between a boolean answer and a row
//! sequence, then hand the remaining event stream to the row iterator.

use vstd::prelude::*;

use crate::error::MalformedResultsDocument;
use crate::header::{
    header_step, lemma_alike_same_header_step, spec_header_step, HeaderState, HeaderStep,
};
use crate::model::Variable;
use crate::rows::ResultsIterator;
use crate::xml::{doc_events, doc_fails, next_event, source_new, src_events, src_fails, XmlEvent};

verus! {

/// What a results document holds: a boolean answer, or the declared
/// variables together with the lazy sequence of rows.
pub enum QueryResult {
    Boolean(bool),
    Bindings(Vec<Variable>, ResultsIterator),
}

/// What parsing the header of an event stream decides: a boolean answer,
/// the declared variables with a live or an already-exhausted row sequence,
/// a fatal violation, or a tokenization failure.
pub enum HeaderOutcomeModel {
    Boolean(bool),
    Rows(Seq<String>),
    EmptyRows(Seq<String>),
    Fail(MalformedResultsDocument),
    SourceFail,
}

/// A header parse's decision together with the events left for the rows.
pub struct HeaderRun {
    pub out: HeaderOutcomeModel,
    pub evs: Seq<XmlEvent>,
}

/// The header state machine folded over an event stream: the machine steps
/// over each event; variables accumulate in declaration order; end of input
/// inside the header is fatal, and a stream ending in a tokenization
/// failure fails as such.
pub open spec fn header_run(
    state: HeaderState,
    names: Seq<String>,
    evs: Seq<XmlEvent>,
    fails: bool,
) -> HeaderRun
    decreases evs.len(),
{
    if evs.len() == 0 {
        if fails {
            HeaderRun { out: HeaderOutcomeModel::SourceFail, evs }
        } else {
            HeaderRun {
                out: HeaderOutcomeModel::Fail(MalformedResultsDocument::IncompleteDocument),
                evs,
            }
        }
    } else {
        match spec_header_step(state, evs[0]) {
            HeaderStep::Continue(s2) => header_run(s2, names, evs.drop_first(), fails),
            HeaderStep::AddVariable(n) => header_run(state, names.push(n), evs.drop_first(), fails),
            HeaderStep::BooleanAnswer(b) => HeaderRun {
                out: HeaderOutcomeModel::Boolean(b),
                evs: evs.drop_first(),
            },
            HeaderStep::BeginRows => HeaderRun {
                out: HeaderOutcomeModel::Rows(names),
                evs: evs.drop_first(),
            },
            HeaderStep::EmptyRows => HeaderRun {
                out: HeaderOutcomeModel::EmptyRows(names),
                evs: evs.drop_first(),
            },
            HeaderStep::Fail(e) => HeaderRun {
                out: HeaderOutcomeModel::Fail(e),
                evs: evs.drop_first(),
            },
        }
    }
}

/// The declared variables and the row iterator agree with the names the
/// header collected: same names, in order, and a well-formed iterator over
/// a fresh, empty blank node table.
pub open spec fn bindings_match(vars: Vec<Variable>, it: ResultsIterator, ns: Seq<String>) -> bool {
    &&& it.wf()
    &&& it.table_model() == Map::<Seq<char>, Seq<char>>::empty()
    &&& it.vars_values() == ns
    &&& it.num_vars() == ns.len() as int
    &&& vars@.len() == ns.len()
    &&& (forall|i: int| 0 <= i < ns.len() ==> vars@[i].name == ns[i])
}

fn variables_of(names: &Vec<String>) -> (vars: Vec<Variable>)
    ensures
        vars@.len() == names@.len(),
        forall|i: int| 0 <= i < names@.len() ==> vars@[i].name == names@[i],
{
    let mut vars: Vec<Variable> = Vec::new();
    let mut i: usize = 0;
    while i < names.len()
        invariant
            i <= names@.len(),
            vars@.len() == i as int,
            forall|j: int| 0 <= j < i as int ==> vars@[j].name == names@[j],
        decreases names@.len() - i,
    {
        vars.push(Variable::new(names[i].clone()));
        i += 1;
    }
    vars
}

/// Parses the header of a SPARQL XML results document from its bytes.
///
/// The result is exactly the header state machine folded over the
/// document's event stream: a boolean answer or the declared variables with
/// a row iterator where the fold decides one, the fold's own error where it
/// fails, and a source error exactly where tokenization fails. A returned
/// iterator starts with a fresh, empty blank node table — blank node labels
/// are never related across parse sessions — holds exactly the remaining
/// event stream, and each of its rows has one slot per declared variable.
pub fn read_xml_results(source: Vec<u8>) -> (r: Result<QueryResult, MalformedResultsDocument>)
    ensures
        ({
            let run = header_run(
                HeaderState::Start,
                Seq::empty(),
                doc_events(source@),
                doc_fails(source@),
            );
            &&& (run.out matches HeaderOutcomeModel::Boolean(b) ==> (r matches Ok(
                QueryResult::Boolean(b2),
            ) && b2 == b))
            &&& (run.out matches HeaderOutcomeModel::Rows(ns) ==> (r matches Ok(
                QueryResult::Bindings(vars, it),
            ) && !it.is_done() && bindings_match(vars, it, ns) && it.events_model() == run.evs
                && it.fails_model() == doc_fails(source@)))
            &&& (run.out matches HeaderOutcomeModel::EmptyRows(ns) ==> (r matches Ok(
                QueryResult::Bindings(vars, it),
            ) && it.is_done() && bindings_match(vars, it, ns)))
            &&& (run.out matches HeaderOutcomeModel::Fail(e) ==> r == Err::<
                QueryResult,
                MalformedResultsDocument,
            >(e))
            &&& (run.out is SourceFail ==> (r matches Err(e) && e is SourceError))
        }),
{
    let ghost dvs = doc_events(source@);
    let ghost dfl = doc_fails(source@);
    let mut src = source_new(source);
    let mut state = HeaderState::Start;
    let mut names: Vec<String> = Vec::new();
    loop
        invariant
            dvs == doc_events(source@),
            dfl == doc_fails(source@),
            src_fails(src) == dfl,
            header_run(HeaderState::Start, Seq::empty(), dvs, dfl) == header_run(
                state,
                names@,
                src_events(src),
                dfl,
            ),
        decreases src_events(src).len(),
    {
        let ghost pre_evs = src_events(src);
        let ev = match next_event(&mut src) {
            Ok(e) => e,
            Err(e) => {
                return Err(e);
            },
        };
        let eof = matches!(ev, XmlEvent::Eof);
        proof {
            if !eof {
                lemma_alike_same_header_step(state, ev, pre_evs[0]);
            }
        }
        match header_step(state, ev) {
            HeaderStep::Continue(s2) => {
                if eof {
                    proof {
                        assert(false);
                    }
                    return Err(MalformedResultsDocument::IncompleteDocument);
                }
                state = s2;
            },
            HeaderStep::AddVariable(name) => {
                if eof {
                    proof {
                        assert(false);
                    }
                    return Err(MalformedResultsDocument::IncompleteDocument);
                }
                names.push(name);
            },
            HeaderStep::BooleanAnswer(b) => {
                return Ok(QueryResult::Boolean(b));
            },
            HeaderStep::BeginRows => {
                let vars = variables_of(&names);
                let it = ResultsIterator::make(src, names, false);
                return Ok(QueryResult::Bindings(vars, it));
            },
            HeaderStep::EmptyRows => {
                let vars = variables_of(&names);
                let it = ResultsIterator::make(src, names, true);
                return Ok(QueryResult::Bindings(vars, it));
            },
            HeaderStep::Fail(e) => {
                return Err(e);
            },
        }
    }
}

} // verus!
