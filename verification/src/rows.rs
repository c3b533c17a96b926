//! The results-row state machine and the lazy row iterator. Each call for
//! the next row runs a row-scoped state machine over tokenizer events,
//! committing bindings into a row sized to the declared variable count, and
//! resolving blank node labels through the session's table. The transition
//! function is pure and fully specified; the iterator drives it.

use vstd::prelude::*;

use crate::bnode::{
    dec_digits, lemma_fresh_label_shape, lemma_resolve_extends, lemma_table_extends_trans,
    resolve_id, resolve_map, table_extends, BlankNodeTable,
};
use crate::error::MalformedResultsDocument;
use crate::iri::{iri_ok, parse_named_node};
use crate::model::{Literal, LiteralModel, NamedNode, Term, TermModel};
use crate::xml::{
    clone_opt_string, events_alike, find_attr, next_event, ns_acceptable, ns_ok, spec_find_attr,
    src_events, src_fails, string_eq_str, TagInfo, XmlAttr, XmlEvent, XmlSource,
};

verus! {

#[derive(PartialEq, Eq, Structural, Clone, Copy, Debug)]
pub enum RowState {
    /// Between rows: expecting `result` or the end of the sequence.
    RowStart,
    /// Inside `result`: expecting `binding` elements or the row's end.
    InResult,
    /// Inside `binding`: expecting exactly one value element.
    InBinding,
    /// Inside a `uri` value element.
    InUri,
    /// Inside a `bnode` value element.
    InBNode,
    /// Inside a `literal` value element.
    InLiteral,
    /// After the closing of the row sequence.
    RowDone,
}

/// The row machine: current state plus the row under construction and the
/// capture slots of the current binding.
pub struct RowMachine {
    pub state: RowState,
    pub row: Vec<Option<Term>>,
    pub var_index: Option<usize>,
    pub term: Option<Term>,
    pub lang: Option<String>,
    pub datatype: Option<NamedNode>,
}

/// What one row transition decides.
pub enum RowOutcome {
    /// Keep pulling events.
    Progress,
    /// A row is complete.
    RowReady(Vec<Option<Term>>),
    /// The sequence ended with no further row and no error.
    Exhausted,
    /// A fatal violation.
    Fail(MalformedResultsDocument),
}

/// The mathematical shape of the row machine.
pub struct RowMachineModel {
    pub state: RowState,
    pub row: Seq<Option<TermModel>>,
    pub var_index: Option<int>,
    pub term: Option<TermModel>,
    pub lang: Option<Seq<char>>,
    pub datatype: Option<Seq<char>>,
}

/// The mathematical shape of a row outcome.
pub enum RowOutcomeModel {
    Progress,
    RowReady(Seq<Option<TermModel>>),
    Exhausted,
    Fail(MalformedResultsDocument),
}

/// One transition's full result: outcome, machine, and blank node table.
pub struct RowStepResult {
    pub out: RowOutcomeModel,
    pub m: RowMachineModel,
    pub table: Map<Seq<char>, Seq<char>>,
}

pub open spec fn opt_term_model(o: Option<Term>) -> Option<TermModel> {
    match o {
        Some(t) => Some(t@),
        None => None,
    }
}

pub open spec fn row_model(s: Seq<Option<Term>>) -> Seq<Option<TermModel>> {
    s.map_values(|o: Option<Term>| opt_term_model(o))
}

pub open spec fn opt_string_view(o: Option<String>) -> Option<Seq<char>> {
    match o {
        Some(s) => Some(s@),
        None => None,
    }
}

pub open spec fn opt_nn_view(o: Option<NamedNode>) -> Option<Seq<char>> {
    match o {
        Some(n) => Some(n.iri@),
        None => None,
    }
}

pub open spec fn opt_usize_int(o: Option<usize>) -> Option<int> {
    match o {
        Some(u) => Some(u as int),
        None => None,
    }
}

impl RowMachine {
    pub open spec fn model(self) -> RowMachineModel {
        RowMachineModel {
            state: self.state,
            row: row_model(self.row@),
            var_index: opt_usize_int(self.var_index),
            term: opt_term_model(self.term),
            lang: opt_string_view(self.lang),
            datatype: opt_nn_view(self.datatype),
        }
    }
}

pub open spec fn outcome_model(o: RowOutcome) -> RowOutcomeModel {
    match o {
        RowOutcome::Progress => RowOutcomeModel::Progress,
        RowOutcome::RowReady(v) => RowOutcomeModel::RowReady(row_model(v@)),
        RowOutcome::Exhausted => RowOutcomeModel::Exhausted,
        RowOutcome::Fail(e) => RowOutcomeModel::Fail(e),
    }
}

/// The declared variable whose name matches, searched from position `i`.
pub open spec fn var_lookup_from(vars: Seq<String>, name: Seq<char>, i: int) -> Option<int>
    decreases vars.len() - i,
{
    if i < 0 || i >= vars.len() {
        None
    } else if vars[i]@ == name {
        Some(i)
    } else {
        var_lookup_from(vars, name, i + 1)
    }
}

/// The index of the first declared variable with this name, if any.
pub open spec fn spec_var_lookup(vars: Seq<String>, name: Seq<char>) -> Option<int> {
    var_lookup_from(vars, name, 0)
}

fn var_lookup(vars: &Vec<String>, name: &String) -> (r: Option<usize>)
    ensures
        opt_usize_int(r) == spec_var_lookup(vars@, name@),
        r matches Some(i) ==> i < vars@.len(),
{
    let mut i: usize = 0;
    while i < vars.len()
        invariant
            i <= vars@.len(),
            spec_var_lookup(vars@, name@) == var_lookup_from(vars@, name@, i as int),
        decreases vars@.len() - i,
    {
        if vars[i] == *name {
            return Some(i);
        }
        i += 1;
    }
    None
}

/// The literal construction policy: a present `datatype` builds a
/// datatype-tagged literal, taking precedence over any simultaneously present
/// language tag; else a present language tag builds a language-tagged
/// literal; else the literal is plain.
pub open spec fn spec_build_literal(
    value: Seq<char>,
    lang: Option<Seq<char>>,
    dt: Option<Seq<char>>,
) -> LiteralModel {
    match dt {
        Some(d) => LiteralModel::Typed { value, datatype: d },
        None => match lang {
            Some(l) => LiteralModel::LanguageTagged { value, language: l },
            None => LiteralModel::Simple { value },
        },
    }
}

/// Law: when a literal carries both a `datatype` and a language tag, the
/// datatype wins and the language tag is ignored.
pub proof fn lemma_datatype_takes_precedence(value: Seq<char>, l: Seq<char>, d: Seq<char>)
    ensures
        spec_build_literal(value, Some(l), Some(d)) == (LiteralModel::Typed {
            value,
            datatype: d,
        }),
{
}

pub fn build_literal(value: String, lang: Option<String>, datatype: Option<NamedNode>) -> (r:
    Literal)
    ensures
        r@ == spec_build_literal(value@, opt_string_view(lang), opt_nn_view(datatype)),
{
    match datatype {
        Some(d) => Literal::Typed { value, datatype: d },
        None => match lang {
            Some(l) => Literal::LanguageTagged { value, language: l },
            None => Literal::Simple { value },
        },
    }
}

/// The machine is sized to the declared variable count and any current
/// binding index is in range.
pub open spec fn machine_inv(m: RowMachineModel, nvars: int) -> bool {
    &&& m.row.len() == nvars
    &&& (m.var_index matches Some(i) ==> 0 <= i < nvars)
}

pub open spec fn keep_step(
    m: RowMachineModel,
    table: Map<Seq<char>, Seq<char>>,
) -> RowStepResult {
    RowStepResult { out: RowOutcomeModel::Progress, m, table }
}

pub open spec fn fail_step(
    m: RowMachineModel,
    table: Map<Seq<char>, Seq<char>>,
    e: MalformedResultsDocument,
) -> RowStepResult {
    RowStepResult { out: RowOutcomeModel::Fail(e), m, table }
}

/// The transition for an opening or self-closing tag whose namespace has
/// already been accepted.
pub open spec fn spec_row_open(
    m: RowMachineModel,
    table: Map<Seq<char>, Seq<char>>,
    vars: Seq<String>,
    t: TagInfo,
) -> RowStepResult {
    match m.state {
        RowState::RowStart => {
            if t.self_closing {
                fail_step(m, table, MalformedResultsDocument::UnexpectedStructure(t.name))
            } else if t.name@ == "result"@ {
                keep_step(
                    RowMachineModel {
                        state: RowState::InResult,
                        row: Seq::new(vars.len(), |i: int| None),
                        var_index: None,
                        term: None,
                        lang: None,
                        datatype: None,
                    },
                    table,
                )
            } else {
                fail_step(m, table, MalformedResultsDocument::UnexpectedTag(t.name))
            }
        },
        RowState::InResult => {
            if t.self_closing {
                fail_step(m, table, MalformedResultsDocument::UnexpectedStructure(t.name))
            } else if t.name@ == "binding"@ {
                match spec_find_attr(t.attrs@, "name"@) {
                    Some(a) => match spec_var_lookup(vars, a.value@) {
                        Some(i) => keep_step(
                            RowMachineModel { state: RowState::InBinding, var_index: Some(i), ..m },
                            table,
                        ),
                        None => fail_step(
                            m,
                            table,
                            MalformedResultsDocument::UnknownVariable(a.value),
                        ),
                    },
                    None => fail_step(m, table, MalformedResultsDocument::MissingBindingName),
                }
            } else {
                fail_step(m, table, MalformedResultsDocument::UnexpectedTag(t.name))
            }
        },
        RowState::InBinding => {
            if m.term is Some {
                fail_step(m, table, MalformedResultsDocument::DuplicateBindingValue(t.name))
            } else if t.self_closing {
                fail_step(m, table, MalformedResultsDocument::UnexpectedStructure(t.name))
            } else if t.name@ == "uri"@ {
                keep_step(RowMachineModel { state: RowState::InUri, ..m }, table)
            } else if t.name@ == "bnode"@ {
                keep_step(RowMachineModel { state: RowState::InBNode, ..m }, table)
            } else if t.name@ == "literal"@ {
                let lang = match spec_find_attr(t.attrs@, "xml:lang"@) {
                    Some(a) => Some(a.value@),
                    None => None,
                };
                match spec_find_attr(t.attrs@, "datatype"@) {
                    Some(a) => if iri_ok(a.value@) {
                        keep_step(
                            RowMachineModel {
                                state: RowState::InLiteral,
                                lang,
                                datatype: Some(a.value@),
                                ..m
                            },
                            table,
                        )
                    } else {
                        fail_step(m, table, MalformedResultsDocument::InvalidIri(a.value))
                    },
                    None => keep_step(
                        RowMachineModel { state: RowState::InLiteral, lang, datatype: None, ..m },
                        table,
                    ),
                }
            } else {
                fail_step(m, table, MalformedResultsDocument::UnexpectedTag(t.name))
            }
        },
        _ => fail_step(m, table, MalformedResultsDocument::UnexpectedStructure(t.name)),
    }
}

/// The transition for a closing tag whose namespace has been accepted.
pub open spec fn spec_row_close(
    m: RowMachineModel,
    table: Map<Seq<char>, Seq<char>>,
) -> RowStepResult {
    match m.state {
        RowState::RowStart => keep_step(RowMachineModel { state: RowState::RowDone, ..m }, table),
        RowState::InResult => RowStepResult {
            out: RowOutcomeModel::RowReady(m.row),
            m: RowMachineModel { row: Seq::empty(), ..m },
            table,
        },
        RowState::InBinding => {
            match m.var_index {
                Some(i) => match m.term {
                    Some(tm) => keep_step(
                        RowMachineModel {
                            state: RowState::InResult,
                            row: m.row.update(i, Some(tm)),
                            var_index: None,
                            term: None,
                            lang: None,
                            datatype: None,
                        },
                        table,
                    ),
                    None => fail_step(m, table, MalformedResultsDocument::MissingBindingValue),
                },
                None => fail_step(m, table, MalformedResultsDocument::MissingBindingName),
            }
        },
        RowState::InUri | RowState::InBNode | RowState::InLiteral => keep_step(
            RowMachineModel { state: RowState::InBinding, ..m },
            table,
        ),
        RowState::RowDone => keep_step(m, table),
    }
}

/// The transition for text content.
pub open spec fn spec_row_text(
    m: RowMachineModel,
    table: Map<Seq<char>, Seq<char>>,
    fresh: Seq<char>,
    s: String,
) -> RowStepResult {
    match m.state {
        RowState::InUri => if iri_ok(s@) {
            keep_step(RowMachineModel { term: Some(TermModel::Named(s@)), ..m }, table)
        } else {
            fail_step(m, table, MalformedResultsDocument::InvalidIri(s))
        },
        RowState::InBNode => RowStepResult {
            out: RowOutcomeModel::Progress,
            m: RowMachineModel {
                term: Some(TermModel::Blank(resolve_id(table, fresh, s@))),
                ..m
            },
            table: resolve_map(table, fresh, s@),
        },
        RowState::InLiteral => keep_step(
            RowMachineModel {
                term: Some(TermModel::Literal(spec_build_literal(s@, m.lang, m.datatype))),
                ..m
            },
            table,
        ),
        _ => fail_step(m, table, MalformedResultsDocument::UnexpectedText(s)),
    }
}

/// The row transition: namespace mismatch is fatal before any other
/// interpretation; end-of-input is the end of the sequence only between rows
/// or after it, and fatal anywhere inside a row.
pub open spec fn spec_row_step(
    m: RowMachineModel,
    table: Map<Seq<char>, Seq<char>>,
    fresh: Seq<char>,
    vars: Seq<String>,
    ev: XmlEvent,
) -> RowStepResult {
    match ev {
        XmlEvent::Open(t) => {
            match t.ns {
                Some(n) => {
                    if n@ != crate::xml::results_ns_seq() {
                        fail_step(m, table, MalformedResultsDocument::UnexpectedNamespace(n))
                    } else {
                        spec_row_open(m, table, vars, t)
                    }
                },
                None => spec_row_open(m, table, vars, t),
            }
        },
        XmlEvent::Close(ns) => {
            match ns {
                Some(n) => {
                    if n@ != crate::xml::results_ns_seq() {
                        fail_step(m, table, MalformedResultsDocument::UnexpectedNamespace(n))
                    } else {
                        spec_row_close(m, table)
                    }
                },
                None => spec_row_close(m, table),
            }
        },
        XmlEvent::Text(s) => spec_row_text(m, table, fresh, s),
        XmlEvent::Eof => {
            if m.state is RowStart || m.state is RowDone {
                RowStepResult { out: RowOutcomeModel::Exhausted, m, table }
            } else {
                fail_step(m, table, MalformedResultsDocument::IncompleteDocument)
            }
        },
        XmlEvent::Other => keep_step(m, table),
    }
}

/// The mint count after one transition: one more identity exactly when the
/// transition grew the table.
pub open spec fn count_after(
    table: Map<Seq<char>, Seq<char>>,
    count: int,
    sr_table: Map<Seq<char>, Seq<char>>,
) -> int {
    if sr_table == table {
        count
    } else {
        count + 1
    }
}

/// The row transition cannot tell two alike events apart: it reads only the
/// namespace, name, attribute values, text and shape of an event.
pub proof fn lemma_alike_same_row_step(
    m: RowMachineModel,
    table: Map<Seq<char>, Seq<char>>,
    fresh: Seq<char>,
    vars: Seq<String>,
    a: XmlEvent,
    b: XmlEvent,
)
    requires
        events_alike(a, b),
    ensures
        spec_row_step(m, table, fresh, vars, a) == spec_row_step(m, table, fresh, vars, b),
{
    match (a, b) {
        (XmlEvent::Open(x), XmlEvent::Open(y)) => {
            assert(x.attrs@ == y.attrs@);
        },
        _ => {},
    }
}

/// The machine a fresh pull starts from: between rows, with an all-unbound
/// row sized to the declared variable count and empty capture slots.
pub open spec fn init_machine(nvars: int) -> RowMachineModel {
    RowMachineModel {
        state: RowState::RowStart,
        row: Seq::new(nvars as nat, |i: int| None),
        var_index: None,
        term: None,
        lang: None,
        datatype: None,
    }
}

/// What one pull of the row iterator decides.
pub enum NextOutcomeModel {
    /// The next row, in document order.
    Row(Seq<Option<TermModel>>),
    /// The sequence is over with no further row and no error.
    Done,
    /// A fatal violation of the row grammar.
    Fail(MalformedResultsDocument),
    /// The source could not be tokenized further.
    SourceFail,
}

/// A pull's decision together with the table, mint count and events left.
pub struct RowsRun {
    pub out: NextOutcomeModel,
    pub table: Map<Seq<char>, Seq<char>>,
    pub count: int,
    pub evs: Seq<XmlEvent>,
}

/// The row state machine folded over an event stream until it decides: the
/// machine steps over each event, minting session identities as blank node
/// labels are first seen; end of input between rows or after them is clean
/// exhaustion and fatal anywhere else, and a stream ending in a
/// tokenization failure fails as such.
pub open spec fn rows_run(
    m: RowMachineModel,
    table: Map<Seq<char>, Seq<char>>,
    mark: Seq<char>,
    count: int,
    vars: Seq<String>,
    evs: Seq<XmlEvent>,
    fails: bool,
) -> RowsRun
    decreases evs.len(),
{
    if evs.len() == 0 {
        if fails {
            RowsRun { out: NextOutcomeModel::SourceFail, table, count, evs }
        } else if m.state is RowStart || m.state is RowDone {
            RowsRun { out: NextOutcomeModel::Done, table, count, evs }
        } else {
            RowsRun {
                out: NextOutcomeModel::Fail(MalformedResultsDocument::IncompleteDocument),
                table,
                count,
                evs,
            }
        }
    } else {
        let sr = spec_row_step(m, table, mark + dec_digits(count), vars, evs[0]);
        let c2 = count_after(table, count, sr.table);
        match sr.out {
            RowOutcomeModel::Progress => rows_run(
                sr.m,
                sr.table,
                mark,
                c2,
                vars,
                evs.drop_first(),
                fails,
            ),
            RowOutcomeModel::RowReady(row) => RowsRun {
                out: NextOutcomeModel::Row(row),
                table: sr.table,
                count: c2,
                evs: evs.drop_first(),
            },
            RowOutcomeModel::Exhausted => RowsRun {
                out: NextOutcomeModel::Done,
                table: sr.table,
                count: c2,
                evs: evs.drop_first(),
            },
            RowOutcomeModel::Fail(e) => RowsRun {
                out: NextOutcomeModel::Fail(e),
                table: sr.table,
                count: c2,
                evs: evs.drop_first(),
            },
        }
    }
}

/// Opening-tag transitions never touch the table.
proof fn lemma_row_open_keeps_table(
    m: RowMachineModel,
    table: Map<Seq<char>, Seq<char>>,
    vars: Seq<String>,
    t: TagInfo,
)
    ensures
        spec_row_open(m, table, vars, t).table == table,
{
}

/// Closing-tag transitions never touch the table.
proof fn lemma_row_close_keeps_table(m: RowMachineModel, table: Map<Seq<char>, Seq<char>>)
    ensures
        spec_row_close(m, table).table == table,
{
}

/// Law: a second value element inside one binding is fatal with a
/// duplicate-binding-value error, whatever the element is.
pub proof fn lemma_duplicate_binding_value_is_fatal(
    m: RowMachineModel,
    table: Map<Seq<char>, Seq<char>>,
    fresh: Seq<char>,
    vars: Seq<String>,
    t: TagInfo,
)
    requires
        m.state == RowState::InBinding,
        m.term is Some,
        ns_acceptable(t.ns),
    ensures
        spec_row_step(m, table, fresh, vars, XmlEvent::Open(t)) == fail_step(
            m,
            table,
            MalformedResultsDocument::DuplicateBindingValue(t.name),
        ),
{
}

/// Law: a `binding` that names a variable absent from the declared list is
/// an explicit fatal error, never an out-of-range write.
pub proof fn lemma_unknown_variable_is_fatal(
    m: RowMachineModel,
    table: Map<Seq<char>, Seq<char>>,
    fresh: Seq<char>,
    vars: Seq<String>,
    t: TagInfo,
    a: XmlAttr,
)
    requires
        m.state == RowState::InResult,
        ns_acceptable(t.ns),
        !t.self_closing,
        t.name@ == "binding"@,
        spec_find_attr(t.attrs@, "name"@) == Some(a),
        forall|i: int| 0 <= i < vars.len() ==> (#[trigger] vars[i])@ != a.value@,
    ensures
        spec_row_step(m, table, fresh, vars, XmlEvent::Open(t)) == fail_step(
            m,
            table,
            MalformedResultsDocument::UnknownVariable(a.value),
        ),
{
    lemma_var_lookup_absent(vars, a.value@, 0);
}

proof fn lemma_var_lookup_absent(vars: Seq<String>, name: Seq<char>, i: int)
    requires
        forall|j: int| 0 <= j < vars.len() ==> (#[trigger] vars[j])@ != name,
    ensures
        var_lookup_from(vars, name, i) is None,
    decreases vars.len() - i,
{
    if 0 <= i < vars.len() {
        lemma_var_lookup_absent(vars, name, i + 1);
    }
}

fn none_row(n: usize) -> (v: Vec<Option<Term>>)
    ensures
        v@.len() == n as int,
        forall|i: int| 0 <= i < n as int ==> v@[i] is None,
{
    let mut v: Vec<Option<Term>> = Vec::new();
    let mut i: usize = 0;
    while i < n
        invariant
            i <= n,
            v@.len() == i as int,
            forall|j: int| 0 <= j < i as int ==> v@[j] is None,
        decreases n - i,
    {
        v.push(None);
        i += 1;
    }
    v
}

fn clone_opt_nn(o: &Option<NamedNode>) -> (r: Option<NamedNode>)
    ensures
        opt_nn_view(r) == opt_nn_view(*o),
{
    match o {
        Some(n) => Some(NamedNode { iri: n.iri.clone() }),
        None => None,
    }
}

/// One step of the row state machine, exactly the transition table above.
pub fn row_step(
    m: &mut RowMachine,
    table: &mut BlankNodeTable,
    vars: &Vec<String>,
    ev: XmlEvent,
) -> (r: RowOutcome)
    requires
        old(table).wf(),
        machine_inv(old(m).model(), vars@.len() as int),
    ensures
        final(table).wf(),
        ({
            let sr = spec_row_step(
                old(m).model(),
                old(table)@,
                old(table).fresh_label(),
                vars@,
                ev,
            );
            &&& outcome_model(r) == sr.out
            &&& final(m).model() == sr.m
            &&& final(table)@ == sr.table
        }),
        table_extends(final(table)@, old(table)@),
        final(table).mark_model() == old(table).mark_model(),
        final(table).mint_count() == count_after(
            old(table)@,
            old(table).mint_count(),
            spec_row_step(old(m).model(), old(table)@, old(table).fresh_label(), vars@, ev).table,
        ),
        r is Progress ==> machine_inv(final(m).model(), vars@.len() as int),
        r matches RowOutcome::RowReady(v) ==> v@.len() == vars@.len(),
{
    match ev {
        XmlEvent::Open(t) => {
            if !ns_ok(&t.ns) {
                match t.ns {
                    Some(n) => RowOutcome::Fail(MalformedResultsDocument::UnexpectedNamespace(n)),
                    None => {
                        proof {
                            assert(false);
                        }
                        RowOutcome::Fail(MalformedResultsDocument::IncompleteDocument)
                    },
                }
            } else {
                proof {
                    lemma_row_open_keeps_table(m.model(), table@, vars@, t);
                }
                row_open(m, vars, t)
            }
        },
        XmlEvent::Close(ns) => {
            if !ns_ok(&ns) {
                match ns {
                    Some(n) => RowOutcome::Fail(MalformedResultsDocument::UnexpectedNamespace(n)),
                    None => {
                        proof {
                            assert(false);
                        }
                        RowOutcome::Fail(MalformedResultsDocument::IncompleteDocument)
                    },
                }
            } else {
                proof {
                    lemma_row_close_keeps_table(m.model(), table@);
                }
                row_close(m)
            }
        },
        XmlEvent::Text(s) => row_text(m, table, s),
        XmlEvent::Eof => {
            if matches!(m.state, RowState::RowStart) || matches!(m.state, RowState::RowDone) {
                RowOutcome::Exhausted
            } else {
                RowOutcome::Fail(MalformedResultsDocument::IncompleteDocument)
            }
        },
        XmlEvent::Other => RowOutcome::Progress,
    }
}

fn row_open(m: &mut RowMachine, vars: &Vec<String>, t: TagInfo) -> (r: RowOutcome)
    requires
        machine_inv(old(m).model(), vars@.len() as int),
    ensures
        ({
            let sr = spec_row_open(old(m).model(), Map::empty(), vars@, t);
            &&& outcome_model(r) == sr.out
            &&& final(m).model() == sr.m
        }),
        r is Progress ==> machine_inv(final(m).model(), vars@.len() as int),
{
    let TagInfo { ns: _, name, attrs, self_closing } = t;
    match m.state {
        RowState::RowStart => {
            if self_closing {
                RowOutcome::Fail(MalformedResultsDocument::UnexpectedStructure(name))
            } else if string_eq_str(&name, "result") {
                m.state = RowState::InResult;
                m.row = none_row(vars.len());
                m.var_index = None;
                m.term = None;
                m.lang = None;
                m.datatype = None;
                proof {
                    assert(row_model(m.row@) =~= Seq::new(vars@.len(), |i: int| None));
                }
                RowOutcome::Progress
            } else {
                RowOutcome::Fail(MalformedResultsDocument::UnexpectedTag(name))
            }
        },
        RowState::InResult => {
            if self_closing {
                RowOutcome::Fail(MalformedResultsDocument::UnexpectedStructure(name))
            } else if string_eq_str(&name, "binding") {
                match find_attr(&attrs, "name") {
                    Some(a) => match var_lookup(vars, &a.value) {
                        Some(i) => {
                            m.state = RowState::InBinding;
                            m.var_index = Some(i);
                            RowOutcome::Progress
                        },
                        None => RowOutcome::Fail(
                            MalformedResultsDocument::UnknownVariable(a.value),
                        ),
                    },
                    None => RowOutcome::Fail(MalformedResultsDocument::MissingBindingName),
                }
            } else {
                RowOutcome::Fail(MalformedResultsDocument::UnexpectedTag(name))
            }
        },
        RowState::InBinding => {
            if m.term.is_some() {
                RowOutcome::Fail(MalformedResultsDocument::DuplicateBindingValue(name))
            } else if self_closing {
                RowOutcome::Fail(MalformedResultsDocument::UnexpectedStructure(name))
            } else if string_eq_str(&name, "uri") {
                m.state = RowState::InUri;
                RowOutcome::Progress
            } else if string_eq_str(&name, "bnode") {
                m.state = RowState::InBNode;
                RowOutcome::Progress
            } else if string_eq_str(&name, "literal") {
                let lang = match find_attr(&attrs, "xml:lang") {
                    Some(a) => Some(a.value),
                    None => None,
                };
                match find_attr(&attrs, "datatype") {
                    Some(a) => match parse_named_node(&a.value) {
                        Some(n) => {
                            m.state = RowState::InLiteral;
                            m.lang = lang;
                            m.datatype = Some(n);
                            RowOutcome::Progress
                        },
                        None => RowOutcome::Fail(MalformedResultsDocument::InvalidIri(a.value)),
                    },
                    None => {
                        m.state = RowState::InLiteral;
                        m.lang = lang;
                        m.datatype = None;
                        RowOutcome::Progress
                    },
                }
            } else {
                RowOutcome::Fail(MalformedResultsDocument::UnexpectedTag(name))
            }
        },
        _ => RowOutcome::Fail(MalformedResultsDocument::UnexpectedStructure(name)),
    }
}

fn row_close(m: &mut RowMachine) -> (r: RowOutcome)
    requires
        old(m).var_index matches Some(i) ==> (i as int) < old(m).row@.len(),
    ensures
        ({
            let sr = spec_row_close(old(m).model(), Map::empty());
            &&& outcome_model(r) == sr.out
            &&& final(m).model() == sr.m
        }),
{
    match m.state {
        RowState::RowStart => {
            m.state = RowState::RowDone;
            RowOutcome::Progress
        },
        RowState::InResult => {
            let mut row: Vec<Option<Term>> = Vec::new();
            core::mem::swap(&mut row, &mut m.row);
            proof {
                assert(row_model(m.row@) =~= Seq::<Option<TermModel>>::empty());
            }
            RowOutcome::RowReady(row)
        },
        RowState::InBinding => {
            match m.var_index {
                Some(i) => {
                    let mut tm: Option<Term> = None;
                    core::mem::swap(&mut tm, &mut m.term);
                    match tm {
                        Some(term) => {
                            if i < m.row.len() {
                                m.row[i] = Some(term);
                                m.state = RowState::InResult;
                                m.var_index = None;
                                m.lang = None;
                                m.datatype = None;
                                proof {
                                    assert(row_model(m.row@) =~= row_model(old(m).row@).update(
                                        i as int,
                                        opt_term_model(old(m).term),
                                    ));
                                }
                                RowOutcome::Progress
                            } else {
                                proof {
                                    assert(false);
                                }
                                RowOutcome::Fail(MalformedResultsDocument::MissingBindingName)
                            }
                        },
                        None => {
                            RowOutcome::Fail(MalformedResultsDocument::MissingBindingValue)
                        },
                    }
                },
                None => RowOutcome::Fail(MalformedResultsDocument::MissingBindingName),
            }
        },
        RowState::InUri | RowState::InBNode | RowState::InLiteral => {
            m.state = RowState::InBinding;
            RowOutcome::Progress
        },
        RowState::RowDone => RowOutcome::Progress,
    }
}

fn row_text(m: &mut RowMachine, table: &mut BlankNodeTable, s: String) -> (r: RowOutcome)
    requires
        old(table).wf(),
    ensures
        final(table).wf(),
        ({
            let sr = spec_row_text(
                old(m).model(),
                old(table)@,
                old(table).fresh_label(),
                s,
            );
            &&& outcome_model(r) == sr.out
            &&& final(m).model() == sr.m
            &&& final(table)@ == sr.table
        }),
        table_extends(final(table)@, old(table)@),
        final(table).mark_model() == old(table).mark_model(),
        final(table).mint_count() == count_after(
            old(table)@,
            old(table).mint_count(),
            spec_row_text(old(m).model(), old(table)@, old(table).fresh_label(), s).table,
        ),
{
    match m.state {
        RowState::InUri => match parse_named_node(&s) {
            Some(n) => {
                m.term = Some(Term::Named(n));
                RowOutcome::Progress
            },
            None => RowOutcome::Fail(MalformedResultsDocument::InvalidIri(s)),
        },
        RowState::InBNode => {
            proof {
                lemma_resolve_extends(table@, table.fresh_label(), s@);
                if !table@.contains_key(s@) {
                    assert(resolve_map(table@, table.fresh_label(), s@).contains_key(s@));
                    assert(resolve_map(table@, table.fresh_label(), s@) != table@);
                }
            }
            let id = table.resolve(&s);
            m.term = Some(Term::Blank(id));
            RowOutcome::Progress
        },
        RowState::InLiteral => {
            let lang = clone_opt_string(&m.lang);
            let dt = clone_opt_nn(&m.datatype);
            let lit = build_literal(s, lang, dt);
            m.term = Some(Term::Literal(lit));
            RowOutcome::Progress
        },
        _ => RowOutcome::Fail(MalformedResultsDocument::UnexpectedText(s)),
    }
}

/// A lazy, single-pass, non-restartable sequence of result rows. After the
/// first error or after exhaustion it is poisoned: every further pull
/// reports exhaustion.
pub struct ResultsIterator {
    src: XmlSource,
    vars: Vec<String>,
    bnodes: BlankNodeTable,
    done: bool,
}

impl ResultsIterator {
    /// The table of blank node labels is well-formed.
    pub closed spec fn wf(self) -> bool {
        self.bnodes.wf()
    }

    /// Whether the sequence is exhausted or poisoned.
    pub closed spec fn is_done(self) -> bool {
        self.done
    }

    /// The declared variable count: every row has exactly this many slots.
    pub closed spec fn num_vars(self) -> int {
        self.vars@.len() as int
    }

    /// The declared variable names, in declaration order.
    pub closed spec fn vars_model(self) -> Seq<Seq<char>> {
        self.vars@.map_values(|s: String| s@)
    }

    /// The declared variable names as values, in declaration order.
    pub closed spec fn vars_values(self) -> Seq<String> {
        self.vars@
    }

    /// The events the iterator's source has still to hand out.
    pub closed spec fn events_model(self) -> Seq<XmlEvent> {
        src_events(self.src)
    }

    /// Whether the iterator's source ends in a tokenization failure.
    pub closed spec fn fails_model(self) -> bool {
        src_fails(self.src)
    }

    /// The session's blank node label mapping.
    pub closed spec fn table_model(self) -> Map<Seq<char>, Seq<char>> {
        self.bnodes@
    }

    /// The session's random identity mark.
    pub closed spec fn mark_model(self) -> Seq<char> {
        self.bnodes.mark_model()
    }

    /// How many identities the session has minted so far.
    pub closed spec fn count_model(self) -> int {
        self.bnodes.mint_count()
    }

    pub(crate) fn make(src: XmlSource, vars: Vec<String>, done: bool) -> (it: ResultsIterator)
        ensures
            it.wf(),
            it.is_done() == done,
            it.table_model() == Map::<Seq<char>, Seq<char>>::empty(),
            it.vars_model() == vars@.map_values(|s: String| s@),
            it.vars_values() == vars@,
            it.events_model() == src_events(src),
            it.fails_model() == src_fails(src),
            it.num_vars() == vars@.len() as int,
    {
        ResultsIterator { src, vars, bnodes: BlankNodeTable::new(), done }
    }

    /// Pulls the next row: exactly what the row state machine folded over
    /// the source's remaining events decides. `None` means the sequence is
    /// over — the fold reached a clean end, or a previous pull failed and
    /// the iterator is poisoned. A row always has exactly one slot per
    /// declared variable, and a blank node label resolved by an earlier row
    /// keeps its identity: the session table only grows. An error poisons
    /// the iterator.
    pub fn next(&mut self) -> (r: Option<
        Result<Vec<Option<Term>>, MalformedResultsDocument>,
    >)
        requires
            old(self).wf(),
        ensures
            final(self).wf(),
            final(self).num_vars() == old(self).num_vars(),
            final(self).vars_model() == old(self).vars_model(),
            old(self).is_done() ==> r is None && *final(self) == *old(self),
            r is None ==> final(self).is_done(),
            r matches Some(Err(_)) ==> final(self).is_done(),
            r matches Some(Ok(row)) ==> row@.len() == old(self).num_vars(),
            table_extends(final(self).table_model(), old(self).table_model()),
            !old(self).is_done() ==> ({
                let run = rows_run(
                    init_machine(old(self).num_vars()),
                    old(self).table_model(),
                    old(self).mark_model(),
                    old(self).count_model(),
                    old(self).vars_values(),
                    old(self).events_model(),
                    old(self).fails_model(),
                );
                &&& (run.out matches NextOutcomeModel::Row(rm) ==> (r matches Some(Ok(row))
                    && row_model(row@) == rm && !final(self).is_done() && final(self).table_model() == run.table && final(self).count_model() == run.count && final(self).events_model() == run.evs && final(self).fails_model() == old(self).fails_model()))
                &&& (run.out is Done ==> r is None)
                &&& (run.out matches NextOutcomeModel::Fail(e) ==> r == Some(Err::<
                    Vec<Option<Term>>,
                    MalformedResultsDocument,
                >(e)))
                &&& (run.out is SourceFail ==> (r matches Some(Err(e)) && e is SourceError))
            }),
    {
        if self.done {
            return None;
        }
        let mut machine = RowMachine {
            state: RowState::RowStart,
            row: none_row(self.vars.len()),
            var_index: None,
            term: None,
            lang: None,
            datatype: None,
        };
        proof {
            assert(row_model(machine.row@) =~= Seq::new(
                old(self).num_vars() as nat,
                |i: int| None,
            ));
            assert(machine.model() == init_machine(old(self).num_vars()));
        }
        loop
            invariant
                self.bnodes.wf(),
                machine_inv(machine.model(), self.vars@.len() as int),
                self.vars == old(self).vars,
                self.done == old(self).done,
                !old(self).done,
                table_extends(self.bnodes@, old(self).bnodes@),
                self.bnodes.mark_model() == old(self).bnodes.mark_model(),
                src_fails(self.src) == src_fails(old(self).src),
                rows_run(
                    init_machine(old(self).num_vars()),
                    old(self).bnodes@,
                    old(self).bnodes.mark_model(),
                    old(self).bnodes.mint_count(),
                    old(self).vars@,
                    src_events(old(self).src),
                    src_fails(old(self).src),
                ) == rows_run(
                    machine.model(),
                    self.bnodes@,
                    old(self).bnodes.mark_model(),
                    self.bnodes.mint_count(),
                    self.vars@,
                    src_events(self.src),
                    src_fails(self.src),
                ),
            decreases src_events(self.src).len(),
        {
            let ghost pre_evs = src_events(self.src);
            let ev = match next_event(&mut self.src) {
                Ok(e) => e,
                Err(e) => {
                    self.done = true;
                    return Some(Err(e));
                },
            };
            proof {
                lemma_fresh_label_shape(self.bnodes);
                if !(ev is Eof) {
                    lemma_alike_same_row_step(
                        machine.model(),
                        self.bnodes@,
                        self.bnodes.fresh_label(),
                        self.vars@,
                        ev,
                        pre_evs[0],
                    );
                }
            }
            let ghost table_before = self.bnodes@;
            let outcome = row_step(&mut machine, &mut self.bnodes, &self.vars, ev);
            proof {
                lemma_table_extends_trans(self.bnodes@, table_before, old(self).bnodes@);
            }
            match outcome {
                RowOutcome::Progress => {},
                RowOutcome::RowReady(row) => {
                    return Some(Ok(row));
                },
                RowOutcome::Exhausted => {
                    self.done = true;
                    return None;
                },
                RowOutcome::Fail(e) => {
                    self.done = true;
                    return Some(Err(e));
                },
            }
        }
    }
}

} // verus!
