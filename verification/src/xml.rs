//! The XML event boundary. A namespace-aware streaming tokenizer from the
//! `quick_xml` crate is driven behind a small trusted surface; everything the
//! parsers consume is handed out as plain values (tag names, attribute pairs,
//! text), so the state machines above are verified against plain events.

use vstd::prelude::*;

use crate::error::MalformedResultsDocument;
use quick_xml::events::Event;
use quick_xml::name::ResolveResult;

verus! {

#[verifier::external_type_specification]
#[verifier::external_body]
#[verifier::reject_recursive_types(R)]
pub struct ExNsReader<R>(quick_xml::reader::NsReader<R>);

#[verifier::external_type_specification]
#[verifier::external_body]
#[verifier::reject_recursive_types(T)]
pub struct ExCursor<T>(std::io::Cursor<T>);

#[verifier::external_type_specification]
#[verifier::external_body]
pub struct ExBytesStart<'a>(quick_xml::events::BytesStart<'a>);

#[verifier::external_type_specification]
#[verifier::external_body]
pub struct ExBytesText<'a>(quick_xml::events::BytesText<'a>);

/// One attribute of a tag: full (prefixed) attribute name, unescaped value.
pub struct XmlAttr {
    pub key: String,
    pub value: String,
}

impl XmlAttr {
    pub fn duplicate(&self) -> (r: XmlAttr)
        ensures
            r == *self,
    {
        XmlAttr { key: self.key.clone(), value: self.value.clone() }
    }
}

/// An opening tag: its resolved namespace (if any), local name, attributes,
/// and whether it was self-closing.
pub struct TagInfo {
    pub ns: Option<String>,
    pub name: String,
    pub attrs: Vec<XmlAttr>,
    pub self_closing: bool,
}

/// The plain event stream the result parsers consume.
pub enum XmlEvent {
    /// An opening or self-closing tag.
    Open(TagInfo),
    /// A closing tag, with its resolved namespace (if any).
    Close(Option<String>),
    /// Unescaped, whitespace-trimmed text content.
    Text(String),
    /// End of the document bytes.
    Eof,
    /// An event the results grammar ignores (comments, declarations, ...).
    Other,
}

/// Which kind of event the trusted reader last produced.
pub(crate) enum RawKind {
    Open,
    SelfClosed,
    Text,
    Close,
    Eof,
    Other,
}

/// A streaming XML source over an in-memory document, together with the last
/// tag event, kept so the accessors below can extract its pieces.
pub struct XmlSource {
    reader: quick_xml::reader::NsReader<std::io::Cursor<Vec<u8>>>,
    buf: Vec<u8>,
    cur: Option<quick_xml::events::BytesStart<'static>>,
    cur_ns: Option<String>,
    cur_text: Option<String>,
}

/// The plain events the source has still to hand out, in order, up to the
/// end of input or the first tokenization failure; end-of-input itself is
/// not an element. A function of the source value: the tokenizer is
/// deterministic over the in-memory document bytes.
pub uninterp spec fn src_events(s: XmlSource) -> Seq<XmlEvent>;

/// Whether the source's remaining input ends in a tokenization failure
/// (malformed XML, a bad entity) instead of a clean end of input.
pub uninterp spec fn src_fails(s: XmlSource) -> bool;

/// The event the source handed out last; the accessors below read its
/// pieces.
pub uninterp spec fn src_taken(s: XmlSource) -> XmlEvent;

/// The event stream of a whole document, and whether it ends in a
/// tokenization failure.
pub uninterp spec fn doc_events(d: Seq<u8>) -> Seq<XmlEvent>;

/// As `doc_events`: whether the document's tokenization ends in a failure.
pub uninterp spec fn doc_fails(d: Seq<u8>) -> bool;

/// Two events the parsers cannot tell apart: same shape, same namespace,
/// name, text and attribute values; attribute lists may differ as
/// containers but hold equal values.
pub open spec fn events_alike(a: XmlEvent, b: XmlEvent) -> bool {
    match (a, b) {
        (XmlEvent::Open(x), XmlEvent::Open(y)) => x.ns == y.ns && x.name == y.name && x.attrs@
            =~= y.attrs@ && x.self_closing == y.self_closing,
        (XmlEvent::Close(n1), XmlEvent::Close(n2)) => n1 == n2,
        (XmlEvent::Text(s1), XmlEvent::Text(s2)) => s1 == s2,
        (XmlEvent::Eof, XmlEvent::Eof) => true,
        (XmlEvent::Other, XmlEvent::Other) => true,
        _ => false,
    }
}

/// The attribute pairs the tokenizer accepted, in order, rejected ones
/// dropped.
pub open spec fn filtered_attrs(raw: Seq<Option<XmlAttr>>) -> Seq<XmlAttr>
    decreases raw.len(),
{
    if raw.len() == 0 {
        Seq::empty()
    } else {
        match raw[0] {
            Some(a) => seq![a] + filtered_attrs(raw.drop_first()),
            None => filtered_attrs(raw.drop_first()),
        }
    }
}

/// Relies on `quick_xml::reader::NsReader::from_reader` and
/// `Config::trim_text` to build a namespace-aware streaming reader over the
/// document bytes, trimming surrounding whitespace from text content. The
/// fresh source holds exactly the document's event stream.
#[verifier::external_body]
pub(crate) fn source_new(doc: Vec<u8>) -> (s: XmlSource)
    ensures
        src_events(s) == doc_events(doc@),
        src_fails(s) == doc_fails(doc@),
{
    let mut reader = quick_xml::reader::NsReader::from_reader(std::io::Cursor::new(doc));
    reader.config_mut().trim_text(true);
    XmlSource { reader, buf: Vec::new(), cur: None, cur_ns: None, cur_text: None }
}

/// Relies on `quick_xml::events::BytesText::unescape` to resolve entity
/// references in one text event's content.
#[verifier::external_body]
fn unescape_text(e: quick_xml::events::BytesText<'_>) -> (r: Result<String, String>) {
    e.unescape().map(|c| c.into_owned()).map_err(|er| format!("{}", er))
}

/// Relies on `quick_xml::reader::NsReader::read_resolved_event_into` for
/// the next tokenizer event with its namespace resolution, and on
/// `unescape_text` above for text content. The tokenizer
/// is deterministic over the in-memory bytes: the call consumes exactly the
/// head of the remaining event stream, fails exactly where the stream ends
/// in a failure, and reports end of input exactly where the stream ends
/// cleanly.
#[verifier::external_body]
fn read_step(src: &mut XmlSource) -> (r: Result<RawKind, String>)
    ensures
        r is Err <==> (src_events(*old(src)).len() == 0 && src_fails(*old(src))),
        r matches Ok(k) ==> ((k is Eof) <==> src_events(*old(src)).len() == 0),
        r matches Ok(k) ==> (!(k is Eof) ==> {
            let head = src_events(*old(src))[0];
            &&& src_taken(*final(src)) == head
            &&& src_events(*final(src)) == src_events(*old(src)).drop_first()
            &&& src_fails(*final(src)) == src_fails(*old(src))
            &&& (k is Open ==> (head matches XmlEvent::Open(t) && !t.self_closing && final(src).cur_ns == t.ns))
            &&& (k is SelfClosed ==> (head matches XmlEvent::Open(t) && t.self_closing && final(src).cur_ns == t.ns))
            &&& (k is Text ==> (head matches XmlEvent::Text(s) && final(src).cur_text == Some(
                s,
            )))
            &&& (k is Close ==> (head matches XmlEvent::Close(n) && final(src).cur_ns == n))
            &&& (k is Other ==> head is Other)
        }),
{
    let (ns, ev) = src.reader.read_resolved_event_into(&mut src.buf).map_err(|e| e.to_string())?;
    src.cur_ns = match ns { ResolveResult::Bound(n) => Some(String::from_utf8_lossy(n.0).into_owned()), _ => None };
    match ev {
        Event::Start(e) => { src.cur = Some(e.into_owned()); Ok(RawKind::Open) }
        Event::Empty(e) => { src.cur = Some(e.into_owned()); Ok(RawKind::SelfClosed) }
        Event::Text(e) => { src.cur_text = Some(unescape_text(e.into_owned())?); Ok(RawKind::Text) }
        Event::End(_) => Ok(RawKind::Close),
        Event::Eof => Ok(RawKind::Eof),
        _ => Ok(RawKind::Other),
    }
}

/// Relies on `quick_xml::events::BytesStart::local_name` for the tag name
/// of the last tag event, decoded as UTF-8: exactly the name of the event
/// the source handed out last.
#[verifier::external_body]
fn tag_name(src: &XmlSource) -> (r: String)
    ensures
        src_taken(*src) matches XmlEvent::Open(t) ==> r == t.name,
{
    match &src.cur {
        Some(e) => String::from_utf8_lossy(e.local_name().as_ref()).into_owned(),
        None => String::new(),
    }
}

/// Relies on `quick_xml::events::BytesStart::attributes` and
/// `Attribute::unescape_value` to hand out the last tag event's attributes
/// as plain pairs; an attribute the tokenizer rejects becomes `None`, and
/// the accepted ones are exactly the attribute values of the event the
/// source handed out last.
#[verifier::external_body]
fn tag_attrs(src: &XmlSource) -> (r: Vec<Option<XmlAttr>>)
    ensures
        src_taken(*src) matches XmlEvent::Open(t) ==> filtered_attrs(r@) == t.attrs@,
{
    let mut out: Vec<Option<XmlAttr>> = Vec::new();
    if let Some(e) = &src.cur {
        for a in e.attributes() {
            let plain = match a {
                Ok(a) => match a.unescape_value() {
                    Ok(v) => Some(XmlAttr { key: String::from_utf8_lossy(a.key.as_ref()).into_owned(), value: v.into_owned() }),
                    Err(_) => None,
                },
                Err(_) => None,
            };
            out.push(plain);
        }
    }
    out
}

pub(crate) fn clone_opt_string(o: &Option<String>) -> (r: Option<String>)
    ensures
        r == *o,
{
    match o {
        Some(s) => Some(s.clone()),
        None => None,
    }
}

fn build_tag(src: &XmlSource, self_closing: bool) -> (t: TagInfo)
    ensures
        t.self_closing == self_closing,
        t.ns == src.cur_ns,
        src_taken(*src) matches XmlEvent::Open(h) ==> t.name == h.name && t.attrs@ =~= h.attrs@,
{
    let raw = tag_attrs(src);
    let mut attrs: Vec<XmlAttr> = Vec::new();
    let mut i: usize = 0;
    proof {
        assert(raw@.skip(0) =~= raw@);
    }
    while i < raw.len()
        invariant
            i <= raw@.len(),
            attrs@ + filtered_attrs(raw@.skip(i as int)) =~= filtered_attrs(raw@),
        decreases raw@.len() - i,
    {
        proof {
            assert(raw@.skip(i as int).drop_first() =~= raw@.skip(i as int + 1));
            assert(raw@.skip(i as int)[0] == raw@[i as int]);
        }
        match &raw[i] {
            Some(a) => {
                attrs.push(a.duplicate());
                proof {
                    assert(attrs@ + filtered_attrs(raw@.skip(i as int + 1)) =~= filtered_attrs(
                        raw@,
                    ));
                }
            },
            None => (),
        }
        i += 1;
    }
    proof {
        assert(raw@.skip(raw@.len() as int) =~= Seq::<Option<XmlAttr>>::empty());
        assert(attrs@ =~= filtered_attrs(raw@));
    }
    TagInfo { ns: clone_opt_string(&src.cur_ns), name: tag_name(src), attrs, self_closing }
}

/// Pulls the next plain event. Whatever event the remaining stream holds
/// first, an event the parsers cannot tell apart from it comes back, and
/// the stream advances past it; end of input and tokenization failure are
/// reported exactly where the stream says.
pub(crate) fn next_event(src: &mut XmlSource) -> (r: Result<XmlEvent, MalformedResultsDocument>)
    ensures
        r is Err <==> (src_events(*old(src)).len() == 0 && src_fails(*old(src))),
        r matches Err(e) ==> e is SourceError,
        r matches Ok(ev) ==> ((ev is Eof) <==> src_events(*old(src)).len() == 0),
        r matches Ok(ev) ==> (ev is Eof ==> !src_fails(*old(src))),
        r matches Ok(ev) ==> (!(ev is Eof) ==> events_alike(ev, src_events(*old(src))[0])
            && src_events(*final(src)) == src_events(*old(src)).drop_first() && src_fails(
            *final(src),
        ) == src_fails(*old(src))),
{
    match read_step(src) {
        Err(m) => Err(MalformedResultsDocument::SourceError(m)),
        Ok(k) => match k {
            RawKind::Open => Ok(XmlEvent::Open(build_tag(src, false))),
            RawKind::SelfClosed => Ok(XmlEvent::Open(build_tag(src, true))),
            RawKind::Text => match &src.cur_text {
                Some(t) => Ok(XmlEvent::Text(t.clone())),
                None => {
                    proof {
                        assert(false);
                    }
                    Ok(XmlEvent::Other)
                },
            },
            RawKind::Close => Ok(XmlEvent::Close(clone_opt_string(&src.cur_ns))),
            RawKind::Eof => Ok(XmlEvent::Eof),
            RawKind::Other => Ok(XmlEvent::Other),
        },
    }
}

/// The fixed namespace every results-vocabulary element must belong to.
pub open spec fn results_ns_seq() -> Seq<char> {
    "http://www.w3.org/2005/sparql-results#"@
}

/// An element's namespace is acceptable when it is either unstated or the
/// results namespace; a stated foreign namespace is a mismatch.
pub open spec fn ns_acceptable(ns: Option<String>) -> bool {
    ns matches Some(n) ==> n@ == results_ns_seq()
}

pub(crate) fn string_eq_str(a: &String, b: &str) -> (r: bool)
    ensures
        r == (a@ == b@),
{
    let bs: String = b.to_owned();
    *a == bs
}

pub(crate) fn ns_ok(ns: &Option<String>) -> (r: bool)
    ensures
        r == ns_acceptable(*ns),
{
    match ns {
        None => true,
        Some(n) => string_eq_str(n, "http://www.w3.org/2005/sparql-results#"),
    }
}

/// The first attribute named `key`, searched from position `i`.
pub open spec fn find_attr_from(attrs: Seq<XmlAttr>, key: Seq<char>, i: int) -> Option<XmlAttr>
    decreases attrs.len() - i,
{
    if i < 0 || i >= attrs.len() {
        None
    } else if attrs[i].key@ == key {
        Some(attrs[i])
    } else {
        find_attr_from(attrs, key, i + 1)
    }
}

/// The first attribute named `key`, if any.
pub open spec fn spec_find_attr(attrs: Seq<XmlAttr>, key: Seq<char>) -> Option<XmlAttr> {
    find_attr_from(attrs, key, 0)
}

pub(crate) fn find_attr(attrs: &Vec<XmlAttr>, key: &str) -> (r: Option<XmlAttr>)
    ensures
        r == spec_find_attr(attrs@, key@),
{
    let mut i: usize = 0;
    while i < attrs.len()
        invariant
            i <= attrs@.len(),
            spec_find_attr(attrs@, key@) == find_attr_from(attrs@, key@, i as int),
        decreases attrs@.len() - i,
    {
        if string_eq_str(&attrs[i].key, key) {
            return Some(attrs[i].duplicate());
        }
        i += 1;
    }
    None
}

} // verus!
