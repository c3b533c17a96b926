//! The blank node table: a per-parse-session mapping from document-local
//! blank node labels to freshly minted identities. Within one session the
//! same label always resolves to the same identity; each session starts from
//! an empty table under a fresh random session mark, so identities minted by
//! independent sessions are unrelated and do not collide.

use vstd::prelude::*;

use crate::model::BlankNode;

verus! {

/// The decimal digit character for `d` (0 through 9).
pub open spec fn digit_char(d: int) -> char {
    if d == 0 {
        '0'
    } else if d == 1 {
        '1'
    } else if d == 2 {
        '2'
    } else if d == 3 {
        '3'
    } else if d == 4 {
        '4'
    } else if d == 5 {
        '5'
    } else if d == 6 {
        '6'
    } else if d == 7 {
        '7'
    } else if d == 8 {
        '8'
    } else {
        '9'
    }
}

/// The decimal rendering of a nonnegative integer, most significant digit
/// first.
pub open spec fn dec_digits(n: int) -> Seq<char>
    recommends
        n >= 0,
    decreases n,
{
    if n < 10 {
        seq![digit_char(n)]
    } else {
        dec_digits(n / 10).push(digit_char(n % 10))
    }
}

/// Relies on the standard library's `RandomState`: every instance draws
/// fresh per-instance hash keys, so finishing an empty hash differs between
/// table constructions; the mark separates identity spaces of independent
/// sessions. Nothing is promised of the value: randomness has no
/// specification.
#[verifier::external_body]
fn session_mark() -> (s: String) {
    let h = std::hash::BuildHasher::build_hasher(&std::collections::hash_map::RandomState::new());
    format!("b{:x}.", std::hash::Hasher::finish(&h))
}

/// Relies on the standard library's `Display` implementations for `str` and
/// `u64`: formatting writes the prefix's characters followed by exactly the
/// decimal digits of the counter.
#[verifier::external_body]
fn mint_label(prefix: &String, n: u64) -> (s: String)
    ensures
        s@ == prefix@ + dec_digits(n as int),
{
    format!("{}{}", prefix, n)
}

/// The mapping a sequence of (label, identity) entries denotes; on duplicate
/// labels the later entry wins, but a well-formed table has none.
pub open spec fn map_of(entries: Seq<(String, String)>) -> Map<Seq<char>, Seq<char>>
    decreases entries.len(),
{
    if entries.len() == 0 {
        Map::empty()
    } else {
        map_of(entries.drop_last()).insert(entries.last().0@, entries.last().1@)
    }
}

/// What resolving `l` returns: the remembered identity if the label was seen,
/// otherwise the fresh identity `fresh`.
pub open spec fn resolve_id(
    m: Map<Seq<char>, Seq<char>>,
    fresh: Seq<char>,
    l: Seq<char>,
) -> Seq<char> {
    if m.contains_key(l) {
        m[l]
    } else {
        fresh
    }
}

/// What the table holds after resolving `l`: unchanged if the label was seen,
/// otherwise extended with the fresh identity.
pub open spec fn resolve_map(
    m: Map<Seq<char>, Seq<char>>,
    fresh: Seq<char>,
    l: Seq<char>,
) -> Map<Seq<char>, Seq<char>> {
    if m.contains_key(l) {
        m
    } else {
        m.insert(l, fresh)
    }
}

/// `m2` remembers everything `m1` remembers, unchanged: the table only
/// grows.
pub open spec fn table_extends(
    m2: Map<Seq<char>, Seq<char>>,
    m1: Map<Seq<char>, Seq<char>>,
) -> bool {
    forall|l: Seq<char>| #[trigger]
        m1.contains_key(l) ==> m2.contains_key(l) && m2[l] == m1[l]
}

/// Growing the table is transitive across steps.
pub proof fn lemma_table_extends_trans(
    m3: Map<Seq<char>, Seq<char>>,
    m2: Map<Seq<char>, Seq<char>>,
    m1: Map<Seq<char>, Seq<char>>,
)
    requires
        table_extends(m3, m2),
        table_extends(m2, m1),
    ensures
        table_extends(m3, m1),
{
    assert forall|l: Seq<char>| m1.contains_key(l) implies m3.contains_key(l) && m3[l]
        == m1[l] by {
        assert(m2.contains_key(l) && m2[l] == m1[l]);
    }
}

/// The fresh identity is the session mark followed by the mint count's
/// decimal digits.
pub proof fn lemma_fresh_label_shape(t: BlankNodeTable)
    ensures
        t.fresh_label() == t.mark_model() + dec_digits(t.mint_count()),
{
}

/// Resolving a label only grows the table.
pub proof fn lemma_resolve_extends(
    m: Map<Seq<char>, Seq<char>>,
    fresh: Seq<char>,
    l: Seq<char>,
)
    ensures
        table_extends(resolve_map(m, fresh, l), m),
{
}

/// Law: within one session, a label resolves to the same identity every time.
/// After one resolution of `l`, any later resolution of `l` returns the first
/// identity, whatever fresh identity would next be minted.
pub proof fn lemma_same_label_same_identity(
    m: Map<Seq<char>, Seq<char>>,
    fresh1: Seq<char>,
    fresh2: Seq<char>,
    l: Seq<char>,
)
    ensures
        resolve_id(resolve_map(m, fresh1, l), fresh2, l) == resolve_id(m, fresh1, l),
{
}

/// Law: resolving one label never disturbs what another label resolves to.
pub proof fn lemma_resolve_preserves_others(
    m: Map<Seq<char>, Seq<char>>,
    fresh: Seq<char>,
    l: Seq<char>,
    other: Seq<char>,
)
    requires
        m.contains_key(other),
        other != l,
    ensures
        resolve_map(m, fresh, l).contains_key(other),
        resolve_map(m, fresh, l)[other] == m[other],
{
}

pub struct BlankNodeTable {
    mark: String,
    entries: Vec<(String, String)>,
}

impl View for BlankNodeTable {
    type V = Map<Seq<char>, Seq<char>>;

    closed spec fn view(&self) -> Map<Seq<char>, Seq<char>> {
        map_of(self.entries@)
    }
}

impl BlankNodeTable {
    /// Labels are pairwise distinct, so the entry list and the map agree.
    pub closed spec fn wf(self) -> bool {
        forall|i: int, j: int|
            0 <= i < j < self.entries@.len() ==> self.entries@[i].0@ != self.entries@[j].0@
    }

    /// The identity minted for the next unseen label: this session's mark
    /// followed by the mint counter.
    pub closed spec fn fresh_label(self) -> Seq<char> {
        self.mark@ + dec_digits(self.entries@.len() as int)
    }

    /// This session's random mark, fixed for the table's lifetime.
    pub closed spec fn mark_model(self) -> Seq<char> {
        self.mark@
    }

    /// How many identities the session has minted.
    pub closed spec fn mint_count(self) -> int {
        self.entries@.len() as int
    }

    /// Builds the empty table of a fresh session, under a session mark drawn
    /// at random so that identities of independent sessions do not collide.
    pub fn new() -> (t: BlankNodeTable)
        ensures
            t.wf(),
            t@ == Map::<Seq<char>, Seq<char>>::empty(),
    {
        let t = BlankNodeTable { mark: session_mark(), entries: Vec::new() };
        proof {
            assert(t@ =~= Map::<Seq<char>, Seq<char>>::empty());
        }
        t
    }

    /// Resolves a document-local label to this session's identity for it,
    /// minting and remembering a fresh identity on first sight.
    pub fn resolve(&mut self, label: &String) -> (id: BlankNode)
        requires
            old(self).wf(),
        ensures
            final(self).wf(),
            id.id@ == resolve_id(old(self)@, old(self).fresh_label(), label@),
            final(self)@ == resolve_map(old(self)@, old(self).fresh_label(), label@),
            final(self).mark_model() == old(self).mark_model(),
            old(self)@.contains_key(label@) ==> final(self).mint_count() == old(self).mint_count(),
            !old(self)@.contains_key(label@) ==> final(self).mint_count() == old(self).mint_count() + 1,
    {
        let n = self.entries.len();
        let mut i: usize = 0;
        while i < n
            invariant
                n == self.entries@.len(),
                i <= n,
                old(self).wf(),
                *self == *old(self),
                forall|j: int| 0 <= j < i ==> self.entries@[j].0@ != label@,
            decreases n - i,
        {
            if self.entries[i].0 == *label {
                proof {
                    lemma_map_of_found(self.entries@, i as int);
                }
                return BlankNode { id: self.entries[i].1.clone() };
            }
            i += 1;
        }
        proof {
            lemma_map_of_absent(self.entries@, label@);
        }
        let fresh = mint_label(&self.mark, self.entries.len() as u64);
        let id = BlankNode { id: fresh.clone() };
        self.entries.push((label.clone(), fresh));
        proof {
            assert(self.entries@.drop_last() =~= old(self).entries@);
        }
        id
    }
}

/// In a table with pairwise distinct labels, entry `i` is exactly what the
/// denoted map remembers for its label.
proof fn lemma_map_of_found(entries: Seq<(String, String)>, i: int)
    requires
        0 <= i < entries.len(),
        forall|p: int, q: int| 0 <= p < q < entries.len() ==> entries[p].0@ != entries[q].0@,
    ensures
        map_of(entries).contains_key(entries[i].0@),
        map_of(entries)[entries[i].0@] == entries[i].1@,
    decreases entries.len(),
{
    if i < entries.len() - 1 {
        lemma_map_of_found(entries.drop_last(), i);
    }
}

/// A label no entry carries is absent from the denoted map.
proof fn lemma_map_of_absent(entries: Seq<(String, String)>, l: Seq<char>)
    requires
        forall|j: int| 0 <= j < entries.len() ==> entries[j].0@ != l,
    ensures
        !map_of(entries).contains_key(l),
    decreases entries.len(),
{
    if entries.len() > 0 {
        lemma_map_of_absent(entries.drop_last(), l);
    }
}

} // verus!
