//! The header container: a mapping from header name to header value whose
//! entries are listed in the order of their names.

use crate::text::{decimal, lemma_name_order, name_before, rank_names, Rank};
use vstd::prelude::*;
use vstd::string::*;
use vstd::utf8::*;

verus! {

/// The names of `s` strictly increase from each entry to the next.
pub open spec fn increasing(s: Seq<(Seq<char>, Seq<char>)>) -> bool {
    forall|i: int, j: int|
        #![trigger s[i], s[j]]
        0 <= i < j < s.len() ==> name_before(s[i].0, s[j].0)
}

/// `s` lists the mapping `m`: the names of `s` strictly increase, every entry
/// of `s` is a pair of `m`, and every name of `m` has its entry in `s`.
pub open spec fn is_listing(s: Seq<(Seq<char>, Seq<char>)>, m: Map<Seq<char>, Seq<char>>) -> bool {
    &&& increasing(s)
    &&& forall|i: int|
        0 <= i < s.len() ==> m.contains_key((#[trigger] s[i]).0) && m[s[i].0] == s[i].1
    &&& forall|k: Seq<char>| #[trigger]
        m.contains_key(k) ==> exists|i: int| 0 <= i < s.len() && (#[trigger] s[i]).0 == k
}

/// The entries of a mapping in the order in which they are listed and
/// rendered: by increasing name.
pub open spec fn listing(m: Map<Seq<char>, Seq<char>>) -> Seq<(Seq<char>, Seq<char>)> {
    choose|s: Seq<(Seq<char>, Seq<char>)>| is_listing(s, m)
}

/// A mapping has at most one listing: the order of the entries is fixed by
/// the mapping alone, whatever the order in which they were inserted.
pub proof fn lemma_listing_unique(
    s: Seq<(Seq<char>, Seq<char>)>,
    t: Seq<(Seq<char>, Seq<char>)>,
    m: Map<Seq<char>, Seq<char>>,
)
    requires
        is_listing(s, m),
        is_listing(t, m),
    ensures
        s == t,
    decreases s.len(),
{
    if s.len() == 0 {
        if t.len() > 0 {
            assert(m.contains_key(t[0].0));
        }
        assert(s =~= t);
    } else {
        let k = s[0].0;
        assert(m.contains_key(k));
        let j = choose|j: int| 0 <= j < t.len() && (#[trigger] t[j]).0 == k;
        assert(m.contains_key(t[0].0));
        let i = choose|i: int| 0 <= i < s.len() && (#[trigger] s[i]).0 == t[0].0;
        lemma_name_order(k, t[0].0, k);
        assert(j == 0);
        assert(s[0] == t[0]);
        let rest = m.remove(k);
        lemma_listing_tail(s, m);
        lemma_listing_tail(t, m);
        lemma_listing_unique(s.drop_first(), t.drop_first(), rest);
        assert(s =~= seq![s[0]] + s.drop_first());
        assert(t =~= seq![t[0]] + t.drop_first());
    }
}

/// A sequence that lists a mapping is the listing of that mapping.
pub proof fn lemma_listing_is(s: Seq<(Seq<char>, Seq<char>)>, m: Map<Seq<char>, Seq<char>>)
    requires
        is_listing(s, m),
    ensures
        listing(m) == s,
{
    lemma_listing_unique(s, listing(m), m);
}

/// Without its first entry a listing lists the mapping without that name.
proof fn lemma_listing_tail(s: Seq<(Seq<char>, Seq<char>)>, m: Map<Seq<char>, Seq<char>>)
    requires
        is_listing(s, m),
        s.len() > 0,
    ensures
        is_listing(s.drop_first(), m.remove(s[0].0)),
{
    let k = s[0].0;
    let tail = s.drop_first();
    let rest = m.remove(k);
    assert forall|i: int, j: int| 0 <= i < j < tail.len() implies name_before(
        (#[trigger] tail[i]).0,
        (#[trigger] tail[j]).0,
    ) by {
        assert(tail[i] == s[i + 1] && tail[j] == s[j + 1]);
    }
    assert forall|i: int| 0 <= i < tail.len() implies rest.contains_key((#[trigger] tail[i]).0)
        && rest[tail[i].0] == tail[i].1 by {
        assert(tail[i] == s[i + 1]);
        assert(name_before(s[0].0, s[i + 1].0));
        lemma_name_order(k, k, k);
    }
    assert forall|n: Seq<char>| #[trigger] rest.contains_key(n) implies exists|i: int|
        0 <= i < tail.len() && (#[trigger] tail[i]).0 == n by {
        assert(m.contains_key(n));
        let i = choose|i: int| 0 <= i < s.len() && (#[trigger] s[i]).0 == n;
        assert(tail[i - 1] == s[i]);
    }
}

/// A mapping that has a listing is finite, and has as many names as the
/// listing has entries.
pub proof fn lemma_listing_len(s: Seq<(Seq<char>, Seq<char>)>, m: Map<Seq<char>, Seq<char>>)
    requires
        is_listing(s, m),
    ensures
        m.dom().finite(),
        m.dom().len() == s.len(),
    decreases s.len(),
{
    if s.len() == 0 {
        assert forall|k: Seq<char>| !m.dom().contains(k) by {
            if m.contains_key(k) {
                let i = choose|i: int| 0 <= i < s.len() && (#[trigger] s[i]).0 == k;
            }
        }
        assert(m.dom() =~= Set::empty());
    } else {
        let k = s[0].0;
        lemma_listing_tail(s, m);
        lemma_listing_len(s.drop_first(), m.remove(k));
        assert(m.contains_key(k));
        assert(m.dom() =~= m.remove(k).dom().insert(k));
    }
}

/// The listing `s` after `value` has been stored under `key`: the entry
/// stands where the order of names puts it, in place of the entry that `key`
/// had, if it had one.
pub open spec fn place(
    s: Seq<(Seq<char>, Seq<char>)>,
    key: Seq<char>,
    value: Seq<char>,
) -> Seq<(Seq<char>, Seq<char>)>
    decreases s.len(),
{
    if s.len() == 0 {
        seq![(key, value)]
    } else if name_before(key, s[0].0) {
        seq![(key, value)] + s
    } else if key == s[0].0 {
        seq![(key, value)] + s.drop_first()
    } else {
        seq![s[0]] + place(s.drop_first(), key, value)
    }
}

/// Placing an entry in the listing of a mapping gives the listing of the
/// mapping after the insertion.
pub proof fn lemma_place_lists_insert(
    s: Seq<(Seq<char>, Seq<char>)>,
    m: Map<Seq<char>, Seq<char>>,
    key: Seq<char>,
    value: Seq<char>,
)
    requires
        is_listing(s, m),
    ensures
        is_listing(place(s, key, value), m.insert(key, value)),
    decreases s.len(),
{
    let t = place(s, key, value);
    let n = m.insert(key, value);
    if s.len() == 0 {
        assert forall|k: Seq<char>| #[trigger] n.contains_key(k) implies exists|i: int|
            0 <= i < t.len() && (#[trigger] t[i]).0 == k by {
            if m.contains_key(k) {
                let i = choose|i: int| 0 <= i < s.len() && (#[trigger] s[i]).0 == k;
            }
            assert(t[0].0 == key);
        }
    } else if name_before(key, s[0].0) {
        assert forall|i: int, j: int| 0 <= i < j < t.len() implies name_before(
            (#[trigger] t[i]).0,
            (#[trigger] t[j]).0,
        ) by {
            assert(t[j] == s[j - 1]);
            if i == 0 {
                if j > 1 {
                    assert(name_before(s[0].0, s[j - 1].0));
                    lemma_name_order(key, s[0].0, s[j - 1].0);
                }
            } else {
                assert(t[i] == s[i - 1]);
            }
        }
        assert forall|i: int| 0 <= i < t.len() implies n.contains_key((#[trigger] t[i]).0) && n[t[i].0]
            == t[i].1 by {
            if i > 0 {
                assert(t[i] == s[i - 1]);
                if i > 1 {
                    assert(name_before(s[0].0, s[i - 1].0));
                    lemma_name_order(key, s[0].0, s[i - 1].0);
                }
                lemma_name_order(key, key, key);
            }
        }
        assert forall|k: Seq<char>| #[trigger] n.contains_key(k) implies exists|i: int|
            0 <= i < t.len() && (#[trigger] t[i]).0 == k by {
            if k == key {
                assert(t[0].0 == key);
            } else {
                let i = choose|i: int| 0 <= i < s.len() && (#[trigger] s[i]).0 == k;
                assert(t[i + 1] == s[i]);
            }
        }
    } else if key == s[0].0 {
        assert forall|i: int, j: int| 0 <= i < j < t.len() implies name_before(
            (#[trigger] t[i]).0,
            (#[trigger] t[j]).0,
        ) by {
            assert(t[j] == s[j]);
            assert(t[i].0 == s[i].0);
        }
        assert forall|i: int| 0 <= i < t.len() implies n.contains_key((#[trigger] t[i]).0) && n[t[i].0]
            == t[i].1 by {
            if i > 0 {
                assert(t[i] == s[i]);
                assert(name_before(s[0].0, s[i].0));
                lemma_name_order(key, key, key);
            }
        }
        assert forall|k: Seq<char>| #[trigger] n.contains_key(k) implies exists|i: int|
            0 <= i < t.len() && (#[trigger] t[i]).0 == k by {
            if k == key {
                assert(t[0].0 == key);
            } else {
                let i = choose|i: int| 0 <= i < s.len() && (#[trigger] s[i]).0 == k;
                assert(t[i] == s[i]);
            }
        }
    } else {
        let first = s[0].0;
        let tail = place(s.drop_first(), key, value);
        let rest = m.remove(first).insert(key, value);
        lemma_name_order(key, first, key);
        lemma_listing_tail(s, m);
        lemma_place_lists_insert(s.drop_first(), m.remove(first), key, value);
        assert(m.contains_key(first) && m[first] == s[0].1);
        assert forall|j: int| 0 <= j < tail.len() implies name_before(
            first,
            (#[trigger] tail[j]).0,
        ) by {
            let k = tail[j].0;
            assert(rest.contains_key(k));
            if k != key {
                let i = choose|i: int| 0 <= i < s.len() && (#[trigger] s[i]).0 == k;
                assert(name_before(s[0].0, s[i].0));
            }
        }
        assert forall|i: int, j: int| 0 <= i < j < t.len() implies name_before(
            (#[trigger] t[i]).0,
            (#[trigger] t[j]).0,
        ) by {
            assert(t[j] == tail[j - 1]);
            if i > 0 {
                assert(t[i] == tail[i - 1]);
            }
        }
        assert forall|i: int| 0 <= i < t.len() implies n.contains_key((#[trigger] t[i]).0) && n[t[i].0]
            == t[i].1 by {
            if i > 0 {
                assert(t[i] == tail[i - 1]);
                assert(name_before(first, tail[i - 1].0));
                lemma_name_order(first, first, first);
            }
        }
        assert forall|k: Seq<char>| #[trigger] n.contains_key(k) implies exists|i: int|
            0 <= i < t.len() && (#[trigger] t[i]).0 == k by {
            if k == first {
                assert(t[0].0 == first);
            } else {
                assert(rest.contains_key(k));
                let i = choose|i: int| 0 <= i < tail.len() && (#[trigger] tail[i]).0 == k;
                assert(t[i + 1] == tail[i]);
            }
        }
    }
}

/// Every finite mapping has a listing, and so exactly one: `listing` lists
/// it.
pub proof fn lemma_listing_exists(m: Map<Seq<char>, Seq<char>>)
    requires
        m.dom().finite(),
    ensures
        is_listing(listing(m), m),
    decreases m.dom().len(),
{
    if m.dom().len() == 0 {
        assert(m.dom() =~= Set::empty());
        assert(is_listing(Seq::empty(), m));
    } else {
        let k = m.dom().choose();
        assert(m.dom().contains(k));
        let rest = m.remove(k);
        lemma_listing_exists(rest);
        lemma_place_lists_insert(listing(rest), rest, k, m[k]);
        assert(rest.insert(k, m[k]) =~= m);
    }
}

/// An insertion changes the listing of a finite mapping by placing the
/// entry: every other entry keeps its value and its order.
pub proof fn lemma_listing_insert(m: Map<Seq<char>, Seq<char>>, key: Seq<char>, value: Seq<char>)
    requires
        m.dom().finite(),
    ensures
        listing(m.insert(key, value)) == place(listing(m), key, value),
{
    lemma_listing_exists(m);
    lemma_place_lists_insert(listing(m), m, key, value);
    lemma_listing_is(place(listing(m), key, value), m.insert(key, value));
}

/// The wire text of one header: name, colon, space, value, line feed.
pub open spec fn header_line(name: Seq<char>, value: Seq<char>) -> Seq<char> {
    name + seq![':', ' '] + value + seq!['\n']
}

/// The wire text of a sequence of headers: their lines, one after another.
pub open spec fn header_lines(s: Seq<(Seq<char>, Seq<char>)>) -> Seq<char>
    decreases s.len(),
{
    if s.len() == 0 {
        Seq::empty()
    } else {
        header_lines(s.drop_last()) + header_line(s.last().0, s.last().1)
    }
}

/// The headers `m` after a body has been described in them: `media` stored
/// as `Content-Type`, and the number of bytes of `body`, in decimal, as
/// `Content-Length`.
pub open spec fn with_content(
    m: Map<Seq<char>, Seq<char>>,
    media: Seq<char>,
    body: Seq<char>,
) -> Map<Seq<char>, Seq<char>> {
    m.insert("Content-Type"@, media).insert("Content-Length"@, decimal(encode_utf8(body).len()))
}

/// The last value written under a name wins: after two insertions under one
/// name the mapping, and so its listing, is what the second insertion alone
/// would have made, and the name maps to the second value.
pub proof fn lemma_insert_last_wins(
    m: Map<Seq<char>, Seq<char>>,
    key: Seq<char>,
    first: Seq<char>,
    last: Seq<char>,
)
    ensures
        m.insert(key, first).insert(key, last) == m.insert(key, last),
        listing(m.insert(key, first).insert(key, last)) == listing(m.insert(key, last)),
        m.insert(key, first).insert(key, last)[key] == last,
{
    assert(m.insert(key, first).insert(key, last) =~= m.insert(key, last));
}

/// Insertions under different names do not disturb each other: in either
/// order they make the same mapping, and so the same listing.
pub proof fn lemma_insert_commutes(
    m: Map<Seq<char>, Seq<char>>,
    a: Seq<char>,
    x: Seq<char>,
    b: Seq<char>,
    y: Seq<char>,
)
    requires
        a != b,
    ensures
        m.insert(a, x).insert(b, y) == m.insert(b, y).insert(a, x),
        listing(m.insert(a, x).insert(b, y)) == listing(m.insert(b, y).insert(a, x)),
{
    assert(m.insert(a, x).insert(b, y) =~= m.insert(b, y).insert(a, x));
}

/// The mapping that a sequence of entries with distinct names stands for.
spec fn map_of(s: Seq<(Seq<char>, Seq<char>)>) -> Map<Seq<char>, Seq<char>> {
    Map::new(
        |k: Seq<char>| exists|i: int| 0 <= i < s.len() && (#[trigger] s[i]).0 == k,
        |k: Seq<char>| s[choose|i: int| 0 <= i < s.len() && (#[trigger] s[i]).0 == k].1,
    )
}

/// A sequence with increasing names lists the mapping it stands for.
proof fn lemma_map_of_listing(s: Seq<(Seq<char>, Seq<char>)>)
    requires
        increasing(s),
    ensures
        is_listing(s, map_of(s)),
{
    let m = map_of(s);
    assert forall|i: int| 0 <= i < s.len() implies m.contains_key((#[trigger] s[i]).0) && m[s[i].0]
        == s[i].1 by {
        let k = s[i].0;
        let c = choose|c: int| 0 <= c < s.len() && (#[trigger] s[c]).0 == k;
        lemma_name_order(k, k, k);
        if c < i {
            assert(name_before(s[c].0, s[i].0));
        } else if i < c {
            assert(name_before(s[i].0, s[c].0));
        }
    }
}

/// An ordered mapping from header name to header value.
///
/// Names are compared as exact texts. Inserting under a name that is already
/// present replaces its value. The entries are listed, and rendered on the
/// wire, by increasing name, not in the order of insertion.
#[derive(Debug, Eq)]
pub struct Headers {
    entries: Vec<(String, String)>,
}

impl View for Headers {
    type V = Map<Seq<char>, Seq<char>>;

    closed spec fn view(&self) -> Map<Seq<char>, Seq<char>> {
        map_of(self.pairs())
    }
}

impl Clone for Headers {
    /// A copy that holds the same mapping.
    fn clone(&self) -> (r: Headers)
        ensures
            r@ == self@,
    {
        proof {
            use_type_invariant(self);
        }
        let mut entries: Vec<(String, String)> = Vec::new();
        let mut i: usize = 0;
        while i < self.entries.len()
            invariant
                i <= self.entries@.len(),
                entries@.len() == i,
                forall|j: int|
                    0 <= j < i ==> (#[trigger] entries@[j]).0@ == self.entries@[j].0@
                        && entries@[j].1@ == self.entries@[j].1@,
            decreases self.entries.len() - i,
        {
            entries.push((self.entries[i].0.clone(), self.entries[i].1.clone()));
            i += 1;
        }
        let ghost copy = Seq::new(entries@.len(), |j: int| (entries@[j].0@, entries@[j].1@));
        assert(copy =~= self.pairs());
        Headers { entries }
    }
}

impl PartialEq for Headers {
    /// Whether the two containers hold the same mapping.
    fn eq(&self, other: &Headers) -> (r: bool) {
        proof {
            use_type_invariant(self);
            use_type_invariant(other);
            lemma_map_of_listing(self.pairs());
            lemma_map_of_listing(other.pairs());
            if self@ == other@ {
                lemma_listing_unique(self.pairs(), other.pairs(), self@);
            }
        }
        if self.entries.len() != other.entries.len() {
            return false;
        }
        let mut i: usize = 0;
        while i < self.entries.len()
            invariant
                i <= self.entries@.len(),
                self.entries@.len() == other.entries@.len(),
                self.pairs().len() == self.entries@.len(),
                other.pairs().len() == other.entries@.len(),
                self@ == other@ ==> self.pairs() == other.pairs(),
                forall|j: int| 0 <= j < i ==> self.pairs()[j] == other.pairs()[j],
            decreases self.entries.len() - i,
        {
            if self.entries[i].0 != other.entries[i].0 || self.entries[i].1 != other.entries[i].1 {
                assert(self.pairs()[i as int] != other.pairs()[i as int]);
                return false;
            }
            i += 1;
        }
        proof {
            assert(self.pairs() =~= other.pairs());
        }
        true
    }
}

impl vstd::std_specs::cmp::PartialEqSpecImpl for Headers {
    open spec fn obeys_eq_spec() -> bool {
        true
    }

    open spec fn eq_spec(&self, other: &Headers) -> bool {
        self@ == other@
    }
}

impl Headers {
    /// The stored entries as texts, in storage order.
    closed spec fn pairs(&self) -> Seq<(Seq<char>, Seq<char>)> {
        Seq::new(self.entries@.len(), |i: int| (self.entries@[i].0@, self.entries@[i].1@))
    }

    /// Validity of a container: its entries are stored by increasing name.
    #[verifier::type_invariant]
    pub closed spec fn wf(&self) -> bool {
        increasing(self.pairs())
    }

    /// A valid container holds a finite mapping, which its listing lists.
    pub proof fn lemma_listing(&self)
        requires
            self.wf(),
        ensures
            self@.dom().finite(),
            is_listing(listing(self@), self@),
            listing(self@).len() == self@.dom().len(),
    {
        lemma_map_of_listing(self.pairs());
        lemma_listing_is(self.pairs(), self@);
        lemma_listing_len(self.pairs(), self@);
    }

    /// An empty container.
    pub fn new() -> (h: Headers)
        ensures
            h@ == Map::<Seq<char>, Seq<char>>::empty(),
            listing(h@) == Seq::<(Seq<char>, Seq<char>)>::empty(),
    {
        let h = Headers { entries: Vec::new() };
        proof {
            assert(h@ =~= Map::<Seq<char>, Seq<char>>::empty());
            assert(h.pairs() =~= Seq::empty());
            lemma_map_of_listing(h.pairs());
            lemma_listing_is(h.pairs(), h@);
        }
        h
    }

    /// Where `key` stands among the entries: the index of its entry if it
    /// has one, else the index at which its entry would be stored.
    fn locate(&self, key: &str) -> (r: (usize, bool))
        ensures
            r.0 <= self.pairs().len(),
            forall|i: int| 0 <= i < r.0 ==> name_before((#[trigger] self.pairs()[i]).0, key@),
            r.1 ==> r.0 < self.pairs().len() && self.pairs()[r.0 as int].0 == key@,
            !r.1 ==> forall|i: int|
                r.0 <= i < self.pairs().len() ==> name_before(key@, (#[trigger] self.pairs()[i]).0),
    {
        proof {
            use_type_invariant(self);
        }
        let mut lo: usize = 0;
        let mut hi: usize = self.entries.len();
        while lo < hi
            invariant
                lo <= hi <= self.pairs().len(),
                self.pairs().len() == self.entries@.len(),
                increasing(self.pairs()),
                forall|i: int| 0 <= i < lo ==> name_before((#[trigger] self.pairs()[i]).0, key@),
                forall|i: int|
                    hi <= i < self.pairs().len() ==> name_before(
                        key@,
                        (#[trigger] self.pairs()[i]).0,
                    ),
            decreases hi - lo,
        {
            let mid = lo + (hi - lo) / 2;
            let ghost at = self.pairs()[mid as int].0;
            match rank_names(self.entries[mid].0.as_str(), key) {
                Rank::Before => {
                    assert forall|i: int| 0 <= i < mid + 1 implies name_before(
                        (#[trigger] self.pairs()[i]).0,
                        key@,
                    ) by {
                        if i < mid {
                            assert(name_before(self.pairs()[i].0, self.pairs()[mid as int].0));
                            lemma_name_order(self.pairs()[i].0, at, key@);
                        }
                    }
                    lo = mid + 1;
                },
                Rank::Same => {
                    assert forall|i: int| 0 <= i < mid implies name_before(
                        (#[trigger] self.pairs()[i]).0,
                        key@,
                    ) by {
                        assert(name_before(self.pairs()[i].0, self.pairs()[mid as int].0));
                    }
                    return (mid, true);
                },
                Rank::After => {
                    assert forall|i: int| mid <= i < self.pairs().len() implies name_before(
                        key@,
                        (#[trigger] self.pairs()[i]).0,
                    ) by {
                        if mid < i {
                            assert(name_before(self.pairs()[mid as int].0, self.pairs()[i].0));
                            lemma_name_order(key@, at, self.pairs()[i].0);
                        }
                    }
                    hi = mid;
                },
            }
        }
        (lo, false)
    }

    /// Stores `value` under `key`. A value that was stored under `key`
    /// before is replaced; every other entry stays as it was.
    pub fn insert(&mut self, key: String, value: String)
        ensures
            final(self)@ == old(self)@.insert(key@, value@),
            listing(final(self)@) == place(listing(old(self)@), key@, value@),
    {
        proof {
            use_type_invariant(&*self);
            lemma_map_of_listing(self.pairs());
            lemma_listing_len(self.pairs(), self@);
            lemma_listing_insert(self@, key@, value@);
        }
        let ghost before = self.pairs();
        let (at, found) = self.locate(key.as_str());
        let ghost after = if found {
            before.update(at as int, (key@, value@))
        } else {
            before.insert(at as int, (key@, value@))
        };
        proof {
            assert forall|i: int, j: int| 0 <= i < j < after.len() implies name_before(
                (#[trigger] after[i]).0,
                (#[trigger] after[j]).0,
            ) by {
                if found {
                    assert(after[i].0 == before[i].0 && after[j].0 == before[j].0);
                } else {
                    let x = if i < at { i } else { i - 1 };
                    let y = if j < at { j } else { j - 1 };
                    assert(i == at || after[i] == before[x]);
                    assert(j == at || after[j] == before[y]);
                }
            }
            lemma_map_of_listing(after);
            assert(map_of(after) =~= map_of(before).insert(key@, value@)) by {
                lemma_name_order(key@, key@, key@);
                assert(after[at as int] == (key@, value@));
                assert forall|k: Seq<char>| map_of(after).contains_key(k) implies #[trigger] map_of(
                    before,
                ).insert(key@, value@).contains_key(k) by {
                    let i = choose|i: int| 0 <= i < after.len() && (#[trigger] after[i]).0 == k;
                    if i != at {
                        let x = if found || i < at { i } else { i - 1 };
                        assert(after[i] == before[x]);
                    }
                }
                assert forall|k: Seq<char>| #[trigger]
                    map_of(before).insert(key@, value@).contains_key(k) implies map_of(
                    after,
                ).contains_key(k) && map_of(after)[k] == map_of(before).insert(key@, value@)[k] by {
                    if k == key@ {
                        assert(map_of(after).contains_key(after[at as int].0));
                    } else {
                        let i = choose|i: int|
                            0 <= i < before.len() && (#[trigger] before[i]).0 == k;
                        let x = if found || i < at { i } else { i + 1 };
                        assert(after[x] == before[i]);
                        assert(map_of(after).contains_key(after[x].0));
                        assert(map_of(before).contains_key(before[i].0));
                    }
                }
            }
        }
        let mut entries: Vec<(String, String)> = Vec::new();
        core::mem::swap(&mut self.entries, &mut entries);
        if found {
            entries.set(at, (key, value));
        } else {
            entries.insert(at, (key, value));
        }
        proof {
            let ghost stored = Seq::new(entries@.len(), |i: int| (entries@[i].0@, entries@[i].1@));
            assert(stored =~= after);
        }
        core::mem::swap(&mut self.entries, &mut entries);
        proof {
            assert(self.pairs() =~= after);
        }
    }

    /// The number of entries.
    pub fn len(&self) -> (n: usize)
        ensures
            self@.dom().finite(),
            n == self@.dom().len(),
            n == listing(self@).len(),
    {
        proof {
            use_type_invariant(self);
            lemma_map_of_listing(self.pairs());
            lemma_listing_is(self.pairs(), self@);
            lemma_listing_len(self.pairs(), self@);
        }
        self.entries.len()
    }

    /// The entry at position `index` of the listing, as name and value, or
    /// `None` where the listing is not that long.
    pub fn entry(&self, index: usize) -> (r: Option<(&str, &str)>)
        ensures
            match r {
                Some(e) => index < listing(self@).len() && (e.0@, e.1@) == listing(
                    self@,
                )[index as int],
                None => index >= listing(self@).len(),
            },
    {
        proof {
            use_type_invariant(self);
            lemma_map_of_listing(self.pairs());
            lemma_listing_is(self.pairs(), self@);
        }
        if index < self.entries.len() {
            Some((self.entries[index].0.as_str(), self.entries[index].1.as_str()))
        } else {
            None
        }
    }

    /// The header block on the wire: one line for each entry, by increasing
    /// name.
    pub fn to_text(&self) -> (r: String)
        ensures
            r@ == header_lines(listing(self@)),
    {
        proof {
            use_type_invariant(self);
            lemma_map_of_listing(self.pairs());
            lemma_listing_is(self.pairs(), self@);
            reveal_strlit(": ");
            reveal_strlit("\n");
        }
        let mut out = String::new();
        let mut i: usize = 0;
        while i < self.entries.len()
            invariant
                i <= self.entries@.len(),
                self.pairs().len() == self.entries@.len(),
                ": "@ == seq![':', ' '],
                "\n"@ == seq!['\n'],
                out@ == header_lines(self.pairs().take(i as int)),
            decreases self.entries.len() - i,
        {
            proof {
                let next = self.pairs().take(i as int + 1);
                assert(next.drop_last() =~= self.pairs().take(i as int));
                assert(next.last() == self.pairs()[i as int]);
            }
            out.append(self.entries[i].0.as_str());
            out.append(": ");
            out.append(self.entries[i].1.as_str());
            out.append("\n");
            i += 1;
        }
        proof {
            assert(self.pairs().take(i as int) =~= self.pairs());
        }
        out
    }

    /// The value stored under `key`, if there is one.
    pub fn get(&self, key: &str) -> (r: Option<&str>)
        ensures
            match r {
                Some(v) => self@.contains_key(key@) && self@[key@] == v@,
                None => !self@.contains_key(key@),
            },
    {
        proof {
            use_type_invariant(self);
            lemma_map_of_listing(self.pairs());
        }
        let (at, found) = self.locate(key);
        if found {
            Some(self.entries[at].1.as_str())
        } else {
            proof {
                if self@.contains_key(key@) {
                    let i = choose|i: int|
                        0 <= i < self.pairs().len() && (#[trigger] self.pairs()[i]).0 == key@;
                    lemma_name_order(key@, key@, key@);
                }
            }
            None
        }
    }
}

} // verus!
