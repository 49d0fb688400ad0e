//! A name-keyed lookup table with a mathematical map view.
//!
//! The compiler's lookup structures (type catalogs, the subject table, the
//! decoded form of a witified map) are all finite mappings keyed by strings.
//! `NamedTable` keeps its entries in insertion order — so anything emitted
//! from it is reproducible byte for byte across builds — while its view is
//! the unordered `Map` the contracts speak of.

use vstd::prelude::*;

verus! {

/// No two entries share a key.
pub open spec fn keys_unique<V>(s: Seq<(String, V)>) -> bool {
    forall|i: int, j: int| 0 <= i < j < s.len() ==> s[i].0@ != s[j].0@
}

/// The mapping a sequence of key/value pairs denotes; a later entry for the
/// same key overrides an earlier one.
pub open spec fn map_of_entries<V>(s: Seq<(String, V)>) -> Map<Seq<char>, V>
    decreases s.len(),
{
    if s.len() == 0 {
        Map::empty()
    } else {
        map_of_entries(s.drop_last()).insert(s.last().0@, s.last().1)
    }
}

/// A key-unique sequence of entries denotes a mapping that holds each entry.
pub proof fn lemma_map_holds_entry<V>(s: Seq<(String, V)>, i: int)
    requires
        keys_unique(s),
        0 <= i < s.len(),
    ensures
        map_of_entries(s).dom().contains(s[i].0@),
        map_of_entries(s)[s[i].0@] == s[i].1,
    decreases s.len(),
{
    if i < s.len() - 1 {
        lemma_map_holds_entry(s.drop_last(), i);
    }
}

/// The mapping holds no key that no entry has.
pub proof fn lemma_map_no_stray_key<V>(s: Seq<(String, V)>, k: Seq<char>)
    requires
        forall|i: int| 0 <= i < s.len() ==> s[i].0@ != k,
    ensures
        !map_of_entries(s).dom().contains(k),
    decreases s.len(),
{
    if s.len() > 0 {
        lemma_map_no_stray_key(s.drop_last(), k);
    }
}

/// Replacing the one entry of a key rewrites that key's value in the mapping.
proof fn lemma_map_of_update<V>(s: Seq<(String, V)>, i: int, p: (String, V))
    requires
        keys_unique(s),
        0 <= i < s.len(),
        p.0@ == s[i].0@,
    ensures
        map_of_entries(s.update(i, p)) == map_of_entries(s).insert(p.0@, p.1),
    decreases s.len(),
{
    let t = s.update(i, p);
    if i == s.len() - 1 {
        assert(t.drop_last() =~= s.drop_last());
        assert(map_of_entries(t) =~= map_of_entries(s).insert(p.0@, p.1));
    } else {
        assert(t.drop_last() =~= s.drop_last().update(i, p));
        lemma_map_of_update(s.drop_last(), i, p);
        assert(map_of_entries(t) =~= map_of_entries(s).insert(p.0@, p.1));
    }
}

/// Compares two string slices by their characters.
pub(crate) fn str_eq(a: &str, b: &str) -> (r: bool)
    ensures
        r == (a@ == b@),
{
    let x = a.to_owned();
    let y = b.to_owned();
    x == y
}

/// A finite mapping from names to values, kept in insertion order.
#[derive(Debug)]
pub struct NamedTable<V> {
    entries: Vec<(String, V)>,
}

impl<V> View for NamedTable<V> {
    type V = Map<Seq<char>, V>;

    open spec fn view(&self) -> Map<Seq<char>, V> {
        map_of_entries(self.entries_seq())
    }
}

/// Finds the first entry holding a key, scanning front to back.
fn find_key<V>(entries: &Vec<(String, V)>, name: &str) -> (r: Option<usize>)
    ensures
        match r {
            Some(i) => i < entries@.len() && entries@[i as int].0@ == name@,
            None => forall|j: int| 0 <= j < entries@.len() ==> entries@[j].0@ != name@,
        },
{
    let mut i: usize = 0;
    while i < entries.len()
        invariant
            i <= entries@.len(),
            forall|j: int| 0 <= j < i ==> entries@[j].0@ != name@,
        decreases entries@.len() - i,
    {
        if str_eq(entries[i].0.as_str(), name) {
            return Some(i);
        }
        i = i + 1;
    }
    None
}

impl<V> NamedTable<V> {
    /// The entries in insertion order.
    pub closed spec fn entries_seq(self) -> Seq<(String, V)> {
        self.entries@
    }

    /// Well-formed: no two entries share a key.
    pub open spec fn wf(self) -> bool {
        keys_unique(self.entries_seq())
    }

    /// An empty table.
    pub fn new() -> (r: Self)
        ensures
            r.wf(),
            r.entries_seq() == Seq::<(String, V)>::empty(),
            r@ == Map::<Seq<char>, V>::empty(),
    {
        let r = NamedTable { entries: Vec::new() };
        proof {
            assert(r@ =~= Map::<Seq<char>, V>::empty());
        }
        r
    }

    /// How many entries the table holds.
    pub fn len(&self) -> (r: usize)
        ensures
            r == self.entries_seq().len(),
    {
        self.entries.len()
    }

    /// The entry at one position of the insertion order.
    pub fn entry_at(&self, i: usize) -> (r: &(String, V))
        requires
            i < self.entries_seq().len(),
        ensures
            *r == self.entries_seq()[i as int],
    {
        &self.entries[i]
    }

    /// Whether the table holds a value under a name.
    pub fn contains_key(&self, name: &str) -> (r: bool)
        requires
            self.wf(),
        ensures
            r == self@.dom().contains(name@),
    {
        match find_key(&self.entries, name) {
            Some(i) => {
                proof {
                    lemma_map_holds_entry(self.entries_seq(), i as int);
                }
                true
            },
            None => {
                proof {
                    lemma_map_no_stray_key(self.entries_seq(), name@);
                }
                false
            },
        }
    }

    /// Looks a name up.
    pub fn get(&self, name: &str) -> (r: Option<&V>)
        requires
            self.wf(),
        ensures
            match r {
                Some(v) => self@.dom().contains(name@) && *v == self@[name@],
                None => !self@.dom().contains(name@),
            },
    {
        match find_key(&self.entries, name) {
            Some(i) => {
                proof {
                    lemma_map_holds_entry(self.entries_seq(), i as int);
                }
                Some(&self.entries[i].1)
            },
            None => {
                proof {
                    lemma_map_no_stray_key(self.entries_seq(), name@);
                }
                None
            },
        }
    }

    /// Binds a name to a value: a fresh name is appended, a present one has
    /// its value replaced in place, keeping its position.
    pub fn insert(&mut self, name: String, value: V)
        requires
            old(self).wf(),
        ensures
            final(self).wf(),
            final(self)@ == old(self)@.insert(name@, value),
            old(self)@.dom().contains(name@) ==> final(self).entries_seq().len()
                == old(self).entries_seq().len(),
            !old(self)@.dom().contains(name@) ==> final(self).entries_seq()
                == old(self).entries_seq().push((name, value)),
    {
        match find_key(&self.entries, name.as_str()) {
            Some(i) => {
                proof {
                    lemma_map_holds_entry(self.entries_seq(), i as int);
                    lemma_map_of_update(self.entries_seq(), i as int, (name, value));
                }
                self.entries[i] = (name, value);
                proof {
                    assert(keys_unique(self.entries_seq()));
                }
            },
            None => {
                proof {
                    lemma_map_no_stray_key(self.entries_seq(), name@);
                    assert(self.entries_seq().push((name, value)).drop_last() =~= self.entries_seq());
                }
                self.entries.push((name, value));
            },
        }
    }

    /// Decodes a sequence of key/value pairs into a table, rejecting a
    /// duplicate key: the wire representation of an associative structure
    /// assumes its keys unique, so a duplicate is refused rather than
    /// silently resolved.
    #[verifier::loop_isolation(false)]
    pub fn from_unique_pairs(pairs: Vec<(String, V)>) -> (r: Result<Self, String>)
        ensures
            r is Ok <==> keys_unique(pairs@),
            match r {
                Ok(t) => t.wf() && t.entries_seq() == pairs@ && t@ == map_of_entries(pairs@),
                Err(k) => exists|i: int, j: int|
                    0 <= i < j < pairs@.len() && pairs@[i].0@ == pairs@[j].0@ && pairs@[j].0@
                        == k@,
            },
    {
        let ghost all = pairs@;
        let mut rest = pairs;
        let mut out: Vec<(String, V)> = Vec::new();
        while rest.len() > 0
            invariant
                all == out@ + rest@,
                keys_unique(out@),
            decreases rest@.len(),
        {
            let ghost rest0 = rest@;
            let p = rest.remove(0);
            match find_key(&out, p.0.as_str()) {
                Some(i) => {
                    proof {
                        let n = out@.len() as int;
                        assert(all[i as int] == out@[i as int]);
                        assert(all[n] == rest0[0]);
                        assert(all[n] == p);
                        assert(0 <= i as int && (i as int) < n && n < all.len());
                        assert(all[i as int].0@ == all[n].0@);
                        assert(all[n].0@ == p.0@);
                        assert(!keys_unique(all));
                    }
                    return Err(p.0);
                },
                None => {
                    proof {
                        assert(all.subrange(0, out@.len() as int + 1) =~= out@.push(p));
                    }
                    out.push(p);
                },
            }
        }
        proof {
            assert(out@ =~= all);
        }
        Ok(NamedTable { entries: out })
    }


    /// Builds a table from a pair sequence, a later pair overriding an
    /// earlier one with the same key — the discipline of a map populated by
    /// successive inserts.  With pairwise-distinct keys the entries are
    /// exactly the pairs, in order.
    #[verifier::loop_isolation(false)]
    pub fn from_pairs_last_wins(pairs: Vec<(String, V)>) -> (r: Self)
        ensures
            r.wf(),
            r@ == map_of_entries(pairs@),
            keys_unique(pairs@) ==> r.entries_seq() == pairs@,
    {
        let ghost all = pairs@;
        let ghost mut done: Seq<(String, V)> = Seq::empty();
        let mut rest = pairs;
        let mut out: NamedTable<V> = NamedTable::new();
        while rest.len() > 0
            invariant
                all == done + rest@,
                out.wf(),
                out@ == map_of_entries(done),
                keys_unique(all) ==> out.entries_seq() == done,
            decreases rest@.len(),
        {
            let ghost rest0 = rest@;
            let p = rest.remove(0);
            proof {
                assert(all[done.len() as int] == p);
                assert(done.push(p).drop_last() =~= done);
                assert(all =~= done.push(p) + rest@);
                if keys_unique(all) {
                    assert forall|x: int| 0 <= x < done.len() implies done[x].0@ != p.0@ by {
                        assert(all[x] == done[x]);
                    }
                    lemma_map_no_stray_key(done, p.0@);
                }
                done = done.push(p);
            }
            out.insert(p.0, p.1);
        }
        proof {
            assert(done =~= all);
        }
        out
    }

    /// Encodes the table back into its ordered sequence of key/value pairs.
    pub fn to_pairs(self) -> (r: Vec<(String, V)>)
        ensures
            r@ == self.entries_seq(),
    {
        self.entries
    }
}

/// Round trip: a key-unique pair sequence decodes to a table whose mapping is
/// exactly the mapping of the pairs, and the table re-encodes to its entry
/// sequence, whose mapping is the same.  An entry's key is bound to that
/// entry's value, and no other key is bound.
pub proof fn lemma_map_round_trip<V>(t: NamedTable<V>)
    requires
        t.wf(),
    ensures
        map_of_entries(t.entries_seq()) == t@,
        forall|i: int|
            0 <= i < t.entries_seq().len() ==> #[trigger] t@.dom().contains(
                t.entries_seq()[i].0@,
            ) && t@[t.entries_seq()[i].0@] == t.entries_seq()[i].1,
        forall|k: Seq<char>|
            t@.dom().contains(k) ==> exists|i: int|
                0 <= i < t.entries_seq().len() && #[trigger] t.entries_seq()[i].0@ == k,
{
    assert forall|i: int| 0 <= i < t.entries_seq().len() implies #[trigger] t@.dom().contains(
        t.entries_seq()[i].0@,
    ) && t@[t.entries_seq()[i].0@] == t.entries_seq()[i].1 by {
        lemma_map_holds_entry(t.entries_seq(), i);
    }
    assert forall|k: Seq<char>| t@.dom().contains(k) implies exists|i: int|
        0 <= i < t.entries_seq().len() && #[trigger] t.entries_seq()[i].0@ == k by {
        if forall|i: int| 0 <= i < t.entries_seq().len() ==> #[trigger] t.entries_seq()[i].0@ != k {
            lemma_map_no_stray_key(t.entries_seq(), k);
        }
    }
}

} // verus!
