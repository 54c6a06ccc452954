//! An order-preserving header mapping with case-insensitive (ASCII) names,
//! and the lemmas about lookup and overwrite that the forwarding laws rest on.

use vstd::prelude::*;

use crate::ascii::{eq_ignore_ascii_case, lower};

verus! {

/// One header field: a name (matched case-insensitively) and a value, both
/// byte strings. Casing is preserved for pass-through.
pub struct Header {
    pub name: Vec<u8>,
    pub value: Vec<u8>,
}

impl View for Header {
    type V = (Seq<u8>, Seq<u8>);

    open spec fn view(&self) -> (Seq<u8>, Seq<u8>) {
        (self.name@, self.value@)
    }
}

/// An order-preserving header mapping. Duplicate names are allowed, as in
/// HTTP; lookup returns the first match.
pub struct Headers {
    pub entries: Vec<Header>,
}

impl View for Headers {
    type V = Seq<(Seq<u8>, Seq<u8>)>;

    open spec fn view(&self) -> Seq<(Seq<u8>, Seq<u8>)> {
        self.entries@.map_values(|h: Header| h@)
    }
}

/// Two header names denote the same field (ASCII case-insensitive).
pub open spec fn key_matches(name: Seq<u8>, query: Seq<u8>) -> bool {
    lower(name) == lower(query)
}

/// Index of the first entry whose name matches `query`, or -1 if none does.
pub open spec fn find_key(s: Seq<(Seq<u8>, Seq<u8>)>, query: Seq<u8>) -> int
    decreases s.len(),
{
    if s.len() == 0 {
        -1
    } else if key_matches(s[0].0, query) {
        0
    } else {
        let rest = find_key(s.drop_first(), query);
        if rest < 0 {
            -1
        } else {
            rest + 1
        }
    }
}

/// The value of the first entry named `query`, if any.
pub open spec fn lookup(s: Seq<(Seq<u8>, Seq<u8>)>, query: Seq<u8>) -> Option<Seq<u8>> {
    if find_key(s, query) >= 0 {
        Some(s[find_key(s, query)].1)
    } else {
        None
    }
}

/// The header sequence after setting `query` to `value`: the first matching
/// entry keeps its place (and its stored casing) and takes the new value;
/// if none matches, a new entry is appended.
pub open spec fn set_value(s: Seq<(Seq<u8>, Seq<u8>)>, query: Seq<u8>, value: Seq<u8>) -> Seq<
    (Seq<u8>, Seq<u8>),
> {
    if find_key(s, query) >= 0 {
        s.update(find_key(s, query), (s[find_key(s, query)].0, value))
    } else {
        s.push((query, value))
    }
}

/// `find_key` returns either -1 or the index of the first matching entry.
pub proof fn lemma_find_key_props(s: Seq<(Seq<u8>, Seq<u8>)>, query: Seq<u8>)
    ensures
        -1 <= find_key(s, query) < s.len(),
        find_key(s, query) >= 0 ==> key_matches(s[find_key(s, query)].0, query),
        forall|j: int| 0 <= j < find_key(s, query) ==> !key_matches(#[trigger] s[j].0, query),
        find_key(s, query) == -1 ==> forall|j: int|
            0 <= j < s.len() ==> !key_matches(#[trigger] s[j].0, query),
    decreases s.len(),
{
    if s.len() > 0 && !key_matches(s[0].0, query) {
        lemma_find_key_props(s.drop_first(), query);
        assert forall|j: int| 0 < j < s.len() implies s.drop_first()[j - 1] == s[j] by {}
    }
}

/// If entry `k` matches and no earlier entry does, `find_key` returns `k`.
pub proof fn lemma_find_key_at(s: Seq<(Seq<u8>, Seq<u8>)>, query: Seq<u8>, k: int)
    requires
        0 <= k < s.len(),
        key_matches(s[k].0, query),
        forall|j: int| 0 <= j < k ==> !key_matches(#[trigger] s[j].0, query),
    ensures
        find_key(s, query) == k,
{
    lemma_find_key_props(s, query);
    let f = find_key(s, query);
    if f == -1 {
        assert(!key_matches(s[k].0, query));
    } else if f < k {
        assert(!key_matches(s[f].0, query));
    } else if f > k {
        assert(!key_matches(s[k].0, query));
    }
}

/// If no entry matches, `find_key` returns -1.
pub proof fn lemma_find_key_none(s: Seq<(Seq<u8>, Seq<u8>)>, query: Seq<u8>)
    requires
        forall|j: int| 0 <= j < s.len() ==> !key_matches(#[trigger] s[j].0, query),
    ensures
        find_key(s, query) == -1,
{
    lemma_find_key_props(s, query);
    let f = find_key(s, query);
    if f >= 0 {
        assert(!key_matches(s[f].0, query));
    }
}

/// After `set_value(s, q, v)`, looking up a name that denotes `q` yields `v`.
pub proof fn lemma_lookup_set_same(s: Seq<(Seq<u8>, Seq<u8>)>, query: Seq<u8>, value: Seq<u8>)
    ensures
        lookup(set_value(s, query, value), query) == Some(value),
{
    lemma_find_key_props(s, query);
    let k = find_key(s, query);
    let s2 = set_value(s, query, value);
    if k >= 0 {
        assert(s2[k].0 == s[k].0);
        assert forall|j: int| 0 <= j < k implies !key_matches(#[trigger] s2[j].0, query) by {
            assert(s2[j] == s[j]);
        }
        lemma_find_key_at(s2, query, k);
    } else {
        assert(s2[s.len() as int].0 == query);
        assert forall|j: int| 0 <= j < s.len() implies !key_matches(#[trigger] s2[j].0, query) by {
            assert(s2[j] == s[j]);
        }
        lemma_find_key_at(s2, query, s.len() as int);
    }
}

/// `set_value(s, q, v)` leaves every field with a different name untouched.
pub proof fn lemma_lookup_set_other(
    s: Seq<(Seq<u8>, Seq<u8>)>,
    query: Seq<u8>,
    value: Seq<u8>,
    other: Seq<u8>,
)
    requires
        !key_matches(other, query),
    ensures
        lookup(set_value(s, query, value), other) == lookup(s, other),
{
    lemma_find_key_props(s, query);
    lemma_find_key_props(s, other);
    let k = find_key(s, query);
    let m = find_key(s, other);
    let s2 = set_value(s, query, value);
    if k >= 0 {
        assert(forall|j: int| 0 <= j < s.len() ==> (#[trigger] s2[j]).0 == s[j].0);
        if m == -1 {
            assert forall|j: int| 0 <= j < s2.len() implies !key_matches(
                #[trigger] s2[j].0,
                other,
            ) by {}
            lemma_find_key_none(s2, other);
        } else {
            assert(m != k);
            assert(s2[m] == s[m]);
            assert forall|j: int| 0 <= j < m implies !key_matches(#[trigger] s2[j].0, other) by {}
            lemma_find_key_at(s2, other, m);
        }
    } else {
        if m == -1 {
            assert forall|j: int| 0 <= j < s2.len() implies !key_matches(
                #[trigger] s2[j].0,
                other,
            ) by {
                if j < s.len() {
                    assert(s2[j] == s[j]);
                } else {
                    assert(s2[j].0 == query);
                }
            }
            lemma_find_key_none(s2, other);
        } else {
            assert(s2[m] == s[m]);
            assert forall|j: int| 0 <= j < m implies !key_matches(#[trigger] s2[j].0, other) by {
                assert(s2[j] == s[j]);
            }
            lemma_find_key_at(s2, other, m);
        }
    }
}

/// `set_value(s, q, v)` keeps every entry in place: names are untouched, and
/// an entry whose name does not denote `q` is untouched entirely.
pub proof fn lemma_set_value_entrywise(s: Seq<(Seq<u8>, Seq<u8>)>, query: Seq<u8>, value: Seq<u8>)
    ensures
        set_value(s, query, value).len() >= s.len(),
        forall|i: int| 0 <= i < s.len() ==> (#[trigger] set_value(s, query, value)[i]).0 == s[i].0,
        forall|i: int|
            0 <= i < s.len() && !key_matches(s[i].0, query) ==> #[trigger] set_value(
                s,
                query,
                value,
            )[i] == s[i],
{
    lemma_find_key_props(s, query);
}

impl Headers {
    /// An empty header mapping.
    pub fn new() -> (r: Headers)
        ensures
            r@ == Seq::<(Seq<u8>, Seq<u8>)>::empty(),
    {
        let r = Headers { entries: Vec::new() };
        proof {
            assert(r@ =~= Seq::<(Seq<u8>, Seq<u8>)>::empty());
        }
        r
    }

    /// The number of header fields.
    pub fn len(&self) -> (n: usize)
        ensures
            n == self@.len(),
    {
        self.entries.len()
    }

    /// Append a field at the end, after any existing fields of the same name.
    pub fn push(&mut self, name: Vec<u8>, value: Vec<u8>)
        ensures
            final (self)@ == old(self)@.push((name@, value@)),
    {
        let ghost before = self@;
        let ghost entry_view = (name@, value@);
        self.entries.push(Header { name, value });
        proof {
            assert(self@ =~= before.push(entry_view));
        }
    }

    /// The name and value of the field at `i`, in stored order and casing.
    pub fn entry_at(&self, i: usize) -> (r: (&Vec<u8>, &Vec<u8>))
        requires
            i < self@.len(),
        ensures
            r.0@ == self@[i as int].0,
            r.1@ == self@[i as int].1,
    {
        (&self.entries[i].name, &self.entries[i].value)
    }

    /// The value of the first field whose name matches `name`
    /// (ASCII case-insensitively), if any.
    pub fn get(&self, name: &Vec<u8>) -> (r: Option<&Vec<u8>>)
        ensures
            match r {
                Some(v) => lookup(self@, name@) == Some(v@),
                None => lookup(self@, name@) is None,
            },
    {
        let n: usize = self.entries.len();
        let mut i: usize = 0;
        while i < n
            invariant
                n == self.entries@.len(),
                i <= n,
                self@.len() == n,
                forall|j: int| 0 <= j < i ==> !key_matches(#[trigger] self@[j].0, name@),
            decreases n - i,
        {
            if eq_ignore_ascii_case(&self.entries[i].name, name) {
                proof {
                    assert(self@[i as int].0 == self.entries@[i as int].name@);
                    lemma_find_key_at(self@, name@, i as int);
                }
                return Some(&self.entries[i].value);
            }
            proof {
                assert(self@[i as int].0 == self.entries@[i as int].name@);
            }
            i = i + 1;
        }
        proof {
            lemma_find_key_none(self@, name@);
        }
        None
    }

    /// Set the field named `name` to `value`: the first matching field keeps
    /// its place and casing and takes the new value; if none matches, a new
    /// field is appended.
    pub fn set(&mut self, name: Vec<u8>, value: Vec<u8>)
        ensures
            final (self)@ == set_value(old(self)@, name@, value@),
    {
        let ghost before = self@;
        let n: usize = self.entries.len();
        let mut i: usize = 0;
        while i < n
            invariant
                n == self.entries@.len(),
                i <= n,
                before == old(self)@,
                self@ == before,
                self@.len() == n,
                forall|j: int| 0 <= j < i ==> !key_matches(#[trigger] self@[j].0, name@),
            decreases n - i,
        {
            if eq_ignore_ascii_case(&self.entries[i].name, &name) {
                proof {
                    assert(self@[i as int].0 == self.entries@[i as int].name@);
                    lemma_find_key_at(self@, name@, i as int);
                }
                let kept_name = clone_bytes(&self.entries[i].name);
                self.entries[i] = Header { name: kept_name, value };
                proof {
                    assert(self@ =~= set_value(before, name@, value@));
                }
                return ;
            }
            proof {
                assert(self@[i as int].0 == self.entries@[i as int].name@);
            }
            i = i + 1;
        }
        proof {
            lemma_find_key_none(self@, name@);
        }
        self.entries.push(Header { name, value });
        proof {
            assert(self@ =~= set_value(before, name@, value@));
        }
    }
}

/// A copy of a byte string.
pub fn clone_bytes(v: &Vec<u8>) -> (r: Vec<u8>)
    ensures
        r@ == v@,
{
    let r = v.clone();
    proof {
        assert(r@ =~= v@);
    }
    r
}

} // verus!
