//! Query parameters: a mapping from names to values with one entry per name,
//! kept in the order in which names were first added.

use vstd::prelude::*;

verus! {

/// An entry list as text: `(name, value)` pairs.
pub type Entries = Seq<(Seq<char>, Seq<char>)>;

/// No name occurs twice.
pub open spec fn names_unique(s: Entries) -> bool {
    forall|i: int, j: int| 0 <= i < s.len() && 0 <= j < s.len() && i != j ==> s[i].0 != s[j].0
}

pub open spec fn has_name(s: Entries, k: Seq<char>) -> bool {
    exists|i: int| 0 <= i < s.len() && s[i].0 == k
}

/// Sets the value of `k` to `v`: the entry of that name is replaced in place,
/// or, where there is none, a new one is added at the end.
pub open spec fn put(s: Entries, k: Seq<char>, v: Seq<char>) -> Entries {
    if has_name(s, k) {
        s.update(choose|i: int| 0 <= i < s.len() && s[i].0 == k, (k, v))
    } else {
        s.push((k, v))
    }
}

/// `put` where a value is given, nothing otherwise.
pub open spec fn put_opt(s: Entries, k: Seq<char>, v: Option<Seq<char>>) -> Entries {
    match v {
        Some(v) => put(s, k, v),
        None => s,
    }
}

/// The entries as a map from name to value.
pub open spec fn as_map(s: Entries) -> Map<Seq<char>, Seq<char>> {
    Map::new(|k: Seq<char>| has_name(s, k), |k: Seq<char>| s[choose|i: int| 0 <= i < s.len() && s[i].0 == k].1)
}

/// Setting a name in a mapping with unique names leaves exactly one entry of
/// that name, holding the new value, and every entry of another name as it was.
pub proof fn lemma_put_single(s: Entries, k: Seq<char>, v: Seq<char>)
    requires
        names_unique(s),
    ensures
        names_unique(put(s, k, v)),
        exists|i: int|
            #![trigger put(s, k, v)[i]]
            0 <= i < put(s, k, v).len() && put(s, k, v)[i] == (k, v) && forall|j: int|
                0 <= j < put(s, k, v).len() && j != i ==> put(s, k, v)[j].0 != k,
        forall|e: (Seq<char>, Seq<char>)|
            e.0 != k ==> (put(s, k, v).contains(e) <==> s.contains(e)),
{
    let t = put(s, k, v);
    if has_name(s, k) {
        let c = choose|i: int| 0 <= i < s.len() && s[i].0 == k;
        assert(t[c] == (k, v));
        assert forall|e: (Seq<char>, Seq<char>)| e.0 != k implies (t.contains(e) <==> s.contains(e)) by {
            if t.contains(e) {
                let i = choose|i: int| 0 <= i < t.len() && t[i] == e;
                assert(s[i] == e);
            }
            if s.contains(e) {
                let i = choose|i: int| 0 <= i < s.len() && s[i] == e;
                assert(t[i] == e);
            }
        }
    } else {
        let n = s.len() as int;
        assert(t[n] == (k, v));
        assert forall|e: (Seq<char>, Seq<char>)| e.0 != k implies (t.contains(e) <==> s.contains(e)) by {
            if t.contains(e) {
                let i = choose|i: int| 0 <= i < t.len() && t[i] == e;
                assert(s[i] == e);
            }
            if s.contains(e) {
                let i = choose|i: int| 0 <= i < s.len() && s[i] == e;
                assert(t[i] == e);
            }
        }
    }
}

pub struct Params {
    entries: Vec<(String, String)>,
}

impl View for Params {
    type V = Entries;

    closed spec fn view(&self) -> Entries {
        self.entries@.map_values(|e: (String, String)| (e.0@, e.1@))
    }
}

impl Params {
    /// Names are unique.
    pub open spec fn wf(&self) -> bool {
        names_unique(self@)
    }

    pub fn new() -> (r: Params)
        ensures
            r.wf(),
            r@ == Seq::<(Seq<char>, Seq<char>)>::empty(),
    {
        let r = Params { entries: Vec::new() };
        assert(r@ =~= Seq::<(Seq<char>, Seq<char>)>::empty());
        r
    }

    pub fn len(&self) -> (r: usize)
        ensures
            r == self@.len(),
    {
        self.entries.len()
    }

    /// The position of the entry named `key`, if there is one.
    fn position(&self, key: &String) -> (r: Option<usize>)
        ensures
            r matches Some(i) ==> i < self@.len() && self@[i as int].0 == key@,
            r is None ==> !has_name(self@, key@),
    {
        let mut i: usize = 0;
        while i < self.entries.len()
            invariant
                i <= self.entries@.len(),
                self@.len() == self.entries@.len(),
                forall|j: int| 0 <= j < i ==> self@[j].0 != key@,
            decreases self.entries@.len() - i,
        {
            if self.entries[i].0 == *key {
                return Some(i);
            }
            i = i + 1;
        }
        None
    }

    /// The value of the entry named `key`.
    pub fn get(&self, key: &str) -> (r: Option<String>)
        requires
            self.wf(),
        ensures
            r matches Some(v) ==> has_name(self@, key@) && as_map(self@)[key@] == v@,
            r is None ==> !has_name(self@, key@),
    {
        let k = key.to_owned();
        match self.position(&k) {
            Some(i) => {
                let ghost c = choose|j: int| 0 <= j < self@.len() && self@[j].0 == key@;
                assert(c == i);
                Some(self.entries[i].1.clone())
            },
            None => None,
        }
    }

    /// Sets the value of `key` to `value`, replacing any earlier value.
    pub fn insert(&mut self, key: &str, value: &str)
        requires
            old(self).wf(),
        ensures
            final(self).wf(),
            final(self)@ == put(old(self)@, key@, value@),
    {
        let k = key.to_owned();
        let v = value.to_owned();
        let ghost s = self@;
        match self.position(&k) {
            Some(i) => {
                let ghost c = choose|j: int| 0 <= j < s.len() && s[j].0 == key@;
                assert(c == i);
                self.entries.set(i, (k, v));
                assert(self@ =~= s.update(i as int, (key@, value@)));
            },
            None => {
                self.entries.push((k, v));
                assert(self@ =~= s.push((key@, value@)));
            },
        }
    }

    /// Sets the value of `key` where a value is given.
    pub fn insert_opt(&mut self, key: &str, value: &Option<String>)
        requires
            old(self).wf(),
        ensures
            final(self).wf(),
            final(self)@ == put_opt(old(self)@, key@, match value {
                Some(v) => Some(v@),
                None => None,
            }),
    {
        match value {
            Some(v) => self.insert(key, v.as_str()),
            None => {},
        }
    }

    /// The entries, in order, as name and value pairs.
    pub fn entries(&self) -> (r: &Vec<(String, String)>)
        ensures
            r@.map_values(|e: (String, String)| (e.0@, e.1@)) == self@,
    {
        &self.entries
    }
}

} // verus!
