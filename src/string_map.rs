use vstd::prelude::*;

verus! {

/// The map that a sequence of key/value pairs denotes: a later pair for a key
/// overrides an earlier one.
pub open spec fn pairs_to_map(s: Seq<(Seq<char>, Seq<char>)>) -> Map<Seq<char>, Seq<char>>
    decreases s.len(),
{
    if s.len() == 0 {
        Map::empty()
    } else {
        pairs_to_map(s.drop_last()).insert(s.last().0, s.last().1)
    }
}

/// No key occurs twice in the sequence.
pub open spec fn keys_unique(s: Seq<(Seq<char>, Seq<char>)>) -> bool {
    forall|i: int, j: int| 0 <= i < j < s.len() ==> s[i].0 != s[j].0
}

pub proof fn lemma_pairs_to_map_dom(s: Seq<(Seq<char>, Seq<char>)>, k: Seq<char>)
    ensures
        pairs_to_map(s).dom().contains(k) <==> exists|i: int| 0 <= i < s.len() && s[i].0 == k,
    decreases s.len(),
{
    if s.len() > 0 {
        lemma_pairs_to_map_dom(s.drop_last(), k);
        if pairs_to_map(s).dom().contains(k) && s.last().0 != k {
            let i = choose|i: int| 0 <= i < s.drop_last().len() && s.drop_last()[i].0 == k;
            assert(s[i].0 == k);
        }
        if exists|i: int| 0 <= i < s.len() && s[i].0 == k {
            let i = choose|i: int| 0 <= i < s.len() && s[i].0 == k;
            if i < s.len() - 1 {
                assert(s.drop_last()[i].0 == k);
            }
        }
    }
}

pub proof fn lemma_pairs_to_map_empty(s: Seq<(Seq<char>, Seq<char>)>)
    ensures
        pairs_to_map(s) == Map::<Seq<char>, Seq<char>>::empty() <==> s.len() == 0,
{
    if s.len() > 0 {
        assert(pairs_to_map(s).dom().contains(s.last().0));
    }
}

proof fn lemma_pairs_to_map_update(s: Seq<(Seq<char>, Seq<char>)>, j: int, v: Seq<char>)
    requires
        keys_unique(s),
        0 <= j < s.len(),
    ensures
        pairs_to_map(s.update(j, (s[j].0, v))) == pairs_to_map(s).insert(s[j].0, v),
    decreases s.len(),
{
    let t = s.update(j, (s[j].0, v));
    let k = s[j].0;
    if j == s.len() - 1 {
        assert(t.drop_last() =~= s.drop_last());
        assert(pairs_to_map(t) =~= pairs_to_map(s).insert(k, v));
    } else {
        let d = s.drop_last();
        assert(t.drop_last() =~= d.update(j, (d[j].0, v)));
        lemma_pairs_to_map_update(d, j, v);
        assert(s.last().0 != k);
        assert(pairs_to_map(t) =~= pairs_to_map(s).insert(k, v));
    }
}

/// A map from strings to strings that keeps its keys in order of first insertion.
#[derive(Debug)]
pub struct StringMap {
    entries: Vec<(String, String)>,
}

impl StringMap {
    /// The key/value pairs, in order of first insertion.
    pub closed spec fn pairs(&self) -> Seq<(Seq<char>, Seq<char>)> {
        self.entries@.map_values(|e: (String, String)| (e.0@, e.1@))
    }

    pub open spec fn view(&self) -> Map<Seq<char>, Seq<char>> {
        pairs_to_map(self.pairs())
    }

    #[verifier::type_invariant]
    spec fn inv(&self) -> bool {
        keys_unique(self.pairs())
    }

    pub fn new() -> (r: StringMap)
        ensures
            r.pairs() == Seq::<(Seq<char>, Seq<char>)>::empty(),
            r@ == Map::<Seq<char>, Seq<char>>::empty(),
    {
        let r = StringMap { entries: Vec::new() };
        assert(r.pairs() =~= Seq::<(Seq<char>, Seq<char>)>::empty());
        r
    }

    pub fn len(&self) -> (r: usize)
        ensures
            r == self.pairs().len(),
    {
        self.entries.len()
    }

    pub fn is_empty(&self) -> (r: bool)
        ensures
            r <==> self@ == Map::<Seq<char>, Seq<char>>::empty(),
            r <==> self.pairs().len() == 0,
    {
        proof {
            lemma_pairs_to_map_empty(self.pairs());
        }
        self.entries.len() == 0
    }

    /// The key of the `i`-th pair.
    pub fn key_at(&self, i: usize) -> (r: &String)
        requires
            i < self.pairs().len(),
        ensures
            r@ == self.pairs()[i as int].0,
    {
        &self.entries[i].0
    }

    /// The value of the `i`-th pair.
    pub fn value_at(&self, i: usize) -> (r: &String)
        requires
            i < self.pairs().len(),
        ensures
            r@ == self.pairs()[i as int].1,
    {
        &self.entries[i].1
    }

    /// The value stored under `key`, if any.
    pub fn get(&self, key: &str) -> (r: Option<&String>)
        ensures
            match r {
                Some(v) => self@.contains_key(key@) && self@[key@] == v@,
                None => !self@.contains_key(key@),
            },
    {
        proof {
            use_type_invariant(self);
        }
        let n = self.entries.len();
        let mut i: usize = 0;
        while i < n
            invariant
                n == self.entries.len(),
                0 <= i <= n,
                keys_unique(self.pairs()),
                forall|j: int| 0 <= j < i ==> self.pairs()[j].0 != key@,
            decreases n - i,
        {
            if str_eq(self.entries[i].0.as_str(), key) {
                proof {
                    self.lemma_lookup(i as int);
                }
                return Some(&self.entries[i].1);
            }
            i = i + 1;
        }
        proof {
            lemma_pairs_to_map_dom(self.pairs(), key@);
        }
        None
    }

    proof fn lemma_lookup(&self, i: int)
        requires
            0 <= i < self.pairs().len(),
            keys_unique(self.pairs()),
        ensures
            self@.contains_key(self.pairs()[i].0),
            self@[self.pairs()[i].0] == self.pairs()[i].1,
    {
        let s = self.pairs();
        lemma_pairs_to_map_update(s, i, s[i].1);
        assert(s.update(i, (s[i].0, s[i].1)) =~= s);
    }

    /// Stores `value` under `key`: overwrites the value in place where the key is
    /// present, else appends the pair.
    pub fn insert(&mut self, key: String, value: String)
        ensures
            final(self)@ == old(self)@.insert(key@, value@),
            old(self)@.contains_key(key@) ==> final(self).pairs().len() == old(self).pairs().len(),
            !old(self)@.contains_key(key@) ==> final(self).pairs() == old(self).pairs().push(
                (key@, value@),
            ),
    {
        proof {
            use_type_invariant(&*self);
            lemma_pairs_to_map_dom(self.pairs(), key@);
        }
        let ghost s = self.pairs();
        let n = self.entries.len();
        let mut out: Vec<(String, String)> = Vec::new();
        let mut found: Option<usize> = None;
        let mut i: usize = 0;
        while i < n
            invariant
                n == self.entries.len(),
                s == self.pairs(),
                keys_unique(s),
                0 <= i <= n,
                out@.len() == i,
                match found {
                    Some(j) => j < i && s[j as int].0 == key@,
                    None => forall|j: int| 0 <= j < i ==> s[j].0 != key@,
                },
                forall|j: int|
                    0 <= j < i ==> (#[trigger] out@[j]).0@ == s[j].0 && out@[j].1@ == (if found
                        == Some(j as usize) {
                        value@
                    } else {
                        s[j].1
                    }),
            decreases n - i,
        {
            let k = self.entries[i].0.clone();
            if found.is_none() && str_eq(k.as_str(), key.as_str()) {
                out.push((k, value.clone()));
                found = Some(i);
            } else {
                let v = self.entries[i].1.clone();
                out.push((k, v));
            }
            i = i + 1;
        }
        match found {
            Some(j) => {
                proof {
                    lemma_pairs_to_map_update(s, j as int, value@);
                    assert(out@.map_values(|e: (String, String)| (e.0@, e.1@)) =~= s.update(
                        j as int,
                        (s[j as int].0, value@),
                    ));
                }
                *self = StringMap { entries: out };
            },
            None => {
                let ghost kv = (key@, value@);
                out.push((key, value));
                proof {
                    let t = out@.map_values(|e: (String, String)| (e.0@, e.1@));
                    assert(t =~= s.push(kv));
                    assert(t.drop_last() =~= s);
                }
                *self = StringMap { entries: out };
            },
        }
    }
}

/// Whether two string slices hold the same characters.
pub fn str_eq(a: &str, b: &str) -> (r: bool)
    ensures
        r <==> a@ == b@,
{
    let n = a.unicode_len();
    if n != b.unicode_len() {
        return false;
    }
    let mut i: usize = 0;
    while i < n
        invariant
            n == a@.len(),
            n == b@.len(),
            0 <= i <= n,
            forall|j: int| 0 <= j < i ==> a@[j] == b@[j],
        decreases n - i,
    {
        if a.get_char(i) != b.get_char(i) {
            return false;
        }
        i = i + 1;
    }
    assert(a@ =~= b@);
    true
}

} // verus!
