use vstd::prelude::*;

verus! {

/// The map that a list of (name, value) pairs describes: a later pair for a
/// name overrides an earlier one.
pub open spec fn pairs_map(s: Seq<(Seq<char>, Seq<char>)>) -> Map<Seq<char>, Seq<char>>
    decreases s.len(),
{
    if s.len() == 0 {
        Map::empty()
    } else {
        pairs_map(s.drop_last()).insert(s.last().0, s.last().1)
    }
}

/// No name occurs twice in the list.
pub open spec fn names_unique(s: Seq<(Seq<char>, Seq<char>)>) -> bool {
    forall|i: int, j: int| 0 <= i < s.len() && 0 <= j < s.len() && i != j ==> s[i].0 != s[j].0
}

/// The list of pairs as mathematical strings.
pub open spec fn pairs_view(v: Seq<(String, String)>) -> Seq<(Seq<char>, Seq<char>)> {
    v.map_values(|p: (String, String)| (p.0@, p.1@))
}

proof fn lemma_pairs_map_push(s: Seq<(Seq<char>, Seq<char>)>, k: Seq<char>, v: Seq<char>)
    ensures
        pairs_map(s.push((k, v))) == pairs_map(s).insert(k, v),
{
    assert(s.push((k, v)).drop_last() =~= s);
}

proof fn lemma_pairs_map_update(s: Seq<(Seq<char>, Seq<char>)>, i: int, v: Seq<char>)
    requires
        names_unique(s),
        0 <= i < s.len(),
    ensures
        pairs_map(s.update(i, (s[i].0, v))) == pairs_map(s).insert(s[i].0, v),
    decreases s.len(),
{
    let k = s[i].0;
    let t = s.update(i, (k, v));
    if i == s.len() - 1 {
        assert(t.drop_last() =~= s.drop_last());
        assert(pairs_map(t) =~= pairs_map(s).insert(k, v));
    } else {
        let d = s.drop_last();
        assert(t.drop_last() =~= d.update(i, (k, v)));
        assert(names_unique(d));
        lemma_pairs_map_update(d, i, v);
        assert(s.last().0 != k);
        assert(pairs_map(t) =~= pairs_map(s).insert(k, v));
    }
}

proof fn lemma_pairs_map_has(s: Seq<(Seq<char>, Seq<char>)>, i: int)
    requires
        names_unique(s),
        0 <= i < s.len(),
    ensures
        pairs_map(s).contains_key(s[i].0),
        pairs_map(s)[s[i].0] == s[i].1,
    decreases s.len(),
{
    if i < s.len() - 1 {
        let d = s.drop_last();
        assert(d[i] == s[i]);
        lemma_pairs_map_has(d, i);
        assert(s.last().0 != s[i].0);
    }
}

proof fn lemma_pairs_map_lacks(s: Seq<(Seq<char>, Seq<char>)>, k: Seq<char>)
    requires
        forall|i: int| 0 <= i < s.len() ==> s[i].0 != k,
    ensures
        !pairs_map(s).contains_key(k),
    decreases s.len(),
{
    if s.len() > 0 {
        let d = s.drop_last();
        assert forall|i: int| 0 <= i < d.len() implies d[i].0 != k by {
            assert(d[i] == s[i]);
        }
        lemma_pairs_map_lacks(d, k);
        assert(s.last() == s[s.len() - 1]);
    }
}

/// Header names mapped to values. Names are kept as opaque keys: a second
/// write under the same name replaces the first.
pub struct Headers {
    entries: Vec<(String, String)>,
}

impl View for Headers {
    type V = Map<Seq<char>, Seq<char>>;

    open spec fn view(&self) -> Map<Seq<char>, Seq<char>> {
        pairs_map(self.pairs())
    }
}

impl Headers {
    /// The pairs in the order in which their names were first set.
    pub closed spec fn pairs(&self) -> Seq<(Seq<char>, Seq<char>)> {
        pairs_view(self.entries@)
    }

    #[verifier::type_invariant]
    spec fn inv(&self) -> bool {
        names_unique(self.pairs())
    }

    pub fn new() -> (r: Headers)
        ensures
            r@ == Map::<Seq<char>, Seq<char>>::empty(),
            r.pairs().len() == 0,
    {
        let r = Headers { entries: Vec::new() };
        assert(r.pairs() =~= Seq::<(Seq<char>, Seq<char>)>::empty());
        r
    }

    /// The value set for `name`, if any.
    pub fn get(&self, name: &str) -> (r: Option<String>)
        ensures
            r is Some <==> self@.contains_key(name@),
            r is Some ==> r->Some_0@ == self@[name@],
    {
        proof {
            use_type_invariant(self);
        }
        let ghost s = self.pairs();
        let key = name.to_owned();
        let mut i: usize = 0;
        while i < self.entries.len()
            invariant
                names_unique(s),
                self.pairs() == s,
                key@ == name@,
                0 <= i <= self.entries@.len(),
                forall|j: int| 0 <= j < i ==> s[j].0 != name@,
            decreases self.entries@.len() - i,
        {
            assert(s[i as int] == (self.entries@[i as int].0@, self.entries@[i as int].1@));
            if self.entries[i].0 == key {
                proof {
                    lemma_pairs_map_has(s, i as int);
                }
                return Some(self.entries[i].1.clone());
            }
            i = i + 1;
        }
        proof {
            lemma_pairs_map_lacks(s, name@);
        }
        None
    }

    /// A copy of the pairs, in order.
    pub fn to_pairs(&self) -> (r: Vec<(String, String)>)
        ensures
            pairs_view(r@) == self.pairs(),
            names_unique(pairs_view(r@)),
    {
        proof {
            use_type_invariant(self);
        }
        let mut r: Vec<(String, String)> = Vec::new();
        let mut i: usize = 0;
        while i < self.entries.len()
            invariant
                0 <= i <= self.entries@.len(),
                pairs_view(r@) == self.pairs().subrange(0, i as int),
            decreases self.entries@.len() - i,
        {
            let k = self.entries[i].0.clone();
            let v = self.entries[i].1.clone();
            let ghost before = r@;
            r.push((k, v));
            assert(pairs_view(r@) =~= pairs_view(before).push((self.pairs()[i as int].0, self.pairs()[i as int].1)));
            assert(pairs_view(r@) =~= self.pairs().subrange(0, i + 1));
            i = i + 1;
        }
        assert(self.pairs().subrange(0, i as int) =~= self.pairs());
        r
    }

    /// Sets `name` to `value`, replacing an earlier value for the same name.
    pub fn insert(self, name: &str, value: &str) -> (r: Headers)
        ensures
            r@ == self@.insert(name@, value@),
    {
        proof {
            use_type_invariant(&self);
        }
        let ghost s = self.pairs();
        let Headers { mut entries } = self;
        let key = name.to_owned();
        let mut i: usize = 0;
        while i < entries.len()
            invariant
                names_unique(s),
                pairs_view(entries@) == s,
                self.pairs() == s,
                key@ == name@,
                0 <= i <= entries@.len(),
                forall|j: int| 0 <= j < i ==> s[j].0 != name@,
            decreases entries@.len() - i,
        {
            assert(s[i as int].0 == entries@[i as int].0@);
            if entries[i].0 == key {
                proof {
                    lemma_pairs_map_update(s, i as int, value@);
                }
                entries.set(i, (key, value.to_owned()));
                assert(pairs_view(entries@) =~= s.update(i as int, (s[i as int].0, value@)));
                return Headers { entries };
            }
            i = i + 1;
        }
        entries.push((key, value.to_owned()));
        proof {
            lemma_pairs_map_push(s, name@, value@);
        }
        assert(pairs_view(entries@) =~= s.push((name@, value@)));
        Headers { entries }
    }
}

} // verus!
