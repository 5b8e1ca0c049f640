use vstd::prelude::*;

verus! {

/// A map from account or token names to values, kept as two parallel vectors
/// with distinct keys.
pub struct NameMap<V> {
    keys: Vec<String>,
    vals: Vec<V>,
    contents: Ghost<Map<Seq<char>, V>>,
}

impl<V> View for NameMap<V> {
    type V = Map<Seq<char>, V>;

    closed spec fn view(&self) -> Map<Seq<char>, V> {
        self.contents@
    }
}

impl<V> NameMap<V> {
    /// The vectors agree with the abstract map and hold each key once.
    pub closed spec fn wf(&self) -> bool {
        &&& self.keys.len() == self.vals.len()
        &&& forall|i: int, j: int|
            0 <= i < j < self.keys.len() ==> self.keys@[i]@ != self.keys@[j]@
        &&& forall|i: int|
            0 <= i < self.keys.len() ==> #[trigger] self.contents@.contains_key(self.keys@[i]@)
                && self.contents@[self.keys@[i]@] == self.vals@[i]
        &&& forall|k: Seq<char>|
            #[trigger] self.contents@.contains_key(k) ==> exists|i: int|
                0 <= i < self.keys.len() && self.keys@[i]@ == k
    }

    pub fn new() -> (r: NameMap<V>)
        ensures
            r.wf(),
            r@ == Map::<Seq<char>, V>::empty(),
    {
        NameMap { keys: Vec::new(), vals: Vec::new(), contents: Ghost(Map::empty()) }
    }

    fn index_of(&self, k: &String) -> (r: Option<usize>)
        requires
            self.wf(),
        ensures
            match r {
                Some(i) => i < self.keys.len() && self.keys@[i as int]@ == k@,
                None => !self@.contains_key(k@),
            },
    {
        let mut i: usize = 0;
        while i < self.keys.len()
            invariant
                self.wf(),
                i <= self.keys.len(),
                forall|j: int| 0 <= j < i ==> self.keys@[j]@ != k@,
            decreases self.keys.len() - i,
        {
            if self.keys[i] == *k {
                return Some(i);
            }
            i = i + 1;
        }
        None
    }

    pub fn contains(&self, k: &String) -> (r: bool)
        requires
            self.wf(),
        ensures
            r == self@.contains_key(k@),
    {
        let found = self.index_of(k);
        proof {
            if let Some(i) = found {
                assert(self.contents@.contains_key(self.keys@[i as int]@));
            }
        }
        found.is_some()
    }

    pub fn get(&self, k: &String) -> (r: Option<&V>)
        requires
            self.wf(),
        ensures
            match r {
                Some(v) => self@.contains_key(k@) && *v == self@[k@],
                None => !self@.contains_key(k@),
            },
    {
        match self.index_of(k) {
            Some(i) => {
                assert(self.contents@.contains_key(self.keys@[i as int]@));
                Some(&self.vals[i])
            },
            None => None,
        }
    }

    pub fn insert(&mut self, k: String, v: V)
        requires
            old(self).wf(),
        ensures
            final(self).wf(),
            final(self)@ == old(self)@.insert(k@, v),
    {
        let ghost new_map = self.contents@.insert(k@, v);
        match self.index_of(&k) {
            Some(i) => {
                self.vals.set(i, v);
                self.contents = Ghost(new_map);
                assert forall|j: int| 0 <= j < self.keys.len() implies
                    #[trigger] self.contents@.contains_key(self.keys@[j]@)
                    && self.contents@[self.keys@[j]@] == self.vals@[j] by {
                    if j != i {
                        assert(self.keys@[j]@ != self.keys@[i as int]@);
                        assert(old(self).contents@.contains_key(old(self).keys@[j]@));
                    }
                }
                assert forall|q: Seq<char>| #[trigger] self.contents@.contains_key(q) implies
                    exists|j: int| 0 <= j < self.keys.len() && self.keys@[j]@ == q by {
                    if q != k@ {
                        assert(old(self).contents@.contains_key(q));
                    } else {
                        assert(self.keys@[i as int]@ == q);
                    }
                }
            },
            None => {
                let ghost old_len = self.keys.len();
                self.keys.push(k);
                self.vals.push(v);
                self.contents = Ghost(new_map);
                assert forall|j: int| 0 <= j < self.keys.len() implies
                    #[trigger] self.contents@.contains_key(self.keys@[j]@)
                    && self.contents@[self.keys@[j]@] == self.vals@[j] by {
                    if j < old_len {
                        assert(old(self).contents@.contains_key(old(self).keys@[j]@));
                    }
                }
                assert forall|a: int, b: int| 0 <= a < b < self.keys.len() implies
                    self.keys@[a]@ != self.keys@[b]@ by {
                    if b == old_len {
                        assert(old(self).contents@.contains_key(old(self).keys@[a]@));
                    }
                }
                assert forall|q: Seq<char>| #[trigger] self.contents@.contains_key(q) implies
                    exists|j: int| 0 <= j < self.keys.len() && self.keys@[j]@ == q by {
                    if q != k@ {
                        assert(old(self).contents@.contains_key(q));
                        let j = choose|j: int| 0 <= j < old_len && old(self).keys@[j]@ == q;
                        assert(self.keys@[j]@ == q);
                    } else {
                        assert(self.keys@[old_len as int]@ == q);
                    }
                }
            },
        }
    }
}

} // verus!
