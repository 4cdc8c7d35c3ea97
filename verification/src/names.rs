use vstd::prelude::*;

verus! {

/// What a list of bindings maps a name to: the last binding of that name wins.
pub open spec fn lookup<V>(entries: Seq<(String, V)>, key: Seq<char>) -> Option<V>
    decreases entries.len(),
{
    if entries.len() == 0 {
        None
    } else if entries.last().0@ == key {
        Some(entries.last().1)
    } else {
        lookup(entries.drop_last(), key)
    }
}

/// A map from identifier names to bindings, kept as a list in which a later
/// binding of a name shadows every earlier one.
pub struct NameMap<V> {
    pub entries: Vec<(String, V)>,
}

impl<V> View for NameMap<V> {
    type V = Map<Seq<char>, V>;

    open spec fn view(&self) -> Map<Seq<char>, V> {
        Map::new(
            |k: Seq<char>| lookup(self.entries@, k) is Some,
            |k: Seq<char>| lookup(self.entries@, k).unwrap(),
        )
    }
}

impl<V: Copy> NameMap<V> {
    /// An empty map.
    pub fn new() -> (m: Self)
        ensures
            m@ == Map::<Seq<char>, V>::empty(),
    {
        let m = NameMap { entries: Vec::new() };
        assert(m@ =~= Map::<Seq<char>, V>::empty());
        m
    }

    /// The binding of `key`, if any.
    pub fn get(&self, key: &String) -> (r: Option<V>)
        ensures
            r == lookup(self.entries@, key@),
            r is Some <==> self@.contains_key(key@),
            r matches Some(v) ==> self@[key@] == v,
    {
        let mut i = self.entries.len();
        assert(self.entries@.take(i as int) =~= self.entries@);
        while i > 0
            invariant
                i <= self.entries.len(),
                lookup(self.entries@, key@) == lookup(self.entries@.take(i as int), key@),
            decreases i,
        {
            let ghost t = self.entries@.take(i as int);
            if self.entries[i - 1].0 == *key {
                assert(t.last() == self.entries@[i - 1]);
                return Some(self.entries[i - 1].1);
            }
            assert(t.drop_last() =~= self.entries@.take(i - 1));
            i = i - 1;
        }
        assert(self.entries@.take(0) =~= Seq::<(String, V)>::empty());
        None
    }

    /// Binds `key` to `value`, shadowing any earlier binding.
    pub fn insert(&mut self, key: String, value: V)
        ensures
            final(self)@ == old(self)@.insert(key@, value),
            final(self).entries@ == old(self).entries@.push((key, value)),
    {
        let ghost old_entries = self.entries@;
        self.entries.push((key, value));
        proof {
            let ne = self.entries@;
            assert(ne.drop_last() =~= old_entries);
            assert forall|k: Seq<char>| #[trigger] lookup(ne, k) == (if k == key@ {
                Some(value)
            } else {
                lookup(old_entries, k)
            }) by {}
            assert(self@ =~= old(self)@.insert(key@, value));
        }
    }
}

} // verus!
