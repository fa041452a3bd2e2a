use vstd::prelude::*;
use crate::strutil::str_eq;

verus! {

/// The mathematical contents of an entry list: later entries shadow earlier
/// ones with the same name.
pub open spec fn entries_as_map<V>(s: Seq<(String, V)>) -> Map<Seq<char>, V>
    decreases s.len(),
{
    if s.len() == 0 {
        Map::empty()
    } else {
        entries_as_map(s.drop_last()).insert(s.last().0@, s.last().1)
    }
}

/// The entry list with every entry of the given name removed.
pub open spec fn entries_without<V>(s: Seq<(String, V)>, name: Seq<char>) -> Seq<(String, V)>
    decreases s.len(),
{
    if s.len() == 0 {
        s
    } else if s.last().0@ == name {
        entries_without(s.drop_last(), name)
    } else {
        entries_without(s.drop_last(), name).push(s.last())
    }
}

pub proof fn lemma_map_contains<V>(s: Seq<(String, V)>, name: Seq<char>)
    ensures
        entries_as_map(s).contains_key(name) <==> exists|i: int|
            0 <= i < s.len() && #[trigger] s[i].0@ == name,
    decreases s.len(),
{
    if s.len() > 0 {
        lemma_map_contains(s.drop_last(), name);
        if entries_as_map(s).contains_key(name) {
            if s.last().0@ == name {
                assert(s[s.len() - 1].0@ == name);
            } else {
                let i = choose|i: int| 0 <= i < s.drop_last().len()
                    && #[trigger] s.drop_last()[i].0@ == name;
                assert(s[i].0@ == name);
            }
        }
        if exists|i: int| 0 <= i < s.len() && #[trigger] s[i].0@ == name {
            let i = choose|i: int| 0 <= i < s.len() && #[trigger] s[i].0@ == name;
            if i < s.len() - 1 {
                assert(s.drop_last()[i].0@ == name);
            }
        }
    }
}

pub proof fn lemma_map_get<V>(s: Seq<(String, V)>, i: int)
    requires
        0 <= i < s.len(),
        forall|j: int| i < j < s.len() ==> #[trigger] s[j].0@ != s[i].0@,
    ensures
        entries_as_map(s).contains_key(s[i].0@),
        entries_as_map(s)[s[i].0@] == s[i].1,
    decreases s.len(),
{
    if i == s.len() - 1 {
    } else {
        assert(forall|j: int| i < j < s.drop_last().len()
            ==> #[trigger] s.drop_last()[j].0@ != s.drop_last()[i].0@);
        lemma_map_get(s.drop_last(), i);
        assert(s.drop_last()[i] == s[i]);
    }
}

pub proof fn lemma_map_without<V>(s: Seq<(String, V)>, name: Seq<char>)
    ensures
        entries_as_map(entries_without(s, name)) == entries_as_map(s).remove(name),
    decreases s.len(),
{
    lemma_map_contains(s, name);
    if s.len() == 0 {
        assert(entries_as_map(s) =~= Map::<Seq<char>, V>::empty());
        assert(entries_as_map(s).remove(name) =~= entries_as_map(s));
    } else {
        lemma_map_without(s.drop_last(), name);
        if s.last().0@ == name {
            assert(entries_as_map(s).remove(name)
                =~= entries_as_map(s.drop_last()).remove(name));
        } else {
            let rest = entries_without(s.drop_last(), name);
            assert(entries_as_map(rest.push(s.last()))
                == entries_as_map(rest).insert(s.last().0@, s.last().1)) by {
                assert(rest.push(s.last()).drop_last() =~= rest);
            }
            assert(entries_as_map(s).remove(name)
                =~= entries_as_map(s.drop_last()).remove(name).insert(s.last().0@, s.last().1));
        }
    }
}

/// An association from names to values, the backing store of every asset
/// cache. Lookups scan from the newest entry backwards, so the newest entry
/// for a name wins, matching `entries_as_map`.
pub struct NameMap<V> {
    entries: Vec<(String, V)>,
}

impl<V> NameMap<V> {
    pub closed spec fn view(&self) -> Map<Seq<char>, V> {
        entries_as_map(self.entries@)
    }

    pub fn new() -> (r: Self)
        ensures
            r@ == Map::<Seq<char>, V>::empty(),
    {
        NameMap { entries: Vec::new() }
    }

    pub fn get<'a>(&'a self, name: &str) -> (r: Option<&'a V>)
        ensures
            match r {
                Some(v) => self@.contains_key(name@) && *v == self@[name@],
                None => !self@.contains_key(name@),
            },
    {
        let n = self.entries.len();
        let mut i: usize = n;
        while i > 0
            invariant
                i <= n,
                n == self.entries.len(),
                forall|j: int| i <= j < n ==> #[trigger] self.entries@[j].0@ != name@,
            decreases i,
        {
            i -= 1;
            if str_eq(self.entries[i].0.as_str(), name) {
                proof {
                    lemma_map_get(self.entries@, i as int);
                }
                return Some(&self.entries[i].1);
            }
        }
        proof {
            lemma_map_contains(self.entries@, name@);
        }
        None
    }

    pub fn contains(&self, name: &str) -> (r: bool)
        ensures
            r == self@.contains_key(name@),
    {
        self.get(name).is_some()
    }

    pub fn insert(&mut self, name: String, v: V)
        ensures
            final(self)@ == old(self)@.insert(name@, v),
    {
        proof {
            assert(old(self).entries@.push((name, v)).drop_last() =~= old(self).entries@);
        }
        self.entries.push((name, v));
    }

    pub fn remove(&mut self, name: &str)
        ensures
            final(self)@ == old(self)@.remove(name@),
    {
        let mut rest: Vec<(String, V)> = Vec::new();
        core::mem::swap(&mut rest, &mut self.entries);
        let ghost orig = rest@;
        let n = rest.len();
        let mut kept: Vec<(String, V)> = Vec::new();
        let mut i: usize = 0;
        while i < n
            invariant
                i <= n,
                n == orig.len(),
                rest@ == orig.skip(i as int),
                kept@ == entries_without(orig.take(i as int), name@),
            decreases n - i,
        {
            let pair = rest.remove(0);
            proof {
                assert(orig.skip(i as int)[0] == orig[i as int]);
                assert(orig.skip(i as int).subrange(1, orig.skip(i as int).len() as int)
                    =~= orig.skip(i + 1));
                assert(orig.take(i + 1).drop_last() =~= orig.take(i as int));
                assert(orig.take(i + 1).last() == orig[i as int]);
            }
            if !str_eq(pair.0.as_str(), name) {
                kept.push(pair);
            }
            i += 1;
        }
        proof {
            assert(orig.take(n as int) =~= orig);
            lemma_map_without(orig, name@);
        }
        self.entries = kept;
    }

    pub fn clear(&mut self)
        ensures
            final(self)@ == Map::<Seq<char>, V>::empty(),
    {
        self.entries = Vec::new();
    }
}

} // verus!
