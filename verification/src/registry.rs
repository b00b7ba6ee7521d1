use vstd::prelude::*;

use crate::spammer::Spammer;

verus! {

/// The spammers by name, each name at most once.
pub struct SpammerMap {
    names: Vec<String>,
    entries: Vec<Spammer>,
}

/// The map that the names and entries at equal positions make, a later
/// position winning over an earlier one of the same name.
pub closed spec fn map_of(names: Seq<String>, entries: Seq<Spammer>) -> Map<Seq<char>, Spammer>
    decreases names.len(),
{
    if names.len() == 0 {
        Map::empty()
    } else {
        map_of(names.drop_last(), entries.drop_last()).insert(
            names.last()@,
            entries[names.len() - 1],
        )
    }
}

/// No name occurs twice.
pub open spec fn distinct_names(names: Seq<String>) -> bool {
    forall|i: int, j: int| 0 <= i < j < names.len() ==> names[i]@ != names[j]@
}

proof fn lemma_map_of_lookup(names: Seq<String>, entries: Seq<Spammer>, i: int)
    requires
        names.len() == entries.len(),
        distinct_names(names),
        0 <= i < names.len(),
    ensures
        map_of(names, entries).contains_key(names[i]@),
        map_of(names, entries)[names[i]@] == entries[i],
    decreases names.len(),
{
    let n = names.len() as int;
    if i < n - 1 {
        lemma_map_of_lookup(names.drop_last(), entries.drop_last(), i);
        assert(names.drop_last()[i] == names[i]);
        assert(names[i]@ != names[n - 1]@);
    }
}

proof fn lemma_map_of_domain(names: Seq<String>, entries: Seq<Spammer>, k: Seq<char>)
    requires
        names.len() == entries.len(),
    ensures
        map_of(names, entries).contains_key(k) <==> exists|i: int|
            0 <= i < names.len() && #[trigger] names[i]@ == k,
    decreases names.len(),
{
    if names.len() > 0 {
        let n = names.len() as int;
        lemma_map_of_domain(names.drop_last(), entries.drop_last(), k);
        if map_of(names, entries).contains_key(k) {
            if k != names[n - 1]@ {
                let i = choose|i: int|
                    0 <= i < names.drop_last().len() && #[trigger] names.drop_last()[i]@ == k;
                assert(names[i]@ == k);
            }
        } else {
            assert forall|i: int| 0 <= i < names.len() implies #[trigger] names[i]@ != k by {
                if i < n - 1 {
                    assert(names.drop_last()[i]@ == names[i]@);
                }
            }
        }
    }
}

proof fn lemma_map_of_update(names: Seq<String>, entries: Seq<Spammer>, i: int, s: Spammer)
    requires
        names.len() == entries.len(),
        distinct_names(names),
        0 <= i < names.len(),
    ensures
        map_of(names, entries.update(i, s)) == map_of(names, entries).insert(names[i]@, s),
    decreases names.len(),
{
    let n = names.len() as int;
    let updated = entries.update(i, s);
    if i == n - 1 {
        assert(updated.drop_last() =~= entries.drop_last());
        assert(map_of(names, updated) =~= map_of(names, entries).insert(names[i]@, s));
    } else {
        lemma_map_of_update(names.drop_last(), entries.drop_last(), i, s);
        assert(updated.drop_last() =~= entries.drop_last().update(i, s));
        assert(names.drop_last()[i] == names[i]);
        assert(names[i]@ != names[n - 1]@);
        assert(map_of(names, updated) =~= map_of(names, entries).insert(names[i]@, s));
    }
}

proof fn lemma_map_of_push(names: Seq<String>, entries: Seq<Spammer>, name: String, s: Spammer)
    requires
        names.len() == entries.len(),
    ensures
        map_of(names.push(name), entries.push(s)) == map_of(names, entries).insert(name@, s),
{
    assert(names.push(name).drop_last() =~= names);
    assert(entries.push(s).drop_last() =~= entries);
}

impl View for SpammerMap {
    type V = Map<Seq<char>, Spammer>;

    closed spec fn view(&self) -> Map<Seq<char>, Spammer> {
        map_of(self.names@, self.entries@)
    }
}

impl SpammerMap {
    #[verifier::type_invariant]
    closed spec fn well_formed(self) -> bool {
        &&& self.names.len() == self.entries.len()
        &&& distinct_names(self.names@)
    }

    /// The empty map.
    pub fn new() -> (m: Self)
        ensures
            m@ == Map::<Seq<char>, Spammer>::empty(),
    {
        SpammerMap { names: Vec::new(), entries: Vec::new() }
    }

    /// Where `key` stands among the names, if it does.
    fn position(&self, key: &String) -> (r: Option<usize>)
        ensures
            r is None ==> !self@.contains_key(key@),
            r matches Some(i) ==> i < self.names.len() && self.names@[i as int]@ == key@,
    {
        proof {
            use_type_invariant(self);
        }
        let n = self.names.len();
        let mut i: usize = 0;
        while i < n
            invariant
                n == self.names.len(),
                i <= n,
                forall|j: int| 0 <= j < i ==> self.names@[j]@ != key@,
            decreases n - i,
        {
            if self.names[i].eq(key) {
                return Some(i);
            }
            i = i + 1;
        }
        proof {
            lemma_map_of_domain(self.names@, self.entries@, key@);
        }
        None
    }

    /// The spammer named `key`, if there is one.
    pub fn get(&self, key: &str) -> (r: Option<Spammer>)
        ensures
            r == self@.get(key@),
    {
        proof {
            use_type_invariant(self);
        }
        let k = key.to_owned();
        match self.position(&k) {
            Some(i) => {
                proof {
                    lemma_map_of_lookup(self.names@, self.entries@, i as int);
                }
                Some(self.entries[i])
            },
            None => None,
        }
    }

    /// Names `spammer` by `key`, replacing any spammer of that name.
    pub fn insert(&mut self, key: &str, spammer: Spammer)
        ensures
            final(self)@ == old(self)@.insert(key@, spammer),
    {
        proof {
            use_type_invariant(&*self);
        }
        let k = key.to_owned();
        let found = self.position(&k);
        let mut taken = SpammerMap::new();
        std::mem::swap(&mut taken, self);
        proof {
            use_type_invariant(&taken);
        }
        let SpammerMap { mut names, mut entries } = taken;
        match found {
            Some(i) => {
                proof {
                    lemma_map_of_update(names@, entries@, i as int, spammer);
                }
                entries.set(i, spammer);
            },
            None => {
                proof {
                    lemma_map_of_push(names@, entries@, k, spammer);
                    lemma_map_of_domain(names@, entries@, k@);
                }
                names.push(k);
                entries.push(spammer);
            },
        }
        *self = SpammerMap { names, entries };
    }
}

} // verus!
