//! Process environment of a child command: a map from variable names to
//! values, in which every name occurs once.

use vstd::prelude::*;

verus! {

/// The map that a list of `(name, value)` pairs stands for, when no name
/// occurs twice in it.
pub open spec fn pairs_view(s: Seq<(String, String)>) -> Map<Seq<char>, Seq<char>> {
    Map::new(
        |k: Seq<char>| exists|i: int| 0 <= i < s.len() && #[trigger] s[i].0@ == k,
        |k: Seq<char>| s[choose|i: int| 0 <= i < s.len() && #[trigger] s[i].0@ == k].1@,
    )
}

/// No name occurs twice among the pairs.
pub open spec fn names_distinct(s: Seq<(String, String)>) -> bool {
    forall|i: int, j: int| 0 <= i < s.len() && 0 <= j < s.len() && i != j ==> s[i].0@ != s[j].0@
}

/// Two strings hold the same characters.
pub fn str_eq(a: &str, b: &str) -> (r: bool)
    ensures
        r == (a@ == b@),
{
    let a_owned: String = a.to_owned();
    let b_owned: String = b.to_owned();
    a_owned == b_owned
}

/// The environment variables handed to a child process.
pub struct EnvVars {
    entries: Vec<(String, String)>,
}

proof fn lemma_pairs_view_at(s: Seq<(String, String)>, i: int)
    requires
        names_distinct(s),
        0 <= i < s.len(),
    ensures
        pairs_view(s).contains_key(s[i].0@),
        pairs_view(s)[s[i].0@] == s[i].1@,
{
    let k = s[i].0@;
    assert(exists|j: int| 0 <= j < s.len() && #[trigger] s[j].0@ == k);
    let j = choose|j: int| 0 <= j < s.len() && #[trigger] s[j].0@ == k;
    assert(j == i);
}

/// Writing a pair at position `at` (an existing position of that name, or
/// one past the end for a new name) is an insert into the map.
proof fn lemma_pairs_view_write(old_entries: Seq<(String, String)>, entries: Seq<(String, String)>, at: int)
    requires
        names_distinct(old_entries),
        0 <= at < entries.len(),
        at < old_entries.len() ==> entries.len() == old_entries.len() && old_entries[at].0@ == entries[at].0@,
        at >= old_entries.len() ==> entries.len() == old_entries.len() + 1 && at == old_entries.len()
            && forall|j: int| 0 <= j < old_entries.len() ==> #[trigger] old_entries[j].0@ != entries[at].0@,
        forall|j: int| 0 <= j < old_entries.len() && j != at ==> #[trigger] entries[j] == old_entries[j],
    ensures
        names_distinct(entries),
        pairs_view(entries) == pairs_view(old_entries).insert(entries[at].0@, entries[at].1@),
{
    let target = pairs_view(old_entries).insert(entries[at].0@, entries[at].1@);
    assert(names_distinct(entries)) by {
        assert forall|a: int, b: int| 0 <= a < entries.len() && 0 <= b < entries.len() && a != b implies
            entries[a].0@ != entries[b].0@ by {
            if a != at && b != at {
                assert(entries[a] == old_entries[a]);
                assert(entries[b] == old_entries[b]);
            } else if a == at {
                if at < old_entries.len() {
                    assert(entries[b] == old_entries[b]);
                } else {
                    assert(entries[b] == old_entries[b]);
                }
            } else {
                assert(entries[a] == old_entries[a]);
            }
        }
    }
    assert forall|k: Seq<char>|
        #![trigger pairs_view(entries).contains_key(k)]
        pairs_view(entries).contains_key(k) == target.contains_key(k) by {
        if k != entries[at].0@ {
            if pairs_view(old_entries).contains_key(k) {
                let j = choose|j: int| 0 <= j < old_entries.len() && #[trigger] old_entries[j].0@ == k;
                if j == at {
                    assert(old_entries[at].0@ == entries[at].0@);
                }
                assert(entries[j].0@ == k);
            }
            if pairs_view(entries).contains_key(k) {
                let j = choose|j: int| 0 <= j < entries.len() && #[trigger] entries[j].0@ == k;
                assert(old_entries[j].0@ == k);
            }
        } else {
            lemma_pairs_view_at(entries, at);
        }
    }
    assert forall|k: Seq<char>| #[trigger] pairs_view(entries).contains_key(k) implies pairs_view(entries)[k]
        == target[k] by {
        let j = choose|j: int| 0 <= j < entries.len() && #[trigger] entries[j].0@ == k;
        lemma_pairs_view_at(entries, j);
        if j != at {
            lemma_pairs_view_at(old_entries, j);
        }
    }
    assert(pairs_view(entries) =~= target);
}

proof fn lemma_pairs_view_absent(s: Seq<(String, String)>, k: Seq<char>)
    requires
        forall|i: int| 0 <= i < s.len() ==> #[trigger] s[i].0@ != k,
    ensures
        !pairs_view(s).contains_key(k),
{
}

/// Position of `name` among `entries`, if it occurs there.
fn position_in(entries: &Vec<(String, String)>, name: &str) -> (r: Option<usize>)
    ensures
        match r {
            Some(i) => i < entries@.len() && entries@[i as int].0@ == name@,
            None => forall|i: int| 0 <= i < entries@.len() ==> #[trigger] entries@[i].0@ != name@,
        },
{
    let mut i: usize = 0;
    while i < entries.len()
        invariant
            i <= entries@.len(),
            forall|j: int| 0 <= j < i ==> #[trigger] entries@[j].0@ != name@,
        decreases entries@.len() - i,
    {
        if str_eq(entries[i].0.as_str(), name) {
            return Some(i);
        }
        i = i + 1;
    }
    None
}

impl View for EnvVars {
    type V = Map<Seq<char>, Seq<char>>;

    closed spec fn view(&self) -> Map<Seq<char>, Seq<char>> {
        pairs_view(self.entries@)
    }
}

impl EnvVars {
    #[verifier::type_invariant]
    spec fn names_unique(&self) -> bool {
        names_distinct(self.entries@)
    }

    /// An environment with no variables.
    pub fn new() -> (r: Self)
        ensures
            r@ == Map::<Seq<char>, Seq<char>>::empty(),
    {
        let r = EnvVars { entries: Vec::new() };
        assert(r@ =~= Map::<Seq<char>, Seq<char>>::empty());
        r
    }

    /// Position of `name` among the entries, if it is set.
    fn position(&self, name: &str) -> (r: Option<usize>)
        ensures
            match r {
                Some(i) => i < self.entries@.len() && self.entries@[i as int].0@ == name@,
                None => forall|i: int| 0 <= i < self.entries@.len() ==> #[trigger] self.entries@[i].0@ != name@,
            },
    {
        position_in(&self.entries, name)
    }

    /// The value of `name`, if it is set.
    pub fn get(&self, name: &str) -> (r: Option<&String>)
        ensures
            match r {
                Some(v) => self@.contains_key(name@) && self@[name@] == v@,
                None => !self@.contains_key(name@),
            },
    {
        proof {
            use_type_invariant(self);
        }
        match self.position(name) {
            Some(i) => {
                proof {
                    lemma_pairs_view_at(self.entries@, i as int);
                }
                Some(&self.entries[i].1)
            },
            None => {
                proof {
                    lemma_pairs_view_absent(self.entries@, name@);
                }
                None
            },
        }
    }

    /// Whether `name` is set.
    pub fn contains_key(&self, name: &str) -> (r: bool)
        ensures
            r == self@.contains_key(name@),
    {
        self.get(name).is_some()
    }

    /// Sets `name` to `value`, replacing any value it had.
    pub fn insert(&mut self, name: String, value: String)
        ensures
            final(self)@ == old(self)@.insert(name@, value@),
    {
        proof {
            use_type_invariant(&*self);
        }
        let ghost old_entries = self.entries@;
        let mut entries: Vec<(String, String)> = Vec::new();
        std::mem::swap(&mut entries, &mut self.entries);
        let ghost at: int;
        match position_in(&entries, name.as_str()) {
            Some(i) => {
                entries.set(i, (name, value));
                proof {
                    at = i as int;
                }
            },
            None => {
                entries.push((name, value));
                proof {
                    at = old_entries.len() as int;
                }
            },
        }
        proof {
            lemma_pairs_view_write(old_entries, entries@, at);
        }
        self.entries = entries;
    }

    /// Unsets `name`; the other variables keep their values.
    pub fn remove(&mut self, name: &str)
        ensures
            final(self)@ == old(self)@.remove(name@),
    {
        proof {
            use_type_invariant(&*self);
        }
        let ghost old_entries = self.entries@;
        match self.position(name) {
            Some(i) => {
                let mut entries: Vec<(String, String)> = Vec::new();
                std::mem::swap(&mut entries, &mut self.entries);
                let _ = entries.remove(i);
                proof {
                    assert(entries@ == old_entries.remove(i as int));
                    assert(names_distinct(entries@)) by {
                        assert forall|a: int, b: int|
                            0 <= a < entries@.len() && 0 <= b < entries@.len() && a != b implies
                            entries@[a].0@ != entries@[b].0@ by {
                            let a2 = if a < i { a } else { a + 1 };
                            let b2 = if b < i { b } else { b + 1 };
                            assert(entries@[a] == old_entries[a2]);
                            assert(entries@[b] == old_entries[b2]);
                        }
                    }
                    assert forall|k: Seq<char>|
                        #![trigger pairs_view(entries@).contains_key(k)]
                        pairs_view(entries@).contains_key(k) == pairs_view(old_entries).remove(name@).contains_key(k) by {
                        if pairs_view(old_entries).contains_key(k) && k != name@ {
                            let j = choose|j: int| 0 <= j < old_entries.len() && #[trigger] old_entries[j].0@ == k;
                            let j2 = if j < i { j } else { j - 1 };
                            assert(entries@[j2].0@ == k);
                        }
                        if pairs_view(entries@).contains_key(k) {
                            let j = choose|j: int| 0 <= j < entries@.len() && #[trigger] entries@[j].0@ == k;
                            let j2 = if j < i { j } else { j + 1 };
                            assert(old_entries[j2].0@ == k);
                            assert(k != name@);
                        }
                    }
                    assert forall|k: Seq<char>| #[trigger] pairs_view(entries@).contains_key(k) implies
                        pairs_view(entries@)[k] == pairs_view(old_entries).remove(name@)[k] by {
                        let j = choose|j: int| 0 <= j < entries@.len() && #[trigger] entries@[j].0@ == k;
                        let j2 = if j < i { j } else { j + 1 };
                        assert(old_entries[j2] == entries@[j]);
                        lemma_pairs_view_at(entries@, j);
                        lemma_pairs_view_at(old_entries, j2);
                    }
                    assert(pairs_view(entries@) =~= pairs_view(old_entries).remove(name@));
                }
                self.entries = entries;
            },
            None => {
                proof {
                    lemma_pairs_view_absent(old_entries, name@);
                    assert(pairs_view(old_entries) =~= pairs_view(old_entries).remove(name@));
                }
            },
        }
    }

    /// The variables as `(name, value)` pairs, each name once.
    pub fn into_pairs(self) -> (r: Vec<(String, String)>)
        ensures
            names_distinct(r@),
            pairs_view(r@) == self@,
    {
        proof {
            use_type_invariant(&self);
        }
        self.entries
    }
}

/// A read gives back what the last write of that name wrote, and a write
/// leaves the other names as they were.
pub proof fn lemma_env_read_after_write(
    env: Map<Seq<char>, Seq<char>>,
    name: Seq<char>,
    value: Seq<char>,
    other: Seq<char>,
)
    requires
        other != name,
    ensures
        env.insert(name, value).contains_key(name),
        env.insert(name, value)[name] == value,
        env.insert(name, value).contains_key(other) == env.contains_key(other),
        env.contains_key(other) ==> env.insert(name, value)[other] == env[other],
{
}

/// After a name is unset, a read of it finds nothing, and the other names
/// keep their values.
pub proof fn lemma_env_read_after_remove(env: Map<Seq<char>, Seq<char>>, name: Seq<char>, other: Seq<char>)
    requires
        other != name,
    ensures
        !env.remove(name).contains_key(name),
        env.remove(name).contains_key(other) == env.contains_key(other),
        env.contains_key(other) ==> env.remove(name)[other] == env[other],
{
}

} // verus!
