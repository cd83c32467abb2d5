use vstd::prelude::*;

verus! {

/// A map from names to values, kept as a list of entries in which no name
/// occurs twice.  Devices and audio sessions are both tracked by name.
pub struct NamedMap<T> {
    entries: Vec<(String, T)>,
}

/// No two entries of `s` carry the same name.
pub open spec fn names_distinct<T>(s: Seq<(String, T)>) -> bool {
    forall|i: int, j: int|
        0 <= i < s.len() && 0 <= j < s.len() && i != j ==> #[trigger] s[i].0@ != #[trigger] s[j].0@
}

/// Some entry of `s` carries the name `k`.
pub open spec fn has_name<T>(s: Seq<(String, T)>, k: Seq<char>) -> bool {
    exists|i: int| 0 <= i < s.len() && #[trigger] s[i].0@ == k
}

/// The position of an entry of `s` that carries the name `k`.
pub open spec fn name_index<T>(s: Seq<(String, T)>, k: Seq<char>) -> int {
    choose|i: int| 0 <= i < s.len() && #[trigger] s[i].0@ == k
}

/// The map that a list of entries stands for.
pub open spec fn entries_map<T>(s: Seq<(String, T)>) -> Map<Seq<char>, T> {
    Map::new(|k: Seq<char>| has_name(s, k), |k: Seq<char>| s[name_index(s, k)].1)
}

/// In a list with distinct names, the entry at `i` is what the map holds for its name.
proof fn lemma_entry_in_map<T>(s: Seq<(String, T)>, i: int)
    requires
        names_distinct(s),
        0 <= i < s.len(),
    ensures
        entries_map(s).dom().contains(s[i].0@),
        entries_map(s)[s[i].0@] == s[i].1,
{
    assert(has_name(s, s[i].0@));
    let j: int = name_index(s, s[i].0@);
    assert(s[j].0@ == s[i].0@);
}

/// Appending an entry with a fresh name inserts it into the map.
proof fn lemma_push_fresh<T>(s: Seq<(String, T)>, e: (String, T))
    requires
        names_distinct(s),
        !has_name(s, e.0@),
    ensures
        names_distinct(s.push(e)),
        entries_map(s.push(e)) =~= entries_map(s).insert(e.0@, e.1),
{
    let t = s.push(e);
    assert forall|i: int, j: int|
        0 <= i < t.len() && 0 <= j < t.len() && i != j implies #[trigger] t[i].0@ != #[trigger] t[j].0@ by {
        if i < s.len() && j < s.len() {
            assert(t[i] == s[i] && t[j] == s[j]);
        } else if i < s.len() {
            assert(t[i] == s[i]);
        } else {
            assert(t[j] == s[j]);
        }
    }
    let m = entries_map(s).insert(e.0@, e.1);
    assert forall|k: Seq<char>| #[trigger] entries_map(t).dom().contains(k) <==> m.dom().contains(k) by {
        if has_name(t, k) {
            let i: int = choose|i: int| 0 <= i < t.len() && #[trigger] t[i].0@ == k;
            if i < s.len() {
                assert(s[i].0@ == k);
            }
        }
        if has_name(s, k) {
            let i: int = choose|i: int| 0 <= i < s.len() && #[trigger] s[i].0@ == k;
            assert(t[i].0@ == k);
        }
        if k == e.0@ {
            assert(t[s.len() as int].0@ == k);
        }
    }
    assert forall|k: Seq<char>| #[trigger] m.dom().contains(k) implies entries_map(t)[k] == m[k] by {
        if k == e.0@ {
            lemma_entry_in_map(t, s.len() as int);
        } else {
            let i: int = choose|i: int| 0 <= i < s.len() && #[trigger] s[i].0@ == k;
            lemma_entry_in_map(s, i);
            assert(t[i] == s[i]);
            lemma_entry_in_map(t, i);
        }
    }
}

/// Removing the entry at `i` removes its name from the map.
proof fn lemma_remove_at<T>(s: Seq<(String, T)>, i: int)
    requires
        names_distinct(s),
        0 <= i < s.len(),
    ensures
        names_distinct(s.remove(i)),
        entries_map(s.remove(i)) =~= entries_map(s).remove(s[i].0@),
{
    let t = s.remove(i);
    let k0 = s[i].0@;
    assert forall|a: int| 0 <= a < t.len() implies #[trigger] t[a] == s[if a < i { a } else { a + 1 }] by {}
    assert forall|a: int, b: int|
        0 <= a < t.len() && 0 <= b < t.len() && a != b implies #[trigger] t[a].0@ != #[trigger] t[b].0@ by {
        let a1: int = if a < i { a } else { a + 1 };
        let b1: int = if b < i { b } else { b + 1 };
        assert(t[a] == s[a1] && t[b] == s[b1]);
    }
    let m = entries_map(s).remove(k0);
    assert forall|k: Seq<char>| #[trigger] entries_map(t).dom().contains(k) <==> m.dom().contains(k) by {
        if has_name(t, k) {
            let a: int = choose|a: int| 0 <= a < t.len() && #[trigger] t[a].0@ == k;
            let a1: int = if a < i { a } else { a + 1 };
            assert(t[a] == s[a1]);
            assert(s[a1].0@ == k);
        }
        if has_name(s, k) && k != k0 {
            let a1: int = choose|a: int| 0 <= a < s.len() && #[trigger] s[a].0@ == k;
            let a: int = if a1 < i { a1 } else { a1 - 1 };
            assert(t[a] == s[a1]);
        }
    }
    assert forall|k: Seq<char>| #[trigger] m.dom().contains(k) implies entries_map(t)[k] == m[k] by {
        let a1: int = choose|a: int| 0 <= a < s.len() && #[trigger] s[a].0@ == k;
        let a: int = if a1 < i { a1 } else { a1 - 1 };
        assert(t[a] == s[a1]);
        lemma_entry_in_map(s, a1);
        lemma_entry_in_map(t, a);
    }
}

impl<T> View for NamedMap<T> {
    type V = Map<Seq<char>, T>;

    closed spec fn view(&self) -> Map<Seq<char>, T> {
        entries_map(self.entries@)
    }
}

impl<T> NamedMap<T> {
    #[verifier::type_invariant]
    closed spec fn inv(self) -> bool {
        names_distinct(self.entries@)
    }

    /// Creates a map with no entries.
    pub fn new() -> (result: Self)
        ensures
            result@ == Map::<Seq<char>, T>::empty(),
    {
        let result = NamedMap { entries: Vec::new() };
        assert(result@ =~= Map::<Seq<char>, T>::empty());
        result
    }

    /// Position of the entry named `name`, if there is one.
    fn position(&self, name: &str) -> (result: Option<usize>)
        ensures
            match result {
                Some(i) => i < self.entries@.len() && self.entries@[i as int].0@ == name@,
                None => !has_name(self.entries@, name@),
            },
    {
        let key = name.to_owned();
        let mut i: usize = 0;
        while i < self.entries.len()
            invariant
                i <= self.entries@.len(),
                key@ == name@,
                forall|j: int| 0 <= j < i ==> #[trigger] self.entries@[j].0@ != name@,
            decreases self.entries@.len() - i,
        {
            if self.entries[i].0 == key {
                return Some(i);
            }
            i = i + 1;
        }
        None
    }

    /// Whether an entry is named `name`.
    pub fn contains(&self, name: &str) -> (result: bool)
        ensures
            result == self@.dom().contains(name@),
    {
        self.position(name).is_some()
    }

    /// The value named `name`, if there is one.
    pub fn get(&self, name: &str) -> (result: Option<&T>)
        ensures
            match result {
                Some(v) => self@.dom().contains(name@) && *v == self@[name@],
                None => !self@.dom().contains(name@),
            },
    {
        proof {
            use_type_invariant(self);
        }
        match self.position(name) {
            Some(i) => {
                proof {
                    lemma_entry_in_map(self.entries@, i as int);
                }
                Some(&self.entries[i].1)
            },
            None => None,
        }
    }

    /// Removes the entry named `name` and hands its value back.
    pub fn take(&mut self, name: &str) -> (result: Option<T>)
        ensures
            final(self)@ == old(self)@.remove(name@),
            match result {
                Some(v) => old(self)@.dom().contains(name@) && v == old(self)@[name@],
                None => !old(self)@.dom().contains(name@),
            },
    {
        proof {
            use_type_invariant(&*self);
        }
        match self.position(name) {
            Some(i) => {
                proof {
                    lemma_entry_in_map(self.entries@, i as int);
                    lemma_remove_at(self.entries@, i as int);
                }
                let mut entries: Vec<(String, T)> = Vec::new();
                std::mem::swap(&mut entries, &mut self.entries);
                let (_, value) = entries.remove(i);
                self.entries = entries;
                Some(value)
            },
            None => {
                assert(self@ =~= self@.remove(name@));
                None
            },
        }
    }

    /// Adds `value` under `name` when no entry has that name yet; otherwise
    /// leaves the map as it is and hands `value` back.
    pub fn insert_vacant(&mut self, name: String, value: T) -> (result: Option<T>)
        ensures
            old(self)@.dom().contains(name@) ==> final(self)@ == old(self)@ && result == Some(value),
            !old(self)@.dom().contains(name@) ==> final(self)@ == old(self)@.insert(name@, value)
                && result is None,
    {
        proof {
            use_type_invariant(&*self);
        }
        match self.position(name.as_str()) {
            Some(_) => Some(value),
            None => {
                proof {
                    lemma_push_fresh(self.entries@, (name, value));
                }
                let mut entries: Vec<(String, T)> = Vec::new();
                std::mem::swap(&mut entries, &mut self.entries);
                entries.push((name, value));
                self.entries = entries;
                None
            },
        }
    }

    /// Sets the value named `name` to `value`, and hands back the value it
    /// replaced, if any.
    pub fn insert(&mut self, name: String, value: T) -> (result: Option<T>)
        ensures
            final(self)@ == old(self)@.insert(name@, value),
            match result {
                Some(v) => old(self)@.dom().contains(name@) && v == old(self)@[name@],
                None => !old(self)@.dom().contains(name@),
            },
    {
        let previous = self.take(name.as_str());
        proof {
            use_type_invariant(&*self);
        }
        let leftover = self.insert_vacant(name, value);
        assert(leftover is None);
        assert(self@ =~= old(self)@.insert(name@, value));
        previous
    }

    /// The names of all entries, each once.
    pub fn names(&self) -> (result: Vec<String>)
        ensures
            forall|k: Seq<char>|
                self@.dom().contains(k) <==> exists|i: int| 0 <= i < result@.len() && #[trigger] result@[i]@ == k,
            forall|i: int, j: int|
                0 <= i < result@.len() && 0 <= j < result@.len() && i != j ==> #[trigger] result@[i]@
                    != #[trigger] result@[j]@,
    {
        proof {
            use_type_invariant(self);
        }
        let mut result: Vec<String> = Vec::new();
        let mut i: usize = 0;
        while i < self.entries.len()
            invariant
                i <= self.entries@.len(),
                names_distinct(self.entries@),
                result@.len() == i,
                forall|j: int| 0 <= j < i ==> #[trigger] result@[j]@ == self.entries@[j].0@,
            decreases self.entries@.len() - i,
        {
            let name = self.entries[i].0.clone();
            result.push(name);
            i = i + 1;
        }
        assert forall|k: Seq<char>|
            self@.dom().contains(k) <==> exists|i: int| 0 <= i < result@.len() && #[trigger] result@[i]@ == k by {
            if self@.dom().contains(k) {
                let j: int = choose|j: int| 0 <= j < self.entries@.len() && #[trigger] self.entries@[j].0@ == k;
                assert(result@[j]@ == k);
            }
            if exists|i: int| 0 <= i < result@.len() && #[trigger] result@[i]@ == k {
                let j: int = choose|i: int| 0 <= i < result@.len() && #[trigger] result@[i]@ == k;
                assert(self.entries@[j].0@ == k);
            }
        }
        assert forall|a: int, b: int|
            0 <= a < result@.len() && 0 <= b < result@.len() && a != b implies #[trigger] result@[a]@
                != #[trigger] result@[b]@ by {
            assert(result@[a]@ == self.entries@[a].0@);
            assert(result@[b]@ == self.entries@[b].0@);
        }
        result
    }
}

} // verus!
