//! The `WITH`-style options of a sink: text values under text names.

use vstd::prelude::*;

verus! {

/// A finite map from option names to option values.
///
/// No name occurs twice.
#[derive(Debug)]
pub struct Options {
    entries: Vec<(String, String)>,
}

/// Position `i` of `entries` holds the name `name`.
spec fn named(entries: Seq<(String, String)>, i: int, name: Seq<char>) -> bool {
    0 <= i < entries.len() && entries[i].0@ == name
}

/// The map that `entries` stands for, where no name occurs twice.
spec fn entries_map(entries: Seq<(String, String)>) -> Map<Seq<char>, Seq<char>> {
    Map::new(
        |name: Seq<char>| exists|i: int| named(entries, i, name),
        |name: Seq<char>| entries[choose|i: int| named(entries, i, name)].1@,
    )
}

/// No two positions of `entries` hold the same name.
spec fn names_distinct(entries: Seq<(String, String)>) -> bool {
    forall|i: int, j: int|
        #![trigger entries[i], entries[j]]
        0 <= i < entries.len() && 0 <= j < entries.len() && entries[i].0@ == entries[j].0@ ==> i
            == j
}

/// `entries` lists `map`: every entry is in it, every name of it has an entry, and no name has two.
pub open spec fn lists(
    entries: Seq<(String, String)>,
    map: Map<Seq<char>, Seq<char>>,
) -> bool {
    &&& forall|i: int|
        0 <= i < entries.len() ==> map.contains_key((#[trigger] entries[i]).0@)
            && map[entries[i].0@] == entries[i].1@
    &&& forall|name: Seq<char>| #[trigger]
        map.contains_key(name) ==> exists|i: int|
            0 <= i < entries.len() && (#[trigger] entries[i]).0@ == name
    &&& forall|i: int, j: int|
        #![trigger entries[i], entries[j]]
        0 <= i < j < entries.len() ==> entries[i].0@ != entries[j].0@
}

impl View for Options {
    type V = Map<Seq<char>, Seq<char>>;

    closed spec fn view(&self) -> Map<Seq<char>, Seq<char>> {
        entries_map(self.entries@)
    }
}

impl Options {
    #[verifier::type_invariant]
    spec fn well_formed(self) -> bool {
        names_distinct(self.entries@)
    }

    /// No options at all.
    pub fn new() -> (options: Options)
        ensures
            options@ == Map::<Seq<char>, Seq<char>>::empty(),
    {
        let options = Options { entries: Vec::new() };
        proof {
            assert forall|name: Seq<char>| !options@.contains_key(name) by {
                assert(!exists|i: int| named(options.entries@, i, name));
            }
            assert(options@ =~= Map::<Seq<char>, Seq<char>>::empty());
        }
        options
    }

    /// The position of `name`, or the number of entries where it does not occur.
    fn find(entries: &Vec<(String, String)>, name: &str) -> (at: usize)
        ensures
            at <= entries@.len(),
            at < entries@.len() ==> named(entries@, at as int, name@),
            at == entries@.len() ==> !exists|i: int| named(entries@, i, name@),
    {
        let wanted: String = name.to_owned();
        let mut at: usize = 0;
        while at < entries.len()
            invariant
                at <= entries@.len(),
                wanted@ == name@,
                forall|i: int| 0 <= i < at ==> !named(entries@, i, name@),
            decreases entries@.len() - at,
        {
            if entries[at].0 == wanted {
                return at;
            }
            at = at + 1;
        }
        at
    }

    /// Sets the option `name` to `value`, whether or not it was set before.
    pub fn insert(&mut self, name: String, value: String)
        ensures
            final(self)@ == old(self)@.insert(name@, value@),
    {
        proof {
            use_type_invariant(&*self);
        }
        let mut entries: Vec<(String, String)> = Vec::new();
        std::mem::swap(&mut entries, &mut self.entries);
        let ghost before = entries@;
        let at: usize = Options::find(&entries, name.as_str());
        let ghost entry = (name, value);
        if at < entries.len() {
            entries[at] = (name, value);
            assert(entries@ == before.update(at as int, entry));
        } else {
            entries.push((name, value));
            assert(entries@ == before.push(entry));
        }
        proof {
            lemma_insert(before, entries@, at as int, entry);
        }
        self.entries = entries;
    }

    /// The value of the option `name`, where it is set.
    pub fn get(&self, name: &str) -> (value: Option<&String>)
        ensures
            match value {
                Some(v) => self@.contains_key(name@) && v@ == self@[name@],
                None => !self@.contains_key(name@),
            },
    {
        proof {
            use_type_invariant(self);
        }
        let at: usize = Options::find(&self.entries, name);
        if at < self.entries.len() {
            proof {
                lemma_lookup(self.entries@, at as int);
            }
            Some(&self.entries[at].1)
        } else {
            None
        }
    }

    /// All options, each name with its value.
    pub fn entries(&self) -> (entries: &[(String, String)])
        ensures
            lists(entries@, self@),
    {
        proof {
            use_type_invariant(self);
            assert forall|i: int| 0 <= i < self.entries@.len() implies self@.contains_key(
                (#[trigger] self.entries@[i]).0@,
            ) && self@[self.entries@[i].0@] == self.entries@[i].1@ by {
                lemma_lookup(self.entries@, i);
            }
            assert forall|name: Seq<char>| #[trigger] self@.contains_key(name) implies exists|i: int|
                0 <= i < self.entries@.len() && (#[trigger] self.entries@[i]).0@ == name by {
                let i = choose|i: int| named(self.entries@, i, name);
                assert(self.entries@[i].0@ == name);
            }
        }
        self.entries.as_slice()
    }
}

/// A position holds the value of its own name.
proof fn lemma_lookup(entries: Seq<(String, String)>, at: int)
    requires
        names_distinct(entries),
        0 <= at < entries.len(),
    ensures
        entries_map(entries).contains_key(entries[at].0@),
        entries_map(entries)[entries[at].0@] == entries[at].1@,
{
    let name = entries[at].0@;
    assert(named(entries, at, name));
    let chosen = choose|i: int| named(entries, i, name);
    assert(named(entries, chosen, name));
    assert(entries[chosen].0@ == entries[at].0@);
}

/// Writing an entry over the one of its name, or behind all others where there is none, inserts it.
proof fn lemma_insert(
    before: Seq<(String, String)>,
    after: Seq<(String, String)>,
    at: int,
    entry: (String, String),
)
    requires
        names_distinct(before),
        0 <= at <= before.len(),
        at < before.len() ==> named(before, at, entry.0@) && after == before.update(at, entry),
        at == before.len() ==> !(exists|i: int| named(before, i, entry.0@)) && after
            == before.push(entry),
    ensures
        names_distinct(after),
        entries_map(after) == entries_map(before).insert(entry.0@, entry.1@),
{
    let name = entry.0@;
    assert forall|i: int, j: int|
        #![trigger after[i], after[j]]
        0 <= i < after.len() && 0 <= j < after.len() && after[i].0@ == after[j].0@ implies i
        == j by {
        if i < before.len() && j < before.len() {
            assert(before[i].0@ == after[i].0@);
            assert(before[j].0@ == after[j].0@);
        } else if i < before.len() {
            assert(!named(before, i, name));
        } else if j < before.len() {
            assert(!named(before, j, name));
        }
    }
    lemma_lookup(after, at);
    let expected = entries_map(before).insert(name, entry.1@);
    assert forall|other: Seq<char>|
        #[trigger] entries_map(after).contains_key(other) == expected.contains_key(other) by {
        if other != name {
            if entries_map(before).contains_key(other) {
                let i = choose|i: int| named(before, i, other);
                assert(named(after, i, other));
            }
            if entries_map(after).contains_key(other) {
                let i = choose|i: int| named(after, i, other);
                assert(named(before, i, other));
            }
        }
    }
    assert forall|other: Seq<char>| #[trigger] entries_map(after).contains_key(other) implies
        entries_map(after)[other] == expected[other] by {
        if other != name {
            let i = choose|i: int| named(after, i, other);
            assert(before[i] == after[i]);
            lemma_lookup(before, i);
            lemma_lookup(after, i);
        }
    }
    assert(entries_map(after) =~= expected);
}

} // verus!
