//! Maps from strings to strings.

use vstd::prelude::*;

verus! {

/// An argument of the form `KEY=VALUE`.
#[derive(Clone, Debug, PartialEq, Eq)]
pub struct KeyValueArg {
    pub key: String,
    pub value: String,
}

/// A map from strings to strings.
#[derive(Debug)]
pub struct StringMap {
    entries: Vec<(String, String)>,
}

/// `true` if no key occurs twice.
pub open spec fn distinct_keys(entries: Seq<(String, String)>) -> bool {
    forall|i: int, j: int|
        0 <= i < j < entries.len() ==> (#[trigger] entries[i]).0@ != (#[trigger] entries[j]).0@
}

/// The map with these entries, where the last entry for a key holds.
pub open spec fn entry_map(entries: Seq<(String, String)>) -> Map<Seq<char>, Seq<char>>
    decreases entries.len(),
{
    if entries.len() == 0 {
        Map::empty()
    } else {
        entry_map(entries.drop_last()).insert(entries.last().0@, entries.last().1@)
    }
}

/// The map that the arguments describe, where the last argument for a key holds.
pub open spec fn argument_map(args: Seq<KeyValueArg>) -> Map<Seq<char>, Seq<char>>
    decreases args.len(),
{
    if args.len() == 0 {
        Map::empty()
    } else {
        argument_map(args.drop_last()).insert(args.last().key@, args.last().value@)
    }
}

/// Where no key occurs twice, each entry is in the map, and nothing else is.
proof fn entry_map_entries(entries: Seq<(String, String)>)
    requires
        distinct_keys(entries),
    ensures
        forall|i: int|
            0 <= i < entries.len() ==> entry_map(entries).contains_key(
                (#[trigger] entries[i]).0@,
            ) && entry_map(entries)[entries[i].0@] == entries[i].1@,
        forall|key: Seq<char>|
            entry_map(entries).contains_key(key) ==> exists|i: int|
                0 <= i < entries.len() && (#[trigger] entries[i]).0@ == key,
    decreases entries.len(),
{
    if entries.len() > 0 {
        let front = entries.drop_last();
        assert forall|i: int, j: int| 0 <= i < j < front.len() implies (#[trigger] front[i]).0@ != (
        #[trigger] front[j]).0@ by {
            assert(entries[i].0@ != entries[j].0@);
        }
        entry_map_entries(front);
        assert forall|i: int| 0 <= i < entries.len() implies entry_map(entries).contains_key(
            (#[trigger] entries[i]).0@,
        ) && entry_map(entries)[entries[i].0@] == entries[i].1@ by {
            if i < front.len() {
                assert(front[i] == entries[i]);
                assert(entries[i].0@ != entries.last().0@);
            }
        }
        assert forall|key: Seq<char>| entry_map(entries).contains_key(key) implies exists|i: int|
            0 <= i < entries.len() && (#[trigger] entries[i]).0@ == key by {
            if key != entries.last().0@ {
                assert(entry_map(front).contains_key(key));
                let i = choose|i: int| 0 <= i < front.len() && (#[trigger] front[i]).0@ == key;
                assert(entries[i].0@ == key);
            } else {
                assert(entries[entries.len() - 1].0@ == key);
            }
        }
    }
}

/// Two lists of entries with the same keys and values in the same places, but for
/// the value at `at`, make maps that differ there only.
proof fn entry_map_update(before: Seq<(String, String)>, after: Seq<(String, String)>, at: int)
    requires
        distinct_keys(before),
        before.len() == after.len(),
        0 <= at < before.len(),
        forall|i: int| 0 <= i < before.len() ==> (#[trigger] after[i]).0@ == before[i].0@,
        forall|i: int| 0 <= i < before.len() && i != at ==> (#[trigger] after[i]) == before[i],
    ensures
        distinct_keys(after),
        entry_map(after) == entry_map(before).insert(before[at].0@, after[at].1@),
{
    assert forall|i: int, j: int| 0 <= i < j < after.len() implies (#[trigger] after[i]).0@ != (
    #[trigger] after[j]).0@ by {
        assert(before[i].0@ != before[j].0@);
    }
    entry_map_entries(before);
    entry_map_entries(after);
    let expected = entry_map(before).insert(before[at].0@, after[at].1@);
    assert forall|key: Seq<char>| #[trigger]
        entry_map(after).contains_key(key) == expected.contains_key(key) && (entry_map(
            after,
        ).contains_key(key) ==> entry_map(after)[key] == expected[key]) by {
        if entry_map(after).contains_key(key) {
            let i = choose|i: int| 0 <= i < after.len() && (#[trigger] after[i]).0@ == key;
            assert(before[i].0@ == key);
        }
        if entry_map(before).contains_key(key) {
            let i = choose|i: int| 0 <= i < before.len() && (#[trigger] before[i]).0@ == key;
            assert(after[i].0@ == key);
        }
        assert(after[at].0@ == before[at].0@);
    }
    assert(entry_map(after) =~= expected);
}

impl View for StringMap {
    type V = Map<Seq<char>, Seq<char>>;

    closed spec fn view(&self) -> Map<Seq<char>, Seq<char>> {
        entry_map(self.entries@)
    }
}

impl StringMap {
    /// No key occurs twice.
    #[verifier::type_invariant]
    spec fn well_formed(self) -> bool {
        distinct_keys(self.entries@)
    }

    /// The empty map.
    pub fn new() -> (map: StringMap)
        ensures
            map@ == Map::<Seq<char>, Seq<char>>::empty(),
    {
        StringMap { entries: Vec::new() }
    }

    /// Where the entry for `key` is, if there is one.
    fn position(&self, key: &String) -> (position: Option<usize>)
        ensures
            match position {
                Some(i) => i < self.entries@.len() && self.entries@[i as int].0@ == key@,
                None => forall|i: int|
                    0 <= i < self.entries@.len() ==> (#[trigger] self.entries@[i]).0@ != key@,
            },
    {
        for i in 0..self.entries.len()
            invariant
                forall|j: int| 0 <= j < i ==> (#[trigger] self.entries@[j]).0@ != key@,
        {
            if self.entries[i].0 == *key {
                return Some(i);
            }
        }
        None
    }

    /// The value for `key`, if there is one.
    pub fn get(&self, key: &String) -> (value: Option<&String>)
        ensures
            match value {
                Some(value) => self@.contains_key(key@) && self@[key@] == value@,
                None => !self@.contains_key(key@),
            },
    {
        proof {
            use_type_invariant(self);
            entry_map_entries(self.entries@);
        }
        match self.position(key) {
            Some(i) => Some(&self.entries[i].1),
            None => None,
        }
    }

    /// Sets the value for `key`.
    pub fn insert(&mut self, key: String, value: String)
        ensures
            final(self)@ == old(self)@.insert(key@, value@),
    {
        proof {
            use_type_invariant(&*self);
            entry_map_entries(self.entries@);
        }
        let ghost before = self.entries@;
        let position = self.position(&key);
        let mut entries: Vec<(String, String)> = Vec::new();
        std::mem::swap(&mut entries, &mut self.entries);
        match position {
            Some(i) => {
                entries.set(i, (key, value));
                proof {
                    entry_map_update(before, entries@, i as int);
                }
            },
            None => {
                entries.push((key, value));
                proof {
                    assert(entries@.drop_last() == before);
                    assert forall|i: int, j: int| 0 <= i < j < entries@.len() implies (
                    #[trigger] entries@[i]).0@ != (#[trigger] entries@[j]).0@ by {
                        assert(before[i] == entries@[i]);
                        if j < before.len() {
                            assert(before[j] == entries@[j]);
                        }
                    }
                }
            },
        }
        self.entries = entries;
    }

    /// The map that the arguments describe, where the last argument for a key
    /// holds.
    pub fn from_args(args: Vec<KeyValueArg>) -> (map: StringMap)
        ensures
            map@ == argument_map(args@),
    {
        let mut map = StringMap::new();
        for i in 0..args.len()
            invariant
                map@ == argument_map(args@.take(i as int)),
        {
            map.insert(args[i].key.clone(), args[i].value.clone());
            assert(args@.take(i + 1).drop_last() == args@.take(i as int));
        }
        assert(args@.take(args.len() as int) == args@);
        map
    }

    /// The entries, in no particular order.
    pub fn into_entries(self) -> (entries: Vec<(String, String)>)
        ensures
            distinct_keys(entries@),
            entry_map(entries@) == self@,
    {
        proof {
            use_type_invariant(&self);
        }
        self.entries
    }
}

/// An argument for a key holds unless a later one is for the same key.
pub proof fn last_argument_holds(args: Seq<KeyValueArg>, at: int)
    requires
        0 <= at < args.len(),
        forall|i: int| at < i < args.len() ==> (#[trigger] args[i]).key@ != args[at].key@,
    ensures
        argument_map(args).contains_key(args[at].key@),
        argument_map(args)[args[at].key@] == args[at].value@,
    decreases args.len(),
{
    let front = args.drop_last();
    if at < args.len() - 1 {
        assert forall|i: int| at < i < front.len() implies (#[trigger] front[i]).key@
            != front[at].key@ by {
            assert(args[i].key@ != args[at].key@);
        }
        last_argument_holds(front, at);
        assert(args[args.len() - 1].key@ != args[at].key@);
    }
}

/// Whether `map` holds exactly the keys of the arguments, each with the value of the
/// last argument for it.
pub open spec fn last_wins(args: Seq<KeyValueArg>, map: Map<Seq<char>, Seq<char>>) -> bool {
    &&& forall|key: Seq<char>|
        map.contains_key(key) <==> exists|i: int|
            0 <= i < args.len() && (#[trigger] args[i]).key@ == key
    &&& forall|at: int|
        0 <= at < args.len() && (forall|i: int|
            at < i < args.len() ==> (#[trigger] args[i]).key@ != args[at].key@)
            ==> map[(#[trigger] args[at]).key@] == args[at].value@
}

/// The map that arguments describe has their keys and no others, and the last
/// argument for a key gives its value.
pub proof fn argument_map_is_exact(args: Seq<KeyValueArg>)
    ensures
        last_wins(args, argument_map(args)),
    decreases args.len(),
{
    let map = argument_map(args);
    assert forall|key: Seq<char>|
        map.contains_key(key) <==> exists|i: int|
            0 <= i < args.len() && (#[trigger] args[i]).key@ == key by {
        if args.len() > 0 {
            let front = args.drop_last();
            argument_map_is_exact(front);
            if map.contains_key(key) {
                if key == args.last().key@ {
                    assert(args[args.len() - 1].key@ == key);
                } else {
                    assert(argument_map(front).contains_key(key));
                    let i = choose|i: int| 0 <= i < front.len() && (#[trigger] front[i]).key@ == key;
                    assert(args[i].key@ == key);
                }
            }
            if exists|i: int| 0 <= i < args.len() && (#[trigger] args[i]).key@ == key {
                let i = choose|i: int| 0 <= i < args.len() && (#[trigger] args[i]).key@ == key;
                if i < front.len() {
                    assert(front[i].key@ == key);
                }
            }
        }
    }
    assert forall|at: int|
        0 <= at < args.len() && (forall|i: int|
            at < i < args.len() ==> (#[trigger] args[i]).key@ != args[at].key@) implies map[(
    #[trigger] args[at]).key@] == args[at].value@ by {
        last_argument_holds(args, at);
    }
}

/// Entries without a repeated key are the map: its keys are theirs, and each has the
/// value that stands beside it.
pub proof fn entries_are_the_map(entries: Seq<(String, String)>)
    requires
        distinct_keys(entries),
    ensures
        forall|i: int, j: int|
            0 <= i < j < entries.len() ==> (#[trigger] entries[i]).0@ != (#[trigger] entries[j]).0@,
        forall|i: int|
            0 <= i < entries.len() ==> entry_map(entries).contains_key(
                (#[trigger] entries[i]).0@,
            ) && entry_map(entries)[entries[i].0@] == entries[i].1@,
        forall|key: Seq<char>|
            entry_map(entries).contains_key(key) ==> exists|i: int|
                0 <= i < entries.len() && (#[trigger] entries[i]).0@ == key,
{
    entry_map_entries(entries);
}

} // verus!
