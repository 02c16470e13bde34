//! Lists of named entries, read as maps. Where a name occurs twice the later
//! entry counts, as when the entries are inserted into a map one by one.

use vstd::prelude::*;

verus! {

/// The map that a list of named entries stands for.
pub open spec fn entries_map<V: DeepView>(entries: Seq<(String, V)>) -> Map<Seq<char>, V::V>
    decreases entries.len(),
{
    if entries.len() == 0 {
        Map::empty()
    } else {
        entries_map(entries.drop_last()).insert(
            entries.last().0@,
            entries.last().1.deep_view(),
        )
    }
}

/// Every name of the map occurs in the list, and every name of the list is in the map.
pub proof fn lemma_entries_map_names<V: DeepView>(entries: Seq<(String, V)>)
    ensures
        forall|j: int| 0 <= j < entries.len() ==> entries_map(entries).contains_key(#[trigger] entries[j].0@),
        forall|name: Seq<char>| #[trigger]
            entries_map(entries).contains_key(name) ==> exists|j: int|
                0 <= j < entries.len() && #[trigger] entries[j].0@ == name,
    decreases entries.len(),
{
    if entries.len() > 0 {
        let front = entries.drop_last();
        lemma_entries_map_names(front);
        assert forall|j: int| 0 <= j < entries.len() implies entries_map(entries).contains_key(
            #[trigger] entries[j].0@,
        ) by {
            if j < front.len() {
                assert(front[j] == entries[j]);
            }
        }
        assert forall|name: Seq<char>| #[trigger]
            entries_map(entries).contains_key(name) implies exists|j: int|
            0 <= j < entries.len() && #[trigger] entries[j].0@ == name by {
            if name == entries.last().0@ {
                assert(entries[entries.len() - 1].0@ == name);
            } else {
                assert(entries_map(front).contains_key(name));
                let j = choose|j: int| 0 <= j < front.len() && #[trigger] front[j].0@ == name;
                assert(entries[j].0@ == name);
            }
        }
    }
}

/// A list whose every entry agrees with `target` stands for `target`
/// restricted to the names of the list.
pub proof fn lemma_entries_map_agrees<V: DeepView>(entries: Seq<(String, V)>, target: Map<Seq<char>, V::V>)
    requires
        forall|j: int| 0 <= j < entries.len() ==> target.contains_key(#[trigger] entries[j].0@) && target[entries[j].0@] == entries[j].1.deep_view(),
    ensures
        forall|name: Seq<char>| #[trigger]
            entries_map(entries).contains_key(name) ==> target.contains_key(name) && entries_map(entries)[name] == target[name],
    decreases entries.len(),
{
    if entries.len() > 0 {
        let front = entries.drop_last();
        assert forall|j: int| 0 <= j < front.len() implies target.contains_key(#[trigger] front[j].0@)
            && target[front[j].0@] == front[j].1.deep_view() by {
            assert(front[j] == entries[j]);
        }
        lemma_entries_map_agrees(front, target);
        let last = entries[entries.len() - 1];
        assert(entries.last() == last);
        assert(target.contains_key(last.0@) && target[last.0@] == last.1.deep_view());
        assert forall|name: Seq<char>| #[trigger]
            entries_map(entries).contains_key(name) implies target.contains_key(name)
            && entries_map(entries)[name] == target[name] by {
            if name != last.0@ {
                assert(entries_map(front).contains_key(name));
            }
        }
    }
}

/// The value of the last entry named `name`, if there is one.
pub fn lookup<'a, V: DeepView>(entries: &'a Vec<(String, V)>, name: &str) -> (found: Option<&'a V>)
    ensures
        match found {
            Some(value) => entries_map(entries@).contains_key(name@) && entries_map(entries@)[name@] == value.deep_view(),
            None => !entries_map(entries@).contains_key(name@),
        },
{
    let wanted = name.to_owned();
    let mut found: Option<&'a V> = None;
    let mut i: usize = 0;
    while i < entries.len()
        invariant
            i <= entries@.len(),
            wanted@ == name@,
            match found {
                Some(value) => entries_map(entries@.take(i as int)).contains_key(name@) && entries_map(
                    entries@.take(i as int),
                )[name@] == value.deep_view(),
                None => !entries_map(entries@.take(i as int)).contains_key(name@),
            },
        decreases entries@.len() - i,
    {
        proof {
            assert(entries@.take(i + 1).drop_last() == entries@.take(i as int));
            assert(entries@.take(i + 1).last() == entries@[i as int]);
        }
        if entries[i].0 == wanted {
            found = Some(&entries[i].1);
        }
        i += 1;
    }
    proof {
        assert(entries@.take(i as int) == entries@);
    }
    found
}

} // verus!
