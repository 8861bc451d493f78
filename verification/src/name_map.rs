//! Maps from names to values that are kept as lists of pairs: the map
//! that such a list stands for, and what looking up and changing a pair
//! in the list means for the map.

use vstd::prelude::*;

verus! {

/// The map that a list of names with their values stands for: of two
/// pairs with one name the later one counts.
pub open spec fn map_of<T: View>(pairs: Seq<(String, T)>) -> Map<Seq<char>, T::V>
    decreases pairs.len(),
{
    if pairs.len() == 0 {
        Map::empty()
    } else {
        map_of(pairs.drop_last()).insert(pairs.last().0@, pairs.last().1@)
    }
}

/// A name that no pair holds is not in the map.
pub proof fn lemma_absent<T: View>(pairs: Seq<(String, T)>, name: Seq<char>)
    requires
        forall|j: int| 0 <= j < pairs.len() ==> pairs[j].0@ != name,
    ensures
        !map_of(pairs).dom().contains(name),
    decreases pairs.len(),
{
    if pairs.len() > 0 {
        lemma_absent(pairs.drop_last(), name);
    }
}

/// The map gives a name the value of the last pair that holds it.
pub proof fn lemma_present<T: View>(pairs: Seq<(String, T)>, name: Seq<char>, i: int)
    requires
        0 <= i < pairs.len(),
        pairs[i].0@ == name,
        forall|j: int| i < j < pairs.len() ==> pairs[j].0@ != name,
    ensures
        map_of(pairs).dom().contains(name),
        map_of(pairs)[name] == pairs[i].1@,
    decreases pairs.len(),
{
    if i < pairs.len() - 1 {
        lemma_present(pairs.drop_last(), name, i);
    }
}

/// Changing the value of the last pair that holds a name changes the
/// value of the name in the map.
pub proof fn lemma_update<T: View>(
    pairs: Seq<(String, T)>,
    changed: Seq<(String, T)>,
    name: Seq<char>,
    i: int,
)
    requires
        0 <= i < pairs.len(),
        pairs[i].0@ == name,
        forall|j: int| i < j < pairs.len() ==> pairs[j].0@ != name,
        changed.len() == pairs.len(),
        changed[i].0@ == name,
        forall|j: int| 0 <= j < pairs.len() && j != i ==> changed[j] == pairs[j],
    ensures
        map_of(changed) == map_of(pairs).insert(name, changed[i].1@),
    decreases pairs.len(),
{
    if i < pairs.len() - 1 {
        lemma_update(pairs.drop_last(), changed.drop_last(), name, i);
        assert(map_of(changed) =~= map_of(pairs).insert(name, changed[i].1@));
    } else {
        assert(changed.drop_last() =~= pairs.drop_last());
        assert(map_of(changed) =~= map_of(pairs).insert(name, changed[i].1@));
    }
}

} // verus!
