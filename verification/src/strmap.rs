//! The owned string-keyed map that carries storage configuration and
//! custom metadata across the boundary.
//!
//! The map is built incrementally through [`map_add`] and consumed
//! atomically by the operations that accept it.  Its mathematical content
//! is the key-to-value mapping in which a later addition of an existing
//! key replaces the earlier one.

use vstd::prelude::*;

verus! {

/// The mapping described by a sequence of key/value pairs, where a later
/// pair with the same key replaces an earlier one.
pub open spec fn map_of(pairs: Seq<(Seq<char>, Seq<char>)>) -> Map<Seq<char>, Seq<char>>
    decreases pairs.len(),
{
    if pairs.len() == 0 {
        Map::empty()
    } else {
        map_of(pairs.drop_last()).insert(pairs.last().0, pairs.last().1)
    }
}

/// Appending a pair to a sequence inserts it into the described mapping.
pub proof fn lemma_map_of_push(
    pairs: Seq<(Seq<char>, Seq<char>)>,
    key: Seq<char>,
    value: Seq<char>,
)
    ensures
        map_of(pairs.push((key, value))) == map_of(pairs).insert(key, value),
{
    assert(pairs.push((key, value)).drop_last() =~= pairs);
}

/// The mapping of a prefix grows one insertion at a time.
pub proof fn lemma_map_of_take(pairs: Seq<(Seq<char>, Seq<char>)>, i: int)
    requires
        0 <= i < pairs.len(),
    ensures
        map_of(pairs.take(i + 1)) == map_of(pairs.take(i)).insert(pairs[i].0, pairs[i].1),
{
    assert(pairs.take(i + 1).drop_last() =~= pairs.take(i));
}

/// A map described by a sequence of additions holds exactly the keys
/// that were added, and under each key the value of the last addition
/// for it: the key-to-value set an operation consuming the map observes
/// is the one the additions describe.
pub proof fn lemma_map_of_membership(pairs: Seq<(Seq<char>, Seq<char>)>, k: Seq<char>)
    ensures
        map_of(pairs).contains_key(k) <==> exists|i: int|
            0 <= i < pairs.len() && (#[trigger] pairs[i]).0 == k,
        map_of(pairs).contains_key(k) ==> exists|i: int|
            {
                &&& 0 <= i < pairs.len()
                &&& (#[trigger] pairs[i]).0 == k
                &&& map_of(pairs)[k] == pairs[i].1
                &&& forall|j: int| i < j < pairs.len() ==> (#[trigger] pairs[j]).0 != k
            },
    decreases pairs.len(),
{
    if pairs.len() > 0 {
        let p = pairs.drop_last();
        let last = pairs.last();
        lemma_map_of_membership(p, k);
        assert(forall|i: int| 0 <= i < p.len() ==> p[i] == #[trigger] pairs[i]);
        assert(forall|i: int| 0 <= i < p.len() ==> #[trigger] p[i] == pairs[i]);
        if last.0 == k {
            let w = pairs.len() - 1;
            assert(pairs[w].0 == k && map_of(pairs)[k] == pairs[w].1);
        } else {
            if map_of(pairs).contains_key(k) {
                let i = choose|i: int|
                    {
                        &&& 0 <= i < p.len()
                        &&& (#[trigger] p[i]).0 == k
                        &&& map_of(p)[k] == p[i].1
                        &&& forall|j: int| i < j < p.len() ==> (#[trigger] p[j]).0 != k
                    };
                assert(pairs[i].0 == k && map_of(pairs)[k] == pairs[i].1);
                assert(forall|j: int| i < j < pairs.len() ==> (#[trigger] pairs[j]).0 != k);
            }
        }
    }
}

/// An owned key-to-value string mapping.  The entries are kept in the
/// order they were added; the observable content is [`StringMap::as_map`].
pub struct StringMap {
    pub entries: Vec<(String, String)>,
}

impl StringMap {
    /// The sequence of added pairs, as mathematical strings.
    pub open spec fn pairs(self) -> Seq<(Seq<char>, Seq<char>)> {
        self.entries@.map(|i: int, p: (String, String)| (p.0@, p.1@))
    }

    /// The key-to-value mapping this map holds: the last value added for
    /// each key.
    pub open spec fn as_map(self) -> Map<Seq<char>, Seq<char>> {
        map_of(self.pairs())
    }

    /// The number of additions made so far, repeated keys counted.
    pub fn entry_count(&self) -> (n: usize)
        ensures
            n == self.pairs().len(),
    {
        self.entries.len()
    }

    /// The pair at a given position, cloned out.
    pub fn entry_at(&self, i: usize) -> (p: (String, String))
        requires
            i < self.pairs().len(),
        ensures
            (p.0@, p.1@) == self.pairs()[i as int],
    {
        let pair = &self.entries[i];
        (pair.0.clone(), pair.1.clone())
    }
}

/// Allocates a fresh, empty string map.  The capacity is an allocation
/// hint and has no observable content.
pub fn map_new(capacity: usize) -> (m: StringMap)
    ensures
        m.pairs() =~= Seq::<(Seq<char>, Seq<char>)>::empty(),
        m.as_map() =~= Map::<Seq<char>, Seq<char>>::empty(),
{
    let entries: Vec<(String, String)> = Vec::with_capacity(capacity);
    assert(entries@.map(|i: int, p: (String, String)| (p.0@, p.1@)) =~= Seq::<(
        Seq<char>,
        Seq<char>,
    )>::empty());
    StringMap { entries }
}

/// Adds a key/value pair.  A pair added later for the same key replaces
/// the earlier one in the observable mapping.
pub fn map_add(m: &mut StringMap, key: String, value: String)
    ensures
        final(m).pairs() == old(m).pairs().push((key@, value@)),
        final(m).as_map() == old(m).as_map().insert(key@, value@),
{
    let ghost old_pairs = m.pairs();
    let ghost k = key@;
    let ghost v = value@;
    m.entries.push((key, value));
    proof {
        assert(m.pairs() =~= old_pairs.push((k, v)));
        lemma_map_of_push(old_pairs, k, v);
    }
}

/// Releases a string map.  Ownership is consumed by the move, so the map
/// cannot be used or released again.
pub fn map_free(m: StringMap) {
    let _ = m;
}

/// A map built by a sequence of additions holds exactly the key-to-value
/// set those additions describe, independent of addition order among
/// distinct keys: for any map, adding two pairs with distinct keys yields
/// the same mapping in either order.
pub proof fn lemma_map_add_order_independent(
    m: Map<Seq<char>, Seq<char>>,
    k1: Seq<char>,
    v1: Seq<char>,
    k2: Seq<char>,
    v2: Seq<char>,
)
    requires
        k1 != k2,
    ensures
        m.insert(k1, v1).insert(k2, v2) == m.insert(k2, v2).insert(k1, v1),
{
    assert(m.insert(k1, v1).insert(k2, v2) =~= m.insert(k2, v2).insert(k1, v1));
}

} // verus!
