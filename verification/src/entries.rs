//! Values by key, kept as a list of entries in which a later entry hides an
//! earlier one with the same key.

use vstd::prelude::*;

verus! {

/// What `entries` holds under `key`: the value of the last entry with that key.
pub open spec fn find<V>(entries: Seq<(String, V)>, key: Seq<char>) -> Option<V>
    decreases entries.len(),
{
    if entries.len() == 0 {
        None
    } else if entries.last().0@ == key {
        Some(entries.last().1)
    } else {
        find(entries.drop_last(), key)
    }
}

/// A key that no entry has is not found.
proof fn lemma_find_absent<V>(entries: Seq<(String, V)>, key: Seq<char>)
    requires
        forall|j: int| 0 <= j < entries.len() ==> (#[trigger] entries[j]).0@ != key,
    ensures
        find(entries, key) is None,
    decreases entries.len(),
{
    if entries.len() > 0 {
        lemma_find_absent(entries.drop_last(), key);
    }
}

/// Taking out an entry with another key does not change what is found.
proof fn lemma_find_remove<V>(entries: Seq<(String, V)>, i: int, key: Seq<char>)
    requires
        0 <= i < entries.len(),
        entries[i].0@ != key,
    ensures
        find(entries.remove(i), key) == find(entries, key),
    decreases entries.len(),
{
    let rest = entries.remove(i);
    if i == entries.len() - 1 {
        assert(rest =~= entries.drop_last());
    } else {
        assert(rest.last() == entries.last());
        assert(rest.drop_last() =~= entries.drop_last().remove(i));
        if entries.last().0@ != key {
            lemma_find_remove(entries.drop_last(), i, key);
        }
    }
}

/// Takes every entry with the key `key` out of `entries`.
pub(crate) fn forget<V>(entries: &mut Vec<(String, V)>, key: &str)
    ensures
        find(final(entries)@, key@) is None,
        forall|k: Seq<char>| k != key@ ==> find(final(entries)@, k) == find(old(entries)@, k),
{
    let wanted = key.to_owned();
    let mut i: usize = 0;
    while i < entries.len()
        invariant
            i <= entries.len(),
            wanted@ == key@,
            forall|j: int| 0 <= j < i ==> (#[trigger] entries@[j]).0@ != key@,
            forall|k: Seq<char>| k != key@ ==> find(entries@, k) == find(old(entries)@, k),
        decreases entries.len() - i,
    {
        if entries[i].0 == wanted {
            proof {
                assert forall|k: Seq<char>| k != key@ implies find(entries@.remove(i as int), k)
                    == find(old(entries)@, k) by {
                    lemma_find_remove(entries@, i as int, k);
                }
            }
            entries.remove(i);
        } else {
            i += 1;
        }
    }
    proof {
        lemma_find_absent(entries@, key@);
    }
}

/// The value of the last entry of `entries` with the key `key`.
pub(crate) fn seek<'a, V>(entries: &'a Vec<(String, V)>, key: &str) -> (r: Option<&'a V>)
    ensures
        r == match find(entries@, key@) {
            Some(value) => Some(&value),
            None => None::<&V>,
        },
{
    let wanted = key.to_owned();
    let mut i: usize = entries.len();
    assert(entries@.take(i as int) =~= entries@);
    while i > 0
        invariant
            i <= entries.len(),
            wanted@ == key@,
            find(entries@, key@) == find(entries@.take(i as int), key@),
        decreases i,
    {
        i -= 1;
        if entries[i].0 == wanted {
            proof {
                assert(entries@.take(i + 1).last() == entries@[i as int]);
            }
            return Some(&entries[i].1);
        }
        proof {
            assert(entries@.take(i + 1).drop_last() =~= entries@.take(i as int));
        }
    }
    None
}

} // verus!
