//! Operations on lists of songs.
use rand::seq::SliceRandom;
use vstd::prelude::*;

use crate::player::order::{
    ascending, at_most, distinct, is_ascending_list, lemma_ascending_is_unique, lemma_position_of,
    position_of, spliced,
};
use crate::player::persist::optional_index;

verus! {

/// Shuffles a list in place with `rand`'s `SliceRandom::shuffle` and the generator of the
/// current thread. The order that comes out is left to chance: all that is claimed is that
/// the list holds the same elements, each as often as before.
#[verifier::external_body]
pub(crate) fn shuffle_songs(song_ids: &mut Vec<u64>)
    ensures
        final(song_ids)@.to_multiset() == old(song_ids)@.to_multiset(),
{
    song_ids.shuffle(&mut rand::thread_rng())
}

/// A copy of a list.
pub fn copy_songs(song_ids: &Vec<u64>) -> (copy: Vec<u64>)
    ensures
        copy@ == song_ids@,
{
    let copy = song_ids.clone();
    assert(copy@ =~= song_ids@);
    copy
}

/// The first place of a song in a list.
pub fn find_song(song_ids: &Vec<u64>, song_id: u64) -> (index: Option<usize>)
    ensures
        optional_index(index) == position_of(song_ids@, song_id),
        index matches Some(index) ==> index < song_ids.len(),
{
    let mut i: usize = 0;
    while i < song_ids.len()
        invariant
            i <= song_ids.len(),
            forall|j: int| 0 <= j < i ==> song_ids[j] != song_id,
        decreases song_ids.len() - i,
    {
        if song_ids[i] == song_id {
            proof {
                lemma_position_of(song_ids@, song_id, i as int);
            }
            return Some(i);
        }
        i += 1;
    }
    None
}

/// Whether a song is in a list.
pub fn has_song(song_ids: &Vec<u64>, song_id: u64) -> (found: bool)
    ensures
        found == song_ids@.contains(song_id),
{
    let mut i: usize = 0;
    while i < song_ids.len()
        invariant
            i <= song_ids.len(),
            forall|j: int| 0 <= j < i ==> song_ids[j] != song_id,
        decreases song_ids.len() - i,
    {
        if song_ids[i] == song_id {
            return true;
        }
        i += 1;
    }
    false
}

/// Puts songs into a list at an index.
pub fn splice_songs(list: &mut Vec<u64>, index: usize, song_ids: &Vec<u64>)
    requires
        index <= old(list).len(),
    ensures
        final(list)@ == spliced(old(list)@, index as int, song_ids@),
{
    let mut tail = list.split_off(index);
    let mut middle = copy_songs(song_ids);
    list.append(&mut middle);
    list.append(&mut tail);
    assert(list@ =~= spliced(old(list)@, index as int, song_ids@));
}

/// The first songs of a list.
pub fn first_songs(song_ids: &Vec<u64>, count: usize) -> (first: Vec<u64>)
    ensures
        first@ == at_most(song_ids@, count as int),
{
    let mut first: Vec<u64> = Vec::new();
    let mut i: usize = 0;
    while i < song_ids.len() && i < count
        invariant
            i <= song_ids.len(),
            i <= count,
            first@ == song_ids@.take(i as int),
        decreases song_ids.len() - i,
    {
        first.push(song_ids[i]);
        assert(first@ =~= song_ids@.take(i + 1));
        i += 1;
    }
    assert(i == song_ids.len() ==> song_ids@.take(i as int) =~= song_ids@);
    first
}

/// Puts a song into an ascending list, unless it is there already.
fn insert_ascending(list: &mut Vec<u64>, song_id: u64, Ghost(members): Ghost<Seq<u64>>)
    requires
        is_ascending_list(old(list)@, members),
    ensures
        is_ascending_list(final(list)@, members.push(song_id)),
{
    let mut i: usize = 0;
    while i < list.len() && list[i] < song_id
        invariant
            i <= list.len(),
            forall|j: int| 0 <= j < i ==> list@[j] < song_id,
        decreases list.len() - i,
    {
        i += 1;
    }
    let ghost before = list@;
    assert forall|id: u64| members.push(song_id).contains(id) <==> (members.contains(id) || id
        == song_id) by {
        assert(members.push(song_id).last() == song_id);
        if members.contains(id) {
            let k = choose|k: int| 0 <= k < members.len() && members[k] == id;
            assert(members.push(song_id)[k] == id);
        }
    }
    if i < list.len() && list[i] == song_id {
        assert(before.contains(song_id));
        return;
    }
    list.insert(i, song_id);
    assert forall|a: int, b: int| 0 <= a < b < list@.len() implies list@[a] < list@[b] by {
        if i < before.len() {
            assert(before[i as int] > song_id);
        }
    }
    assert forall|id: u64| #[trigger] list@.contains(id) <==> members.push(song_id).contains(
        id,
    ) by {
        if list@.contains(id) {
            let k = choose|k: int| 0 <= k < list@.len() && list@[k] == id;
            if k < i {
                assert(before[k] == id);
                assert(before.contains(id));
            } else if k > i {
                assert(before[k - 1] == id);
                assert(before.contains(id));
            }
        }
        if before.contains(id) {
            let k = choose|k: int| 0 <= k < before.len() && before[k] == id;
            if k < i {
                assert(list@[k] == id);
            } else {
                assert(list@[k + 1] == id);
            }
        }
        if id == song_id {
            assert(list@[i as int] == id);
        }
    }
}

/// The songs of a list in ascending order, each once.
pub fn sort_songs(song_ids: &Vec<u64>) -> (sorted: Vec<u64>)
    ensures
        sorted@ == ascending(song_ids@),
        is_ascending_list(sorted@, song_ids@),
{
    let mut sorted: Vec<u64> = Vec::new();
    let mut i: usize = 0;
    while i < song_ids.len()
        invariant
            i <= song_ids.len(),
            is_ascending_list(sorted@, song_ids@.take(i as int)),
        decreases song_ids.len() - i,
    {
        insert_ascending(&mut sorted, song_ids[i], Ghost(song_ids@.take(i as int)));
        assert(song_ids@.take(i as int).push(song_ids[i as int]) =~= song_ids@.take(i + 1));
        i += 1;
    }
    assert(song_ids@.take(i as int) =~= song_ids@);
    proof {
        lemma_ascending_is_unique(sorted@, ascending(song_ids@), song_ids@);
    }
    sorted
}

/// Leaving out the later places of songs keeps a prefix a prefix.
pub proof fn lemma_distinct_is_monotonic(list: Seq<u64>, n: int)
    requires
        0 <= n <= list.len(),
    ensures
        distinct(list.take(n)).len() <= distinct(list).len(),
        distinct(list.take(n)) == distinct(list).take(distinct(list.take(n)).len() as int),
    decreases list.len() - n,
{
    if n == list.len() {
        assert(list.take(n) =~= list);
        assert(distinct(list) =~= distinct(list).take(distinct(list).len() as int));
    } else {
        lemma_distinct_is_monotonic(list, n + 1);
        assert(list.take(n + 1).drop_last() =~= list.take(n));
        let short = distinct(list.take(n));
        assert(short =~= distinct(list).take(short.len() as int));
    }
}

} // verus!
