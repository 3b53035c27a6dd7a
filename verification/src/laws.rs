//! What holds of the cache whatever it contains: how appending, marking and
//! removing change a list, and that a list which is not there stays so.

use vstd::prelude::*;
use crate::db::{appended, has_item, with_status, without_item, CacheView};
use crate::models::ItemView;

verus! {

/// After an item is appended to a list, the list is one longer, the item is
/// its last, the items before it are as they were, and so is every other list.
pub proof fn lemma_append_is_last(cache: CacheView, name: Seq<char>, item: ItemView)
    requires
        cache.contains_key(name),
    ensures
        appended(cache, name, item).contains_key(name),
        appended(cache, name, item)[name].len() == cache[name].len() + 1,
        appended(cache, name, item)[name].last() == item,
        forall|k: int|
            0 <= k < cache[name].len() ==> #[trigger] appended(cache, name, item)[name][k]
                == cache[name][k],
        forall|other: Seq<char>|
            other != name ==> (#[trigger] appended(cache, name, item).contains_key(other)
                <==> cache.contains_key(other)) && appended(cache, name, item)[other]
                == cache[other],
{
}

/// Marking an item changes its `completed` field and nothing else: its text,
/// the length of its list, every other item and every other list stay.
pub proof fn lemma_status_touches_one_field(
    cache: CacheView,
    name: Seq<char>,
    number: int,
    completed: bool,
)
    requires
        has_item(cache, name, number),
    ensures
        with_status(cache, name, number, completed).dom() == cache.dom(),
        with_status(cache, name, number, completed)[name].len() == cache[name].len(),
        with_status(cache, name, number, completed)[name][number - 1].description
            == cache[name][number - 1].description,
        with_status(cache, name, number, completed)[name][number - 1].completed == completed,
        forall|k: int|
            0 <= k < cache[name].len() && k != number - 1 ==> #[trigger] with_status(
                cache,
                name,
                number,
                completed,
            )[name][k] == cache[name][k],
        forall|other: Seq<char>|
            other != name ==> #[trigger] with_status(cache, name, number, completed)[other]
                == cache[other],
{
}

/// Removing item `number` of a list makes the list one shorter. The items
/// before it keep their numbers; each item behind it gets the number below
/// its own, so that they keep their order and no gap is left. Every other
/// list stays.
pub proof fn lemma_remove_moves_up(cache: CacheView, name: Seq<char>, number: int)
    requires
        has_item(cache, name, number),
    ensures
        without_item(cache, name, number).dom() == cache.dom(),
        without_item(cache, name, number)[name].len() == cache[name].len() - 1,
        forall|k: int|
            1 <= k < number ==> #[trigger] without_item(cache, name, number)[name][k - 1]
                == cache[name][k - 1],
        forall|k: int|
            number < k <= cache[name].len() ==> #[trigger] without_item(
                cache,
                name,
                number,
            )[name][k - 2] == cache[name][k - 1],
        forall|other: Seq<char>|
            other != name ==> #[trigger] without_item(cache, name, number)[other] == cache[other],
{
}

/// An item has a number exactly when the number lies between one and the
/// length of its list: zero and every number above the length have none.
pub proof fn lemma_item_numbers(cache: CacheView, name: Seq<char>, number: int)
    requires
        cache.contains_key(name),
    ensures
        number == 0 ==> !has_item(cache, name, number),
        number > cache[name].len() ==> !has_item(cache, name, number),
        has_item(cache, name, number) <==> 0 <= number - 1 < cache[name].len(),
{
}

/// A list that was removed is not there, and a list that was never created
/// is not there after any change to another list.
pub proof fn lemma_absent_stays_absent(
    cache: CacheView,
    name: Seq<char>,
    other: Seq<char>,
    item: ItemView,
    number: int,
    completed: bool,
)
    ensures
        !cache.remove(name).contains_key(name),
        !CacheView::empty().contains_key(name),
        !cache.contains_key(name) && other != name ==> {
            &&& !cache.insert(other, Seq::empty()).contains_key(name)
            &&& !appended(cache, other, item).contains_key(name)
            &&& !with_status(cache, other, number, completed).contains_key(name)
            &&& !without_item(cache, other, number).contains_key(name)
            &&& !cache.remove(other).contains_key(name)
        },
{
}

/// A list that is there stays there, whatever is appended, marked or taken
/// out of a list, and whatever list is created: only removing it takes a
/// name away.
pub proof fn lemma_present_stays_present(
    cache: CacheView,
    name: Seq<char>,
    other: Seq<char>,
    item: ItemView,
    number: int,
    completed: bool,
)
    requires
        cache.contains_key(name),
    ensures
        cache.insert(other, Seq::empty()).contains_key(name),
        appended(cache, other, item).contains_key(name),
        with_status(cache, other, number, completed).contains_key(name),
        without_item(cache, other, number).contains_key(name),
        other != name ==> cache.remove(other).contains_key(name),
{
}

} // verus!
