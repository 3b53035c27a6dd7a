//! Items and lists, and the mathematical values they stand for.

use vstd::prelude::*;

verus! {

/// An item as mathematical data: its text and whether it is done.
pub struct ItemView {
    pub description: Seq<char>,
    pub completed: bool,
}

/// A list document as mathematical data: its name and its items in order.
pub struct ListView {
    pub name: Seq<char>,
    pub items: Seq<ItemView>,
}

/// One task. It has no identity of its own: it is known by its position in
/// the list that holds it.
#[derive(Debug, PartialEq, Eq)]
pub struct Item {
    pub description: String,
    pub completed: bool,
}

/// A named list of items. The order of the items is significant: the item at
/// index `k` is item number `k + 1`.
#[derive(Debug, PartialEq, Eq)]
pub struct List {
    pub name: String,
    pub items: Vec<Item>,
}

impl View for Item {
    type V = ItemView;

    open spec fn view(&self) -> ItemView {
        ItemView { description: self.description@, completed: self.completed }
    }
}

impl View for List {
    type V = ListView;

    open spec fn view(&self) -> ListView {
        ListView { name: self.name@, items: items_view(self.items@) }
    }
}

/// The views of a sequence of items, in the same order.
pub open spec fn items_view(items: Seq<Item>) -> Seq<ItemView> {
    items.map_values(|i: Item| i@)
}

/// The views of a sequence of lists, in the same order.
pub open spec fn lists_view(lists: Seq<List>) -> Seq<ListView> {
    lists.map_values(|l: List| l@)
}

impl Clone for Item {
    fn clone(&self) -> (r: Item)
        ensures
            r@ == self@,
    {
        Item { description: self.description.clone(), completed: self.completed }
    }
}

/// A deep copy of a vector of items.
pub fn clone_items(items: &Vec<Item>) -> (r: Vec<Item>)
    ensures
        items_view(r@) == items_view(items@),
{
    let mut out: Vec<Item> = Vec::new();
    let mut k: usize = 0;
    while k < items.len()
        invariant
            k <= items.len(),
            out@.len() == k,
            forall|j: int| 0 <= j < k ==> out@[j]@ == items@[j]@,
        decreases items.len() - k,
    {
        out.push(items[k].clone());
        k += 1;
    }
    out
}

impl Clone for List {
    fn clone(&self) -> (r: List)
        ensures
            r@ == self@,
    {
        List { name: self.name.clone(), items: clone_items(&self.items) }
    }
}

/// A deep copy of a vector of lists.
pub fn clone_lists(lists: &Vec<List>) -> (r: Vec<List>)
    ensures
        lists_view(r@) == lists_view(lists@),
{
    let mut out: Vec<List> = Vec::new();
    let mut k: usize = 0;
    while k < lists.len()
        invariant
            k <= lists.len(),
            out@.len() == k,
            forall|j: int| 0 <= j < k ==> out@[j]@ == lists@[j]@,
        decreases lists.len() - k,
    {
        out.push(lists[k].clone());
        k += 1;
    }
    out
}

} // verus!
