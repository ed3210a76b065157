//! The item listing.

use vstd::prelude::*;
use vstd::string::*;

verus! {

/// One record of the listing.
#[derive(Debug, Clone, PartialEq, Eq)]
pub struct Item {
    pub id: u32,
    pub name: String,
}

/// The listing as plain values: the identifier and the name of each item, in
/// the order in which they are listed.
pub open spec fn listing() -> Seq<(u32, Seq<char>)> {
    seq![(1u32, "Maxwell"@), (2u32, "Bingus"@), (3u32, "Floppa"@)]
}

/// The identifier and name of each item of a list.
pub open spec fn items_view(items: Seq<Item>) -> Seq<(u32, Seq<char>)> {
    items.map_values(|item: Item| (item.id, item.name@))
}

/// The items to list: always the same three, in the same order.
pub fn list_items() -> (r: Vec<Item>)
    ensures
        r@.len() == 3,
        items_view(r@) == listing(),
{
    let mut items: Vec<Item> = Vec::new();
    items.push(Item { id: 1, name: String::from_str("Maxwell") });
    items.push(Item { id: 2, name: String::from_str("Bingus") });
    items.push(Item { id: 3, name: String::from_str("Floppa") });
    assert(items_view(items@) =~= listing());
    items
}

} // verus!
