//! Strictness on demand.
//!
//! A catalog is served as it was read: that an item names the category in
//! which it stands is expected of whoever produced the file, and not checked
//! on the way. A caller that wants it checked asks here. The other
//! expectation on the numbers, that each is finite, needs no check: a
//! `serde_json::Number` cannot be anything else.

use crate::error::CatalogError;
use crate::models::{lists_categories, CatalogView, ItemsByCategory};
use vstd::prelude::*;

verus! {

/// Every item names, in its `category` field, the category in which it
/// stands.
pub open spec fn categories_agree(catalog: CatalogView) -> bool {
    forall|name: Seq<char>, i: int|
        catalog.contains_key(name) && 0 <= i < catalog[name].len() ==> (
        #[trigger] catalog[name][i]).category == name
}

/// Checks that every item names the category in which it stands. A catalog
/// in which one does not is malformed.
pub fn validate(catalog: &ItemsByCategory) -> (checked: Result<(), CatalogError>)
    ensures
        checked is Ok <==> categories_agree(catalog@),
        checked is Err ==> checked->Err_0 == CatalogError::MalformedData,
{
    let groups = catalog.groups();
    let mut g: usize = 0;
    while g < groups.len()
        invariant
            g <= groups@.len(),
            lists_categories(groups@, catalog@),
            forall|h: int, i: int|
                0 <= h < g && 0 <= i < groups@[h].1@.len() ==> (
                #[trigger] groups@[h].1@[i]).category@ == groups@[h].0@,
        decreases groups@.len() - g,
    {
        let name = &groups[g].0;
        let items = &groups[g].1;
        let mut i: usize = 0;
        while i < items.len()
            invariant
                i <= items@.len(),
                0 <= g < groups@.len(),
                name == &groups@[g as int].0,
                items == &groups@[g as int].1,
                lists_categories(groups@, catalog@),
                forall|j: int| 0 <= j < i ==> (#[trigger] items@[j]).category@ == name@,
            decreases items@.len() - i,
        {
            if items[i].category != *name {
                proof {
                    assert(catalog@.contains_key(groups@[g as int].0@));
                    assert(catalog@[name@][i as int] == items@[i as int]@);
                }
                return Err(CatalogError::MalformedData);
            }
            i += 1;
        }
        g += 1;
    }
    proof {
        assert forall|name: Seq<char>, i: int|
            catalog@.contains_key(name) && 0 <= i < catalog@[name].len() implies (
            #[trigger] catalog@[name][i]).category == name by {
            let h = choose|h: int| 0 <= h < groups@.len() && (#[trigger] groups@[h]).0@ == name;
            assert(catalog@[name][i] == groups@[h].1@[i]@);
        }
    }
    Ok(())
}

} // verus!
