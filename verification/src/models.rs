//! The catalog's data: items, their nutrition, and the grouping by category.
//!
//! Numeric fields hold a `serde_json::Number`: a JSON number exactly as the
//! document gave it, which is always finite. The catalog never computes with
//! these numbers; it hands them on unchanged.

use vstd::prelude::*;

verus! {

/// The macro-nutrients of one item. All four fields are required.
#[derive(Debug, PartialEq)]
pub struct Nutrition {
    pub calories: serde_json::Number,
    pub protein_g: serde_json::Number,
    pub fat_g: serde_json::Number,
    pub carbs_g: serde_json::Number,
}

/// One priced product with its nutrition.
///
/// `category` repeats the name of the group that the item stands in, and
/// `price_per_gram` and `price_per_serving` were derived by whoever produced
/// the catalog; none of this is checked or recomputed here.
#[derive(Debug, PartialEq)]
pub struct Item {
    pub item_id: String,
    pub name: String,
    pub store: String,
    pub unit: String,
    pub price: serde_json::Number,
    pub serving_size_g: serde_json::Number,
    pub nutrition: Nutrition,
    pub category: String,
    pub price_per_gram: serde_json::Number,
    pub price_per_serving: serde_json::Number,
    pub last_updated: String,
}

/// What an [`Item`] holds, with its texts as character sequences.
pub ghost struct ItemView {
    pub item_id: Seq<char>,
    pub name: Seq<char>,
    pub store: Seq<char>,
    pub unit: Seq<char>,
    pub price: serde_json::Number,
    pub serving_size_g: serde_json::Number,
    pub nutrition: Nutrition,
    pub category: Seq<char>,
    pub price_per_gram: serde_json::Number,
    pub price_per_serving: serde_json::Number,
    pub last_updated: Seq<char>,
}

impl View for Item {
    type V = ItemView;

    open spec fn view(&self) -> ItemView {
        ItemView {
            item_id: self.item_id@,
            name: self.name@,
            store: self.store@,
            unit: self.unit@,
            price: self.price,
            serving_size_g: self.serving_size_g,
            nutrition: self.nutrition,
            category: self.category@,
            price_per_gram: self.price_per_gram,
            price_per_serving: self.price_per_serving,
            last_updated: self.last_updated@,
        }
    }
}

impl Clone for Nutrition {
    /// A copy with the same four numbers.
    fn clone(&self) -> (copy: Self)
        ensures
            copy == *self,
    {
        Nutrition {
            calories: self.calories.clone(),
            protein_g: self.protein_g.clone(),
            fat_g: self.fat_g.clone(),
            carbs_g: self.carbs_g.clone(),
        }
    }
}

impl Clone for Item {
    /// A copy that holds the same, field for field.
    fn clone(&self) -> (copy: Self)
        ensures
            copy@ == self@,
    {
        Item {
            item_id: self.item_id.clone(),
            name: self.name.clone(),
            store: self.store.clone(),
            unit: self.unit.clone(),
            price: self.price.clone(),
            serving_size_g: self.serving_size_g.clone(),
            nutrition: self.nutrition.clone(),
            category: self.category.clone(),
            price_per_gram: self.price_per_gram.clone(),
            price_per_serving: self.price_per_serving.clone(),
            last_updated: self.last_updated.clone(),
        }
    }
}

/// The views of a sequence of items, in order.
pub open spec fn item_views(items: Seq<Item>) -> Seq<ItemView> {
    items.map_values(|item: Item| item@)
}

/// What a catalog holds: for each category name the items of that category,
/// in their order.
pub type CatalogView = Map<Seq<char>, Seq<ItemView>>;

/// `groups` lists exactly the categories of `catalog`, each once: every group
/// is a category with its items, no two groups share a name, and every
/// category occurs among the groups.
pub open spec fn lists_categories(groups: Seq<(String, Vec<Item>)>, catalog: CatalogView) -> bool {
    &&& forall|i: int|
        0 <= i < groups.len() ==> catalog.contains_key((#[trigger] groups[i]).0@)
            && catalog[groups[i].0@] == item_views(groups[i].1@)
    &&& forall|i: int, j: int|
        0 <= i < j < groups.len() ==> (#[trigger] groups[i]).0@ != (#[trigger] groups[j]).0@
    &&& forall|name: Seq<char>|
        catalog.contains_key(name) ==> exists|i: int|
            0 <= i < groups.len() && (#[trigger] groups[i]).0@ == name
}

/// The catalog: items grouped by category name. A name occurs at most once;
/// the order of the categories carries no meaning, the order of the items
/// within a category is kept.
#[derive(Debug)]
pub struct ItemsByCategory {
    groups: Vec<(String, Vec<Item>)>,
}

impl View for ItemsByCategory {
    type V = CatalogView;

    /// The catalog as a map from each category name to the views of its
    /// items. [`ItemsByCategory::groups`] relates it to what is stored.
    closed spec fn view(&self) -> CatalogView {
        Map::new(
            |name: Seq<char>| Self::holds(self.groups@, name),
            |name: Seq<char>| item_views(self.groups@[Self::position(self.groups@, name)].1@),
        )
    }
}

impl ItemsByCategory {
    #[verifier::type_invariant]
    spec fn names_distinct(&self) -> bool {
        forall|i: int, j: int|
            0 <= i < j < self.groups@.len() ==> (#[trigger] self.groups@[i]).0@
                != (#[trigger] self.groups@[j]).0@
    }

    spec fn holds(groups: Seq<(String, Vec<Item>)>, name: Seq<char>) -> bool {
        exists|i: int| 0 <= i < groups.len() && (#[trigger] groups[i]).0@ == name
    }

    spec fn position(groups: Seq<(String, Vec<Item>)>, name: Seq<char>) -> int {
        choose|i: int| 0 <= i < groups.len() && (#[trigger] groups[i]).0@ == name
    }

    proof fn lemma_listed(&self)
        requires
            self.names_distinct(),
        ensures
            lists_categories(self.groups@, self@),
    {
        let groups = self.groups@;
        assert forall|i: int| 0 <= i < groups.len() implies self@.contains_key(
            (#[trigger] groups[i]).0@,
        ) && self@[groups[i].0@] == item_views(groups[i].1@) by {
            let name = groups[i].0@;
            assert(Self::holds(groups, name));
            let at = Self::position(groups, name);
            assert(groups[at].0@ == name);
            assert(at == i);
        }
    }

    /// The catalog without categories.
    pub fn new() -> (catalog: Self)
        ensures
            catalog@ == Map::<Seq<char>, Seq<ItemView>>::empty(),
    {
        let catalog = ItemsByCategory { groups: Vec::new() };
        assert(catalog@ =~= Map::<Seq<char>, Seq<ItemView>>::empty());
        catalog
    }

    /// The categories with their items, each category once.
    pub fn groups(&self) -> (groups: &[(String, Vec<Item>)])
        ensures
            lists_categories(groups@, self@),
    {
        proof {
            use_type_invariant(self);
            self.lemma_listed();
        }
        self.groups.as_slice()
    }

    /// Where the category of the given name stands among the groups.
    fn find(&self, name: &String) -> (at: Option<usize>)
        ensures
            match at {
                Some(i) => i < self.groups@.len() && self.groups@[i as int].0@ == name@,
                None => !self@.contains_key(name@),
            },
    {
        let mut i: usize = 0;
        while i < self.groups.len()
            invariant
                i <= self.groups@.len(),
                forall|j: int| 0 <= j < i ==> (#[trigger] self.groups@[j]).0@ != name@,
            decreases self.groups@.len() - i,
        {
            if self.groups[i].0 == *name {
                return Some(i);
            }
            i += 1;
        }
        None
    }

    /// The items of a category, `None` where the catalog has no such category.
    pub fn get(&self, category: &str) -> (found: Option<&Vec<Item>>)
        ensures
            found is Some <==> self@.contains_key(category@),
            found is Some ==> item_views(found->0@) == self@[category@],
    {
        proof {
            use_type_invariant(self);
            self.lemma_listed();
        }
        let name = category.to_owned();
        match self.find(&name) {
            Some(i) => Some(&self.groups[i].1),
            None => None,
        }
    }

    /// Sets the items of a category, replacing those that it had.
    pub fn insert(&mut self, category: String, items: Vec<Item>)
        ensures
            final(self)@ == old(self)@.insert(category@, item_views(items@)),
    {
        proof {
            use_type_invariant(&*self);
            self.lemma_listed();
        }
        let ghost before = self@;
        let ghost before_groups = self.groups@;
        let ghost name = category@;
        let ghost views = item_views(items@);
        let at = self.find(&category);
        let mut groups: Vec<(String, Vec<Item>)> = Vec::new();
        core::mem::swap(&mut self.groups, &mut groups);
        let ghost slot = match at {
            Some(i) => i as int,
            None => groups@.len() as int,
        };
        match at {
            Some(i) => {
                groups.set(i, (category, items));
            },
            None => {
                groups.push((category, items));
            },
        }
        assert(groups@[slot].0@ == name && groups@[slot].1@ == items@);
        assert(forall|i: int|
            0 <= i < before_groups.len() && i != slot ==> groups@[i]
                == #[trigger] before_groups[i]);
        assert(forall|i: int|
            0 <= i < groups@.len() && i != slot ==> #[trigger] groups@[i] == before_groups[i]);
        self.groups = groups;
        proof {
            self.lemma_listed();
            let after = self@;
            let after_groups = self.groups@;
            assert forall|other: Seq<char>| #[trigger]
                after.contains_key(other) <==> other == name || before.contains_key(
                    other,
                ) by {
                if before.contains_key(other) && other != name {
                    let i = choose|i: int|
                        0 <= i < before_groups.len() && (#[trigger] before_groups[i]).0@ == other;
                    assert(after_groups[i].0@ == other);
                }
                if other == name {
                    assert(after_groups[slot].0@ == other);
                }
            }
            assert forall|other: Seq<char>| after.contains_key(other) implies (
            #[trigger] after[other]) == before.insert(name, views)[other] by {
                let i = choose|i: int|
                    0 <= i < after_groups.len() && (#[trigger] after_groups[i]).0@ == other;
                if i != slot {
                    assert(before_groups[i].0@ == other);
                }
            }
            assert(after =~= before.insert(name, views));
        }
    }
}

impl Default for ItemsByCategory {
    /// The catalog without categories.
    fn default() -> (catalog: Self)
        ensures
            catalog@ == Map::<Seq<char>, Seq<ItemView>>::empty(),
    {
        ItemsByCategory::new()
    }
}

/// Copies the items of a category, in their order.
fn clone_items(items: &Vec<Item>) -> (copy: Vec<Item>)
    ensures
        item_views(copy@) == item_views(items@),
{
    let mut copy: Vec<Item> = Vec::new();
    let mut i: usize = 0;
    while i < items.len()
        invariant
            i <= items@.len(),
            copy@.len() == i,
            forall|j: int| 0 <= j < i ==> (#[trigger] copy@[j])@ == items@[j]@,
        decreases items@.len() - i,
    {
        copy.push(items[i].clone());
        i += 1;
    }
    assert(item_views(copy@) =~= item_views(items@));
    copy
}

impl Clone for ItemsByCategory {
    /// A copy that holds the same categories with the same items.
    fn clone(&self) -> (copy: Self)
        ensures
            copy@ == self@,
    {
        proof {
            use_type_invariant(self);
            self.lemma_listed();
        }
        let mut groups: Vec<(String, Vec<Item>)> = Vec::new();
        let mut i: usize = 0;
        while i < self.groups.len()
            invariant
                i <= self.groups@.len(),
                groups@.len() == i,
                forall|j: int|
                    0 <= j < i ==> (#[trigger] groups@[j]).0@ == self.groups@[j].0@ && item_views(
                        groups@[j].1@,
                    ) == item_views(self.groups@[j].1@),
            decreases self.groups@.len() - i,
        {
            groups.push((self.groups[i].0.clone(), clone_items(&self.groups[i].1)));
            i += 1;
        }
        let copy = ItemsByCategory { groups };
        proof {
            copy.lemma_listed();
            assert forall|name: Seq<char>| copy@.contains_key(name) <==> self@.contains_key(
                name,
            ) by {
                if copy@.contains_key(name) {
                    let j = choose|j: int|
                        0 <= j < copy.groups@.len() && (#[trigger] copy.groups@[j]).0@ == name;
                    assert(self.groups@[j].0@ == name);
                }
                if self@.contains_key(name) {
                    let j = choose|j: int|
                        0 <= j < self.groups@.len() && (#[trigger] self.groups@[j]).0@ == name;
                    assert(copy.groups@[j].0@ == name);
                }
            }
            assert forall|name: Seq<char>| copy@.contains_key(name) implies copy@[name]
                == self@[name] by {
                let j = choose|j: int|
                    0 <= j < copy.groups@.len() && (#[trigger] copy.groups@[j]).0@ == name;
                assert(self.groups@[j].0@ == name);
            }
            assert(copy@ =~= self@);
        }
        copy
    }
}

} // verus!
