//! From the catalog to a JSON document.
//!
//! The document mirrors the data: one object keyed by category name, each
//! category an array of item objects in the items' order, each item object
//! with its eleven fields under their names and a nested `nutrition` object.

use crate::json::{
    array_value, no_members, number_value, object_model, object_value, string_value,
    value_model, value_models, Json,
};
use crate::models::{
    item_views, lists_categories, CatalogView, Item, ItemView, ItemsByCategory, Nutrition,
};
use vstd::prelude::*;

verus! {

/// The object that stands for a nutrition: its four numbers by name.
pub open spec fn encode_nutrition_spec(nutrition: Nutrition) -> Json {
    Json::Object(
        no_members()
            .insert("calories"@, Json::Number(nutrition.calories))
            .insert("protein_g"@, Json::Number(nutrition.protein_g))
            .insert("fat_g"@, Json::Number(nutrition.fat_g))
            .insert("carbs_g"@, Json::Number(nutrition.carbs_g)),
    )
}

/// The object that stands for an item: its eleven fields by name, the
/// nutrition as an object of its own.
pub open spec fn encode_item_spec(item: ItemView) -> Json {
    Json::Object(
        no_members()
            .insert("item_id"@, Json::String(item.item_id))
            .insert("name"@, Json::String(item.name))
            .insert("store"@, Json::String(item.store))
            .insert("unit"@, Json::String(item.unit))
            .insert("price"@, Json::Number(item.price))
            .insert("serving_size_g"@, Json::Number(item.serving_size_g))
            .insert("nutrition"@, encode_nutrition_spec(item.nutrition))
            .insert("category"@, Json::String(item.category))
            .insert("price_per_gram"@, Json::Number(item.price_per_gram))
            .insert("price_per_serving"@, Json::Number(item.price_per_serving))
            .insert("last_updated"@, Json::String(item.last_updated)),
    )
}

/// The array that stands for the items of one category, in their order.
pub open spec fn encode_items_spec(items: Seq<ItemView>) -> Json {
    Json::Array(items.map_values(|item: ItemView| encode_item_spec(item)))
}

/// The object that stands for a catalog: one member for each category, under
/// the category's name.
pub open spec fn encode_catalog_spec(catalog: CatalogView) -> Json {
    Json::Object(
        Map::new(
            |name: Seq<char>| catalog.contains_key(name),
            |name: Seq<char>| encode_items_spec(catalog[name]),
        ),
    )
}

/// Writes a nutrition as the object of [`encode_nutrition_spec`].
pub fn encode_nutrition(nutrition: &Nutrition) -> (value: serde_json::Value)
    ensures
        value_model(value) == encode_nutrition_spec(*nutrition),
{
    let mut object = serde_json::Map::new();
    object.insert("calories".to_owned(), number_value(nutrition.calories.clone()));
    object.insert("protein_g".to_owned(), number_value(nutrition.protein_g.clone()));
    object.insert("fat_g".to_owned(), number_value(nutrition.fat_g.clone()));
    object.insert("carbs_g".to_owned(), number_value(nutrition.carbs_g.clone()));
    object_value(object)
}

/// Writes an item as the object of [`encode_item_spec`].
pub fn encode_item(item: &Item) -> (value: serde_json::Value)
    ensures
        value_model(value) == encode_item_spec(item@),
{
    let mut object = serde_json::Map::new();
    object.insert("item_id".to_owned(), string_value(item.item_id.clone()));
    object.insert("name".to_owned(), string_value(item.name.clone()));
    object.insert("store".to_owned(), string_value(item.store.clone()));
    object.insert("unit".to_owned(), string_value(item.unit.clone()));
    object.insert("price".to_owned(), number_value(item.price.clone()));
    object.insert("serving_size_g".to_owned(), number_value(item.serving_size_g.clone()));
    object.insert("nutrition".to_owned(), encode_nutrition(&item.nutrition));
    object.insert("category".to_owned(), string_value(item.category.clone()));
    object.insert("price_per_gram".to_owned(), number_value(item.price_per_gram.clone()));
    object.insert("price_per_serving".to_owned(), number_value(item.price_per_serving.clone()));
    object.insert("last_updated".to_owned(), string_value(item.last_updated.clone()));
    object_value(object)
}

/// Writes the items of one category as the array of [`encode_items_spec`].
pub fn encode_items(items: &Vec<Item>) -> (value: serde_json::Value)
    ensures
        value_model(value) == encode_items_spec(item_views(items@)),
{
    let mut values: Vec<serde_json::Value> = Vec::new();
    let mut i: usize = 0;
    while i < items.len()
        invariant
            i <= items@.len(),
            values@.len() == i,
            forall|j: int|
                0 <= j < i ==> value_model(#[trigger] values@[j]) == encode_item_spec(items@[j]@),
        decreases items@.len() - i,
    {
        values.push(encode_item(&items[i]));
        i += 1;
    }
    assert(value_models(values@) =~= item_views(items@).map_values(
        |item: ItemView| encode_item_spec(item),
    ));
    array_value(values)
}

/// Writes a catalog as the object of [`encode_catalog_spec`].
pub fn encode_catalog(catalog: &ItemsByCategory) -> (value: serde_json::Value)
    ensures
        value_model(value) == encode_catalog_spec(catalog@),
{
    let groups = catalog.groups();
    let mut object = serde_json::Map::new();
    let mut i: usize = 0;
    while i < groups.len()
        invariant
            i <= groups@.len(),
            lists_categories(groups@, catalog@),
            forall|name: Seq<char>|
                object_model(object).contains_key(name) <==> exists|j: int|
                    0 <= j < i && (#[trigger] groups@[j]).0@ == name,
            forall|name: Seq<char>| #[trigger]
                object_model(object).contains_key(name) ==> object_model(object)[name]
                    == encode_items_spec(catalog@[name]),
        decreases groups@.len() - i,
    {
        let ghost name = groups@[i as int].0@;
        object.insert(groups[i].0.clone(), encode_items(&groups[i].1));
        assert forall|other: Seq<char>|
            object_model(object).contains_key(other) <==> exists|j: int|
                0 <= j < i + 1 && (#[trigger] groups@[j]).0@ == other by {
            if object_model(object).contains_key(other) && other != name {
                let j = choose|j: int| 0 <= j < i && (#[trigger] groups@[j]).0@ == other;
                assert(groups@[j].0@ == other);
            }
            if other == name {
                assert(groups@[i as int].0@ == other);
            }
        }
        i += 1;
    }
    proof {
        assert forall|name: Seq<char>| catalog@.contains_key(name) implies object_model(
            object,
        ).contains_key(name) by {
            let j = choose|j: int| 0 <= j < groups@.len() && (#[trigger] groups@[j]).0@ == name;
            assert(groups@[j].0@ == name);
        }
        assert(object_model(object) =~= Map::new(
            |name: Seq<char>| catalog@.contains_key(name),
            |name: Seq<char>| encode_items_spec(catalog@[name]),
        ));
    }
    object_value(object)
}

} // verus!
