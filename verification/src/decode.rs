//! From a JSON document to the catalog.
//!
//! A catalog document is an object whose members are the categories; each
//! category is an array of item objects. An item object must hold every field
//! of [`Item`] with the right type; members that are no field of an item are
//! passed over. Anything else is [`CatalogError::MalformedData`].

use crate::error::CatalogError;
use crate::json::{
    lists_members, member, members, object_model, value_model, value_models, Json,
};
use crate::models::{item_views, CatalogView, Item, ItemView, ItemsByCategory, Nutrition};
use vstd::prelude::*;

verus! {

/// The text of the member `name`, where there is such a member and it is a
/// string.
pub open spec fn text_member(members: Map<Seq<char>, Json>, name: Seq<char>) -> Option<Seq<char>> {
    if members.contains_key(name) {
        match members[name] {
            Json::String(chars) => Some(chars),
            _ => None,
        }
    } else {
        None
    }
}

/// The number of the member `name`, where there is such a member and it is a
/// number.
pub open spec fn number_member(members: Map<Seq<char>, Json>, name: Seq<char>) -> Option<
    serde_json::Number,
> {
    if members.contains_key(name) {
        match members[name] {
            Json::Number(number) => Some(number),
            _ => None,
        }
    } else {
        None
    }
}

/// The nutrition that a document stands for: an object with the four
/// numbers. `None` for every other document.
pub open spec fn decode_nutrition_spec(document: Json) -> Option<Nutrition> {
    match document {
        Json::Object(members) => {
            if number_member(members, "calories"@) is Some
                && number_member(members, "protein_g"@) is Some
                && number_member(members, "fat_g"@) is Some
                && number_member(members, "carbs_g"@) is Some {
                Some(
                    Nutrition {
                        calories: number_member(members, "calories"@).unwrap(),
                        protein_g: number_member(members, "protein_g"@).unwrap(),
                        fat_g: number_member(members, "fat_g"@).unwrap(),
                        carbs_g: number_member(members, "carbs_g"@).unwrap(),
                    },
                )
            } else {
                None
            }
        },
        _ => None,
    }
}

/// The nutrition of the member `name`, where there is such a member and it
/// stands for one.
pub open spec fn nutrition_member(members: Map<Seq<char>, Json>, name: Seq<char>) -> Option<
    Nutrition,
> {
    if members.contains_key(name) {
        decode_nutrition_spec(members[name])
    } else {
        None
    }
}

/// The item that a document stands for: an object with the eleven fields,
/// each of its type. `None` for every other document.
pub open spec fn decode_item_spec(document: Json) -> Option<ItemView> {
    match document {
        Json::Object(members) => {
            if text_member(members, "item_id"@) is Some
                && text_member(members, "name"@) is Some
                && text_member(members, "store"@) is Some
                && text_member(members, "unit"@) is Some
                && number_member(members, "price"@) is Some
                && number_member(members, "serving_size_g"@) is Some
                && nutrition_member(members, "nutrition"@) is Some
                && text_member(members, "category"@) is Some
                && number_member(members, "price_per_gram"@) is Some
                && number_member(members, "price_per_serving"@) is Some
                && text_member(members, "last_updated"@) is Some {
                Some(
                    ItemView {
                        item_id: text_member(members, "item_id"@).unwrap(),
                        name: text_member(members, "name"@).unwrap(),
                        store: text_member(members, "store"@).unwrap(),
                        unit: text_member(members, "unit"@).unwrap(),
                        price: number_member(members, "price"@).unwrap(),
                        serving_size_g: number_member(members, "serving_size_g"@).unwrap(),
                        nutrition: nutrition_member(members, "nutrition"@).unwrap(),
                        category: text_member(members, "category"@).unwrap(),
                        price_per_gram: number_member(members, "price_per_gram"@).unwrap(),
                        price_per_serving: number_member(members, "price_per_serving"@).unwrap(),
                        last_updated: text_member(members, "last_updated"@).unwrap(),
                    },
                )
            } else {
                None
            }
        },
        _ => None,
    }
}

/// The items that a document stands for: an array of items, in its order.
/// `None` for every other document.
pub open spec fn decode_items_spec(document: Json) -> Option<Seq<ItemView>> {
    match document {
        Json::Array(elements) => {
            if forall|i: int|
                0 <= i < elements.len() ==> decode_item_spec(#[trigger] elements[i]) is Some {
                Some(Seq::new(elements.len(), |i: int| decode_item_spec(elements[i]).unwrap()))
            } else {
                None
            }
        },
        _ => None,
    }
}

/// The catalog that a document stands for: an object whose members are the
/// categories, each an array of items. `None` for every other document.
pub open spec fn decode_catalog_spec(document: Json) -> Option<CatalogView> {
    match document {
        Json::Object(members) => {
            if forall|name: Seq<char>|
                members.contains_key(name) ==> decode_items_spec(#[trigger] members[name])
                    is Some {
                Some(
                    Map::new(
                        |name: Seq<char>| members.contains_key(name),
                        |name: Seq<char>| decode_items_spec(members[name]).unwrap(),
                    ),
                )
            } else {
                None
            }
        },
        _ => None,
    }
}

/// Reads the text of the member `name`. Fails where the object has no such
/// member, or one that is no string.
fn text_field(object: &serde_json::Map<String, serde_json::Value>, name: &str) -> (field: Result<
    String,
    CatalogError,
>)
    ensures
        match field {
            Ok(text) => text_member(object_model(*object), name@) == Some(text@),
            Err(error) => error == CatalogError::MalformedData && text_member(
                object_model(*object),
                name@,
            ) is None,
        },
{
    match member(object, name) {
        Some(value) => match value.as_str() {
            Some(text) => Ok(text.to_owned()),
            None => Err(CatalogError::MalformedData),
        },
        None => Err(CatalogError::MalformedData),
    }
}

/// Reads the number of the member `name`. Fails where the object has no
/// such member, or one that is no number.
fn number_field(object: &serde_json::Map<String, serde_json::Value>, name: &str) -> (field:
    Result<serde_json::Number, CatalogError>)
    ensures
        match field {
            Ok(number) => number_member(object_model(*object), name@) == Some(number),
            Err(error) => error == CatalogError::MalformedData && number_member(
                object_model(*object),
                name@,
            ) is None,
        },
{
    match member(object, name) {
        Some(value) => match value.as_number() {
            Some(number) => Ok(number.clone()),
            None => Err(CatalogError::MalformedData),
        },
        None => Err(CatalogError::MalformedData),
    }
}

/// Reads a nutrition object. Succeeds exactly on the documents that
/// [`decode_nutrition_spec`] accepts, with that nutrition.
pub fn decode_nutrition(value: &serde_json::Value) -> (decoded: Result<Nutrition, CatalogError>)
    ensures
        match decoded {
            Ok(nutrition) => decode_nutrition_spec(value_model(*value)) == Some(nutrition),
            Err(error) => error == CatalogError::MalformedData && decode_nutrition_spec(
                value_model(*value),
            ) is None,
        },
{
    let object = match value.as_object() {
        Some(object) => object,
        None => {
            return Err(CatalogError::MalformedData);
        },
    };
    let calories = number_field(object, "calories")?;
    let protein_g = number_field(object, "protein_g")?;
    let fat_g = number_field(object, "fat_g")?;
    let carbs_g = number_field(object, "carbs_g")?;
    Ok(Nutrition { calories, protein_g, fat_g, carbs_g })
}

/// Reads an item object. Succeeds exactly on the documents that
/// [`decode_item_spec`] accepts, with that item.
pub fn decode_item(value: &serde_json::Value) -> (decoded: Result<Item, CatalogError>)
    ensures
        match decoded {
            Ok(item) => decode_item_spec(value_model(*value)) == Some(item@),
            Err(error) => error == CatalogError::MalformedData && decode_item_spec(
                value_model(*value),
            ) is None,
        },
{
    let object = match value.as_object() {
        Some(object) => object,
        None => {
            return Err(CatalogError::MalformedData);
        },
    };
    let item_id = text_field(object, "item_id")?;
    let name = text_field(object, "name")?;
    let store = text_field(object, "store")?;
    let unit = text_field(object, "unit")?;
    let price = number_field(object, "price")?;
    let serving_size_g = number_field(object, "serving_size_g")?;
    let nutrition = match member(object, "nutrition") {
        Some(value) => decode_nutrition(value)?,
        None => {
            return Err(CatalogError::MalformedData);
        },
    };
    let category = text_field(object, "category")?;
    let price_per_gram = number_field(object, "price_per_gram")?;
    let price_per_serving = number_field(object, "price_per_serving")?;
    let last_updated = text_field(object, "last_updated")?;
    Ok(
        Item {
            item_id,
            name,
            store,
            unit,
            price,
            serving_size_g,
            nutrition,
            category,
            price_per_gram,
            price_per_serving,
            last_updated,
        },
    )
}

/// Reads the items of one category. Succeeds exactly on the documents that
/// [`decode_items_spec`] accepts, with those items in their order.
pub fn decode_items(value: &serde_json::Value) -> (decoded: Result<Vec<Item>, CatalogError>)
    ensures
        match decoded {
            Ok(items) => decode_items_spec(value_model(*value)) == Some(item_views(items@)),
            Err(error) => error == CatalogError::MalformedData && decode_items_spec(
                value_model(*value),
            ) is None,
        },
{
    let array = match value.as_array() {
        Some(array) => array,
        None => {
            return Err(CatalogError::MalformedData);
        },
    };
    let ghost elements = value_models(array@);
    let mut items: Vec<Item> = Vec::new();
    let mut i: usize = 0;
    while i < array.len()
        invariant
            i <= array@.len(),
            elements == value_models(array@),
            value_model(*value) == Json::Array(elements),
            items@.len() == i,
            forall|j: int|
                0 <= j < i ==> decode_item_spec(#[trigger] elements[j]) == Some(items@[j]@),
        decreases array@.len() - i,
    {
        let item = match decode_item(&array[i]) {
            Ok(item) => item,
            Err(error) => {
                assert(decode_item_spec(elements[i as int]) is None);
                return Err(error);
            },
        };
        items.push(item);
        i += 1;
    }
    assert(item_views(items@) =~= Seq::new(
        elements.len(),
        |i: int| decode_item_spec(elements[i]).unwrap(),
    ));
    Ok(items)
}

/// Reads a catalog. Succeeds exactly on the documents that
/// [`decode_catalog_spec`] accepts, with that catalog.
pub fn decode_catalog(value: &serde_json::Value) -> (decoded: Result<ItemsByCategory, CatalogError>)
    ensures
        match decoded {
            Ok(catalog) => decode_catalog_spec(value_model(*value)) == Some(catalog@),
            Err(error) => error == CatalogError::MalformedData && decode_catalog_spec(
                value_model(*value),
            ) is None,
        },
{
    let object = match value.as_object() {
        Some(object) => object,
        None => {
            return Err(CatalogError::MalformedData);
        },
    };
    let ghost categories = object_model(*object);
    let entries = members(object);
    let mut catalog = ItemsByCategory::new();
    let mut i: usize = 0;
    while i < entries.len()
        invariant
            i <= entries@.len(),
            value_model(*value) == Json::Object(categories),
            lists_members(entries@, categories),
            forall|name: Seq<char>|
                catalog@.contains_key(name) <==> exists|j: int|
                    0 <= j < i && (#[trigger] entries@[j]).0@ == name,
            forall|name: Seq<char>| #[trigger]
                catalog@.contains_key(name) ==> decode_items_spec(categories[name]) == Some(
                    catalog@[name],
                ),
        decreases entries@.len() - i,
    {
        let ghost before = catalog@;
        let (name, group) = entries[i];
        let items = match decode_items(group) {
            Ok(items) => items,
            Err(error) => {
                assert(categories.contains_key(entries@[i as int].0@));
                return Err(error);
            },
        };
        catalog.insert(name.clone(), items);
        assert forall|other: Seq<char>|
            catalog@.contains_key(other) <==> exists|j: int|
                0 <= j < i + 1 && (#[trigger] entries@[j]).0@ == other by {
            if catalog@.contains_key(other) && other != name@ {
                let j = choose|j: int| 0 <= j < i && (#[trigger] entries@[j]).0@ == other;
                assert(entries@[j].0@ == other);
            }
            if other == name@ {
                assert(entries@[i as int].0@ == other);
            }
        }
        i += 1;
    }
    proof {
        let decoded = decode_catalog_spec(value_model(*value));
        assert forall|name: Seq<char>| categories.contains_key(name) implies decode_items_spec(
            #[trigger] categories[name],
        ) is Some by {
            let j = choose|j: int| 0 <= j < entries@.len() && (#[trigger] entries@[j]).0@ == name;
            assert(entries@[j].0@ == name);
            assert(catalog@.contains_key(name));
        }
        assert(decoded.unwrap() =~= catalog@);
    }
    Ok(catalog)
}

} // verus!
