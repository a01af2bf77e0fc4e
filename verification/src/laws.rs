//! What holds of reading and writing together.

use crate::decode::{
    decode_catalog_spec, decode_item_spec, decode_items_spec, decode_nutrition_spec,
};
use crate::encode::{
    encode_catalog_spec, encode_item_spec, encode_items_spec, encode_nutrition_spec,
};
use crate::error::CatalogError;
use crate::handlers::{get_items_spec, load_spec, render_spec, ResponseView};
use crate::json::{json_document, Json};
use crate::models::{CatalogView, ItemView, Nutrition};
use vstd::prelude::*;

verus! {

/// Reading the object written for a nutrition gives that nutrition back.
pub proof fn nutrition_round_trip(nutrition: Nutrition)
    ensures
        decode_nutrition_spec(encode_nutrition_spec(nutrition)) == Some(nutrition),
{
    reveal_strlit("calories");
    reveal_strlit("protein_g");
    reveal_strlit("fat_g");
    reveal_strlit("carbs_g");
    assert("calories"@.len() == 8 && "protein_g"@.len() == 9);
    assert("fat_g"@.len() == 5 && "carbs_g"@.len() == 7);
}

/// Reading the object written for an item gives that item back, field for
/// field, its nutrition included.
pub proof fn item_round_trip(item: ItemView)
    ensures
        decode_item_spec(encode_item_spec(item)) == Some(item),
{
    reveal_strlit("item_id");
    reveal_strlit("name");
    reveal_strlit("store");
    reveal_strlit("unit");
    reveal_strlit("price");
    reveal_strlit("serving_size_g");
    reveal_strlit("nutrition");
    reveal_strlit("category");
    reveal_strlit("price_per_gram");
    reveal_strlit("price_per_serving");
    reveal_strlit("last_updated");
    assert("item_id"@.len() == 7 && "name"@.len() == 4 && "store"@.len() == 5);
    assert("unit"@.len() == 4 && "price"@.len() == 5 && "serving_size_g"@.len() == 14);
    assert("nutrition"@.len() == 9 && "category"@.len() == 8);
    assert("price_per_gram"@.len() == 14 && "price_per_serving"@.len() == 17);
    assert("last_updated"@.len() == 12);
    assert("name"@[0] == 'n' && "unit"@[0] == 'u');
    assert("store"@[0] == 's' && "price"@[0] == 'p');
    assert("serving_size_g"@[0] == 's' && "price_per_gram"@[0] == 'p');
    nutrition_round_trip(item.nutrition);
}

/// Reading the array written for the items of a category gives those items
/// back, as many and in the same order.
pub proof fn items_round_trip(items: Seq<ItemView>)
    ensures
        decode_items_spec(encode_items_spec(items)) == Some(items),
{
    let elements = items.map_values(|item: ItemView| encode_item_spec(item));
    assert forall|i: int| 0 <= i < elements.len() implies decode_item_spec(
        #[trigger] elements[i],
    ) == Some(items[i]) by {
        item_round_trip(items[i]);
    }
    assert(Seq::new(elements.len(), |i: int| decode_item_spec(elements[i]).unwrap()) =~= items);
}

/// Round trip: the document written for a catalog reads back as that same
/// catalog. So a catalog that was read from a document, written out and read
/// again is the catalog that was read first: the same categories, and in each
/// the same items in the same order, equal field for field.
pub proof fn catalog_round_trip(catalog: CatalogView)
    ensures
        decode_catalog_spec(encode_catalog_spec(catalog)) == Some(catalog),
{
    let written = encode_catalog_spec(catalog)->Object_0;
    assert forall|name: Seq<char>| written.contains_key(name) implies decode_items_spec(
        #[trigger] written[name],
    ) == Some(catalog[name]) by {
        items_round_trip(catalog[name]);
    }
    assert(decode_catalog_spec(encode_catalog_spec(catalog)).unwrap() =~= catalog);
}

/// Shape preservation: where a document reads as a catalog, the document
/// written for that catalog has exactly the category names of the one that
/// was read, and under each name an array of as many elements, of which each
/// reads as the same item as the element at its place in the document read.
pub proof fn shape_is_preserved(document: Json)
    requires
        decode_catalog_spec(document) is Some,
    ensures
        document is Object,
        encode_catalog_spec(decode_catalog_spec(document).unwrap()) is Object,
        ({
            let read = document->Object_0;
            let written = encode_catalog_spec(decode_catalog_spec(document).unwrap())->Object_0;
            &&& written.dom() == read.dom()
            &&& forall|name: Seq<char>| #[trigger]
                read.contains_key(name) ==> {
                    &&& read[name] is Array
                    &&& written[name] is Array
                    &&& written[name]->Array_0.len() == read[name]->Array_0.len()
                    &&& forall|i: int|
                        0 <= i < read[name]->Array_0.len() ==> decode_item_spec(
                            #[trigger] written[name]->Array_0[i],
                        ) == decode_item_spec(read[name]->Array_0[i])
                            && decode_item_spec(read[name]->Array_0[i]) is Some
                }
        }),
{
    let read = document->Object_0;
    let catalog = decode_catalog_spec(document).unwrap();
    let written = encode_catalog_spec(catalog)->Object_0;
    assert(written.dom() =~= read.dom());
    assert forall|name: Seq<char>| #[trigger] read.contains_key(name) implies {
        &&& read[name] is Array
        &&& written[name] is Array
        &&& written[name]->Array_0.len() == read[name]->Array_0.len()
        &&& forall|i: int|
            0 <= i < read[name]->Array_0.len() ==> decode_item_spec(
                #[trigger] written[name]->Array_0[i],
            ) == decode_item_spec(read[name]->Array_0[i]) && decode_item_spec(
                read[name]->Array_0[i],
            ) is Some
    } by {
        assert(decode_items_spec(read[name]) is Some);
        let elements = read[name]->Array_0;
        assert forall|i: int| 0 <= i < elements.len() implies decode_item_spec(
            #[trigger] written[name]->Array_0[i],
        ) == decode_item_spec(elements[i]) && decode_item_spec(elements[i]) is Some by {
            assert(decode_item_spec(elements[i]) is Some);
            item_round_trip(decode_item_spec(elements[i]).unwrap());
        }
    }
}

/// The names of the members that an item object must hold.
pub open spec fn is_item_field(name: Seq<char>) -> bool {
    ||| name == "item_id"@
    ||| name == "name"@
    ||| name == "store"@
    ||| name == "unit"@
    ||| name == "price"@
    ||| name == "serving_size_g"@
    ||| name == "nutrition"@
    ||| name == "category"@
    ||| name == "price_per_gram"@
    ||| name == "price_per_serving"@
    ||| name == "last_updated"@
}

/// An object that lacks one of the eleven fields is no item, whatever else
/// it holds.
pub proof fn item_needs_every_field(members: Map<Seq<char>, Json>, field: Seq<char>)
    requires
        is_item_field(field),
        !members.contains_key(field),
    ensures
        decode_item_spec(Json::Object(members)) is None,
{
}

/// One element that is no item makes the whole document no catalog: nothing
/// is served in part.
pub proof fn one_bad_element_spoils_the_catalog(
    categories: Map<Seq<char>, Json>,
    name: Seq<char>,
    i: int,
)
    requires
        categories.contains_key(name),
        categories[name] is Array,
        0 <= i < categories[name]->Array_0.len(),
        decode_item_spec(categories[name]->Array_0[i]) is None,
    ensures
        decode_catalog_spec(Json::Object(categories)) is None,
{
    assert(decode_items_spec(categories[name]) is None);
}

/// A request that finds no file to read is answered with status 503 and the
/// body `{"error":"DataUnavailable"}`.
pub proof fn unread_file_is_data_unavailable()
    ensures
        get_items_spec(None) == (ResponseView {
            status: 503,
            content_type: "application/json"@,
            body: "{\"error\":\"DataUnavailable\"}"@,
        }),
{
    reveal_strlit("{\"error\":\"");
    reveal_strlit("DataUnavailable");
    reveal_strlit("\"}");
    reveal_strlit("{\"error\":\"DataUnavailable\"}");
    assert(CatalogError::DataUnavailable.body_spec() =~= "{\"error\":\"DataUnavailable\"}"@);
}

/// A text that is no JSON document, and a text whose document is no catalog,
/// are answered with status 500 and the body `{"error":"MalformedData"}`.
pub proof fn malformed_text_is_malformed_data(text: Seq<char>)
    ensures
        load_spec(Some(text)) is Err ==> get_items_spec(Some(text)) == (ResponseView {
            status: 500,
            content_type: "application/json"@,
            body: "{\"error\":\"MalformedData\"}"@,
        }),
        load_spec(Some(text)) is Err <==> json_document(text) is None || decode_catalog_spec(
            json_document(text).unwrap(),
        ) is None,
{
    reveal_strlit("{\"error\":\"");
    reveal_strlit("MalformedData");
    reveal_strlit("\"}");
    reveal_strlit("{\"error\":\"MalformedData\"}");
    assert(CatalogError::MalformedData.body_spec() =~= "{\"error\":\"MalformedData\"}"@);
}

/// Round trip through text. Given that the text printed for a catalog's
/// document parses as that document again, which is for `serde_json` to keep
/// and is not proved here, the text that was rendered for a catalog loads as
/// that same catalog.
pub proof fn rendered_text_loads_back(catalog: CatalogView, text: Seq<char>)
    ensures
        render_spec(catalog) == Ok::<Seq<char>, CatalogError>(text) && json_document(text) == Some(
            encode_catalog_spec(catalog),
        ) ==> load_spec(Some(text)) == Ok::<CatalogView, CatalogError>(catalog),
{
    catalog_round_trip(catalog);
}

} // verus!
