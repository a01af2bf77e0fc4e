use item_catalog::decode::{decode_catalog, decode_item, decode_items, decode_nutrition};
use item_catalog::encode::{encode_catalog, encode_item, encode_items, encode_nutrition};
use item_catalog::error::CatalogError;
use item_catalog::models::{Item, ItemsByCategory, Nutrition};
use serde_json::{Number, Value};

const APPLE: &str = r#"{"item_id":"p1","name":"Apple","store":"A","unit":"each","price":0.5,"serving_size_g":150,"nutrition":{"calories":95,"protein_g":0.5,"fat_g":0.3,"carbs_g":25},"category":"produce","price_per_gram":0.0033,"price_per_serving":0.5,"last_updated":"2024-01-01T00:00:00Z"}"#;

const ITEM_FIELDS: [&str; 11] = [
    "item_id",
    "name",
    "store",
    "unit",
    "price",
    "serving_size_g",
    "nutrition",
    "category",
    "price_per_gram",
    "price_per_serving",
    "last_updated",
];

const NUTRITION_FIELDS: [&str; 4] = ["calories", "protein_g", "fat_g", "carbs_g"];

fn value(text: &str) -> Value {
    serde_json::from_str(text).unwrap()
}

fn float(number: f64) -> Number {
    Number::from_f64(number).unwrap()
}

fn apple() -> Item {
    Item {
        item_id: String::from("p1"),
        name: String::from("Apple"),
        store: String::from("A"),
        unit: String::from("each"),
        price: float(0.5),
        serving_size_g: Number::from(150u64),
        nutrition: Nutrition {
            calories: Number::from(95u64),
            protein_g: float(0.5),
            fat_g: float(0.3),
            carbs_g: Number::from(25u64),
        },
        category: String::from("produce"),
        price_per_gram: float(0.0033),
        price_per_serving: float(0.5),
        last_updated: String::from("2024-01-01T00:00:00Z"),
    }
}

fn pear() -> Item {
    Item {
        item_id: String::from("p2"),
        name: String::from("Pear"),
        store: String::from("B"),
        unit: String::from("lb"),
        price: float(1.25),
        serving_size_g: float(140.0),
        nutrition: Nutrition {
            calories: float(101.0),
            protein_g: float(0.6),
            fat_g: float(0.2),
            carbs_g: float(27.0),
        },
        category: String::from("produce"),
        price_per_gram: float(0.0028),
        price_per_serving: float(0.39),
        last_updated: String::from("2024-01-02T00:00:00Z"),
    }
}

#[test]
fn decode_item_reads_every_field() {
    assert_eq!(decode_item(&value(APPLE)), Ok(apple()));
}

#[test]
fn decode_item_keeps_integers_and_floats_apart() {
    let item = decode_item(&value(APPLE)).unwrap();
    assert!(item.serving_size_g.is_u64());
    assert_eq!(item.serving_size_g.as_u64(), Some(150));
    assert!(item.price.is_f64());
    assert_eq!(item.price.as_f64(), Some(0.5));
}

#[test]
fn decode_item_accepts_negative_and_exponent_numbers() {
    let text = APPLE
        .replace("\"price\":0.5", "\"price\":-2")
        .replace("\"calories\":95", "\"calories\":9.5e1");
    let item = decode_item(&value(&text)).unwrap();
    assert_eq!(item.price.as_i64(), Some(-2));
    assert_eq!(item.nutrition.calories.as_f64(), Some(95.0));
}

#[test]
fn decode_item_passes_over_unknown_members() {
    let text = APPLE.replace("\"store\":\"A\"", "\"store\":\"A\",\"aisle\":[1,2],\"organic\":true");
    assert_eq!(decode_item(&value(&text)), Ok(apple()));
}

#[test]
fn decode_item_needs_every_field() {
    for field in ITEM_FIELDS {
        let mut document = value(APPLE);
        document.as_object_mut().unwrap().remove(field);
        assert_eq!(decode_item(&document), Err(CatalogError::MalformedData), "without {}", field);
    }
}

#[test]
fn decode_item_rejects_null_in_any_field() {
    for field in ITEM_FIELDS {
        let mut document = value(APPLE);
        document.as_object_mut().unwrap().insert(String::from(field), Value::Null);
        assert_eq!(decode_item(&document), Err(CatalogError::MalformedData), "null {}", field);
    }
}

#[test]
fn decode_item_rejects_a_number_where_text_belongs() {
    for field in ["item_id", "name", "store", "unit", "category", "last_updated"] {
        let mut document = value(APPLE);
        document.as_object_mut().unwrap().insert(String::from(field), Value::from(7));
        assert_eq!(decode_item(&document), Err(CatalogError::MalformedData), "number {}", field);
    }
}

#[test]
fn decode_item_rejects_text_where_a_number_belongs() {
    for field in ["price", "serving_size_g", "price_per_gram", "price_per_serving"] {
        let mut document = value(APPLE);
        document.as_object_mut().unwrap().insert(String::from(field), Value::from("0.5"));
        assert_eq!(decode_item(&document), Err(CatalogError::MalformedData), "text {}", field);
    }
}

#[test]
fn decode_item_rejects_what_is_no_object() {
    for text in ["null", "true", "3", "\"p1\"", "[]", "[\"p1\",\"Apple\"]"] {
        assert_eq!(decode_item(&value(text)), Err(CatalogError::MalformedData), "{}", text);
    }
}

#[test]
fn decode_item_rejects_a_flat_nutrition() {
    let text = APPLE.replace(
        "\"nutrition\":{\"calories\":95,\"protein_g\":0.5,\"fat_g\":0.3,\"carbs_g\":25}",
        "\"nutrition\":95,\"calories\":95,\"protein_g\":0.5,\"fat_g\":0.3,\"carbs_g\":25",
    );
    assert_eq!(decode_item(&value(&text)), Err(CatalogError::MalformedData));
}

#[test]
fn decode_nutrition_reads_the_four_numbers() {
    let document = value(r#"{"calories":95,"protein_g":0.5,"fat_g":0.3,"carbs_g":25}"#);
    assert_eq!(decode_nutrition(&document), Ok(apple().nutrition));
}

#[test]
fn decode_nutrition_needs_every_field() {
    for field in NUTRITION_FIELDS {
        let mut document = value(r#"{"calories":95,"protein_g":0.5,"fat_g":0.3,"carbs_g":25}"#);
        document.as_object_mut().unwrap().remove(field);
        assert_eq!(decode_nutrition(&document), Err(CatalogError::MalformedData), "{}", field);
    }
}

#[test]
fn decode_nutrition_rejects_wrong_types() {
    for field in NUTRITION_FIELDS {
        let mut document = value(r#"{"calories":95,"protein_g":0.5,"fat_g":0.3,"carbs_g":25}"#);
        document.as_object_mut().unwrap().insert(String::from(field), Value::from("95"));
        assert_eq!(decode_nutrition(&document), Err(CatalogError::MalformedData), "{}", field);
    }
    assert_eq!(decode_nutrition(&value("[95,0.5,0.3,25]")), Err(CatalogError::MalformedData));
    assert_eq!(decode_nutrition(&Value::Null), Err(CatalogError::MalformedData));
}

#[test]
fn decode_items_keeps_order_and_count() {
    let text = format!("[{},{},{}]", APPLE, APPLE.replace("p1", "p9"), APPLE.replace("p1", "p5"));
    let items = decode_items(&value(&text)).unwrap();
    assert_eq!(items.len(), 3);
    assert_eq!(items[0].item_id, "p1");
    assert_eq!(items[1].item_id, "p9");
    assert_eq!(items[2].item_id, "p5");
}

#[test]
fn decode_items_of_empty_array() {
    assert_eq!(decode_items(&value("[]")), Ok(Vec::new()));
}

#[test]
fn decode_items_fails_on_one_bad_element() {
    let text = format!("[{},{},3]", APPLE, APPLE);
    assert_eq!(decode_items(&value(&text)), Err(CatalogError::MalformedData));
    let text = format!("[{{}},{}]", APPLE);
    assert_eq!(decode_items(&value(&text)), Err(CatalogError::MalformedData));
}

#[test]
fn decode_items_rejects_what_is_no_array() {
    assert_eq!(decode_items(&value(APPLE)), Err(CatalogError::MalformedData));
    assert_eq!(decode_items(&Value::Null), Err(CatalogError::MalformedData));
    assert_eq!(decode_items(&value("\"[]\"")), Err(CatalogError::MalformedData));
}

#[test]
fn decode_catalog_reads_every_category() {
    let text = format!("{{\"produce\":[{}],\"dairy\":[],\"snacks\":[{},{}]}}", APPLE, APPLE, APPLE);
    let catalog = decode_catalog(&value(&text)).unwrap();
    assert_eq!(catalog.groups().len(), 3);
    assert_eq!(catalog.get("produce"), Some(&vec![apple()]));
    assert_eq!(catalog.get("dairy"), Some(&Vec::new()));
    assert_eq!(catalog.get("snacks"), Some(&vec![apple(), apple()]));
    assert_eq!(catalog.get("frozen"), None);
}

#[test]
fn decode_catalog_does_not_hold_items_to_their_category() {
    let text = format!("{{\"dairy\":[{}]}}", APPLE);
    let catalog = decode_catalog(&value(&text)).unwrap();
    assert_eq!(catalog.get("dairy").unwrap()[0].category, "produce");
}

#[test]
fn decode_catalog_of_empty_object() {
    let catalog = decode_catalog(&value("{}")).unwrap();
    assert_eq!(catalog.groups().len(), 0);
}

#[test]
fn decode_catalog_fails_on_one_bad_category() {
    let text = format!("{{\"produce\":[{}],\"dairy\":{{}}}}", APPLE);
    assert_eq!(decode_catalog(&value(&text)).unwrap_err(), CatalogError::MalformedData);
    let text = format!("{{\"produce\":[{}],\"dairy\":[null]}}", APPLE);
    assert_eq!(decode_catalog(&value(&text)).unwrap_err(), CatalogError::MalformedData);
}

#[test]
fn decode_catalog_rejects_what_is_no_object() {
    for text in ["null", "[]", "3", "\"{}\"", "false"] {
        assert_eq!(decode_catalog(&value(text)).unwrap_err(), CatalogError::MalformedData);
    }
}

#[test]
fn encode_nutrition_writes_the_four_numbers() {
    let written = encode_nutrition(&apple().nutrition);
    assert_eq!(written, value(r#"{"calories":95,"protein_g":0.5,"fat_g":0.3,"carbs_g":25}"#));
    assert_eq!(written.as_object().unwrap().len(), 4);
}

#[test]
fn encode_item_writes_every_field() {
    let written = encode_item(&apple());
    assert_eq!(written, value(APPLE));
    let object = written.as_object().unwrap();
    assert_eq!(object.len(), 11);
    for field in ITEM_FIELDS {
        assert!(object.contains_key(field), "{}", field);
    }
    assert!(object["nutrition"].is_object());
    assert_eq!(object["price"], Value::Number(float(0.5)));
    assert_eq!(object["item_id"], Value::String(String::from("p1")));
}

#[test]
fn encode_item_exact_text() {
    let text = serde_json::to_string(&encode_item(&apple())).unwrap();
    assert_eq!(
        text,
        r#"{"category":"produce","item_id":"p1","last_updated":"2024-01-01T00:00:00Z","name":"Apple","nutrition":{"calories":95,"carbs_g":25,"fat_g":0.3,"protein_g":0.5},"price":0.5,"price_per_gram":0.0033,"price_per_serving":0.5,"serving_size_g":150,"store":"A","unit":"each"}"#
    );
}

#[test]
fn encode_items_keeps_order_and_count() {
    let written = encode_items(&vec![pear(), apple(), pear()]);
    let array = written.as_array().unwrap();
    assert_eq!(array.len(), 3);
    assert_eq!(array[0]["item_id"].as_str(), Some("p2"));
    assert_eq!(array[1]["item_id"].as_str(), Some("p1"));
    assert_eq!(array[2]["item_id"].as_str(), Some("p2"));
    assert_eq!(encode_items(&Vec::new()), Value::Array(Vec::new()));
}

#[test]
fn encode_catalog_writes_one_member_for_each_category() {
    let mut catalog = ItemsByCategory::new();
    catalog.insert(String::from("produce"), vec![apple(), pear()]);
    catalog.insert(String::from("dairy"), Vec::new());
    let written = encode_catalog(&catalog);
    let object = written.as_object().unwrap();
    assert_eq!(object.len(), 2);
    assert_eq!(object["produce"], Value::Array(vec![encode_item(&apple()), encode_item(&pear())]));
    assert_eq!(object["dairy"], Value::Array(Vec::new()));
}

#[test]
fn encode_catalog_of_empty_catalog() {
    assert_eq!(encode_catalog(&ItemsByCategory::new()), Value::Object(serde_json::Map::new()));
}

#[test]
fn item_round_trip_on_values() {
    for item in [apple(), pear()] {
        assert_eq!(decode_item(&encode_item(&item)), Ok(item));
    }
}

#[test]
fn nutrition_round_trip_on_values() {
    let nutrition = pear().nutrition;
    assert_eq!(decode_nutrition(&encode_nutrition(&nutrition)), Ok(nutrition));
}

#[test]
fn items_round_trip_on_values() {
    let items = vec![pear(), apple()];
    assert_eq!(decode_items(&encode_items(&items)), Ok(items));
}

#[test]
fn catalog_round_trip_on_values() {
    let mut catalog = ItemsByCategory::new();
    catalog.insert(String::from("produce"), vec![apple(), pear()]);
    catalog.insert(String::from("dairy"), Vec::new());
    catalog.insert(String::from("odd \"name\"\n"), vec![pear()]);
    let again = decode_catalog(&encode_catalog(&catalog)).unwrap();
    assert_eq!(again.groups().len(), 3);
    for (name, items) in catalog.groups() {
        assert_eq!(again.get(name), Some(items));
    }
}

#[test]
fn document_round_trip_keeps_shape() {
    let text = format!(
        "{{\"b\":[{},{}],\"a\":[],\"c\":[{}]}}",
        APPLE,
        APPLE.replace("p1", "p2"),
        APPLE.replace("p1", "p3")
    );
    let read = value(&text);
    let written = encode_catalog(&decode_catalog(&read).unwrap());
    assert_eq!(written, read);
}
