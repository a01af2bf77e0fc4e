use item_catalog::error::CatalogError;
use item_catalog::handlers::{load, Response};
use item_catalog::models::{Item, ItemsByCategory, Nutrition};
use item_catalog::validate::validate;
use serde_json::Number;

fn item(id: &str, category: &str) -> Item {
    Item {
        item_id: String::from(id),
        name: String::from("Oats"),
        store: String::from("C"),
        unit: String::from("lb"),
        price: Number::from_f64(2.5).unwrap(),
        serving_size_g: Number::from(40u64),
        nutrition: Nutrition {
            calories: Number::from(150u64),
            protein_g: Number::from(5u64),
            fat_g: Number::from_f64(2.5).unwrap(),
            carbs_g: Number::from(27u64),
        },
        category: String::from(category),
        price_per_gram: Number::from_f64(0.0055).unwrap(),
        price_per_serving: Number::from_f64(0.22).unwrap(),
        last_updated: String::from("2024-02-01T00:00:00Z"),
    }
}

#[test]
fn new_catalog_is_empty() {
    let catalog = ItemsByCategory::new();
    assert_eq!(catalog.groups().len(), 0);
    assert_eq!(catalog.get("produce"), None);
    assert_eq!(catalog.get(""), None);
}

#[test]
fn default_catalog_is_empty() {
    let catalog = ItemsByCategory::default();
    assert_eq!(catalog.groups().len(), 0);
}

#[test]
fn insert_then_get() {
    let mut catalog = ItemsByCategory::new();
    catalog.insert(String::from("grains"), vec![item("g1", "grains"), item("g2", "grains")]);
    catalog.insert(String::from("dairy"), vec![item("d1", "dairy")]);
    assert_eq!(catalog.get("grains"), Some(&vec![item("g1", "grains"), item("g2", "grains")]));
    assert_eq!(catalog.get("dairy"), Some(&vec![item("d1", "dairy")]));
    assert_eq!(catalog.get("Dairy"), None);
    assert_eq!(catalog.get("dair"), None);
    assert_eq!(catalog.groups().len(), 2);
}

#[test]
fn insert_replaces_the_items_of_a_category() {
    let mut catalog = ItemsByCategory::new();
    catalog.insert(String::from("grains"), vec![item("g1", "grains")]);
    catalog.insert(String::from("dairy"), vec![item("d1", "dairy")]);
    catalog.insert(String::from("grains"), vec![item("g7", "grains"), item("g8", "grains")]);
    assert_eq!(catalog.groups().len(), 2);
    assert_eq!(catalog.get("grains"), Some(&vec![item("g7", "grains"), item("g8", "grains")]));
    assert_eq!(catalog.get("dairy"), Some(&vec![item("d1", "dairy")]));
}

#[test]
fn empty_name_is_a_category_like_any_other() {
    let mut catalog = ItemsByCategory::new();
    catalog.insert(String::new(), vec![item("x", "")]);
    assert_eq!(catalog.get(""), Some(&vec![item("x", "")]));
    assert_eq!(catalog.groups().len(), 1);
}

#[test]
fn groups_list_each_category_once() {
    let mut catalog = ItemsByCategory::new();
    for name in ["a", "b", "c", "b", "a"] {
        catalog.insert(String::from(name), vec![item(name, name)]);
    }
    let mut names: Vec<&str> = catalog.groups().iter().map(|group| group.0.as_str()).collect();
    names.sort();
    assert_eq!(names, ["a", "b", "c"]);
    for (name, items) in catalog.groups() {
        assert_eq!(catalog.get(name), Some(items));
    }
}

#[test]
fn clone_holds_the_same_catalog() {
    let mut catalog = ItemsByCategory::new();
    catalog.insert(String::from("grains"), vec![item("g1", "grains"), item("g2", "grains")]);
    catalog.insert(String::from("dairy"), Vec::new());
    let copy = catalog.clone();
    catalog.insert(String::from("grains"), Vec::new());
    assert_eq!(copy.groups().len(), 2);
    assert_eq!(copy.get("grains"), Some(&vec![item("g1", "grains"), item("g2", "grains")]));
    assert_eq!(copy.get("dairy"), Some(&Vec::new()));
    assert_eq!(catalog.get("grains"), Some(&Vec::new()));
}

#[test]
fn clone_of_item_and_nutrition() {
    let oats = item("g1", "grains");
    assert_eq!(oats.clone(), oats);
    assert_eq!(oats.nutrition.clone(), oats.nutrition);
    assert_eq!(oats.clone().price.as_f64(), Some(2.5));
}

#[test]
fn clone_of_response() {
    let response =
        Response { status: 200, content_type: "application/json", body: String::from("{}") };
    assert_eq!(response.clone(), response);
}

#[test]
fn validate_accepts_agreeing_categories() {
    let mut catalog = ItemsByCategory::new();
    catalog.insert(String::from("grains"), vec![item("g1", "grains"), item("g2", "grains")]);
    catalog.insert(String::from("dairy"), vec![item("d1", "dairy")]);
    catalog.insert(String::from("empty"), Vec::new());
    assert_eq!(validate(&catalog), Ok(()));
}

#[test]
fn validate_accepts_the_empty_catalog() {
    assert_eq!(validate(&ItemsByCategory::new()), Ok(()));
}

#[test]
fn validate_rejects_an_item_in_another_category() {
    let mut catalog = ItemsByCategory::new();
    catalog.insert(String::from("grains"), vec![item("g1", "grains"), item("g2", "dairy")]);
    catalog.insert(String::from("dairy"), vec![item("d1", "dairy")]);
    assert_eq!(validate(&catalog), Err(CatalogError::MalformedData));
}

#[test]
fn validate_rejects_a_mismatch_in_the_last_category() {
    let mut catalog = ItemsByCategory::new();
    catalog.insert(String::from("grains"), vec![item("g1", "grains")]);
    catalog.insert(String::from("dairy"), vec![item("d1", "dairy"), item("d2", "Dairy")]);
    assert_eq!(validate(&catalog), Err(CatalogError::MalformedData));
}

#[test]
fn validate_after_load() {
    let agreeing = r#"{"grains":[{"item_id":"g1","name":"Oats","store":"C","unit":"lb","price":2.5,"serving_size_g":40,"nutrition":{"calories":150,"protein_g":5,"fat_g":2.5,"carbs_g":27},"category":"grains","price_per_gram":0.0055,"price_per_serving":0.22,"last_updated":"2024-02-01T00:00:00Z"}]}"#;
    assert_eq!(validate(&load(Some(agreeing)).unwrap()), Ok(()));
    let disagreeing = agreeing.replace("\"category\":\"grains\"", "\"category\":\"cereal\"");
    let catalog = load(Some(&disagreeing)).unwrap();
    assert_eq!(validate(&catalog), Err(CatalogError::MalformedData));
}
