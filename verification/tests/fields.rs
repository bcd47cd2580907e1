use elastic_string_mapping::strings::{str_eq, str_order, Order};
use elastic_string_mapping::{
    ElasticCompletionFieldMapping, ElasticStringField, KeywordFieldMapping, MultiFieldMap,
    TextFieldMapping,
};

fn names(map: &MultiFieldMap) -> Vec<&'static str> {
    let mut names = Vec::new();
    let mut index = 0;
    while let Some(subfield) = map.subfield(index) {
        names.push(subfield.name);
        index += 1;
    }
    names
}

fn keyword(ignore_above: u32) -> ElasticStringField {
    ElasticStringField::Keyword(KeywordFieldMapping {
        ignore_above: Some(ignore_above),
        ..Default::default()
    })
}

fn ignore_above(field: Option<ElasticStringField>) -> Option<u32> {
    match field {
        Some(ElasticStringField::Keyword(mapping)) => mapping.ignore_above,
        _ => None,
    }
}

#[test]
fn empty_map_has_no_subfield() {
    let map = MultiFieldMap::new();
    assert_eq!(map.len(), 0);
    assert!(map.subfield(0).is_none());
    assert!(map.get("keyword").is_none());
    assert!(map.get("").is_none());
}

#[test]
fn subfields_are_held_in_the_order_of_their_names() {
    let mut map = MultiFieldMap::new();
    assert!(map.insert("raw", keyword(1)).is_none());
    assert!(map.insert("keyword", keyword(2)).is_none());
    assert!(map.insert("suggest", ElasticStringField::Completion(Default::default())).is_none());
    assert!(map.insert("analysed", ElasticStringField::Text(Default::default())).is_none());
    assert!(map.insert("raw_2", keyword(3)).is_none());
    assert_eq!(names(&map), vec!["analysed", "keyword", "raw", "raw_2", "suggest"]);
    assert_eq!(map.len(), 5);
    assert_eq!(ignore_above(map.get("raw")), Some(1));
    assert_eq!(ignore_above(map.get("keyword")), Some(2));
    assert_eq!(ignore_above(map.get("raw_2")), Some(3));
    assert!(matches!(map.get("suggest"), Some(ElasticStringField::Completion(_))));
    assert!(matches!(map.get("analysed"), Some(ElasticStringField::Text(_))));
    assert!(map.get("ra").is_none());
    assert!(map.get("raw_").is_none());
    assert!(map.get("zzz").is_none());
}

#[test]
fn a_name_is_held_once() {
    let mut map = MultiFieldMap::new();
    assert!(map.insert("keyword", keyword(256)).is_none());
    assert!(map.insert("count", ElasticStringField::TokenCount(Default::default())).is_none());
    let previous = map.insert("keyword", keyword(512));
    assert_eq!(ignore_above(previous), Some(256));
    assert_eq!(map.len(), 2);
    assert_eq!(names(&map), vec!["count", "keyword"]);
    assert_eq!(ignore_above(map.get("keyword")), Some(512));

    let replaced = map.insert(
        "count",
        ElasticStringField::Completion(ElasticCompletionFieldMapping {
            max_input_length: Some(10),
            ..Default::default()
        }),
    );
    assert!(matches!(replaced, Some(ElasticStringField::TokenCount(_))));
    assert!(matches!(map.get("count"), Some(ElasticStringField::Completion(_))));
    assert_eq!(map.len(), 2);
}

#[test]
fn a_copy_of_a_map_holds_the_same_subfields() {
    let mut map = MultiFieldMap::new();
    map.insert("b", keyword(2));
    map.insert("a", keyword(1));
    let copy = map.clone();
    map.insert("c", ElasticStringField::Text(TextFieldMapping::default()));
    assert_eq!(names(&copy), vec!["a", "b"]);
    assert_eq!(names(&map), vec!["a", "b", "c"]);
    assert_eq!(ignore_above(copy.get("a")), Some(1));
}

#[test]
fn names_are_ordered_as_rust_orders_strings() {
    let mut map = MultiFieldMap::new();
    let given = ["b", "", "a", "ab", "B", "é", "z", "a\u{10000}", "a\u{ffff}", "_", "10", "9"];
    for name in given {
        map.insert(name, keyword(0));
    }
    let mut expected = given.to_vec();
    expected.sort();
    assert_eq!(names(&map), expected);
}

#[test]
fn order_of_texts() {
    assert_eq!(str_order("", ""), Order::Same);
    assert_eq!(str_order("", "a"), Order::Before);
    assert_eq!(str_order("a", ""), Order::After);
    assert_eq!(str_order("abc", "abd"), Order::Before);
    assert_eq!(str_order("abd", "abc"), Order::After);
    assert_eq!(str_order("abc", "abc"), Order::Same);
    assert_eq!(str_order("ab", "abc"), Order::Before);
    assert_eq!(str_order("abc", "ab"), Order::After);
    assert_eq!(str_order("Z", "a"), Order::Before);
    assert_eq!(str_order("z", "é"), Order::Before);
    assert_eq!(str_order("\u{ffff}", "\u{10000}"), Order::Before);
    let samples = ["", "a", "ab", "b", "é", "日本", "keyword", "keywords", "\u{10ffff}"];
    for a in samples {
        for b in samples {
            let expected = match a.cmp(b) {
                std::cmp::Ordering::Less => Order::Before,
                std::cmp::Ordering::Equal => Order::Same,
                std::cmp::Ordering::Greater => Order::After,
            };
            assert_eq!(str_order(a, b), expected);
        }
    }
}

#[test]
fn equality_of_texts() {
    assert!(str_eq("", ""));
    assert!(str_eq("type", "type"));
    assert!(!str_eq("type", "typo"));
    assert!(!str_eq("type", "types"));
    assert!(!str_eq("types", "type"));
    assert!(!str_eq("", "a"));
    assert!(str_eq("é", "\u{e9}"));
    assert!(!str_eq("e\u{301}", "\u{e9}"));
    let owned = String::from("key") + "word";
    assert!(str_eq(&owned, "keyword"));
}
