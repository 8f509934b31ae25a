//! Tests of the search feature: substring and id matching, limits,
//! the line-oriented source parser, and category listing.

use gmhandbook::gm::{Category, GmError, GmhandbookElement, NameUnion};
use gmhandbook::search::{find, get_category, parse_txt_file};

fn entry(id: i64, names: Vec<(&str, &str)>, category: Category) -> GmhandbookElement {
    GmhandbookElement {
        id,
        name: NameUnion::Description(
            names.into_iter().map(|(k, v)| (k.to_string(), v.to_string())).collect(),
        ),
        description: None,
        image: None,
        category,
        rarity: None,
        commands: None,
        icon: None,
        gmhandbook_type: None,
    }
}

fn sample() -> Vec<GmhandbookElement> {
    vec![
        entry(
            10000007,
            vec![("EN", "Traveler"), ("FR", "Voyageur"), ("JP", "Tabibito")],
            Category::Characters,
        ),
        entry(112012, vec![("EN", "Wanderer's Advice"), ("FR", "Conseil")], Category::Materials),
        entry(
            10000021,
            vec![("EN", "Amber"), ("FR", "Ambre")],
            Category::Characters,
        ),
    ]
}

#[test]
fn find_matches_case_insensitively_on_the_selected_language() {
    let handbook = sample();
    let hits = find(&handbook, "TRAVEL", "en", None).unwrap();
    assert_eq!(hits.len(), 1);
    assert_eq!(hits[0].id, 10000007);

    let hits = find(&handbook, "voyag", "fr", None).unwrap();
    assert_eq!(hits.len(), 1);
    assert_eq!(hits[0].id, 10000007);

    // The language token table sends "jp" to the JP names.
    let hits = find(&handbook, "tabibito", "jp", None).unwrap();
    assert_eq!(hits.len(), 1);

    // An unknown language token falls back to the default names.
    let hits = find(&handbook, "amber", "zz", None).unwrap();
    assert_eq!(hits.len(), 1);
    assert_eq!(hits[0].id, 10000021);
}

#[test]
fn find_matches_exact_id_under_default_language() {
    let handbook = sample();
    let hits = find(&handbook, "10000021", "en", None).unwrap();
    assert_eq!(hits.len(), 1);
    assert_eq!(hits[0].id, 10000021);
    // Under another language the id text is not consulted.
    let hits = find(&handbook, "10000021", "fr", None).unwrap();
    assert_eq!(hits.len(), 0);
}

#[test]
fn find_honours_the_limit_and_order() {
    let handbook = sample();
    let hits = find(&handbook, "r", "en", None).unwrap();
    assert_eq!(hits.len(), 3);
    assert_eq!(hits[0].id, 10000007);
    let hits = find(&handbook, "r", "en", Some(2)).unwrap();
    assert_eq!(hits.len(), 2);
    let hits = find(&handbook, "r", "en", Some(-1)).unwrap();
    assert_eq!(hits.len(), 3);
}

#[test]
fn find_rejects_an_empty_query() {
    let handbook = sample();
    let e = find(&handbook, "", "en", None).unwrap_err();
    assert!(matches!(e, GmError::EmptySearchTerm));
    assert_eq!(e.message(), "Search term cannot be empty");
}

#[test]
fn parse_txt_file_reads_categories_and_entries() {
    let content = "# Characters\n10000007: Traveler\n\n// Materials\n112012: Wanderer's Advice\r\nnot a data line\nbad-id: Thing\n";
    let entries = parse_txt_file(content);
    assert_eq!(entries.len(), 3);
    assert_eq!(entries[0].id, 10000007);
    assert_eq!(entries[0].name, NameUnion::String("Traveler".to_string()));
    assert_eq!(entries[0].category, Category::Characters);
    assert_eq!(entries[1].id, 112012);
    assert_eq!(entries[1].name, NameUnion::String("Wanderer's Advice".to_string()));
    assert_eq!(entries[1].category, Category::Materials);
    // A line whose id does not parse keeps the default zero id.
    assert_eq!(entries[2].id, 0);
    assert_eq!(entries[2].name, NameUnion::String("Thing".to_string()));
}

#[test]
fn parse_txt_file_unknown_category_is_unknown() {
    let entries = parse_txt_file("# Things\n5: A thing\n");
    assert_eq!(entries.len(), 1);
    assert_eq!(entries[0].category, Category::Unknown);
}

#[test]
fn get_category_lists_each_name_once() {
    let handbook = sample();
    let names = get_category(&handbook);
    assert_eq!(names, vec!["Characters".to_string(), "Materials".to_string()]);
}
