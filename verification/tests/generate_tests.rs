//! Tests of the generation pipeline: reading raw tables, merging
//! across languages, filtering, selection validation, and one
//! end-to-end materials run.

use gmhandbook::commands::{generate_command, CommandMap, GameType};
use gmhandbook::generate::characters::{generate_character, CharacterData};
use gmhandbook::generate::materials::{generate_materials, MaterialData};
use gmhandbook::generate::monsters::generate_monsters;
use gmhandbook::generate::output::ResultData;
use gmhandbook::generate::scenes::generate_scenes;
use gmhandbook::generate::{
    materials_from_genshin, materials_from_star_rail, monsters_from_genshin, parse_selections,
    plan_handbook, GameExcelReader, GenshinImpactExcelReader, SelectHandbookArgs,
};
use gmhandbook::gi::materials::Material;
use gmhandbook::sr::items::Items;
use gmhandbook::gi::monsters::{Monster as GIMonster, MonsterDescribeElement};
use gmhandbook::gi::scenes::{Scene, SceneType};
use gmhandbook::handbook::{Category, Language};
use gmhandbook::utility::parse_text_map;

fn material_record(id: i64, rank: i64, name_hash: i64, desc_hash: i64) -> MaterialData {
    MaterialData {
        rarity: Some(rank),
        id,
        name: name_hash,
        description: desc_hash,
        icon: format!("Icon{}", id),
        category: Category::Materials,
        commands: generate_command(Category::Materials, id as u32, "/give", GameType::GenshinImpact),
    }
}

#[test]
fn merge_is_idempotent() {
    let tm = parse_text_map("{\"100\": \"Iron\", \"200\": \"Some iron.\"}").unwrap();
    let data = vec![material_record(1, 4, 100, 200)];
    let images = vec!["url1".to_string()];

    let mut once: Vec<ResultData> = Vec::new();
    generate_materials(&data, &images, &Language::EN, &tm, &mut once);

    let mut twice: Vec<ResultData> = Vec::new();
    generate_materials(&data, &images, &Language::EN, &tm, &mut twice);
    generate_materials(&data, &images, &Language::EN, &tm, &mut twice);

    assert_eq!(once.len(), 1);
    assert_eq!(once, twice);
}

#[test]
fn cross_language_union_yields_one_entry() {
    let tm_en = parse_text_map("{\"100\": \"Iron\", \"200\": \"Some iron.\"}").unwrap();
    let tm_fr = parse_text_map("{\"100\": \"Fer\", \"200\": \"Du fer.\"}").unwrap();
    let data = vec![material_record(1, 4, 100, 200)];
    let images = vec!["url1".to_string()];

    let mut result: Vec<ResultData> = Vec::new();
    generate_materials(&data, &images, &Language::EN, &tm_en, &mut result);
    generate_materials(&data, &images, &Language::FR, &tm_fr, &mut result);

    assert_eq!(result.len(), 1);
    match &result[0] {
        ResultData::Materials(m) => {
            assert_eq!(m.id, 1);
            assert_eq!(
                m.name,
                vec![
                    (Language::EN, "Iron".to_string()),
                    (Language::FR, "Fer".to_string())
                ]
            );
            assert_eq!(
                m.description,
                vec![
                    (Language::EN, "Some iron.".to_string()),
                    (Language::FR, "Du fer.".to_string())
                ]
            );
            // Commands and image were computed once and kept.
            assert_eq!(m.image, "url1");
        }
        _ => panic!("wrong entry kind"),
    }
}

fn character_record(id: i64, name_hash: i64) -> CharacterData {
    CharacterData {
        id,
        name: name_hash,
        description: None,
        rarity: 5,
        icon: "AvatarIcon".to_string(),
        category: Category::Characters,
        commands: generate_command(
            Category::Characters,
            id as u32,
            "/give",
            GameType::GenshinImpact,
        ),
    }
}

#[test]
fn character_filter_excludes_placeholder_and_template_ids() {
    let tm = parse_text_map("{\"100\": \"Hero\"}").unwrap();
    let data = vec![
        character_record(10000001, 100),
        character_record(11000001, 100),
        character_record(10000007, 100),
    ];
    let images = vec!["u".to_string(), "u".to_string(), "u".to_string()];
    let mut result: Vec<ResultData> = Vec::new();
    let count = generate_character(&data, &images, &Language::EN, &tm, &mut result);
    // Only the third record survives the filter; the count covers the
    // filter-passing records.
    assert_eq!(count, 1);
    assert_eq!(result.len(), 1);
    match &result[0] {
        ResultData::Characters(c) => assert_eq!(c.id, 10000007),
        _ => panic!("wrong entry kind"),
    }
}

#[test]
fn character_without_resolved_name_is_skipped() {
    let tm = parse_text_map("{}").unwrap();
    let data = vec![character_record(10000007, 100)];
    let images = vec!["u".to_string()];
    let mut result: Vec<ResultData> = Vec::new();
    let count = generate_character(&data, &images, &Language::EN, &tm, &mut result);
    assert_eq!(count, 1);
    assert_eq!(result.len(), 0);
}

#[test]
fn character_with_empty_resolved_name_is_skipped() {
    // The hash resolves, but to the empty string: the record counts as
    // not yet released and is skipped, like a miss.
    let tm = parse_text_map("{\"100\": \"\"}").unwrap();
    let data = vec![character_record(10000007, 100)];
    let images = vec!["u".to_string()];
    let mut result: Vec<ResultData> = Vec::new();
    let count = generate_character(&data, &images, &Language::EN, &tm, &mut result);
    assert_eq!(count, 1);
    assert_eq!(result.len(), 0);
}

#[test]
fn test_unknown_selection_rejected() {
    let r = parse_selections::<SelectHandbookArgs>(&Some(vec!["not-a-category".to_string()]));
    let err = r.unwrap_err();
    assert!(err.contains("Invalid selections: not-a-category"));
    assert!(err.contains("Available selections are: "));
    assert!(err.contains("characters"));

    let plan = plan_handbook(
        "genshin-impact",
        &Some(vec!["not-a-category".to_string()]),
        &None,
    );
    assert!(plan.is_err());
}

#[test]
fn selections_default_to_all_and_keep_canonical_order() {
    let all = parse_selections::<SelectHandbookArgs>(&None).unwrap();
    assert_eq!(all.len(), 9);
    let plan = plan_handbook(
        "genshin-impact",
        &Some(vec!["monsters".to_string(), "CHARACTERS".to_string()]),
        &Some(vec!["fr".to_string(), "EN".to_string()]),
    )
    .unwrap();
    assert_eq!(plan.game, GameType::GenshinImpact);
    // Categories come back in the fixed canonical order.
    assert_eq!(
        plan.categories,
        vec![SelectHandbookArgs::Characters, SelectHandbookArgs::Monsters]
    );
    // Languages keep the order given.
    assert_eq!(plan.languages, vec![Language::FR, Language::EN]);

    assert!(plan_handbook("some-other-game", &None, &None).is_err());
}

#[test]
fn three_records_materials_end_to_end() {
    let excel = "[\
        {\"rankLevel\": 4, \"id\": 1, \"nameTextMapHash\": 100, \"descTextMapHash\": 200, \"icon\": \"IconA\"},\
        {\"rankLevel\": 5, \"id\": 2, \"nameTextMapHash\": 101, \"descTextMapHash\": 201, \"icon\": \"IconB\"}\
    ]";
    let text_map = "{\"100\": \"Apple\", \"101\": \"Pear\", \"200\": \"A fruit.\", \"201\": \"Another fruit.\"}";

    let reader = GameExcelReader::GenshinImpact(GenshinImpactExcelReader);
    let rows: Vec<Material> = reader.read_excel_data(excel).unwrap();
    assert_eq!(rows.len(), 2);
    let data = materials_from_genshin(&rows);
    let images = vec!["urlA".to_string(), "urlB".to_string()];
    let tm = parse_text_map(text_map).unwrap();

    let mut result: Vec<ResultData> = Vec::new();
    let count = generate_materials(&data, &images, &Language::EN, &tm, &mut result);
    assert_eq!(count, 2);
    assert_eq!(result.len(), 2);

    for (i, (id, rank, name, url)) in
        [(1i64, 4i64, "Apple", "urlA"), (2, 5, "Pear", "urlB")].iter().enumerate()
    {
        match &result[i] {
            ResultData::Materials(m) => {
                assert_eq!(m.id, *id);
                assert_eq!(m.rarity, Some(*rank));
                assert_eq!(m.name, vec![(Language::EN, name.to_string())]);
                assert_eq!(m.image, *url);
                match &m.commands {
                    CommandMap::GenshinImpact { gc, .. } => {
                        assert_eq!(gc[0].0, "command_1");
                        assert_eq!(gc[0].1.command, format!("/give {}", id));
                    }
                    CommandMap::HonkaiStarRail(_) => panic!("wrong game kind"),
                }
            }
            _ => panic!("wrong entry kind"),
        }
    }
}

#[test]
fn malformed_table_fails_whole_read() {
    let reader = GameExcelReader::GenshinImpact(GenshinImpactExcelReader);
    // Second record lacks the icon field: the whole table is rejected.
    let excel = "[\
        {\"rankLevel\": 4, \"id\": 1, \"nameTextMapHash\": 100, \"descTextMapHash\": 200, \"icon\": \"A\"},\
        {\"rankLevel\": 5, \"id\": 2, \"nameTextMapHash\": 101, \"descTextMapHash\": 201}\
    ]";
    let r: Result<Vec<Material>, _> = reader.read_excel_data(excel);
    assert!(r.is_err());
    let r: Result<Vec<Material>, _> = reader.read_excel_data("not json at all");
    assert!(r.is_err());
}

#[test]
fn monsters_join_describe_table() {
    let monsters = vec![
        GIMonster { describe_id: Some(10), id: 20010101 },
        GIMonster { describe_id: None, id: 20010102 },
    ];
    let describe = vec![MonsterDescribeElement {
        id: 10,
        name_text_map_hash: 900,
        icon: "MonsterIcon".to_string(),
    }];
    let data = monsters_from_genshin(&monsters, &describe);
    assert_eq!(data[0].name, 900);
    assert_eq!(data[0].icon, Some("MonsterIcon".to_string()));
    assert_eq!(data[1].name, 0);
    assert_eq!(data[1].icon, None);

    let tm = parse_text_map("{\"900\": \"Slime\"}").unwrap();
    let images = vec![Some("m-url".to_string()), None];
    let mut result: Vec<ResultData> = Vec::new();
    let count = generate_monsters(&data, &images, &Language::EN, &tm, &mut result);
    // The record whose join found nothing is kept with an empty name,
    // never dropped.
    assert_eq!(count, 2);
    assert_eq!(result.len(), 2);
    match &result[0] {
        ResultData::Monsters(m) => {
            assert_eq!(m.id, 20010101);
            assert_eq!(m.name, vec![(Language::EN, "Slime".to_string())]);
            assert_eq!(m.image, Some("m-url".to_string()));
        }
        _ => panic!("wrong entry kind"),
    }
    match &result[1] {
        ResultData::Monsters(m) => {
            assert_eq!(m.id, 20010102);
            assert_eq!(m.name, vec![(Language::EN, "".to_string())]);
            assert_eq!(m.image, None);
        }
        _ => panic!("wrong entry kind"),
    }
}

#[test]
fn scenes_appear_once_across_languages() {
    let data = vec![Scene {
        id: 3,
        scene_type: SceneType::World,
        script_data: "BigWorld".to_string(),
    }];
    let mut result: Vec<ResultData> = Vec::new();
    generate_scenes(&data, &Language::EN, &mut result);
    generate_scenes(&data, &Language::FR, &mut result);
    assert_eq!(result.len(), 1);
    match &result[0] {
        ResultData::Scenes(s) => {
            assert_eq!(s.id, 3);
            assert_eq!(s.name, "BigWorld");
            assert_eq!(s.scene_type, SceneType::World);
            match &s.commands {
                CommandMap::GenshinImpact { gc, .. } => {
                    assert_eq!(gc[0].1.command, "/tp 0 0 0 3");
                }
                CommandMap::HonkaiStarRail(_) => panic!("wrong game kind"),
            }
        }
        _ => panic!("wrong entry kind"),
    }
}

#[test]
fn star_rail_items_strip_icon_prefix_and_keep_their_own_category() {
    let excel = "[{\"ID\": 101, \"Rarity\": \"VeryRare\", \"ItemName\": {\"Hash\": 300}, \"ItemDesc\": {\"Hash\": 301}, \"ItemIconPath\": \"SpriteOutput/ItemIcon/IconCredit.png\"}]";
    let reader = GameExcelReader::StarRail(gmhandbook::generate::StarRailExcelReader);
    let rows: Vec<Items> = reader.read_excel_data(excel).unwrap();
    let data = materials_from_star_rail(&rows);
    assert_eq!(data[0].id, 101);
    assert_eq!(data[0].rarity, Some(4));
    assert_eq!(data[0].icon, "IconCredit.png");
    assert_eq!(data[0].category, Category::Items);

    let tm = parse_text_map("{\"300\": \"Credit\"}").unwrap();
    let images = vec!["url".to_string()];
    let mut result: Vec<ResultData> = Vec::new();
    generate_materials(&data, &images, &Language::EN, &tm, &mut result);
    match &result[0] {
        ResultData::Materials(m) => {
            // The entry keeps the second game's own category field but
            // merges under the material tag.
            assert_eq!(m.category, Category::Items);
            match &m.commands {
                CommandMap::HonkaiStarRail(slots) => {
                    // The other game's console has no item verbs; the
                    // synthesizer's table yields its placeholder entry.
                    assert_eq!(slots[0].1.name, "Not Available");
                    assert_eq!(
                        slots[0].1.command,
                        "This category is not available for Star Rail"
                    );
                }
                CommandMap::GenshinImpact { .. } => panic!("wrong game kind"),
            }
        }
        _ => panic!("wrong entry kind"),
    }
}

#[test]
fn every_language_token_round_trips() {
    let all = [
        Language::EN,
        Language::FR,
        Language::ID,
        Language::JP,
        Language::RU,
        Language::TH,
        Language::Chs,
        Language::Cht,
        Language::DE,
        Language::ES,
        Language::IT,
        Language::KR,
        Language::PT,
        Language::TR,
        Language::VI,
    ];
    for l in all {
        assert_eq!(Language::from_str(&l.code()), Ok(l));
    }
}

#[test]
fn language_tokens_parse_ignoring_case() {
    assert_eq!(Language::from_str("EN"), Ok(Language::EN));
    assert_eq!(Language::from_str("chs"), Ok(Language::Chs));
    assert_eq!(Language::from_str("Cht"), Ok(Language::Cht));
    assert_eq!(Language::from_str("de"), Ok(Language::DE));
    assert_eq!(
        Language::from_str("xx"),
        Err("Unsupported language: xx".to_string())
    );
    assert_eq!(Language::EN.text_map_file_name(), "TextMapEN.json");
    assert_eq!(Language::Chs.text_map_file_name(), "TextMapCHS.json");
}
