//! Tests of the command synthesizer: exact slot keys, display names
//! and command texts per category and game.

use gmhandbook::commands::{generate_command, CommandMap, GameType};
use gmhandbook::handbook::{Category, Commands};

fn slot(slots: &Vec<(String, Commands)>, i: usize, key: &str, name: &str, command: &str) {
    assert_eq!(slots[i].0, key);
    assert_eq!(slots[i].1.name, name);
    assert_eq!(slots[i].1.command, command);
}

#[test]
fn test_generate_command() {
    // Characters
    let character_commands =
        generate_command(Category::Characters, 10000007, "/give", GameType::GenshinImpact);
    match character_commands {
        CommandMap::GenshinImpact { gc, gio } => {
            assert_eq!(gc.len(), 5);
            slot(&gc, 0, "command_1", "Normal", "/give 10000007");
            slot(&gc, 1, "command_2", "With Level", "/give 10000007 lv<level>");
            slot(&gc, 2, "command_3", "With Constellation", "/give 10000007 c<constellation>");
            slot(&gc, 3, "command_4", "With Skill Level", "/give 10000007 sl<SkillLevel>");
            slot(
                &gc,
                4,
                "command_5",
                "With Level, Constellation, and Skill Level",
                "/give 10000007 lv<level> c<constellation> sl<SkillLevel>",
            );
            assert_eq!(gio.len(), 1);
            slot(&gio, 0, "command_1", "Normal", "avatar add 10000007");
        }
        CommandMap::HonkaiStarRail(_) => panic!("wrong game kind"),
    }

    // Materials
    let material_commands =
        generate_command(Category::Materials, 123, "/give", GameType::GenshinImpact);
    match material_commands {
        CommandMap::GenshinImpact { gc, gio } => {
            assert_eq!(gc.len(), 2);
            slot(&gc, 0, "command_1", "Normal", "/give 123");
            slot(&gc, 1, "command_2", "With Amount", "/give 123 x<amount>");
            assert_eq!(gio.len(), 2);
            slot(&gio, 0, "command_1", "Normal", "item add 123");
            slot(&gio, 1, "command_2", "With Amount", "item add 123 <amount>");
        }
        CommandMap::HonkaiStarRail(_) => panic!("wrong game kind"),
    }

    // Weapons: the refinement slot comes third, the amount slot fourth.
    let weapon_commands =
        generate_command(Category::Weapons, 456, "/give", GameType::GenshinImpact);
    match weapon_commands {
        CommandMap::GenshinImpact { gc, gio } => {
            assert_eq!(gc.len(), 5);
            slot(&gc, 0, "command_1", "Normal", "/give 456");
            slot(&gc, 1, "command_2", "With Level", "/give 456 lv<level>");
            slot(&gc, 2, "command_3", "With Refinement", "/give 456 r<refinement>");
            slot(&gc, 3, "command_4", "With Amount", "/give 456 x<amount>");
            slot(
                &gc,
                4,
                "command_5",
                "With Level, Refinement, and Amount",
                "/give 456 lv<level> r<refinement> x<amount>",
            );
            assert_eq!(gio.len(), 2);
            slot(&gio, 0, "command_1", "Normal", "item add 456");
            slot(&gio, 1, "command_2", "With Amount", "item add 456 <amount>");
        }
        CommandMap::HonkaiStarRail(_) => panic!("wrong game kind"),
    }

    // Artifacts share the weapon template.
    let artifact_commands =
        generate_command(Category::Artifacts, 789, "/give", GameType::GenshinImpact);
    match artifact_commands {
        CommandMap::GenshinImpact { gc, gio } => {
            assert_eq!(gc.len(), 5);
            slot(&gc, 0, "command_1", "Normal", "/give 789");
            slot(&gc, 1, "command_2", "With Level", "/give 789 lv<level>");
            slot(&gc, 2, "command_3", "With Refinement", "/give 789 r<refinement>");
            slot(&gc, 3, "command_4", "With Amount", "/give 789 x<amount>");
            slot(
                &gc,
                4,
                "command_5",
                "With Level, Refinement, and Amount",
                "/give 789 lv<level> r<refinement> x<amount>",
            );
            assert_eq!(gio.len(), 2);
            slot(&gio, 0, "command_1", "Normal", "item add 789");
            slot(&gio, 1, "command_2", "With Amount", "item add 789 <amount>");
        }
        CommandMap::HonkaiStarRail(_) => panic!("wrong game kind"),
    }

    // Achievements
    let achievement_commands =
        generate_command(Category::Achievements, 1000, "/am grant", GameType::GenshinImpact);
    match achievement_commands {
        CommandMap::GenshinImpact { gc, gio } => {
            assert_eq!(gc.len(), 1);
            slot(&gc, 0, "command_1", "Normal", "/am grant 1000");
            assert_eq!(gio.len(), 1);
            slot(
                &gio,
                0,
                "command_1",
                "Not Available",
                "This category is not available for GIO",
            );
        }
        CommandMap::HonkaiStarRail(_) => panic!("wrong game kind"),
    }

    // Quests
    let quests_commands = generate_command(Category::Quests, 1, "/q", GameType::GenshinImpact);
    match quests_commands {
        CommandMap::GenshinImpact { gc, gio } => {
            assert_eq!(gc.len(), 3);
            slot(&gc, 0, "command_1", "Add Quest", "/q add 1");
            slot(&gc, 1, "command_2", "Remove Quest", "/q remove 1");
            slot(&gc, 2, "command_3", "Start Quest", "/q start 1");
            assert_eq!(gio.len(), 3);
            slot(&gio, 0, "command_1", "Add Quest", "quest add 1");
            slot(&gio, 1, "command_2", "Accept Quest", "quest accept 1");
            slot(&gio, 2, "command_3", "Finish Quest", "quest finish 1");
        }
        CommandMap::HonkaiStarRail(_) => panic!("wrong game kind"),
    }

    // Dungeons
    let dungeons_commands = generate_command(Category::Dungeons, 1, "/tp", GameType::GenshinImpact);
    match dungeons_commands {
        CommandMap::GenshinImpact { gc, gio } => {
            assert_eq!(gc.len(), 1);
            slot(&gc, 0, "command_1", "Normal", "/tp 0 0 0 1");
            assert_eq!(gio.len(), 1);
            slot(
                &gio,
                0,
                "command_1",
                "Not Available",
                "This category is not available for GIO",
            );
        }
        CommandMap::HonkaiStarRail(_) => panic!("wrong game kind"),
    }

    // Scenes
    let scenes_commands = generate_command(Category::Scenes, 20, "/tp", GameType::GenshinImpact);
    match scenes_commands {
        CommandMap::GenshinImpact { gc, gio } => {
            assert_eq!(gc.len(), 1);
            slot(&gc, 0, "command_1", "Normal", "/tp 0 0 0 20");
            assert_eq!(gio.len(), 1);
            slot(
                &gio,
                0,
                "command_1",
                "Not Available",
                "This category is not available for GIO",
            );
        }
        CommandMap::HonkaiStarRail(_) => panic!("wrong game kind"),
    }

    // Monsters
    let monsters_command =
        generate_command(Category::Monsters, 2000, "/spawn", GameType::GenshinImpact);
    match monsters_command {
        CommandMap::GenshinImpact { gc, gio } => {
            assert_eq!(gc.len(), 5);
            slot(&gc, 0, "command_1", "Normal", "/spawn 2000");
            slot(&gc, 1, "command_2", "With Custom HP", "/spawn 2000 hp<HealthPoint>");
            slot(&gc, 2, "command_3", "With Custom Level", "/spawn 2000 lv<level>");
            slot(&gc, 3, "command_4", "With Amount", "/spawn 2000 x<amount>");
            slot(
                &gc,
                4,
                "command_5",
                "With Custom HP, Level, and Amount",
                "/spawn 2000 hp<HealthPoint> lv<level> x<amount>",
            );
            assert_eq!(gio.len(), 1);
            slot(
                &gio,
                0,
                "command_1",
                "Not Available",
                "This category is not available for GIO",
            );
        }
        CommandMap::HonkaiStarRail(_) => panic!("wrong game kind"),
    }
}

#[test]
fn test_generate_command_star_rail() {
    let commands = generate_command(Category::Characters, 1102, "/give", GameType::HonkaiStarRail);
    match commands {
        CommandMap::HonkaiStarRail(slots) => {
            assert_eq!(slots.len(), 5);
            slot(&slots, 0, "command_1", "Normal", "/give 1102");
            slot(&slots, 1, "command_2", "With Level", "/give 1102 lv<level>");
            slot(&slots, 2, "command_3", "With Skill Level", "/give 1102 sl<SkillLevel>");
            slot(&slots, 3, "command_4", "With Eidolon", "/give 1102 r<eidolon>");
            slot(
                &slots,
                4,
                "command_5",
                "With Level, Skill Level, and Eidolon",
                "/give 1102 lv<level> sl<SkillLevel> r<eidolon>",
            );
        }
        CommandMap::GenshinImpact { .. } => panic!("wrong game kind"),
    }
    let relic = generate_command(Category::Relics, 61011, "/give", GameType::HonkaiStarRail);
    match relic {
        CommandMap::HonkaiStarRail(slots) => {
            assert_eq!(slots.len(), 2);
            slot(&slots, 0, "command_1", "Normal", "/give 61011");
            slot(&slots, 1, "command_2", "With Level", "/give 61011 lv<level>");
        }
        CommandMap::GenshinImpact { .. } => panic!("wrong game kind"),
    }
    let unsupported = generate_command(Category::Dungeons, 7, "/tp", GameType::HonkaiStarRail);
    match unsupported {
        CommandMap::HonkaiStarRail(slots) => {
            assert_eq!(slots.len(), 1);
            slot(
                &slots,
                0,
                "command_1",
                "Not Available",
                "This category is not available for Star Rail",
            );
        }
        CommandMap::GenshinImpact { .. } => panic!("wrong game kind"),
    }
}

#[test]
fn scene_and_dungeon_commands_collapse_to_transport() {
    for id in [1u32, 20, 4001] {
        for category in [Category::Dungeons, Category::Scenes] {
            let commands = generate_command(category, id, "/tp", GameType::GenshinImpact);
            match commands {
                CommandMap::GenshinImpact { gc, .. } => {
                    for (_, variant) in &gc {
                        assert_eq!(variant.command, format!("/tp 0 0 0 {}", id));
                    }
                }
                CommandMap::HonkaiStarRail(_) => panic!("wrong game kind"),
            }
        }
    }
}

#[test]
fn synthesize_is_stable_across_calls() {
    let a = generate_command(Category::Weapons, 456, "/give", GameType::GenshinImpact);
    let b = generate_command(Category::Weapons, 456, "/give", GameType::GenshinImpact);
    assert_eq!(a, b);
}
