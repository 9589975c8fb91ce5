use encounter_core::attack::{AttackKind, AttackOutcome};
use encounter_core::encounter::Encounter;
use encounter_core::import::{MonsterAbility, SrdMonster, Weapon};
use encounter_core::import::{monster_ability_to_new, srd_monster_abilities, srd_to_new_monster,
    weapon_to_ability, weapon_to_item};
use encounter_core::initiative::{InitKind, InitTraceEntry};
use encounter_core::models::{Ability, Combatant, Player};
use encounter_core::render::{describe_turn_options, join_strings, render_ability,
    render_abilities, render_attack_report, render_combatant, render_combatant_line, render_count,
    render_init_trace_line, render_item, render_monster, render_player, render_spell};
use encounter_core::text::{contains_ignore_case, eq_ignore_case, i64_to_string, str_equal,
    topic_name_ok, u64_to_string};

fn combatant(name: &str, monster_id: Option<i32>) -> Combatant {
    Combatant {
        id: 1,
        name: name.to_string(),
        initiative: 12,
        cur_hp: 7,
        max_hp: 10,
        armor_class: 14,
        attack: "1d6".to_string(),
        attack_bonus: 2,
        player_id: if monster_id.is_none() { Some(3) } else { None },
        monster_id,
    }
}

#[test]
fn numbers_render_in_decimal() {
    assert_eq!(u64_to_string(0), "0");
    assert_eq!(u64_to_string(7), "7");
    assert_eq!(u64_to_string(10), "10");
    assert_eq!(u64_to_string(90210), "90210");
    assert_eq!(i64_to_string(0), "0");
    assert_eq!(i64_to_string(1234), "1234");
    assert_eq!(i64_to_string(-56), "-56");
    assert_eq!(i64_to_string(i64::MIN), "-9223372036854775808");
    assert_eq!(i64_to_string(i64::MAX), "9223372036854775807");
}

#[test]
fn string_helpers_compare_and_search() {
    assert!(str_equal("abc", "abc"));
    assert!(!str_equal("abc", "abd"));
    assert!(!str_equal("abc", "ab"));
    assert!(eq_ignore_case("WoLf", "wolf"));
    assert!(!eq_ignore_case("wolf", "wolff"));
    assert!(contains_ignore_case("Dire Wolf", "WOLF"));
    assert!(contains_ignore_case("Dire Wolf", ""));
    assert!(!contains_ignore_case("Dire Wolf", "bear"));
    assert!(!contains_ignore_case("ab", "abc"));
}

#[test]
fn topic_names_must_be_alphanumeric() {
    assert!(topic_name_ok("help1"));
    assert!(topic_name_ok(""));
    assert!(!topic_name_ok("../etc"));
    assert!(!topic_name_ok("two words"));
}

#[test]
fn counts_render_with_the_unlimited_sign() {
    assert_eq!(render_count(3), "3");
    assert_eq!(render_count(-1), "\u{221e}");
    assert_eq!(render_count(0), "0");
}

#[test]
fn combatant_lines_show_hp_or_wounds() {
    let p = combatant("Alice", None);
    assert_eq!(
        render_combatant_line(&p),
        "* <b>Alice</b> - HP 7/10 [initiative: 12]"
    );
    let m = combatant("Wolf", Some(4));
    assert_eq!(
        render_combatant_line(&m),
        "* <b>Wolf</b> is <i><font color=\"orange\">mildly bleeding</font></i> [initiative: 12]"
    );
    let full = render_combatant(&p, false);
    assert!(full.starts_with("* <b>Alice</b> - HP 7/10 [initiative: 12]"));
    assert!(full.contains("\nAC: 14\nHP: 7/10\nMonster id: None\nPlayer id: Some(3)"));
    assert!(full.ends_with("\nAttack dice: 1d6\nTo hit: 2"));
}

#[test]
fn initiative_trace_lines_name_every_term() {
    let e = InitTraceEntry {
        name: "Swift".to_string(),
        kind: InitKind::PlayerRoll,
        roll: 15,
        dex_mod: 2,
        init_bonus: 0,
        total: 17,
    };
    assert_eq!(
        render_init_trace_line(&e),
        "Swift (player): [roll 15] + [dexmod 2] + [itvmod 0] => [initiative 17]"
    );
    let m = InitTraceEntry {
        name: "Wolf".to_string(),
        kind: InitKind::MonsterRoll,
        roll: 5,
        dex_mod: 2,
        init_bonus: 0,
        total: 7,
    };
    assert_eq!(
        render_init_trace_line(&m),
        "Wolf (monster): [roll 5] + [dexmod 2] => [initiative 7]"
    );
    let f = InitTraceEntry {
        name: "Golem".to_string(),
        kind: InitKind::FreeformRoll,
        roll: 9,
        dex_mod: 0,
        init_bonus: 0,
        total: 9,
    };
    assert_eq!(
        render_init_trace_line(&f),
        "Golem (???): [roll 9] => [initiative 9]"
    );
}

#[test]
fn attack_reports_tell_the_whole_story() {
    let a = combatant("Alice", None);
    let d = combatant("Wolf", Some(4));
    let miss = AttackOutcome {
        target: 12,
        roll: 11,
        kind: AttackKind::Miss,
        damage: None,
        defender_hp_after: 7,
    };
    let text = render_attack_report(&a, &d, &miss);
    assert!(text.starts_with(
        "<b>Alice</b> [to-hit: 2] attacks <b>Wolf</b> [AC: 14]!\nChecking AC: dice roll required = <b>12</b>\nrolling 1d20: result = <b>11</b>\n\n"
    ));
    assert!(text.ends_with("Attack failed."));
    let hit = AttackOutcome {
        target: 12,
        roll: 14,
        kind: AttackKind::Hit,
        damage: Some(4),
        defender_hp_after: 3,
    };
    let text2 = render_attack_report(&a, &d, &hit);
    assert!(text2.contains("Dealing 1d6 damage: result = <b>4</b>"));
    assert!(text2.contains("Opponent's state after attack:\n\n* <b>Wolf</b>"));
}

#[test]
fn record_renderers_match_their_formats() {
    let mut p = Player {
        id: 2,
        name: "Alice".to_string(),
        nick: "alice".to_string(),
        typ: "fighter".to_string(),
        armor_class: 15,
        hit_points: 20,
        strength: 18,
        intelligence: 8,
        dexterity: 14,
        constitution: 12,
        wisdom: 10,
        charisma: 11,
        initiative_bonus: 0,
        buffs: Vec::new(),
    };
    let sheet = render_player(&p);
    assert!(sheet.starts_with("#2: <b>Alice</b> the fighter HP 20 AC 15\n"));
    assert!(sheet.contains("Str 18 <i>(4)</i> Int 8 <i>(-1)</i> Dex 14 <i>(2)</i>"));
    assert!(!sheet.contains("Active buffs"));
    p.buffs = vec!["haste".to_string(), "bless".to_string()];
    let sheet2 = render_player(&p);
    assert!(sheet2.ends_with("\nActive buffs: <b>haste, bless</b>"));

    let m = encounter_core::models::Monster {
        id: 4,
        name: "Wolf".to_string(),
        typ: "beast".to_string(),
        armor_class: 13,
        hit_points: 11,
        strength: 14,
        intelligence: 2,
        dexterity: 15,
        constitution: 12,
        wisdom: 10,
        charisma: 5,
        challenge_rating: "1/4".to_string(),
        room_id: Vec::new(),
    };
    assert_eq!(render_monster(&m), "* <b>Wolf</b>, a beast. HP 11 AC 13");

    let it = encounter_core::models::Item {
        id: 3,
        name: "Lantern".to_string(),
        descrip: "Shiny.".to_string(),
        qty: -1,
        player_id: None,
        room_id: None,
    };
    assert_eq!(render_item(&it, true), "#3: \u{221e}x <b>Lantern</b>");
    assert_eq!(render_item(&it, false), "#3: \u{221e}x <b>Lantern</b>\nShiny.");

    let ab = Ability {
        id: 7,
        name: "Flame Strike".to_string(),
        descrip: "burns".to_string(),
        damage_dice: Some("2d8".to_string()),
        attack_bonus: Some(4),
        uses_left: 2,
        uses: 3,
        monster_id: None,
        player_id: Some(2),
        item_id: None,
    };
    assert_eq!(
        render_ability(&ab, true),
        "#7: 2x <b>Flame Strike</b> [dmg 2d8] [+4 to hit]"
    );
    assert_eq!(
        render_ability(&ab, false),
        "#7: 2x <b>Flame Strike</b> [dmg 2d8] [+4 to hit]\nburns"
    );

    let sp = encounter_core::models::Spell {
        id: 9,
        name: "Fireball".to_string(),
        typ: "Evocation".to_string(),
        ritual: false,
        level: "3".to_string(),
        school: "evocation".to_string(),
        casting_time: "1 action".to_string(),
        range: "150 feet".to_string(),
        duration: "Instant".to_string(),
        descrip: "Boom.".to_string(),
    };
    assert_eq!(render_spell(&sp, true), "#9: <b>Fireball</b> (Evocation)");
    assert_eq!(
        render_spell(&sp, false),
        "#9: <b>Fireball</b> (Evocation)\nrange 150 feet | time 1 action | level 3\n\nBoom."
    );
}

#[test]
fn listings_join_lines_or_report_nothing() {
    let none: Vec<Ability> = Vec::new();
    assert_eq!(render_abilities(&none), "No results found.");
    assert_eq!(join_strings(&Vec::new(), ", "), "");
    assert_eq!(
        join_strings(&vec!["a".to_string(), "b".to_string(), "c".to_string()], ", "),
        "a, b, c"
    );
}

#[test]
fn roster_listing_is_ordered_by_initiative() {
    let mut enc = Encounter::new();
    enc.add_freeform("Slow", "1d1", 5, 10).unwrap();
    enc.add_freeform("Fast", "1d1", 5, 10).unwrap();
    enc.combatants[0].initiative = 3;
    enc.combatants[1].initiative = 9;
    let listing = enc.render_combatants();
    assert!(listing.starts_with("2 combatants active:"));
    let fast = listing.find("Fast").unwrap();
    let slow = listing.find("Slow").unwrap();
    assert!(fast < slow);
}

#[test]
fn turn_options_list_the_origin_abilities() {
    let c = combatant("Alice", None);
    let mut owned = Ability {
        id: 1,
        name: "Slash".to_string(),
        descrip: "cuts".to_string(),
        damage_dice: None,
        attack_bonus: None,
        uses_left: -1,
        uses: -1,
        monster_id: None,
        player_id: Some(3),
        item_id: None,
    };
    let mut foreign = owned.clone();
    foreign.id = 2;
    foreign.player_id = Some(99);
    let abis = vec![owned.clone(), foreign];
    let text = describe_turn_options(&c, &abis);
    assert!(text.starts_with("Abilities for the current combatant:\n\n"));
    assert!(text.contains("Slash"));
    assert!(!text.contains("#2:"));
    owned.player_id = Some(99);
    let text2 = describe_turn_options(&c, &vec![owned]);
    assert!(text2.ends_with("[There don't seem to be any.]"));
}

#[test]
fn reference_monsters_unfold_into_records() {
    let srd = SrdMonster {
        name: "Wolf".to_string(),
        typ: "beast".to_string(),
        armor_class: 13,
        hit_points: 11,
        strength: 14,
        intelligence: 2,
        dexterity: 15,
        constitution: 12,
        wisdom: 10,
        charisma: 5,
        challenge_rating: "1/4".to_string(),
        special_abilities: vec![MonsterAbility {
            name: "Keen Hearing".to_string(),
            desc: "advantage on hearing".to_string(),
            damage_dice: None,
            attack_bonus: None,
        }],
        actions: vec![MonsterAbility {
            name: "Bite".to_string(),
            desc: "chomp".to_string(),
            damage_dice: Some("2d4+2".to_string()),
            attack_bonus: Some(4),
        }],
    };
    let nm = srd_to_new_monster(&srd);
    assert_eq!(nm.name, "Wolf");
    assert_eq!(nm.hit_points, 11);
    assert_eq!(nm.dexterity, 15);
    assert!(nm.room_id.is_empty());
    let abis = srd_monster_abilities(&srd, 42);
    assert_eq!(abis.len(), 2);
    assert_eq!(abis[0].name, "Keen Hearing");
    assert_eq!(abis[0].monster_id, Some(42));
    assert_eq!(abis[0].uses_left, -1);
    assert_eq!(abis[1].name, "Bite");
    assert_eq!(abis[1].damage_dice.as_deref(), Some("2d4+2"));
    assert_eq!(abis[1].attack_bonus, Some(4));
    let one = monster_ability_to_new(&srd.actions[0], 7);
    assert_eq!(one.monster_id, Some(7));
    assert_eq!(one.descrip, "chomp");
}

#[test]
fn weapons_unfold_into_an_item_and_an_attack() {
    let w = Weapon {
        name: "Longsword".to_string(),
        descrip: "A blade.".to_string(),
        qty: 1,
        damage_dice: Some("1d8".to_string()),
        attack_bonus: Some(2),
        player_id: Some(5),
    };
    let ab = weapon_to_ability(&w);
    assert_eq!(ab.name, "Attack using Longsword");
    assert_eq!(ab.descrip, "Weapon: A blade.");
    assert_eq!(ab.damage_dice.as_deref(), Some("1d8"));
    assert_eq!(ab.attack_bonus, Some(2));
    assert_eq!(ab.player_id, Some(5));
    assert_eq!(ab.uses_left, -1);
    let it = weapon_to_item(&w);
    assert_eq!(it.name, "Longsword");
    assert_eq!(it.qty, 1);
    assert_eq!(it.player_id, Some(5));
    assert_eq!(it.room_id, None);
}
