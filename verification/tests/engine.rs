use encounter_core::ability::{recover_uses, spell_to_player_ability};
use encounter_core::items::{check_drop, check_pick_up, drop_item, pick_up_item, reassign_item_abilities};
use encounter_core::attack::AttackKind;
use encounter_core::checks::{check_admin, check_with_roll, CheckKind};
use encounter_core::dice::{parse_dice_spec, roll_dice};
use encounter_core::encounter::Encounter;
use encounter_core::errors::EngineError;
use encounter_core::models::{Ability, Item, Monster, Player, Spell};
use encounter_core::stats::score_to_mod;
use encounter_core::wounds::{classify_wounds, WoundBand};

fn player(id: i32, name: &str, dexterity: i32, initiative_bonus: i32) -> Player {
    Player {
        id,
        name: name.to_string(),
        nick: name.to_lowercase(),
        typ: "fighter".to_string(),
        armor_class: 15,
        hit_points: 20,
        strength: 18,
        intelligence: 8,
        dexterity,
        constitution: 12,
        wisdom: 10,
        charisma: 11,
        initiative_bonus,
        buffs: Vec::new(),
    }
}

fn monster(id: i32, name: &str, dexterity: i32) -> Monster {
    Monster {
        id,
        name: name.to_string(),
        typ: "beast".to_string(),
        armor_class: 13,
        hit_points: 11,
        strength: 14,
        intelligence: 2,
        dexterity,
        constitution: 12,
        wisdom: 10,
        charisma: 5,
        challenge_rating: "1/4".to_string(),
        room_id: Vec::new(),
    }
}

fn ability(uses_left: i32, damage_dice: Option<&str>, attack_bonus: Option<i32>) -> Ability {
    Ability {
        id: 7,
        name: "Flame Strike".to_string(),
        descrip: "burns".to_string(),
        damage_dice: damage_dice.map(|d| d.to_string()),
        attack_bonus,
        uses_left,
        uses: 3,
        monster_id: None,
        player_id: Some(1),
        item_id: None,
    }
}

#[test]
fn score_to_mod_matches_the_table() {
    assert_eq!(score_to_mod(1), -5);
    assert_eq!(score_to_mod(2), -4);
    assert_eq!(score_to_mod(3), -4);
    assert_eq!(score_to_mod(10), 0);
    assert_eq!(score_to_mod(11), 0);
    assert_eq!(score_to_mod(14), 2);
    assert_eq!(score_to_mod(18), 4);
    assert_eq!(score_to_mod(29), 9);
    assert_eq!(score_to_mod(30), 10);
    assert_eq!(score_to_mod(0), 0);
    assert_eq!(score_to_mod(31), 0);
    assert_eq!(score_to_mod(-4), 0);
}

#[test]
fn score_to_mod_is_non_decreasing() {
    let mut prev = score_to_mod(1);
    for s in 2..=30 {
        let cur = score_to_mod(s);
        assert!(prev <= cur, "modifier dropped at score {}", s);
        prev = cur;
    }
}

#[test]
fn fixed_dice_specs_evaluate_exactly() {
    assert_eq!(roll_dice("1d1"), Ok(1));
    assert_eq!(roll_dice("3d1"), Ok(3));
    assert_eq!(roll_dice("5d1"), Ok(5));
    assert_eq!(roll_dice("2d1+3"), Ok(5));
    assert_eq!(roll_dice("1d1-3"), Ok(-2));
    assert_eq!(roll_dice("10"), Ok(10));
    assert_eq!(roll_dice("0"), Ok(0));
    assert_eq!(roll_dice("2d1+1d1"), Ok(3));
    assert_eq!(roll_dice("1d1-2d1"), Ok(-1));
}

#[test]
fn random_dice_stay_in_range() {
    for _ in 0..50 {
        let v = roll_dice("2d6").unwrap();
        assert!((2..=12).contains(&v));
        let w = roll_dice("1d20").unwrap();
        assert!((1..=20).contains(&w));
        let x = roll_dice("3d8+2").unwrap();
        assert!((5..=26).contains(&x));
    }
}

#[test]
fn invalid_dice_specs_are_rejected() {
    for bad in [
        "", "foo", "d6", "1d", "0d6", "1d0", "01d6", "1d06", "+1", "-1", "1d6+", "2d6*3",
        "2d6/2", "(1d6)", "1d6 + 2", "1d6.5", "9999999999d6", "1d9999999999",
    ] {
        assert_eq!(roll_dice(bad), Err(EngineError::InvalidDiceSpec), "accepted {:?}", bad);
    }
    assert_eq!(EngineError::InvalidDiceSpec.message(), "Invalid dicespec");
}

#[test]
fn dice_parser_reads_terms() {
    let terms = parse_dice_spec("2d6+3-1d4").unwrap();
    assert_eq!(terms.len(), 3);
    let none = parse_dice_spec("2x6");
    assert!(none.is_none());
}

#[test]
fn wound_bands_follow_the_percentage() {
    assert_eq!(classify_wounds(10, 10), WoundBand::Unharmed);
    assert_eq!(classify_wounds(0, 10), WoundBand::Dead);
    assert_eq!(classify_wounds(5, 10), WoundBand::Wounded);
    assert_eq!(classify_wounds(11, 10), WoundBand::Overhealed);
    assert_eq!(classify_wounds(9, 10), WoundBand::LightlyWounded);
    assert_eq!(classify_wounds(4, 10), WoundBand::Wounded);
    assert_eq!(classify_wounds(3, 10), WoundBand::BadlyWounded);
    assert_eq!(classify_wounds(1, 10), WoundBand::Critical);
    assert_eq!(classify_wounds(-5, 10), WoundBand::Dead);
    assert_eq!(classify_wounds(1, 1000), WoundBand::Dead);
    assert_eq!(classify_wounds(3, 0), WoundBand::Dead);
    assert_eq!(WoundBand::Unharmed.name(), "unharmed");
    assert_eq!(WoundBand::Dead.name(), "dead");
    assert_eq!(WoundBand::Wounded.name(), "wounded");
    assert_eq!(
        WoundBand::Dead.description(),
        "<font color=\"darkred\">slightly dead</font>"
    );
}

#[test]
fn roster_seeds_combatants_from_templates() {
    let mut enc = Encounter::new();
    let p = player(1, "Alice", 14, 1);
    let id = enc.add_from_player(&p);
    assert_eq!(id, 1);
    let m = monster(4, "Wolf", 15);
    let id2 = enc.add_from_monster(&m);
    assert_eq!(id2, 2);
    let c0 = &enc.combatants[0];
    assert_eq!(c0.name, "Alice");
    assert_eq!(c0.attack, "1d1");
    assert_eq!(c0.cur_hp, 20);
    assert_eq!(c0.max_hp, 20);
    assert_eq!(c0.armor_class, 15);
    assert_eq!(c0.attack_bonus, 0);
    assert_eq!(c0.initiative, 0);
    assert_eq!(c0.player_id, Some(1));
    assert_eq!(c0.monster_id, None);
    let c1 = &enc.combatants[1];
    assert_eq!(c1.name, "Wolf");
    assert_eq!(c1.monster_id, Some(4));
    assert_eq!(c1.player_id, None);
    assert_eq!(c1.cur_hp, 11);
}

#[test]
fn freeform_combatants_validate_their_attack() {
    let mut enc = Encounter::new();
    let bad = enc.add_freeform("Golem", "not dice", 30, 12);
    assert_eq!(bad, Err(EngineError::InvalidDiceSpec));
    assert_eq!(enc.combatants.len(), 0);
    let ok = enc.add_freeform("Golem", "2d8+1", 30, 12);
    assert_eq!(ok, Ok(1));
    assert_eq!(enc.combatants.len(), 1);
    assert_eq!(enc.combatants[0].attack, "2d8+1");
    assert_eq!(enc.combatants[0].player_id, None);
    assert_eq!(enc.combatants[0].monster_id, None);
    assert_eq!(enc.last_dice_spec.as_deref(), Some("2d8+1"));
}

#[test]
fn name_search_is_case_insensitive_first_match() {
    let mut enc = Encounter::new();
    enc.add_from_player(&player(1, "Alice", 10, 0));
    enc.add_from_player(&player(2, "Bob", 10, 0));
    enc.add_from_player(&player(3, "Alicia", 10, 0));
    assert_eq!(enc.find_by_name_pattern("LIC"), Ok(1));
    assert_eq!(enc.find_by_name_pattern("bob"), Ok(2));
    assert_eq!(enc.find_by_name_pattern("ALICIA"), Ok(3));
    assert_eq!(enc.find_by_name_pattern("zzz"), Err(EngineError::NotFound));
    assert_eq!(EngineError::NotFound.message(), "No results found.");
}

#[test]
fn reroll_reuses_the_last_spec() {
    let mut enc = Encounter::new();
    assert_eq!(enc.reroll(), None);
    assert_eq!(enc.roll_dice("4d1+1"), Ok(5));
    assert_eq!(enc.last_dice_spec.as_deref(), Some("4d1+1"));
    assert_eq!(enc.reroll(), Some(5));
    // a failed roll leaves the remembered spec alone
    assert_eq!(enc.roll_dice("bogus"), Err(EngineError::InvalidDiceSpec));
    assert_eq!(enc.last_dice_spec.as_deref(), Some("4d1+1"));
}

#[test]
fn d20_rolls_stay_in_range_and_are_remembered() {
    let mut enc = Encounter::new();
    for _ in 0..30 {
        let v = enc.roll_d20();
        assert!((1..=20).contains(&v));
    }
    assert_eq!(enc.last_dice_spec.as_deref(), Some("1d20"));
}

#[test]
fn forced_initiative_writes_rolls_plus_modifiers() {
    let mut enc = Encounter::new();
    let players = vec![player(1, "Slowpoke", 10, 0), player(2, "Swift", 14, 3)];
    let monsters = vec![monster(9, "Wolf", 15)];
    enc.add_from_player(&players[1]);
    enc.add_from_player(&players[0]);
    enc.add_from_monster(&monsters[0]);
    let rolls = vec![7, 11, 5];
    let trace = enc
        .roll_initiative_with(&players, &monsters, &rolls)
        .unwrap();
    // Swift: 7 + dexmod 2 + bonus 3; Slowpoke: 11 + 0 + 0; Wolf: 5 + 2
    assert_eq!(enc.combatants[0].initiative, 12);
    assert_eq!(enc.combatants[1].initiative, 11);
    assert_eq!(enc.combatants[2].initiative, 7);
    assert_eq!(trace.len(), 3);
    assert_eq!(trace[0].name, "Swift");
    assert_eq!(trace[0].roll, 7);
    assert_eq!(trace[0].dex_mod, 2);
    assert_eq!(trace[0].init_bonus, 3);
    assert_eq!(trace[0].total, 12);
    assert_eq!(trace[2].name, "Wolf");
    assert_eq!(trace[2].dex_mod, 2);
    assert_eq!(trace[2].total, 7);
}

#[test]
fn random_initiative_applies_the_modifiers() {
    let mut enc = Encounter::new();
    let players = vec![player(1, "Swift", 14, 3)];
    let monsters = vec![monster(9, "Wolf", 15)];
    enc.add_from_player(&players[0]);
    enc.add_from_monster(&monsters[0]);
    enc.add_freeform("Golem", "1d1", 10, 10).unwrap();
    let trace = enc.roll_initiative(&players, &monsters).unwrap();
    assert_eq!(trace.len(), 3);
    // Swift: roll + 2 + 3; Wolf: roll + 2; Golem: bare roll
    assert!((6..=25).contains(&enc.combatants[0].initiative));
    assert!((3..=22).contains(&enc.combatants[1].initiative));
    assert!((1..=20).contains(&enc.combatants[2].initiative));
    assert_eq!(trace[0].total, enc.combatants[0].initiative);
    assert_eq!(trace[1].total, enc.combatants[1].initiative);
    assert_eq!(trace[2].total, enc.combatants[2].initiative);
    assert_eq!(enc.last_dice_spec.as_deref(), Some("1d20"));
}

#[test]
fn initiative_fails_when_a_template_is_missing() {
    let mut enc = Encounter::new();
    enc.add_from_player(&player(1, "Alice", 10, 0));
    let no_players: Vec<Player> = Vec::new();
    let no_monsters: Vec<Monster> = Vec::new();
    let rolls = vec![10];
    let r = enc.roll_initiative_with(&no_players, &no_monsters, &rolls);
    assert!(matches!(r, Err(EngineError::NotFound)));
}

#[test]
fn two_player_encounter_runs_its_round_robin() {
    // two players: dexterity modifiers +2 and +0, no initiative bonus;
    // forced rolls 15 and 10 give initiatives 17 and 10, so the swift
    // player acts first, and two turn advances wrap back around
    let mut enc = Encounter::new();
    let swift = player(2, "Swift", 14, 0);
    let steady = player(1, "Steady", 10, 0);
    let players = vec![steady, swift];
    let rolls = vec![15, 10];
    let trace = enc.begin_encounter_with(&players, &rolls).unwrap();
    // seeding order is reverse by id: Swift (id 2) first
    assert_eq!(enc.combatants[0].name, "Swift");
    assert_eq!(enc.combatants[0].initiative, 17);
    assert_eq!(enc.combatants[1].name, "Steady");
    assert_eq!(enc.combatants[1].initiative, 10);
    assert_eq!(trace.len(), 2);
    assert_eq!(trace[0].roll, 15);
    assert_eq!(trace[1].roll, 10);
    assert_eq!(enc.current_combatant().unwrap().name, "Swift");
    enc.advance_turn().unwrap();
    assert_eq!(enc.current_combatant().unwrap().name, "Steady");
    enc.advance_turn().unwrap();
    assert_eq!(enc.current_combatant().unwrap().name, "Swift");
}

#[test]
fn advancing_roster_size_times_returns_to_start() {
    let mut enc = Encounter::new();
    let players = vec![
        player(1, "A", 10, 0),
        player(2, "B", 12, 0),
        player(3, "C", 14, 0),
        player(4, "D", 16, 0),
        player(5, "E", 8, 0),
    ];
    let rolls = vec![10, 10, 10, 3, 17];
    enc.begin_encounter_with(&players, &rolls).unwrap();
    let start = enc.current_turn;
    for _ in 0..players.len() {
        enc.advance_turn().unwrap();
    }
    assert_eq!(enc.current_turn, start);
}

#[test]
fn turn_order_breaks_ties_by_roster_position() {
    let mut enc = Encounter::new();
    enc.add_freeform("First", "1d1", 5, 10).unwrap();
    enc.add_freeform("Second", "1d1", 5, 10).unwrap();
    enc.add_freeform("Third", "1d1", 5, 10).unwrap();
    // equal initiatives everywhere: acting order is roster order
    let ord = enc.ordered_indices();
    assert_eq!(ord, vec![0, 1, 2]);
    enc.combatants[1].initiative = 5;
    let ord2 = enc.ordered_indices();
    assert_eq!(ord2, vec![1, 0, 2]);
}

#[test]
fn empty_encounter_has_no_turn() {
    let mut enc = Encounter::new();
    assert_eq!(enc.advance_turn(), Err(EngineError::NoActiveTurn));
    assert_eq!(EngineError::NoActiveTurn.message(), "It's nobody's turn!");
    let no_players: Vec<Player> = Vec::new();
    assert!(matches!(
        enc.begin_encounter_with(&no_players, &Vec::new()),
        Err(EngineError::NotFound)
    ));
    assert!(enc.current_turn.is_none());
}

#[test]
fn ending_an_encounter_clears_everything() {
    let mut enc = Encounter::new();
    let players = vec![player(1, "A", 10, 0), player(2, "B", 10, 0)];
    enc.begin_encounter_with(&players, &vec![10, 10]).unwrap();
    assert_eq!(enc.combatants.len(), 2);
    assert!(enc.current_turn.is_some());
    enc.end_encounter();
    assert_eq!(enc.combatants.len(), 0);
    assert!(enc.current_turn.is_none());
}

#[test]
fn random_begin_encounter_stays_in_bounds() {
    let mut enc = Encounter::new();
    let players = vec![player(1, "A", 14, 1), player(2, "B", 10, 0)];
    let trace = enc.begin_encounter(&players).unwrap();
    assert_eq!(trace.len(), 2);
    // B (id 2, dexmod 0, bonus 0) seeds first: initiative in 1..=20
    assert!((1..=20).contains(&enc.combatants[0].initiative));
    // A (dexmod +2, bonus 1): initiative in 4..=23
    assert!((4..=23).contains(&enc.combatants[1].initiative));
    assert_eq!(enc.last_dice_spec.as_deref(), Some("1d20"));
    // the first turn belongs to a strictly highest initiative
    let cur = enc.current_combatant().unwrap();
    let top = enc.combatants.iter().map(|c| c.initiative).max().unwrap();
    assert_eq!(cur.initiative, top);
}

#[test]
fn forced_roll_of_one_always_fails_critically() {
    for ac in [-50, 0, 1, 15, 100] {
        let mut enc = Encounter::new();
        enc.add_freeform("Attacker", "4d6", 10, 10).unwrap();
        enc.add_freeform("Defender", "1d1", 10, ac).unwrap();
        let out = enc.resolve_attack_with_roll(1, 2, 1).unwrap();
        assert_eq!(out.kind, AttackKind::CriticalFailure);
        assert_eq!(out.damage, None);
        assert_eq!(out.roll, 1);
        assert_eq!(enc.combatants[1].cur_hp, 10);
        assert_eq!(out.defender_hp_after, 10);
        assert_eq!(out.kind.headline(), "CRITICAL FAILURE!");
    }
}

#[test]
fn forced_roll_of_twenty_always_hits_twice() {
    // armor class far beyond 20: a natural 20 still lands, and the
    // damage is two independent evaluations of the attack expression
    let mut enc = Encounter::new();
    enc.add_freeform("Attacker", "1d1", 10, 10).unwrap();
    enc.add_freeform("Defender", "1d1", 10, 100).unwrap();
    let out = enc.resolve_attack_with_roll(1, 2, 20).unwrap();
    assert_eq!(out.target, 100);
    assert_eq!(out.kind, AttackKind::CriticalHit);
    assert_eq!(out.damage, Some(2));
    assert_eq!(enc.combatants[1].cur_hp, 8);
    assert_eq!(out.defender_hp_after, 8);
}

#[test]
fn critical_damage_stays_within_two_rolls() {
    for _ in 0..20 {
        let mut enc = Encounter::new();
        enc.add_freeform("Attacker", "2d6", 10, 10).unwrap();
        enc.add_freeform("Defender", "1d1", 50, 1).unwrap();
        let out = enc.resolve_attack_with_roll(1, 2, 20).unwrap();
        let dmg = out.damage.unwrap();
        assert!((4..=24).contains(&dmg));
        assert_eq!(enc.combatants[1].cur_hp, 50 - dmg);
    }
}

#[test]
fn attack_scenario_miss_then_hit() {
    // attacker to-hit 3 against armor class 15: the die must show 12
    let mut enc = Encounter::new();
    enc.add_freeform("Attacker", "1d1", 10, 10).unwrap();
    enc.add_freeform("Defender", "1d1", 10, 15).unwrap();
    enc.combatants[0].attack_bonus = 3;
    let miss = enc.resolve_attack_with_roll(1, 2, 11).unwrap();
    assert_eq!(miss.target, 12);
    assert_eq!(miss.kind, AttackKind::Miss);
    assert_eq!(miss.kind.headline(), "Attack failed.");
    assert_eq!(miss.damage, None);
    assert_eq!(enc.combatants[1].cur_hp, 10);
    let hit = enc.resolve_attack_with_roll(1, 2, 12).unwrap();
    assert_eq!(hit.kind, AttackKind::Hit);
    assert_eq!(hit.damage, Some(1));
    assert_eq!(enc.combatants[1].cur_hp, 9);
    assert_eq!(hit.defender_hp_after, 9);
}

#[test]
fn hit_points_go_negative_without_removal() {
    let mut enc = Encounter::new();
    enc.add_freeform("Attacker", "4d1+6", 10, 10).unwrap();
    enc.add_freeform("Defender", "1d1", 3, 1).unwrap();
    let out = enc.resolve_attack_with_roll(1, 2, 10).unwrap();
    assert_eq!(out.damage, Some(10));
    assert_eq!(enc.combatants[1].cur_hp, -7);
    assert_eq!(enc.combatants.len(), 2);
    assert_eq!(classify_wounds(enc.combatants[1].cur_hp, enc.combatants[1].max_hp), WoundBand::Dead);
}

#[test]
fn invalid_attack_expression_leaves_hp_alone() {
    let mut enc = Encounter::new();
    enc.add_freeform("Attacker", "1d1", 10, 10).unwrap();
    enc.add_freeform("Defender", "1d1", 10, 1).unwrap();
    enc.combatants[0].attack = "garbage".to_string();
    let r = enc.resolve_attack_with_roll(1, 2, 15);
    assert_eq!(r.map(|o| o.kind), Err(EngineError::InvalidDiceSpec));
    assert_eq!(enc.combatants[1].cur_hp, 10);
    // a miss never evaluates the broken expression at all
    enc.combatants[1].armor_class = 30;
    let miss = enc.resolve_attack_with_roll(1, 2, 5).unwrap();
    assert_eq!(miss.kind, AttackKind::Miss);
}

#[test]
fn attack_on_missing_ids_reports_not_found() {
    let mut enc = Encounter::new();
    enc.add_freeform("Alone", "1d1", 10, 10).unwrap();
    assert!(enc.resolve_attack_with_roll(1, 2, 10).is_err());
    assert!(enc.resolve_attack(3, 1).is_err());
}

#[test]
fn random_attack_roll_stays_in_range() {
    for _ in 0..30 {
        let mut enc = Encounter::new();
        enc.add_freeform("Attacker", "2d4", 10, 10).unwrap();
        enc.add_freeform("Defender", "1d1", 100, 11).unwrap();
        let out = enc.resolve_attack(1, 2).unwrap();
        assert!((1..=20).contains(&out.roll));
        match out.kind {
            AttackKind::Miss | AttackKind::CriticalFailure => {
                assert_eq!(enc.combatants[1].cur_hp, 100);
            }
            AttackKind::Hit => {
                let d = out.damage.unwrap();
                assert!((2..=8).contains(&d));
                assert_eq!(enc.combatants[1].cur_hp, 100 - d);
            }
            AttackKind::CriticalHit => {
                let d = out.damage.unwrap();
                assert!((4..=16).contains(&d));
                assert_eq!(enc.combatants[1].cur_hp, 100 - d);
            }
        }
    }
}

#[test]
fn exhausted_abilities_never_fire() {
    let mut enc = Encounter::new();
    enc.add_freeform("Hero", "1d1", 10, 10).unwrap();
    let mut ab = ability(0, Some("9d9"), Some(9));
    let r = enc.use_ability(&mut ab, 1);
    assert_eq!(r, Err(EngineError::NoUsesLeft));
    assert_eq!(ab.uses_left, 0);
    assert_eq!(enc.combatants[0].attack, "1d1");
    assert_eq!(enc.combatants[0].attack_bonus, 0);
    assert_eq!(EngineError::NoUsesLeft.message(), "That ability has no uses left!");
}

#[test]
fn abilities_override_stats_and_burn_a_use() {
    let mut enc = Encounter::new();
    enc.add_freeform("Hero", "1d1", 10, 10).unwrap();
    let mut ab = ability(2, Some("2d8"), Some(4));
    enc.use_ability(&mut ab, 1).unwrap();
    assert_eq!(enc.combatants[0].attack, "2d8");
    assert_eq!(enc.combatants[0].attack_bonus, 4);
    assert_eq!(ab.uses_left, 1);
    // overrides persist until overwritten
    let mut bonus_only = ability(-1, None, Some(7));
    enc.use_ability(&mut bonus_only, 1).unwrap();
    assert_eq!(enc.combatants[0].attack, "2d8");
    assert_eq!(enc.combatants[0].attack_bonus, 7);
    // -1 is the unlimited sentinel and is never decremented
    assert_eq!(bonus_only.uses_left, -1);
    let mut nothing = ability(1, None, None);
    enc.use_ability(&mut nothing, 1).unwrap();
    assert_eq!(enc.combatants[0].attack, "2d8");
    assert_eq!(enc.combatants[0].attack_bonus, 7);
    assert_eq!(nothing.uses_left, 0);
}

#[test]
fn recover_uses_refills_every_ability() {
    let mut abis = vec![ability(0, None, None), ability(1, None, None), ability(-1, None, None)];
    let n = recover_uses(&mut abis);
    assert_eq!(n, 3);
    for a in &abis {
        assert_eq!(a.uses_left, a.uses);
        assert_eq!(a.uses_left, 3);
    }
}

#[test]
fn checks_classify_natural_rolls() {
    let p = player(1, "Alice", 10, 0);
    let crit = check_with_roll(&p, "str", 1).unwrap();
    assert_eq!(crit.kind, CheckKind::CheckCriticalFailure);
    let great = check_with_roll(&p, "strength", 20).unwrap();
    assert_eq!(great.kind, CheckKind::CheckGreatSuccess);
    let normal = check_with_roll(&p, "STR", 10).unwrap();
    assert_eq!(normal.kind, CheckKind::CheckNormal);
    assert_eq!(normal.modifier, 4);
    assert_eq!(normal.total, 14);
    let dex = check_with_roll(&p, "Dexterity", 7).unwrap();
    assert_eq!(dex.modifier, 0);
    assert_eq!(dex.total, 7);
    assert_eq!(
        check_with_roll(&p, "luck", 10),
        Err(EngineError::NotFound)
    );
}

#[test]
fn encounter_checks_roll_a_d20() {
    let mut enc = Encounter::new();
    let p = player(1, "Alice", 10, 0);
    for _ in 0..20 {
        let out = enc.check(&p, "con").unwrap();
        assert!((1..=20).contains(&out.roll));
        assert_eq!(out.modifier, 1);
        assert_eq!(out.total, out.roll + 1);
    }
    assert_eq!(enc.last_dice_spec.as_deref(), Some("1d20"));
    assert_eq!(enc.check(&p, "nope"), Err(EngineError::NotFound));
}

#[test]
fn only_the_game_master_passes_the_admin_gate() {
    assert_eq!(check_admin("gm", "gm"), Ok(()));
    assert_eq!(check_admin("player", "gm"), Err(EngineError::PermissionDenied));
    assert_eq!(check_admin("GM", "gm"), Err(EngineError::PermissionDenied));
    assert_eq!(EngineError::PermissionDenied.message(), "You're not the DM.");
}

#[test]
fn learning_a_spell_makes_an_unlimited_ability() {
    let p = player(3, "Mage", 10, 0);
    let s = Spell {
        id: 9,
        name: "Fireball".to_string(),
        typ: "Evocation".to_string(),
        ritual: false,
        level: "3".to_string(),
        school: "evocation".to_string(),
        casting_time: "1 action".to_string(),
        range: "150 feet".to_string(),
        duration: "Instant".to_string(),
        descrip: "Boom.".to_string(),
    };
    let a = spell_to_player_ability(&p, &s);
    assert_eq!(a.name, "Spell: Fireball (Evocation)");
    assert_eq!(a.descrip, "range 150 feet | time 1 action\n\nBoom.");
    assert_eq!(a.uses_left, -1);
    assert_eq!(a.uses, -1);
    assert_eq!(a.player_id, Some(3));
    assert_eq!(a.monster_id, None);
    assert!(a.damage_dice.is_none());
    assert!(a.attack_bonus.is_none());
}

#[test]
fn set_current_turn_validates_the_id() {
    let mut enc = Encounter::new();
    enc.add_freeform("A", "1d1", 5, 10).unwrap();
    assert_eq!(enc.set_current_turn(1), Ok(()));
    assert_eq!(enc.current_turn, Some(1));
    assert_eq!(enc.set_current_turn(2), Err(EngineError::NotFound));
    assert_eq!(enc.current_turn, Some(1));
}

#[test]
fn a_whole_encounter_plays_out() {
    let mut enc = Encounter::new();
    let players = vec![player(1, "Alice", 14, 0), player(2, "Bob", 10, 0)];
    // Bob (id 2) seeds first; forced rolls 8 and 19 put Alice on top
    enc.begin_encounter_with(&players, &vec![8, 19]).unwrap();
    assert_eq!(enc.current_combatant().unwrap().name, "Alice");
    // a wolf joins mid-encounter and initiative is rerolled for everyone
    let monsters = vec![monster(4, "Wolf", 12)];
    enc.add_from_monster(&monsters[0]);
    enc.roll_initiative_with(&players, &monsters, &vec![10, 10, 10])
        .unwrap();
    // Bob seeds at roster position 0: 10 + 0; Alice: 10 + 2; Wolf: 10 + 1
    assert_eq!(enc.ordered_indices(), vec![1, 2, 0]);
    enc.set_current_turn(2).unwrap();
    // Alice (combatant 2) strikes the wolf with an exact blade
    let alice = enc.find_by_name_pattern("alice").unwrap();
    let wolf = enc.find_by_name_pattern("wolf").unwrap();
    let out = enc.resolve_attack_with_roll(alice, wolf, 19).unwrap();
    assert_eq!(out.kind, AttackKind::Hit);
    assert_eq!(out.damage, Some(1));
    assert_eq!(enc.combatants[(wolf - 1) as usize].cur_hp, 10);
    // the round robin continues: Wolf, Bob, then Alice again
    assert_eq!(enc.advance_turn(), Ok(wolf));
    assert_eq!(enc.advance_turn(), Ok(1));
    assert_eq!(enc.advance_turn(), Ok(alice));
    enc.end_encounter();
    assert_eq!(enc.combatants.len(), 0);
    assert!(enc.current_turn.is_none());
}

fn item(id: i32, player_id: Option<i32>, room_id: Option<i32>) -> Item {
    Item {
        id,
        name: "Lantern".to_string(),
        descrip: "Shiny.".to_string(),
        qty: 1,
        player_id,
        room_id,
    }
}

#[test]
fn picking_up_and_dropping_items() {
    let in_room = item(1, None, Some(5));
    assert_eq!(check_pick_up(&in_room, 5), Ok(()));
    assert_eq!(
        check_pick_up(&in_room, 6),
        Err("That item isn't in the current room.")
    );
    let held = item(2, Some(9), Some(5));
    assert_eq!(
        check_pick_up(&held, 5),
        Err("Another player has that item (this error shouldn't occur)")
    );
    assert_eq!(check_drop(&held, 9), Ok(()));
    assert_eq!(check_drop(&held, 8), Err("You don't own that item."));
    let mut it = in_room.clone();
    pick_up_item(&mut it, 9);
    assert_eq!(it.player_id, Some(9));
    assert_eq!(it.room_id, None);
    drop_item(&mut it, 7);
    assert_eq!(it.player_id, None);
    assert_eq!(it.room_id, Some(7));
}

#[test]
fn item_abilities_change_hands_with_the_item() {
    let mut abis = vec![ability(1, None, None), ability(1, None, None)];
    abis[0].item_id = Some(4);
    abis[0].player_id = None;
    abis[1].item_id = Some(5);
    let changed = reassign_item_abilities(&mut abis, 4, Some(2));
    assert_eq!(changed, vec![0]);
    assert_eq!(abis[0].player_id, Some(2));
    assert_eq!(abis[1].player_id, Some(1));
    let dropped = reassign_item_abilities(&mut abis, 4, None);
    assert_eq!(dropped, vec![0]);
    assert_eq!(abis[0].player_id, None);
}
