use vstd::prelude::*;

use crate::attack::{AttackKind, AttackOutcome};
use crate::initiative::{InitKind, InitTraceEntry};
use crate::models::Combatant;
use crate::text::{spec_i64_text, i64_to_string};
use crate::wounds;

verus! {

/// The initiative trace line of one combatant: who rolled, each term
/// of the sum, and the resulting initiative.
pub open spec fn spec_init_trace_line(e: InitTraceEntry) -> Seq<char> {
    match e.kind {
        InitKind::PlayerRoll => e.name@ + " (player): [roll "@ + spec_i64_text(e.roll as int)
            + "] + [dexmod "@ + spec_i64_text(e.dex_mod as int) + "] + [itvmod "@ + spec_i64_text(
            e.init_bonus as int,
        ) + "] => [initiative "@ + spec_i64_text(e.total as int) + "]"@,
        InitKind::MonsterRoll => e.name@ + " (monster): [roll "@ + spec_i64_text(e.roll as int)
            + "] + [dexmod "@ + spec_i64_text(e.dex_mod as int) + "] => [initiative "@
            + spec_i64_text(e.total as int) + "]"@,
        InitKind::FreeformRoll => e.name@ + " (???): [roll "@ + spec_i64_text(e.roll as int)
            + "] => [initiative "@ + spec_i64_text(e.total as int) + "]"@,
    }
}

/// Renders one initiative trace line.
pub fn render_init_trace_line(e: &InitTraceEntry) -> (r: String)
    ensures
        r@ == spec_init_trace_line(*e),
{
    let mut s = e.name.clone();
    match e.kind {
        InitKind::PlayerRoll => {
            s.append(" (player): [roll ");
            s.append(i64_to_string(e.roll).as_str());
            s.append("] + [dexmod ");
            s.append(i64_to_string(e.dex_mod).as_str());
            s.append("] + [itvmod ");
            s.append(i64_to_string(e.init_bonus).as_str());
            s.append("] => [initiative ");
            s.append(i64_to_string(e.total).as_str());
            s.append("]");
        },
        InitKind::MonsterRoll => {
            s.append(" (monster): [roll ");
            s.append(i64_to_string(e.roll).as_str());
            s.append("] + [dexmod ");
            s.append(i64_to_string(e.dex_mod).as_str());
            s.append("] => [initiative ");
            s.append(i64_to_string(e.total).as_str());
            s.append("]");
        },
        InitKind::FreeformRoll => {
            s.append(" (???): [roll ");
            s.append(i64_to_string(e.roll).as_str());
            s.append("] => [initiative ");
            s.append(i64_to_string(e.total).as_str());
            s.append("]");
        },
    }
    s
}

/// The one-line status of a combatant: a monster-origin combatant is
/// narrated by its wound band (players should not see exact monster hit
/// points), anyone else by exact hit points.
pub open spec fn spec_combatant_line(c: Combatant) -> Seq<char> {
    if c.monster_id is Some {
        "* <b>"@ + c.name@ + "</b> is <i>"@ + wounds::spec_band_description(
            wounds::spec_wound_band(c.cur_hp as int, c.max_hp as int),
        ) + "</i> [initiative: "@ + spec_i64_text(c.initiative as int) + "]"@
    } else {
        "* <b>"@ + c.name@ + "</b> - HP "@ + spec_i64_text(c.cur_hp as int) + "/"@ + spec_i64_text(
            c.max_hp as int,
        ) + " [initiative: "@ + spec_i64_text(c.initiative as int) + "]"@
    }
}

/// Renders a combatant's one-line status.
pub fn render_combatant_line(c: &Combatant) -> (r: String)
    ensures
        r@ == spec_combatant_line(*c),
{
    let mut s = "* <b>".to_owned();
    s.append(c.name.as_str());
    if c.monster_id.is_some() {
        s.append("</b> is <i>");
        let band = wounds::classify_wounds(c.cur_hp, c.max_hp);
        s.append(band.description());
        s.append("</i> [initiative: ");
        s.append(i64_to_string(c.initiative).as_str());
        s.append("]");
    } else {
        s.append("</b> - HP ");
        s.append(i64_to_string(c.cur_hp).as_str());
        s.append("/");
        s.append(i64_to_string(c.max_hp).as_str());
        s.append(" [initiative: ");
        s.append(i64_to_string(c.initiative).as_str());
        s.append("]");
    }
    s
}

/// The text of an optional id, as record details show it.
pub open spec fn spec_opt_id_text(o: Option<i32>) -> Seq<char> {
    match o {
        Some(v) => "Some("@ + spec_i64_text(v as int) + ")"@,
        None => "None"@,
    }
}

/// Renders an optional id for record details.
pub fn render_opt_id(o: &Option<i32>) -> (r: String)
    ensures
        r@ == spec_opt_id_text(*o),
{
    match o {
        Some(v) => {
            let mut s = "Some(".to_owned();
            s.append(i64_to_string(*v as i64).as_str());
            s.append(")");
            s
        },
        None => "None".to_owned(),
    }
}

/// The detail block appended to a combatant's line for the game master.
pub open spec fn spec_combatant_details(c: Combatant) -> Seq<char> {
    "\nAC: "@ + spec_i64_text(c.armor_class as int) + "\nHP: "@ + spec_i64_text(c.cur_hp as int)
        + "/"@ + spec_i64_text(c.max_hp as int) + "\nMonster id: "@ + spec_opt_id_text(c.monster_id)
        + "\nPlayer id: "@ + spec_opt_id_text(c.player_id) + "\nAttack dice: "@ + c.attack@
        + "\nTo hit: "@ + spec_i64_text(c.attack_bonus as int)
}

/// Renders a combatant in full: the one-line status, and unless `short`
/// the stat details beneath it.
pub fn render_combatant(c: &Combatant, short: bool) -> (r: String)
    ensures
        short ==> r@ == spec_combatant_line(*c),
        !short ==> r@ == spec_combatant_line(*c) + spec_combatant_details(*c),
{
    let mut s = render_combatant_line(c);
    if !short {
        s.append("\nAC: ");
        s.append(i64_to_string(c.armor_class as i64).as_str());
        s.append("\nHP: ");
        s.append(i64_to_string(c.cur_hp).as_str());
        s.append("/");
        s.append(i64_to_string(c.max_hp).as_str());
        s.append("\nMonster id: ");
        s.append(render_opt_id(&c.monster_id).as_str());
        s.append("\nPlayer id: ");
        s.append(render_opt_id(&c.player_id).as_str());
        s.append("\nAttack dice: ");
        s.append(c.attack.as_str());
        s.append("\nTo hit: ");
        s.append(i64_to_string(c.attack_bonus as i64).as_str());
    }
    s
}

/// The play-by-play of one attack, given the attacker, the defender as
/// it stands after the attack, and the outcome: the header naming both
/// sides, the required roll, the actual roll, and either the failure
/// line or the damage dealt and the defender's state.
pub open spec fn spec_attack_report(a: Combatant, d: Combatant, out: AttackOutcome) -> Seq<char> {
    let head = "<b>"@ + a.name@ + "</b> [to-hit: "@ + spec_i64_text(a.attack_bonus as int)
        + "] attacks <b>"@ + d.name@ + "</b> [AC: "@ + spec_i64_text(d.armor_class as int)
        + "]!\nChecking AC: dice roll required = <b>"@ + spec_i64_text(out.target as int)
        + "</b>\nrolling 1d20: result = <b>"@ + spec_i64_text(out.roll as int) + "</b>\n\n"@;
    match out.kind {
        AttackKind::CriticalFailure => head + "CRITICAL FAILURE!"@,
        AttackKind::Miss => head + "Attack failed."@,
        AttackKind::Hit => head + "Dealing "@ + a.attack@ + " damage: result = <b>"@
            + spec_i64_text(spec_damage_of(out)) + "</b>\nOpponent's state after attack:\n\n"@
            + spec_combatant_line(d),
        AttackKind::CriticalHit => head + "Dealing "@ + a.attack@ + " damage: result = <b>"@
            + spec_i64_text(spec_damage_of(out))
            + "</b>\nCritical hit! Dealing extra damage. New damage = <b>"@ + spec_i64_text(
            spec_damage_of(out),
        ) + "</b>\nOpponent's state after attack:\n\n"@ + spec_combatant_line(d),
    }
}

/// The damage an outcome reports, 0 when none was dealt.
pub open spec fn spec_damage_of(out: AttackOutcome) -> int {
    match out.damage {
        Some(v) => v as int,
        None => 0,
    }
}

/// Renders the play-by-play of one attack.
pub fn render_attack_report(a: &Combatant, d: &Combatant, out: &AttackOutcome) -> (r: String)
    ensures
        r@ == spec_attack_report(*a, *d, *out),
{
    let mut s = "<b>".to_owned();
    s.append(a.name.as_str());
    s.append("</b> [to-hit: ");
    s.append(i64_to_string(a.attack_bonus as i64).as_str());
    s.append("] attacks <b>");
    s.append(d.name.as_str());
    s.append("</b> [AC: ");
    s.append(i64_to_string(d.armor_class as i64).as_str());
    s.append("]!\nChecking AC: dice roll required = <b>");
    s.append(i64_to_string(out.target).as_str());
    s.append("</b>\nrolling 1d20: result = <b>");
    s.append(i64_to_string(out.roll).as_str());
    s.append("</b>\n\n");
    let dmg: i64 = match out.damage {
        Some(v) => v,
        None => 0,
    };
    match out.kind {
        AttackKind::CriticalFailure => {
            s.append("CRITICAL FAILURE!");
        },
        AttackKind::Miss => {
            s.append("Attack failed.");
        },
        AttackKind::Hit => {
            s.append("Dealing ");
            s.append(a.attack.as_str());
            s.append(" damage: result = <b>");
            s.append(i64_to_string(dmg).as_str());
            s.append("</b>\nOpponent's state after attack:\n\n");
            s.append(render_combatant_line(d).as_str());
        },
        AttackKind::CriticalHit => {
            s.append("Dealing ");
            s.append(a.attack.as_str());
            s.append(" damage: result = <b>");
            s.append(i64_to_string(dmg).as_str());
            s.append("</b>\nCritical hit! Dealing extra damage. New damage = <b>");
            s.append(i64_to_string(dmg).as_str());
            s.append("</b>\nOpponent's state after attack:\n\n");
            s.append(render_combatant_line(d).as_str());
        },
    }
    s
}

/// Strings joined by a separator, in order.
pub open spec fn spec_join_strs(parts: Seq<String>, sep: Seq<char>) -> Seq<char>
    decreases parts.len(),
{
    if parts.len() == 0 {
        Seq::empty()
    } else if parts.len() == 1 {
        parts[0]@
    } else {
        spec_join_strs(parts.drop_last(), sep) + sep + parts.last()@
    }
}

/// Joins strings with a separator.
pub fn join_strings(parts: &Vec<String>, sep: &str) -> (r: String)
    ensures
        r@ == spec_join_strs(parts@, sep@),
{
    let mut s = String::new();
    let n = parts.len();
    let mut i: usize = 0;
    while i < n
        invariant
            n == parts@.len(),
            i <= n,
            s@ == spec_join_strs(parts@.subrange(0, i as int), sep@),
        decreases n - i,
    {
        if i > 0 {
            s.append(sep);
        }
        s.append(parts[i].as_str());
        proof {
            let pre = parts@.subrange(0, i as int);
            let cur = parts@.subrange(0, i as int + 1);
            assert(cur.drop_last() =~= pre);
            assert(cur.last() == parts@[i as int]);
            if i == 0 {
                assert(cur.len() == 1);
            }
        }
        i += 1;
    }
    proof {
        assert(parts@.subrange(0, n as int) =~= parts@);
    }
    s
}

/// A quantity or use count as shown to players: -1 is the unlimited
/// sentinel and shows as an infinity sign.
pub open spec fn spec_count_text(v: int) -> Seq<char> {
    if v == -1 {
        "\u{221e}"@
    } else {
        spec_i64_text(v)
    }
}

/// Renders a quantity or use count, -1 meaning unlimited.
pub fn render_count(v: i64) -> (r: String)
    ensures
        r@ == spec_count_text(v as int),
{
    if v == -1 {
        "\u{221e}".to_owned()
    } else {
        i64_to_string(v)
    }
}

/// A player's sheet: the stat line with each raw score and its
/// modifier, and the active buffs if any.
pub open spec fn spec_player_sheet(p: crate::models::Player) -> Seq<char> {
    let head = "#"@ + spec_i64_text(p.id as int) + ": <b>"@ + p.name@ + "</b> the "@ + p.typ@
        + " HP "@ + spec_i64_text(p.hit_points as int) + " AC "@ + spec_i64_text(
        p.armor_class as int,
    ) + "\nStr "@ + spec_i64_text(p.strength as int) + " <i>("@ + spec_i64_text(
        crate::stats::spec_score_to_mod(p.strength as int),
    ) + ")</i> Int "@ + spec_i64_text(p.intelligence as int) + " <i>("@ + spec_i64_text(
        crate::stats::spec_score_to_mod(p.intelligence as int),
    ) + ")</i> Dex "@ + spec_i64_text(p.dexterity as int) + " <i>("@ + spec_i64_text(
        crate::stats::spec_score_to_mod(p.dexterity as int),
    ) + ")</i> Con "@ + spec_i64_text(p.constitution as int) + " <i>("@ + spec_i64_text(
        crate::stats::spec_score_to_mod(p.constitution as int),
    ) + ")</i> Wis "@ + spec_i64_text(p.wisdom as int) + " <i>("@ + spec_i64_text(
        crate::stats::spec_score_to_mod(p.wisdom as int),
    ) + ")</i> Cha "@ + spec_i64_text(p.charisma as int) + " <i>("@ + spec_i64_text(
        crate::stats::spec_score_to_mod(p.charisma as int),
    ) + ")</i>"@;
    if p.buffs@.len() == 0 {
        head
    } else {
        head + "\nActive buffs: <b>"@ + spec_join_strs(p.buffs@, ", "@) + "</b>"@
    }
}

/// Renders a player's sheet.
pub fn render_player(p: &crate::models::Player) -> (r: String)
    ensures
        r@ == spec_player_sheet(*p),
{
    let mut s = "#".to_owned();
    s.append(i64_to_string(p.id as i64).as_str());
    s.append(": <b>");
    s.append(p.name.as_str());
    s.append("</b> the ");
    s.append(p.typ.as_str());
    s.append(" HP ");
    s.append(i64_to_string(p.hit_points as i64).as_str());
    s.append(" AC ");
    s.append(i64_to_string(p.armor_class as i64).as_str());
    s.append("\nStr ");
    s.append(i64_to_string(p.strength as i64).as_str());
    s.append(" <i>(");
    s.append(i64_to_string(crate::stats::score_to_mod(p.strength)).as_str());
    s.append(")</i> Int ");
    s.append(i64_to_string(p.intelligence as i64).as_str());
    s.append(" <i>(");
    s.append(i64_to_string(crate::stats::score_to_mod(p.intelligence)).as_str());
    s.append(")</i> Dex ");
    s.append(i64_to_string(p.dexterity as i64).as_str());
    s.append(" <i>(");
    s.append(i64_to_string(crate::stats::score_to_mod(p.dexterity)).as_str());
    s.append(")</i> Con ");
    s.append(i64_to_string(p.constitution as i64).as_str());
    s.append(" <i>(");
    s.append(i64_to_string(crate::stats::score_to_mod(p.constitution)).as_str());
    s.append(")</i> Wis ");
    s.append(i64_to_string(p.wisdom as i64).as_str());
    s.append(" <i>(");
    s.append(i64_to_string(crate::stats::score_to_mod(p.wisdom)).as_str());
    s.append(")</i> Cha ");
    s.append(i64_to_string(p.charisma as i64).as_str());
    s.append(" <i>(");
    s.append(i64_to_string(crate::stats::score_to_mod(p.charisma)).as_str());
    s.append(")</i>");
    if p.buffs.len() > 0 {
        s.append("\nActive buffs: <b>");
        s.append(join_strings(&p.buffs, ", ").as_str());
        s.append("</b>");
    }
    s
}

/// A monster's one-line description.
pub open spec fn spec_monster_line(m: crate::models::Monster) -> Seq<char> {
    "* <b>"@ + m.name@ + "</b>, a "@ + m.typ@ + ". HP "@ + spec_i64_text(m.hit_points as int)
        + " AC "@ + spec_i64_text(m.armor_class as int)
}

/// Renders a monster's one-line description.
pub fn render_monster(m: &crate::models::Monster) -> (r: String)
    ensures
        r@ == spec_monster_line(*m),
{
    let mut s = "* <b>".to_owned();
    s.append(m.name.as_str());
    s.append("</b>, a ");
    s.append(m.typ.as_str());
    s.append(". HP ");
    s.append(i64_to_string(m.hit_points as i64).as_str());
    s.append(" AC ");
    s.append(i64_to_string(m.armor_class as i64).as_str());
    s
}

/// An item's heading, and its description beneath unless `short`.
pub open spec fn spec_item_text(i: crate::models::Item, short: bool) -> Seq<char> {
    let head = "#"@ + spec_i64_text(i.id as int) + ": "@ + spec_count_text(i.qty as int) + "x <b>"@
        + i.name@ + "</b>"@;
    if short {
        head
    } else {
        head + "\n"@ + i.descrip@
    }
}

/// Renders an item.
pub fn render_item(i: &crate::models::Item, short: bool) -> (r: String)
    ensures
        r@ == spec_item_text(*i, short),
{
    let mut s = "#".to_owned();
    s.append(i64_to_string(i.id as i64).as_str());
    s.append(": ");
    s.append(render_count(i.qty as i64).as_str());
    s.append("x <b>");
    s.append(i.name.as_str());
    s.append("</b>");
    if !short {
        s.append("\n");
        s.append(i.descrip.as_str());
    }
    s
}

/// An ability's heading — its remaining uses and its overrides — and
/// its description beneath unless `short`.
pub open spec fn spec_ability_text(a: crate::models::Ability, short: bool) -> Seq<char> {
    let dmg = match a.damage_dice {
        Some(dice) => " [dmg "@ + dice@ + "]"@,
        None => Seq::<char>::empty(),
    };
    let atkb = match a.attack_bonus {
        Some(ab) => " [+"@ + spec_i64_text(ab as int) + " to hit]"@,
        None => Seq::<char>::empty(),
    };
    let head = "#"@ + spec_i64_text(a.id as int) + ": "@ + spec_count_text(a.uses_left as int)
        + "x <b>"@ + a.name@ + "</b>"@ + dmg + atkb;
    if short {
        head
    } else {
        head + "\n"@ + a.descrip@
    }
}

/// Renders an ability.
pub fn render_ability(a: &crate::models::Ability, short: bool) -> (r: String)
    ensures
        r@ == spec_ability_text(*a, short),
{
    let mut s = "#".to_owned();
    s.append(i64_to_string(a.id as i64).as_str());
    s.append(": ");
    s.append(render_count(a.uses_left as i64).as_str());
    s.append("x <b>");
    s.append(a.name.as_str());
    s.append("</b>");
    match &a.damage_dice {
        Some(dice) => {
            s.append(" [dmg ");
            s.append(dice.as_str());
            s.append("]");
        },
        None => {},
    }
    match a.attack_bonus {
        Some(ab) => {
            s.append(" [+");
            s.append(i64_to_string(ab as i64).as_str());
            s.append(" to hit]");
        },
        None => {},
    }
    if !short {
        s.append("\n");
        s.append(a.descrip.as_str());
    }
    s
}

/// A spell's heading, and its details beneath unless `short`.
pub open spec fn spec_spell_text(sp: crate::models::Spell, short: bool) -> Seq<char> {
    let head = "#"@ + spec_i64_text(sp.id as int) + ": <b>"@ + sp.name@ + "</b> ("@ + sp.typ@
        + ")"@;
    if short {
        head
    } else {
        head + "\nrange "@ + sp.range@ + " | time "@ + sp.casting_time@ + " | level "@ + sp.level@
            + "\n\n"@ + sp.descrip@
    }
}

/// Renders a spell.
pub fn render_spell(sp: &crate::models::Spell, short: bool) -> (r: String)
    ensures
        r@ == spec_spell_text(*sp, short),
{
    let mut s = "#".to_owned();
    s.append(i64_to_string(sp.id as i64).as_str());
    s.append(": <b>");
    s.append(sp.name.as_str());
    s.append("</b> (");
    s.append(sp.typ.as_str());
    s.append(")");
    if !short {
        s.append("\nrange ");
        s.append(sp.range.as_str());
        s.append(" | time ");
        s.append(sp.casting_time.as_str());
        s.append(" | level ");
        s.append(sp.level.as_str());
        s.append("\n\n");
        s.append(sp.descrip.as_str());
    }
    s
}

/// The short texts of a list of abilities, one per line; an empty list
/// reports that nothing was found.
pub open spec fn spec_ability_listing(abis: Seq<crate::models::Ability>) -> Seq<char> {
    if abis.len() == 0 {
        "No results found."@
    } else {
        spec_ability_lines(abis)
    }
}

/// The short texts of the abilities, joined by line breaks.
pub open spec fn spec_ability_lines(abis: Seq<crate::models::Ability>) -> Seq<char>
    decreases abis.len(),
{
    if abis.len() == 0 {
        Seq::empty()
    } else if abis.len() == 1 {
        spec_ability_text(abis[0], true)
    } else {
        spec_ability_lines(abis.drop_last()) + "\n"@ + spec_ability_text(abis.last(), true)
    }
}

/// Renders a list of abilities, one per line.
pub fn render_abilities(abis: &Vec<crate::models::Ability>) -> (r: String)
    ensures
        r@ == spec_ability_listing(abis@),
{
    if abis.len() == 0 {
        return "No results found.".to_owned();
    }
    let mut s = String::new();
    let n = abis.len();
    let mut i: usize = 0;
    while i < n
        invariant
            n == abis@.len(),
            i <= n,
            s@ == spec_ability_lines(abis@.subrange(0, i as int)),
        decreases n - i,
    {
        if i > 0 {
            s.append("\n");
        }
        s.append(render_ability(&abis[i], true).as_str());
        proof {
            let pre = abis@.subrange(0, i as int);
            let cur = abis@.subrange(0, i as int + 1);
            assert(cur.drop_last() =~= pre);
            assert(cur.last() == abis@[i as int]);
            if i == 0 {
                assert(cur.len() == 1);
            }
        }
        i += 1;
    }
    proof {
        assert(abis@.subrange(0, n as int) =~= abis@);
    }
    s
}

/// The short texts of a list of items, one per line; an empty list
/// reports that nothing was found.
pub open spec fn spec_item_listing(items: Seq<crate::models::Item>) -> Seq<char> {
    if items.len() == 0 {
        "No results found."@
    } else {
        spec_item_lines(items)
    }
}

/// The short texts of the items, joined by line breaks.
pub open spec fn spec_item_lines(items: Seq<crate::models::Item>) -> Seq<char>
    decreases items.len(),
{
    if items.len() == 0 {
        Seq::empty()
    } else if items.len() == 1 {
        spec_item_text(items[0], true)
    } else {
        spec_item_lines(items.drop_last()) + "\n"@ + spec_item_text(items.last(), true)
    }
}

/// Renders a list of items, one per line.
pub fn render_items(items: &Vec<crate::models::Item>) -> (r: String)
    ensures
        r@ == spec_item_listing(items@),
{
    if items.len() == 0 {
        return "No results found.".to_owned();
    }
    let mut s = String::new();
    let n = items.len();
    let mut i: usize = 0;
    while i < n
        invariant
            n == items@.len(),
            i <= n,
            s@ == spec_item_lines(items@.subrange(0, i as int)),
        decreases n - i,
    {
        if i > 0 {
            s.append("\n");
        }
        s.append(render_item(&items[i], true).as_str());
        proof {
            let pre = items@.subrange(0, i as int);
            let cur = items@.subrange(0, i as int + 1);
            assert(cur.drop_last() =~= pre);
            assert(cur.last() == items@[i as int]);
            if i == 0 {
                assert(cur.len() == 1);
            }
        }
        i += 1;
    }
    proof {
        assert(items@.subrange(0, n as int) =~= items@);
    }
    s
}

/// The status lines of the first `k` combatants in acting order, each
/// on its own line (with its leading line break).
pub open spec fn spec_roster_lines(roster: Seq<Combatant>, ord: Seq<usize>, k: int) -> Seq<char>
    decreases k,
{
    if k <= 0 {
        Seq::empty()
    } else {
        spec_roster_lines(roster, ord, k - 1) + "\n"@ + spec_combatant_line(
            roster[ord[k - 1] as int],
        )
    }
}

/// The roster listing: how many combatants are active, then each one's
/// status line in acting order.
pub open spec fn spec_roster_listing(roster: Seq<Combatant>, ord: Seq<usize>) -> Seq<char> {
    spec_i64_text(roster.len() as int) + " combatants active:"@ + spec_roster_lines(
        roster,
        ord,
        ord.len() as int,
    )
}

impl crate::encounter::Encounter {
    /// Renders the ordered roster listing: a headline with the number
    /// of active combatants, then one status line per combatant in
    /// acting order (highest initiative first).
    pub fn render_combatants(&self) -> (r: String)
        requires
            self.wf(),
        ensures
            forall|ord: Seq<usize>|
                crate::schedule::is_turn_order(self.combatants@, ord) ==> r@
                    == #[trigger] spec_roster_listing(self.combatants@, ord),
    {
        let ord = self.ordered_indices();
        let n = self.combatants.len();
        let mut s = i64_to_string(n as i64);
        s.append(" combatants active:");
        let mut i: usize = 0;
        while i < n
            invariant
                self.wf(),
                crate::schedule::is_turn_order(self.combatants@, ord@),
                n == self.combatants@.len(),
                n == ord@.len(),
                i <= n,
                s@ == spec_i64_text(n as int) + " combatants active:"@ + spec_roster_lines(
                    self.combatants@,
                    ord@,
                    i as int,
                ),
            decreases n - i,
        {
            s.append("\n");
            s.append(render_combatant_line(&self.combatants[ord[i]]).as_str());
            i += 1;
        }
        proof {
            assert forall|ord2: Seq<usize>|
                crate::schedule::is_turn_order(self.combatants@, ord2) implies s@
                == #[trigger] spec_roster_listing(self.combatants@, ord2) by {
                crate::schedule::lemma_turn_order_unique(self.combatants@, ord@, ord2);
            }
        }
        s
    }
}

/// Whether an ability belongs to the combatant's origin: a player's
/// abilities for a player-origin combatant, a monster's for a
/// monster-origin one; a freeform combatant has none.
pub open spec fn ability_matches_combatant(a: crate::models::Ability, c: Combatant) -> bool {
    match c.player_id {
        Some(pid) => a.player_id == Some(pid),
        None => match c.monster_id {
            Some(mid) => a.monster_id == Some(mid),
            None => false,
        },
    }
}

/// The abilities among `abilities` that the combatant's origin grants,
/// in record order.
pub open spec fn spec_matching_abilities(
    abilities: Seq<crate::models::Ability>,
    c: Combatant,
) -> Seq<crate::models::Ability>
    decreases abilities.len(),
{
    if abilities.len() == 0 {
        abilities
    } else {
        let rest = spec_matching_abilities(abilities.drop_last(), c);
        if ability_matches_combatant(abilities.last(), c) {
            rest.push(abilities.last())
        } else {
            rest
        }
    }
}

/// The turn options report: the acting combatant's abilities, or a
/// shrug when its origin grants none.
pub open spec fn spec_turn_options(c: Combatant, abilities: Seq<crate::models::Ability>) -> Seq<
    char,
> {
    let abis = spec_matching_abilities(abilities, c);
    if abis.len() == 0 {
        "Abilities for the current combatant:\n\n"@ + "[There don't seem to be any.]"@
    } else {
        "Abilities for the current combatant:\n\n"@ + spec_ability_lines(abis)
    }
}

/// Renders the abilities the acting combatant can use this turn.
pub fn describe_turn_options(c: &Combatant, abilities: &Vec<crate::models::Ability>) -> (r: String)
    ensures
        r@ == spec_turn_options(*c, abilities@),
{
    let ghost matched_seq = Seq::<crate::models::Ability>::empty();
    let mut matched_seq = Ghost(matched_seq);
    let mut lines = String::new();
    let mut count: usize = 0;
    let n = abilities.len();
    let mut i: usize = 0;
    proof {
        assert(abilities@.subrange(0, 0) =~= Seq::<crate::models::Ability>::empty());
    }
    while i < n
        invariant
            n == abilities@.len(),
            i <= n,
            count <= i,
            matched_seq@ == spec_matching_abilities(abilities@.subrange(0, i as int), *c),
            count as int == matched_seq@.len(),
            lines@ == spec_ability_lines(matched_seq@),
        decreases n - i,
    {
        let keep = match c.player_id {
            Some(pid) => match abilities[i].player_id {
                Some(apid) => apid == pid,
                None => false,
            },
            None => match c.monster_id {
                Some(mid) => match abilities[i].monster_id {
                    Some(amid) => amid == mid,
                    None => false,
                },
                None => false,
            },
        };
        proof {
            let pre = abilities@.subrange(0, i as int);
            let cur = abilities@.subrange(0, i as int + 1);
            assert(cur.drop_last() =~= pre);
            assert(cur.last() == abilities@[i as int]);
        }
        if keep {
            if count > 0 {
                lines.append("\n");
            }
            lines.append(render_ability(&abilities[i], true).as_str());
            count = count + 1;
            proof {
                let prev = matched_seq@;
                matched_seq@ = matched_seq@.push(abilities@[i as int]);
                assert(matched_seq@.drop_last() =~= prev);
                if prev.len() == 0 {
                    assert(matched_seq@.len() == 1);
                }
            }
        }
        i += 1;
    }
    proof {
        assert(abilities@.subrange(0, n as int) =~= abilities@);
    }
    let mut s = "Abilities for the current combatant:\n\n".to_owned();
    if count == 0 {
        s.append("[There don't seem to be any.]");
    } else {
        s.append(lines.as_str());
    }
    s
}

} // verus!
