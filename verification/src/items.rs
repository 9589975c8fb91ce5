use vstd::prelude::*;

use crate::models::{Ability, Item};

verus! {

/// Why an item cannot be picked up or dropped; the exact line reported
/// back to the player.
pub open spec fn spec_pick_up_check(item: Item, room_id: i32) -> Option<Seq<char>> {
    if !(item.room_id matches Some(r) && r == room_id) {
        Some("That item isn't in the current room."@)
    } else if item.player_id is Some {
        Some("Another player has that item (this error shouldn't occur)"@)
    } else {
        None
    }
}

/// Checks whether an item can be picked up from the given room: it
/// must lie in that room and belong to nobody.
pub fn check_pick_up(item: &Item, room_id: i32) -> (r: Result<(), &'static str>)
    ensures
        match spec_pick_up_check(*item, room_id) {
            Some(m) => r matches Err(e) && e@ == m,
            None => r == Ok::<(), &'static str>(()),
        },
{
    let in_room = match item.room_id {
        Some(rid) => rid == room_id,
        None => false,
    };
    if !in_room {
        Err("That item isn't in the current room.")
    } else if item.player_id.is_some() {
        Err("Another player has that item (this error shouldn't occur)")
    } else {
        Ok(())
    }
}

/// Checks whether a player can drop an item: only its owner can.
pub fn check_drop(item: &Item, player_id: i32) -> (r: Result<(), &'static str>)
    ensures
        (item.player_id matches Some(p) && p == player_id) ==> r == Ok::<(), &'static str>(()),
        !(item.player_id matches Some(p) && p == player_id) ==> (r matches Err(e) && e@
            == "You don't own that item."@),
{
    let owned = match item.player_id {
        Some(pid) => pid == player_id,
        None => false,
    };
    if owned {
        Ok(())
    } else {
        Err("You don't own that item.")
    }
}

/// Moves an item into a player's hands: owned by the player, in no
/// room. Everything else is untouched.
pub fn pick_up_item(item: &mut Item, player_id: i32)
    ensures
        final(item).id == old(item).id,
        final(item).name == old(item).name,
        final(item).descrip == old(item).descrip,
        final(item).qty == old(item).qty,
        final(item).player_id == Some(player_id),
        final(item).room_id is None,
{
    item.player_id = Some(player_id);
    item.room_id = None;
}

/// Drops an item into a room: owned by nobody, lying in the room.
pub fn drop_item(item: &mut Item, room_id: i32)
    ensures
        final(item).id == old(item).id,
        final(item).name == old(item).name,
        final(item).descrip == old(item).descrip,
        final(item).qty == old(item).qty,
        final(item).player_id is None,
        final(item).room_id == Some(room_id),
{
    item.player_id = None;
    item.room_id = Some(room_id);
}

/// `a2` is `a1` with its owning player replaced.
pub open spec fn is_ability_reassigned(a2: Ability, a1: Ability, player_id: Option<i32>) -> bool {
    &&& a2.id == a1.id
    &&& a2.name == a1.name
    &&& a2.descrip == a1.descrip
    &&& a2.damage_dice == a1.damage_dice
    &&& a2.attack_bonus == a1.attack_bonus
    &&& a2.uses_left == a1.uses_left
    &&& a2.uses == a1.uses
    &&& a2.monster_id == a1.monster_id
    &&& a2.player_id == player_id
    &&& a2.item_id == a1.item_id
}

/// Hands every ability granted by an item to the given player (or to
/// nobody): picking an item up grants its abilities, dropping it takes
/// them away. Returns the indices of the abilities that changed hands.
pub fn reassign_item_abilities(abilities: &mut Vec<Ability>, item_id: i32, player_id: Option<i32>)
    -> (changed: Vec<usize>)
    ensures
        final(abilities)@.len() == old(abilities)@.len(),
        forall|i: int|
            0 <= i < old(abilities)@.len() && old(abilities)@[i].item_id != Some(item_id)
                ==> final(abilities)@[i] == old(abilities)@[i],
        forall|i: int|
            0 <= i < old(abilities)@.len() && old(abilities)@[i].item_id == Some(item_id)
                ==> is_ability_reassigned(
                (#[trigger] final(abilities)@[i]),
                old(abilities)@[i],
                player_id,
            ),
        forall|k: int|
            0 <= k < changed@.len() ==> 0 <= (#[trigger] changed@[k]) < old(abilities)@.len()
                && old(abilities)@[changed@[k] as int].item_id == Some(item_id),
{
    let n = abilities.len();
    let mut changed: Vec<usize> = Vec::new();
    let mut i: usize = 0;
    while i < n
        invariant
            n == old(abilities)@.len(),
            abilities@.len() == n,
            i <= n,
            forall|j: int| i <= j < n ==> abilities@[j] == old(abilities)@[j],
            forall|j: int|
                0 <= j < i && old(abilities)@[j].item_id != Some(item_id) ==> abilities@[j] == old(
                    abilities,
                )@[j],
            forall|j: int|
                0 <= j < i && old(abilities)@[j].item_id == Some(item_id)
                    ==> is_ability_reassigned(
                    (#[trigger] abilities@[j]),
                    old(abilities)@[j],
                    player_id,
                ),
            forall|k: int|
                0 <= k < changed@.len() ==> 0 <= (#[trigger] changed@[k]) < n && old(
                    abilities,
                )@[changed@[k] as int].item_id == Some(item_id),
        decreases n - i,
    {
        let matches_item = match abilities[i].item_id {
            Some(iid) => iid == item_id,
            None => false,
        };
        if matches_item {
            abilities[i].player_id = player_id;
            changed.push(i);
        }
        i += 1;
    }
    changed
}

} // verus!
