//! What the rooms of the cave hold, as a sequence with one entry for each
//! room, and what it means for the cave to be stocked.
//!
//! The cave itself ([`crate::maze::Maze`]) is seen through such a sequence;
//! the rules of the game are stated over it.

use vstd::prelude::*;

use crate::topology::{adjacent, is_room, RoomNum, ADJS, MAZE_ROOMS};

verus! {

/// Number of rooms that hold bats.
pub const BATS: usize = 2;

/// Number of rooms that hold a pit.
pub const PITS: usize = 2;

/// What can wait for the player in a room.
#[derive(Clone, Copy, Debug, PartialEq, Eq, Structural)]
pub enum Danger {
    Wumpus,
    Bat,
    Pit,
}

/// How often `what` occurs in `contents`.
pub open spec fn count(contents: Seq<Option<Danger>>, what: Option<Danger>) -> nat
    decreases contents.len(),
{
    if contents.len() == 0 {
        0
    } else {
        count(contents.drop_last(), what) + if contents.last() == what {
            1nat
        } else {
            0nat
        }
    }
}

/// The cave is fully stocked: twenty rooms, of which one holds the Wumpus,
/// two hold a pit and two hold bats. A room holds one thing at most, so the
/// five are different rooms.
pub open spec fn populated(contents: Seq<Option<Danger>>) -> bool {
    &&& contents.len() == MAZE_ROOMS
    &&& count(contents, Some(Danger::Wumpus)) == 1
    &&& count(contents, Some(Danger::Pit)) == PITS
    &&& count(contents, Some(Danger::Bat)) == BATS
}

/// Room `room` holds neither a hazard nor the Wumpus.
pub open spec fn is_empty_room(contents: Seq<Option<Danger>>, room: int) -> bool {
    0 <= room < contents.len() && contents[room] is None
}

/// The contents of a cave with the Wumpus in room `wumpus`, pits in rooms
/// `pit_a` and `pit_b`, and bats in rooms `bat_a` and `bat_b`.
pub open spec fn stocked(wumpus: int, pit_a: int, pit_b: int, bat_a: int, bat_b: int) -> Seq<
    Option<Danger>,
> {
    Seq::new(
        MAZE_ROOMS as nat,
        |room: int|
            if room == wumpus {
                Some(Danger::Wumpus)
            } else if room == pit_a || room == pit_b {
                Some(Danger::Pit)
            } else if room == bat_a || room == bat_b {
                Some(Danger::Bat)
            } else {
                None
            },
    )
}

/// The five rooms all exist.
pub open spec fn all_rooms(wumpus: int, pit_a: int, pit_b: int, bat_a: int, bat_b: int) -> bool {
    is_room(wumpus) && is_room(pit_a) && is_room(pit_b) && is_room(bat_a) && is_room(bat_b)
}

/// No two of the five rooms are the same.
pub open spec fn all_different(
    wumpus: int,
    pit_a: int,
    pit_b: int,
    bat_a: int,
    bat_b: int,
) -> bool {
    &&& wumpus != pit_a && wumpus != pit_b && wumpus != bat_a && wumpus != bat_b
    &&& pit_a != pit_b && pit_a != bat_a && pit_a != bat_b
    &&& pit_b != bat_a && pit_b != bat_b
    &&& bat_a != bat_b
}

/// The room that holds the Wumpus.
pub open spec fn wumpus_room_of(contents: Seq<Option<Danger>>) -> int {
    choose|room: int| 0 <= room < contents.len() && contents[room] == Some(Danger::Wumpus)
}

/// The contents after the Wumpus has gone from room `from` to room `to`.
pub open spec fn relocated(contents: Seq<Option<Danger>>, from: int, to: int) -> Seq<
    Option<Danger>,
> {
    contents.update(from, None).update(to, Some(Danger::Wumpus))
}

/// Some room next to `room` holds `danger`.
pub open spec fn danger_nearby(contents: Seq<Option<Danger>>, room: int, danger: Danger) -> bool {
    exists|to: int| adjacent(room, to) && #[trigger] contents[to] == Some(danger)
}

/// The empty rooms among the first `upto`, in ascending order.
pub open spec fn empty_rooms_below(contents: Seq<Option<Danger>>, upto: nat) -> Seq<RoomNum>
    decreases upto,
{
    if upto == 0 {
        Seq::empty()
    } else if is_empty_room(contents, upto - 1) {
        empty_rooms_below(contents, (upto - 1) as nat).push((upto - 1) as usize)
    } else {
        empty_rooms_below(contents, (upto - 1) as nat)
    }
}

/// `room`, in a list of its own, where it is empty; otherwise the empty list.
pub open spec fn kept_if_empty(contents: Seq<Option<Danger>>, room: RoomNum) -> Seq<RoomNum> {
    if is_empty_room(contents, room as int) {
        seq![room]
    } else {
        Seq::empty()
    }
}

/// The empty rooms next to `room`, in the order of its exits.
pub open spec fn empty_neighbours_of(contents: Seq<Option<Danger>>, room: int) -> Seq<RoomNum> {
    kept_if_empty(contents, ADJS[room][0]) + kept_if_empty(contents, ADJS[room][1])
        + kept_if_empty(contents, ADJS[room][2])
}

/// Putting `new` into one room changes the count of what was there and of
/// what is there now, each by one, and no other count.
pub proof fn lemma_count_update(
    contents: Seq<Option<Danger>>,
    room: int,
    new: Option<Danger>,
    what: Option<Danger>,
)
    requires
        0 <= room < contents.len(),
    ensures
        count(contents.update(room, new), what) + (if contents[room] == what {
            1nat
        } else {
            0nat
        }) == count(contents, what) + (if new == what {
            1nat
        } else {
            0nat
        }),
    decreases contents.len(),
{
    let updated = contents.update(room, new);
    if room == contents.len() - 1 {
        assert(updated.drop_last() =~= contents.drop_last());
    } else {
        assert(updated.drop_last() =~= contents.drop_last().update(room, new));
        lemma_count_update(contents.drop_last(), room, new, what);
    }
}

/// A count is zero exactly when the thing occurs nowhere, and never exceeds
/// the number of rooms.
pub proof fn lemma_count_zero(contents: Seq<Option<Danger>>, what: Option<Danger>)
    ensures
        count(contents, what) <= contents.len(),
        count(contents, what) == 0 <==> forall|room: int|
            0 <= room < contents.len() ==> #[trigger] contents[room] != what,
    decreases contents.len(),
{
    if contents.len() > 0 {
        let front = contents.drop_last();
        lemma_count_zero(front, what);
        if count(contents, what) == 0 {
            assert forall|room: int| 0 <= room < contents.len() implies #[trigger] contents[room]
                != what by {
                if room < front.len() {
                    assert(front[room] == contents[room]);
                }
            }
        } else if contents.last() != what {
            let room = choose|room: int| 0 <= room < front.len() && front[room] == what;
            assert(contents[room] == what);
        }
    }
}

/// Something that is counted once stands in one room only.
pub proof fn lemma_count_one(contents: Seq<Option<Danger>>, what: Danger, a: int, b: int)
    requires
        count(contents, Some(what)) == 1,
        0 <= a < contents.len(),
        0 <= b < contents.len(),
        contents[a] == Some(what),
        contents[b] == Some(what),
    ensures
        a == b,
{
    lemma_count_update(contents, a, None, Some(what));
    lemma_count_zero(contents.update(a, None), Some(what));
    if a != b {
        assert(contents.update(a, None)[b] == Some(what));
    }
}

/// Something that is counted twice stands in two different rooms, and in no
/// third.
pub proof fn lemma_count_two(contents: Seq<Option<Danger>>, what: Danger) -> (rooms: (int, int))
    requires
        count(contents, Some(what)) == 2,
    ensures
        0 <= rooms.0 < contents.len(),
        0 <= rooms.1 < contents.len(),
        rooms.0 != rooms.1,
        forall|room: int|
            0 <= room < contents.len() ==> (#[trigger] contents[room] == Some(what) <==> room
                == rooms.0 || room == rooms.1),
{
    lemma_count_zero(contents, Some(what));
    let one = choose|room: int| 0 <= room < contents.len() && contents[room] == Some(what);
    let without_one = contents.update(one, None);
    lemma_count_update(contents, one, None, Some(what));
    lemma_count_zero(without_one, Some(what));
    let other = choose|room: int|
        0 <= room < without_one.len() && without_one[room] == Some(what);
    let without_both = without_one.update(other, None);
    lemma_count_update(without_one, other, None, Some(what));
    lemma_count_zero(without_both, Some(what));
    assert forall|room: int| 0 <= room < contents.len() implies (#[trigger] contents[room]
        == Some(what) <==> room == one || room == other) by {
        if room != one && room != other {
            assert(without_both[room] == contents[room]);
        }
    }
    (one, other)
}

/// Every room is counted once: as empty, or under the one thing it holds.
pub proof fn lemma_count_total(contents: Seq<Option<Danger>>)
    ensures
        count(contents, None) + count(contents, Some(Danger::Wumpus)) + count(
            contents,
            Some(Danger::Pit),
        ) + count(contents, Some(Danger::Bat)) == contents.len(),
    decreases contents.len(),
{
    if contents.len() > 0 {
        lemma_count_total(contents.drop_last());
        match contents.last() {
            None => {},
            Some(Danger::Wumpus) => {},
            Some(Danger::Pit) => {},
            Some(Danger::Bat) => {},
        }
    }
}

/// The count of `what` in `contents`, once `added` has turned up in one more
/// room.
pub open spec fn count_after_put(
    contents: Seq<Option<Danger>>,
    added: Danger,
    what: Option<Danger>,
) -> int {
    if what == Some(added) {
        count(contents, what) as int + 1
    } else if what is None {
        count(contents, what) - 1
    } else {
        count(contents, what) as int
    }
}

/// Putting something into an empty room adds one to its count, takes one
/// from the count of empty rooms and leaves the other counts alone.
pub proof fn lemma_count_put(contents: Seq<Option<Danger>>, room: int, added: Danger)
    requires
        is_empty_room(contents, room),
    ensures
        forall|what: Option<Danger>| #[trigger]
            count(contents.update(room, Some(added)), what) == count_after_put(
                contents,
                added,
                what,
            ),
{
    assert forall|what: Option<Danger>| #[trigger]
        count(contents.update(room, Some(added)), what) == count_after_put(
            contents,
            added,
            what,
        ) by {
        lemma_count_update(contents, room, Some(added), what);
    }
}

/// Where nothing has been placed yet, every room counts as empty.
pub proof fn lemma_count_unstocked(contents: Seq<Option<Danger>>)
    requires
        forall|room: int| 0 <= room < contents.len() ==> is_empty_room(contents, room),
    ensures
        count(contents, None) == contents.len(),
        forall|danger: Danger| count(contents, Some(danger)) == 0,
{
    assert forall|danger: Danger| count(contents, Some(danger)) == 0 by {
        assert forall|room: int| 0 <= room < contents.len() implies #[trigger] contents[room]
            != Some(danger) by {
            assert(is_empty_room(contents, room));
        }
        lemma_count_zero(contents, Some(danger));
    }
    lemma_count_total(contents);
}

/// In a stocked cave all rooms but five are empty.
pub proof fn lemma_populated_has_empty_rooms(contents: Seq<Option<Danger>>)
    requires
        populated(contents),
    ensures
        count(contents, None) == MAZE_ROOMS - 1 - PITS - BATS,
        exists|room: int| is_empty_room(contents, room),
{
    lemma_count_total(contents);
    lemma_count_zero(contents, None);
    let room = choose|room: int| 0 <= room < contents.len() && contents[room] == None::<Danger>;
    assert(is_empty_room(contents, room));
}

/// Stocking five different rooms gives a stocked cave.
pub proof fn lemma_stocked_populated(wumpus: int, pit_a: int, pit_b: int, bat_a: int, bat_b: int)
    requires
        all_rooms(wumpus, pit_a, pit_b, bat_a, bat_b),
        all_different(wumpus, pit_a, pit_b, bat_a, bat_b),
    ensures
        populated(stocked(wumpus, pit_a, pit_b, bat_a, bat_b)),
{
    let bare = Seq::new(MAZE_ROOMS as nat, |room: int| None::<Danger>);
    let first = bare.update(wumpus, Some(Danger::Wumpus));
    let second = first.update(pit_a, Some(Danger::Pit));
    let third = second.update(pit_b, Some(Danger::Pit));
    let fourth = third.update(bat_a, Some(Danger::Bat));
    let fifth = fourth.update(bat_b, Some(Danger::Bat));
    lemma_count_unstocked(bare);
    lemma_count_put(bare, wumpus, Danger::Wumpus);
    lemma_count_put(first, pit_a, Danger::Pit);
    lemma_count_put(second, pit_b, Danger::Pit);
    lemma_count_put(third, bat_a, Danger::Bat);
    lemma_count_put(fourth, bat_b, Danger::Bat);
    assert(count(first, Some(Danger::Wumpus)) == 1 && count(first, Some(Danger::Pit)) == 0
        && count(first, Some(Danger::Bat)) == 0);
    assert(count(second, Some(Danger::Wumpus)) == 1 && count(second, Some(Danger::Pit)) == 1
        && count(second, Some(Danger::Bat)) == 0);
    assert(count(third, Some(Danger::Wumpus)) == 1 && count(third, Some(Danger::Pit)) == 2
        && count(third, Some(Danger::Bat)) == 0);
    assert(count(fourth, Some(Danger::Wumpus)) == 1 && count(fourth, Some(Danger::Pit)) == 2
        && count(fourth, Some(Danger::Bat)) == 1);
    assert(fifth =~= stocked(wumpus, pit_a, pit_b, bat_a, bat_b));
}

/// In a stocked cave the Wumpus, the two pits and the two colonies of bats
/// are in five different rooms, and the other rooms are empty.
pub proof fn lemma_populated_five_rooms(contents: Seq<Option<Danger>>) -> (rooms: (
    int,
    int,
    int,
    int,
    int,
))
    requires
        populated(contents),
    ensures
        all_rooms(rooms.0, rooms.1, rooms.2, rooms.3, rooms.4),
        all_different(rooms.0, rooms.1, rooms.2, rooms.3, rooms.4),
        contents == stocked(rooms.0, rooms.1, rooms.2, rooms.3, rooms.4),
{
    let wumpus = wumpus_room_of(contents);
    lemma_wumpus_room(contents, 0);
    let pits = lemma_count_two(contents, Danger::Pit);
    let bats = lemma_count_two(contents, Danger::Bat);
    assert(contents[pits.0] == Some(Danger::Pit) && contents[pits.1] == Some(Danger::Pit));
    assert(contents[bats.0] == Some(Danger::Bat) && contents[bats.1] == Some(Danger::Bat));
    assert forall|room: int| 0 <= room < contents.len() implies #[trigger] contents[room]
        == stocked(wumpus, pits.0, pits.1, bats.0, bats.1)[room] by {
        lemma_wumpus_room(contents, room);
        match contents[room] {
            Some(Danger::Wumpus) => {},
            Some(Danger::Pit) => {},
            Some(Danger::Bat) => {},
            None => {},
        }
    }
    assert(contents =~= stocked(wumpus, pits.0, pits.1, bats.0, bats.1));
    (wumpus, pits.0, pits.1, bats.0, bats.1)
}

/// In a stocked cave the Wumpus is in one room of the cave, and `room` is
/// that room whenever it holds the Wumpus.
pub proof fn lemma_wumpus_room(contents: Seq<Option<Danger>>, room: int)
    requires
        populated(contents),
    ensures
        is_room(wumpus_room_of(contents)),
        contents[wumpus_room_of(contents)] == Some(Danger::Wumpus),
        is_room(room) && contents[room] == Some(Danger::Wumpus) ==> room == wumpus_room_of(
            contents,
        ),
{
    lemma_count_zero(contents, Some(Danger::Wumpus));
    if is_room(room) && contents[room] == Some(Danger::Wumpus) {
        lemma_count_one(contents, Danger::Wumpus, room, wumpus_room_of(contents));
    }
}

/// A stocked cave stays stocked when the Wumpus goes to an empty room.
pub proof fn lemma_relocated_populated(contents: Seq<Option<Danger>>, from: int, to: int)
    requires
        populated(contents),
        is_room(from),
        contents[from] == Some(Danger::Wumpus),
        is_empty_room(contents, to),
    ensures
        populated(relocated(contents, from, to)),
{
    let left = contents.update(from, None);
    lemma_count_update(contents, from, None, Some(Danger::Wumpus));
    lemma_count_update(contents, from, None, Some(Danger::Pit));
    lemma_count_update(contents, from, None, Some(Danger::Bat));
    lemma_count_update(left, to, Some(Danger::Wumpus), Some(Danger::Wumpus));
    lemma_count_update(left, to, Some(Danger::Wumpus), Some(Danger::Pit));
    lemma_count_update(left, to, Some(Danger::Wumpus), Some(Danger::Bat));
}

/// The list of empty rooms holds every empty room below its bound, and
/// nothing else.
pub proof fn lemma_empty_rooms_below(contents: Seq<Option<Danger>>, upto: nat, room: RoomNum)
    requires
        upto <= usize::MAX,
    ensures
        empty_rooms_below(contents, upto).contains(room) <==> room < upto && is_empty_room(
            contents,
            room as int,
        ),
    decreases upto,
{
    if upto > 0 {
        let shorter = empty_rooms_below(contents, (upto - 1) as nat);
        lemma_empty_rooms_below(contents, (upto - 1) as nat, room);
        if is_empty_room(contents, upto - 1) {
            let last = (upto - 1) as usize;
            let longer = shorter.push(last);
            if shorter.contains(room) {
                let at = choose|at: int| 0 <= at < shorter.len() && shorter[at] == room;
                assert(longer[at] == room);
            }
            if room == last {
                assert(longer[shorter.len() as int] == room);
            }
        }
    }
}

} // verus!
