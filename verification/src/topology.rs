//! The fixed cave: twenty rooms on the corners of a dodecahedron, each with
//! three tunnels to other rooms.
//!
//! The table never changes. Everything else in the crate speaks of the cave
//! through [`adjacent`]; this module also proves what the rest relies on:
//! every room has three different two-way exits, and every room can be
//! reached from every other.

use vstd::prelude::*;

verus! {

/// A room is named by its index in the cave.
pub type RoomNum = usize;

/// Number of rooms in the cave.
pub const MAZE_ROOMS: usize = 20;

/// Number of tunnels that leave each room.
pub const ROOM_NEIGHBOURS: usize = 3;

/// The tunnels: `ADJS[r]` lists the three rooms next to room `r`.
pub const ADJS: [[RoomNum; ROOM_NEIGHBOURS]; MAZE_ROOMS] = [
    [1, 4, 7],
    [0, 2, 9],
    [1, 3, 11],
    [2, 4, 13],
    [0, 3, 5],
    [4, 6, 14],
    [5, 7, 16],
    [0, 6, 8],
    [7, 9, 17],
    [1, 8, 10],
    [9, 11, 18],
    [2, 10, 12],
    [11, 13, 19],
    [3, 12, 14],
    [5, 13, 15],
    [14, 16, 19],
    [6, 15, 17],
    [8, 16, 18],
    [10, 17, 19],
    [12, 15, 18],
];

/// `room` names one of the twenty rooms.
pub open spec fn is_room(room: int) -> bool {
    0 <= room < MAZE_ROOMS
}

/// A tunnel leads from room `from` to room `to`.
pub open spec fn adjacent(from: int, to: int) -> bool {
    is_room(from) && (ADJS[from][0] == to || ADJS[from][1] == to || ADJS[from][2] == to)
}

/// The rooms next to `room`, as a set.
pub open spec fn neighbour_set(room: int) -> Set<int> {
    Set::new(|to: int| adjacent(room, to))
}

/// A walk through the cave: a non-empty list of rooms in which each room is
/// joined to the next by a tunnel.
pub open spec fn is_walk(path: Seq<int>) -> bool {
    &&& path.len() >= 1
    &&& is_room(path[0])
    &&& forall|i: int| 0 <= i < path.len() - 1 ==> adjacent(#[trigger] path[i], path[i + 1])
}

/// Some walk starts in `from` and ends in `to`.
pub open spec fn reachable(from: int, to: int) -> bool {
    exists|path: Seq<int>| is_walk(path) && path.first() == from && path.last() == to
}

/// Looks up the three exits of `room`.
pub fn tunnels(room: RoomNum) -> (exits: [RoomNum; ROOM_NEIGHBOURS])
    requires
        is_room(room as int),
    ensures
        exits == ADJS[room as int],
        forall|to: int|
            adjacent(room as int, to) <==> (exits[0] == to || exits[1] == to || exits[2] == to),
{
    ADJS[room]
}

/// Tells whether a tunnel leads from `from` to `to`. A number that names no
/// room has no tunnels.
pub fn has_tunnel(from: RoomNum, to: RoomNum) -> (yes: bool)
    ensures
        yes == adjacent(from as int, to as int),
{
    if from < MAZE_ROOMS {
        let exits = tunnels(from);
        exits[0] == to || exits[1] == to || exits[2] == to
    } else {
        false
    }
}

/// Every room has exactly three exits: they lead to three different rooms of
/// the cave, and none leads back into the room itself.
pub proof fn lemma_three_distinct_exits(room: int)
    requires
        is_room(room),
    ensures
        is_room(ADJS[room][0] as int),
        is_room(ADJS[room][1] as int),
        is_room(ADJS[room][2] as int),
        ADJS[room][0] != ADJS[room][1],
        ADJS[room][0] != ADJS[room][2],
        ADJS[room][1] != ADJS[room][2],
        ADJS[room][0] != room,
        ADJS[room][1] != room,
        ADJS[room][2] != room,
        !adjacent(room, room),
        neighbour_set(room).finite(),
        neighbour_set(room).len() == 3,
{
    let a = ADJS[room][0] as int;
    let b = ADJS[room][1] as int;
    let c = ADJS[room][2] as int;
    assert(neighbour_set(room) =~= set![a, b, c]);
}

/// Tunnels run both ways: whenever one leads from `from` to `to`, one leads
/// back from `to` to `from`.
pub proof fn lemma_tunnels_two_way(from: int, to: int)
    requires
        adjacent(from, to),
    ensures
        adjacent(to, from),
{
}

/// A tunnel only leads to a room of the cave.
pub proof fn lemma_tunnels_stay_inside(from: int, to: int)
    requires
        adjacent(from, to),
    ensures
        is_room(to),
        to != from,
{
}

/// A closed tour that visits every room once, each step through a tunnel.
spec fn tour() -> Seq<int> {
    seq![0, 1, 2, 3, 4, 5, 6, 16, 17, 18, 19, 15, 14, 13, 12, 11, 10, 9, 8, 7]
}

/// Where on the tour a room is visited.
spec fn tour_stop(room: int) -> int {
    if room <= 6 {
        room
    } else if room <= 15 {
        26 - room
    } else {
        room - 9
    }
}

proof fn lemma_tour()
    ensures
        tour().len() == 20,
        forall|room: int| is_room(room) ==> 0 <= #[trigger] tour_stop(room) < 20,
        forall|room: int| is_room(room) ==> tour()[#[trigger] tour_stop(room)] == room,
        forall|k: int| 0 <= k < 20 ==> is_room(#[trigger] tour()[k]),
        forall|k: int| 0 <= k < 19 ==> adjacent(#[trigger] tour()[k], tour()[k + 1]),
        adjacent(tour()[19], tour()[0]),
{
}

/// The cave is connected: from any room a walk through the tunnels reaches
/// any other room.
pub proof fn lemma_cave_connected(from: int, to: int)
    requires
        is_room(from),
        is_room(to),
    ensures
        reachable(from, to),
{
    lemma_tour();
    let i = tour_stop(from);
    let j = tour_stop(to);
    let path = if i <= j {
        tour().subrange(i, j + 1)
    } else {
        tour().subrange(i, 20) + tour().subrange(0, j + 1)
    };
    assert forall|k: int| 0 <= k < path.len() - 1 implies adjacent(
        #[trigger] path[k],
        path[k + 1],
    ) by {
        if i <= j {
            assert(path[k] == tour()[i + k]);
        } else if k < 19 - i {
            assert(path[k] == tour()[i + k]);
        } else if k == 19 - i {
            assert(path[k] == tour()[19]);
            assert(path[k + 1] == tour()[0]);
        } else {
            assert(path[k] == tour()[k - (20 - i)]);
        }
    }
    assert(is_walk(path) && path.first() == from && path.last() == to);
}

} // verus!
