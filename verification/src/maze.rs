//! The cave with what lives in it: two pits, two colonies of bats and the
//! Wumpus, each in a room of its own.

use rand::rngs::ThreadRng;
use vstd::prelude::*;
use vstd::string::StringExecFns;

use crate::contents::{
    all_different, all_rooms, count, danger_nearby, empty_neighbours_of, empty_rooms_below,
    is_empty_room, kept_if_empty, lemma_count_put, lemma_count_unstocked, lemma_count_zero,
    lemma_empty_rooms_below, lemma_populated_has_empty_rooms, lemma_relocated_populated,
    lemma_stocked_populated, lemma_wumpus_room, populated, relocated, stocked, wumpus_room_of,
    Danger, BATS, PITS,
};
use crate::random::choose_room;
use crate::text::{
    decimal, decimal_text, BAT_NEARBY, COMMA, EXITS, PIT_NEARBY, ROOM_INTRO, WUMPUS_NEARBY,
};
use crate::token::{number_value, parse_number};
use crate::topology::{
    adjacent, has_tunnel, is_room, lemma_tunnels_stay_inside, tunnels, RoomNum, ADJS, MAZE_ROOMS,
    ROOM_NEIGHBOURS,
};

verus! {

/// One room of the cave: its number, its three exits and what it holds.
#[derive(Clone, Copy, Debug)]
pub struct Room {
    pub id: RoomNum,
    pub neighbours: [RoomNum; ROOM_NEIGHBOURS],
    pub danger: Option<Danger>,
}

impl Room {
    /// The room has the number of a room of the cave, and its exits are
    /// those that the table gives to that room.
    pub open spec fn wired(&self) -> bool {
        is_room(self.id as int) && self.neighbours == ADJS[self.id as int]
    }

    /// An empty room with the exits of room `id`.
    pub fn new(id: RoomNum) -> (room: Room)
        requires
            is_room(id as int),
        ensures
            room == (Room { id, neighbours: ADJS[id as int], danger: None }),
            room.wired(),
    {
        Room { id, neighbours: tunnels(id), danger: None }
    }

    /// The numbers of the rooms that this room's exits lead to, in the order
    /// of the table.
    pub fn neighbour_ids(&self) -> (ids: Vec<RoomNum>)
        ensures
            ids@ == self.neighbours@,
    {
        let mut ids: Vec<RoomNum> = Vec::new();
        ids.push(self.neighbours[0]);
        ids.push(self.neighbours[1]);
        ids.push(self.neighbours[2]);
        assert(ids@ =~= self.neighbours@);
        ids
    }
}

/// What each room of `rooms` holds, room by room.
pub open spec fn contents_of(rooms: Seq<Room>) -> Seq<Option<Danger>> {
    Seq::new(rooms.len(), |i: int| rooms[i].danger)
}

/// `rooms` are the twenty rooms of the cave in order, each wired as the
/// table says.
pub open spec fn rooms_wired(rooms: Seq<Room>) -> bool {
    &&& rooms.len() == MAZE_ROOMS
    &&& forall|i: int| 0 <= i < rooms.len() ==> (#[trigger] rooms[i]).id == i && rooms[i].wired()
}

/// In wired rooms, the exits that a room lists are the tunnels of the cave.
pub proof fn lemma_wired_rooms_follow_the_table(rooms: Seq<Room>, from: int, to: int)
    requires
        rooms_wired(rooms),
        is_room(from),
    ensures
        adjacent(from, to) <==> (rooms[from].neighbours[0] == to || rooms[from].neighbours[1] == to
            || rooms[from].neighbours[2] == to),
{
    assert(rooms[from].wired());
}

/// Why a cave could not be stocked as asked.
#[derive(Clone, Copy, Debug, PartialEq, Eq, Structural)]
pub enum PlacementError {
    /// One of the rooms does not exist.
    NoSuchRoom,
    /// Two things were to go into the same room.
    Occupied,
}

/// Why a token names no room to go or shoot to.
#[derive(Clone, Copy, Debug, PartialEq, Eq, Structural)]
pub enum DestinationError {
    /// The token is no number.
    NotANumber,
    /// The token is a number, but no tunnel leads to a room of that number.
    NotAdjacent,
}

/// The room that `token` names for a player in room `from`: the token has to
/// be a number, and the number that of a room next to `from`.
pub open spec fn destination_of(token: Seq<char>, from: int) -> Result<RoomNum, DestinationError> {
    match number_value(token) {
        None => Err(DestinationError::NotANumber),
        Some(number) => if adjacent(from, number as int) {
            Ok(number as usize)
        } else {
            Err(DestinationError::NotAdjacent)
        },
    }
}

/// `hint` where `shown` holds, and nothing otherwise.
pub open spec fn hint_if(shown: bool, hint: Seq<char>) -> Seq<char> {
    if shown {
        hint
    } else {
        Seq::empty()
    }
}

/// What a player in `room` is told about it: the room's number, a hint for
/// each kind of danger next door (pit, bats, Wumpus, in this order) and the
/// three exits.
pub open spec fn description(contents: Seq<Option<Danger>>, room: int) -> Seq<char> {
    ROOM_INTRO@ + decimal(room as nat) + hint_if(
        danger_nearby(contents, room, Danger::Pit),
        PIT_NEARBY@,
    ) + hint_if(danger_nearby(contents, room, Danger::Bat), BAT_NEARBY@) + hint_if(
        danger_nearby(contents, room, Danger::Wumpus),
        WUMPUS_NEARBY@,
    ) + EXITS@ + decimal(ADJS[room][0] as nat) + COMMA@ + decimal(ADJS[room][1] as nat) + COMMA@
        + decimal(ADJS[room][2] as nat)
}

/// The cave: its twenty rooms, wired and stocked.
#[derive(Debug)]
pub struct Maze {
    rooms: Vec<Room>,
}

impl View for Maze {
    type V = Seq<Option<Danger>>;

    /// What each room holds, by room number.
    closed spec fn view(&self) -> Seq<Option<Danger>> {
        contents_of(self.rooms@)
    }
}

/// Twenty empty rooms with their exits.
fn wire_rooms() -> (rooms: Vec<Room>)
    ensures
        rooms_wired(rooms@),
        forall|room: int| 0 <= room < MAZE_ROOMS ==> is_empty_room(contents_of(rooms@), room),
{
    let mut rooms: Vec<Room> = Vec::new();
    let mut id: usize = 0;
    while id < MAZE_ROOMS
        invariant
            id <= MAZE_ROOMS,
            rooms@.len() == id,
            forall|i: int| 0 <= i < id ==> (#[trigger] rooms@[i]).id == i && rooms@[i].wired(),
            forall|i: int| 0 <= i < id ==> (#[trigger] rooms@[i]).danger is None,
        decreases MAZE_ROOMS - id,
    {
        rooms.push(Room::new(id));
        id += 1;
    }
    rooms
}

/// Puts `danger` into the empty room `room`.
fn put(rooms: &mut Vec<Room>, room: RoomNum, danger: Danger)
    requires
        rooms_wired(old(rooms)@),
        is_empty_room(contents_of(old(rooms)@), room as int),
    ensures
        rooms_wired(final(rooms)@),
        contents_of(final(rooms)@) == contents_of(old(rooms)@).update(room as int, Some(danger)),
{
    let ghost before = contents_of(rooms@);
    let kept = rooms[room];
    rooms.set(room, Room { id: kept.id, neighbours: kept.neighbours, danger: Some(danger) });
    assert(contents_of(rooms@) =~= before.update(room as int, Some(danger)));
}

/// Lists the empty rooms in ascending order.
fn list_empty(rooms: &Vec<Room>) -> (empty: Vec<RoomNum>)
    ensures
        empty@ == empty_rooms_below(contents_of(rooms@), rooms@.len()),
{
    let mut empty: Vec<RoomNum> = Vec::new();
    let mut room: usize = 0;
    while room < rooms.len()
        invariant
            room <= rooms@.len(),
            empty@ == empty_rooms_below(contents_of(rooms@), room as nat),
        decreases rooms@.len() - room,
    {
        if rooms[room].danger.is_none() {
            empty.push(room);
        }
        room += 1;
    }
    empty
}

/// Draws one of the empty rooms, each of which is listed once.
fn pick_empty(rooms: &Vec<Room>, rng: &mut ThreadRng) -> (room: RoomNum)
    requires
        count(contents_of(rooms@), None) > 0,
    ensures
        is_empty_room(contents_of(rooms@), room as int),
{
    let empty = list_empty(rooms);
    let ghost rooms_len = rooms.len();
    proof {
        let contents = contents_of(rooms@);
        lemma_count_zero(contents, None);
        let free = choose|free: int| 0 <= free < contents.len() && contents[free] == None::<Danger>;
        lemma_empty_rooms_below(contents, rooms@.len(), free as usize);
    }
    match choose_room(&empty, rng) {
        Some(room) => {
            proof {
                lemma_empty_rooms_below(contents_of(rooms@), rooms@.len(), room);
            }
            room
        },
        None => vstd::pervasive::unreached(),
    }
}

/// The rooms as they are once the Wumpus has gone from `from` to `to`.
fn relocate(rooms: &Vec<Room>, from: RoomNum, to: RoomNum) -> (moved: Vec<Room>)
    requires
        rooms_wired(rooms@),
        is_room(from as int),
        is_room(to as int),
    ensures
        rooms_wired(moved@),
        contents_of(moved@) == relocated(contents_of(rooms@), from as int, to as int),
{
    let mut moved: Vec<Room> = Vec::new();
    let mut id: usize = 0;
    while id < MAZE_ROOMS
        invariant
            id <= MAZE_ROOMS,
            rooms_wired(rooms@),
            is_room(from as int),
            is_room(to as int),
            moved@.len() == id,
            forall|i: int| 0 <= i < id ==> (#[trigger] moved@[i]).id == i && moved@[i].wired(),
            forall|i: int|
                0 <= i < id ==> (#[trigger] moved@[i]).danger == relocated(
                    contents_of(rooms@),
                    from as int,
                    to as int,
                )[i],
        decreases MAZE_ROOMS - id,
    {
        let room = rooms[id];
        let danger = if id == to {
            Some(Danger::Wumpus)
        } else if id == from {
            None
        } else {
            room.danger
        };
        moved.push(Room { id: room.id, neighbours: room.neighbours, danger });
        id += 1;
    }
    assert(contents_of(moved@) =~= relocated(contents_of(rooms@), from as int, to as int));
    moved
}

impl Maze {
    /// What holds of every cave: the rooms are wired and the cave is stocked.
    #[verifier::type_invariant]
    pub closed spec fn well_formed(&self) -> bool {
        rooms_wired(self.rooms@) && populated(contents_of(self.rooms@))
    }

    /// A well-formed cave is stocked.
    pub proof fn lemma_well_formed(&self)
        requires
            self.well_formed(),
        ensures
            populated(self@),
    {
    }

    /// Builds the cave and stocks it at random: first the Wumpus, then the
    /// pits, then the bats, each into a room drawn from those still empty.
    /// Returns the cave and the room of the Wumpus.
    pub fn new(rng: &mut ThreadRng) -> (made: (Maze, RoomNum))
        ensures
            populated(made.0@),
            is_room(made.1 as int),
            made.0@[made.1 as int] == Some(Danger::Wumpus),
    {
        let mut rooms = wire_rooms();
        proof {
            lemma_count_unstocked(contents_of(rooms@));
        }
        let wumpus = pick_empty(&rooms, rng);
        proof {
            lemma_count_put(contents_of(rooms@), wumpus as int, Danger::Wumpus);
        }
        put(&mut rooms, wumpus, Danger::Wumpus);
        let mut pits: usize = 0;
        while pits < PITS
            invariant
                pits <= PITS,
                rooms_wired(rooms@),
                is_room(wumpus as int),
                contents_of(rooms@)[wumpus as int] == Some(Danger::Wumpus),
                count(contents_of(rooms@), None) == MAZE_ROOMS - 1 - pits,
                count(contents_of(rooms@), Some(Danger::Wumpus)) == 1,
                count(contents_of(rooms@), Some(Danger::Pit)) == pits,
                count(contents_of(rooms@), Some(Danger::Bat)) == 0,
            decreases PITS - pits,
        {
            let room = pick_empty(&rooms, rng);
            proof {
                lemma_count_put(contents_of(rooms@), room as int, Danger::Pit);
            }
            put(&mut rooms, room, Danger::Pit);
            pits += 1;
        }
        let mut bats: usize = 0;
        while bats < BATS
            invariant
                bats <= BATS,
                rooms_wired(rooms@),
                is_room(wumpus as int),
                contents_of(rooms@)[wumpus as int] == Some(Danger::Wumpus),
                count(contents_of(rooms@), None) == MAZE_ROOMS - 1 - PITS - bats,
                count(contents_of(rooms@), Some(Danger::Wumpus)) == 1,
                count(contents_of(rooms@), Some(Danger::Pit)) == PITS,
                count(contents_of(rooms@), Some(Danger::Bat)) == bats,
            decreases BATS - bats,
        {
            let room = pick_empty(&rooms, rng);
            proof {
                lemma_count_put(contents_of(rooms@), room as int, Danger::Bat);
            }
            put(&mut rooms, room, Danger::Bat);
            bats += 1;
        }
        (Maze { rooms }, wumpus)
    }

    /// Builds the cave with the Wumpus in `wumpus`, pits in the two rooms of
    /// `pits` and bats in the two rooms of `bats`. Refuses a room that does
    /// not exist, and then a room that is asked for twice.
    pub fn with_dangers(wumpus: RoomNum, pits: [RoomNum; 2], bats: [RoomNum; 2]) -> (made: Result<
        Maze,
        PlacementError,
    >)
        ensures
            made is Ok <==> all_rooms(
                wumpus as int,
                pits[0] as int,
                pits[1] as int,
                bats[0] as int,
                bats[1] as int,
            ) && all_different(
                wumpus as int,
                pits[0] as int,
                pits[1] as int,
                bats[0] as int,
                bats[1] as int,
            ),
            made matches Ok(maze) ==> maze@ == stocked(
                wumpus as int,
                pits[0] as int,
                pits[1] as int,
                bats[0] as int,
                bats[1] as int,
            ) && populated(maze@),
            made matches Err(error) ==> error == if all_rooms(
                wumpus as int,
                pits[0] as int,
                pits[1] as int,
                bats[0] as int,
                bats[1] as int,
            ) {
                PlacementError::Occupied
            } else {
                PlacementError::NoSuchRoom
            },
    {
        if wumpus >= MAZE_ROOMS || pits[0] >= MAZE_ROOMS || pits[1] >= MAZE_ROOMS || bats[0]
            >= MAZE_ROOMS || bats[1] >= MAZE_ROOMS {
            return Err(PlacementError::NoSuchRoom);
        }
        if wumpus == pits[0] || wumpus == pits[1] || wumpus == bats[0] || wumpus == bats[1]
            || pits[0] == pits[1] || pits[0] == bats[0] || pits[0] == bats[1] || pits[1] == bats[0]
            || pits[1] == bats[1] || bats[0] == bats[1] {
            return Err(PlacementError::Occupied);
        }
        let mut rooms: Vec<Room> = Vec::new();
        let mut id: usize = 0;
        while id < MAZE_ROOMS
            invariant
                id <= MAZE_ROOMS,
                rooms@.len() == id,
                forall|i: int| 0 <= i < id ==> (#[trigger] rooms@[i]).id == i && rooms@[i].wired(),
                forall|i: int|
                    0 <= i < id ==> (#[trigger] rooms@[i]).danger == stocked(
                        wumpus as int,
                        pits[0] as int,
                        pits[1] as int,
                        bats[0] as int,
                        bats[1] as int,
                    )[i],
            decreases MAZE_ROOMS - id,
        {
            let danger = if id == wumpus {
                Some(Danger::Wumpus)
            } else if id == pits[0] || id == pits[1] {
                Some(Danger::Pit)
            } else if id == bats[0] || id == bats[1] {
                Some(Danger::Bat)
            } else {
                None
            };
            rooms.push(Room { id, neighbours: tunnels(id), danger });
            id += 1;
        }
        proof {
            assert(contents_of(rooms@) =~= stocked(
                wumpus as int,
                pits[0] as int,
                pits[1] as int,
                bats[0] as int,
                bats[1] as int,
            ));
            lemma_stocked_populated(
                wumpus as int,
                pits[0] as int,
                pits[1] as int,
                bats[0] as int,
                bats[1] as int,
            );
        }
        Ok(Maze { rooms })
    }

    /// The twenty rooms, in order.
    pub fn rooms(&self) -> (rooms: &Vec<Room>)
        ensures
            rooms_wired(rooms@),
            contents_of(rooms@) == self@,
            populated(self@),
    {
        proof {
            use_type_invariant(self);
        }
        &self.rooms
    }

    /// What room `room` holds.
    pub fn danger(&self, room: RoomNum) -> (held: Option<Danger>)
        requires
            is_room(room as int),
        ensures
            held == self@[room as int],
    {
        proof {
            use_type_invariant(self);
        }
        self.rooms[room].danger
    }

    /// The room in which the Wumpus is.
    pub fn wumpus_room(&self) -> (room: RoomNum)
        ensures
            room == wumpus_room_of(self@),
            is_room(room as int),
            self@[room as int] == Some(Danger::Wumpus),
    {
        proof {
            use_type_invariant(self);
            lemma_wumpus_room(self@, 0);
        }
        let mut room: usize = 0;
        while room < MAZE_ROOMS
            invariant
                room <= MAZE_ROOMS,
                self.rooms@.len() == MAZE_ROOMS,
                populated(self@),
                is_room(wumpus_room_of(self@)),
                forall|before: int| 0 <= before < room ==> self@[before] != Some(Danger::Wumpus),
                self@[wumpus_room_of(self@)] == Some(Danger::Wumpus),
            decreases MAZE_ROOMS - room,
        {
            if self.rooms[room].danger == Some(Danger::Wumpus) {
                proof {
                    lemma_wumpus_room(self@, room as int);
                }
                return room;
            }
            room += 1;
        }
        vstd::pervasive::unreached()
    }

    /// Lists the empty rooms, those with no pit, no bats and no Wumpus, in
    /// ascending order.
    pub fn empty_rooms(&self) -> (empty: Vec<RoomNum>)
        ensures
            empty@ == empty_rooms_below(self@, MAZE_ROOMS as nat),
            empty@.len() > 0,
            forall|room: RoomNum| empty@.contains(room) <==> is_empty_room(self@, room as int),
    {
        let empty = list_empty(&self.rooms);
        proof {
            use_type_invariant(self);
            assert forall|room: RoomNum| empty@.contains(room) <==> is_empty_room(
                self@,
                room as int,
            ) by {
                lemma_empty_rooms_below(self@, MAZE_ROOMS as nat, room);
            }
            lemma_populated_has_empty_rooms(self@);
            let free = choose|free: int| is_empty_room(self@, free);
            assert(empty@.contains(free as usize));
        }
        empty
    }

    /// Draws one of the empty rooms.
    pub fn rnd_empty_room(&self, rng: &mut ThreadRng) -> (room: RoomNum)
        ensures
            is_room(room as int),
            is_empty_room(self@, room as int),
    {
        let empty = self.empty_rooms();
        proof {
            use_type_invariant(self);
        }
        match choose_room(&empty, rng) {
            Some(room) => room,
            None => vstd::pervasive::unreached(),
        }
    }

    /// Lists the empty rooms next to `room`, in the order of its exits.
    pub fn empty_neighbours(&self, room: RoomNum) -> (empty: Vec<RoomNum>)
        requires
            is_room(room as int),
        ensures
            empty@ == empty_neighbours_of(self@, room as int),
            forall|to: RoomNum|
                empty@.contains(to) <==> adjacent(room as int, to as int) && is_empty_room(
                    self@,
                    to as int,
                ),
    {
        proof {
            use_type_invariant(self);
        }
        let exits = tunnels(room);
        let mut empty: Vec<RoomNum> = Vec::new();
        if self.rooms[exits[0]].danger.is_none() {
            empty.push(exits[0]);
        }
        if self.rooms[exits[1]].danger.is_none() {
            empty.push(exits[1]);
        }
        if self.rooms[exits[2]].danger.is_none() {
            empty.push(exits[2]);
        }
        proof {
            assert(empty@ =~= empty_neighbours_of(self@, room as int));
            assert forall|to: RoomNum|
                empty@.contains(to) <==> adjacent(room as int, to as int) && is_empty_room(
                    self@,
                    to as int,
                ) by {
                let first = kept_if_empty(self@, exits[0]);
                let second = kept_if_empty(self@, exits[1]);
                let third = kept_if_empty(self@, exits[2]);
                assert(empty@ == first + second + third);
                if empty@.contains(to) {
                    let at = choose|at: int| 0 <= at < empty@.len() && empty@[at] == to;
                    if at < first.len() {
                        assert(to == first[at]);
                    } else if at < first.len() + second.len() {
                        assert(to == second[at - first.len()]);
                    } else {
                        assert(to == third[at - first.len() - second.len()]);
                    }
                }
                if adjacent(room as int, to as int) && is_empty_room(self@, to as int) {
                    let at: int = if to == exits[0] {
                        0
                    } else if to == exits[1] {
                        first.len() as int
                    } else {
                        (first.len() + second.len()) as int
                    };
                    assert(empty@[at] == to);
                }
            }
        }
        empty
    }

    /// Draws one of the empty rooms next to `room`, or returns `None` where
    /// all of them hold something (and where `room` is no room at all).
    pub fn rnd_empty_neighbour(&self, room: RoomNum, rng: &mut ThreadRng) -> (picked: Option<
        RoomNum,
    >)
        ensures
            picked is None <==> forall|to: int|
                adjacent(room as int, to) ==> !is_empty_room(self@, to),
            picked matches Some(to) ==> adjacent(room as int, to as int) && is_empty_room(
                self@,
                to as int,
            ),
    {
        if room >= MAZE_ROOMS {
            return None;
        }
        let empty = self.empty_neighbours(room);
        let picked = choose_room(&empty, rng);
        proof {
            match picked {
                Some(to) => {
                    assert(empty@.contains(to));
                    assert(adjacent(room as int, to as int) && is_empty_room(self@, to as int));
                },
                None => {
                    assert forall|to: int| adjacent(room as int, to) implies !is_empty_room(
                        self@,
                        to,
                    ) by {
                        lemma_tunnels_stay_inside(room as int, to);
                        assert(!empty@.contains(to as usize));
                    }
                },
            }
        }
        picked
    }

    /// Tells whether a room next to `room` holds `danger`.
    pub fn is_danger_nearby(&self, room: RoomNum, danger: Danger) -> (near: bool)
        ensures
            near == danger_nearby(self@, room as int, danger),
    {
        if room >= MAZE_ROOMS {
            return false;
        }
        proof {
            use_type_invariant(self);
        }
        let exits = tunnels(room);
        let near = self.rooms[exits[0]].danger == Some(danger) || self.rooms[exits[1]].danger
            == Some(danger) || self.rooms[exits[2]].danger == Some(danger);
        proof {
            if near {
                let to = if self@[exits[0] as int] == Some(danger) {
                    exits[0]
                } else if self@[exits[1] as int] == Some(danger) {
                    exits[1]
                } else {
                    exits[2]
                };
                assert(adjacent(room as int, to as int) && self@[to as int] == Some(danger));
            }
        }
        near
    }

    /// Finds the Wumpus next to `room`: returns its room where a tunnel leads
    /// there from `room`, and `None` otherwise.
    pub fn is_wumpus_adjacent(&self, room: RoomNum) -> (found: Option<RoomNum>)
        ensures
            found == if adjacent(room as int, wumpus_room_of(self@)) {
                Some(wumpus_room_of(self@) as usize)
            } else {
                None
            },
            found is Some <==> danger_nearby(self@, room as int, Danger::Wumpus),
            found matches Some(to) ==> adjacent(room as int, to as int) && self@[to as int] == Some(
                Danger::Wumpus,
            ),
    {
        let wumpus = self.wumpus_room();
        proof {
            use_type_invariant(self);
        }
        if has_tunnel(room, wumpus) {
            Some(wumpus)
        } else {
            assert forall|to: int| adjacent(room as int, to) implies #[trigger] self@[to] != Some(
                Danger::Wumpus,
            ) by {
                lemma_tunnels_stay_inside(room as int, to);
                lemma_wumpus_room(self@, to);
            }
            None
        }
    }

    /// Describes `room` to the player who stands in it.
    pub fn describe_room(&self, room: RoomNum) -> (text: String)
        requires
            is_room(room as int),
        ensures
            text@ == description(self@, room as int),
    {
        let exits = tunnels(room);
        let mut text = String::from_str(ROOM_INTRO);
        text.append(decimal_text(room).as_str());
        if self.is_danger_nearby(room, Danger::Pit) {
            text.append(PIT_NEARBY);
        }
        if self.is_danger_nearby(room, Danger::Bat) {
            text.append(BAT_NEARBY);
        }
        if self.is_danger_nearby(room, Danger::Wumpus) {
            text.append(WUMPUS_NEARBY);
        }
        text.append(EXITS);
        text.append(decimal_text(exits[0]).as_str());
        text.append(COMMA);
        text.append(decimal_text(exits[1]).as_str());
        text.append(COMMA);
        text.append(decimal_text(exits[2]).as_str());
        assert(text@ =~= description(self@, room as int));
        text
    }

    /// Reads `destination` as the room that a player in `current_room`
    /// wants to go or shoot to. Only a number is read, and only a room that a
    /// tunnel leads to from `current_room` is accepted.
    pub fn parse_room(&self, destination: &str, current_room: RoomNum) -> (parsed: Result<
        RoomNum,
        DestinationError,
    >)
        ensures
            parsed == destination_of(destination@, current_room as int),
            parsed is Ok <==> number_value(destination@) is Some && adjacent(
                current_room as int,
                number_value(destination@)->0 as int,
            ),
            parsed matches Ok(room) ==> number_value(destination@) == Some(room as nat)
                && adjacent(current_room as int, room as int),
            parsed matches Err(error) ==> (error == DestinationError::NotANumber <==> number_value(
                destination@,
            ) is None),
    {
        match parse_number(destination) {
            None => Err(DestinationError::NotANumber),
            Some(room) => {
                if has_tunnel(current_room, room) {
                    Ok(room)
                } else {
                    proof {
                        let number = number_value(destination@)->0;
                        if adjacent(current_room as int, number as int) {
                            lemma_tunnels_stay_inside(current_room as int, number as int);
                        }
                    }
                    Err(DestinationError::NotAdjacent)
                }
            },
        }
    }

    /// Moves the Wumpus from its room `from` to the empty room `to`.
    pub fn move_wumpus(&mut self, from: RoomNum, to: RoomNum)
        requires
            is_room(from as int),
            old(self)@[from as int] == Some(Danger::Wumpus),
            is_empty_room(old(self)@, to as int),
        ensures
            final(self)@ == relocated(old(self)@, from as int, to as int),
            populated(final(self)@),
    {
        proof {
            use_type_invariant(&*self);
            lemma_relocated_populated(self@, from as int, to as int);
        }
        self.rooms = relocate(&self.rooms, from, to);
    }
}

} // verus!
