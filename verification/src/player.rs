//! The player: where they stand and how many arrows they have left.

use vstd::prelude::*;

use crate::topology::{is_room, RoomNum};

verus! {

/// Number of arrows at the start of a game.
pub const ARROWS: usize = 5;

/// What a player is, as plain values.
pub struct PlayerView {
    pub room: RoomNum,
    pub arrows: usize,
}

/// The player. The room is always a room of the cave, and the arrows never
/// exceed the five of the start.
#[derive(Debug)]
pub struct Player {
    room: RoomNum,
    arrows: usize,
}

impl View for Player {
    type V = PlayerView;

    closed spec fn view(&self) -> PlayerView {
        PlayerView { room: self.room, arrows: self.arrows }
    }
}

impl PlayerView {
    /// A player can be put where this view says.
    pub open spec fn valid(&self) -> bool {
        is_room(self.room as int) && self.arrows <= ARROWS
    }
}

impl Player {
    #[verifier::type_invariant]
    spec fn well_formed(&self) -> bool {
        is_room(self.room as int) && self.arrows <= ARROWS
    }

    /// A player in `room` with a full quiver.
    pub fn new(room: RoomNum) -> (player: Player)
        requires
            is_room(room as int),
        ensures
            player@ == (PlayerView { room, arrows: ARROWS }),
    {
        Player { arrows: ARROWS, room }
    }

    /// The room in which the player stands.
    pub fn room(&self) -> (room: RoomNum)
        ensures
            room == self@.room,
            is_room(room as int),
    {
        proof {
            use_type_invariant(self);
        }
        self.room
    }

    /// The arrows that the player has left.
    pub fn arrows(&self) -> (arrows: usize)
        ensures
            arrows == self@.arrows,
            arrows <= ARROWS,
    {
        proof {
            use_type_invariant(self);
        }
        self.arrows
    }

    /// Puts the player into `room`.
    pub fn enter(&mut self, room: RoomNum)
        requires
            is_room(room as int),
        ensures
            final(self)@ == (PlayerView { room, arrows: old(self)@.arrows }),
    {
        proof {
            use_type_invariant(&*self);
        }
        self.room = room;
    }

    /// Takes one arrow from the quiver.
    pub fn spend_arrow(&mut self)
        requires
            old(self)@.arrows > 0,
        ensures
            final(self)@ == (PlayerView {
                room: old(self)@.room,
                arrows: (old(self)@.arrows - 1) as usize,
            }),
    {
        proof {
            use_type_invariant(&*self);
        }
        self.arrows = self.arrows - 1;
    }
}

} // verus!
