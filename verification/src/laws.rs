//! What holds of every turn, proved from the definition of [`step`].
//!
//! Each law speaks of a stocked cave, a valid player and an input that names
//! a room next to the player's, and holds for every random draw unless it
//! says otherwise.

use vstd::prelude::*;

use crate::game::{
    draws_allowed, shot_spec, step, Draws, LoseReason, OutcomeView, Resolved, Status,
};
use crate::contents::{
    is_empty_room, lemma_relocated_populated, lemma_wumpus_room, populated, wumpus_room_of, Danger,
};
use crate::maze::{destination_of, DestinationError};
use crate::player::{PlayerView, ARROWS};
use crate::text::{decimal, lemma_decimal_reads_back};
use crate::topology::{adjacent, is_room, lemma_tunnels_stay_inside, RoomNum, ADJS};

verus! {

/// `token` names room `to`, and a tunnel leads there from the player's room.
pub open spec fn names_neighbour(player: PlayerView, token: Seq<char>, to: RoomNum) -> bool {
    destination_of(token, player.room as int) == Ok::<RoomNum, DestinationError>(to)
}

/// The exits that a room's description lists are the rooms that a player
/// there may name: each exit, written in decimal digits, is read as that exit.
pub proof fn lemma_listed_exits_are_accepted(room: int, exit: int)
    requires
        is_room(room),
        0 <= exit < 3,
    ensures
        destination_of(decimal(ADJS[room][exit] as nat), room) == Ok::<RoomNum, DestinationError>(
            ADJS[room][exit],
        ),
{
    lemma_decimal_reads_back(ADJS[room][exit] as nat);
}

/// Every turn keeps the cave stocked and the player valid, leaves the pits
/// and the bats where they are, and never adds an arrow to the quiver.
pub proof fn lemma_step_keeps_the_game_valid(
    status: Status,
    contents: Seq<Option<Danger>>,
    player: PlayerView,
    token: Seq<char>,
    draws: Draws,
)
    requires
        populated(contents),
        player.valid(),
        status == Status::Shooting ==> player.arrows > 0,
        draws_allowed(contents, draws),
    ensures
        populated(step(status, contents, player, token, draws).1.contents),
        step(status, contents, player, token, draws).1.player.valid(),
        step(status, contents, player, token, draws).1.player.arrows <= player.arrows,
        forall|room: int|
            is_room(room) && (contents[room] == Some(Danger::Pit) || contents[room] == Some(
                Danger::Bat,
            )) ==> #[trigger] step(status, contents, player, token, draws).1.contents[room]
                == contents[room],
{
    lemma_wumpus_room(contents, 0);
    if let Some(den) = draws.flee {
        lemma_relocated_populated(contents, wumpus_room_of(contents), den as int);
    }
    if let Ok(to) = destination_of(token, player.room as int) {
        lemma_tunnels_stay_inside(player.room as int, to as int);
    }
}

/// A player who stands in an empty room still does after every turn that
/// does not end the game: neither a move nor a fleeing Wumpus brings the two
/// together unnoticed.
pub proof fn lemma_player_stays_in_an_empty_room(
    status: Status,
    contents: Seq<Option<Danger>>,
    player: PlayerView,
    token: Seq<char>,
    draws: Draws,
)
    requires
        populated(contents),
        player.valid(),
        is_empty_room(contents, player.room as int),
        draws_allowed(contents, draws),
        !step(status, contents, player, token, draws).1.outcome.is_final(),
    ensures
        is_empty_room(
            step(status, contents, player, token, draws).1.contents,
            step(status, contents, player, token, draws).1.player.room as int,
        ),
{
    lemma_wumpus_room(contents, 0);
    if let Ok(to) = destination_of(token, player.room as int) {
        lemma_tunnels_stay_inside(player.room as int, to as int);
    }
}

/// An input that names no room next to the player's changes nothing: the
/// game asks again and goes on waiting for a room.
pub proof fn lemma_rejected_room_changes_nothing(
    status: Status,
    contents: Seq<Option<Danger>>,
    player: PlayerView,
    token: Seq<char>,
    draws: Draws,
)
    requires
        status == Status::Moving || status == Status::Shooting,
        destination_of(token, player.room as int) is Err,
    ensures
        step(status, contents, player, token, draws).0 == status,
        step(status, contents, player, token, draws).1.outcome is Reprompt,
        step(status, contents, player, token, draws).1.contents == contents,
        step(status, contents, player, token, draws).1.player == player,
{
}

/// Moving into the room of the Wumpus or into a pit loses the game, whatever
/// else the cave holds and whatever is drawn.
pub proof fn lemma_wumpus_and_pits_are_fatal(
    contents: Seq<Option<Danger>>,
    player: PlayerView,
    token: Seq<char>,
    to: RoomNum,
    draws: Draws,
)
    requires
        populated(contents),
        player.valid(),
        names_neighbour(player, token, to),
        contents[to as int] == Some(Danger::Wumpus) || contents[to as int] == Some(Danger::Pit),
    ensures
        step(Status::Moving, contents, player, token, draws).1.outcome == (OutcomeView::Lose {
            reason: if contents[to as int] == Some(Danger::Wumpus) {
                LoseReason::EatenByWumpus
            } else {
                LoseReason::FellIntoPit
            },
        }),
        step(Status::Moving, contents, player, token, draws).1.outcome.is_final(),
{
}

/// Moving into a room with bats never ends the game: the player is put into
/// the room that was drawn, which holds no pit, no bats and no Wumpus, and
/// the game waits for the next command.
pub proof fn lemma_bats_drop_into_an_empty_room(
    contents: Seq<Option<Danger>>,
    player: PlayerView,
    token: Seq<char>,
    to: RoomNum,
    draws: Draws,
)
    requires
        populated(contents),
        player.valid(),
        draws_allowed(contents, draws),
        names_neighbour(player, token, to),
        contents[to as int] == Some(Danger::Bat),
    ensures
        step(Status::Moving, contents, player, token, draws).0 == Status::Normal,
        step(Status::Moving, contents, player, token, draws).1.outcome is Continue,
        !step(Status::Moving, contents, player, token, draws).1.outcome.is_final(),
        step(Status::Moving, contents, player, token, draws).1.contents == contents,
        step(Status::Moving, contents, player, token, draws).1.player == (PlayerView {
            room: draws.landing,
            arrows: player.arrows,
        }),
        is_empty_room(
            contents,
            step(Status::Moving, contents, player, token, draws).1.player.room as int,
        ),
{
}

/// Moving into an empty room puts the player there, and the game waits for
/// the next command.
pub proof fn lemma_move_into_an_empty_room(
    contents: Seq<Option<Danger>>,
    player: PlayerView,
    token: Seq<char>,
    to: RoomNum,
    draws: Draws,
)
    requires
        populated(contents),
        player.valid(),
        names_neighbour(player, token, to),
        contents[to as int] is None,
    ensures
        step(Status::Moving, contents, player, token, draws).0 == Status::Normal,
        step(Status::Moving, contents, player, token, draws).1.outcome is Continue,
        step(Status::Moving, contents, player, token, draws).1.contents == contents,
        step(Status::Moving, contents, player, token, draws).1.player == (PlayerView {
            room: to,
            arrows: player.arrows,
        }),
{
}

/// Shooting into the room of the Wumpus wins, whatever is drawn.
pub proof fn lemma_hit_wins(
    contents: Seq<Option<Danger>>,
    player: PlayerView,
    token: Seq<char>,
    to: RoomNum,
    draws: Draws,
)
    requires
        populated(contents),
        player.valid(),
        names_neighbour(player, token, to),
        contents[to as int] == Some(Danger::Wumpus),
    ensures
        step(Status::Shooting, contents, player, token, draws).1.outcome == OutcomeView::Win,
        step(Status::Shooting, contents, player, token, draws).1.contents == contents,
        step(Status::Shooting, contents, player, token, draws).1.player == player,
{
}

/// A miss costs exactly one arrow, unless the Wumpus comes to the player's
/// room: then the game is lost with the arrow uncounted. With the last arrow
/// gone the game is lost, and otherwise it waits for the next command.
pub proof fn lemma_miss_costs_one_arrow(
    contents: Seq<Option<Danger>>,
    player: PlayerView,
    token: Seq<char>,
    to: RoomNum,
    draws: Draws,
)
    requires
        populated(contents),
        player.valid(),
        player.arrows > 0,
        draws_allowed(contents, draws),
        names_neighbour(player, token, to),
        contents[to as int] != Some(Danger::Wumpus),
        draws.flee != Some(player.room),
    ensures
        step(Status::Shooting, contents, player, token, draws).1.player == (PlayerView {
            room: player.room,
            arrows: (player.arrows - 1) as usize,
        }),
        player.arrows == 1 ==> step(Status::Shooting, contents, player, token, draws).1.outcome
            == (OutcomeView::Lose { reason: LoseReason::OutOfArrows }) && step(
            Status::Shooting,
            contents,
            player,
            token,
            draws,
        ).0 == Status::Shooting,
        player.arrows > 1 ==> step(Status::Shooting, contents, player, token, draws).1.outcome
            is Continue && step(Status::Shooting, contents, player, token, draws).0
            == Status::Normal,
{
}

/// A woken Wumpus that comes to the player's room ends the game at once.
pub proof fn lemma_woken_wumpus_is_fatal(
    contents: Seq<Option<Danger>>,
    player: PlayerView,
    token: Seq<char>,
    to: RoomNum,
    draws: Draws,
)
    requires
        populated(contents),
        player.valid(),
        names_neighbour(player, token, to),
        contents[to as int] != Some(Danger::Wumpus),
        draws.flee == Some(player.room),
    ensures
        step(Status::Shooting, contents, player, token, draws).1 == (Resolved {
            contents,
            player,
            outcome: OutcomeView::Lose { reason: LoseReason::WokenWumpus },
        }),
{
}

/// One shot of a volley: the room it is aimed at and where the Wumpus flees.
pub struct Shot {
    pub to: RoomNum,
    pub flee: Option<RoomNum>,
}

/// The game after the shots of `volley`, one after the other.
pub open spec fn after_volley(
    contents: Seq<Option<Danger>>,
    player: PlayerView,
    volley: Seq<Shot>,
) -> Resolved
    decreases volley.len(),
{
    if volley.len() == 0 {
        Resolved { contents, player, outcome: OutcomeView::Continue { message: Seq::empty() } }
    } else {
        let before = after_volley(contents, player, volley.drop_last());
        shot_spec(before.contents, before.player, volley.last().to, volley.last().flee)
    }
}

/// Every shot of `volley` is aimed at a room of the cave and misses, and each
/// time the Wumpus stays or flees to an empty room next to its own that is
/// not the player's.
pub open spec fn all_miss(
    contents: Seq<Option<Danger>>,
    player: PlayerView,
    volley: Seq<Shot>,
) -> bool
    decreases volley.len(),
{
    if volley.len() == 0 {
        true
    } else {
        let before = after_volley(contents, player, volley.drop_last());
        let shot = volley.last();
        &&& all_miss(contents, player, volley.drop_last())
        &&& is_room(shot.to as int)
        &&& before.contents[shot.to as int] != Some(Danger::Wumpus)
        &&& shot.flee != Some(player.room)
        &&& shot.flee matches Some(den) ==> adjacent(wumpus_room_of(before.contents), den as int)
            && is_empty_room(before.contents, den as int)
    }
}

/// Shots that miss use up the quiver one by one: after as many misses as the
/// player had arrows, none is left and the game is lost for want of arrows;
/// after fewer, the game goes on.
pub proof fn lemma_misses_empty_the_quiver(
    contents: Seq<Option<Danger>>,
    player: PlayerView,
    volley: Seq<Shot>,
)
    requires
        populated(contents),
        player.valid(),
        0 < volley.len() <= player.arrows,
        all_miss(contents, player, volley),
    ensures
        populated(after_volley(contents, player, volley).contents),
        after_volley(contents, player, volley).player == (PlayerView {
            room: player.room,
            arrows: (player.arrows - volley.len()) as usize,
        }),
        volley.len() == player.arrows ==> after_volley(contents, player, volley).outcome == (
            OutcomeView::Lose { reason: LoseReason::OutOfArrows }),
        volley.len() < player.arrows ==> after_volley(contents, player, volley).outcome
            is Continue,
    decreases volley.len(),
{
    let earlier = volley.drop_last();
    let before = after_volley(contents, player, earlier);
    if earlier.len() > 0 {
        lemma_misses_empty_the_quiver(contents, player, earlier);
    }
    lemma_wumpus_room(before.contents, 0);
    if let Some(den) = volley.last().flee {
        lemma_relocated_populated(before.contents, wumpus_room_of(before.contents), den as int);
    }
}

/// A player who starts with a full quiver and misses five times has no arrow
/// left and has lost.
pub proof fn lemma_five_misses_lose(
    contents: Seq<Option<Danger>>,
    player: PlayerView,
    volley: Seq<Shot>,
)
    requires
        populated(contents),
        player.valid(),
        player.arrows == ARROWS,
        volley.len() == ARROWS,
        all_miss(contents, player, volley),
    ensures
        after_volley(contents, player, volley).player.arrows == 0,
        after_volley(contents, player, volley).outcome == (OutcomeView::Lose {
            reason: LoseReason::OutOfArrows,
        }),
{
    lemma_misses_empty_the_quiver(contents, player, volley);
}

} // verus!
