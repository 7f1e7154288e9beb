//! The turn state machine: one input per turn, read against the state the
//! game is in, resolved against the cave and the player.
//!
//! What a turn does is written down once, as the spec function [`step`] from
//! the state, the input and the turn's random draws to the next state and the
//! outcome. [`resolve_input`] computes it from draws that it is given;
//! [`submit_input`] makes the draws itself, and only those that the turn needs.

use rand::rngs::ThreadRng;
use vstd::prelude::*;
use vstd::string::{StrSliceExecFns, StringExecFns};

use crate::contents::{
    is_empty_room, lemma_populated_has_empty_rooms, populated, relocated, wumpus_room_of, Danger,
};
use crate::maze::{description, destination_of, Maze};
use crate::player::{Player, PlayerView, ARROWS};
use crate::random::draw_ratio;
use crate::text::{
    CONFIRM_QUIT, EATEN, FALLEN, FAREWELL, HELP, NEWLINE, NONSENSE, NO_ARROWS, NO_TUNNEL_TO_GO,
    NO_TUNNEL_TO_SHOOT, QUESTION, RESUME, RUMBLING, VICTORY, WHERE, WHISKED, WOKEN,
};
use crate::topology::{adjacent, is_room, RoomNum};

verus! {

/// An arrow that misses wakes the Wumpus in three cases out of four.
pub const WAKE_NUMERATOR: u32 = 3;

/// See [`WAKE_NUMERATOR`].
pub const WAKE_DENOMINATOR: u32 = 4;

/// What the game waits for.
#[derive(Clone, Copy, Debug, PartialEq, Eq, Structural)]
pub enum Status {
    /// A command: move, shoot, help or quit.
    Normal,
    /// The answer to "do you really want to quit?".
    Quitting,
    /// The room to move to.
    Moving,
    /// The room to shoot into.
    Shooting,
}

/// How a game was lost.
#[derive(Clone, Copy, Debug, PartialEq, Eq, Structural)]
pub enum LoseReason {
    /// The player walked into the room of the Wumpus.
    EatenByWumpus,
    /// The player walked into a pit.
    FellIntoPit,
    /// An arrow woke the Wumpus, and it came to the player's room.
    WokenWumpus,
    /// The last arrow missed.
    OutOfArrows,
}

/// What a turn led to.
#[derive(Debug, PartialEq, Eq)]
pub enum Outcome {
    /// The game goes on; `message` is what the player is told.
    Continue { message: String },
    /// The input was not understood or not allowed; nothing has changed.
    Reprompt { error_message: String },
    /// The arrow hit the Wumpus.
    Win,
    /// The game is lost.
    Lose { reason: LoseReason },
    /// The player has left.
    Quit,
}

/// An [`Outcome`] with its texts as sequences of characters.
pub enum OutcomeView {
    Continue { message: Seq<char> },
    Reprompt { error_message: Seq<char> },
    Win,
    Lose { reason: LoseReason },
    Quit,
}

impl View for Outcome {
    type V = OutcomeView;

    open spec fn view(&self) -> OutcomeView {
        match *self {
            Outcome::Continue { message } => OutcomeView::Continue { message: message@ },
            Outcome::Reprompt { error_message } => OutcomeView::Reprompt {
                error_message: error_message@,
            },
            Outcome::Win => OutcomeView::Win,
            Outcome::Lose { reason } => OutcomeView::Lose { reason },
            Outcome::Quit => OutcomeView::Quit,
        }
    }
}

impl OutcomeView {
    /// The game is over.
    pub open spec fn is_final(&self) -> bool {
        self is Win || self is Lose || self is Quit
    }
}

/// The random draws that a turn may need.
#[derive(Clone, Copy, Debug)]
pub struct Draws {
    /// The room into which bats would drop the player.
    pub landing: RoomNum,
    /// The room to which the Wumpus would flee from a missed shot; `None`
    /// where it sleeps on or has nowhere to go.
    pub flee: Option<RoomNum>,
}

/// The draws are such as the cave allows: bats drop the player into an empty
/// room, and the Wumpus flees through a tunnel into an empty room.
pub open spec fn draws_allowed(contents: Seq<Option<Danger>>, draws: Draws) -> bool {
    &&& is_room(draws.landing as int)
    &&& is_empty_room(contents, draws.landing as int)
    &&& draws.flee matches Some(den) ==> adjacent(wumpus_room_of(contents), den as int)
        && is_empty_room(contents, den as int)
}

/// The cave, the player and the outcome once an action has been resolved.
pub struct Resolved {
    pub contents: Seq<Option<Danger>>,
    pub player: PlayerView,
    pub outcome: OutcomeView,
}

/// What a player who arrives in `room` is told: the room's description and
/// the question what to do next.
pub open spec fn turn_text(contents: Seq<Option<Danger>>, room: int) -> Seq<char> {
    description(contents, room) + NEWLINE@ + QUESTION@
}

/// The player walks through a tunnel into room `to`. The Wumpus and the pits
/// end the game; bats carry the player to `landing`, where nothing more
/// happens to them this turn; in an empty room the player simply arrives.
pub open spec fn move_spec(
    contents: Seq<Option<Danger>>,
    player: PlayerView,
    to: RoomNum,
    landing: RoomNum,
) -> Resolved {
    match contents[to as int] {
        Some(Danger::Wumpus) => Resolved {
            contents,
            player,
            outcome: OutcomeView::Lose { reason: LoseReason::EatenByWumpus },
        },
        Some(Danger::Pit) => Resolved {
            contents,
            player,
            outcome: OutcomeView::Lose { reason: LoseReason::FellIntoPit },
        },
        Some(Danger::Bat) => Resolved {
            contents,
            player: PlayerView { room: landing, arrows: player.arrows },
            outcome: OutcomeView::Continue {
                message: WHISKED@ + NEWLINE@ + turn_text(contents, landing as int),
            },
        },
        None => Resolved {
            contents,
            player: PlayerView { room: to, arrows: player.arrows },
            outcome: OutcomeView::Continue { message: turn_text(contents, to as int) },
        },
    }
}

/// An arrow has missed and is gone: with the last one the game is lost,
/// otherwise it goes on and the player is told what they `heard`.
pub open spec fn arrow_spent(
    contents: Seq<Option<Danger>>,
    player: PlayerView,
    heard: Seq<char>,
) -> Resolved {
    let left = (player.arrows - 1) as usize;
    Resolved {
        contents,
        player: PlayerView { room: player.room, arrows: left },
        outcome: if left == 0 {
            OutcomeView::Lose { reason: LoseReason::OutOfArrows }
        } else {
            OutcomeView::Continue { message: heard }
        },
    }
}

/// The player shoots into room `to`. A hit wins. After a miss the Wumpus may
/// flee to `flee`: into the player's room, which ends the game before the
/// arrow is counted, or into another, which the player hears. Then the arrow
/// is spent.
pub open spec fn shot_spec(
    contents: Seq<Option<Danger>>,
    player: PlayerView,
    to: RoomNum,
    flee: Option<RoomNum>,
) -> Resolved {
    if contents[to as int] == Some(Danger::Wumpus) {
        Resolved { contents, player, outcome: OutcomeView::Win }
    } else {
        match flee {
            Some(den) => if den == player.room {
                Resolved {
                    contents,
                    player,
                    outcome: OutcomeView::Lose { reason: LoseReason::WokenWumpus },
                }
            } else {
                arrow_spent(
                    relocated(contents, wumpus_room_of(contents), den as int),
                    player,
                    RUMBLING@,
                )
            },
            None => arrow_spent(contents, player, Seq::empty()),
        }
    }
}

/// `token` is the one letter `key`.
pub open spec fn is_key(token: Seq<char>, key: char) -> bool {
    token.len() == 1 && token[0] == key
}

/// What a command does: `h` shows the rules, `q` asks whether to quit, `m`
/// and `s` ask for the room to move or shoot to, and anything else is not
/// understood.
pub open spec fn command_spec(token: Seq<char>) -> (Status, OutcomeView) {
    if is_key(token, 'h') {
        (Status::Normal, OutcomeView::Continue { message: HELP@ })
    } else if is_key(token, 'q') {
        (Status::Quitting, OutcomeView::Continue { message: CONFIRM_QUIT@ })
    } else if is_key(token, 'm') {
        (Status::Moving, OutcomeView::Continue { message: WHERE@ })
    } else if is_key(token, 's') {
        (Status::Shooting, OutcomeView::Continue { message: WHERE@ })
    } else {
        (Status::Normal, OutcomeView::Reprompt { error_message: NONSENSE@ })
    }
}

/// What the answer to "do you really want to quit?" does: `y` ends the
/// game, `n` resumes it, and anything else is not understood.
pub open spec fn confirm_spec(token: Seq<char>) -> (Status, OutcomeView) {
    if is_key(token, 'y') {
        (Status::Quitting, OutcomeView::Quit)
    } else if is_key(token, 'n') {
        (Status::Normal, OutcomeView::Continue { message: RESUME@ })
    } else {
        (Status::Quitting, OutcomeView::Reprompt { error_message: NONSENSE@ })
    }
}

/// The state after an action that was asked for in state `status`: when the
/// game goes on it waits for a command again, and otherwise the state stays.
pub open spec fn status_after(status: Status, outcome: OutcomeView) -> Status {
    if outcome is Continue {
        Status::Normal
    } else {
        status
    }
}

/// One turn: the input `token` in state `status`, with the cave, the player
/// and the turn's random draws, gives the next state, cave and player and
/// the outcome.
pub open spec fn step(
    status: Status,
    contents: Seq<Option<Danger>>,
    player: PlayerView,
    token: Seq<char>,
    draws: Draws,
) -> (Status, Resolved) {
    match status {
        Status::Normal => (
            command_spec(token).0,
            Resolved { contents, player, outcome: command_spec(token).1 },
        ),
        Status::Quitting => (
            confirm_spec(token).0,
            Resolved { contents, player, outcome: confirm_spec(token).1 },
        ),
        Status::Moving => match destination_of(token, player.room as int) {
            Ok(to) => {
                let resolved = move_spec(contents, player, to, draws.landing);
                (status_after(status, resolved.outcome), resolved)
            },
            Err(_) => (
                status,
                Resolved {
                    contents,
                    player,
                    outcome: OutcomeView::Reprompt { error_message: NO_TUNNEL_TO_GO@ },
                },
            ),
        },
        Status::Shooting => match destination_of(token, player.room as int) {
            Ok(to) => {
                let resolved = shot_spec(contents, player, to, draws.flee);
                (status_after(status, resolved.outcome), resolved)
            },
            Err(_) => (
                status,
                Resolved {
                    contents,
                    player,
                    outcome: OutcomeView::Reprompt { error_message: NO_TUNNEL_TO_SHOOT@ },
                },
            ),
        },
    }
}

/// The text that tells the player how they lost.
pub open spec fn reason_text(reason: LoseReason) -> Seq<char> {
    match reason {
        LoseReason::EatenByWumpus => EATEN@,
        LoseReason::FellIntoPit => FALLEN@,
        LoseReason::WokenWumpus => WOKEN@,
        LoseReason::OutOfArrows => NO_ARROWS@,
    }
}

/// The text that an outcome shows to the player.
pub open spec fn outcome_text(outcome: OutcomeView) -> Seq<char> {
    match outcome {
        OutcomeView::Continue { message } => message,
        OutcomeView::Reprompt { error_message } => error_message,
        OutcomeView::Win => VICTORY@,
        OutcomeView::Lose { reason } => reason_text(reason),
        OutcomeView::Quit => FAREWELL@,
    }
}

/// The exit code with which a program should end on this outcome: none while
/// the game goes on, 1 where the player's own arrows brought the end (the
/// woken Wumpus, the empty quiver), 0 otherwise.
pub open spec fn exit_code_of(outcome: OutcomeView) -> Option<i32> {
    match outcome {
        OutcomeView::Continue { .. } => None,
        OutcomeView::Reprompt { .. } => None,
        OutcomeView::Win => Some(0i32),
        OutcomeView::Quit => Some(0i32),
        OutcomeView::Lose { reason } => match reason {
            LoseReason::EatenByWumpus => Some(0i32),
            LoseReason::FellIntoPit => Some(0i32),
            LoseReason::WokenWumpus => Some(1i32),
            LoseReason::OutOfArrows => Some(1i32),
        },
    }
}

impl LoseReason {
    /// The text that tells the player how they lost.
    pub fn message(&self) -> (text: &'static str)
        ensures
            text@ == reason_text(*self),
    {
        match self {
            LoseReason::EatenByWumpus => EATEN,
            LoseReason::FellIntoPit => FALLEN,
            LoseReason::WokenWumpus => WOKEN,
            LoseReason::OutOfArrows => NO_ARROWS,
        }
    }
}

impl Outcome {
    /// The text to show to the player.
    pub fn text(&self) -> (text: String)
        ensures
            text@ == outcome_text(self@),
    {
        match self {
            Outcome::Continue { message } => message.clone(),
            Outcome::Reprompt { error_message } => error_message.clone(),
            Outcome::Win => String::from_str(VICTORY),
            Outcome::Lose { reason } => String::from_str(reason.message()),
            Outcome::Quit => String::from_str(FAREWELL),
        }
    }

    /// Tells whether the game is over.
    pub fn is_final(&self) -> (over: bool)
        ensures
            over == self@.is_final(),
    {
        match self {
            Outcome::Continue { .. } => false,
            Outcome::Reprompt { .. } => false,
            _ => true,
        }
    }

    /// The exit code with which a program should end on this outcome.
    pub fn exit_code(&self) -> (code: Option<i32>)
        ensures
            code == exit_code_of(self@),
    {
        match self {
            Outcome::Continue { .. } => None,
            Outcome::Reprompt { .. } => None,
            Outcome::Win => Some(0),
            Outcome::Quit => Some(0),
            Outcome::Lose { reason } => match reason {
                LoseReason::EatenByWumpus => Some(0),
                LoseReason::FellIntoPit => Some(0),
                LoseReason::WokenWumpus => Some(1),
                LoseReason::OutOfArrows => Some(1),
            },
        }
    }
}

/// Tells whether `token` is the one letter `key`.
fn is_letter(token: &str, key: char) -> (same: bool)
    ensures
        same == is_key(token@, key),
{
    token.unicode_len() == 1 && token.get_char(0) == key
}

/// The description of `room` with the question what to do next.
fn describe_turn(maze: &Maze, room: RoomNum) -> (text: String)
    requires
        is_room(room as int),
    ensures
        text@ == turn_text(maze@, room as int),
{
    let mut text = maze.describe_room(room);
    text.append(NEWLINE);
    text.append(QUESTION);
    text
}

/// Reads a command: `m` to move, `s` to shoot, `h` for help, `q` to quit.
pub fn command(token: &str) -> (next: (Status, Outcome))
    ensures
        (next.0, next.1@) == command_spec(token@),
{
    if is_letter(token, 'h') {
        (Status::Normal, Outcome::Continue { message: String::from_str(HELP) })
    } else if is_letter(token, 'q') {
        (Status::Quitting, Outcome::Continue { message: String::from_str(CONFIRM_QUIT) })
    } else if is_letter(token, 'm') {
        (Status::Moving, Outcome::Continue { message: String::from_str(WHERE) })
    } else if is_letter(token, 's') {
        (Status::Shooting, Outcome::Continue { message: String::from_str(WHERE) })
    } else {
        (Status::Normal, Outcome::Reprompt { error_message: String::from_str(NONSENSE) })
    }
}

/// Reads the answer to "do you really want to quit?": `y` or `n`.
pub fn confirm_quit(token: &str) -> (next: (Status, Outcome))
    ensures
        (next.0, next.1@) == confirm_spec(token@),
{
    if is_letter(token, 'y') {
        (Status::Quitting, Outcome::Quit)
    } else if is_letter(token, 'n') {
        (Status::Normal, Outcome::Continue { message: String::from_str(RESUME) })
    } else {
        (Status::Quitting, Outcome::Reprompt { error_message: String::from_str(NONSENSE) })
    }
}

/// Moves the player into room `to`, which a tunnel leads to. `landing` is
/// where bats drop the player; it is only read where `to` holds bats.
pub fn resolve_move(
    maze: &Maze,
    player: &mut Player,
    to: RoomNum,
    landing: RoomNum,
) -> (outcome: Outcome)
    requires
        is_room(to as int),
        maze@[to as int] == Some(Danger::Bat) ==> is_empty_room(maze@, landing as int),
    ensures
        (Resolved { contents: maze@, player: final(player)@, outcome: outcome@ }) == move_spec(
            maze@,
            old(player)@,
            to,
            landing,
        ),
        outcome@ is Continue ==> is_empty_room(maze@, final(player)@.room as int),
{
    proof {
        use_type_invariant(maze);
        maze.lemma_well_formed();
    }
    match maze.danger(to) {
        Some(Danger::Wumpus) => Outcome::Lose { reason: LoseReason::EatenByWumpus },
        Some(Danger::Pit) => Outcome::Lose { reason: LoseReason::FellIntoPit },
        Some(Danger::Bat) => {
            player.enter(landing);
            let mut message = String::from_str(WHISKED);
            message.append(NEWLINE);
            message.append(describe_turn(maze, landing).as_str());
            assert(message@ =~= WHISKED@ + NEWLINE@ + turn_text(maze@, landing as int));
            Outcome::Continue { message }
        },
        None => {
            player.enter(to);
            Outcome::Continue { message: describe_turn(maze, to) }
        },
    }
}

/// Spends the arrow of a shot that missed.
fn after_miss(player: &mut Player, heard: &str) -> (outcome: Outcome)
    requires
        old(player)@.arrows > 0,
    ensures
        forall|contents: Seq<Option<Danger>>|
            (Resolved { contents, player: final(player)@, outcome: outcome@ }) == arrow_spent(
                contents,
                old(player)@,
                heard@,
            ),
{
    player.spend_arrow();
    if player.arrows() == 0 {
        Outcome::Lose { reason: LoseReason::OutOfArrows }
    } else {
        Outcome::Continue { message: String::from_str(heard) }
    }
}

/// Shoots an arrow into room `to`, which a tunnel leads to. `flee` is where
/// the Wumpus goes if the arrow misses: an empty room next to its own, or
/// `None` where it stays.
pub fn resolve_shot(
    maze: &mut Maze,
    player: &mut Player,
    to: RoomNum,
    flee: Option<RoomNum>,
) -> (outcome: Outcome)
    requires
        is_room(to as int),
        old(player)@.arrows > 0,
        flee matches Some(den) ==> adjacent(wumpus_room_of(old(maze)@), den as int)
            && is_empty_room(old(maze)@, den as int),
    ensures
        (Resolved { contents: final(maze)@, player: final(player)@, outcome: outcome@ })
            == shot_spec(old(maze)@, old(player)@, to, flee),
        populated(final(maze)@),
{
    proof {
        use_type_invariant(&*maze);
        maze.lemma_well_formed();
    }
    if maze.danger(to) == Some(Danger::Wumpus) {
        return Outcome::Win;
    }
    match flee {
        Some(den) => {
            if den == player.room() {
                return Outcome::Lose { reason: LoseReason::WokenWumpus };
            }
            let wumpus = maze.wumpus_room();
            maze.move_wumpus(wumpus, den);
            after_miss(player, RUMBLING)
        },
        None => {
            let heard = "";
            proof {
                reveal_strlit("");
                assert(heard@ =~= Seq::<char>::empty());
            }
            after_miss(player, heard)
        },
    }
}

/// The state that follows an action asked for in state `status`.
fn next_status(status: Status, outcome: &Outcome) -> (next: Status)
    ensures
        next == status_after(status, outcome@),
{
    match outcome {
        Outcome::Continue { .. } => Status::Normal,
        _ => status,
    }
}

/// Plays one turn with the draws given: reads `token` in state `status`,
/// resolves what it asks for and returns the next state and the outcome.
pub fn resolve_input(
    status: Status,
    maze: &mut Maze,
    player: &mut Player,
    token: &str,
    draws: Draws,
) -> (next: (Status, Outcome))
    requires
        status == Status::Shooting ==> old(player)@.arrows > 0,
        draws_allowed(old(maze)@, draws),
    ensures
        (next.0, Resolved { contents: final(maze)@, player: final(player)@, outcome: next.1@ })
            == step(status, old(maze)@, old(player)@, token@, draws),
        populated(final(maze)@),
{
    proof {
        use_type_invariant(&*maze);
        maze.lemma_well_formed();
    }
    match status {
        Status::Normal => command(token),
        Status::Quitting => confirm_quit(token),
        Status::Moving => match maze.parse_room(token, player.room()) {
            Ok(to) => {
                let outcome = resolve_move(maze, player, to, draws.landing);
                (next_status(status, &outcome), outcome)
            },
            Err(_) => (
                status,
                Outcome::Reprompt { error_message: String::from_str(NO_TUNNEL_TO_GO) },
            ),
        },
        Status::Shooting => match maze.parse_room(token, player.room()) {
            Ok(to) => {
                let outcome = resolve_shot(maze, player, to, draws.flee);
                (next_status(status, &outcome), outcome)
            },
            Err(_) => (
                status,
                Outcome::Reprompt { error_message: String::from_str(NO_TUNNEL_TO_SHOOT) },
            ),
        },
    }
}

/// Plays one turn: reads `token` in state `status`, resolves what it asks
/// for and returns the next state and the outcome. Makes the random draws
/// that the turn needs, in this order: the room where bats drop the player;
/// whether a missed shot wakes the Wumpus, and then where it flees.
pub fn submit_input(
    status: Status,
    maze: &mut Maze,
    player: &mut Player,
    token: &str,
    rng: &mut ThreadRng,
) -> (next: (Status, Outcome))
    requires
        status == Status::Shooting ==> old(player)@.arrows > 0,
    ensures
        exists|draws: Draws| #[trigger]
            draws_allowed(old(maze)@, draws) && (
                next.0,
                Resolved { contents: final(maze)@, player: final(player)@, outcome: next.1@ },
            ) == step(status, old(maze)@, old(player)@, token@, draws),
        populated(final(maze)@),
{
    proof {
        use_type_invariant(&*maze);
        maze.lemma_well_formed();
        lemma_populated_has_empty_rooms(maze@);
    }
    let ghost spare = choose|room: int| is_empty_room(maze@, room);
    let ghost idle = Draws { landing: spare as usize, flee: None };
    assert(draws_allowed(maze@, idle));
    match status {
        Status::Normal => command(token),
        Status::Quitting => confirm_quit(token),
        Status::Moving => match maze.parse_room(token, player.room()) {
            Ok(to) => {
                let landing = if maze.danger(to) == Some(Danger::Bat) {
                    maze.rnd_empty_room(rng)
                } else {
                    to
                };
                let ghost drawn = if maze@[to as int] == Some(Danger::Bat) {
                    Draws { landing, flee: None }
                } else {
                    idle
                };
                assert(draws_allowed(maze@, drawn));
                let outcome = resolve_move(maze, player, to, landing);
                (next_status(status, &outcome), outcome)
            },
            Err(_) => (
                status,
                Outcome::Reprompt { error_message: String::from_str(NO_TUNNEL_TO_GO) },
            ),
        },
        Status::Shooting => match maze.parse_room(token, player.room()) {
            Ok(to) => {
                let flee = if maze.danger(to) != Some(Danger::Wumpus) && draw_ratio(
                    rng,
                    WAKE_NUMERATOR,
                    WAKE_DENOMINATOR,
                ) {
                    let wumpus = maze.wumpus_room();
                    maze.rnd_empty_neighbour(wumpus, rng)
                } else {
                    None
                };
                let ghost drawn = Draws { landing: spare as usize, flee };
                assert(draws_allowed(maze@, drawn));
                let outcome = resolve_shot(maze, player, to, flee);
                (next_status(status, &outcome), outcome)
            },
            Err(_) => (
                status,
                Outcome::Reprompt { error_message: String::from_str(NO_TUNNEL_TO_SHOOT) },
            ),
        },
    }
}

/// Starts a game: builds and stocks the cave, puts the player with five
/// arrows into an empty room and describes that room.
pub fn new_game(rng: &mut ThreadRng) -> (game: (Maze, Player, String))
    ensures
        populated(game.0@),
        is_empty_room(game.0@, game.1@.room as int),
        game.1@.arrows == ARROWS,
        game.2@ == turn_text(game.0@, game.1@.room as int),
{
    let (maze, _) = Maze::new(rng);
    let player = Player::new(maze.rnd_empty_room(rng));
    let text = describe_turn(&maze, player.room());
    (maze, player, text)
}

} // verus!
