use wumpus::game::{
    command, confirm_quit, new_game, resolve_input, resolve_move, resolve_shot, submit_input, Draws,
    LoseReason, Outcome, Status, WAKE_DENOMINATOR, WAKE_NUMERATOR,
};
use wumpus::contents::Danger;
use wumpus::maze::Maze;
use wumpus::player::{Player, ARROWS};
use wumpus::text::HELP;
use wumpus::topology::{has_tunnel, RoomNum, MAZE_ROOMS};

const QUESTION: &str = "What do you want to do? (m)ove or (s)hoot?";

fn contents(maze: &Maze) -> Vec<Option<Danger>> {
    maze.rooms().iter().map(|room| room.danger).collect()
}

fn walled_in() -> Maze {
    // The Wumpus in room 10 cannot leave: its exits 9, 11 and 18 are taken.
    Maze::with_dangers(10, [9, 11], [18, 15]).unwrap()
}

fn open_cave() -> Maze {
    // Room 0 has the exits 1, 4 and 7: bats, a pit and the Wumpus.
    Maze::with_dangers(7, [4, 12], [1, 19]).unwrap()
}

fn no_draws(landing: RoomNum) -> Draws {
    Draws { landing, flee: None }
}

fn message(text: &str) -> Outcome {
    Outcome::Continue { message: text.to_string() }
}

fn reprompt(text: &str) -> Outcome {
    Outcome::Reprompt { error_message: text.to_string() }
}

#[test]
fn player_starts_with_five_arrows() {
    let player = Player::new(3);
    assert_eq!(player.room(), 3);
    assert_eq!(player.arrows(), 5);
    assert_eq!(ARROWS, 5);
}

#[test]
fn player_enters_and_spends() {
    let mut player = Player::new(3);
    player.enter(4);
    assert_eq!(player.room(), 4);
    assert_eq!(player.arrows(), 5);
    player.spend_arrow();
    assert_eq!(player.room(), 4);
    assert_eq!(player.arrows(), 4);
}

#[test]
fn wumpus_wakes_three_times_in_four() {
    assert_eq!(WAKE_NUMERATOR, 3);
    assert_eq!(WAKE_DENOMINATOR, 4);
}

#[test]
fn command_move_asks_for_the_room() {
    assert_eq!(command("m"), (Status::Moving, message("Where?")));
}

#[test]
fn command_shoot_asks_for_the_room() {
    assert_eq!(command("s"), (Status::Shooting, message("Where?")));
}

#[test]
fn command_help_shows_the_rules() {
    assert_eq!(command("h"), (Status::Normal, message(HELP)));
    assert!(HELP.starts_with("Welcome to \"Hunt the Wumpus\"\nThe wumpus lives in a cave of 20 rooms."));
    assert!(HELP.ends_with("Pit   :  \"You feel a cold wind blowing from a nearby cavern.\"\n"));
    assert_eq!(HELP.lines().count(), 28);
}

#[test]
fn command_quit_asks_to_confirm() {
    assert_eq!(command("q"), (Status::Quitting, message("Are you so easily scared? [y/n]")));
}

#[test]
fn command_anything_else_is_not_understood() {
    for token in ["", "x", "move", "M", "mm", " m", "4", "y", "n", "é"] {
        assert_eq!(
            command(token),
            (Status::Normal, reprompt("That doesn't make any sense")),
            "{:?}",
            token
        );
    }
}

#[test]
fn confirm_quit_yes_ends_the_game() {
    assert_eq!(confirm_quit("y"), (Status::Quitting, Outcome::Quit));
}

#[test]
fn confirm_quit_no_resumes() {
    assert_eq!(
        confirm_quit("n"),
        (Status::Normal, message("Good. the Wumpus is looking for you!"))
    );
}

#[test]
fn confirm_quit_anything_else_asks_again() {
    for token in ["", "yes", "no", "Y", "q", "m", "1"] {
        assert_eq!(
            confirm_quit(token),
            (Status::Quitting, reprompt("That doesn't make any sense")),
            "{:?}",
            token
        );
    }
}

#[test]
fn submit_input_reads_commands_when_normal() {
    let mut rng = rand::thread_rng();
    let mut maze = open_cave();
    let mut player = Player::new(0);
    let before = contents(&maze);
    for token in ["m", "s", "h", "q", "zzz", "4"] {
        let next = submit_input(Status::Normal, &mut maze, &mut player, token, &mut rng);
        assert_eq!(next, command(token));
        assert_eq!(contents(&maze), before);
        assert_eq!(player.room(), 0);
        assert_eq!(player.arrows(), 5);
    }
}

#[test]
fn submit_input_reads_the_answer_when_quitting() {
    let mut rng = rand::thread_rng();
    let mut maze = open_cave();
    let mut player = Player::new(0);
    let before = contents(&maze);
    for token in ["y", "n", "4", "m"] {
        let next = submit_input(Status::Quitting, &mut maze, &mut player, token, &mut rng);
        assert_eq!(next, confirm_quit(token));
        assert_eq!(contents(&maze), before);
        assert_eq!(player.room(), 0);
        assert_eq!(player.arrows(), 5);
    }
}

#[test]
fn moving_into_a_pit_loses() {
    // Player in room 0, whose exits are 1, 4 and 7; room 4 holds a pit.
    let mut rng = rand::thread_rng();
    let mut maze = open_cave();
    let mut player = Player::new(0);
    let before = contents(&maze);
    let (status, outcome) = submit_input(Status::Moving, &mut maze, &mut player, "4", &mut rng);
    assert_eq!(outcome, Outcome::Lose { reason: LoseReason::FellIntoPit });
    assert_eq!(status, Status::Moving);
    assert_eq!(outcome.text(), "You fall into a bottomless pit!\nGAME OVER");
    assert_eq!(player.room(), 0);
    assert_eq!(player.arrows(), 5);
    assert_eq!(contents(&maze), before);
}

#[test]
fn moving_into_the_wumpus_loses() {
    let mut rng = rand::thread_rng();
    let mut maze = open_cave();
    let mut player = Player::new(0);
    let (status, outcome) = submit_input(Status::Moving, &mut maze, &mut player, "7", &mut rng);
    assert_eq!(outcome, Outcome::Lose { reason: LoseReason::EatenByWumpus });
    assert_eq!(status, Status::Moving);
    assert_eq!(outcome.text(), "The wumpus ate you up!\nGAME OVER");
    assert_eq!(player.room(), 0);
}

#[test]
fn moving_into_any_pit_or_wumpus_room_loses() {
    let mut rng = rand::thread_rng();
    for _ in 0..100 {
        let (mut maze, _) = Maze::new(&mut rng);
        for to in 0..MAZE_ROOMS {
            let expected = match maze.danger(to) {
                Some(Danger::Wumpus) => LoseReason::EatenByWumpus,
                Some(Danger::Pit) => LoseReason::FellIntoPit,
                _ => continue,
            };
            for from in 0..MAZE_ROOMS {
                if has_tunnel(from, to) {
                    let mut player = Player::new(from);
                    let (_, outcome) = submit_input(
                        Status::Moving,
                        &mut maze,
                        &mut player,
                        &to.to_string(),
                        &mut rng,
                    );
                    assert_eq!(outcome, Outcome::Lose { reason: expected });
                    assert!(outcome.is_final());
                }
            }
        }
    }
}

#[test]
fn moving_to_a_room_that_is_not_next_door_asks_again() {
    let mut rng = rand::thread_rng();
    let mut maze = open_cave();
    let mut player = Player::new(0);
    let before = contents(&maze);
    let (status, outcome) = submit_input(Status::Moving, &mut maze, &mut player, "99", &mut rng);
    assert_eq!(
        outcome,
        reprompt("There are no tunnels from here to that room. Where do you wanto do go?")
    );
    assert_eq!(status, Status::Moving);
    assert_eq!(player.room(), 0);
    assert_eq!(player.arrows(), 5);
    assert_eq!(contents(&maze), before);
    assert!(!outcome.is_final());
}

#[test]
fn moving_with_a_token_that_is_no_room_asks_again() {
    let mut rng = rand::thread_rng();
    let mut maze = open_cave();
    let mut player = Player::new(0);
    for token in ["", "0", "2", "20", "north", "m", "-1", "1 "] {
        let (status, outcome) = submit_input(Status::Moving, &mut maze, &mut player, token, &mut rng);
        assert_eq!(
            outcome,
            reprompt("There are no tunnels from here to that room. Where do you wanto do go?"),
            "{:?}",
            token
        );
        assert_eq!(status, Status::Moving);
        assert_eq!(player.room(), 0);
    }
}

#[test]
fn moving_into_an_empty_room_arrives_and_describes() {
    let mut rng = rand::thread_rng();
    let mut maze = walled_in();
    let mut player = Player::new(0);
    let (status, outcome) = submit_input(Status::Moving, &mut maze, &mut player, "1", &mut rng);
    assert_eq!(status, Status::Normal);
    assert_eq!(
        outcome,
        message(&format!(
            "You are in room #1\nYou feel a cold wind blowing from a nearby cavern.\nExits go to: 0, 2, 9\n{}",
            QUESTION
        ))
    );
    assert_eq!(player.room(), 1);
    assert_eq!(player.arrows(), 5);
}

#[test]
fn bats_carry_the_player_to_the_room_drawn() {
    let mut maze = open_cave();
    let mut player = Player::new(0);
    let before = contents(&maze);
    let (status, outcome) =
        resolve_input(Status::Moving, &mut maze, &mut player, "1", no_draws(13));
    assert_eq!(status, Status::Normal);
    assert_eq!(
        outcome,
        message(&format!(
            "The bats whisk you away!\nYou are in room #13\nYou feel a cold wind blowing from a nearby cavern.\nExits go to: 3, 12, 14\n{}",
            QUESTION
        ))
    );
    assert_eq!(player.room(), 13);
    assert_eq!(player.arrows(), 5);
    assert_eq!(contents(&maze), before);
}

#[test]
fn bats_may_drop_the_player_next_to_the_wumpus() {
    // Room 6 is next to the Wumpus in room 7; nothing more happens there.
    let mut maze = open_cave();
    let mut player = Player::new(0);
    let outcome = resolve_move(&maze, &mut player, 1, 6);
    assert_eq!(
        outcome,
        message(&format!(
            "The bats whisk you away!\nYou are in room #6\nYou smell something terrible nearby.\nExits go to: 5, 7, 16\n{}",
            QUESTION
        ))
    );
    assert_eq!(player.room(), 6);
    let (status, _) = resolve_input(Status::Normal, &mut maze, &mut player, "m", no_draws(13));
    assert_eq!(status, Status::Moving);
}

#[test]
fn bats_always_drop_the_player_into_an_empty_room() {
    let mut rng = rand::thread_rng();
    let mut landings = std::collections::HashSet::new();
    for _ in 0..2000 {
        let mut maze = open_cave();
        let mut player = Player::new(0);
        let (status, outcome) = submit_input(Status::Moving, &mut maze, &mut player, "1", &mut rng);
        assert_eq!(status, Status::Normal);
        assert!(!outcome.is_final());
        assert!(matches!(outcome, Outcome::Continue { .. }));
        assert!(outcome.text().starts_with("The bats whisk you away!\nYou are in room #"));
        assert_eq!(maze.danger(player.room()), None);
        assert_eq!(
            outcome.text(),
            format!("The bats whisk you away!\n{}\n{}", maze.describe_room(player.room()), QUESTION)
        );
        landings.insert(player.room());
    }
    assert_eq!(landings.len(), 15);
}

#[test]
fn landing_is_not_read_without_bats() {
    let maze = open_cave();
    let mut player = Player::new(3);
    // Room 2 is empty and next to room 3.
    let outcome = resolve_move(&maze, &mut player, 2, 4);
    assert!(matches!(outcome, Outcome::Continue { .. }));
    assert_eq!(player.room(), 2);
}

#[test]
fn shooting_the_wumpus_wins() {
    let mut rng = rand::thread_rng();
    for _ in 0..200 {
        let mut maze = open_cave();
        let mut player = Player::new(0);
        let before = contents(&maze);
        let (status, outcome) = submit_input(Status::Shooting, &mut maze, &mut player, "7", &mut rng);
        assert_eq!(outcome, Outcome::Win);
        assert_eq!(status, Status::Shooting);
        assert_eq!(outcome.text(), "YOU KILLED THE WUMPUS! GOOD JOB, BUDDY!!!");
        assert_eq!(player.arrows(), 5);
        assert_eq!(contents(&maze), before);
    }
}

#[test]
fn shooting_the_wumpus_wins_whatever_is_drawn() {
    for flee in [None, Some(6), Some(8)] {
        let mut maze = open_cave();
        let mut player = Player::new(0);
        assert_eq!(resolve_shot(&mut maze, &mut player, 7, flee), Outcome::Win);
        assert_eq!(player.arrows(), 5);
        assert_eq!(maze.wumpus_room(), 7);
    }
    let mut maze = open_cave();
    let mut player = Player::new(0);
    let draws = Draws { landing: 13, flee: Some(0) };
    let next = resolve_input(Status::Shooting, &mut maze, &mut player, "7", draws);
    assert_eq!(next, (Status::Shooting, Outcome::Win));
}

#[test]
fn fifth_miss_loses_for_want_of_arrows() {
    let mut rng = rand::thread_rng();
    let mut maze = walled_in();
    let mut player = Player::new(0);
    for shot in 1..5 {
        let (status, outcome) = submit_input(Status::Shooting, &mut maze, &mut player, "1", &mut rng);
        assert_eq!(status, Status::Normal);
        assert_eq!(outcome, message(""));
        assert_eq!(player.arrows(), 5 - shot);
    }
    let (status, outcome) = submit_input(Status::Shooting, &mut maze, &mut player, "1", &mut rng);
    assert_eq!(outcome, Outcome::Lose { reason: LoseReason::OutOfArrows });
    assert_eq!(status, Status::Shooting);
    assert_eq!(player.arrows(), 0);
    assert_eq!(outcome.text(), "You ran out of arrows.\nGAME OVER");
}

#[test]
fn a_walled_in_wumpus_stays_and_is_not_heard() {
    let mut rng = rand::thread_rng();
    for _ in 0..200 {
        let mut maze = walled_in();
        let mut player = Player::new(0);
        let before = contents(&maze);
        let (status, outcome) = submit_input(Status::Shooting, &mut maze, &mut player, "4", &mut rng);
        assert_eq!((status, outcome), (Status::Normal, message("")));
        assert_eq!(contents(&maze), before);
        assert_eq!(player.arrows(), 4);
        assert_eq!(player.room(), 0);
    }
}

#[test]
fn a_miss_with_a_sleeping_wumpus_costs_an_arrow() {
    let mut maze = open_cave();
    let mut player = Player::new(13);
    let before = contents(&maze);
    let outcome = resolve_shot(&mut maze, &mut player, 3, None);
    assert_eq!(outcome, message(""));
    assert_eq!(player.arrows(), 4);
    assert_eq!(player.room(), 13);
    assert_eq!(contents(&maze), before);
}

#[test]
fn a_fleeing_wumpus_is_heard() {
    let mut maze = open_cave();
    let mut player = Player::new(13);
    let draws = Draws { landing: 2, flee: Some(8) };
    let (status, outcome) = resolve_input(Status::Shooting, &mut maze, &mut player, "3", draws);
    assert_eq!(status, Status::Normal);
    assert_eq!(outcome, message("You heard a rumbling in a nearby cavern."));
    assert_eq!(player.arrows(), 4);
    assert_eq!(maze.danger(7), None);
    assert_eq!(maze.danger(8), Some(Danger::Wumpus));
    assert_eq!(maze.wumpus_room(), 8);
    assert_eq!(maze.danger(4), Some(Danger::Pit));
    assert_eq!(maze.danger(12), Some(Danger::Pit));
    assert_eq!(maze.danger(1), Some(Danger::Bat));
    assert_eq!(maze.danger(19), Some(Danger::Bat));
}

#[test]
fn a_wumpus_that_flees_to_the_player_eats_them() {
    // The Wumpus is in room 7, the player next door in room 6.
    let mut maze = open_cave();
    let mut player = Player::new(6);
    let before = contents(&maze);
    let draws = Draws { landing: 2, flee: Some(6) };
    let (status, outcome) = resolve_input(Status::Shooting, &mut maze, &mut player, "5", draws);
    assert_eq!(outcome, Outcome::Lose { reason: LoseReason::WokenWumpus });
    assert_eq!(status, Status::Shooting);
    assert_eq!(outcome.text(), "You woke up the wumpus and he ate you!\nGAME OVER");
    assert_eq!(player.arrows(), 5);
    assert_eq!(contents(&maze), before);
}

#[test]
fn last_arrow_is_lost_even_when_the_wumpus_is_heard() {
    let mut maze = open_cave();
    let mut player = Player::new(13);
    for _ in 0..4 {
        assert_eq!(resolve_shot(&mut maze, &mut player, 3, None), message(""));
    }
    assert_eq!(player.arrows(), 1);
    let outcome = resolve_shot(&mut maze, &mut player, 3, Some(8));
    assert_eq!(outcome, Outcome::Lose { reason: LoseReason::OutOfArrows });
    assert_eq!(player.arrows(), 0);
    assert_eq!(maze.wumpus_room(), 8);
}

#[test]
fn shooting_at_a_room_that_is_not_next_door_asks_again() {
    let mut rng = rand::thread_rng();
    let mut maze = open_cave();
    let mut player = Player::new(0);
    let before = contents(&maze);
    for token in ["99", "0", "8", "", "wumpus"] {
        let (status, outcome) = submit_input(Status::Shooting, &mut maze, &mut player, token, &mut rng);
        assert_eq!(
            outcome,
            reprompt("There are no tunnels from here to that room. Where do you wanto do shoot?")
        );
        assert_eq!(status, Status::Shooting);
        assert_eq!(player.arrows(), 5);
        assert_eq!(contents(&maze), before);
    }
}

#[test]
fn a_miss_wakes_the_wumpus_about_three_times_in_four() {
    // The Wumpus in room 10 can flee to 9, 11 or 18, all far from room 0.
    let mut rng = rand::thread_rng();
    let mut moved = 0;
    let trials = 2000;
    for _ in 0..trials {
        let mut maze = Maze::with_dangers(10, [2, 3], [5, 6]).unwrap();
        let mut player = Player::new(0);
        let (status, outcome) = submit_input(Status::Shooting, &mut maze, &mut player, "1", &mut rng);
        assert_eq!(status, Status::Normal);
        assert_eq!(player.arrows(), 4);
        let wumpus = maze.wumpus_room();
        if wumpus == 10 {
            assert_eq!(outcome, message(""));
        } else {
            assert!(wumpus == 9 || wumpus == 11 || wumpus == 18);
            assert_eq!(maze.danger(10), None);
            assert_eq!(outcome, message("You heard a rumbling in a nearby cavern."));
            moved += 1;
        }
        assert_eq!(contents(&maze).iter().filter(|held| **held == Some(Danger::Wumpus)).count(), 1);
    }
    assert!(moved > trials * 65 / 100, "{}", moved);
    assert!(moved < trials * 85 / 100, "{}", moved);
}

#[test]
fn a_woken_wumpus_next_door_may_come_or_go() {
    // The Wumpus in room 7 has the exits 0, 6 and 8; the player is in 6.
    let mut rng = rand::thread_rng();
    let mut eaten = 0;
    let mut heard = 0;
    let mut quiet = 0;
    for _ in 0..2000 {
        let mut maze = Maze::with_dangers(7, [4, 12], [1, 19]).unwrap();
        let mut player = Player::new(6);
        let (status, outcome) = submit_input(Status::Shooting, &mut maze, &mut player, "5", &mut rng);
        match outcome {
            Outcome::Lose { reason } => {
                assert_eq!(reason, LoseReason::WokenWumpus);
                assert_eq!(status, Status::Shooting);
                assert_eq!(player.arrows(), 5);
                assert_eq!(maze.wumpus_room(), 7);
                eaten += 1;
            }
            Outcome::Continue { message } => {
                assert_eq!(status, Status::Normal);
                assert_eq!(player.arrows(), 4);
                if message.is_empty() {
                    assert_eq!(maze.wumpus_room(), 7);
                    quiet += 1;
                } else {
                    assert_eq!(message, "You heard a rumbling in a nearby cavern.");
                    assert!(maze.wumpus_room() == 0 || maze.wumpus_room() == 8);
                    heard += 1;
                }
            }
            other => panic!("{:?}", other),
        }
    }
    assert!(eaten > 0 && heard > 0 && quiet > 0);
}

#[test]
fn new_game_starts_in_an_empty_room() {
    let mut rng = rand::thread_rng();
    for _ in 0..200 {
        let (maze, player, text) = new_game(&mut rng);
        assert_eq!(player.arrows(), 5);
        assert_eq!(maze.danger(player.room()), None);
        assert_eq!(text, format!("{}\n{}", maze.describe_room(player.room()), QUESTION));
        let held = contents(&maze);
        assert_eq!(held.iter().filter(|held| **held == Some(Danger::Wumpus)).count(), 1);
        assert_eq!(held.iter().filter(|held| **held == Some(Danger::Pit)).count(), 2);
        assert_eq!(held.iter().filter(|held| **held == Some(Danger::Bat)).count(), 2);
    }
}

#[test]
fn a_whole_game_move_by_move() {
    let mut rng = rand::thread_rng();
    let mut maze = walled_in();
    let mut player = Player::new(0);
    let mut status = Status::Normal;
    let mut last = Outcome::Quit;
    for token in ["h", "m", "8", "7", "m", "8", "s", "x", "9", "q", "n", "q", "y"] {
        let (next, outcome) = submit_input(status, &mut maze, &mut player, token, &mut rng);
        status = next;
        last = outcome;
    }
    assert_eq!(last, Outcome::Quit);
    assert_eq!(player.room(), 8);
    // The pit in room 9 took the arrow.
    assert_eq!(player.arrows(), 4);
    assert_eq!(last.text(), "Goodbye, braveheart!");
}

#[test]
fn exit_codes_tell_the_endings_apart() {
    assert_eq!(message("Where?").exit_code(), None);
    assert_eq!(reprompt("?").exit_code(), None);
    assert_eq!(Outcome::Win.exit_code(), Some(0));
    assert_eq!(Outcome::Quit.exit_code(), Some(0));
    assert_eq!(Outcome::Lose { reason: LoseReason::EatenByWumpus }.exit_code(), Some(0));
    assert_eq!(Outcome::Lose { reason: LoseReason::FellIntoPit }.exit_code(), Some(0));
    assert_eq!(Outcome::Lose { reason: LoseReason::WokenWumpus }.exit_code(), Some(1));
    assert_eq!(Outcome::Lose { reason: LoseReason::OutOfArrows }.exit_code(), Some(1));
}

#[test]
fn outcome_text_and_finality() {
    assert_eq!(message("Where?").text(), "Where?");
    assert_eq!(reprompt("no").text(), "no");
    assert!(!message("Where?").is_final());
    assert!(!reprompt("no").is_final());
    assert!(Outcome::Win.is_final());
    assert!(Outcome::Quit.is_final());
    assert!(Outcome::Lose { reason: LoseReason::FellIntoPit }.is_final());
    assert_eq!(LoseReason::EatenByWumpus.message(), "The wumpus ate you up!\nGAME OVER");
    assert_eq!(LoseReason::FellIntoPit.message(), "You fall into a bottomless pit!\nGAME OVER");
    assert_eq!(LoseReason::WokenWumpus.message(), "You woke up the wumpus and he ate you!\nGAME OVER");
    assert_eq!(LoseReason::OutOfArrows.message(), "You ran out of arrows.\nGAME OVER");
}
