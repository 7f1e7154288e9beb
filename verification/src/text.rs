//! The words of the game.

use vstd::prelude::*;
use vstd::string::StringExecFns;

use crate::token::{digit_value, digits_value, is_digit, is_number, number_value, unsigned_part};

verus! {

/// The rules of the game, shown on request.
pub const HELP: &'static str = "\
Welcome to \"Hunt the Wumpus\"
The wumpus lives in a cave of 20 rooms. Each room has 3 tunnels to
other rooms. (Look at a dodecahedron to see how this works. If you
dont know what a dodecahedron is, ask someone.)
Hazards:
 Bottomless pits - Two rooms have bottomless pits in them. If you go
   there, you fall into the pit (& lose)!
 Super bats - Two other rooms have super bats. If you go there, a
   bat grabs you and takes you to some other room at random (which
   may be troublesome).
Wumpus:
   The wumpus is not bothered by hazards. (He has sucker feet and is
   too big for a bat to lift.)  Usually he is asleep. Two things
   wake him up: your shooting an arrow, or your entering his room.
   If the wumpus wakes, he moves one room or stays still.
   After that, if he is where you are, he eats you up and you lose!
You:
   Each turn you may move or shoot a crooked arrow.
   Moving:  You can move one room (through one tunnel).
   Arrows:  You have 5 arrows.  You lose when you run out.
      You can only shoot to nearby rooms.
      If the arrow hits the wumpus, you win.
Warnings:
   When you are one room away from a wumpus or hazard, the computer
   says:
   Wumpus:  \"You smell something terrible nearby.\"
   Bat   :  \"You hear a rustling.\"
   Pit   :  \"You feel a cold wind blowing from a nearby cavern.\"
";

/// Asks for the room to move or shoot to.
pub const WHERE: &'static str = "Where?";

/// Asks whether the player really wants to leave.
pub const CONFIRM_QUIT: &'static str = "Are you so easily scared? [y/n]";

/// Said when the player stays after all.
pub const RESUME: &'static str = "Good. the Wumpus is looking for you!";

/// Said to a player who leaves.
pub const FAREWELL: &'static str = "Goodbye, braveheart!";

/// Said to an input that is no command.
pub const NONSENSE: &'static str = "That doesn't make any sense";

/// Said when the player cannot move to the room they named.
pub const NO_TUNNEL_TO_GO: &'static str =
    "There are no tunnels from here to that room. Where do you wanto do go?";

/// Said when the player cannot shoot into the room they named.
pub const NO_TUNNEL_TO_SHOOT: &'static str =
    "There are no tunnels from here to that room. Where do you wanto do shoot?";

/// Said when bats carry the player off.
pub const WHISKED: &'static str = "The bats whisk you away!";

/// Said when the Wumpus has moved.
pub const RUMBLING: &'static str = "You heard a rumbling in a nearby cavern.";

/// Said when the arrow has hit the Wumpus.
pub const VICTORY: &'static str = "YOU KILLED THE WUMPUS! GOOD JOB, BUDDY!!!";

/// Said when the player has walked into the Wumpus.
pub const EATEN: &'static str = "The wumpus ate you up!\nGAME OVER";

/// Said when the player has walked into a pit.
pub const FALLEN: &'static str = "You fall into a bottomless pit!\nGAME OVER";

/// Said when the Wumpus, woken by an arrow, has come for the player.
pub const WOKEN: &'static str = "You woke up the wumpus and he ate you!\nGAME OVER";

/// Said when the last arrow has missed.
pub const NO_ARROWS: &'static str = "You ran out of arrows.\nGAME OVER";

/// Begins the description of a room; the room's number follows.
pub const ROOM_INTRO: &'static str = "You are in room #";

/// The hint that a pit is next door.
pub const PIT_NEARBY: &'static str = "\nYou feel a cold wind blowing from a nearby cavern.";

/// The hint that bats are next door.
pub const BAT_NEARBY: &'static str = "\nYou hear a rustling.";

/// The hint that the Wumpus is next door.
pub const WUMPUS_NEARBY: &'static str = "\nYou smell something terrible nearby.";

/// Begins the list of exits.
pub const EXITS: &'static str = "\nExits go to: ";

/// Stands between two exits.
pub const COMMA: &'static str = ", ";

/// Stands between two lines.
pub const NEWLINE: &'static str = "\n";

/// Asks for the next command.
pub const QUESTION: &'static str = "What do you want to do? (m)ove or (s)hoot?";

/// The character that writes the digit `digit`.
pub open spec fn digit_char(digit: nat) -> char {
    ((digit + 48) as u8) as char
}

/// `number` written in decimal digits, without leading zeros.
pub open spec fn decimal(number: nat) -> Seq<char>
    decreases number,
{
    if number < 10 {
        seq![digit_char(number)]
    } else {
        decimal(number / 10).push(digit_char(number % 10))
    }
}

/// The one-letter text of a digit.
fn digit_text(digit: usize) -> (text: &'static str)
    requires
        digit < 10,
    ensures
        text@ == seq![digit_char(digit as nat)],
{
    proof {
        reveal_strlit("0");
        reveal_strlit("1");
        reveal_strlit("2");
        reveal_strlit("3");
        reveal_strlit("4");
        reveal_strlit("5");
        reveal_strlit("6");
        reveal_strlit("7");
        reveal_strlit("8");
        reveal_strlit("9");
    }
    let text = if digit == 0 {
        "0"
    } else if digit == 1 {
        "1"
    } else if digit == 2 {
        "2"
    } else if digit == 3 {
        "3"
    } else if digit == 4 {
        "4"
    } else if digit == 5 {
        "5"
    } else if digit == 6 {
        "6"
    } else if digit == 7 {
        "7"
    } else if digit == 8 {
        "8"
    } else {
        "9"
    };
    assert(text@ =~= seq![digit_char(digit as nat)]);
    text
}

/// Writes `number` in decimal digits.
pub fn decimal_text(number: usize) -> (text: String)
    ensures
        text@ == decimal(number as nat),
    decreases number,
{
    if number < 10 {
        String::from_str(digit_text(number))
    } else {
        let mut text = decimal_text(number / 10);
        text.append(digit_text(number % 10));
        text
    }
}

/// A number is read back from its decimal digits: what [`decimal`] writes is
/// a number for [`number_value`], and its value is the number written.
pub proof fn lemma_decimal_reads_back(number: nat)
    ensures
        number_value(decimal(number)) == Some(number),
{
    lemma_decimal_digits(number);
    let text = decimal(number);
    assert(text[0] != '+');
    assert(unsigned_part(text) == text);
}

/// What [`decimal`] writes is made of digits, at least one, and they write
/// the number.
proof fn lemma_decimal_digits(number: nat)
    ensures
        decimal(number).len() > 0,
        forall|i: int| 0 <= i < decimal(number).len() ==> is_digit(#[trigger] decimal(number)[i]),
        digits_value(decimal(number)) == number,
    decreases number,
{
    let last = digit_char(number % 10);
    assert(is_digit(last) && digit_value(last) == number % 10);
    assert(decimal(number).last() == last);
    if number < 10 {
        assert(decimal(number).drop_last() =~= Seq::<char>::empty());
        assert(digits_value(decimal(number).drop_last()) == 0);
    } else {
        lemma_decimal_digits(number / 10);
        assert(decimal(number).drop_last() =~= decimal(number / 10));
    }
}

} // verus!
