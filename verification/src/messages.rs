//! The wording of what players are told: replies to a join request and the
//! legends that go with a render.

use vstd::prelude::*;
use vstd::string::*;
use crate::board::{Cell, Outcome};
use crate::controller::{CoreError, Update, UpdateView};
use crate::matchmaker::{JoinOutcome, RejectReason};
use crate::render::Legend;

verus! {

/// The private reply to a join request.
pub open spec fn join_reply_text(outcome: JoinOutcome) -> Seq<char> {
    match outcome {
        JoinOutcome::BecameWaiting => "Please, wait for second player..."@,
        JoinOutcome::MatchedInto(_) => "Please, wait"@,
        JoinOutcome::Rejected(_) =>
            "You have already in the game. For starting a new game you should use the `/stop` command."@,
    }
}

/// What a player is told when an input is refused.
pub open spec fn refusal_text(error: CoreError) -> Seq<char> {
    match error {
        CoreError::AlreadyInGame => join_reply_text(
            JoinOutcome::Rejected(RejectReason::AlreadyInGame),
        ),
        CoreError::AlreadyWaiting => join_reply_text(
            JoinOutcome::Rejected(RejectReason::AlreadyWaiting),
        ),
        CoreError::NotYourTurn => "It is not your turn."@,
        CoreError::CellOccupied => "This square is taken."@,
        CoreError::InvalidCell => "There is no such square."@,
        CoreError::SessionEnded => "The game is over."@,
        CoreError::NotInGame => "You are not in a game."@,
        CoreError::RenderSurfaceFailure => "The board could not be shown."@,
    }
}

/// The private reply to an accepted input. Inputs on the board are
/// answered by the board itself and get no words.
pub open spec fn update_reply_text(update: UpdateView) -> Seq<char> {
    match update {
        UpdateView::Waiting => join_reply_text(JoinOutcome::BecameWaiting),
        UpdateView::Matched(id) => join_reply_text(JoinOutcome::MatchedInto(id)),
        UpdateView::WaitingCancelled => "You no longer wait for a game."@,
        UpdateView::Stopped(_) => "The game was stopped."@,
        UpdateView::CursorMoved(_, _) => Seq::empty(),
        UpdateView::TurnPassed(_) => Seq::empty(),
        UpdateView::Finished(_) => Seq::empty(),
    }
}

/// The private reply to a command: to a name that is no command, to a
/// refusal, or to what the command changed.
pub open spec fn command_reply_text(answer: Option<Result<UpdateView, CoreError>>) -> Seq<char> {
    match answer {
        None => "Invalid command!"@,
        Some(Err(error)) => refusal_text(error),
        Some(Ok(update)) => update_reply_text(update),
    }
}

/// The title that replaces the invitation of a player who no longer waits.
pub open spec fn retraction_title_text(name: Seq<char>) -> Seq<char> {
    name + " no longer waits for a game."@
}

/// The title of the public invitation that a waiting player's channel shows.
pub open spec fn invitation_title_text(name: Seq<char>) -> Seq<char> {
    name + " wants to play tic-tac-toe game!"@
}

/// The notice that the second player's channel shows when a match was made
/// across channels.
pub open spec fn matched_notice_text(first: Seq<char>, second: Seq<char>) -> Seq<char> {
    "The game between "@ + first + " and "@ + second + " in progress!"@
}

/// The notice that goes out when a player stopped the game.
pub open spec fn stopped_notice_text(first: Seq<char>, second: Seq<char>) -> Seq<char> {
    "The game between "@ + first + " and "@ + second + " was stopped."@
}

/// The title that goes with a legend, given the names of the two players.
pub open spec fn legend_title_text(legend: Legend, first: Seq<char>, second: Seq<char>) -> Seq<char> {
    match legend {
        Legend::YourTurn => "Your turn"@,
        Legend::WaitingForTurn => "Game in process"@,
        Legend::InProgress => "Game between "@ + first + " and "@ + second + " in the progress!"@,
        Legend::Finished(Outcome::Win(Cell::MarkA)) => first + " won the game!"@,
        Legend::Finished(Outcome::Win(Cell::MarkB)) => second + " won the game!"@,
        Legend::Finished(_) => "The game ended in a draw!"@,
        Legend::Stopped => stopped_notice_text(first, second),
    }
}

/// The description that goes with a legend.
pub open spec fn legend_description_text(legend: Legend) -> Seq<char> {
    match legend {
        Legend::YourTurn => "Press arrows buttons for moving selection square."@,
        Legend::WaitingForTurn => "Waiting for your turn."@,
        Legend::InProgress => "You can play this game too by using the `/play` command."@,
        Legend::Finished(_) => "You can start a new game by using the `/play` command."@,
        Legend::Stopped => "You can start a new game by using the `/play` command."@,
    }
}

/// The private reply to a join request.
pub fn join_reply(outcome: JoinOutcome) -> (text: String)
    ensures
        text@ == join_reply_text(outcome),
{
    match outcome {
        JoinOutcome::BecameWaiting => String::from_str("Please, wait for second player..."),
        JoinOutcome::MatchedInto(_) => String::from_str("Please, wait"),
        JoinOutcome::Rejected(_) => String::from_str(
            "You have already in the game. For starting a new game you should use the `/stop` command.",
        ),
    }
}

/// What a player is told when an input is refused.
pub fn refusal(error: CoreError) -> (text: String)
    ensures
        text@ == refusal_text(error),
{
    match error {
        CoreError::AlreadyInGame => join_reply(JoinOutcome::Rejected(RejectReason::AlreadyInGame)),
        CoreError::AlreadyWaiting => join_reply(
            JoinOutcome::Rejected(RejectReason::AlreadyWaiting),
        ),
        CoreError::NotYourTurn => String::from_str("It is not your turn."),
        CoreError::CellOccupied => String::from_str("This square is taken."),
        CoreError::InvalidCell => String::from_str("There is no such square."),
        CoreError::SessionEnded => String::from_str("The game is over."),
        CoreError::NotInGame => String::from_str("You are not in a game."),
        CoreError::RenderSurfaceFailure => String::from_str("The board could not be shown."),
    }
}

/// The private reply to a command: to a name that is no command, to a
/// refusal, or to what the command changed.
pub fn command_reply(answer: &Option<Result<Update, CoreError>>) -> (text: String)
    ensures
        text@ == command_reply_text(
            match *answer {
                None => None,
                Some(Err(error)) => Some(Err(error)),
                Some(Ok(update)) => Some(Ok(update@)),
            },
        ),
{
    match answer {
        None => String::from_str("Invalid command!"),
        Some(Err(error)) => refusal(*error),
        Some(Ok(Update::Waiting)) => join_reply(JoinOutcome::BecameWaiting),
        Some(Ok(Update::Matched(id))) => join_reply(JoinOutcome::MatchedInto(*id)),
        Some(Ok(Update::WaitingCancelled)) => String::from_str("You no longer wait for a game."),
        Some(Ok(Update::Stopped(_))) => String::from_str("The game was stopped."),
        Some(Ok(_)) => String::new(),
    }
}

/// The description of the public invitation.
pub fn invitation_description() -> (text: String)
    ensures
        text@ == "You can join to him/her/them by using the `/play` command."@,
{
    String::from_str("You can join to him/her/them by using the `/play` command.")
}

/// The title that replaces the invitation of a player who no longer waits.
pub fn retraction_title(name: &str) -> (text: String)
    ensures
        text@ == retraction_title_text(name@),
{
    let mut text = String::from_str(name);
    text.append(" no longer waits for a game.");
    text
}

/// The title of the public invitation that a waiting player's channel shows.
pub fn invitation_title(name: &str) -> (text: String)
    ensures
        text@ == invitation_title_text(name@),
{
    let mut text = String::from_str(name);
    text.append(" wants to play tic-tac-toe game!");
    text
}

/// `head`, the first name, `middle`, the second name and `tail`, in a row.
fn around_names(head: &str, first: &str, middle: &str, second: &str, tail: &str) -> (text: String)
    ensures
        text@ == head@ + first@ + middle@ + second@ + tail@,
{
    let mut text = String::from_str(head);
    text.append(first);
    text.append(middle);
    text.append(second);
    text.append(tail);
    text
}

/// The notice that the second player's channel shows when a match was made
/// across channels.
pub fn matched_notice(first: &str, second: &str) -> (text: String)
    ensures
        text@ == matched_notice_text(first@, second@),
{
    around_names("The game between ", first, " and ", second, " in progress!")
}

/// The notice that goes out when a player stopped the game.
pub fn stopped_notice(first: &str, second: &str) -> (text: String)
    ensures
        text@ == stopped_notice_text(first@, second@),
{
    around_names("The game between ", first, " and ", second, " was stopped.")
}

/// The title that goes with a legend, given the names of the two players.
pub fn legend_title(legend: Legend, first: &str, second: &str) -> (text: String)
    ensures
        text@ == legend_title_text(legend, first@, second@),
{
    match legend {
        Legend::YourTurn => String::from_str("Your turn"),
        Legend::WaitingForTurn => String::from_str("Game in process"),
        Legend::InProgress => around_names(
            "Game between ",
            first,
            " and ",
            second,
            " in the progress!",
        ),
        Legend::Finished(Outcome::Win(Cell::MarkA)) => {
            let mut text = String::from_str(first);
            text.append(" won the game!");
            text
        },
        Legend::Finished(Outcome::Win(Cell::MarkB)) => {
            let mut text = String::from_str(second);
            text.append(" won the game!");
            text
        },
        Legend::Finished(_) => String::from_str("The game ended in a draw!"),
        Legend::Stopped => stopped_notice(first, second),
    }
}

/// The description that goes with a legend.
pub fn legend_description(legend: Legend) -> (text: String)
    ensures
        text@ == legend_description_text(legend),
{
    match legend {
        Legend::YourTurn => String::from_str("Press arrows buttons for moving selection square."),
        Legend::WaitingForTurn => String::from_str("Waiting for your turn."),
        Legend::InProgress => String::from_str(
            "You can play this game too by using the `/play` command.",
        ),
        Legend::Finished(_) | Legend::Stopped => String::from_str(
            "You can start a new game by using the `/play` command.",
        ),
    }
}

} // verus!
