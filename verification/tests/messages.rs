use tictactoe::board::{Cell, Outcome};
use tictactoe::matchmaker::{JoinOutcome, RejectReason};
use tictactoe::controller::{CoreError, Update};
use tictactoe::messages::{
    command_reply, invitation_description, invitation_title, join_reply, legend_description,
    legend_title, matched_notice, refusal, retraction_title, stopped_notice,
};
use tictactoe::session::{Player, Session};
use tictactoe::render::Legend;

#[test]
fn join_replies() {
    assert_eq!(join_reply(JoinOutcome::BecameWaiting), "Please, wait for second player...");
    assert_eq!(join_reply(JoinOutcome::MatchedInto(3)), "Please, wait");
    let rejected =
        "You have already in the game. For starting a new game you should use the `/stop` command.";
    assert_eq!(join_reply(JoinOutcome::Rejected(RejectReason::AlreadyInGame)), rejected);
    assert_eq!(join_reply(JoinOutcome::Rejected(RejectReason::AlreadyWaiting)), rejected);
}

#[test]
fn titles_with_names() {
    assert_eq!(invitation_title("Ann"), "Ann wants to play tic-tac-toe game!");
    assert_eq!(matched_notice("Ann", "Bob"), "The game between Ann and Bob in progress!");
    assert_eq!(stopped_notice("Ann", "Bob"), "The game between Ann and Bob was stopped.");
    assert_eq!(
        legend_title(Legend::InProgress, "Ann", "Bob"),
        "Game between Ann and Bob in the progress!"
    );
    assert_eq!(invitation_title(""), " wants to play tic-tac-toe game!");
}

#[test]
fn legend_titles() {
    assert_eq!(legend_title(Legend::YourTurn, "Ann", "Bob"), "Your turn");
    assert_eq!(legend_title(Legend::WaitingForTurn, "Ann", "Bob"), "Game in process");
    assert_eq!(
        legend_title(Legend::Finished(Outcome::Win(Cell::MarkA)), "Ann", "Bob"),
        "Ann won the game!"
    );
    assert_eq!(
        legend_title(Legend::Finished(Outcome::Win(Cell::MarkB)), "Ann", "Bob"),
        "Bob won the game!"
    );
    assert_eq!(
        legend_title(Legend::Finished(Outcome::Draw), "Ann", "Bob"),
        "The game ended in a draw!"
    );
    assert_eq!(
        legend_title(Legend::Stopped, "Ann", "Bob"),
        "The game between Ann and Bob was stopped."
    );
    assert_eq!(
        legend_description(Legend::Stopped),
        "You can start a new game by using the `/play` command."
    );
}

#[test]
fn legend_descriptions() {
    assert_eq!(
        legend_description(Legend::YourTurn),
        "Press arrows buttons for moving selection square."
    );
    assert_eq!(legend_description(Legend::WaitingForTurn), "Waiting for your turn.");
    assert_eq!(
        legend_description(Legend::InProgress),
        "You can play this game too by using the `/play` command."
    );
    assert_eq!(
        legend_description(Legend::Finished(Outcome::Draw)),
        "You can start a new game by using the `/play` command."
    );
}

#[test]
fn refusals() {
    let rejected =
        "You have already in the game. For starting a new game you should use the `/stop` command.";
    assert_eq!(refusal(CoreError::AlreadyInGame), rejected);
    assert_eq!(refusal(CoreError::AlreadyWaiting), rejected);
    assert_eq!(refusal(CoreError::NotYourTurn), "It is not your turn.");
    assert_eq!(refusal(CoreError::CellOccupied), "This square is taken.");
    assert_eq!(refusal(CoreError::InvalidCell), "There is no such square.");
    assert_eq!(refusal(CoreError::SessionEnded), "The game is over.");
    assert_eq!(refusal(CoreError::NotInGame), "You are not in a game.");
    assert_eq!(refusal(CoreError::RenderSurfaceFailure), "The board could not be shown.");
}

#[test]
fn command_replies() {
    let session = || {
        Session::new(
            0,
            Player { id: 1, name: "Ann".to_string(), channel: 1 },
            Player { id: 2, name: "Bob".to_string(), channel: 1 },
        )
    };
    assert_eq!(command_reply(&None), "Invalid command!");
    assert_eq!(command_reply(&Some(Err(CoreError::NotInGame))), "You are not in a game.");
    assert_eq!(command_reply(&Some(Ok(Update::Waiting))), "Please, wait for second player...");
    assert_eq!(command_reply(&Some(Ok(Update::Matched(4)))), "Please, wait");
    assert_eq!(
        command_reply(&Some(Ok(Update::WaitingCancelled))),
        "You no longer wait for a game."
    );
    assert_eq!(command_reply(&Some(Ok(Update::Stopped(session())))), "The game was stopped.");
    assert_eq!(command_reply(&Some(Ok(Update::TurnPassed(0)))), "");
    assert_eq!(command_reply(&Some(Ok(Update::CursorMoved(0, 3)))), "");
    assert_eq!(command_reply(&Some(Ok(Update::Finished(session())))), "");
}

#[test]
fn invitation_and_retraction() {
    assert_eq!(
        invitation_description(),
        "You can join to him/her/them by using the `/play` command."
    );
    assert_eq!(retraction_title("Ann"), "Ann no longer waits for a game.");
}
