//! View selection for the room pages: given what the surrounding request
//! handling has looked up — whether a code was given, whether the game
//! exists, who the caller is — decide which page or redirect to serve.
//! The transport fetches and renders; the decision lives here.

use vstd::prelude::*;

use crate::models::GameStatus;

verus! {

/// The answer to a join-page request.
#[derive(Clone, Copy, Debug, PartialEq, Eq, Structural)]
pub enum JoinView {
    /// No usable code, or no such game: back to the front page.
    RedirectHome,
    /// Already signed in: straight into the room.
    RedirectGame,
    /// A guest with a valid room: show the join page.
    JoinPage,
}

/// Decides the join page: a missing or empty code or an unknown game go
/// home, a signed-in caller goes straight to the room, and only a signed-out
/// caller with a real room sees the join page.
pub fn select_join_view(code_usable: bool, game_found: bool, signed_in: bool) -> (r: JoinView)
    ensures
        r == (if !code_usable || !game_found {
            JoinView::RedirectHome
        } else if signed_in {
            JoinView::RedirectGame
        } else {
            JoinView::JoinPage
        }),
{
    if !code_usable || !game_found {
        JoinView::RedirectHome
    } else if signed_in {
        JoinView::RedirectGame
    } else {
        JoinView::JoinPage
    }
}

/// The answer to a room-page request.
#[derive(Clone, Copy, Debug, PartialEq, Eq, Structural)]
pub enum GameView {
    /// Not signed in: to the join page for this room.
    RedirectJoin,
    /// No usable code, no such game, or a stranger to a finished game:
    /// back to the front page.
    RedirectHome,
    /// The host's live board.
    HostBoard,
    /// A player's live board (joining on first view).
    PlayerBoard,
    /// The host's view of a finished game.
    FinishedHostBoard,
    /// A player's view of a finished game.
    FinishedPlayerBoard,
}

/// Decides the room page. A signed-out caller is sent to the join page; a
/// missing code or game goes home; on a finished game the host and the
/// joined players get their final boards and strangers go home; on an
/// active game the host gets the host board and everyone else the player
/// board.
pub fn select_game_view(
    code_usable: bool,
    game_found: bool,
    signed_in: bool,
    is_host: bool,
    status: GameStatus,
    has_player_row: bool,
) -> (r: GameView)
    ensures
        r == (if !signed_in {
            GameView::RedirectJoin
        } else if !code_usable || !game_found {
            GameView::RedirectHome
        } else if status is Finished {
            if is_host {
                GameView::FinishedHostBoard
            } else if has_player_row {
                GameView::FinishedPlayerBoard
            } else {
                GameView::RedirectHome
            }
        } else if is_host {
            GameView::HostBoard
        } else {
            GameView::PlayerBoard
        }),
{
    if !signed_in {
        GameView::RedirectJoin
    } else if !code_usable || !game_found {
        GameView::RedirectHome
    } else if status == GameStatus::Finished {
        if is_host {
            GameView::FinishedHostBoard
        } else if has_player_row {
            GameView::FinishedPlayerBoard
        } else {
            GameView::RedirectHome
        }
    } else if is_host {
        GameView::HostBoard
    } else {
        GameView::PlayerBoard
    }
}

} // verus!
