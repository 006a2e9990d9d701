//! The event vocabulary of the per-room fanout: player-originated events for
//! the host's live view, host-originated events for all player views, and the
//! mapping from both to named live-view events.

use vstd::prelude::*;
use vstd::string::StringExecFns;

use crate::decimal::spec_decimal;
use crate::decimal::u64_to_decimal;

verus! {

/// A player-originated event, routed to the host's live view of the room.
#[derive(Clone, Debug)]
pub struct PlayerAction {
    pub game_code: String,
    pub user_id: String,
    pub typ: PlayerActionType,
}

/// What a player did.
#[derive(Clone, Copy, Debug, PartialEq, Eq, Structural)]
pub enum PlayerActionType {
    Join { new_players_count: u64 },
    Guess { item_id: u64, new_guess_count: u64 },
    UndoGuess { item_id: u64, new_guess_count: u64 },
    EnableClearGuesses,
}

/// A host-originated event, routed to all player live views of the room.
#[derive(Clone, Debug)]
pub struct HostAction {
    pub game_code: String,
    pub typ: HostActionType,
}

/// What the host did.
#[derive(Clone, Copy, Debug, PartialEq, Eq, Structural)]
pub enum HostActionType {
    Lock,
    Unlock,
    Choose { item_id: u64 },
    Enable { item_id: u64 },
    Disable { item_id: u64 },
    ClearGuesses,
    Finish,
}

/// A named live-view event, as handed to a streaming connection. The
/// surrounding transport decorates `data` (HTML fragments, keep-alives);
/// the name and the numeric payload are decided here.
#[derive(Clone, Debug)]
pub struct SseEvent {
    pub name: String,
    pub data: String,
}

/// The event name of a per-item guess-count update.
pub open spec fn spec_guesses_event_name(item_id: nat) -> Seq<char> {
    "guesses_"@ + spec_decimal(item_id)
}

/// Maps a player-originated event to the named event the host's live view
/// receives: a player count, a per-item guess count, or the one-time
/// clear-guesses affordance.
pub fn host_view_event(a: &PlayerAction) -> (r: SseEvent)
    ensures
        a.typ matches PlayerActionType::Join { new_players_count } ==> r.name@ == "players_count"@
            && r.data@ == spec_decimal(new_players_count as nat),
        a.typ matches PlayerActionType::Guess { item_id, new_guess_count } ==> r.name@
            == spec_guesses_event_name(item_id as nat) && r.data@ == spec_decimal(
            new_guess_count as nat,
        ),
        a.typ matches PlayerActionType::UndoGuess { item_id, new_guess_count } ==> r.name@
            == spec_guesses_event_name(item_id as nat) && r.data@ == spec_decimal(
            new_guess_count as nat,
        ),
        a.typ matches PlayerActionType::EnableClearGuesses ==> r.name@
            == "enable_clear_guesses"@ && r.data@ == Seq::<char>::empty(),
{
    match &a.typ {
        PlayerActionType::Join { new_players_count } => SseEvent {
            name: String::from_str("players_count"),
            data: u64_to_decimal(*new_players_count),
        },
        PlayerActionType::Guess { item_id, new_guess_count } => SseEvent {
            name: guesses_event_name(*item_id),
            data: u64_to_decimal(*new_guess_count),
        },
        PlayerActionType::UndoGuess { item_id, new_guess_count } => SseEvent {
            name: guesses_event_name(*item_id),
            data: u64_to_decimal(*new_guess_count),
        },
        PlayerActionType::EnableClearGuesses => SseEvent {
            name: String::from_str("enable_clear_guesses"),
            data: String::new(),
        },
    }
}

/// Maps a host-originated event to the named event a player's live view
/// receives: a finished game forces a full refresh, every other host action
/// is a cue to re-fetch the board.
pub fn player_view_event(a: &HostAction) -> (r: SseEvent)
    ensures
        a.typ matches HostActionType::Finish ==> r.name@ == "force_refresh"@,
        !(a.typ matches HostActionType::Finish) ==> r.name@ == "host_action"@,
        r.data@ == Seq::<char>::empty(),
{
    match &a.typ {
        HostActionType::Finish => SseEvent {
            name: String::from_str("force_refresh"),
            data: String::new(),
        },
        _ => SseEvent { name: String::from_str("host_action"), data: String::new() },
    }
}

fn guesses_event_name(item_id: u64) -> (r: String)
    ensures
        r@ == spec_guesses_event_name(item_id as nat),
{
    let mut r = String::from_str("guesses_");
    let digits = u64_to_decimal(item_id);
    r.append(digits.as_str());
    r
}

} // verus!
