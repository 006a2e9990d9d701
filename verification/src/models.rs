//! Data model of a drop-guessing session: games, items, players, guesses,
//! outcomes and winners, plus the session/identity rows that authorize
//! actions. These are the request-scoped copies of rows owned by the
//! persistence collaborator.

use vstd::prelude::*;

verus! {

/// Lifecycle status of a game: `Active` until the host finishes it, then
/// `Finished` forever.
#[derive(Clone, Copy, Debug, PartialEq, Eq, Structural)]
pub enum GameStatus {
    Active,
    Finished,
}

/// One drop-guessing session, identified by its short room code.
#[derive(Clone, Debug)]
pub struct Game {
    pub game_code: String,
    pub user_id: String,
    pub status: GameStatus,
    pub created_at: u64,
    pub active_at: u64,
    pub name: String,
    pub auto_lock: bool,
    pub reward_message: Option<String>,
    pub total_reward_message: Option<String>,
    pub is_locked: bool,
}

/// One of the possible outcomes a host can choose; players guess which item
/// will be chosen next. Choosing an item disables it.
#[derive(Clone, Debug)]
pub struct GameItem {
    pub game_item_id: u64,
    pub game_code: String,
    pub name: String,
    pub image: Option<String>,
    pub enabled: bool,
}

/// A game item together with the number of pending guesses on it, as shown
/// on the host's board.
#[derive(Clone, Debug)]
pub struct GameItemWithGuessCount {
    pub game_item_id: u64,
    pub game_code: String,
    pub name: String,
    pub image: Option<String>,
    pub enabled: bool,
    pub guess_count: Option<u64>,
}

/// The immutable record of one item having been chosen. Stamping guesses
/// with its id is what closes the pending window.
#[derive(Clone, Debug)]
pub struct GameItemOutcome {
    pub outcome_id: u64,
    pub game_code: String,
    pub item_id: u64,
}

/// The join row for one (game, user) pair, with the player's point total.
#[derive(Clone, Debug)]
pub struct GamePlayer {
    pub game_player_id: u64,
    pub game_code: String,
    pub user_id: String,
    pub points: u64,
}

/// A player's guess; `outcome_id` starts `None` (pending) and is set exactly
/// once, when some item is chosen and the round resolves.
#[derive(Clone, Debug)]
pub struct PlayerGuess {
    pub player_guess_id: u64,
    pub game_code: String,
    pub player_id: u64,
    pub item_id: u64,
    pub outcome_id: Option<u64>,
}

/// One winner row, derived at game finish; ties produce several.
#[derive(Clone, Copy, Debug, PartialEq, Eq, Structural)]
pub struct GameWinner {
    pub game_winner_id: u64,
    pub game_player_id: u64,
}

/// A reusable blueprint a host creates games from.
#[derive(Clone, Debug)]
pub struct GameTemplate {
    pub game_template_id: u64,
    pub user_id: String,
    pub name: String,
    pub auto_lock: bool,
    pub reward_message: Option<String>,
    pub total_reward_message: Option<String>,
}

/// One item of a game template; games copy these at creation time.
#[derive(Clone, Debug)]
pub struct GameItemTemplate {
    pub game_item_template_id: u64,
    pub game_template_id: u64,
    pub name: String,
    pub image: Option<String>,
    pub start_enabled: bool,
}

/// An authenticated identity.
#[derive(Clone, Debug)]
pub struct User {
    pub user_id: String,
    pub username: String,
    pub twitch_login: String,
}

/// An authorized session row, mapping an opaque session id to a user.
#[derive(Clone, Debug)]
pub struct SessionAuth {
    pub id: u64,
    pub sid: String,
    pub user_id: String,
    pub access_token: String,
    pub refresh_token: String,
    pub created_at: u64,
    pub expiry: u64,
    pub can_chat: bool,
}

/// A session row joined with its user, as the presence lookup returns it.
#[derive(Clone, Debug)]
pub struct SessionAuthWithUser {
    pub id: u64,
    pub sid: String,
    pub user_id: String,
    pub access_token: String,
    pub refresh_token: String,
    pub created_at: u64,
    pub expiry: u64,
    pub can_chat: bool,
    pub username: String,
    pub twitch_login: String,
}

impl SessionAuthWithUser {
    /// Splits the joined row into its user part and its session part.
    pub fn split(self) -> (r: (User, SessionAuth))
        ensures
            r.0.user_id == self.user_id,
            r.0.username == self.username,
            r.0.twitch_login == self.twitch_login,
            r.1.id == self.id,
            r.1.sid == self.sid,
            r.1.user_id == self.user_id,
            r.1.access_token == self.access_token,
            r.1.refresh_token == self.refresh_token,
            r.1.created_at == self.created_at,
            r.1.expiry == self.expiry,
            r.1.can_chat == self.can_chat,
    {
        let user = User {
            user_id: self.user_id.clone(),
            username: self.username,
            twitch_login: self.twitch_login,
        };
        let auth = SessionAuth {
            id: self.id,
            sid: self.sid,
            user_id: self.user_id,
            access_token: self.access_token,
            refresh_token: self.refresh_token,
            created_at: self.created_at,
            expiry: self.expiry,
            can_chat: self.can_chat,
        };
        (user, auth)
    }
}

/// An outbound chat message for the chat-relay collaborator, delivered
/// best-effort and at most once.
#[derive(Clone, Debug)]
pub struct ChatMessage {
    pub id: u64,
    pub game_code: String,
    pub message: String,
    pub lock_id: Option<String>,
    pub sent: bool,
}

/// A one-time token guarding the identity provider's callback.
#[derive(Clone, Debug)]
pub struct CsrfToken {
    pub id: u64,
    pub sid: String,
    pub token: String,
    pub expiry: Option<u64>,
    pub redirect: Option<String>,
    pub with_chat: bool,
}

/// A game joined by some player, with the aggregates their dashboard shows.
#[derive(Clone, Debug)]
pub struct GameWithJoinedSummary {
    pub game_code: String,
    pub user_id: String,
    pub status: GameStatus,
    pub created_at: u64,
    pub active_at: u64,
    pub name: String,
    pub auto_lock: bool,
    pub reward_message: Option<String>,
    pub total_reward_message: Option<String>,
    pub is_locked: bool,
    pub players_count: Option<u64>,
    pub winners_count: Option<u64>,
    pub winning_points: Option<u64>,
    pub total_drops: Option<u64>,
    pub is_winner: Option<bool>,
    pub points: u64,
    pub host: String,
}

/// A game hosted by some user, with the aggregates their dashboard shows.
#[derive(Clone, Debug)]
pub struct GameWithHostedSummary {
    pub game_code: String,
    pub user_id: String,
    pub status: GameStatus,
    pub created_at: u64,
    pub active_at: u64,
    pub name: String,
    pub auto_lock: bool,
    pub reward_message: Option<String>,
    pub total_reward_message: Option<String>,
    pub is_locked: bool,
    pub players_count: Option<u64>,
    pub winners_count: Option<u64>,
    pub winning_points: Option<u64>,
    pub total_drops: Option<u64>,
}

} // verus!
