//! The game state machine and the guess-resolution and scoring engine.
//!
//! A `GameSession` holds the rows of one room — the game, its items, its
//! players, their guesses, the recorded outcomes and winners, and the users
//! seen so far — and every action is a transition on it: the host locks,
//! unlocks, enables, disables, chooses an item, clears guesses or finishes;
//! a player joins or guesses. Each transition either mutates the session and
//! reports the events to publish, or fails and leaves the session untouched.
//! Serializing these transitions per room (one writer at a time) is the
//! caller's side of the contract; each transition is a single resolution
//! unit.

use vstd::prelude::*;
use vstd::string::StringExecFns;

use crate::errors::AppError;
use crate::errors::ErrorKind;
use crate::events::HostAction;
use crate::events::HostActionType;
use crate::events::PlayerAction;
use crate::events::PlayerActionType;
use crate::models::ChatMessage;
use crate::models::Game;
use crate::models::GameItem;
use crate::models::GameItemOutcome;
use crate::models::GameItemTemplate;
use crate::models::GameItemWithGuessCount;
use crate::models::GamePlayer;
use crate::models::GameStatus;
use crate::models::GameTemplate;
use crate::models::GameWinner;
use crate::models::PlayerGuess;
use crate::models::User;

verus! {

/// A guess is pending while no outcome has stamped it.
pub open spec fn is_pending(g: PlayerGuess) -> bool {
    g.outcome_id is None
}

/// Whether the player with id `player_id` has a pending guess on `item_id`.
pub open spec fn has_pending_on(gs: Seq<PlayerGuess>, player_id: u64, item_id: u64) -> bool {
    exists|k: int|
        0 <= k < gs.len() && is_pending(#[trigger] gs[k]) && gs[k].player_id == player_id
            && gs[k].item_id == item_id
}

/// The number of pending guesses on `item_id`.
pub open spec fn count_pending_on(gs: Seq<PlayerGuess>, item_id: u64) -> nat
    decreases gs.len(),
{
    if gs.len() == 0 {
        0
    } else {
        count_pending_on(gs.drop_last(), item_id) + (if is_pending(gs.last()) && gs.last().item_id
            == item_id {
            1nat
        } else {
            0nat
        })
    }
}

/// The subsequence of guesses that an outcome has already stamped.
pub open spec fn resolved_only(gs: Seq<PlayerGuess>) -> Seq<PlayerGuess>
    decreases gs.len(),
{
    if gs.len() == 0 {
        Seq::empty()
    } else {
        resolved_only(gs.drop_last()) + (if is_pending(gs.last()) {
            Seq::empty()
        } else {
            seq![gs.last()]
        })
    }
}

/// The user row carrying `user_id`.
pub open spec fn spec_user_by_id(users: Seq<User>, user_id: Seq<char>) -> User {
    users[choose|u: int| 0 <= u < users.len() && (#[trigger] users[u]).user_id@ == user_id]
}

/// The players credited by choosing `item_id` — those with a pending guess
/// on it at the moment of resolution — as (player id, display name) pairs
/// in roster order. Each player appears at most once, because nobody holds
/// two pending guesses.
pub open spec fn spec_correct_guessers(
    players: Seq<GamePlayer>,
    guesses: Seq<PlayerGuess>,
    users: Seq<User>,
    item_id: u64,
) -> Seq<(u64, String)>
    decreases players.len(),
{
    if players.len() == 0 {
        Seq::empty()
    } else {
        spec_correct_guessers(players.drop_last(), guesses, users, item_id) + (if has_pending_on(
            guesses,
            players.last().game_player_id,
            item_id,
        ) {
            seq![
                (
                    players.last().game_player_id,
                    spec_user_by_id(users, players.last().user_id@).username,
                ),
            ]
        } else {
            Seq::empty()
        })
    }
}

/// The player row carrying `player_id`.
pub open spec fn spec_player_by_id(players: Seq<GamePlayer>, player_id: u64) -> GamePlayer {
    players[
        choose|p: int|
            0 <= p < players.len() && (#[trigger] players[p]).game_player_id == player_id
    ]
}

/// The session maximum point total, zero when nobody joined.
pub open spec fn spec_max_points(players: Seq<GamePlayer>) -> nat
    decreases players.len(),
{
    if players.len() == 0 {
        0
    } else {
        let rest = spec_max_points(players.drop_last());
        if players.last().points > rest {
            players.last().points as nat
        } else {
            rest
        }
    }
}

/// The winner rows derived at finish: one per player whose point total
/// equals the session maximum `m`, in roster order — ties all win, and a
/// zero-point game has no winners. Row ids are zero until the store assigns
/// them.
pub open spec fn spec_winner_rows(players: Seq<GamePlayer>, m: nat) -> Seq<GameWinner>
    decreases players.len(),
{
    if players.len() == 0 {
        Seq::empty()
    } else {
        spec_winner_rows(players.drop_last(), m) + (if players.last().points == m && m > 0 {
            seq![GameWinner { game_winner_id: 0, game_player_id: players.last().game_player_id }]
        } else {
            Seq::empty()
        })
    }
}

/// The display names of the players whose point total equals `m`, in
/// roster order — what the host's board shows as the current leaders.
pub open spec fn spec_leader_names(
    players: Seq<GamePlayer>,
    users: Seq<User>,
    m: nat,
) -> Seq<String>
    decreases players.len(),
{
    if players.len() == 0 {
        Seq::empty()
    } else {
        spec_leader_names(players.drop_last(), users, m) + (if players.last().points == m {
            seq![spec_user_by_id(users, players.last().user_id@).username]
        } else {
            Seq::empty()
        })
    }
}

/// `names` joined with a comma and a space between each two.
pub open spec fn spec_joined_names(names: Seq<String>) -> Seq<char>
    decreases names.len(),
{
    if names.len() == 0 {
        Seq::empty()
    } else if names.len() == 1 {
        names[0]@
    } else {
        spec_joined_names(names.drop_last()) + ", "@ + names.last()@
    }
}

/// Whether `players` holds a row with id `player_id`.
pub open spec fn player_id_in(players: Seq<GamePlayer>, player_id: u64) -> bool {
    exists|p: int|
        0 <= p < players.len() && (#[trigger] players[p]).game_player_id == player_id
}

/// Whether `users` holds a row with id `user_id`.
pub open spec fn user_id_in(users: Seq<User>, user_id: Seq<char>) -> bool {
    exists|u: int| 0 <= u < users.len() && (#[trigger] users[u]).user_id@ == user_id
}

/// Player rows are mutually distinct (by id and by user), belong to the
/// game, never name the host, carry ids below the allocation counter, and
/// never hold more points than there were resolutions.
pub open spec fn players_ok(
    players: Seq<GamePlayer>,
    next_player_id: u64,
    n_outcomes: nat,
    game_code: Seq<char>,
    host_id: Seq<char>,
) -> bool {
    &&& forall|i: int, j: int|
        0 <= i < j < players.len() ==> (#[trigger] players[i]).game_player_id != (
        #[trigger] players[j]).game_player_id
    &&& forall|i: int, j: int|
        0 <= i < j < players.len() ==> (#[trigger] players[i]).user_id@ != (
        #[trigger] players[j]).user_id@
    &&& forall|i: int|
        0 <= i < players.len() ==> (#[trigger] players[i]).game_player_id < next_player_id
    &&& forall|i: int| 0 <= i < players.len() ==> (#[trigger] players[i]).points <= n_outcomes
    &&& forall|i: int| 0 <= i < players.len() ==> (#[trigger] players[i]).game_code@ == game_code
    &&& forall|i: int| 0 <= i < players.len() ==> (#[trigger] players[i]).user_id@ != host_id
}

/// Item rows have mutually distinct ids and belong to the game.
pub open spec fn items_ok(items: Seq<GameItem>, game_code: Seq<char>) -> bool {
    &&& forall|i: int, j: int|
        0 <= i < j < items.len() ==> (#[trigger] items[i]).game_item_id != (
        #[trigger] items[j]).game_item_id
    &&& forall|i: int| 0 <= i < items.len() ==> (#[trigger] items[i]).game_code@ == game_code
}

/// Guess rows belong to the game and to an existing player, carry ids below
/// the allocation counter, and no player holds two pending guesses at once.
pub open spec fn guesses_ok(
    guesses: Seq<PlayerGuess>,
    players: Seq<GamePlayer>,
    next_guess_id: u64,
    game_code: Seq<char>,
) -> bool {
    &&& forall|i: int, j: int|
        0 <= i < j < guesses.len() ==> !(is_pending(#[trigger] guesses[i]) && is_pending(
            #[trigger] guesses[j],
        ) && guesses[i].player_id == guesses[j].player_id)
    &&& forall|i: int|
        0 <= i < guesses.len() ==> (#[trigger] guesses[i]).player_guess_id < next_guess_id
    &&& forall|i: int| 0 <= i < guesses.len() ==> (#[trigger] guesses[i]).game_code@ == game_code
    &&& forall|i: int|
        0 <= i < guesses.len() ==> player_id_in(players, (#[trigger] guesses[i]).player_id)
}

/// Outcome rows have mutually distinct ids below the allocation counter and
/// belong to the game.
pub open spec fn outcomes_ok(
    outcomes: Seq<GameItemOutcome>,
    next_outcome_id: u64,
    game_code: Seq<char>,
) -> bool {
    &&& forall|i: int, j: int|
        0 <= i < j < outcomes.len() ==> (#[trigger] outcomes[i]).outcome_id != (
        #[trigger] outcomes[j]).outcome_id
    &&& forall|i: int|
        0 <= i < outcomes.len() ==> (#[trigger] outcomes[i]).outcome_id < next_outcome_id
    &&& forall|i: int| 0 <= i < outcomes.len() ==> (#[trigger] outcomes[i]).game_code@ == game_code
}

/// Seen users are mutually distinct, and every player is a seen user.
pub open spec fn users_ok(users: Seq<User>, players: Seq<GamePlayer>) -> bool {
    &&& forall|i: int, j: int|
        0 <= i < j < users.len() ==> (#[trigger] users[i]).user_id@ != (
        #[trigger] users[j]).user_id@
    &&& forall|i: int|
        0 <= i < players.len() ==> user_id_in(users, (#[trigger] players[i]).user_id@)
}

/// The state of one room, as the engine sees it between actions.
#[derive(Debug)]
pub struct GameSession {
    pub game: Game,
    pub items: Vec<GameItem>,
    pub players: Vec<GamePlayer>,
    pub guesses: Vec<PlayerGuess>,
    pub outcomes: Vec<GameItemOutcome>,
    pub winners: Vec<GameWinner>,
    pub users: Vec<User>,
    pub next_player_id: u64,
    pub next_guess_id: u64,
    pub next_outcome_id: u64,
}

/// What a guess action did: the player's (single) pending guess after the
/// action, and the events to publish, in order.
#[derive(Debug)]
pub struct GuessUpdate {
    pub guess: PlayerGuess,
    pub events: Vec<PlayerAction>,
}

/// What one `ChooseItem` resolution did: the immutable outcome row, the
/// credited players with their display names, the rendered reward messages
/// for the chat relay, and the event to publish.
#[derive(Debug)]
pub struct ChooseResolution {
    pub outcome: GameItemOutcome,
    pub correct_guessers: Vec<(u64, String)>,
    pub messages: Vec<ChatMessage>,
    pub event: HostAction,
}

/// What finishing a game did: the winner rows, the rendered game-end
/// reward messages for the chat relay, and the event to publish.
#[derive(Debug)]
pub struct FinishOutcome {
    pub winners: Vec<GameWinner>,
    pub messages: Vec<ChatMessage>,
    pub event: HostAction,
}

impl GameSession {
    /// Whether `user_id` is the host of this game.
    pub open spec fn is_host(self, user_id: Seq<char>) -> bool {
        self.game.user_id@ == user_id
    }

    /// Whether the game is still running.
    pub open spec fn is_active(self) -> bool {
        self.game.status is Active
    }

    /// Whether some item of this game has id `item_id`.
    pub open spec fn has_item(self, item_id: u64) -> bool {
        exists|i: int| 0 <= i < self.items@.len() && (#[trigger] self.items@[i]).game_item_id == item_id
    }

    /// The index of the item with id `item_id`.
    pub open spec fn item_index(self, item_id: u64) -> int {
        choose|i: int| 0 <= i < self.items@.len() && (#[trigger] self.items@[i]).game_item_id == item_id
    }

    /// Whether the user with id `user_id` has joined as a player.
    pub open spec fn has_player(self, user_id: Seq<char>) -> bool {
        exists|i: int| 0 <= i < self.players@.len() && (#[trigger] self.players@[i]).user_id@ == user_id
    }

    /// The index of the player row of `user_id`.
    pub open spec fn player_index(self, user_id: Seq<char>) -> int {
        choose|i: int| 0 <= i < self.players@.len() && (#[trigger] self.players@[i]).user_id@ == user_id
    }

    /// Whether the player with id `player_id` has a pending guess.
    pub open spec fn has_pending_guess(self, player_id: u64) -> bool {
        exists|k: int|
            0 <= k < self.guesses@.len() && is_pending(#[trigger] self.guesses@[k])
                && self.guesses@[k].player_id == player_id
    }

    /// The index of the pending guess of the player with id `player_id`.
    pub open spec fn pending_guess_index(self, player_id: u64) -> int {
        choose|k: int|
            0 <= k < self.guesses@.len() && is_pending(#[trigger] self.guesses@[k])
                && self.guesses@[k].player_id == player_id
    }

    pub open spec fn wf(self) -> bool {
        &&& players_ok(
            self.players@,
            self.next_player_id,
            self.outcomes@.len(),
            self.game.game_code@,
            self.game.user_id@,
        )
        &&& items_ok(self.items@, self.game.game_code@)
        &&& guesses_ok(self.guesses@, self.players@, self.next_guess_id, self.game.game_code@)
        &&& outcomes_ok(self.outcomes@, self.next_outcome_id, self.game.game_code@)
        &&& users_ok(self.users@, self.players@)
        &&& (self.is_active() ==> self.winners@.len() == 0)
    }

    /// Creates a session from a template snapshot: the game starts `Active`,
    /// locked exactly when its auto-lock policy says so, and the template's
    /// items are copied — not referenced — so later template edits cannot
    /// affect the game in flight.
    pub fn create_game(
        template: &GameTemplate,
        item_templates: &Vec<GameItemTemplate>,
        host: &User,
        game_code: String,
        now: u64,
    ) -> (s: GameSession)
        requires
            item_templates@.len() < u64::MAX,
        ensures
            s.wf(),
            s.game == (Game {
                game_code: game_code,
                user_id: host.user_id,
                status: GameStatus::Active,
                created_at: now,
                active_at: now,
                name: template.name,
                auto_lock: template.auto_lock,
                reward_message: template.reward_message,
                total_reward_message: template.total_reward_message,
                is_locked: template.auto_lock,
            }),
            s.items@.len() == item_templates@.len(),
            forall|k: int|
                0 <= k < item_templates@.len() ==> (#[trigger] s.items@[k]) == (GameItem {
                    game_item_id: (k + 1) as u64,
                    game_code: s.game.game_code,
                    name: item_templates@[k].name,
                    image: item_templates@[k].image,
                    enabled: item_templates@[k].start_enabled,
                }),
            s.players@.len() == 0,
            s.guesses@.len() == 0,
            s.outcomes@.len() == 0,
            s.winners@.len() == 0,
            s.users@.len() == 0,
            s.next_player_id == 1,
            s.next_guess_id == 1,
            s.next_outcome_id == 1,
    {
        let game = Game {
            game_code: game_code,
            user_id: host.user_id.clone(),
            status: GameStatus::Active,
            created_at: now,
            active_at: now,
            name: template.name.clone(),
            auto_lock: template.auto_lock,
            reward_message: match &template.reward_message {
                Some(m) => Some(m.clone()),
                None => None,
            },
            total_reward_message: match &template.total_reward_message {
                Some(m) => Some(m.clone()),
                None => None,
            },
            is_locked: template.auto_lock,
        };
        let mut items: Vec<GameItem> = Vec::new();
        let mut k: usize = 0;
        while k < item_templates.len()
            invariant
                k <= item_templates@.len(),
                items@.len() == k,
                forall|t: int|
                    0 <= t < k ==> (#[trigger] items@[t]) == (GameItem {
                        game_item_id: (t + 1) as u64,
                        game_code: game.game_code,
                        name: item_templates@[t].name,
                        image: item_templates@[t].image,
                        enabled: item_templates@[t].start_enabled,
                    }),
            decreases item_templates@.len() - k,
        {
            let it = &item_templates[k];
            items.push(
                GameItem {
                    game_item_id: (k as u64) + 1,
                    game_code: game.game_code.clone(),
                    name: it.name.clone(),
                    image: match &it.image {
                        Some(m) => Some(m.clone()),
                        None => None,
                    },
                    enabled: it.start_enabled,
                },
            );
            k += 1;
        }
        GameSession {
            game,
            items,
            players: Vec::new(),
            guesses: Vec::new(),
            outcomes: Vec::new(),
            winners: Vec::new(),
            users: Vec::new(),
            next_player_id: 1,
            next_guess_id: 1,
            next_outcome_id: 1,
        }
    }

    /// Whether this action's caller may issue host actions right now: only
    /// the host, and only while the game is active.
    fn host_guard(&self, user_id: &String) -> (ok: bool)
        ensures
            ok == (self.is_host(user_id@) && self.is_active()),
    {
        self.game.user_id.eq(user_id) && self.game.status == GameStatus::Active
    }

    /// Locks guessing. Idempotent: locking a locked game changes nothing,
    /// but the event is re-published either way, and downstream views must
    /// tolerate the duplicate notification.
    pub fn lock(&mut self, user_id: &String) -> (r: Result<HostAction, AppError>)
        requires
            old(self).wf(),
        ensures
            final(self).wf(),
            r is Ok <==> old(self).is_host(user_id@) && old(self).is_active(),
            r matches Ok(a) ==> *final(self) == (GameSession {
                game: Game { is_locked: true, ..old(self).game },
                ..*old(self)
            }) && a.game_code@ == old(self).game.game_code@ && a.typ == HostActionType::Lock,
            r is Err ==> *final(self) == *old(self) && (r matches Err(e) ==> e.kind
                == ErrorKind::NotFound),
    {
        if !self.host_guard(user_id) {
            return Err(AppError::not_found(game_not_found_message()));
        }
        self.game.is_locked = true;
        Ok(HostAction { game_code: self.game.game_code.clone(), typ: HostActionType::Lock })
    }

    /// Unlocks guessing. Idempotent, and re-published unconditionally, like
    /// `lock`.
    pub fn unlock(&mut self, user_id: &String) -> (r: Result<HostAction, AppError>)
        requires
            old(self).wf(),
        ensures
            final(self).wf(),
            r is Ok <==> old(self).is_host(user_id@) && old(self).is_active(),
            r matches Ok(a) ==> *final(self) == (GameSession {
                game: Game { is_locked: false, ..old(self).game },
                ..*old(self)
            }) && a.game_code@ == old(self).game.game_code@ && a.typ == HostActionType::Unlock,
            r is Err ==> *final(self) == *old(self) && (r matches Err(e) ==> e.kind
                == ErrorKind::NotFound),
    {
        if !self.host_guard(user_id) {
            return Err(AppError::not_found(game_not_found_message()));
        }
        self.game.is_locked = false;
        Ok(HostAction { game_code: self.game.game_code.clone(), typ: HostActionType::Unlock })
    }

    fn find_item_index(&self, item_id: u64) -> (r: Option<usize>)
        ensures
            match r {
                Some(i) => i < self.items@.len() && self.items@[i as int].game_item_id == item_id,
                None => !self.has_item(item_id),
            },
    {
        let mut i: usize = 0;
        while i < self.items.len()
            invariant
                i <= self.items@.len(),
                forall|k: int| 0 <= k < i ==> (#[trigger] self.items@[k]).game_item_id != item_id,
            decreases self.items@.len() - i,
        {
            if self.items[i].game_item_id == item_id {
                return Some(i);
            }
            i += 1;
        }
        None
    }

    fn find_player_index(&self, user_id: &String) -> (r: Option<usize>)
        ensures
            match r {
                Some(i) => i < self.players@.len() && self.players@[i as int].user_id@ == user_id@,
                None => !self.has_player(user_id@),
            },
    {
        let mut i: usize = 0;
        while i < self.players.len()
            invariant
                i <= self.players@.len(),
                forall|k: int| 0 <= k < i ==> (#[trigger] self.players@[k]).user_id@ != user_id@,
            decreases self.players@.len() - i,
        {
            if self.players[i].user_id.eq(user_id) {
                return Some(i);
            }
            i += 1;
        }
        None
    }

    fn find_pending_guess_index(&self, player_id: u64) -> (r: Option<usize>)
        ensures
            match r {
                Some(k) => k < self.guesses@.len() && is_pending(self.guesses@[k as int])
                    && self.guesses@[k as int].player_id == player_id,
                None => !self.has_pending_guess(player_id),
            },
    {
        let mut k: usize = 0;
        while k < self.guesses.len()
            invariant
                k <= self.guesses@.len(),
                forall|t: int|
                    0 <= t < k ==> !(is_pending(#[trigger] self.guesses@[t])
                        && self.guesses@[t].player_id == player_id),
            decreases self.guesses@.len() - k,
        {
            if self.guesses[k].outcome_id.is_none() && self.guesses[k].player_id == player_id {
                return Some(k);
            }
            k += 1;
        }
        None
    }

    /// Enables an item again so it can be guessed and chosen. Idempotent per
    /// item; an event is emitted only when the flag actually changes.
    pub fn enable_item(&mut self, user_id: &String, item_id: u64) -> (r: Result<
        Option<HostAction>,
        AppError,
    >)
        requires
            old(self).wf(),
        ensures
            final(self).wf(),
            r is Ok <==> old(self).is_host(user_id@) && old(self).is_active() && old(
                self,
            ).has_item(item_id),
            r matches Ok(ev) ==> ({
                let i = old(self).item_index(item_id);
                &&& final(self).items@ == old(self).items@.update(
                    i,
                    GameItem { enabled: true, ..old(self).items@[i] },
                )
                &&& *final(self) == (GameSession { items: final(self).items, ..*old(self) })
                &&& (ev is Some <==> !old(self).items@[i].enabled)
                &&& (ev matches Some(a) ==> a.game_code@ == old(self).game.game_code@ && a.typ
                    == (HostActionType::Enable { item_id }))
            }),
            r is Err ==> *final(self) == *old(self) && (r matches Err(e) ==> e.kind
                == ErrorKind::NotFound),
    {
        if !self.host_guard(user_id) {
            return Err(AppError::not_found(game_not_found_message()));
        }
        let i = match self.find_item_index(item_id) {
            Some(i) => i,
            None => {
                return Err(AppError::not_found(item_not_found_message()));
            },
        };
        proof {
            lemma_item_index_is(*self, i as int);
        }
        if self.items[i].enabled {
            proof {
                assert(self.items@.update(i as int, self.items@[i as int]) =~= self.items@);
            }
            return Ok(None);
        }
        self.items[i].enabled = true;
        Ok(
            Some(
                HostAction {
                    game_code: self.game.game_code.clone(),
                    typ: HostActionType::Enable { item_id },
                },
            ),
        )
    }

    /// Disables an item so it can no longer be guessed or chosen. Idempotent
    /// per item; an event is emitted only when the flag actually changes.
    pub fn disable_item(&mut self, user_id: &String, item_id: u64) -> (r: Result<
        Option<HostAction>,
        AppError,
    >)
        requires
            old(self).wf(),
        ensures
            final(self).wf(),
            r is Ok <==> old(self).is_host(user_id@) && old(self).is_active() && old(
                self,
            ).has_item(item_id),
            r matches Ok(ev) ==> ({
                let i = old(self).item_index(item_id);
                &&& final(self).items@ == old(self).items@.update(
                    i,
                    GameItem { enabled: false, ..old(self).items@[i] },
                )
                &&& *final(self) == (GameSession { items: final(self).items, ..*old(self) })
                &&& (ev is Some <==> old(self).items@[i].enabled)
                &&& (ev matches Some(a) ==> a.game_code@ == old(self).game.game_code@ && a.typ
                    == (HostActionType::Disable { item_id }))
            }),
            r is Err ==> *final(self) == *old(self) && (r matches Err(e) ==> e.kind
                == ErrorKind::NotFound),
    {
        if !self.host_guard(user_id) {
            return Err(AppError::not_found(game_not_found_message()));
        }
        let i = match self.find_item_index(item_id) {
            Some(i) => i,
            None => {
                return Err(AppError::not_found(item_not_found_message()));
            },
        };
        proof {
            lemma_item_index_is(*self, i as int);
        }
        if !self.items[i].enabled {
            proof {
                assert(self.items@.update(i as int, self.items@[i as int]) =~= self.items@);
            }
            return Ok(None);
        }
        self.items[i].enabled = false;
        Ok(
            Some(
                HostAction {
                    game_code: self.game.game_code.clone(),
                    typ: HostActionType::Disable { item_id },
                },
            ),
        )
    }

    fn find_user_index(&self, user_id: &String) -> (r: Option<usize>)
        ensures
            match r {
                Some(u) => u < self.users@.len() && self.users@[u as int].user_id@ == user_id@,
                None => !user_id_in(self.users@, user_id@),
            },
    {
        let mut u: usize = 0;
        while u < self.users.len()
            invariant
                u <= self.users@.len(),
                forall|k: int| 0 <= k < u ==> (#[trigger] self.users@[k]).user_id@ != user_id@,
            decreases self.users@.len() - u,
        {
            if self.users[u].user_id.eq(user_id) {
                return Some(u);
            }
            u += 1;
        }
        None
    }

    /// A user opens the room. The host never joins their own game. A first
    /// visit while the game is active creates the player row with zero
    /// points, refreshes the game's last-active time and reports a `Join`
    /// event carrying the new player count; any later visit returns the
    /// existing row, changes nothing and reports nothing.
    pub fn join(&mut self, user: &User, now: u64) -> (r: Result<
        (GamePlayer, Option<PlayerAction>),
        AppError,
    >)
        requires
            old(self).wf(),
            old(self).next_player_id < u64::MAX,
            old(self).players@.len() < u64::MAX,
        ensures
            final(self).wf(),
            r is Ok <==> !old(self).is_host(user.user_id@) && (old(self).has_player(user.user_id@)
                || old(self).is_active()),
            r is Err ==> *final(self) == *old(self) && (r matches Err(e) ==> e.kind
                == ErrorKind::NotFound),
            r matches Ok((p, ev)) ==> (if old(self).has_player(user.user_id@) {
                &&& *final(self) == *old(self)
                &&& p == old(self).players@[old(self).player_index(user.user_id@)]
                &&& ev is None
            } else {
                &&& final(self).players@ == old(self).players@.push(p)
                &&& p == (GamePlayer {
                    game_player_id: old(self).next_player_id,
                    game_code: old(self).game.game_code,
                    user_id: user.user_id,
                    points: 0,
                })
                &&& final(self).users@ == (if user_id_in(old(self).users@, user.user_id@) {
                    old(self).users@
                } else {
                    old(self).users@.push(*user)
                })
                &&& final(self).next_player_id == old(self).next_player_id + 1
                &&& final(self).game == (Game { active_at: now, ..old(self).game })
                &&& *final(self) == (GameSession {
                    game: final(self).game,
                    players: final(self).players,
                    users: final(self).users,
                    next_player_id: final(self).next_player_id,
                    ..*old(self)
                })
                &&& ev == Some(
                    PlayerAction {
                        game_code: old(self).game.game_code,
                        user_id: user.user_id,
                        typ: PlayerActionType::Join {
                            new_players_count: (old(self).players@.len() + 1) as u64,
                        },
                    },
                )
            }),
    {
        if self.game.user_id.eq(&user.user_id) {
            return Err(AppError::not_found(game_not_found_message()));
        }
        match self.find_player_index(&user.user_id) {
            Some(i) => {
                proof {
                    lemma_player_index_is(*self, i as int);
                }
                let p = player_copy(&self.players[i]);
                Ok((p, None))
            },
            None => {
                if self.game.status != GameStatus::Active {
                    return Err(AppError::not_found(game_not_found_message()));
                }
                let new_player = GamePlayer {
                    game_player_id: self.next_player_id,
                    game_code: self.game.game_code.clone(),
                    user_id: user.user_id.clone(),
                    points: 0,
                };
                let returned = player_copy(&new_player);
                self.players.push(new_player);
                self.next_player_id = self.next_player_id + 1;
                match self.find_user_index(&user.user_id) {
                    Some(_) => {},
                    None => {
                        self.users.push(user_copy(user));
                    },
                }
                self.game.active_at = now;
                let new_players_count = self.players.len() as u64;
                let ev = PlayerAction {
                    game_code: self.game.game_code.clone(),
                    user_id: user.user_id.clone(),
                    typ: PlayerActionType::Join { new_players_count },
                };
                proof {
                    let pre = *old(self);
                    let post = *self;
                    assert forall|i: int| 0 <= i < post.guesses@.len() implies player_id_in(
                        post.players@,
                        (#[trigger] post.guesses@[i]).player_id,
                    ) by {
                        assert(player_id_in(pre.players@, pre.guesses@[i].player_id));
                        lemma_player_id_in_push(
                            pre.players@,
                            post.players@.last(),
                            pre.guesses@[i].player_id,
                        );
                        assert(pre.players@.push(post.players@.last()) == post.players@);
                    }
                    assert forall|i: int| 0 <= i < post.players@.len() implies user_id_in(
                        post.users@,
                        (#[trigger] post.players@[i]).user_id@,
                    ) by {
                        if i < pre.players@.len() {
                            assert(post.players@[i] == pre.players@[i]);
                            assert(user_id_in(pre.users@, pre.players@[i].user_id@));
                            if !user_id_in(pre.users@, user.user_id@) {
                                lemma_user_id_in_push(
                                    pre.users@,
                                    *user,
                                    pre.players@[i].user_id@,
                                );
                            }
                        } else {
                            assert(post.players@[i].user_id@ == user.user_id@);
                            if user_id_in(pre.users@, user.user_id@) {
                                let u = choose|u: int|
                                    0 <= u < pre.users@.len() && (
                                    #[trigger] pre.users@[u]).user_id@ == user.user_id@;
                                assert(post.users@[u].user_id@ == user.user_id@);
                            } else {
                                assert(post.users@[post.users@.len() - 1].user_id@
                                    == user.user_id@);
                            }
                        }
                    }
                }
                Ok((returned, Some(ev)))
            },
        }
    }

    /// The number of pending guesses on `item_id`, as shown on the host's
    /// board next to that item.
    pub fn count_pending_guesses_on(&self, item_id: u64) -> (c: u64)
        requires
            self.guesses@.len() <= u64::MAX,
        ensures
            c as nat == count_pending_on(self.guesses@, item_id),
    {
        let mut c: u64 = 0;
        let mut k: usize = 0;
        proof {
            assert(self.guesses@.take(0) =~= Seq::<PlayerGuess>::empty());
        }
        while k < self.guesses.len()
            invariant
                k <= self.guesses@.len(),
                c <= k,
                c as nat == count_pending_on(self.guesses@.take(k as int), item_id),
            decreases self.guesses@.len() - k,
        {
            proof {
                lemma_count_pending_take_step(self.guesses@, item_id, k as int);
            }
            if self.guesses[k].outcome_id.is_none() && self.guesses[k].item_id == item_id {
                c += 1;
            }
            k += 1;
        }
        proof {
            assert(self.guesses@.take(self.guesses@.len() as int) =~= self.guesses@);
        }
        c
    }

    /// A player submits or changes a guess. With no pending guess, a new
    /// pending row is created and a `Guess` event is reported — plus the
    /// one-time `EnableClearGuesses` affordance when it is the first pending
    /// guess on that item. With a pending guess, its item reference moves in
    /// place — never a second row — and an `UndoGuess` for the old item and
    /// a `Guess` for the new one are reported, in that order, each carrying
    /// that item's fresh pending count.
    pub fn guess_item(&mut self, user_id: &String, item_id: u64) -> (r: Result<
        GuessUpdate,
        AppError,
    >)
        requires
            old(self).wf(),
            old(self).next_guess_id < u64::MAX,
            old(self).guesses@.len() < u64::MAX,
        ensures
            final(self).wf(),
            r is Ok <==> old(self).is_active() && !old(self).is_host(user_id@) && old(
                self,
            ).has_item(item_id) && old(self).has_player(user_id@),
            r is Err ==> *final(self) == *old(self) && (r matches Err(e) ==> e.kind
                == ErrorKind::NotFound),
            r matches Ok(out) ==> ({
                let pid = old(self).players@[old(self).player_index(user_id@)].game_player_id;
                &&& *final(self) == (GameSession {
                    guesses: final(self).guesses,
                    next_guess_id: final(self).next_guess_id,
                    ..*old(self)
                })
                &&& out.guess.player_id == pid
                &&& out.guess.item_id == item_id
                &&& is_pending(out.guess)
                &&& forall|e: int|
                    0 <= e < out.events@.len() ==> (#[trigger] out.events@[e]).game_code@ == old(
                        self,
                    ).game.game_code@ && out.events@[e].user_id@ == user_id@
                &&& if old(self).has_pending_guess(pid) {
                    let k = old(self).pending_guess_index(pid);
                    let from_item = old(self).guesses@[k].item_id;
                    &&& final(self).guesses@ == old(self).guesses@.update(
                        k,
                        PlayerGuess { item_id, ..old(self).guesses@[k] },
                    )
                    &&& final(self).next_guess_id == old(self).next_guess_id
                    &&& out.guess == final(self).guesses@[k]
                    &&& out.events@.len() == 2
                    &&& (out.events@[0].typ matches PlayerActionType::UndoGuess {
                        item_id: fi,
                        new_guess_count: c,
                    } && fi == from_item && c as nat == count_pending_on(
                        final(self).guesses@,
                        from_item,
                    ))
                    &&& (out.events@[1].typ matches PlayerActionType::Guess {
                        item_id: ti,
                        new_guess_count: c,
                    } && ti == item_id && c as nat == count_pending_on(
                        final(self).guesses@,
                        item_id,
                    ))
                } else {
                    let c = count_pending_on(final(self).guesses@, item_id);
                    &&& final(self).guesses@ == old(self).guesses@.push(out.guess)
                    &&& out.guess == (PlayerGuess {
                        player_guess_id: old(self).next_guess_id,
                        game_code: old(self).game.game_code,
                        player_id: pid,
                        item_id,
                        outcome_id: None,
                    })
                    &&& final(self).next_guess_id == old(self).next_guess_id + 1
                    &&& (out.events@[0].typ matches PlayerActionType::Guess {
                        item_id: ti,
                        new_guess_count: cc,
                    } && ti == item_id && cc as nat == c)
                    &&& (if c == 1 {
                        out.events@.len() == 2 && out.events@[1].typ
                            == PlayerActionType::EnableClearGuesses
                    } else {
                        out.events@.len() == 1
                    })
                }
            }),
    {
        if self.game.status != GameStatus::Active || self.game.user_id.eq(user_id) {
            return Err(AppError::not_found(game_not_found_message()));
        }
        if self.find_item_index(item_id).is_none() {
            return Err(AppError::not_found(item_not_found_message()));
        }
        let pidx = match self.find_player_index(user_id) {
            Some(i) => i,
            None => {
                return Err(AppError::not_found(player_not_found_message()));
            },
        };
        proof {
            lemma_player_index_is(*self, pidx as int);
        }
        let pid = self.players[pidx].game_player_id;
        match self.find_pending_guess_index(pid) {
            Some(k) => {
                proof {
                    lemma_pending_guess_index_is(*self, k as int);
                }
                let from_item = self.guesses[k].item_id;
                self.guesses[k].item_id = item_id;
                let guess = guess_copy(&self.guesses[k]);
                let from_count = self.count_pending_guesses_on(from_item);
                let to_count = self.count_pending_guesses_on(item_id);
                let mut events: Vec<PlayerAction> = Vec::new();
                events.push(
                    PlayerAction {
                        game_code: self.game.game_code.clone(),
                        user_id: user_id.clone(),
                        typ: PlayerActionType::UndoGuess {
                            item_id: from_item,
                            new_guess_count: from_count,
                        },
                    },
                );
                events.push(
                    PlayerAction {
                        game_code: self.game.game_code.clone(),
                        user_id: user_id.clone(),
                        typ: PlayerActionType::Guess { item_id, new_guess_count: to_count },
                    },
                );
                Ok(GuessUpdate { guess, events })
            },
            None => {
                let g = PlayerGuess {
                    player_guess_id: self.next_guess_id,
                    game_code: self.game.game_code.clone(),
                    player_id: pid,
                    item_id,
                    outcome_id: None,
                };
                let guess = guess_copy(&g);
                self.guesses.push(g);
                self.next_guess_id = self.next_guess_id + 1;
                let c = self.count_pending_guesses_on(item_id);
                let mut events: Vec<PlayerAction> = Vec::new();
                events.push(
                    PlayerAction {
                        game_code: self.game.game_code.clone(),
                        user_id: user_id.clone(),
                        typ: PlayerActionType::Guess { item_id, new_guess_count: c },
                    },
                );
                if c == 1 {
                    events.push(
                        PlayerAction {
                            game_code: self.game.game_code.clone(),
                            user_id: user_id.clone(),
                            typ: PlayerActionType::EnableClearGuesses,
                        },
                    );
                }
                proof {
                    let pre = *old(self);
                    let post = *self;
                    assert forall|i: int| 0 <= i < post.guesses@.len() implies player_id_in(
                        post.players@,
                        (#[trigger] post.guesses@[i]).player_id,
                    ) by {
                        if i < pre.guesses@.len() {
                            assert(post.guesses@[i] == pre.guesses@[i]);
                            assert(player_id_in(pre.players@, pre.guesses@[i].player_id));
                        } else {
                            assert(post.players@[pidx as int].game_player_id == pid);
                        }
                    }
                }
                Ok(GuessUpdate { guess, events })
            },
        }
    }

    /// Deletes every pending guess in the game, so the host can reset the
    /// round before a reveal. Guesses already stamped by an outcome are
    /// history and stay.
    pub fn clear_guesses(&mut self, user_id: &String) -> (r: Result<HostAction, AppError>)
        requires
            old(self).wf(),
        ensures
            final(self).wf(),
            r is Ok <==> old(self).is_host(user_id@) && old(self).is_active(),
            r is Err ==> *final(self) == *old(self) && (r matches Err(e) ==> e.kind
                == ErrorKind::NotFound),
            r matches Ok(a) ==> ({
                &&& final(self).guesses@ == resolved_only(old(self).guesses@)
                &&& forall|k: int|
                    0 <= k < final(self).guesses@.len() ==> !is_pending(
                        #[trigger] final(self).guesses@[k],
                    )
                &&& *final(self) == (GameSession { guesses: final(self).guesses, ..*old(self) })
                &&& a.game_code@ == old(self).game.game_code@
                &&& a.typ == HostActionType::ClearGuesses
            }),
    {
        if !self.host_guard(user_id) {
            return Err(AppError::not_found(game_not_found_message()));
        }
        let mut kept: Vec<PlayerGuess> = Vec::new();
        let mut k: usize = 0;
        proof {
            assert(self.guesses@.take(0) =~= Seq::<PlayerGuess>::empty());
        }
        while k < self.guesses.len()
            invariant
                k <= self.guesses@.len(),
                kept@ == resolved_only(self.guesses@.take(k as int)),
                forall|t: int| 0 <= t < kept@.len() ==> !is_pending(#[trigger] kept@[t]),
                forall|t: int|
                    0 <= t < kept@.len() ==> (#[trigger] kept@[t]).player_guess_id
                        < self.next_guess_id,
                forall|t: int|
                    0 <= t < kept@.len() ==> (#[trigger] kept@[t]).game_code@
                        == self.game.game_code@,
                forall|t: int|
                    0 <= t < kept@.len() ==> player_id_in(
                        self.players@,
                        (#[trigger] kept@[t]).player_id,
                    ),
            decreases self.guesses@.len() - k,
        {
            proof {
                lemma_resolved_only_take_step(self.guesses@, k as int);
            }
            if self.guesses[k].outcome_id.is_some() {
                kept.push(guess_copy(&self.guesses[k]));
            }
            k += 1;
        }
        proof {
            assert(self.guesses@.take(self.guesses@.len() as int) =~= self.guesses@);
        }
        self.guesses = kept;
        Ok(
            HostAction {
                game_code: self.game.game_code.clone(),
                typ: HostActionType::ClearGuesses,
            },
        )
    }

    fn player_has_pending_on(&self, player_id: u64, item_id: u64) -> (b: bool)
        ensures
            b == has_pending_on(self.guesses@, player_id, item_id),
    {
        let mut k: usize = 0;
        while k < self.guesses.len()
            invariant
                k <= self.guesses@.len(),
                forall|t: int|
                    0 <= t < k ==> !(is_pending(#[trigger] self.guesses@[t])
                        && self.guesses@[t].player_id == player_id && self.guesses@[t].item_id
                        == item_id),
            decreases self.guesses@.len() - k,
        {
            if self.guesses[k].outcome_id.is_none() && self.guesses[k].player_id == player_id
                && self.guesses[k].item_id == item_id {
                return true;
            }
            k += 1;
        }
        false
    }

    fn find_username(&self, user_id: &String) -> (r: String)
        requires
            user_id_in(self.users@, user_id@),
            forall|i: int, j: int|
                0 <= i < j < self.users@.len() ==> (#[trigger] self.users@[i]).user_id@ != (
                #[trigger] self.users@[j]).user_id@,
        ensures
            r == spec_user_by_id(self.users@, user_id@).username,
    {
        let mut u: usize = 0;
        while u < self.users.len()
            invariant
                u <= self.users@.len(),
                forall|k: int| 0 <= k < u ==> (#[trigger] self.users@[k]).user_id@ != user_id@,
            decreases self.users@.len() - u,
        {
            if self.users[u].user_id.eq(user_id) {
                proof {
                    let j = choose|j: int|
                        0 <= j < self.users@.len() && (#[trigger] self.users@[j]).user_id@
                            == user_id@;
                    if j < u as int {
                        assert(self.users@[j].user_id@ != self.users@[u as int].user_id@);
                    } else if (u as int) < j {
                        assert(self.users@[u as int].user_id@ != self.users@[j].user_id@);
                    }
                }
                return self.users[u].username.clone();
            }
            u += 1;
        }
        proof {
            assert(false);
        }
        vstd::pervasive::unreached()
    }

    /// Chooses an item: the resolution unit of a round. Requires the item
    /// to still be enabled — a repeat of the same choice fails with an
    /// invalid-state error and awards nothing. One outcome row is recorded;
    /// every player with a pending guess on the chosen item is awarded
    /// exactly one point; every pending guess in the game, correct or not,
    /// is stamped with the new outcome id, so none stays pending; the item
    /// is disabled; the lock is set to the game's auto-lock policy; and one
    /// reward message per correct guesser is rendered when the game has a
    /// reward template.
    pub fn choose_item(&mut self, user_id: &String, item_id: u64) -> (r: Result<
        ChooseResolution,
        AppError,
    >)
        requires
            old(self).wf(),
            old(self).next_outcome_id < u64::MAX,
            old(self).outcomes@.len() < usize::MAX,
        ensures
            final(self).wf(),
            r is Ok <==> old(self).is_host(user_id@) && old(self).is_active() && old(
                self,
            ).has_item(item_id) && old(self).items@[old(self).item_index(item_id)].enabled,
            r is Err ==> *final(self) == *old(self),
            r matches Err(e) ==> (if old(self).is_host(user_id@) && old(self).is_active() && old(
                self,
            ).has_item(item_id) {
                e.kind == ErrorKind::InvalidState
            } else {
                e.kind == ErrorKind::NotFound
            }),
            r matches Ok(res) ==> ({
                let i = old(self).item_index(item_id);
                let oid = old(self).next_outcome_id;
                &&& res.outcome == (GameItemOutcome {
                    outcome_id: oid,
                    game_code: old(self).game.game_code,
                    item_id,
                })
                &&& final(self).outcomes@ == old(self).outcomes@.push(res.outcome)
                &&& final(self).next_outcome_id == oid + 1
                &&& final(self).items@ == old(self).items@.update(
                    i,
                    GameItem { enabled: false, ..old(self).items@[i] },
                )
                &&& final(self).guesses@.len() == old(self).guesses@.len()
                &&& forall|k: int|
                    0 <= k < old(self).guesses@.len() ==> #[trigger] final(self).guesses@[k] == (
                    if is_pending(old(self).guesses@[k]) {
                        PlayerGuess { outcome_id: Some(oid), ..old(self).guesses@[k] }
                    } else {
                        old(self).guesses@[k]
                    })
                &&& forall|k: int|
                    0 <= k < final(self).guesses@.len() ==> !is_pending(
                        #[trigger] final(self).guesses@[k],
                    )
                &&& final(self).players@.len() == old(self).players@.len()
                &&& forall|k: int|
                    0 <= k < old(self).players@.len() ==> #[trigger] final(self).players@[k] == (
                    if has_pending_on(
                        old(self).guesses@,
                        old(self).players@[k].game_player_id,
                        item_id,
                    ) {
                        GamePlayer {
                            points: (old(self).players@[k].points + 1) as u64,
                            ..old(self).players@[k]
                        }
                    } else {
                        old(self).players@[k]
                    })
                &&& final(self).game == (Game { is_locked: old(self).game.auto_lock, ..old(self).game })
                &&& *final(self) == (GameSession {
                    game: final(self).game,
                    items: final(self).items,
                    players: final(self).players,
                    guesses: final(self).guesses,
                    outcomes: final(self).outcomes,
                    next_outcome_id: final(self).next_outcome_id,
                    ..*old(self)
                })
                &&& res.correct_guessers@ == spec_correct_guessers(
                    old(self).players@,
                    old(self).guesses@,
                    old(self).users@,
                    item_id,
                )
                &&& (old(self).game.reward_message matches Some(t) ==> res.messages@.len()
                    == res.correct_guessers@.len() && forall|k: int|
                    0 <= k < res.messages@.len() ==> ({
                        &&& (#[trigger] res.messages@[k]).id == 0
                        &&& res.messages@[k].game_code@ == old(self).game.game_code@
                        &&& res.messages@[k].message@ == crate::template::spec_reward_message(
                            t@,
                            res.correct_guessers@[k].1@,
                            old(self).items@[i].name@,
                        )
                        &&& res.messages@[k].lock_id is None
                        &&& res.messages@[k].sent == false
                    }))
                &&& (old(self).game.reward_message is None ==> res.messages@.len() == 0)
                &&& res.event == (HostAction {
                    game_code: old(self).game.game_code,
                    typ: HostActionType::Choose { item_id },
                })
            }),
    {
        if !self.host_guard(user_id) {
            return Err(AppError::not_found(game_not_found_message()));
        }
        let i = match self.find_item_index(item_id) {
            Some(i) => i,
            None => {
                return Err(AppError::not_found(item_not_found_message()));
            },
        };
        proof {
            lemma_item_index_is(*self, i as int);
        }
        if !self.items[i].enabled {
            return Err(AppError::invalid_state(item_disabled_message()));
        }
        let oid = self.next_outcome_id;
        let outcome = GameItemOutcome {
            outcome_id: oid,
            game_code: self.game.game_code.clone(),
            item_id,
        };
        self.outcomes.push(
            GameItemOutcome { outcome_id: oid, game_code: self.game.game_code.clone(), item_id },
        );
        self.next_outcome_id = oid + 1;
        let ghost pre = *old(self);
        // Award one point to each player with a pending guess on the item,
        // collecting (player id, display name) pairs for the messages.
        let mut correct: Vec<(u64, String)> = Vec::new();
        let mut p: usize = 0;
        proof {
            assert(self.players@.take(0) =~= Seq::<GamePlayer>::empty());
        }
        while p < self.players.len()
            invariant
                p <= self.players@.len(),
                self.players@.len() == pre.players@.len(),
                self.guesses == pre.guesses,
                self.users == pre.users,
                self.items == pre.items,
                self.winners == pre.winners,
                self.game == pre.game,
                self.next_player_id == pre.next_player_id,
                self.next_guess_id == pre.next_guess_id,
                oid == pre.next_outcome_id,
                self.next_outcome_id == oid + 1,
                self.outcomes@ == pre.outcomes@.push(
                    GameItemOutcome { outcome_id: oid, game_code: pre.game.game_code, item_id },
                ),
                i < self.items@.len(),
                pre.wf(),
                forall|k: int|
                    p <= k < pre.players@.len() ==> #[trigger] self.players@[k]
                        == pre.players@[k],
                forall|k: int|
                    0 <= k < p ==> #[trigger] self.players@[k] == (if has_pending_on(
                        pre.guesses@,
                        pre.players@[k].game_player_id,
                        item_id,
                    ) {
                        GamePlayer {
                            points: (pre.players@[k].points + 1) as u64,
                            ..pre.players@[k]
                        }
                    } else {
                        pre.players@[k]
                    }),
                correct@ == spec_correct_guessers(
                    pre.players@.take(p as int),
                    pre.guesses@,
                    pre.users@,
                    item_id,
                ),
            decreases self.players@.len() - p,
        {
            proof {
                lemma_correct_guessers_take_step(
                    pre.players@,
                    pre.guesses@,
                    pre.users@,
                    item_id,
                    p as int,
                );
            }
            let pid = self.players[p].game_player_id;
            if self.player_has_pending_on(pid, item_id) {
                proof {
                    assert(pre.players@[p as int].points <= pre.outcomes@.len());
                }
                let uid = self.players[p].user_id.clone();
                let username = self.find_username(&uid);
                self.players[p].points = self.players[p].points + 1;
                correct.push((pid, username));
            }
            p += 1;
        }
        proof {
            assert(pre.players@.take(pre.players@.len() as int) =~= pre.players@);
        }
        // Render one reward message per correct guesser, if configured.
        let item_name = self.items[i].name.clone();
        let messages = build_reward_messages(
            &self.game.reward_message,
            &self.game.game_code,
            &item_name,
            &correct,
        );
        // Stamp every pending guess with the new outcome: the round is over.
        let ghost awarded_players = self.players@;
        let mut k: usize = 0;
        while k < self.guesses.len()
            invariant
                k <= self.guesses@.len(),
                self.guesses@.len() == pre.guesses@.len(),
                self.players@ == awarded_players,
                self.players@.len() == pre.players@.len(),
                self.users == pre.users,
                self.items == pre.items,
                self.winners == pre.winners,
                self.game == pre.game,
                self.next_player_id == pre.next_player_id,
                self.next_guess_id == pre.next_guess_id,
                self.next_outcome_id == oid + 1,
                self.outcomes@ == pre.outcomes@.push(
                    GameItemOutcome { outcome_id: oid, game_code: pre.game.game_code, item_id },
                ),
                i < self.items@.len(),
                forall|t: int|
                    k <= t < pre.guesses@.len() ==> #[trigger] self.guesses@[t]
                        == pre.guesses@[t],
                forall|t: int|
                    0 <= t < k ==> #[trigger] self.guesses@[t] == (if is_pending(pre.guesses@[t]) {
                        PlayerGuess { outcome_id: Some(oid), ..pre.guesses@[t] }
                    } else {
                        pre.guesses@[t]
                    }),
            decreases self.guesses@.len() - k,
        {
            if self.guesses[k].outcome_id.is_none() {
                self.guesses[k].outcome_id = Some(oid);
            }
            k += 1;
        }
        // Disable the chosen item and apply the auto-lock policy.
        self.items[i].enabled = false;
        self.game.is_locked = self.game.auto_lock;
        let event = HostAction {
            game_code: self.game.game_code.clone(),
            typ: HostActionType::Choose { item_id },
        };
        proof {
            let post = *self;
            assert forall|t: int| 0 <= t < post.guesses@.len() implies !is_pending(
                #[trigger] post.guesses@[t],
            ) by {
                assert(post.guesses@[t] == (if is_pending(pre.guesses@[t]) {
                    PlayerGuess { outcome_id: Some(oid), ..pre.guesses@[t] }
                } else {
                    pre.guesses@[t]
                }));
            }
            assert forall|t: int| 0 <= t < post.guesses@.len() implies (
            #[trigger] post.guesses@[t]).player_guess_id < post.next_guess_id && post.guesses@[t].game_code@
                == post.game.game_code@ && player_id_in(post.players@, post.guesses@[t].player_id) by {
                assert(pre.guesses@[t].player_guess_id < pre.next_guess_id);
                assert(player_id_in(pre.players@, pre.guesses@[t].player_id));
                let w = choose|w: int|
                    0 <= w < pre.players@.len() && (#[trigger] pre.players@[w]).game_player_id
                        == pre.guesses@[t].player_id;
                assert(post.players@[w].game_player_id == pre.players@[w].game_player_id);
            }
            assert forall|a: int, b: int| 0 <= a < b < post.players@.len() implies (
            #[trigger] post.players@[a]).game_player_id != (
            #[trigger] post.players@[b]).game_player_id && post.players@[a].user_id@
                != post.players@[b].user_id@ by {
                assert(pre.players@[a].game_player_id != pre.players@[b].game_player_id);
                assert(pre.players@[a].user_id@ != pre.players@[b].user_id@);
            }
            assert forall|a: int| 0 <= a < post.players@.len() implies (
            #[trigger] post.players@[a]).game_player_id < post.next_player_id
                && post.players@[a].points <= post.outcomes@.len() && post.players@[a].game_code@
                == post.game.game_code@ && post.players@[a].user_id@ != post.game.user_id@ by {
                assert(pre.players@[a].game_player_id < pre.next_player_id);
                assert(pre.players@[a].points <= pre.outcomes@.len());
            }
            assert forall|a: int| 0 <= a < post.players@.len() implies user_id_in(
                post.users@,
                (#[trigger] post.players@[a]).user_id@,
            ) by {
                assert(user_id_in(pre.users@, pre.players@[a].user_id@));
                assert(post.players@[a].user_id@ == pre.players@[a].user_id@);
            }
        }
        proof {
            assert(self.outcomes@ =~= pre.outcomes@.push(outcome));
            assert(self.items@ =~= pre.items@.update(
                i as int,
                GameItem { enabled: false, ..pre.items@[i as int] },
            ));
        }
        Ok(ChooseResolution { outcome, correct_guessers: correct, messages, event })
    }

    /// Finishes the game: the status becomes `Finished`, irreversibly. The
    /// winners are exactly the players whose point total equals the session
    /// maximum and is nonzero — ties all win, a zero-point game has none —
    /// and one game-end message per winner is rendered when the game has a
    /// total-reward template.
    pub fn finish(&mut self, user_id: &String) -> (r: Result<FinishOutcome, AppError>)
        requires
            old(self).wf(),
            old(self).outcomes@.len() <= u64::MAX,
        ensures
            final(self).wf(),
            r is Ok <==> old(self).is_host(user_id@) && old(self).is_active(),
            r is Err ==> *final(self) == *old(self) && (r matches Err(e) ==> e.kind
                == ErrorKind::NotFound),
            r matches Ok(out) ==> ({
                let m = spec_max_points(old(self).players@);
                &&& final(self).game == (Game { status: GameStatus::Finished, ..old(self).game })
                &&& final(self).winners@ == spec_winner_rows(old(self).players@, m)
                &&& out.winners@ == final(self).winners@
                &&& *final(self) == (GameSession {
                    game: final(self).game,
                    winners: final(self).winners,
                    ..*old(self)
                })
                &&& (old(self).game.total_reward_message matches Some(t) ==> out.messages@.len()
                    == out.winners@.len() && forall|k: int|
                    0 <= k < out.messages@.len() ==> ({
                        let pid = out.winners@[k].game_player_id;
                        &&& (#[trigger] out.messages@[k]).id == 0
                        &&& out.messages@[k].game_code@ == old(self).game.game_code@
                        &&& out.messages@[k].message@
                            == crate::template::spec_total_reward_message(
                            t@,
                            spec_user_by_id(
                                old(self).users@,
                                spec_player_by_id(old(self).players@, pid).user_id@,
                            ).username@,
                            m,
                            old(self).outcomes@.len(),
                        )
                        &&& out.messages@[k].lock_id is None
                        &&& out.messages@[k].sent == false
                    }))
                &&& (old(self).game.total_reward_message is None ==> out.messages@.len() == 0)
                &&& out.event == (HostAction {
                    game_code: old(self).game.game_code,
                    typ: HostActionType::Finish,
                })
            }),
    {
        if !self.host_guard(user_id) {
            return Err(AppError::not_found(game_not_found_message()));
        }
        let ghost pre = *old(self);
        self.game.status = GameStatus::Finished;
        // The session maximum point total.
        let mut m: u64 = 0;
        let mut p: usize = 0;
        proof {
            assert(self.players@.take(0) =~= Seq::<GamePlayer>::empty());
        }
        while p < self.players.len()
            invariant
                p <= self.players@.len(),
                self.players == pre.players,
                m as nat == spec_max_points(self.players@.take(p as int)),
            decreases self.players@.len() - p,
        {
            proof {
                lemma_max_points_take_step(self.players@, p as int);
            }
            if self.players[p].points > m {
                m = self.players[p].points;
            }
            p += 1;
        }
        proof {
            assert(pre.players@.take(pre.players@.len() as int) =~= pre.players@);
        }
        // The number of resolved items, for the game-end message.
        let mut total: u64 = 0;
        let mut t: usize = 0;
        while t < self.outcomes.len()
            invariant
                t <= self.outcomes@.len(),
                self.outcomes == pre.outcomes,
                self.outcomes@.len() <= u64::MAX,
                total as nat == t as nat,
            decreases self.outcomes@.len() - t,
        {
            total += 1;
            t += 1;
        }
        // Collect the winners and render their messages.
        let mut winners: Vec<GameWinner> = Vec::new();
        let mut messages: Vec<ChatMessage> = Vec::new();
        let mut p2: usize = 0;
        while p2 < self.players.len()
            invariant
                p2 <= self.players@.len(),
                self.players == pre.players,
                self.users == pre.users,
                self.game == (Game { status: GameStatus::Finished, ..pre.game }),
                pre.wf(),
                m as nat == spec_max_points(pre.players@),
                total as nat == pre.outcomes@.len(),
                winners@ == spec_winner_rows(self.players@.take(p2 as int), m as nat),
                self.game.total_reward_message matches Some(tm) ==> messages@.len()
                    == winners@.len() && forall|k: int|
                    0 <= k < messages@.len() ==> ({
                        let pid = winners@[k].game_player_id;
                        &&& (#[trigger] messages@[k]).id == 0
                        &&& messages@[k].game_code@ == pre.game.game_code@
                        &&& messages@[k].message@ == crate::template::spec_total_reward_message(
                            tm@,
                            spec_user_by_id(
                                pre.users@,
                                spec_player_by_id(pre.players@, pid).user_id@,
                            ).username@,
                            m as nat,
                            pre.outcomes@.len(),
                        )
                        &&& messages@[k].lock_id is None
                        &&& messages@[k].sent == false
                    }),
                self.game.total_reward_message is None ==> messages@.len() == 0,
            decreases self.players@.len() - p2,
        {
            proof {
                lemma_winner_rows_take_step(self.players@, m as nat, p2 as int);
            }
            if self.players[p2].points == m && m > 0 {
                let pid = self.players[p2].game_player_id;
                proof {
                    lemma_player_by_id_is(self.players@, p2 as int);
                }
                winners.push(GameWinner { game_winner_id: 0, game_player_id: pid });
                match &self.game.total_reward_message {
                    Some(tm) => {
                        let uid = self.players[p2].user_id.clone();
                        let username = self.find_username(&uid);
                        let message = crate::template::render_total_reward_message(
                            tm.as_str(),
                            username.as_str(),
                            m,
                            total,
                        );
                        messages.push(
                            ChatMessage {
                                id: 0,
                                game_code: self.game.game_code.clone(),
                                message,
                                lock_id: None,
                                sent: false,
                            },
                        );
                    },
                    None => {},
                }
            }
            p2 += 1;
        }
        // Keep the winner rows on the session as well.
        let mut stored: Vec<GameWinner> = Vec::new();
        let mut w: usize = 0;
        while w < winners.len()
            invariant
                w <= winners@.len(),
                stored@ == winners@.take(w as int),
            decreases winners@.len() - w,
        {
            stored.push(winners[w]);
            w += 1;
        }
        proof {
            assert(winners@.take(winners@.len() as int) =~= winners@);
        }
        self.winners = stored;
        let event = HostAction {
            game_code: self.game.game_code.clone(),
            typ: HostActionType::Finish,
        };
        Ok(FinishOutcome { winners, messages, event })
    }

    /// The number of players who joined the room.
    pub fn players_count(&self) -> (n: u64)
        requires
            self.players@.len() <= u64::MAX,
        ensures
            n as nat == self.players@.len(),
    {
        let mut n: u64 = 0;
        let mut p: usize = 0;
        while p < self.players.len()
            invariant
                p <= self.players@.len(),
                n as nat == p as nat,
            decreases self.players@.len() - p,
        {
            n += 1;
            p += 1;
        }
        n
    }

    /// The number of resolved items (the drop count on the boards).
    pub fn drops_count(&self) -> (n: u64)
        requires
            self.outcomes@.len() <= u64::MAX,
        ensures
            n as nat == self.outcomes@.len(),
    {
        let mut n: u64 = 0;
        let mut t: usize = 0;
        while t < self.outcomes.len()
            invariant
                t <= self.outcomes@.len(),
                n as nat == t as nat,
            decreases self.outcomes@.len() - t,
        {
            n += 1;
            t += 1;
        }
        n
    }

    /// The highest point total in the room, zero when nobody joined.
    pub fn lead_points(&self) -> (m: u64)
        ensures
            m as nat == spec_max_points(self.players@),
    {
        let mut m: u64 = 0;
        let mut p: usize = 0;
        proof {
            assert(self.players@.take(0) =~= Seq::<GamePlayer>::empty());
        }
        while p < self.players.len()
            invariant
                p <= self.players@.len(),
                m as nat == spec_max_points(self.players@.take(p as int)),
            decreases self.players@.len() - p,
        {
            proof {
                lemma_max_points_take_step(self.players@, p as int);
            }
            if self.players[p].points > m {
                m = self.players[p].points;
            }
            p += 1;
        }
        proof {
            assert(self.players@.take(self.players@.len() as int) =~= self.players@);
        }
        m
    }

    /// The display names of the current leaders — the players whose point
    /// total equals the session maximum — in roster order.
    pub fn leaders(&self) -> (r: Vec<String>)
        requires
            self.wf(),
        ensures
            r@ == spec_leader_names(self.players@, self.users@, spec_max_points(self.players@)),
    {
        let m = self.lead_points();
        let mut r: Vec<String> = Vec::new();
        let mut p: usize = 0;
        proof {
            assert(self.players@.take(0) =~= Seq::<GamePlayer>::empty());
        }
        while p < self.players.len()
            invariant
                p <= self.players@.len(),
                self.wf(),
                m as nat == spec_max_points(self.players@),
                r@ == spec_leader_names(self.players@.take(p as int), self.users@, m as nat),
            decreases self.players@.len() - p,
        {
            proof {
                lemma_leader_names_take_step(self.players@, self.users@, m as nat, p as int);
            }
            if self.players[p].points == m {
                let uid = self.players[p].user_id.clone();
                r.push(self.find_username(&uid));
            }
            p += 1;
        }
        proof {
            assert(self.players@.take(self.players@.len() as int) =~= self.players@);
        }
        r
    }

    /// Whether any guess in the game is still pending.
    pub fn any_guesses(&self) -> (b: bool)
        ensures
            b == exists|k: int| 0 <= k < self.guesses@.len() && is_pending(#[trigger] self.guesses@[k]),
    {
        let mut k: usize = 0;
        while k < self.guesses.len()
            invariant
                k <= self.guesses@.len(),
                forall|t: int| 0 <= t < k ==> !is_pending(#[trigger] self.guesses@[t]),
            decreases self.guesses@.len() - k,
        {
            if self.guesses[k].outcome_id.is_none() {
                return true;
            }
            k += 1;
        }
        false
    }

    /// The items of the game, each with the number of pending guesses on it
    /// — the per-item badge on the host's board. A count of zero shows as
    /// absent, as the board's outer join renders it.
    pub fn items_with_guess_counts(&self) -> (r: Vec<GameItemWithGuessCount>)
        requires
            self.guesses@.len() <= u64::MAX,
        ensures
            r@.len() == self.items@.len(),
            forall|k: int|
                0 <= k < r@.len() ==> ({
                    let it = self.items@[k];
                    let c = count_pending_on(self.guesses@, it.game_item_id);
                    &&& (#[trigger] r@[k]).game_item_id == it.game_item_id
                    &&& r@[k].game_code == it.game_code
                    &&& r@[k].name == it.name
                    &&& r@[k].image == it.image
                    &&& r@[k].enabled == it.enabled
                    &&& r@[k].guess_count == (if c == 0 {
                        Option::<u64>::None
                    } else {
                        Some(c as u64)
                    })
                }),
    {
        let mut r: Vec<GameItemWithGuessCount> = Vec::new();
        let mut k: usize = 0;
        while k < self.items.len()
            invariant
                k <= self.items@.len(),
                r@.len() == k,
                forall|j: int|
                    0 <= j < k ==> ({
                        let it = self.items@[j];
                        let c = count_pending_on(self.guesses@, it.game_item_id);
                        &&& (#[trigger] r@[j]).game_item_id == it.game_item_id
                        &&& r@[j].game_code == it.game_code
                        &&& r@[j].name == it.name
                        &&& r@[j].image == it.image
                        &&& r@[j].enabled == it.enabled
                        &&& r@[j].guess_count == (if c == 0 {
                            Option::<u64>::None
                        } else {
                            Some(c as u64)
                        })
                    }),
            decreases self.items@.len() - k,
        {
            let it = &self.items[k];
            let c = self.count_pending_guesses_on(it.game_item_id);
            r.push(
                GameItemWithGuessCount {
                    game_item_id: it.game_item_id,
                    game_code: it.game_code.clone(),
                    name: it.name.clone(),
                    image: match &it.image {
                        Some(m) => Some(m.clone()),
                        None => None,
                    },
                    enabled: it.enabled,
                    guess_count: if c == 0 {
                        None
                    } else {
                        Some(c)
                    },
                },
            );
            k += 1;
        }
        r
    }
}

/// Under `items_ok`, the item found at index `i` is the item that
/// `item_index` names: item ids determine indices.
proof fn lemma_item_index_is(s: GameSession, i: int)
    requires
        items_ok(s.items@, s.game.game_code@),
        0 <= i < s.items@.len(),
    ensures
        s.has_item(s.items@[i].game_item_id),
        s.item_index(s.items@[i].game_item_id) == i,
{
    let id = s.items@[i].game_item_id;
    assert(s.has_item(id));
    let j = s.item_index(id);
    if j < i {
        assert(s.items@[j].game_item_id != s.items@[i].game_item_id);
    } else if i < j {
        assert(s.items@[i].game_item_id != s.items@[j].game_item_id);
    }
}

/// Under `players_ok`, the player found at index `i` is the player that
/// `player_index` names: user ids determine indices.
proof fn lemma_player_index_is(s: GameSession, i: int)
    requires
        players_ok(
            s.players@,
            s.next_player_id,
            s.outcomes@.len(),
            s.game.game_code@,
            s.game.user_id@,
        ),
        0 <= i < s.players@.len(),
    ensures
        s.has_player(s.players@[i].user_id@),
        s.player_index(s.players@[i].user_id@) == i,
{
    let uid = s.players@[i].user_id@;
    assert(s.has_player(uid));
    let j = s.player_index(uid);
    if j < i {
        assert(s.players@[j].user_id@ != s.players@[i].user_id@);
    } else if i < j {
        assert(s.players@[i].user_id@ != s.players@[j].user_id@);
    }
}

/// Under `guesses_ok`, the pending guess found at index `k` is the pending
/// guess that `pending_guess_index` names for its player: a player has at
/// most one.
proof fn lemma_pending_guess_index_is(s: GameSession, k: int)
    requires
        guesses_ok(s.guesses@, s.players@, s.next_guess_id, s.game.game_code@),
        0 <= k < s.guesses@.len(),
        is_pending(s.guesses@[k]),
    ensures
        s.has_pending_guess(s.guesses@[k].player_id),
        s.pending_guess_index(s.guesses@[k].player_id) == k,
{
    let pid = s.guesses@[k].player_id;
    assert(s.has_pending_guess(pid));
    let j = s.pending_guess_index(pid);
    if j < k {
        assert(!(is_pending(s.guesses@[j]) && is_pending(s.guesses@[k]) && s.guesses@[j].player_id
            == s.guesses@[k].player_id));
    } else if k < j {
        assert(!(is_pending(s.guesses@[k]) && is_pending(s.guesses@[j]) && s.guesses@[k].player_id
            == s.guesses@[j].player_id));
    }
}

/// A field-for-field copy of a player row.
fn player_copy(p: &GamePlayer) -> (r: GamePlayer)
    ensures
        r == *p,
{
    GamePlayer {
        game_player_id: p.game_player_id,
        game_code: p.game_code.clone(),
        user_id: p.user_id.clone(),
        points: p.points,
    }
}

/// A field-for-field copy of a user row.
fn user_copy(u: &User) -> (r: User)
    ensures
        r == *u,
{
    User {
        user_id: u.user_id.clone(),
        username: u.username.clone(),
        twitch_login: u.twitch_login.clone(),
    }
}

/// A field-for-field copy of a guess row.
fn guess_copy(g: &PlayerGuess) -> (r: PlayerGuess)
    ensures
        r == *g,
{
    PlayerGuess {
        player_guess_id: g.player_guess_id,
        game_code: g.game_code.clone(),
        player_id: g.player_id,
        item_id: g.item_id,
        outcome_id: g.outcome_id,
    }
}

/// One step of counting pending guesses left to right.
proof fn lemma_count_pending_take_step(gs: Seq<PlayerGuess>, item_id: u64, k: int)
    requires
        0 <= k < gs.len(),
    ensures
        count_pending_on(gs.take(k + 1), item_id) == count_pending_on(gs.take(k), item_id) + (
        if is_pending(gs[k]) && gs[k].item_id == item_id {
            1nat
        } else {
            0nat
        }),
{
    assert(gs.take(k + 1).drop_last() =~= gs.take(k));
    assert(gs.take(k + 1).last() == gs[k]);
}

/// One step of keeping the stamped guesses left to right.
proof fn lemma_resolved_only_take_step(gs: Seq<PlayerGuess>, k: int)
    requires
        0 <= k < gs.len(),
    ensures
        resolved_only(gs.take(k + 1)) == resolved_only(gs.take(k)) + (if is_pending(gs[k]) {
            Seq::empty()
        } else {
            seq![gs[k]]
        }),
{
    assert(gs.take(k + 1).drop_last() =~= gs.take(k));
    assert(gs.take(k + 1).last() == gs[k]);
}

/// One step of collecting the correct guessers left to right.
proof fn lemma_correct_guessers_take_step(
    players: Seq<GamePlayer>,
    guesses: Seq<PlayerGuess>,
    users: Seq<User>,
    item_id: u64,
    p: int,
)
    requires
        0 <= p < players.len(),
    ensures
        spec_correct_guessers(players.take(p + 1), guesses, users, item_id)
            == spec_correct_guessers(players.take(p), guesses, users, item_id) + (
        if has_pending_on(guesses, players[p].game_player_id, item_id) {
            seq![
                (players[p].game_player_id, spec_user_by_id(users, players[p].user_id@).username),
            ]
        } else {
            Seq::empty()
        }),
{
    assert(players.take(p + 1).drop_last() =~= players.take(p));
    assert(players.take(p + 1).last() == players[p]);
}

/// One step of the running maximum left to right.
proof fn lemma_max_points_take_step(players: Seq<GamePlayer>, p: int)
    requires
        0 <= p < players.len(),
    ensures
        spec_max_points(players.take(p + 1)) == (if players[p].points > spec_max_points(
            players.take(p),
        ) {
            players[p].points as nat
        } else {
            spec_max_points(players.take(p))
        }),
{
    assert(players.take(p + 1).drop_last() =~= players.take(p));
    assert(players.take(p + 1).last() == players[p]);
}

/// One step of collecting the winner rows left to right.
proof fn lemma_winner_rows_take_step(players: Seq<GamePlayer>, m: nat, p: int)
    requires
        0 <= p < players.len(),
    ensures
        spec_winner_rows(players.take(p + 1), m) == spec_winner_rows(players.take(p), m) + (
        if players[p].points == m && m > 0 {
            seq![GameWinner { game_winner_id: 0, game_player_id: players[p].game_player_id }]
        } else {
            Seq::empty()
        }),
{
    assert(players.take(p + 1).drop_last() =~= players.take(p));
    assert(players.take(p + 1).last() == players[p]);
}

/// Under distinct player ids, the player found at index `p` is the player
/// that `spec_player_by_id` names.
proof fn lemma_player_by_id_is(players: Seq<GamePlayer>, p: int)
    requires
        forall|i: int, j: int|
            0 <= i < j < players.len() ==> (#[trigger] players[i]).game_player_id != (
            #[trigger] players[j]).game_player_id,
        0 <= p < players.len(),
    ensures
        player_id_in(players, players[p].game_player_id),
        spec_player_by_id(players, players[p].game_player_id) == players[p],
{
    let pid = players[p].game_player_id;
    assert(player_id_in(players, pid));
    let j = choose|j: int|
        0 <= j < players.len() && (#[trigger] players[j]).game_player_id == pid;
    if j < p {
        assert(players[j].game_player_id != players[p].game_player_id);
    } else if p < j {
        assert(players[p].game_player_id != players[j].game_player_id);
    }
}

/// One step of collecting the leader names left to right.
proof fn lemma_leader_names_take_step(players: Seq<GamePlayer>, users: Seq<User>, m: nat, p: int)
    requires
        0 <= p < players.len(),
    ensures
        spec_leader_names(players.take(p + 1), users, m) == spec_leader_names(
            players.take(p),
            users,
            m,
        ) + (if players[p].points == m {
            seq![spec_user_by_id(users, players[p].user_id@).username]
        } else {
            Seq::empty()
        }),
{
    assert(players.take(p + 1).drop_last() =~= players.take(p));
    assert(players.take(p + 1).last() == players[p]);
}

/// A known player id is still known after another row is appended.
proof fn lemma_player_id_in_push(players: Seq<GamePlayer>, x: GamePlayer, pid: u64)
    requires
        player_id_in(players, pid),
    ensures
        player_id_in(players.push(x), pid),
{
    let p = choose|p: int|
        0 <= p < players.len() && (#[trigger] players[p]).game_player_id == pid;
    assert(players.push(x)[p] == players[p]);
}

/// A known user id is still known after another row is appended.
proof fn lemma_user_id_in_push(users: Seq<User>, x: User, uid: Seq<char>)
    requires
        user_id_in(users, uid),
    ensures
        user_id_in(users.push(x), uid),
{
    let u = choose|u: int| 0 <= u < users.len() && (#[trigger] users[u]).user_id@ == uid;
    assert(users.push(x)[u] == users[u]);
}

/// Law: at any time, a player holds at most one pending guess — any two
/// pending guesses of one player are the same row. Together with
/// `guess_item`'s contract (a new guess is created only when none is
/// pending, and a pending one is moved in place to the most recent
/// request's item), this pins the pending window per player.
pub proof fn lemma_at_most_one_pending(s: GameSession, i: int, j: int)
    requires
        s.wf(),
        0 <= i < s.guesses@.len(),
        0 <= j < s.guesses@.len(),
        is_pending(s.guesses@[i]),
        is_pending(s.guesses@[j]),
        s.guesses@[i].player_id == s.guesses@[j].player_id,
    ensures
        i == j,
{
    if i < j {
        assert(!(is_pending(s.guesses@[i]) && is_pending(s.guesses@[j])
            && s.guesses@[i].player_id == s.guesses@[j].player_id));
    } else if j < i {
        assert(!(is_pending(s.guesses@[j]) && is_pending(s.guesses@[i])
            && s.guesses@[j].player_id == s.guesses@[i].player_id));
    }
}

/// Law: a resolution credits exactly the distinct players holding a pending
/// guess on the chosen item at that moment — every such player appears in
/// the credited sequence, nobody else does, and nobody appears twice. The
/// number of players awarded a point therefore equals the number of
/// distinct players with a pending guess on the item.
pub proof fn lemma_correct_guessers_exact(
    players: Seq<GamePlayer>,
    guesses: Seq<PlayerGuess>,
    users: Seq<User>,
    item_id: u64,
)
    requires
        forall|i: int, j: int|
            0 <= i < j < players.len() ==> (#[trigger] players[i]).game_player_id != (
            #[trigger] players[j]).game_player_id,
    ensures
        forall|pid: u64|
            #[trigger] correct_ids_contain(
                spec_correct_guessers(players, guesses, users, item_id),
                pid,
            ) <==> (player_id_in(players, pid) && has_pending_on(guesses, pid, item_id)),
        forall|k1: int, k2: int|
            0 <= k1 < k2 < spec_correct_guessers(players, guesses, users, item_id).len() ==> (
            #[trigger] spec_correct_guessers(players, guesses, users, item_id)[k1]).0 != (
            #[trigger] spec_correct_guessers(players, guesses, users, item_id)[k2]).0,
    decreases players.len(),
{
    let cg = spec_correct_guessers(players, guesses, users, item_id);
    if players.len() == 0 {
        assert forall|pid: u64| #[trigger] correct_ids_contain(cg, pid) implies (player_id_in(
            players,
            pid,
        ) && has_pending_on(guesses, pid, item_id)) by {
            let k = choose|k: int| 0 <= k < cg.len() && (#[trigger] cg[k]).0 == pid;
        }
    } else {
        let rest = players.drop_last();
        let last = players.last();
        let cgr = spec_correct_guessers(rest, guesses, users, item_id);
        assert forall|i: int, j: int|
            0 <= i < j < rest.len() implies (#[trigger] rest[i]).game_player_id != (
        #[trigger] rest[j]).game_player_id by {
            assert(players[i].game_player_id != players[j].game_player_id);
        }
        lemma_correct_guessers_exact(rest, guesses, users, item_id);
        assert forall|pid: u64| #[trigger] correct_ids_contain(cg, pid) implies (player_id_in(
            players,
            pid,
        ) && has_pending_on(guesses, pid, item_id)) by {
            let k = choose|k: int| 0 <= k < cg.len() && (#[trigger] cg[k]).0 == pid;
            if k < cgr.len() {
                assert(cg[k] == cgr[k]);
                assert(correct_ids_contain(cgr, pid));
                let p = choose|p: int|
                    0 <= p < rest.len() && (#[trigger] rest[p]).game_player_id == pid;
                assert(players[p] == rest[p]);
            } else {
                assert(cg[k].0 == last.game_player_id);
                assert(players[players.len() - 1] == last);
            }
        }
        assert forall|pid: u64|
            player_id_in(players, pid) && has_pending_on(guesses, pid, item_id) implies (
        #[trigger] correct_ids_contain(cg, pid)) by {
            let p = choose|p: int|
                0 <= p < players.len() && (#[trigger] players[p]).game_player_id == pid;
            if p < players.len() - 1 {
                assert(rest[p] == players[p]);
                assert(player_id_in(rest, pid));
                assert(correct_ids_contain(cgr, pid));
                let k = choose|k: int| 0 <= k < cgr.len() && (#[trigger] cgr[k]).0 == pid;
                assert(cg[k] == cgr[k]);
                assert(cg[k].0 == pid);
            } else {
                assert(players[p] == last);
                assert(cg[cg.len() - 1].0 == pid);
            }
        }
        assert forall|k1: int, k2: int| 0 <= k1 < k2 < cg.len() implies (#[trigger] cg[k1]).0 != (
        #[trigger] cg[k2]).0 by {
            if k2 < cgr.len() {
                assert(cg[k1] == cgr[k1]);
                assert(cg[k2] == cgr[k2]);
            } else {
                assert(has_pending_on(guesses, last.game_player_id, item_id));
                assert(cg[k2].0 == last.game_player_id);
                assert(cg[k1] == cgr[k1]);
                assert(correct_ids_contain(cgr, cgr[k1].0));
                assert(player_id_in(rest, cgr[k1].0));
                let p = choose|p: int|
                    0 <= p < rest.len() && (#[trigger] rest[p]).game_player_id == cgr[k1].0;
                assert(players[p].game_player_id != players[players.len() - 1].game_player_id);
            }
        }
    }
}

/// The number of players holding a pending guess on `item_id`. Under
/// distinct player rows this is the number of distinct players with a
/// pending guess on the item.
pub open spec fn count_players_with_pending_on(
    players: Seq<GamePlayer>,
    guesses: Seq<PlayerGuess>,
    item_id: u64,
) -> nat
    decreases players.len(),
{
    if players.len() == 0 {
        0
    } else {
        count_players_with_pending_on(players.drop_last(), guesses, item_id) + (if has_pending_on(
            guesses,
            players.last().game_player_id,
            item_id,
        ) {
            1nat
        } else {
            0nat
        })
    }
}

/// Law: the number of players a resolution credits equals the number of
/// players holding a pending guess on the chosen item at that moment.
pub proof fn lemma_award_count(
    players: Seq<GamePlayer>,
    guesses: Seq<PlayerGuess>,
    users: Seq<User>,
    item_id: u64,
)
    ensures
        spec_correct_guessers(players, guesses, users, item_id).len()
            == count_players_with_pending_on(players, guesses, item_id),
    decreases players.len(),
{
    if players.len() > 0 {
        lemma_award_count(players.drop_last(), guesses, users, item_id);
    }
}

/// Appending a guess that is not a pending guess on `item_id` changes no
/// player's pending-on-item status.
proof fn lemma_has_pending_push_other(gs: Seq<PlayerGuess>, g: PlayerGuess, pid: u64, item_id: u64)
    requires
        !(is_pending(g) && g.item_id == item_id),
    ensures
        has_pending_on(gs.push(g), pid, item_id) == has_pending_on(gs, pid, item_id),
{
    if has_pending_on(gs, pid, item_id) {
        let k = choose|k: int|
            0 <= k < gs.len() && is_pending(#[trigger] gs[k]) && gs[k].player_id == pid
                && gs[k].item_id == item_id;
        assert(gs.push(g)[k] == gs[k]);
    }
    if has_pending_on(gs.push(g), pid, item_id) {
        let k = choose|k: int|
            0 <= k < gs.push(g).len() && is_pending(#[trigger] gs.push(g)[k])
                && gs.push(g)[k].player_id == pid && gs.push(g)[k].item_id == item_id;
        if k < gs.len() {
            assert(gs[k] == gs.push(g)[k]);
        } else {
            assert(gs.push(g)[k] == g);
        }
    }
}

/// Appending a pending guess on `item_id` changes no other player's
/// pending-on-item status.
proof fn lemma_has_pending_push_match(gs: Seq<PlayerGuess>, g: PlayerGuess, pid: u64, item_id: u64)
    requires
        pid != g.player_id,
    ensures
        has_pending_on(gs.push(g), pid, item_id) == has_pending_on(gs, pid, item_id),
{
    if has_pending_on(gs, pid, item_id) {
        let k = choose|k: int|
            0 <= k < gs.len() && is_pending(#[trigger] gs[k]) && gs[k].player_id == pid
                && gs[k].item_id == item_id;
        assert(gs.push(g)[k] == gs[k]);
    }
    if has_pending_on(gs.push(g), pid, item_id) {
        let k = choose|k: int|
            0 <= k < gs.push(g).len() && is_pending(#[trigger] gs.push(g)[k])
                && gs.push(g)[k].player_id == pid && gs.push(g)[k].item_id == item_id;
        if k < gs.len() {
            assert(gs[k] == gs.push(g)[k]);
        } else {
            assert(gs.push(g)[k] == g);
        }
    }
}

/// The player count only depends on each listed player's pending-on-item
/// status.
proof fn lemma_count_players_congruent(
    players: Seq<GamePlayer>,
    g1: Seq<PlayerGuess>,
    g2: Seq<PlayerGuess>,
    item_id: u64,
)
    requires
        forall|p: int|
            0 <= p < players.len() ==> has_pending_on(
                g1,
                (#[trigger] players[p]).game_player_id,
                item_id,
            ) == has_pending_on(g2, players[p].game_player_id, item_id),
    ensures
        count_players_with_pending_on(players, g1, item_id) == count_players_with_pending_on(
            players,
            g2,
            item_id,
        ),
    decreases players.len(),
{
    if players.len() > 0 {
        let rest = players.drop_last();
        assert forall|p: int| 0 <= p < rest.len() implies has_pending_on(
            g1,
            (#[trigger] rest[p]).game_player_id,
            item_id,
        ) == has_pending_on(g2, rest[p].game_player_id, item_id) by {
            assert(rest[p] == players[p]);
        }
        lemma_count_players_congruent(rest, g1, g2, item_id);
        assert(players.last() == players[players.len() - 1]);
    }
}

/// With no pending guess on `item_id` at all, no player counts.
proof fn lemma_count_players_none(
    players: Seq<GamePlayer>,
    gs: Seq<PlayerGuess>,
    item_id: u64,
)
    requires
        forall|pid: u64| !has_pending_on(gs, pid, item_id),
    ensures
        count_players_with_pending_on(players, gs, item_id) == 0,
    decreases players.len(),
{
    if players.len() > 0 {
        lemma_count_players_none(players.drop_last(), gs, item_id);
        assert(!has_pending_on(gs, players.last().game_player_id, item_id));
    }
}

/// Appending a fresh pending guess on `item_id` raises the player count by
/// exactly one, provided its player is listed (once) and had no pending
/// guess on the item yet.
proof fn lemma_count_players_push_match(
    players: Seq<GamePlayer>,
    gs: Seq<PlayerGuess>,
    g: PlayerGuess,
    item_id: u64,
)
    requires
        is_pending(g),
        g.item_id == item_id,
        !has_pending_on(gs, g.player_id, item_id),
        forall|i: int, j: int|
            0 <= i < j < players.len() ==> (#[trigger] players[i]).game_player_id != (
            #[trigger] players[j]).game_player_id,
        player_id_in(players, g.player_id),
    ensures
        count_players_with_pending_on(players, gs.push(g), item_id)
            == count_players_with_pending_on(players, gs, item_id) + 1,
    decreases players.len(),
{
    let n = players.len() as int;
    let p0 = choose|p: int|
        0 <= p < players.len() && (#[trigger] players[p]).game_player_id == g.player_id;
    let rest = players.drop_last();
    let last = players.last();
    assert forall|i: int, j: int| 0 <= i < j < rest.len() implies (
    #[trigger] rest[i]).game_player_id != (#[trigger] rest[j]).game_player_id by {
        assert(players[i].game_player_id != players[j].game_player_id);
    }
    if last.game_player_id == g.player_id {
        // no other row carries this id, so only the last contribution flips
        assert forall|p: int| 0 <= p < rest.len() implies has_pending_on(
            gs.push(g),
            (#[trigger] rest[p]).game_player_id,
            item_id,
        ) == has_pending_on(gs, rest[p].game_player_id, item_id) by {
            assert(players[p].game_player_id != players[n - 1].game_player_id);
            lemma_has_pending_push_match(gs, g, rest[p].game_player_id, item_id);
        }
        lemma_count_players_congruent(rest, gs.push(g), gs, item_id);
        assert(gs.push(g)[gs.len() as int] == g);
        assert(has_pending_on(gs.push(g), last.game_player_id, item_id));
    } else {
        lemma_has_pending_push_match(gs, g, last.game_player_id, item_id);
        assert(players[p0] == rest[p0]);
        assert(player_id_in(rest, g.player_id));
        lemma_count_players_push_match(rest, gs, g, item_id);
    }
}

/// Law: on the host's board, the pending-guess badge of an item counts
/// exactly the players a resolution of that item would credit — each
/// pending guess belongs to one listed player and no player holds two.
pub proof fn lemma_badge_counts_players(
    players: Seq<GamePlayer>,
    gs: Seq<PlayerGuess>,
    item_id: u64,
)
    requires
        forall|i: int, j: int|
            0 <= i < j < players.len() ==> (#[trigger] players[i]).game_player_id != (
            #[trigger] players[j]).game_player_id,
        forall|i: int, j: int|
            0 <= i < j < gs.len() ==> !(is_pending(#[trigger] gs[i]) && is_pending(
                #[trigger] gs[j],
            ) && gs[i].player_id == gs[j].player_id),
        forall|i: int| 0 <= i < gs.len() ==> player_id_in(players, (#[trigger] gs[i]).player_id),
    ensures
        count_players_with_pending_on(players, gs, item_id) == count_pending_on(gs, item_id),
    decreases gs.len(),
{
    if gs.len() == 0 {
        assert forall|pid: u64| !has_pending_on(gs, pid, item_id) by {
            if has_pending_on(gs, pid, item_id) {
                let k = choose|k: int|
                    0 <= k < gs.len() && is_pending(#[trigger] gs[k]) && gs[k].player_id == pid
                        && gs[k].item_id == item_id;
            }
        }
        lemma_count_players_none(players, gs, item_id);
    } else {
        let rest = gs.drop_last();
        let g = gs.last();
        let n = gs.len() as int;
        assert forall|i: int, j: int| 0 <= i < j < rest.len() implies !(is_pending(
            #[trigger] rest[i],
        ) && is_pending(#[trigger] rest[j]) && rest[i].player_id == rest[j].player_id) by {
            assert(rest[i] == gs[i] && rest[j] == gs[j]);
        }
        assert forall|i: int| 0 <= i < rest.len() implies player_id_in(
            players,
            (#[trigger] rest[i]).player_id,
        ) by {
            assert(rest[i] == gs[i]);
        }
        lemma_badge_counts_players(players, rest, item_id);
        assert(rest.push(g) =~= gs);
        if is_pending(g) && g.item_id == item_id {
            assert(!has_pending_on(rest, g.player_id, item_id)) by {
                if has_pending_on(rest, g.player_id, item_id) {
                    let k = choose|k: int|
                        0 <= k < rest.len() && is_pending(#[trigger] rest[k]) && rest[k].player_id
                            == g.player_id && rest[k].item_id == item_id;
                    assert(rest[k] == gs[k]);
                    assert(!(is_pending(gs[k]) && is_pending(gs[n - 1]) && gs[k].player_id
                        == gs[n - 1].player_id));
                }
            }
            assert(player_id_in(players, gs[n - 1].player_id));
            lemma_count_players_push_match(players, rest, g, item_id);
        } else {
            assert forall|p: int| 0 <= p < players.len() implies has_pending_on(
                rest.push(g),
                (#[trigger] players[p]).game_player_id,
                item_id,
            ) == has_pending_on(rest, players[p].game_player_id, item_id) by {
                lemma_has_pending_push_other(rest, g, players[p].game_player_id, item_id);
            }
            lemma_count_players_congruent(players, rest.push(g), rest, item_id);
        }
    }
}

/// Law: in a well-formed session, the number of players a resolution of
/// `item_id` would credit equals that item's pending-guess count, the badge
/// the host's board shows.
pub proof fn lemma_award_count_is_badge(s: GameSession, item_id: u64)
    requires
        s.wf(),
    ensures
        spec_correct_guessers(s.players@, s.guesses@, s.users@, item_id).len() == count_pending_on(
            s.guesses@,
            item_id,
        ),
{
    lemma_award_count(s.players@, s.guesses@, s.users@, item_id);
    lemma_badge_counts_players(s.players@, s.guesses@, item_id);
}

/// Whether some credited pair names the player `pid`.
pub open spec fn correct_ids_contain(pairs: Seq<(u64, String)>, pid: u64) -> bool {
    exists|k: int| 0 <= k < pairs.len() && (#[trigger] pairs[k]).0 == pid
}

/// Whether some winner row names the player `pid`.
pub open spec fn winner_rows_contain(rows: Seq<GameWinner>, pid: u64) -> bool {
    exists|k: int| 0 <= k < rows.len() && (#[trigger] rows[k]).game_player_id == pid
}

/// Law: after a finish, the winner set equals exactly the players whose
/// point total equals the session maximum and is nonzero — ties all win,
/// nobody is listed twice, and a game where the maximum is zero produces no
/// winners at all.
pub proof fn lemma_winner_rows_exact(players: Seq<GamePlayer>, m: nat)
    requires
        forall|i: int, j: int|
            0 <= i < j < players.len() ==> (#[trigger] players[i]).game_player_id != (
            #[trigger] players[j]).game_player_id,
    ensures
        forall|pid: u64|
            #[trigger] winner_rows_contain(spec_winner_rows(players, m), pid) <==> exists|p: int|
                0 <= p < players.len() && (#[trigger] players[p]).game_player_id == pid
                    && players[p].points == m && m > 0,
        forall|k1: int, k2: int|
            0 <= k1 < k2 < spec_winner_rows(players, m).len() ==> (#[trigger] spec_winner_rows(
                players,
                m,
            )[k1]).game_player_id != (#[trigger] spec_winner_rows(players, m)[k2]).game_player_id,
        m == 0 ==> spec_winner_rows(players, m).len() == 0,
    decreases players.len(),
{
    let wr = spec_winner_rows(players, m);
    if players.len() == 0 {
        assert forall|pid: u64| #[trigger] winner_rows_contain(wr, pid) implies exists|p: int|
            0 <= p < players.len() && (#[trigger] players[p]).game_player_id == pid
                && players[p].points == m && m > 0 by {
            let k = choose|k: int| 0 <= k < wr.len() && (#[trigger] wr[k]).game_player_id == pid;
        }
    } else {
        let rest = players.drop_last();
        let last = players.last();
        let wrr = spec_winner_rows(rest, m);
        assert forall|i: int, j: int|
            0 <= i < j < rest.len() implies (#[trigger] rest[i]).game_player_id != (
        #[trigger] rest[j]).game_player_id by {
            assert(players[i].game_player_id != players[j].game_player_id);
        }
        lemma_winner_rows_exact(rest, m);
        assert forall|pid: u64| #[trigger] winner_rows_contain(wr, pid) implies exists|p: int|
            0 <= p < players.len() && (#[trigger] players[p]).game_player_id == pid
                && players[p].points == m && m > 0 by {
            let k = choose|k: int| 0 <= k < wr.len() && (#[trigger] wr[k]).game_player_id == pid;
            if k < wrr.len() {
                assert(wr[k] == wrr[k]);
                assert(winner_rows_contain(wrr, pid));
                let p = choose|p: int|
                    0 <= p < rest.len() && (#[trigger] rest[p]).game_player_id == pid
                        && rest[p].points == m && m > 0;
                assert(players[p] == rest[p]);
            } else {
                assert(wr[k].game_player_id == last.game_player_id);
                assert(players[players.len() - 1] == last);
            }
        }
        assert forall|pid: u64|
            exists|p: int|
                0 <= p < players.len() && (#[trigger] players[p]).game_player_id == pid
                    && players[p].points == m && m > 0 implies #[trigger] winner_rows_contain(
            wr,
            pid,
        ) by {
            let p = choose|p: int|
                0 <= p < players.len() && (#[trigger] players[p]).game_player_id == pid
                    && players[p].points == m && m > 0;
            if p < players.len() - 1 {
                assert(rest[p] == players[p]);
                assert(winner_rows_contain(wrr, pid));
                let k = choose|k: int|
                    0 <= k < wrr.len() && (#[trigger] wrr[k]).game_player_id == pid;
                assert(wr[k] == wrr[k]);
                assert(wr[k].game_player_id == pid);
            } else {
                assert(players[p] == last);
                assert(wr[wr.len() - 1].game_player_id == pid);
            }
        }
        assert forall|k1: int, k2: int|
            0 <= k1 < k2 < wr.len() implies (#[trigger] wr[k1]).game_player_id != (
        #[trigger] wr[k2]).game_player_id by {
            if k2 < wrr.len() {
                assert(wr[k1] == wrr[k1]);
                assert(wr[k2] == wrr[k2]);
            } else {
                assert(last.points == m && m > 0);
                assert(wr[k2].game_player_id == last.game_player_id);
                assert(wr[k1] == wrr[k1]);
                assert(winner_rows_contain(wrr, wrr[k1].game_player_id));
                let p = choose|p: int|
                    0 <= p < rest.len() && (#[trigger] rest[p]).game_player_id
                        == wrr[k1].game_player_id && rest[p].points == m && m > 0;
                assert(players[p].game_player_id != players[players.len() - 1].game_player_id);
            }
        }
    }
}

/// Joins display names with a comma and a space, as the boards show the
/// leader list.
pub fn join_names(names: &Vec<String>) -> (r: String)
    ensures
        r@ == spec_joined_names(names@),
{
    let mut r = String::new();
    let mut k: usize = 0;
    while k < names.len()
        invariant
            k <= names@.len(),
            r@ == spec_joined_names(names@.take(k as int)),
        decreases names@.len() - k,
    {
        proof {
            assert(names@.take(k + 1).drop_last() =~= names@.take(k as int));
            assert(names@.take(k + 1).last() == names@[k as int]);
            if k > 0 {
                assert(names@.take(k + 1).len() > 1);
            }
        }
        if k > 0 {
            r.append(", ");
        }
        r.append(names[k].as_str());
        k += 1;
    }
    proof {
        assert(names@.take(names@.len() as int) =~= names@);
    }
    r
}

fn game_not_found_message() -> (r: String)
    ensures
        r@ == "Game not found"@,
{
    String::from_str("Game not found")
}

fn item_not_found_message() -> (r: String)
    ensures
        r@ == "Item not found"@,
{
    String::from_str("Item not found")
}

/// Renders one reward message per correct guesser, substituting the
/// guesser's display name and the chosen item's name into the game's
/// reward template. Without a template there is nothing to send.
pub fn build_reward_messages(
    template: &Option<String>,
    game_code: &String,
    item_name: &String,
    correct: &Vec<(u64, String)>,
) -> (r: Vec<ChatMessage>)
    ensures
        template matches Some(t) ==> r@.len() == correct@.len() && forall|k: int|
            0 <= k < correct@.len() ==> ({
                &&& (#[trigger] r@[k]).id == 0
                &&& r@[k].game_code@ == game_code@
                &&& r@[k].message@ == crate::template::spec_reward_message(
                    t@,
                    correct@[k].1@,
                    item_name@,
                )
                &&& r@[k].lock_id is None
                &&& r@[k].sent == false
            }),
        template is None ==> r@.len() == 0,
{
    let mut r: Vec<ChatMessage> = Vec::new();
    let t = match template {
        Some(t) => t,
        None => {
            return r;
        },
    };
    let mut k: usize = 0;
    while k < correct.len()
        invariant
            k <= correct@.len(),
            r@.len() == k,
            template matches Some(tt) && tt == t,
            forall|j: int|
                0 <= j < k ==> ({
                    &&& (#[trigger] r@[j]).id == 0
                    &&& r@[j].game_code@ == game_code@
                    &&& r@[j].message@ == crate::template::spec_reward_message(
                        t@,
                        correct@[j].1@,
                        item_name@,
                    )
                    &&& r@[j].lock_id is None
                    &&& r@[j].sent == false
                }),
        decreases correct@.len() - k,
    {
        let message = crate::template::render_reward_message(
            t.as_str(),
            correct[k].1.as_str(),
            item_name.as_str(),
        );
        r.push(
            ChatMessage {
                id: 0,
                game_code: game_code.clone(),
                message,
                lock_id: None,
                sent: false,
            },
        );
        k += 1;
    }
    r
}

fn item_disabled_message() -> (r: String)
    ensures
        r@ == "Item is disabled"@,
{
    String::from_str("Item is disabled")
}

fn player_not_found_message() -> (r: String)
    ensures
        r@ == "Player not found"@,
{
    String::from_str("Player not found")
}

} // verus!
