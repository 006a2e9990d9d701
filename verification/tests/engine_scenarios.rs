use snowy::engine::GameSession;
use snowy::errors::ErrorKind;
use snowy::events::HostActionType;
use snowy::events::PlayerActionType;
use snowy::models::GameItemTemplate;
use snowy::models::GameStatus;
use snowy::models::GameTemplate;
use snowy::models::User;

fn user(id: &str, name: &str) -> User {
    User {
        user_id: id.to_string(),
        username: name.to_string(),
        twitch_login: name.to_lowercase(),
    }
}

fn template(reward: Option<&str>, total: Option<&str>, auto_lock: bool) -> GameTemplate {
    GameTemplate {
        game_template_id: 1,
        user_id: "host".to_string(),
        name: "Drops".to_string(),
        auto_lock,
        reward_message: reward.map(|s| s.to_string()),
        total_reward_message: total.map(|s| s.to_string()),
    }
}

fn item_template(name: &str, start_enabled: bool) -> GameItemTemplate {
    GameItemTemplate {
        game_item_template_id: 0,
        game_template_id: 1,
        name: name.to_string(),
        image: None,
        start_enabled,
    }
}

/// Three items A (enabled), B (enabled), C (disabled); two players guess A;
/// the host chooses A.
fn abc_session(reward: Option<&str>, total: Option<&str>) -> GameSession {
    let host = user("host", "Host");
    let items = vec![
        item_template("A", true),
        item_template("B", true),
        item_template("C", false),
    ];
    let mut s = GameSession::create_game(
        &template(reward, total, false),
        &items,
        &host,
        "abc123".to_string(),
        1000,
    );
    let p1 = user("p1", "Alice");
    let p2 = user("p2", "Bob");
    s.join(&p1, 1001).unwrap();
    s.join(&p2, 1002).unwrap();
    s
}

#[test]
fn create_game_copies_template_snapshot() {
    let s = abc_session(None, None);
    assert_eq!(s.game.game_code, "abc123");
    assert_eq!(s.game.user_id, "host");
    assert_eq!(s.game.status, GameStatus::Active);
    assert_eq!(s.game.created_at, 1000);
    assert!(!s.game.is_locked);
    assert_eq!(s.items.len(), 3);
    assert_eq!(s.items[0].name, "A");
    assert!(s.items[0].enabled);
    assert!(s.items[1].enabled);
    assert!(!s.items[2].enabled);
    assert_eq!(s.items[0].game_item_id, 1);
    assert_eq!(s.items[2].game_item_id, 3);
}

#[test]
fn auto_lock_game_starts_locked() {
    let host = user("host", "Host");
    let s = GameSession::create_game(
        &template(None, None, true),
        &vec![item_template("A", true)],
        &host,
        "c0ffee".to_string(),
        5,
    );
    assert!(s.game.is_locked);
    assert!(s.game.auto_lock);
}

#[test]
fn choose_item_awards_each_correct_guesser_once() {
    let mut s = abc_session(Some("<USER> got <ITEM>!"), None);
    s.guess_item(&"p1".to_string(), 1).unwrap();
    s.guess_item(&"p2".to_string(), 1).unwrap();
    let res = s.choose_item(&"host".to_string(), 1).unwrap();
    // both players got exactly one point
    assert_eq!(s.players.len(), 2);
    assert_eq!(s.players[0].points, 1);
    assert_eq!(s.players[1].points, 1);
    // the credited set is the two distinct guessers
    assert_eq!(res.correct_guessers.len(), 2);
    assert_eq!(res.correct_guessers[0], (s.players[0].game_player_id, "Alice".to_string()));
    assert_eq!(res.correct_guessers[1], (s.players[1].game_player_id, "Bob".to_string()));
    // A is disabled, one outcome row exists, zero pending guesses remain
    assert!(!s.items[0].enabled);
    assert_eq!(s.outcomes.len(), 1);
    assert_eq!(s.outcomes[0].item_id, 1);
    assert!(s.guesses.iter().all(|g| g.outcome_id == Some(s.outcomes[0].outcome_id)));
    // one reward message per correct guesser
    assert_eq!(res.messages.len(), 2);
    assert_eq!(res.messages[0].message, "Alice got A!");
    assert_eq!(res.messages[1].message, "Bob got A!");
    assert_eq!(res.event.typ, HostActionType::Choose { item_id: 1 });
}

#[test]
fn repeated_resolution_fails_and_awards_nothing() {
    let mut s = abc_session(None, None);
    s.guess_item(&"p1".to_string(), 1).unwrap();
    s.choose_item(&"host".to_string(), 1).unwrap();
    let points_before: Vec<u64> = s.players.iter().map(|p| p.points).collect();
    let outcomes_before = s.outcomes.len();
    let err = s.choose_item(&"host".to_string(), 1).unwrap_err();
    assert_eq!(err.kind, ErrorKind::InvalidState);
    let points_after: Vec<u64> = s.players.iter().map(|p| p.points).collect();
    assert_eq!(points_before, points_after);
    assert_eq!(s.outcomes.len(), outcomes_before);
}

#[test]
fn choosing_a_disabled_item_is_invalid_state() {
    let mut s = abc_session(None, None);
    let err = s.choose_item(&"host".to_string(), 3).unwrap_err();
    assert_eq!(err.kind, ErrorKind::InvalidState);
    assert_eq!(err.describe(), "Item is disabled");
}

#[test]
fn choose_item_stamps_wrong_guesses_too() {
    let mut s = abc_session(None, None);
    s.guess_item(&"p1".to_string(), 1).unwrap();
    s.guess_item(&"p2".to_string(), 2).unwrap();
    let res = s.choose_item(&"host".to_string(), 1).unwrap();
    // only p1 was credited, but p2's guess on B is stamped as well
    assert_eq!(res.correct_guessers.len(), 1);
    assert_eq!(s.players[0].points, 1);
    assert_eq!(s.players[1].points, 0);
    assert!(s.guesses.iter().all(|g| g.outcome_id.is_some()));
    assert_eq!(s.guesses.len(), 2);
}

#[test]
fn choose_item_applies_auto_lock_policy() {
    let host = user("host", "Host");
    let mut s = GameSession::create_game(
        &template(None, None, true),
        &vec![item_template("A", true)],
        &host,
        "c1c1c1".to_string(),
        5,
    );
    s.unlock(&"host".to_string()).unwrap();
    assert!(!s.game.is_locked);
    s.choose_item(&"host".to_string(), 1).unwrap();
    assert!(s.game.is_locked);
}

#[test]
fn one_pending_guess_per_player_moves_in_place() {
    let mut s = abc_session(None, None);
    let up1 = s.guess_item(&"p1".to_string(), 1).unwrap();
    assert_eq!(up1.guess.item_id, 1);
    assert_eq!(s.guesses.len(), 1);
    let up2 = s.guess_item(&"p1".to_string(), 2).unwrap();
    // still exactly one row, now referencing B
    assert_eq!(s.guesses.len(), 1);
    assert_eq!(s.guesses[0].item_id, 2);
    assert!(s.guesses[0].outcome_id.is_none());
    assert_eq!(up2.guess.item_id, 2);
    // an UndoGuess for A and a Guess for B were reported, in that order
    assert_eq!(up2.events.len(), 2);
    assert_eq!(
        up2.events[0].typ,
        PlayerActionType::UndoGuess { item_id: 1, new_guess_count: 0 }
    );
    assert_eq!(up2.events[1].typ, PlayerActionType::Guess { item_id: 2, new_guess_count: 1 });
}

#[test]
fn first_guess_on_an_item_enables_clear_guesses() {
    let mut s = abc_session(None, None);
    let up = s.guess_item(&"p1".to_string(), 1).unwrap();
    assert_eq!(up.events.len(), 2);
    assert_eq!(up.events[0].typ, PlayerActionType::Guess { item_id: 1, new_guess_count: 1 });
    assert_eq!(up.events[1].typ, PlayerActionType::EnableClearGuesses);
    // a second guess on the same item does not repeat the affordance
    let up2 = s.guess_item(&"p2".to_string(), 1).unwrap();
    assert_eq!(up2.events.len(), 1);
    assert_eq!(up2.events[0].typ, PlayerActionType::Guess { item_id: 1, new_guess_count: 2 });
}

#[test]
fn guess_by_host_or_unknown_item_is_refused() {
    let mut s = abc_session(None, None);
    let err = s.guess_item(&"host".to_string(), 1).unwrap_err();
    assert_eq!(err.kind, ErrorKind::NotFound);
    let err = s.guess_item(&"p1".to_string(), 99).unwrap_err();
    assert_eq!(err.kind, ErrorKind::NotFound);
    assert!(s.guesses.is_empty());
}

#[test]
fn non_host_lock_is_refused_and_changes_nothing() {
    let mut s = abc_session(None, None);
    let err = s.lock(&"p1".to_string()).unwrap_err();
    assert_eq!(err.kind, ErrorKind::NotFound);
    assert_eq!(err.describe(), "Game not found");
    assert!(!s.game.is_locked);
}

#[test]
fn lock_and_unlock_are_idempotent_but_always_notify() {
    let mut s = abc_session(None, None);
    let a1 = s.lock(&"host".to_string()).unwrap();
    assert!(s.game.is_locked);
    assert_eq!(a1.typ, HostActionType::Lock);
    // locking a locked game still reports the event
    let a2 = s.lock(&"host".to_string()).unwrap();
    assert!(s.game.is_locked);
    assert_eq!(a2.typ, HostActionType::Lock);
    let a3 = s.unlock(&"host".to_string()).unwrap();
    assert!(!s.game.is_locked);
    assert_eq!(a3.typ, HostActionType::Unlock);
}

#[test]
fn enable_disable_emit_only_on_change() {
    let mut s = abc_session(None, None);
    // enabling an already-enabled item: no event
    assert!(s.enable_item(&"host".to_string(), 1).unwrap().is_none());
    let ev = s.disable_item(&"host".to_string(), 1).unwrap();
    assert_eq!(ev.unwrap().typ, HostActionType::Disable { item_id: 1 });
    assert!(!s.items[0].enabled);
    assert!(s.disable_item(&"host".to_string(), 1).unwrap().is_none());
    let ev = s.enable_item(&"host".to_string(), 1).unwrap();
    assert_eq!(ev.unwrap().typ, HostActionType::Enable { item_id: 1 });
    assert!(s.items[0].enabled);
}

#[test]
fn join_is_idempotent() {
    let mut s = abc_session(None, None);
    let p1 = user("p1", "Alice");
    assert_eq!(s.players.len(), 2);
    let (row, ev) = s.join(&p1, 2000).unwrap();
    // repeat visit: same row, no event, no new player
    assert_eq!(s.players.len(), 2);
    assert_eq!(row.game_player_id, s.players[0].game_player_id);
    assert!(ev.is_none());
}

#[test]
fn join_reports_updated_player_count() {
    let host = user("host", "Host");
    let mut s = GameSession::create_game(
        &template(None, None, false),
        &vec![item_template("A", true)],
        &host,
        "deed01".to_string(),
        5,
    );
    let (_, ev) = s.join(&user("p1", "Alice"), 6).unwrap();
    match ev.unwrap().typ {
        PlayerActionType::Join { new_players_count } => assert_eq!(new_players_count, 1),
        other => panic!("unexpected event {:?}", other),
    }
    let (_, ev) = s.join(&user("p2", "Bob"), 7).unwrap();
    match ev.unwrap().typ {
        PlayerActionType::Join { new_players_count } => assert_eq!(new_players_count, 2),
        other => panic!("unexpected event {:?}", other),
    }
    assert_eq!(s.game.active_at, 7);
}

#[test]
fn host_cannot_join_their_own_game() {
    let mut s = abc_session(None, None);
    let err = s.join(&user("host", "Host"), 2000).unwrap_err();
    assert_eq!(err.kind, ErrorKind::NotFound);
}

#[test]
fn clear_guesses_deletes_only_pending_rows() {
    let mut s = abc_session(None, None);
    s.guess_item(&"p1".to_string(), 1).unwrap();
    s.choose_item(&"host".to_string(), 1).unwrap();
    s.guess_item(&"p1".to_string(), 2).unwrap();
    s.guess_item(&"p2".to_string(), 2).unwrap();
    assert_eq!(s.guesses.len(), 3);
    let a = s.clear_guesses(&"host".to_string()).unwrap();
    assert_eq!(a.typ, HostActionType::ClearGuesses);
    // the stamped guess from the resolved round stays, the pending two go
    assert_eq!(s.guesses.len(), 1);
    assert!(s.guesses[0].outcome_id.is_some());
}

#[test]
fn finish_names_every_top_scorer() {
    let mut s = abc_session(None, Some("<USER> won with <POINTS> of <TOTAL> drops"));
    s.guess_item(&"p1".to_string(), 1).unwrap();
    s.guess_item(&"p2".to_string(), 1).unwrap();
    s.choose_item(&"host".to_string(), 1).unwrap();
    let out = s.finish(&"host".to_string()).unwrap();
    assert_eq!(s.game.status, GameStatus::Finished);
    // both players tie at one point: both win
    assert_eq!(out.winners.len(), 2);
    assert_eq!(out.winners[0].game_player_id, s.players[0].game_player_id);
    assert_eq!(out.winners[1].game_player_id, s.players[1].game_player_id);
    assert_eq!(s.winners.len(), 2);
    assert_eq!(out.messages.len(), 2);
    assert_eq!(out.messages[0].message, "Alice won with 1 of 1 drops");
    assert_eq!(out.messages[1].message, "Bob won with 1 of 1 drops");
    assert_eq!(out.event.typ, HostActionType::Finish);
    // finishing twice is refused: the game is no longer active
    let err = s.finish(&"host".to_string()).unwrap_err();
    assert_eq!(err.kind, ErrorKind::NotFound);
}

#[test]
fn zero_point_game_has_no_winners() {
    let mut s = abc_session(None, None);
    let out = s.finish(&"host".to_string()).unwrap();
    assert!(out.winners.is_empty());
    assert!(out.messages.is_empty());
    assert!(s.winners.is_empty());
}

#[test]
fn finish_picks_only_the_maximum() {
    let mut s = abc_session(None, None);
    s.guess_item(&"p1".to_string(), 1).unwrap();
    s.guess_item(&"p2".to_string(), 1).unwrap();
    s.choose_item(&"host".to_string(), 1).unwrap();
    // second round: only p1 guesses right
    s.guess_item(&"p1".to_string(), 2).unwrap();
    s.choose_item(&"host".to_string(), 2).unwrap();
    assert_eq!(s.players[0].points, 2);
    assert_eq!(s.players[1].points, 1);
    let out = s.finish(&"host".to_string()).unwrap();
    assert_eq!(out.winners.len(), 1);
    assert_eq!(out.winners[0].game_player_id, s.players[0].game_player_id);
}

#[test]
fn board_queries_reflect_the_session() {
    let mut s = abc_session(None, None);
    s.guess_item(&"p1".to_string(), 1).unwrap();
    s.guess_item(&"p2".to_string(), 1).unwrap();
    assert_eq!(s.players_count(), 2);
    assert_eq!(s.drops_count(), 0);
    assert_eq!(s.lead_points(), 0);
    assert!(s.any_guesses());
    assert_eq!(s.count_pending_guesses_on(1), 2);
    assert_eq!(s.count_pending_guesses_on(2), 0);
    let board = s.items_with_guess_counts();
    assert_eq!(board.len(), 3);
    assert_eq!(board[0].guess_count, Some(2));
    assert_eq!(board[1].guess_count, None);
    s.choose_item(&"host".to_string(), 1).unwrap();
    assert_eq!(s.drops_count(), 1);
    assert_eq!(s.lead_points(), 1);
    assert!(!s.any_guesses());
    let leaders = s.leaders();
    assert_eq!(leaders, vec!["Alice".to_string(), "Bob".to_string()]);
    assert_eq!(snowy::engine::join_names(&leaders), "Alice, Bob");
}

#[test]
fn finished_game_refuses_host_and_player_actions() {
    let mut s = abc_session(None, None);
    s.finish(&"host".to_string()).unwrap();
    assert_eq!(s.lock(&"host".to_string()).unwrap_err().kind, ErrorKind::NotFound);
    assert_eq!(s.unlock(&"host".to_string()).unwrap_err().kind, ErrorKind::NotFound);
    assert_eq!(s.enable_item(&"host".to_string(), 3).unwrap_err().kind, ErrorKind::NotFound);
    assert_eq!(s.disable_item(&"host".to_string(), 1).unwrap_err().kind, ErrorKind::NotFound);
    assert_eq!(s.choose_item(&"host".to_string(), 1).unwrap_err().kind, ErrorKind::NotFound);
    assert_eq!(s.clear_guesses(&"host".to_string()).unwrap_err().kind, ErrorKind::NotFound);
    assert_eq!(s.guess_item(&"p1".to_string(), 1).unwrap_err().kind, ErrorKind::NotFound);
}

#[test]
fn joined_player_can_still_open_a_finished_game() {
    let mut s = abc_session(None, None);
    s.finish(&"host".to_string()).unwrap();
    // an existing player still gets their row back, with no event
    let (row, ev) = s.join(&user("p1", "Alice"), 3000).unwrap();
    assert_eq!(row.user_id, "p1");
    assert!(ev.is_none());
    // a stranger cannot join a finished game
    let err = s.join(&user("p9", "Zoe"), 3000).unwrap_err();
    assert_eq!(err.kind, ErrorKind::NotFound);
}

#[test]
fn changing_a_guess_updates_both_item_counts() {
    let mut s = abc_session(None, None);
    s.guess_item(&"p1".to_string(), 1).unwrap();
    s.guess_item(&"p2".to_string(), 1).unwrap();
    // p2 moves from A to B: A keeps p1's guess, B gains p2's
    let up = s.guess_item(&"p2".to_string(), 2).unwrap();
    assert_eq!(
        up.events[0].typ,
        PlayerActionType::UndoGuess { item_id: 1, new_guess_count: 1 }
    );
    assert_eq!(up.events[1].typ, PlayerActionType::Guess { item_id: 2, new_guess_count: 1 });
    assert_eq!(s.count_pending_guesses_on(1), 1);
    assert_eq!(s.count_pending_guesses_on(2), 1);
}
