use snowy::decimal::u64_to_decimal;
use snowy::engine::join_names;
use snowy::errors::AppError;
use snowy::errors::ErrorKind;
use snowy::events::host_view_event;
use snowy::events::player_view_event;
use snowy::events::HostAction;
use snowy::events::HostActionType;
use snowy::events::PlayerAction;
use snowy::events::PlayerActionType;
use snowy::models::SessionAuthWithUser;
use snowy::models::GameStatus;
use snowy::template::render_reward_message;
use snowy::template::render_total_reward_message;
use snowy::template::replace_marker;
use snowy::views::select_game_view;
use snowy::views::select_join_view;
use snowy::views::GameView;
use snowy::views::JoinView;

#[test]
fn decimal_rendering_is_exact() {
    assert_eq!(u64_to_decimal(0), "0");
    assert_eq!(u64_to_decimal(7), "7");
    assert_eq!(u64_to_decimal(10), "10");
    assert_eq!(u64_to_decimal(120), "120");
    assert_eq!(u64_to_decimal(u64::MAX), "18446744073709551615");
}

#[test]
fn replace_marker_replaces_every_occurrence() {
    assert_eq!(replace_marker("a<X>b<X>c", "<X>", "-"), "a-b-c");
    assert_eq!(replace_marker("<X><X>", "<X>", "yo"), "yoyo");
    assert_eq!(replace_marker("nothing here", "<X>", "-"), "nothing here");
    assert_eq!(replace_marker("", "<X>", "-"), "");
    // the replacement is never rescanned
    assert_eq!(replace_marker("<X>", "<X>", "<X><X>"), "<X><X>");
}

#[test]
fn reward_message_substitutes_name_and_item() {
    let m = render_reward_message("Congrats <USER>, <ITEM> dropped!", "Alice", "Sword");
    assert_eq!(m, "Congrats Alice, Sword dropped!");
}

#[test]
fn total_reward_message_substitutes_points_and_total() {
    let m = render_total_reward_message(
        "<USER> won with <POINTS> points out of <TOTAL> drops",
        "Bob",
        3,
        5,
    );
    assert_eq!(m, "Bob won with 3 points out of 5 drops");
}

#[test]
fn join_names_uses_comma_separators() {
    assert_eq!(join_names(&vec![]), "");
    assert_eq!(join_names(&vec!["A".to_string()]), "A");
    assert_eq!(join_names(&vec!["A".to_string(), "B".to_string(), "C".to_string()]), "A, B, C");
}

#[test]
fn host_view_events_are_named_per_item() {
    let ev = host_view_event(&PlayerAction {
        game_code: "abc123".to_string(),
        user_id: "p1".to_string(),
        typ: PlayerActionType::Guess { item_id: 12, new_guess_count: 3 },
    });
    assert_eq!(ev.name, "guesses_12");
    assert_eq!(ev.data, "3");
    let ev = host_view_event(&PlayerAction {
        game_code: "abc123".to_string(),
        user_id: "p1".to_string(),
        typ: PlayerActionType::UndoGuess { item_id: 7, new_guess_count: 0 },
    });
    assert_eq!(ev.name, "guesses_7");
    assert_eq!(ev.data, "0");
    let ev = host_view_event(&PlayerAction {
        game_code: "abc123".to_string(),
        user_id: "p1".to_string(),
        typ: PlayerActionType::Join { new_players_count: 4 },
    });
    assert_eq!(ev.name, "players_count");
    assert_eq!(ev.data, "4");
    let ev = host_view_event(&PlayerAction {
        game_code: "abc123".to_string(),
        user_id: "p1".to_string(),
        typ: PlayerActionType::EnableClearGuesses,
    });
    assert_eq!(ev.name, "enable_clear_guesses");
    assert_eq!(ev.data, "");
}

#[test]
fn player_view_events_force_refresh_only_on_finish() {
    let finish = player_view_event(&HostAction {
        game_code: "abc123".to_string(),
        typ: HostActionType::Finish,
    });
    assert_eq!(finish.name, "force_refresh");
    for typ in [
        HostActionType::Lock,
        HostActionType::Unlock,
        HostActionType::Choose { item_id: 1 },
        HostActionType::Enable { item_id: 1 },
        HostActionType::Disable { item_id: 1 },
        HostActionType::ClearGuesses,
    ] {
        let ev = player_view_event(&HostAction { game_code: "abc123".to_string(), typ });
        assert_eq!(ev.name, "host_action");
        assert_eq!(ev.data, "");
    }
}

#[test]
fn split_separates_user_from_session() {
    let joined = SessionAuthWithUser {
        id: 9,
        sid: "sid-1".to_string(),
        user_id: "u1".to_string(),
        access_token: "SECRET-REDACTED".to_string(),
        refresh_token: "SECRET-REDACTED".to_string(),
        created_at: 100,
        expiry: 200,
        can_chat: true,
        username: "Alice".to_string(),
        twitch_login: "alice".to_string(),
    };
    let (user, auth) = joined.split();
    assert_eq!(user.user_id, "u1");
    assert_eq!(user.username, "Alice");
    assert_eq!(user.twitch_login, "alice");
    assert_eq!(auth.id, 9);
    assert_eq!(auth.sid, "sid-1");
    assert_eq!(auth.user_id, "u1");
    assert_eq!(auth.created_at, 100);
    assert_eq!(auth.expiry, 200);
    assert!(auth.can_chat);
}

#[test]
fn error_kinds_carry_their_messages() {
    let e = AppError::not_found("Game not found".to_string());
    assert_eq!(e.kind, ErrorKind::NotFound);
    assert_eq!(e.describe(), "Game not found");
    let e = AppError::invalid_state("Item is disabled".to_string());
    assert_eq!(e.kind, ErrorKind::InvalidState);
    let e = AppError::upstream("storage unreachable".to_string());
    assert_eq!(e.kind, ErrorKind::Upstream);
    assert_eq!(e.describe(), "storage unreachable");
}

#[test]
fn join_view_decision_tree() {
    assert_eq!(select_join_view(false, true, true), JoinView::RedirectHome);
    assert_eq!(select_join_view(true, false, false), JoinView::RedirectHome);
    assert_eq!(select_join_view(true, true, true), JoinView::RedirectGame);
    assert_eq!(select_join_view(true, true, false), JoinView::JoinPage);
}

#[test]
fn game_view_decision_tree() {
    assert_eq!(
        select_game_view(true, true, false, false, GameStatus::Active, false),
        GameView::RedirectJoin
    );
    assert_eq!(
        select_game_view(false, true, true, true, GameStatus::Active, false),
        GameView::RedirectHome
    );
    assert_eq!(
        select_game_view(true, true, true, true, GameStatus::Active, false),
        GameView::HostBoard
    );
    assert_eq!(
        select_game_view(true, true, true, false, GameStatus::Active, false),
        GameView::PlayerBoard
    );
    assert_eq!(
        select_game_view(true, true, true, true, GameStatus::Finished, false),
        GameView::FinishedHostBoard
    );
    assert_eq!(
        select_game_view(true, true, true, false, GameStatus::Finished, true),
        GameView::FinishedPlayerBoard
    );
    assert_eq!(
        select_game_view(true, true, true, false, GameStatus::Finished, false),
        GameView::RedirectHome
    );
}
