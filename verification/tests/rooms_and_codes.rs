use snowy::codes::code_is_free;
use snowy::codes::generate_game_code;
use snowy::codes::GAME_CODE_LENGTH;
use snowy::registry::RoomRegistry;

#[test]
fn same_code_yields_the_same_channel_pair() {
    let mut reg = RoomRegistry::new();
    let a = reg.get_or_create_room(&"abc123".to_string());
    let b = reg.get_or_create_room(&"abc123".to_string());
    // every caller for one room observes the one pair created first
    assert_eq!(a, b);
    assert_eq!(reg.rooms.len(), 1);
    let c = reg.get_or_create_room(&"def456".to_string());
    assert_ne!(a.to_host, c.to_host);
    assert_ne!(a.to_players, c.to_players);
    assert_ne!(a.to_host, a.to_players);
    let again = reg.get_or_create_room(&"abc123".to_string());
    assert_eq!(a, again);
    assert_eq!(reg.rooms.len(), 2);
}

#[test]
fn remove_room_evicts_only_that_room() {
    let mut reg = RoomRegistry::new();
    let a = reg.get_or_create_room(&"abc123".to_string());
    reg.get_or_create_room(&"def456".to_string());
    assert!(reg.remove_room(&"abc123".to_string()));
    assert_eq!(reg.rooms.len(), 1);
    assert_eq!(reg.rooms[0].code, "def456");
    // removing again reports nothing removed
    assert!(!reg.remove_room(&"abc123".to_string()));
    // a later access creates a fresh pair
    let a2 = reg.get_or_create_room(&"abc123".to_string());
    assert_ne!(a, a2);
}

#[test]
fn code_is_free_detects_collisions() {
    let existing = vec!["abc123".to_string(), "def456".to_string()];
    assert!(!code_is_free(&"abc123".to_string(), &existing));
    assert!(!code_is_free(&"def456".to_string(), &existing));
    assert!(code_is_free(&"abc124".to_string(), &existing));
    assert!(code_is_free(&"".to_string(), &vec![]));
}

#[test]
fn generated_code_is_well_formed_and_fresh() {
    let existing = vec!["abc123".to_string(), "000000".to_string()];
    for _ in 0..32 {
        let code = generate_game_code(&existing, 64).expect("a code should be found");
        assert_eq!(code.len(), GAME_CODE_LENGTH);
        assert!(code.chars().all(|c| "1234567890abcdef".contains(c)));
        assert!(!existing.contains(&code));
    }
}

#[test]
fn generation_without_attempts_yields_nothing() {
    assert!(generate_game_code(&vec![], 0).is_none());
}
