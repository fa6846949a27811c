use sc_log_analyzer::lookup::{
    canonical_player_key, field_text, LookupRequest, PlayerInfoCache, PlayerInfoResponse,
    PlayerInfoResult, PlayerInfoState,
};
use sc_log_analyzer::player_info::PlayerInfo;

fn s(text: &str) -> String {
    text.to_string()
}

fn info(location: &str) -> PlayerInfo {
    PlayerInfo { enlisted: None, location: Some(s(location)), fluency: None, main_organization: None }
}

fn success(key: &str, display: &str, location: &str) -> PlayerInfoResponse {
    PlayerInfoResponse { key: s(key), display_name: s(display), result: PlayerInfoResult::Success(info(location)) }
}

fn failure(key: &str, display: &str, why: &str) -> PlayerInfoResponse {
    PlayerInfoResponse { key: s(key), display_name: s(display), result: PlayerInfoResult::Error(s(why)) }
}

fn state_of(cache: &PlayerInfoCache, key: &str) -> Option<PlayerInfoState> {
    cache.get(key).map(|e| e.state.clone())
}

#[test]
fn key_is_trimmed_and_small() {
    assert_eq!(canonical_player_key("  BoB_1 "), "bob_1");
    assert_eq!(canonical_player_key("ÄB"), "Äb");
    assert_eq!(canonical_player_key("  "), "");
}

#[test]
fn new_cache_is_empty() {
    let cache = PlayerInfoCache::new();
    assert!(cache.get("bob").is_none());
    assert_eq!(cache.window(), None);
    assert_eq!(cache.window_title(), "Player info");
}

#[test]
fn opening_starts_one_lookup() {
    let mut cache = PlayerInfoCache::new();
    let first = cache.open_player_info("  Bob ");
    assert_eq!(first, Some(LookupRequest { key: s("bob"), display_name: s("Bob") }));
    assert_eq!(state_of(&cache, "bob"), Some(PlayerInfoState::Loading));
    assert_eq!(cache.window(), Some(&s("bob")));
    assert_eq!(cache.window_title(), "Player info — Bob");
    let second = cache.open_player_info("BOB");
    assert_eq!(second, None);
    assert_eq!(state_of(&cache, "bob"), Some(PlayerInfoState::Loading));
    match cache.get("bob") {
        Some(e) => {
            assert_eq!(e.display_name, "BOB");
            assert_eq!(e.key, "bob");
        }
        None => panic!("no entry"),
    }
}

#[test]
fn opening_a_blank_name_changes_nothing() {
    let mut cache = PlayerInfoCache::new();
    cache.open_player_info("Bob");
    assert_eq!(cache.open_player_info("   "), None);
    assert_eq!(cache.open_player_info(""), None);
    assert_eq!(cache.window(), Some(&s("bob")));
    assert!(cache.get("").is_none());
}

#[test]
fn answer_replaces_the_state() {
    let mut cache = PlayerInfoCache::new();
    cache.open_player_info("Bob");
    cache.receive(success("bob", "Bob", "Earth"));
    assert_eq!(state_of(&cache, "bob"), Some(PlayerInfoState::Loaded(info("Earth"))));
    assert_eq!(cache.open_player_info("Bob"), None);
    assert_eq!(state_of(&cache, "bob"), Some(PlayerInfoState::Loaded(info("Earth"))));
    cache.receive(failure("bob", "Bobby", "HTTP error: status 500"));
    assert_eq!(state_of(&cache, "bob"), Some(PlayerInfoState::Error(s("HTTP error: status 500"))));
    assert_eq!(cache.window_title(), "Player info — Bobby");
    let again = cache.open_player_info("bob");
    assert_eq!(again, Some(LookupRequest { key: s("bob"), display_name: s("bob") }));
    assert_eq!(state_of(&cache, "bob"), Some(PlayerInfoState::Loading));
}

#[test]
fn answer_for_an_unknown_key_is_taken_in() {
    let mut cache = PlayerInfoCache::new();
    cache.receive(success("carol", "Carol", "Mars"));
    assert_eq!(state_of(&cache, "carol"), Some(PlayerInfoState::Loaded(info("Mars"))));
    assert_eq!(cache.window(), None);
}

#[test]
fn last_answer_by_arrival_stays() {
    let mut cache = PlayerInfoCache::new();
    cache.poll_player_info_responses(vec![
        success("bob", "Bob", "Earth"),
        success("carol", "Carol", "Mars"),
        failure("bob", "Bob", "late"),
    ]);
    assert_eq!(state_of(&cache, "bob"), Some(PlayerInfoState::Error(s("late"))));
    assert_eq!(state_of(&cache, "carol"), Some(PlayerInfoState::Loaded(info("Mars"))));
    cache.poll_player_info_responses(Vec::new());
    assert_eq!(state_of(&cache, "bob"), Some(PlayerInfoState::Error(s("late"))));
}

#[test]
fn retry_returns_to_loading() {
    let mut cache = PlayerInfoCache::new();
    assert_eq!(cache.retry(), None);
    cache.open_player_info("Bob");
    assert_eq!(cache.retry(), None);
    cache.receive(success("bob", "Bob", "Earth"));
    let again = cache.retry();
    assert_eq!(again, Some(LookupRequest { key: s("bob"), display_name: s("Bob") }));
    assert_eq!(state_of(&cache, "bob"), Some(PlayerInfoState::Loading));
    assert_eq!(cache.retry(), None);
    cache.receive(failure("bob", "Bob", "x"));
    assert_eq!(cache.retry(), Some(LookupRequest { key: s("bob"), display_name: s("Bob") }));
}

#[test]
fn closing_the_window_keeps_the_entries() {
    let mut cache = PlayerInfoCache::new();
    cache.open_player_info("Bob");
    cache.close_window();
    assert_eq!(cache.window(), None);
    assert_eq!(cache.window_title(), "Player info");
    assert_eq!(state_of(&cache, "bob"), Some(PlayerInfoState::Loading));
    assert_eq!(cache.retry(), None);
}

#[test]
fn players_are_kept_apart() {
    let mut cache = PlayerInfoCache::new();
    assert!(cache.open_player_info("Bob").is_some());
    assert!(cache.open_player_info("Carol").is_some());
    assert!(cache.open_player_info("Dan").is_some());
    cache.receive(success("carol", "Carol", "Mars"));
    assert_eq!(state_of(&cache, "bob"), Some(PlayerInfoState::Loading));
    assert_eq!(state_of(&cache, "carol"), Some(PlayerInfoState::Loaded(info("Mars"))));
    assert_eq!(state_of(&cache, "dan"), Some(PlayerInfoState::Loading));
    assert_eq!(cache.window(), Some(&s("dan")));
}

#[test]
fn unknown_fields_say_so() {
    assert_eq!(field_text(Some(&s("Earth"))), "Earth");
    assert_eq!(field_text(None), "Unknown");
}
