use elevate::auth::{prepare_signup, Credentials, User};
use elevate::game::{
    game_event_finish, game_event_start, game_summary_finish, game_summary_start, games_played,
    CountLookup, GameEventStep, GamePayload, NewGame, SummaryReply, SummaryStep,
};
use elevate::http::Status;

fn signed_up_user(email: &str) -> User {
    prepare_signup(&Credentials { email: email.to_string(), password: "password123".to_string() })
}

fn count_for(rows: &[NewGame], user_id: u128) -> CountLookup {
    let n = rows.iter().filter(|g| g.user_id == user_id).count() as i64;
    CountLookup::Row(Some(n))
}

fn summary_total(user: &User, lookup: CountLookup) -> i64 {
    let user = match game_summary_start(Some(user.clone())) {
        SummaryStep::CountGames(u) => u,
        SummaryStep::Reply(_) => panic!("a logged-in user gets a summary"),
    };
    match game_summary_finish(user.clone(), lookup) {
        SummaryReply::Body(body) => {
            assert_eq!(body.user.id, user.user_id);
            assert_eq!(body.user.email, user.email);
            body.user.stats.total_games_played
        }
        SummaryReply::Reply(s) => panic!("unexpected status {:?}", s),
    }
}

fn record(user: &User, occurred_at: i64) -> NewGame {
    match game_event_start(Some(user.clone()), &GamePayload { occurred_at }) {
        GameEventStep::Record(game) => game,
        GameEventStep::Reply(s) => panic!("unexpected status {:?}", s),
    }
}

#[test]
fn auth_test_user_with_no_game_entry() {
    let user = signed_up_user("test-frank@example.com");
    let rows: Vec<NewGame> = Vec::new();
    assert_eq!(summary_total(&user, count_for(&rows, user.user_id)), 0);
    assert_eq!(summary_total(&user, CountLookup::NoRow), 0);
    assert_eq!(summary_total(&user, CountLookup::Row(None)), 0);
}

#[test]
fn auth_test_user_with_game_entries() {
    let user = signed_up_user("test-grace@example.com");
    let mut rows: Vec<NewGame> = Vec::new();
    let game = record(&user, 1724201459825);
    assert_eq!(game.user_id, user.user_id);
    assert_eq!(game.kind, "COMPLETED");
    assert_eq!(game.occurred_at, 1724201459825);
    rows.push(game);
    assert_eq!(game_event_finish(true), Status::Success);
    assert_eq!(game_event_finish(true).code(), 200);
    assert_eq!(summary_total(&user, count_for(&rows, user.user_id)), 1);
}

#[test]
fn recording_counts_only_for_its_user() {
    let a = signed_up_user("test-heidi@example.com");
    let b = signed_up_user("test-ivan@example.com");
    let mut rows: Vec<NewGame> = Vec::new();
    rows.push(record(&a, 10));
    rows.push(record(&a, 20));
    rows.push(record(&b, 30));
    assert_eq!(summary_total(&a, count_for(&rows, a.user_id)), 2);
    assert_eq!(summary_total(&b, count_for(&rows, b.user_id)), 1);
    rows.push(record(&a, 40));
    assert_eq!(summary_total(&a, count_for(&rows, a.user_id)), 3);
    assert_eq!(summary_total(&b, count_for(&rows, b.user_id)), 1);
}

#[test]
fn game_ids_are_fresh_random_uuids() {
    let user = signed_up_user("test-judy@example.com");
    let g1 = record(&user, 1);
    let g2 = record(&user, 1);
    assert_ne!(g1.game_id, g2.game_id);
    assert_eq!(g1.game_id & 0xF000_C000_0000_0000_0000u128, 0x4000_8000_0000_0000_0000u128);
}

#[test]
fn game_event_without_user_is_forbidden() {
    match game_event_start(None, &GamePayload { occurred_at: 5 }) {
        GameEventStep::Reply(s) => {
            assert_eq!(s, Status::Forbidden);
            assert_eq!(s.code(), 403);
        }
        GameEventStep::Record(_) => panic!("no row without a user"),
    }
}

#[test]
fn summary_without_user_is_forbidden() {
    match game_summary_start(None) {
        SummaryStep::Reply(s) => assert_eq!(s.code(), 403),
        SummaryStep::CountGames(_) => panic!("no count without a user"),
    }
}

#[test]
fn failed_insert_and_failed_count_are_server_errors() {
    assert_eq!(game_event_finish(false).code(), 500);
    let user = signed_up_user("test-kim@example.com");
    match game_summary_finish(user, CountLookup::Failed) {
        SummaryReply::Reply(s) => assert_eq!(s, Status::InternalServerError),
        SummaryReply::Body(_) => panic!("no body when the count failed"),
    }
}

#[test]
fn games_played_reads_each_lookup() {
    assert_eq!(games_played(CountLookup::Row(Some(42))), Some(42));
    assert_eq!(games_played(CountLookup::Row(None)), Some(0));
    assert_eq!(games_played(CountLookup::NoRow), Some(0));
    assert_eq!(games_played(CountLookup::Failed), None);
}

#[test]
fn new_game_fixes_every_field() {
    let user = signed_up_user("test-liam@example.com");
    let game = elevate::game::new_game(&user, &GamePayload { occurred_at: 1724201459825 }, 77);
    assert_eq!(game.game_id, 77);
    assert_eq!(game.user_id, user.user_id);
    assert_eq!(game.kind, "COMPLETED");
    assert_eq!(game.occurred_at, 1724201459825);
}

#[test]
fn recording_k_games_adds_k() {
    let user = signed_up_user("test-noah@example.com");
    let other = signed_up_user("test-olga@example.com");
    let mut rows: Vec<NewGame> = vec![record(&other, 1)];
    let before = summary_total(&user, count_for(&rows, user.user_id));
    for _ in 0..5 {
        // identical payloads each count once
        rows.push(record(&user, 1724201459825));
    }
    assert_eq!(summary_total(&user, count_for(&rows, user.user_id)), before + 5);
    assert_eq!(summary_total(&other, count_for(&rows, other.user_id)), 1);
}
