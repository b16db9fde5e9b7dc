use elevate::http::{resolve, same_text, Endpoint, Method, Status};
use elevate::redis::RedisPool;
use elevate::startup::{
    Application, ApplicationSettings, Configuration, DatabaseSettings, RedisSettings,
};

#[test]
fn every_route_resolves_to_its_endpoint() {
    assert_eq!(resolve(Method::Get, "/api/user"), Some(Endpoint::GameSummary));
    assert_eq!(resolve(Method::Post, "/api/user"), Some(Endpoint::Signup));
    assert_eq!(resolve(Method::Post, "/api/user/game_events"), Some(Endpoint::GameEvent));
    assert_eq!(resolve(Method::Post, "/api/sessions"), Some(Endpoint::Login));
    for e in Endpoint::all() {
        assert_eq!(resolve(e.method(), e.path()), Some(e));
    }
}

#[test]
fn unknown_routes_resolve_to_nothing() {
    assert_eq!(resolve(Method::Get, "/api/sessions"), None);
    assert_eq!(resolve(Method::Get, "/api/user/game_events"), None);
    assert_eq!(resolve(Method::Post, "/api/users"), None);
    assert_eq!(resolve(Method::Get, ""), None);
}

#[test]
fn only_game_routes_require_login() {
    assert!(Endpoint::GameSummary.requires_login());
    assert!(Endpoint::GameEvent.requires_login());
    assert!(!Endpoint::Signup.requires_login());
    assert!(!Endpoint::Login.requires_login());
    assert_eq!(Endpoint::all().len(), 4);
}

#[test]
fn status_codes() {
    assert_eq!(Status::Success.code(), 200);
    assert_eq!(Status::Created.code(), 201);
    assert_eq!(Status::Unauthorized.code(), 401);
    assert_eq!(Status::Forbidden.code(), 403);
    assert_eq!(Status::InternalServerError.code(), 500);
}

#[test]
fn same_text_compares_characters() {
    assert!(same_text("", ""));
    assert!(same_text("été", "été"));
    assert!(!same_text("ete", "été"));
    assert!(!same_text("abc", "ab"));
}

#[test]
fn redis_probe_round_trip() {
    assert_eq!(RedisPool::probe_key(), "foo");
    assert_eq!(RedisPool::probe_value(), "bar");
    assert!(RedisPool::probe_answered("bar"));
    assert!(!RedisPool::probe_answered("baz"));
    assert!(!RedisPool::probe_answered(""));
}

#[test]
fn application_keeps_its_configuration() {
    let config = Configuration {
        application: ApplicationSettings { host: "127.0.0.1".to_string(), port: 8080 },
        database: DatabaseSettings {
            username: "postgres".to_string(),
            password: "password".to_string(),
            host: "localhost".to_string(),
            port: 5432,
            database_name: "elevate".to_string(),
        },
        redis: RedisSettings { host: "localhost".to_string(), port: 6379, secure: false, expiry_duration: 120 },
    };
    let app = Application::new(config);
    assert_eq!(app.config().application.port, 8080);
    assert_eq!(app.config().application.host, "127.0.0.1");
    assert_eq!(app.config().database.database_name, "elevate");
    assert_eq!(app.config().redis.expiry_duration, 120);
    assert!(!app.config().redis.secure);
}
