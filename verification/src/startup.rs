//! The settings the server starts from and the application they make.
use vstd::prelude::*;

verus! {

/// Where the HTTP server listens.
#[derive(Clone, Debug)]
pub struct ApplicationSettings {
    pub host: String,
    pub port: u16,
}

/// How to reach the Postgres database.
#[derive(Clone, Debug)]
pub struct DatabaseSettings {
    pub username: String,
    pub password: String,
    pub host: String,
    pub port: u16,
    pub database_name: String,
}

/// How to reach Redis, which holds the sessions, and how sessions behave:
/// whether their cookie is marked secure, and after how many seconds of
/// inactivity they expire.
#[derive(Clone, Debug)]
pub struct RedisSettings {
    pub host: String,
    pub port: u16,
    pub secure: bool,
    pub expiry_duration: i64,
}

/// All the settings of the server.
#[derive(Clone, Debug)]
pub struct Configuration {
    pub application: ApplicationSettings,
    pub database: DatabaseSettings,
    pub redis: RedisSettings,
}

/// The application, before its router is built.
pub struct Application {
    config: Configuration,
}

impl Application {
    /// The settings the application was made with.
    pub closed spec fn spec_config(&self) -> Configuration {
        self.config
    }

    pub fn new(configuration: Configuration) -> (app: Application)
        ensures
            app.spec_config() == configuration,
    {
        Application { config: configuration }
    }

    pub fn config(&self) -> (c: &Configuration)
        ensures
            *c == self.spec_config(),
    {
        &self.config
    }
}

} // verus!
