//! Sign-up, log-in and game-event bookkeeping for the Elevate API, with the
//! decisions that its HTTP handlers take stated and proved.

pub mod auth;
pub mod game;
pub mod http;
pub mod ids;
pub mod redis;
pub mod startup;
