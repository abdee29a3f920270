//! Core of a daily rating reminder service: a registry of users with a
//! preferred notification hour, an append-only repository of per-day rating
//! records keyed by (chat, message handle), a scheduler that decides which
//! users are due at each minute tick, and the state machine that maps inbound
//! rank / edit callbacks onto the matching record.

pub mod user;
pub mod rank_day;
pub mod db;
pub mod schedule;
pub mod interact;
pub mod calendar;
