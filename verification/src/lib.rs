//! Streak bookkeeping for the OPES Unite streak program: the rewards table,
//! the daily streak evaluation, the attribution rules of the backend and the
//! decision logic of the web client.
pub mod rewards_program;
pub mod instant;
pub mod streak_logic;
pub mod ws;
pub mod text;
pub mod attribution;
pub mod scan_session;
pub mod member;
pub mod jwt;
pub mod sessions;
pub mod client;
