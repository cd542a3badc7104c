//! The decision logic of the web client.
pub mod api;
pub mod route;
pub mod token;
pub mod app;
pub mod clock;
pub mod flash;
pub mod menu;
pub mod qrcode;
