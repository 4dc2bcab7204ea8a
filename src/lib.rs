//! Core of a photography portfolio backend: Google sign-in, first-login user
//! provisioning against an allow-list, and signed session tokens.

pub mod text;
pub mod ids;
pub mod clock;
pub mod models;
pub mod token;
pub mod provisioning;
pub mod google;
pub mod login;
pub mod migrations;
pub mod connection;
pub mod contact;
pub mod cors;
pub mod uploads;
