//! Verified core of a Discord bot that collects votes for lunch-box shops,
//! keeps a per-server shop list and hands the result to a roulette service.

pub mod shop;
pub mod roulette;
pub mod bento;
pub mod command;
pub mod config;
