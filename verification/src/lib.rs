//! Blackguard: a verified rules engine for the solo card game Scoundrel.

pub mod app;
pub mod card;
pub mod cli;
pub mod deck;
pub mod game;
pub mod help;
pub mod laws;
pub mod rules;
pub mod stats;
pub mod text;
