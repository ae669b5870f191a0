//! Parish — the verified core of an Irish living-world text adventure.
//!
//! The modules hold the game's rules: NPC schedules, memory and gossip,
//! cognitive tiers, the ambient sound catalog, provider configuration,
//! model selection and the text protocols spoken with language models.

pub mod world;
pub mod app;
pub mod text;
pub mod fmt;
pub mod error;
pub mod config;
pub mod npc;
pub mod memory;
pub mod schedule;
pub mod gossip;
pub mod catalog;
pub mod setup;
pub mod loading;
pub mod tier;
pub mod debug_panel;
pub mod debug;
pub mod screenshot;
pub mod osm;
pub mod cache;
pub mod relationship;
pub mod inference;
pub mod action;
pub mod input;
pub mod gpu;
pub mod categories;
pub mod commands;
pub mod session;
pub mod play;
pub mod roster;
pub mod journal;
pub mod theme;
