//! Speed control core of a system-wide playback-rate remote: rule tables for
//! desktop players, exact-rate key plans, rate ladders, site rules, per-app rate
//! memory, player control-channel codecs and hotkey decisions.

pub mod state;
pub mod clients;
pub mod commands;
pub mod grid;
pub mod hotkey;
pub mod input;
pub mod ipc;
pub mod ladder;
pub mod mpc_hc;
pub mod nm;
pub mod potplayer;
pub mod rate;
pub mod router;
pub mod rules;
pub mod settings;
pub mod sites;
pub mod text;
pub mod update;
pub mod window;

