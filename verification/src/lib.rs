//! Decision logic of a multi-client game automation panel: key-name tables,
//! text parsing of chat lines, reply throttling and the per-client bot state
//! machine, each stated over mathematical models and proved with Verus.
use vstd::prelude::*;

pub mod clock;
pub mod text;
pub mod num;
pub mod vk_codes;
pub mod pm_parse;
pub mod pm_ai;
pub mod regions;
pub mod runner;
pub mod schedule;
pub mod hw;
pub mod lang;
pub mod config;
pub mod client_params;
pub mod manager;
pub mod remote;
pub mod random;
pub mod learner;
pub mod login;
pub mod presets;
pub mod stats;
pub mod start_command;
pub mod pixels;

verus! {
} // verus!
