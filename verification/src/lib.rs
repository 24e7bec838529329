//! Terminal client state machine for an AI coding agent.
#![allow(unused_imports)]

use vstd::prelude::*;

pub mod event;
pub mod text;
pub mod chat;
pub mod model;
pub mod app;
pub mod key_chord;
pub mod prompt_bar;
pub mod screen;
pub mod command_palette;
pub mod user_work;
pub mod modal;
pub mod transcript;
pub mod part_renderer;
pub mod backend_ops;

verus! {

} // verus!
