//! A collection of small systems programs, each kept in a module of its own
//! and stated with machine-checked contracts.

pub mod actionkv;
pub mod chip8_emu;
pub mod file_sim;
pub mod mget;
pub mod pipeviewer;
pub mod progress_iter;
pub mod retro_chat;
pub mod rust_jwt;
pub mod text;

