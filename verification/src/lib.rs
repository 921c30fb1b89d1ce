//! Verified core of a keyboard-driven package manager front end for pacman
//! and AUR helpers: package lists, filtering and sorting, key handling,
//! configuration, themes and text processing.
use vstd::prelude::*;

pub mod text;
pub mod package;
pub mod sort;
pub mod theme;
pub mod app;
pub mod handlers;
pub mod config;
pub mod loader;
pub mod actions;
pub mod events;
pub mod wiki;
pub mod display;
pub mod view;

verus! {

} // verus!
