//! Core of a terminal directory browser: the typed, ordered listing of a
//! directory, its layout on a two-column paged grid, and the movement of the
//! focus over that grid.
//!
//! The library reads no directory and no key itself. Its caller reads a
//! directory and hands over what was read as a [`fms::DirProbe`]; it reads a
//! key and hands over the [`main_key_event::Command`] that the key stands for;
//! and it draws the state that [`app::App`] keeps.
//!
//! - [`fms`]: the entries of a directory and the listing made of them
//! - [`order`]: the order of a listing, and sorting into it
//! - [`width`], [`size`], [`clock`], [`text`]: the texts of a name, a size
//!   and a time
//! - [`paging`]: pages, columns and the steps of the focus
//! - [`app`]: the state of the browser
//! - [`main_key_event`]: what a command does to the state
//! - [`body`], [`header`], [`footer`]: what the parts of the screen show

pub mod app;
pub mod body;
pub mod clock;
pub mod fms;
pub mod footer;
pub mod header;
pub mod main_key_event;
pub mod order;
pub mod paging;
pub mod size;
pub mod text;
pub mod utils;
pub mod width;
