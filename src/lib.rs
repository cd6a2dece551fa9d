//! Core of an interactive wallpaper picker: the catalog of images, the
//! selection cursor, the key-driven state machine and the setter commands.

pub mod catalog;
pub mod setters;
pub mod selection;
pub mod tui;
pub mod cli;
