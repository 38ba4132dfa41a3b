//! The engine of a keyboard-driven image sorter. It finds the images to sort
//! in what the file system showed, binds keys to folders, keeps the queue of
//! pending actions with its undo, and renders that queue as a shell script.
//! Nothing here touches the file system or the terminal: the caller reads,
//! draws and writes, and hands over what it read.
//!
//! The session is [`app::App`]; what it is as a mathematical value, and what
//! holds of every run of pushes and undos, is in [`session`].

pub mod action;
pub mod app;
pub mod binding;
pub mod discover;
pub mod event;
pub mod image_display;
pub mod input;
pub mod keymap;
pub mod number;
pub mod paths;
pub mod prompt;
pub mod screen;
pub mod script;
pub mod session;
pub mod shorten;
pub mod text;
