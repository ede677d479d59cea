//! A terminal emulator core: an escape-sequence decoder and the terminal
//! state engine that applies decoded actions to a model of the screen.

pub mod cell;
pub mod color;
pub mod engine;
pub mod escape;
pub mod fmt;
pub mod host;
pub mod hyperlink;
pub mod image;
pub mod input;
pub mod laws;
pub mod lexer;
pub mod line;
pub mod model;
pub mod parser;
pub mod performer;
pub mod renderable;
pub mod reply;
pub mod screen;
pub mod selection;
pub mod tabstop;
pub mod terminal;
pub mod terminalstate;
pub mod text;
pub mod views;
