//! Core of an interactive console for the kernel's loadable modules: the
//! module registry and its selection, the staged mutation commands, the
//! kernel log window and the key-driven application state machine.

pub mod text;
pub mod style;
pub mod cmd;
pub mod app;
pub mod log;
pub mod size;
pub mod modules;
pub mod info;
pub mod widgets;
pub mod event;
pub mod kernel;
pub mod color;
pub mod view;
