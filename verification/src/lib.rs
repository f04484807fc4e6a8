//! The decisions behind bindings to the Node Webkit host, verified.
//!
//! A binding to the host does little more than pass values on, and yet it
//! decides a few things on the way: which fields an options dictionary holds
//! after a chain of setters, which of the host's entry points a call reaches
//! when arguments are optional, what becomes of a list of the host whose items
//! are not what was asked for, and whether a record of the host can be decoded.
//! This crate holds those decisions apart from the host. Values of the host
//! are plain data here ([`value::Value`]), a call to the host is a value that
//! says what to call and with what, and every function states in its contract
//! what it gives.

pub mod app;
pub mod chrome;
pub mod clipboard;
pub mod error;
pub mod menu;
pub mod menu_item;
pub mod number;
pub mod nw;
pub mod options;
pub mod prelude;
pub mod result;
pub mod screen;
pub mod shortcut;
pub mod text;
pub mod tray;
pub mod utils;
pub mod value;
pub mod window;

pub use chrome::notifications;
pub use clipboard::Clipboard;
pub use nw::is_nw;
pub use nw::try_nw;
pub use window::Window;
