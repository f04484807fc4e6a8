//! Bindings of the browser's own namespace.

pub mod notifications;
