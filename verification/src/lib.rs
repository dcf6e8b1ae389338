pub mod widget;
pub mod render;
pub mod event;
pub mod native_ui;
pub mod search;
pub mod dbus;
pub mod laws;
