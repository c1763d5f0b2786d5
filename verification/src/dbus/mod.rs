//! Session D-Bus logic: the StatusNotifierWatcher's registration rules, the
//! DBusMenu layout parser and the StatusNotifierItem helpers.

pub mod item;
pub mod menu;
pub mod watcher;
