//! Decision logic of a tray-resident desktop shell: where the start-up
//! configuration is looked for and how it is read, how a window's saved
//! layout is merged with its defaults, and how menu, tray and second-launch
//! signals are turned into actions on the primary window.
//!
//! Nothing here touches the file system or a window: callers read files and
//! drive windows, and hand the library plain values.

pub mod json;
pub mod text;
pub mod config;
pub mod window_state;
pub mod window;
pub mod routing;
