//! Content windows and their control windows.

pub mod command;
pub mod ctrl;
pub mod event;
pub mod pair;
pub mod persist;
pub mod util;
