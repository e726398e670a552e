//! The state of the shell: the record of each window pair and the persisted
//! configuration.

pub mod state;

pub use self::state::{AppState, Conf, SAppState, SWindowData, WindowData, CONFIGFILE_NAME};
pub use crate::error::ErrToString;
