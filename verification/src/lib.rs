//! Window-pair bookkeeping for a desktop shell that shows web content in
//! bare content windows, each paired with a small floating control window.
//!
//! The library holds the registry of pairs, the rules by which a pair is
//! created, styled, kept in step with its control window and torn down, and
//! the projection of the registry into the persisted configuration. It never
//! touches a window itself: every function either reads the state, or turns a
//! command or an event into the next state and the work to be asked of the
//! windowing system.

pub mod address;
pub mod conf;
pub mod derive_util;
pub mod error;
pub mod registry;
pub mod text;
pub mod util;
pub mod view;
