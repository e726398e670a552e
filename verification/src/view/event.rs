//! What the windowing system reports of a pair, what is asked of it in
//! return, and what the user interface is told.

use vstd::prelude::*;
use crate::error::Error;
use crate::util::state::SWindowData;
use crate::view::util::Position;

verus! {

/// What tells the user interface that the registry has changed: the
/// snapshot of every record.
#[derive(Debug)]
pub struct UpdateState(pub Vec<SWindowData>);

/// What tells the user interface to ask for the window pairs anew.
#[derive(Debug)]
pub struct UpdateWindows(pub ());

/// What the windowing system reports of a content window.
#[derive(Debug, Clone, Copy, PartialEq, Eq, Structural)]
pub enum Event {
    /// The window stands at a new position.
    Moved(Position),
    /// The window has a new size.
    Resized,
    /// The window gained the focus (`true`) or lost it (`false`).
    Focused(bool),
    /// The user asked for the window to be closed.
    CloseRequested,
    /// The window is gone.
    Destroyed,
}

/// Which of the two windows of a pair report that they have the focus, at
/// the moment an event is handled.
#[derive(Debug, Clone, Copy, PartialEq, Eq, Structural)]
pub struct Focus {
    pub content: bool,
    pub ctrl: bool,
}

/// One piece of work for the windowing system, on the pair that the step
/// was made for.
#[derive(Debug, Clone, Copy, PartialEq, Eq, Structural)]
pub enum Action {
    /// Close the control window.
    CloseCtrl,
    /// Close the content window.
    CloseContent,
    /// Show the control window.
    ShowCtrl,
    /// Hide the control window.
    HideCtrl,
    /// Give the content window the focus.
    FocusContent,
    /// Put the control window at the position.
    MoveCtrl(Position),
    /// Read where the content window stands and report it as moved.
    AlignCtrl,
    /// Read the user agent that the content window presents, and hand it in
    /// to be remembered.
    ProbeUserAgent,
    /// Tell the user interface that the registry has changed, and persist.
    Notify,
}

/// Where a pair stands in its life.
#[derive(Debug, Clone, Copy, PartialEq, Eq, Structural)]
pub enum PairState {
    /// Its windows are being opened; no record is kept of it yet.
    Creating,
    /// Both windows exist and its record is kept.
    Active,
    /// Its record has been taken out and its windows are being closed.
    Closing,
    /// Nothing is kept of it.
    Gone,
}

/// The outcome of one step in the life of a pair: where the pair stands
/// now, the work that is to be carried out in the given order whatever
/// becomes of each piece, and what the caller is told.
#[derive(Debug)]
pub struct Step {
    pub state: PairState,
    pub actions: Vec<Action>,
    pub result: Result<(), Error>,
}

} // verus!
