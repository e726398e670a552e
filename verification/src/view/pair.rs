//! The life of a window pair: created, kept in step, closed.
//!
//! A pair is `Creating` from the moment its creation is accepted until both
//! of its windows exist, `Active` while its record is kept, `Closing` while
//! its windows are being closed, and `Gone` after that. Nothing here opens
//! or closes a window. Each function makes the change of state that belongs
//! to one step, and hands back the work that the step asks of the windowing
//! system.

use vstd::prelude::*;
use vstd::string::*;
use crate::error::Error;
use crate::registry::{
    added, has_label, holds_once, lemma_added, lemma_removed, record, registry_wf, removed,
};
use crate::util::state::{
    AppState, Conf, ConfView, Status, WindowData, WindowView, ALPHA_DEFAULT, ZOOM_DEFAULT,
};
use crate::view::ctrl::status_of;
use crate::view::event::{Action, Event, Focus, PairState, Step};
use crate::view::util::{ctrl_fits, window_pos, Position, OFFSET_X, OFFSET_Y};

verus! {

/// A pair that has been accepted for creation and whose windows are to be
/// opened.
#[derive(Debug)]
pub struct PendingPair {
    pub label: String,
    pub title: String,
    pub url: String,
}

/// A pending pair as plain values.
pub ghost struct PendingView {
    pub label: Seq<char>,
    pub title: Seq<char>,
    pub url: Seq<char>,
}

impl View for PendingPair {
    type V = PendingView;

    open spec fn view(&self) -> PendingView {
        PendingView { label: self.label@, title: self.title@, url: self.url@ }
    }
}

impl PendingView {
    /// The record that the pair gets once its windows exist.
    pub open spec fn record(self) -> WindowView {
        WindowView::fresh(self.title, self.label, self.url)
    }
}

impl PendingPair {
    /// Where a pending pair stands: its windows are being opened.
    pub fn state(&self) -> (r: PairState)
        ensures
            r == PairState::Creating,
    {
        PairState::Creating
    }
}

/// A step as plain values.
pub ghost struct StepView {
    pub state: PairState,
    pub actions: Seq<Action>,
    pub result: Result<(), Error>,
}

impl View for Step {
    type V = StepView;

    open spec fn view(&self) -> StepView {
        StepView { state: self.state, actions: self.actions@, result: self.result }
    }
}

/// The model of what a creation returned.
pub open spec fn pending_view(r: Result<PendingPair, Error>) -> Result<PendingView, Error> {
    match r {
        Ok(p) => Ok(p@),
        Err(e) => Err(e),
    }
}

/// The title that a pair gets: the one given, or none.
pub open spec fn title_of(title: Option<String>) -> Seq<char> {
    match title {
        Some(t) => t@,
        None => Seq::empty(),
    }
}

/// Whether a creation is accepted, once its address has been read: an
/// address that is none is refused first, then a label that is taken.
pub open spec fn create_plan(
    s: Seq<WindowView>,
    url: Result<Seq<char>, Error>,
    title: Seq<char>,
    label: Seq<char>,
) -> Result<PendingView, Error> {
    match url {
        Err(e) => Err(e),
        Ok(u) => if has_label(s, label) {
            Err(Error::DuplicateLabel)
        } else {
            Ok(PendingView { label, title, url: u })
        },
    }
}

/// Accepts the creation of a pair with the given label on the address
/// `url`, unless a pair has the label already. No window has been opened
/// when a creation is refused.
pub fn view_create<T>(state: &AppState<T>, url: String, title: Option<String>, label: String) -> (r:
    Result<PendingPair, Error>)
    ensures
        pending_view(r) == create_plan(state.windows@, Ok(url@), title_of(title), label@),
{
    if state.windows.contains(label.as_str()) {
        return Err(Error::DuplicateLabel);
    }
    let title = match title {
        Some(t) => t,
        None => String::new(),
    };
    Ok(PendingPair { label, title, url })
}

/// How the opening of the two windows of a pair went.
#[derive(Debug, Clone, Copy, PartialEq, Eq, Structural)]
pub enum Opening {
    /// Both windows exist.
    Opened,
    /// The content window could not be opened; the control window was not
    /// tried.
    ContentFailed,
    /// The content window exists, the control window could not be opened.
    CtrlFailed,
}

/// The registry after the windows of a pending pair were tried.
pub open spec fn opened_registry(s: Seq<WindowView>, p: PendingView, opening: Opening) -> Seq<
    WindowView,
> {
    if opening == Opening::Opened {
        added(s, p.record())
    } else {
        s
    }
}

/// The work that follows the creation of a pair: the user interface is
/// told, the control window is put beside the content window, and the user
/// agent is read where the configuration knows no mobile one.
pub open spec fn welcome(conf: ConfView) -> Seq<Action> {
    if conf.agent_mobile.len() == 0 {
        seq![Action::Notify, Action::AlignCtrl, Action::ProbeUserAgent]
    } else {
        seq![Action::Notify, Action::AlignCtrl]
    }
}

/// The step that closes a creation.
///
/// A pair whose control window could not be opened has its content window
/// closed again, so that no half of a pair is left. If the label has been
/// taken in the meantime, both windows are closed again.
pub open spec fn opened_step(s: Seq<WindowView>, conf: ConfView, p: PendingView, opening: Opening)
    -> StepView {
    match opening {
        Opening::ContentFailed => StepView {
            state: PairState::Gone,
            actions: seq![],
            result: Err(Error::OsOperationFailed),
        },
        Opening::CtrlFailed => StepView {
            state: PairState::Gone,
            actions: seq![Action::CloseContent],
            result: Err(Error::OsOperationFailed),
        },
        Opening::Opened => if has_label(s, p.label) {
            StepView {
                state: PairState::Gone,
                actions: seq![Action::CloseCtrl, Action::CloseContent],
                result: Err(Error::DuplicateLabel),
            }
        } else {
            StepView { state: PairState::Active, actions: welcome(conf), result: Ok(()) }
        },
    }
}

/// Closes the creation of `pending`, once the program has tried to open its
/// two windows. The record is entered only if both exist.
pub fn pair_opened(state: &mut AppState<Conf>, pending: PendingPair, opening: Opening) -> (r: Step)
    ensures
        final(state).windows@ == opened_registry(old(state).windows@, pending@, opening),
        r@ == opened_step(
            old(state).windows@,
            old(state).config.document()@,
            pending@,
            opening,
        ),
        final(state).config == old(state).config,
        registry_wf(final(state).windows@),
{
    state.windows.well_formed();
    let mut actions: Vec<Action> = Vec::new();
    match opening {
        Opening::ContentFailed => {
            assert(actions@ =~= seq![]);
            Step { state: PairState::Gone, actions, result: Err(Error::OsOperationFailed) }
        },
        Opening::CtrlFailed => {
            actions.push(Action::CloseContent);
            assert(actions@ =~= seq![Action::CloseContent]);
            Step { state: PairState::Gone, actions, result: Err(Error::OsOperationFailed) }
        },
        Opening::Opened => {
            let window = WindowData::new(pending.title, pending.label, pending.url);
            match state.windows.add(window) {
                Err(e) => {
                    actions.push(Action::CloseCtrl);
                    actions.push(Action::CloseContent);
                    assert(actions@ =~= seq![Action::CloseCtrl, Action::CloseContent]);
                    Step { state: PairState::Gone, actions, result: Err(Error::DuplicateLabel) }
                },
                Ok(()) => {
                    actions.push(Action::Notify);
                    actions.push(Action::AlignCtrl);
                    if state.config.get().agent_mobile.as_str().unicode_len() == 0 {
                        actions.push(Action::ProbeUserAgent);
                    }
                    assert(actions@ =~= welcome(state.config.document()@));
                    Step { state: PairState::Active, actions, result: Ok(()) }
                },
            }
        },
    }
}

/// The registry after an event of the content window of the pair with the
/// label: only a request to close changes it.
pub open spec fn event_registry(s: Seq<WindowView>, label: Seq<char>, event: Event) -> Seq<
    WindowView,
> {
    if event == Event::CloseRequested {
        removed(s, label)
    } else {
        s
    }
}

/// The work that keeps the control window in step with an active pair.
///
/// A content window that moved takes its control window along, to the left
/// of it by the fixed offset. One that gained the focus has its control
/// window shown and is given the focus back. One that lost it has its
/// control window hidden, unless one of the two windows has the focus now.
pub open spec fn follow(event: Event, focus: Focus) -> Seq<Action> {
    match event {
        Event::Moved(pos) => if pos.x - OFFSET_X >= i32::MIN {
            seq![
                Action::MoveCtrl(
                    Position { x: (pos.x - OFFSET_X) as i32, y: (pos.y - OFFSET_Y) as i32 },
                ),
            ]
        } else {
            seq![]
        },
        Event::Focused(gained) => if gained {
            seq![Action::ShowCtrl, Action::FocusContent]
        } else if !focus.content && !focus.ctrl {
            seq![Action::HideCtrl]
        } else {
            seq![]
        },
        _ => seq![],
    }
}

/// The step that closes a pair.
///
/// Both windows are to be closed whether or not a record is kept of the
/// pair. Where one is kept, it is taken out and the user interface is
/// told; where none is, the error says so.
pub open spec fn close_step(s: Seq<WindowView>, label: Seq<char>) -> StepView {
    if has_label(s, label) {
        StepView {
            state: PairState::Closing,
            actions: seq![Action::CloseCtrl, Action::CloseContent, Action::Notify],
            result: Ok(()),
        }
    } else {
        StepView {
            state: PairState::Gone,
            actions: seq![Action::CloseCtrl, Action::CloseContent],
            result: Err(Error::NotFound),
        }
    }
}

/// The step that an event of a content window leads to.
///
/// A request to close closes the pair. Every other event keeps an active
/// pair in step with its control window; of a pair that is gone it is an
/// error, and asks for nothing.
pub open spec fn event_step(s: Seq<WindowView>, label: Seq<char>, event: Event, focus: Focus)
    -> StepView {
    if event == Event::CloseRequested {
        close_step(s, label)
    } else if has_label(s, label) {
        StepView { state: PairState::Active, actions: follow(event, focus), result: Ok(()) }
    } else {
        StepView { state: PairState::Gone, actions: seq![], result: Err(Error::NotFound) }
    }
}

/// Closes the pair with the label: its windows are to be closed, control
/// window first, and its record is taken out. The closing of the windows is
/// asked for even where no record is kept; the record is taken out whatever
/// becomes of the windows.
pub fn view_close<T>(state: &mut AppState<T>, label: &str) -> (r: Step)
    ensures
        final(state).windows@ == removed(old(state).windows@, label@),
        r@ == close_step(old(state).windows@, label@),
        final(state).config == old(state).config,
        registry_wf(final(state).windows@),
{
    let mut actions = Vec::new();
    actions.push(Action::CloseCtrl);
    actions.push(Action::CloseContent);
    match state.windows.remove(label) {
        Ok(()) => {
            actions.push(Action::Notify);
            assert(actions@ =~= seq![Action::CloseCtrl, Action::CloseContent, Action::Notify]);
            Step { state: PairState::Closing, actions, result: Ok(()) }
        },
        Err(e) => {
            assert(actions@ =~= seq![Action::CloseCtrl, Action::CloseContent]);
            Step { state: PairState::Gone, actions, result: Err(Error::NotFound) }
        },
    }
}

/// Handles an event that the windowing system reports of the content
/// window of the pair with the label. `focus` is what the two windows
/// report at this moment; it is read only when the focus was lost.
pub fn on_window_event<T>(state: &mut AppState<T>, label: &str, event: Event, focus: Focus) -> (r:
    Step)
    ensures
        final(state).windows@ == event_registry(old(state).windows@, label@, event),
        r@ == event_step(old(state).windows@, label@, event, focus),
        final(state).config == old(state).config,
        registry_wf(final(state).windows@),
{
    if let Event::CloseRequested = event {
        return view_close(state, label);
    }
    let mut actions: Vec<Action> = Vec::new();
    if !state.windows.contains(label) {
        assert(actions@ =~= seq![]);
        return Step { state: PairState::Gone, actions, result: Err(Error::NotFound) };
    }
    match event {
        Event::Moved(pos) => {
            if ctrl_fits(pos) {
                actions.push(Action::MoveCtrl(window_pos(pos)));
            }
        },
        Event::Focused(gained) => {
            if gained {
                actions.push(Action::ShowCtrl);
                actions.push(Action::FocusContent);
            } else if !focus.content && !focus.ctrl {
                actions.push(Action::HideCtrl);
            }
        },
        _ => {},
    }
    assert(actions@ =~= follow(event, focus));
    Step { state: PairState::Active, actions, result: Ok(()) }
}

/// A pair that was created is kept once, with the style of a new pair.
///
/// Where no pair has the label and both windows were opened, the creation
/// succeeds, exactly one record has the label afterwards, and the status
/// of the pair is: overlay off at the default alpha, not pinned, pointer
/// input taken, desktop user agent; its zoom is 100 percent.
pub proof fn lemma_created(s: Seq<WindowView>, conf: ConfView, p: PendingView)
    requires
        registry_wf(s),
        !has_label(s, p.label),
    ensures
        ({
            let t = opened_registry(s, p, Opening::Opened);
            let step = opened_step(s, conf, p, Opening::Opened);
            &&& step.result == Ok::<(), Error>(())
            &&& step.state == PairState::Active
            &&& registry_wf(t)
            &&& holds_once(t, p.label)
            &&& status_of(t, p.label) == Ok::<Status, Error>(
                ((false, ALPHA_DEFAULT), false, false, false),
            )
            &&& record(t, p.label).zoom == ZOOM_DEFAULT
        }),
{
    lemma_added(s, p.record());
}

/// A pair that was closed is gone.
///
/// After a request to close the pair with the label, no record has the
/// label, and asking for its status gives `NotFound`. Every other pair is
/// kept, with its status.
pub proof fn lemma_closed(s: Seq<WindowView>, label: Seq<char>)
    requires
        registry_wf(s),
    ensures
        ({
            let t = event_registry(s, label, Event::CloseRequested);
            &&& registry_wf(t)
            &&& !has_label(t, label)
            &&& status_of(t, label) == Err::<Status, Error>(Error::NotFound)
            &&& forall|other: Seq<char>|
                other != label ==> status_of(t, other) == status_of(s, other)
        }),
{
    lemma_removed(s, label);
}

/// A label is given once.
///
/// After a pair with a label was created, a second creation with the same
/// label is refused with `DuplicateLabel` before any window is opened. If
/// two windows are opened for it all the same, both are to be closed again,
/// and the registry stays as it was: one record has the label.
pub proof fn lemma_duplicate_refused(
    s: Seq<WindowView>,
    conf: ConfView,
    first: PendingView,
    second: PendingView,
)
    requires
        registry_wf(s),
        !has_label(s, first.label),
        second.label == first.label,
    ensures
        ({
            let t = opened_registry(s, first, Opening::Opened);
            let step = opened_step(t, conf, second, Opening::Opened);
            &&& create_plan(t, Ok(second.url), second.title, second.label) == Err::<
                PendingView,
                Error,
            >(Error::DuplicateLabel)
            &&& opened_registry(t, second, Opening::Opened) == t
            &&& step.result == Err::<(), Error>(Error::DuplicateLabel)
            &&& step.actions == seq![Action::CloseCtrl, Action::CloseContent]
            &&& holds_once(t, first.label)
        }),
{
    lemma_added(s, first.record());
}

/// The states of a pair follow each other in one order.
///
/// A pending pair whose label is free is `Active` once its windows were
/// opened. While it is active, every event but a request to close leaves
/// it active and the registry as it is. A request to close leaves it
/// `Closing`, with its record taken out. After that it is `Gone`: whatever
/// is reported of it is told to be of no pair, and changes nothing.
pub proof fn lemma_life(
    s: Seq<WindowView>,
    conf: ConfView,
    p: PendingView,
    event: Event,
    focus: Focus,
)
    requires
        registry_wf(s),
        !has_label(s, p.label),
    ensures
        ({
            let active = opened_registry(s, p, Opening::Opened);
            let closed = event_registry(active, p.label, Event::CloseRequested);
            &&& opened_step(s, conf, p, Opening::Opened).state == PairState::Active
            &&& event != Event::CloseRequested ==> {
                &&& event_step(active, p.label, event, focus).state == PairState::Active
                &&& event_registry(active, p.label, event) == active
            }
            &&& event_step(active, p.label, Event::CloseRequested, focus).state
                == PairState::Closing
            &&& closed == s
            &&& event_step(closed, p.label, event, focus).state == PairState::Gone
            &&& event_step(closed, p.label, event, focus).result == Err::<(), Error>(
                Error::NotFound,
            )
            &&& event_registry(closed, p.label, event) == closed
        }),
{
    let active = opened_registry(s, p, Opening::Opened);
    lemma_added(s, p.record());
    assert(active == s.push(p.record()));
    crate::registry::lemma_position(active, p.label, s.len() as int);
    assert(removed(active, p.label) =~= s);
}

} // verus!
