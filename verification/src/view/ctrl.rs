//! What the control window asks for: the style of its content window.
//!
//! A style state is changed in two steps, so that a record never shows what
//! its window does not. A command plans the one call of the style adapter
//! that it stands for, a [`StyleCall`]. The program makes the call, and
//! [`settle`] stores the new value if the call went well, and leaves the
//! record as it was if it did not.

pub mod ignore_cursor_events;
pub mod pin;
pub mod transparent;
pub mod user_agent;

use vstd::prelude::*;
use vstd::string::*;
use crate::error::Error;
use crate::registry::{has_label, lemma_replaced, record, registry_wf, replaced};
use crate::util::state::{
    AppState, Status, WindowData, WindowView, ALPHA_OPAQUE, ZOOM_MAX, ZOOM_MIN,
};

verus! {

/// One call of the style adapter, with the value that it is to set.
#[derive(Debug, Clone, Copy, PartialEq, Eq, Structural)]
pub enum StyleOp {
    /// Set the alpha of the content window; 255 is opaque.
    Transparent(u8),
    /// Keep the content window on top, or let it go.
    Pin(bool),
    /// Let pointer input pass through the content window, or take it.
    IgnoreCursorEvents(bool),
    /// Present the mobile user agent (`true`) or the desktop one.
    UserAgent(bool),
    /// Set the zoom of the content window, in percent.
    Zoom(u32),
}

impl StyleOp {
    /// A zoom to be set lies within the bounds.
    pub open spec fn wf(self) -> bool {
        self matches StyleOp::Zoom(z) ==> ZOOM_MIN <= z <= ZOOM_MAX
    }
}

/// A record once the window has taken the value of `op`.
///
/// Overlay mode is on at every alpha but 255, and the record keeps the
/// alpha last used for it while it is off.
pub open spec fn styled(w: WindowView, op: StyleOp) -> WindowView {
    match op {
        StyleOp::Transparent(alpha) => WindowView {
            transparent: (
                alpha != ALPHA_OPAQUE,
                if alpha != ALPHA_OPAQUE {
                    alpha
                } else {
                    w.transparent.1
                },
            ),
            ..w
        },
        StyleOp::Pin(value) => WindowView { pin: value, ..w },
        StyleOp::IgnoreCursorEvents(value) => WindowView { pointer_ignore: value, ..w },
        StyleOp::UserAgent(value) => WindowView { mobile_mode: value, ..w },
        StyleOp::Zoom(zoom) => WindowView { zoom, ..w },
    }
}

/// A planned call as plain values.
pub ghost struct StyleCallView {
    pub label: Seq<char>,
    pub op: StyleOp,
}

/// A call of the style adapter that a command has planned for the content
/// window of one pair. Only the commands of this module make one.
#[derive(Debug)]
pub struct StyleCall {
    label: String,
    op: StyleOp,
}

impl View for StyleCall {
    type V = StyleCallView;

    closed spec fn view(&self) -> StyleCallView {
        StyleCallView { label: self.label@, op: self.op }
    }
}

impl StyleCall {
    #[verifier::type_invariant]
    closed spec fn inv(self) -> bool {
        self.op.wf()
    }

    /// The call `op` for the content window `label`.
    pub(crate) fn new(label: &str, op: StyleOp) -> (r: Self)
        requires
            op.wf(),
        ensures
            r@ == (StyleCallView { label: label@, op }),
    {
        StyleCall { label: String::from_str(label), op }
    }

    /// The label of the content window that the call is for.
    pub fn label(&self) -> (r: &String)
        ensures
            r@ == self@.label,
    {
        &self.label
    }

    /// What is to be asked of the style adapter.
    pub fn op(&self) -> (r: StyleOp)
        ensures
            r == self@.op,
            r.wf(),
    {
        proof {
            use_type_invariant(self);
        }
        self.op
    }
}

/// What a command gives: the call `op` for the pair with the label, or
/// `NotFound` where no pair has it.
pub open spec fn planned(s: Seq<WindowView>, label: Seq<char>, op: StyleOp) -> Result<
    StyleCallView,
    Error,
> {
    if has_label(s, label) {
        Ok(StyleCallView { label, op })
    } else {
        Err(Error::NotFound)
    }
}

/// The model of what a command returned.
pub open spec fn plan_view(r: Result<StyleCall, Error>) -> Result<StyleCallView, Error> {
    match r {
        Ok(c) => Ok(c@),
        Err(e) => Err(e),
    }
}

/// The registry after [`settle`]: the record takes the value only where the
/// call was applied.
pub open spec fn settled(s: Seq<WindowView>, call: StyleCallView, applied: bool) -> Seq<
    WindowView,
> {
    if applied && has_label(s, call.label) {
        replaced(s, call.label, styled(record(s, call.label), call.op))
    } else {
        s
    }
}

/// What [`settle`] tells its caller.
pub open spec fn settle_result(s: Seq<WindowView>, call: StyleCallView, applied: bool) -> Result<
    (),
    Error,
> {
    if !has_label(s, call.label) {
        Err(Error::NotFound)
    } else if !applied {
        Err(Error::OsOperationFailed)
    } else {
        Ok(())
    }
}

/// The zoom that a request for `zoom` percent leads to: the nearest within
/// the bounds.
pub open spec fn clamp_zoom(zoom: int) -> u32 {
    if zoom < ZOOM_MIN {
        ZOOM_MIN
    } else if zoom > ZOOM_MAX {
        ZOOM_MAX
    } else {
        zoom as u32
    }
}

/// Plans `op`, once the record is known to be there or not.
pub(crate) fn plan(found: bool, label: &str, op: StyleOp) -> (r: Result<StyleCall, Error>)
    requires
        op.wf(),
    ensures
        plan_view(r) == if found {
            Ok::<StyleCallView, Error>(StyleCallView { label: label@, op })
        } else {
            Err::<StyleCallView, Error>(Error::NotFound)
        },
{
    if found {
        Ok(StyleCall::new(label, op))
    } else {
        Err(Error::NotFound)
    }
}

/// Plans the change of the zoom of the pair with the label by `diff`
/// percent. The zoom asked for is the sum, brought within 20 and 500.
pub fn set_zoom<T>(state: &AppState<T>, label: &str, diff: i32) -> (r: Result<StyleCall, Error>)
    ensures
        plan_view(r) == planned(
            state.windows@,
            label@,
            StyleOp::Zoom(clamp_zoom(record(state.windows@, label@).zoom + diff)),
        ),
{
    match state.windows.get(label) {
        Some(w) => {
            let sum: i64 = w.zoom() as i64 + diff as i64;
            let zoom: u32 = if sum < ZOOM_MIN as i64 {
                ZOOM_MIN
            } else if sum > ZOOM_MAX as i64 {
                ZOOM_MAX
            } else {
                sum as u32
            };
            plan(true, label, StyleOp::Zoom(zoom))
        },
        None => plan(false, label, StyleOp::Zoom(ZOOM_MIN)),
    }
}

/// What [`get_status`] gives for a label.
pub open spec fn status_of(s: Seq<WindowView>, label: Seq<char>) -> Result<Status, Error> {
    if has_label(s, label) {
        Ok(record(s, label).status())
    } else {
        Err(Error::NotFound)
    }
}

/// The four style states of the pair with the label, as the control window
/// shows them; `NotFound` where no pair has the label.
pub fn get_status<T>(state: &AppState<T>, label: &str) -> (r: Result<Status, Error>)
    ensures
        r == status_of(state.windows@, label@),
{
    match state.windows.get(label) {
        Some(w) => Ok((w.transparent(), w.pin(), w.pointer_ignore(), w.mobile_mode())),
        None => Err(Error::NotFound),
    }
}

/// The record with the value of `op` in it.
fn restyle(w: WindowData, op: StyleOp) -> (r: WindowData)
    requires
        op.wf(),
    ensures
        r@ == styled(w@, op),
{
    match op {
        StyleOp::Transparent(alpha) => {
            let kept = w.transparent().1;
            if alpha != ALPHA_OPAQUE {
                w.with_transparent((true, alpha))
            } else {
                w.with_transparent((false, kept))
            }
        },
        StyleOp::Pin(value) => w.with_pin(value),
        StyleOp::IgnoreCursorEvents(value) => w.with_pointer_ignore(value),
        StyleOp::UserAgent(value) => w.with_mobile_mode(value),
        StyleOp::Zoom(zoom) => w.with_zoom(zoom),
    }
}

/// Closes a planned call once the style adapter has been asked: `applied`
/// says whether the window took the value.
///
/// The record takes the value only if it did. If it did not, the record
/// stays as it was and the error is `OsOperationFailed`. A pair that is
/// gone by now is `NotFound`, whatever the adapter said.
pub fn settle<T>(state: &mut AppState<T>, call: StyleCall, applied: bool) -> (r: Result<
    (),
    Error,
>)
    ensures
        final(state).windows@ == settled(old(state).windows@, call@, applied),
        r == settle_result(old(state).windows@, call@, applied),
        final(state).config == old(state).config,
        registry_wf(final(state).windows@),
{
    let op = call.op();
    match state.windows.get(call.label().as_str()) {
        None => Err(Error::NotFound),
        Some(w) => {
            if !applied {
                return Err(Error::OsOperationFailed);
            }
            let next = restyle(w, op);
            let _ = state.windows.replace(next);
            Ok(())
        },
    }
}

/// A zoom that is asked for lies within 20 and 500, whatever the zoom was
/// and whatever the change: a sum below 20 gives 20, one above 500 gives
/// 500, and any other is taken as it is.
pub proof fn lemma_zoom_clamped(zoom: u32, diff: i32)
    ensures
        ZOOM_MIN <= clamp_zoom(zoom + diff) <= ZOOM_MAX,
        zoom + diff < ZOOM_MIN ==> clamp_zoom(zoom + diff) == ZOOM_MIN,
        zoom + diff > ZOOM_MAX ==> clamp_zoom(zoom + diff) == ZOOM_MAX,
        ZOOM_MIN <= zoom + diff <= ZOOM_MAX ==> clamp_zoom(zoom + diff) == zoom + diff,
{
}

/// Settling keeps a registry well formed, keeps every label, and touches no
/// record but the one that the call is for.
pub proof fn lemma_settled(s: Seq<WindowView>, call: StyleCallView, applied: bool)
    requires
        registry_wf(s),
        call.op.wf(),
    ensures
        registry_wf(settled(s, call, applied)),
        settled(s, call, applied).len() == s.len(),
        forall|l: Seq<char>| has_label(settled(s, call, applied), l) == has_label(s, l),
        forall|l: Seq<char>|
            l != call.label && has_label(s, l) ==> record(settled(s, call, applied), l) == record(
                s,
                l,
            ),
        has_label(s, call.label) ==> record(settled(s, call, applied), call.label) == if applied {
            styled(record(s, call.label), call.op)
        } else {
            record(s, call.label)
        },
{
    if applied && has_label(s, call.label) {
        let p = crate::registry::position(s, call.label);
        crate::registry::lemma_position(s, call.label, p);
        lemma_replaced(s, call.label, styled(record(s, call.label), call.op));
    }
}

} // verus!
