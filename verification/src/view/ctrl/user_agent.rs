//! Which user agent a content window presents.

use vstd::prelude::*;
use vstd::string::*;
use crate::error::Error;
use crate::registry::{has_label, record};
use crate::util::state::{AppState, Conf, ConfView};
use crate::view::ctrl::{plan, plan_view, planned, StyleCall, StyleOp};

verus! {

/// Plans the switch of the user agent of the pair with the label: to the
/// mobile one if it presents the desktop one, and back.
pub fn toggle_user_agent<T>(state: &AppState<T>, label: &str) -> (r: Result<StyleCall, Error>)
    ensures
        plan_view(r) == planned(
            state.windows@,
            label@,
            StyleOp::UserAgent(!record(state.windows@, label@).mobile_mode),
        ),
{
    match state.windows.get(label) {
        Some(w) => plan(true, label, StyleOp::UserAgent(!w.mobile_mode())),
        None => plan(false, label, StyleOp::UserAgent(false)),
    }
}

/// Plans to have the pair with the label present the mobile user agent
/// (`true`) or the desktop one (`false`).
pub fn set_user_agent<T>(state: &AppState<T>, label: &str, value: bool) -> (r: Result<
    StyleCall,
    Error,
>)
    ensures
        plan_view(r) == planned(state.windows@, label@, StyleOp::UserAgent(value)),
{
    plan(state.windows.contains(label), label, StyleOp::UserAgent(value))
}

/// Whether the content window of the pair with the label presents the
/// mobile user agent.
pub fn get_user_agent<T>(state: &AppState<T>, label: &str) -> (r: Result<bool, Error>)
    ensures
        r == if has_label(state.windows@, label@) {
            Ok::<bool, Error>(record(state.windows@, label@).mobile_mode)
        } else {
            Err::<bool, Error>(Error::NotFound)
        },
{
    match state.windows.get(label) {
        Some(w) => Ok(w.mobile_mode()),
        None => Err(Error::NotFound),
    }
}

/// The user agent text that the configuration holds for the mode.
pub open spec fn agent_of(conf: ConfView, mobile: bool) -> Seq<char> {
    if mobile {
        conf.agent_mobile
    } else {
        conf.agent_desktop
    }
}

/// The user agent text that a content window is to present: the mobile one
/// of the configuration, or the desktop one.
pub fn active_user_agent(conf: &Conf, mobile: bool) -> (r: String)
    ensures
        r@ == agent_of(conf@, mobile),
{
    if mobile {
        conf.agent_mobile.clone()
    } else {
        conf.agent_desktop.clone()
    }
}

} // verus!
