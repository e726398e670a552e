//! Overlay mode: showing a content window at reduced alpha.

use vstd::prelude::*;
use crate::error::Error;
use crate::registry::{has_label, lemma_position, lemma_replaced, position, record, registry_wf};
use crate::util::state::{AppState, WindowView, ALPHA_OPAQUE};
use crate::view::ctrl::{
    plan, plan_view, planned, settled, styled, StyleCall, StyleCallView, StyleOp,
};

verus! {

/// The alpha that a turn of overlay mode asks for: opaque if the mode is
/// on, the alpha that the record remembers if it is off.
pub open spec fn toggled_alpha(w: WindowView) -> u8 {
    if w.transparent.0 {
        ALPHA_OPAQUE
    } else {
        w.transparent.1
    }
}

/// Plans the turn of the overlay mode of the pair with the label: back to
/// opaque if it is on, to the alpha last used if it is off.
pub fn toggle_transparent<T>(state: &AppState<T>, label: &str) -> (r: Result<StyleCall, Error>)
    ensures
        plan_view(r) == planned(
            state.windows@,
            label@,
            StyleOp::Transparent(toggled_alpha(record(state.windows@, label@))),
        ),
{
    match state.windows.get(label) {
        Some(w) => {
            let (on, alpha) = w.transparent();
            plan(true, label, StyleOp::Transparent(if on { ALPHA_OPAQUE } else { alpha }))
        },
        None => plan(false, label, StyleOp::Transparent(ALPHA_OPAQUE)),
    }
}

/// Plans to show the content window of the pair with the label at `alpha`;
/// 255 is opaque and turns overlay mode off.
pub fn set_transparent<T>(state: &AppState<T>, label: &str, alpha: u8) -> (r: Result<
    StyleCall,
    Error,
>)
    ensures
        plan_view(r) == planned(state.windows@, label@, StyleOp::Transparent(alpha)),
{
    plan(state.windows.contains(label), label, StyleOp::Transparent(alpha))
}

/// Whether overlay mode is on for the pair with the label, and the alpha
/// last used for it.
pub fn get_transparent<T>(state: &AppState<T>, label: &str) -> (r: Result<(bool, u8), Error>)
    ensures
        r == if has_label(state.windows@, label@) {
            Ok::<(bool, u8), Error>(record(state.windows@, label@).transparent)
        } else {
            Err::<(bool, u8), Error>(Error::NotFound)
        },
{
    match state.windows.get(label) {
        Some(w) => Ok(w.transparent()),
        None => Err(Error::NotFound),
    }
}

/// Overlay mode comes back as it was left.
///
/// Take a pair whose record remembers an alpha other than opaque. Where
/// both calls are applied, turning the overlay mode twice asks the style
/// adapter once for that alpha and once for opaque, in the order that the
/// mode calls for, and leaves the registry as it was: the alpha is
/// kept while the mode is off.
pub proof fn lemma_toggle_transparent_twice(s: Seq<WindowView>, label: Seq<char>)
    requires
        registry_wf(s),
        has_label(s, label),
        record(s, label).transparent.1 != ALPHA_OPAQUE,
    ensures
        ({
            let (on, alpha) = record(s, label).transparent;
            let first = StyleCallView {
                label,
                op: StyleOp::Transparent(toggled_alpha(record(s, label))),
            };
            let between = settled(s, first, true);
            let second = StyleCallView {
                label,
                op: StyleOp::Transparent(toggled_alpha(record(between, label))),
            };
            &&& first.op == StyleOp::Transparent(if on { ALPHA_OPAQUE } else { alpha })
            &&& second.op == StyleOp::Transparent(if on { alpha } else { ALPHA_OPAQUE })
            &&& record(between, label).transparent == (!on, alpha)
            &&& settled(between, second, true) == s
        }),
{
    let p = position(s, label);
    lemma_position(s, label, p);
    let first = StyleCallView { label, op: StyleOp::Transparent(toggled_alpha(s[p])) };
    let turned = styled(s[p], first.op);
    lemma_replaced(s, label, turned);
    let between = settled(s, first, true);
    assert(between == s.update(p, turned));
    lemma_position(between, label, p);
    let second = StyleCallView { label, op: StyleOp::Transparent(toggled_alpha(between[p])) };
    assert(styled(between[p], second.op) == s[p]);
    assert(settled(between, second, true) =~= s);
}

} // verus!
