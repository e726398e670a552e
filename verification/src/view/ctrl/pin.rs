//! Keeping a content window on top.

use vstd::prelude::*;
use crate::error::Error;
use crate::registry::{has_label, lemma_position, lemma_replaced, position, record, registry_wf};
use crate::util::state::{AppState, WindowView};
use crate::util::state::Status;
use crate::view::ctrl::{
    lemma_settled, plan, plan_view, planned, settled, status_of, styled, StyleCall, StyleCallView,
    StyleOp,
};

verus! {

/// Plans the turn of the pin of the pair with the label: on if it is off,
/// off if it is on.
pub fn toggle_pin<T>(state: &AppState<T>, label: &str) -> (r: Result<StyleCall, Error>)
    ensures
        plan_view(r) == planned(
            state.windows@,
            label@,
            StyleOp::Pin(!record(state.windows@, label@).pin),
        ),
{
    match state.windows.get(label) {
        Some(w) => plan(true, label, StyleOp::Pin(!w.pin())),
        None => plan(false, label, StyleOp::Pin(false)),
    }
}

/// Plans to set the pin of the pair with the label to `value`.
pub fn set_pin<T>(state: &AppState<T>, label: &str, value: bool) -> (r: Result<StyleCall, Error>)
    ensures
        plan_view(r) == planned(state.windows@, label@, StyleOp::Pin(value)),
{
    plan(state.windows.contains(label), label, StyleOp::Pin(value))
}

/// Whether the content window of the pair with the label stays on top.
pub fn get_pin<T>(state: &AppState<T>, label: &str) -> (r: Result<bool, Error>)
    ensures
        r == if has_label(state.windows@, label@) {
            Ok::<bool, Error>(record(state.windows@, label@).pin)
        } else {
            Err::<bool, Error>(Error::NotFound)
        },
{
    match state.windows.get(label) {
        Some(w) => Ok(w.pin()),
        None => Err(Error::NotFound),
    }
}

/// Turning the pin twice leads back.
///
/// Where both calls are applied, the style adapter is asked twice for the
/// content window of the pair: first for the opposite of the pin, then for
/// the pin as it was. After the second call the registry is what it was
/// before the first.
pub proof fn lemma_toggle_pin_twice(s: Seq<WindowView>, label: Seq<char>)
    requires
        registry_wf(s),
        has_label(s, label),
    ensures
        ({
            let pin = record(s, label).pin;
            let first = StyleCallView { label, op: StyleOp::Pin(!pin) };
            let between = settled(s, first, true);
            let second = StyleCallView { label, op: StyleOp::Pin(pin) };
            &&& planned(s, label, StyleOp::Pin(!record(s, label).pin)) == Ok::<
                StyleCallView,
                Error,
            >(first)
            &&& planned(between, label, StyleOp::Pin(!record(between, label).pin)) == Ok::<
                StyleCallView,
                Error,
            >(second)
            &&& record(between, label).pin == !pin
            &&& settled(between, second, true) == s
        }),
{
    let pin = record(s, label).pin;
    let p = position(s, label);
    lemma_position(s, label, p);
    let first = StyleCallView { label, op: StyleOp::Pin(!pin) };
    let turned = styled(s[p], first.op);
    lemma_replaced(s, label, turned);
    let between = settled(s, first, true);
    assert(between == s.update(p, turned));
    lemma_position(between, label, p);
    let second = StyleCallView { label, op: StyleOp::Pin(pin) };
    assert(styled(between[p], second.op) == s[p]);
    assert(settled(between, second, true) =~= s);
}

/// A write of the pin is seen whole.
///
/// Whoever reads the status of a pair reads it of the registry before a
/// write or of the registry after it. Before the write of `value` the pin
/// is what it was; after it the pin is `value` if the call was applied and
/// what it was if not. The other three states are the same on both sides.
pub proof fn lemma_pin_write_seen_whole(
    s: Seq<WindowView>,
    label: Seq<char>,
    value: bool,
    applied: bool,
)
    requires
        registry_wf(s),
        has_label(s, label),
    ensures
        ({
            let before = record(s, label).status();
            let call = StyleCallView { label, op: StyleOp::Pin(value) };
            let after = status_of(settled(s, call, applied), label);
            &&& status_of(s, label) == Ok::<Status, Error>(before)
            &&& after == Ok::<Status, Error>(
                (
                    before.0,
                    if applied {
                        value
                    } else {
                        before.1
                    },
                    before.2,
                    before.3,
                ),
            )
        }),
{
    lemma_settled(s, StyleCallView { label, op: StyleOp::Pin(value) }, applied);
}

} // verus!
