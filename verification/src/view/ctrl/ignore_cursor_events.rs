//! Letting pointer input pass through a content window.

use vstd::prelude::*;
use crate::error::Error;
use crate::registry::{has_label, record};
use crate::util::state::AppState;
use crate::view::ctrl::{plan, plan_view, planned, StyleCall, StyleOp};

verus! {

/// Plans the turn of the pointer passthrough of the pair with the label:
/// on if it is off, off if it is on.
pub fn toggle_ignore_cursor_events<T>(state: &AppState<T>, label: &str) -> (r: Result<
    StyleCall,
    Error,
>)
    ensures
        plan_view(r) == planned(
            state.windows@,
            label@,
            StyleOp::IgnoreCursorEvents(!record(state.windows@, label@).pointer_ignore),
        ),
{
    match state.windows.get(label) {
        Some(w) => plan(true, label, StyleOp::IgnoreCursorEvents(!w.pointer_ignore())),
        None => plan(false, label, StyleOp::IgnoreCursorEvents(false)),
    }
}

/// Plans to set the pointer passthrough of the pair with the label to
/// `value`.
pub fn set_ignore_cursor_events<T>(state: &AppState<T>, label: &str, value: bool) -> (r: Result<
    StyleCall,
    Error,
>)
    ensures
        plan_view(r) == planned(state.windows@, label@, StyleOp::IgnoreCursorEvents(value)),
{
    plan(state.windows.contains(label), label, StyleOp::IgnoreCursorEvents(value))
}

/// Whether the content window of the pair with the label lets pointer input
/// pass through.
pub fn get_ignore_cursor_events<T>(state: &AppState<T>, label: &str) -> (r: Result<bool, Error>)
    ensures
        r == if has_label(state.windows@, label@) {
            Ok::<bool, Error>(record(state.windows@, label@).pointer_ignore)
        } else {
            Err::<bool, Error>(Error::NotFound)
        },
{
    match state.windows.get(label) {
        Some(w) => Ok(w.pointer_ignore()),
        None => Err(Error::NotFound),
    }
}

/// The bit of a window's extended style by which it lets pointer input
/// pass through to what lies beneath it.
pub const PASSTHROUGH_BIT: u32 = 0x20;

/// The extended style `style` with pointer passthrough switched to
/// `value`: the one bit is set or cleared, every other bit stays.
pub fn style_with_passthrough(style: u32, value: bool) -> (r: u32)
    ensures
        r == if value {
            style | PASSTHROUGH_BIT
        } else {
            style & !PASSTHROUGH_BIT
        },
        (r & PASSTHROUGH_BIT != 0) == value,
        r & !PASSTHROUGH_BIT == style & !PASSTHROUGH_BIT,
{
    let r = if value {
        style | PASSTHROUGH_BIT
    } else {
        style & !PASSTHROUGH_BIT
    };
    assert((style | 0x20u32) & 0x20u32 != 0 && (style | 0x20u32) & !0x20u32 == style & !0x20u32)
        by (bit_vector);
    assert((style & !0x20u32) & 0x20u32 == 0 && (style & !0x20u32) & !0x20u32 == style & !0x20u32)
        by (bit_vector);
    r
}

} // verus!
