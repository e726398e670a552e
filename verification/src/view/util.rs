//! Labels of the two windows of a pair, and where they stand.

use vstd::prelude::*;
use vstd::string::*;
use crate::error::Error;
use crate::registry::{has_label, record};
use crate::text::{lemma_without_first_of_prefixed, remove_first, without_first};
use crate::util::state::{AppState, WindowData};

verus! {

/// What a generated content-window label begins with.
pub const WINDOW_LABEL_PREFIX: &'static str = "window_";

/// What the label of a control window begins with.
pub const CTRL_LABEL_PREFIX: &'static str = "ctrl_";

/// How far to the right of its control window a content window stands.
pub const OFFSET_X: i32 = 40;

/// How far below its control window a content window stands.
pub const OFFSET_Y: i32 = 0;

/// The inner width of a control window.
pub const CTRL_WIDTH: u32 = 40;

/// The inner height of a control window.
pub const CTRL_HEIGHT: u32 = 360;

/// The smallest inner width of a content window.
pub const WINDOW_MIN_INNER_WIDTH: u32 = 360;

/// The smallest inner height of a content window.
pub const WINDOW_MIN_INNER_HEIGHT: u32 = 200;

/// Where the upper left corner of a window stands on the screen, in
/// physical pixels.
#[derive(Debug, Clone, Copy, PartialEq, Eq, Structural)]
pub struct Position {
    pub x: i32,
    pub y: i32,
}

/// The width and height of a window, in physical pixels.
#[derive(Debug, Clone, Copy, PartialEq, Eq, Structural)]
pub struct Size {
    pub width: u32,
    pub height: u32,
}

/// Where the content window belongs when its control window stands at
/// `pos`: to the right of it by the fixed offset.
pub fn ctrl_pos(pos: Position) -> (r: Position)
    requires
        pos.x + OFFSET_X <= i32::MAX,
    ensures
        r.x == pos.x + OFFSET_X,
        r.y == pos.y + OFFSET_Y,
{
    Position { x: pos.x + OFFSET_X, y: pos.y + OFFSET_Y }
}

/// Where the control window belongs when its content window stands at
/// `pos`: to the left of it by the fixed offset.
pub fn window_pos(pos: Position) -> (r: Position)
    requires
        pos.x - OFFSET_X >= i32::MIN,
    ensures
        r.x == pos.x - OFFSET_X,
        r.y == pos.y - OFFSET_Y,
{
    Position { x: pos.x - OFFSET_X, y: pos.y - OFFSET_Y }
}

/// Whether a control window that belongs to a content window at `pos` has a
/// position: its coordinates fit the screen's range.
pub fn ctrl_fits(pos: Position) -> (r: bool)
    ensures
        r == (pos.x - OFFSET_X >= i32::MIN),
{
    pos.x >= i32::MIN + OFFSET_X
}

/// The outer size that gives a control window its fixed inner size, from
/// the outer and inner size that it has now. `None` where the sizes given
/// are no sizes of one window, or the result is out of range.
pub fn ctrl_size(outer: Size, inner: Size) -> (r: Option<Size>)
    ensures
        r == if inner.width <= outer.width && inner.height <= outer.height && outer.width
            - inner.width + CTRL_WIDTH <= u32::MAX && outer.height - inner.height + CTRL_HEIGHT
            <= u32::MAX {
            Some(
                Size {
                    width: (outer.width - inner.width + CTRL_WIDTH) as u32,
                    height: (outer.height - inner.height + CTRL_HEIGHT) as u32,
                },
            )
        } else {
            None
        },
{
    if inner.width > outer.width || inner.height > outer.height {
        return None;
    }
    let frame_x: u32 = outer.width - inner.width;
    let frame_y: u32 = outer.height - inner.height;
    if frame_x > u32::MAX - CTRL_WIDTH || frame_y > u32::MAX - CTRL_HEIGHT {
        return None;
    }
    Some(Size { width: frame_x + CTRL_WIDTH, height: frame_y + CTRL_HEIGHT })
}

/// A lower-case hexadecimal digit.
pub open spec fn is_lower_hex(c: char) -> bool {
    ('0' <= c && c <= '9') || ('a' <= c && c <= 'f')
}

/// The text of a UUID in its hyphenated lower-case form: 36 characters,
/// hyphens after the 8th, 12th, 16th and 20th digit, digits elsewhere.
pub open spec fn is_id(s: Seq<char>) -> bool {
    &&& s.len() == 36
    &&& forall|i: int|
        0 <= i < 36 ==> if i == 8 || i == 13 || i == 18 || i == 23 {
            #[trigger] s[i] == '-'
        } else {
            is_lower_hex(s[i])
        }
}

/// `uuid::Uuid::new_v4`, written out by its `Display`. Believed, not
/// proved: whatever the random UUID is, its text has the hyphenated
/// lower-case form. The call panics where the system has no random bytes to
/// give.
#[verifier::external_body]
fn random_id() -> (r: String)
    ensures
        is_id(r@),
{
    uuid::Uuid::new_v4().to_string()
}

/// A label for a new content window: the prefix and a random UUID.
pub fn new_window_label() -> (r: String)
    ensures
        exists|id: Seq<char>| is_id(id) && r@ == WINDOW_LABEL_PREFIX@ + id,
{
    let id = random_id();
    String::from_str(WINDOW_LABEL_PREFIX).concat(id.as_str())
}

/// Some text has the form of an id.
pub proof fn lemma_id_exists()
    ensures
        exists|id: Seq<char>| is_id(id),
{
    let id = Seq::new(
        36,
        |i: int|
            if i == 8 || i == 13 || i == 18 || i == 23 {
                '-'
            } else {
                '0'
            },
    );
    assert(is_id(id));
}

/// The label of the control window that belongs to the content window
/// `label`.
pub fn to_ctrl_label(label: &str) -> (r: String)
    ensures
        r@ == CTRL_LABEL_PREFIX@ + label@,
{
    String::from_str(CTRL_LABEL_PREFIX).concat(label)
}

/// The label of the content window that the control window `label` belongs
/// to: `label` without its leftmost `ctrl_`.
pub fn to_window_label(label: &str) -> (r: String)
    ensures
        r@ == without_first(label@, CTRL_LABEL_PREFIX@),
{
    remove_first(label, CTRL_LABEL_PREFIX)
}

/// The label of the content window that the control window `ctrl` belongs
/// to, and a copy of the record of the pair; `NotFound` where no pair has
/// that label.
pub fn ctrl_to_window_and_data<T>(ctrl: &str, state: &AppState<T>) -> (r: Result<
    (String, WindowData),
    Error,
>)
    ensures
        match r {
            Ok((label, w)) => {
                &&& label@ == without_first(ctrl@, CTRL_LABEL_PREFIX@)
                &&& has_label(state.windows@, label@)
                &&& w@ == record(state.windows@, label@)
            },
            Err(e) => {
                &&& e == Error::NotFound
                &&& !has_label(state.windows@, without_first(ctrl@, CTRL_LABEL_PREFIX@))
            },
        },
{
    let label = to_window_label(ctrl);
    match state.windows.get(label.as_str()) {
        Some(w) => Ok((label, w)),
        None => Err(Error::NotFound),
    }
}

/// A control window's label leads back to its content window's label.
pub proof fn lemma_window_label_of_ctrl_label(label: Seq<char>)
    ensures
        without_first(CTRL_LABEL_PREFIX@ + label, CTRL_LABEL_PREFIX@) == label,
{
    lemma_without_first_of_prefixed(CTRL_LABEL_PREFIX@, label);
}

} // verus!
