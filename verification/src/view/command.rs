//! What the main window asks for.

use vstd::prelude::*;
use vstd::string::*;
use crate::address::{resolve, resolved};
use crate::error::Error;
use crate::util::state::AppState;
use crate::view::pair::{create_plan, pending_view, title_of, PendingPair};
use crate::view::util::{is_id, lemma_id_exists, new_window_label, WINDOW_LABEL_PREFIX};

verus! {

/// Accepts the creation of a pair on the address that the user typed.
///
/// The address is read first, and one that is none is refused with
/// `InvalidUrl`. A pair that is given no label gets one made of the prefix
/// `window_` and a random UUID. A label that a pair has already is refused
/// with `DuplicateLabel`, a made one no less than a given one. The title is
/// empty where none is given.
pub fn view_create<T>(
    state: &AppState<T>,
    url: &str,
    title: Option<String>,
    label: Option<String>,
) -> (r: Result<PendingPair, Error>)
    ensures
        match label {
            Some(l) => pending_view(r) == create_plan(
                state.windows@,
                resolved(url@),
                title_of(title),
                l@,
            ),
            None => exists|id: Seq<char>|
                is_id(id) && pending_view(r) == create_plan(
                    state.windows@,
                    resolved(url@),
                    title_of(title),
                    WINDOW_LABEL_PREFIX@ + id,
                ),
        },
{
    let address = match resolve(url) {
        Ok(a) => a,
        Err(e) => {
            proof {
                lemma_id_exists();
            }
            return Err(e);
        },
    };
    let label = match label {
        Some(l) => l,
        None => new_window_label(),
    };
    crate::view::pair::view_create(state, address, title, label)
}

} // verus!
