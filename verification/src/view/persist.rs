//! Between the registry and the persisted configuration.

use vstd::prelude::*;
use vstd::string::*;
use crate::address::{resolve, resolved};
use crate::error::Error;
use crate::registry::{has_label, labels_distinct};
use crate::text::same_text;
use crate::util::state::{snapshot_views, AppState, Conf, ConfView, SWindowData, WindowView};
use crate::view::pair::{opened_registry, Opening, PendingPair, PendingView};

verus! {

/// Brings the window list of the configuration up to the registry, so that
/// what is written to the file next holds the pairs that exist now. The
/// global settings stay.
pub fn sync_windows(state: &mut AppState<Conf>)
    ensures
        final(state).config.document()@ == (ConfView {
            windows: old(state).windows@,
            ..old(state).config.document()@
        }),
        final(state).config.path() == old(state).config.path(),
        final(state).windows == old(state).windows,
{
    state.write_conf();
}

/// Remembers `agent` as the user agent that a content window presents by
/// itself: the desktop one.
pub fn cache_user_agent(state: &mut AppState<Conf>, agent: String)
    ensures
        final(state).config.document()@ == (ConfView {
            agent_desktop: agent@,
            ..old(state).config.document()@
        }),
        final(state).config.path() == old(state).config.path(),
        final(state).windows == old(state).windows,
{
    let held = state.config.get();
    let mut windows: Vec<SWindowData> = Vec::new();
    let mut i: usize = 0;
    while i < held.windows.len()
        invariant
            i <= held.windows@.len(),
            windows@.len() == i,
            forall|j: int| 0 <= j < i ==> (#[trigger] windows@[j])@ == held.windows@[j]@,
        decreases held.windows@.len() - i,
    {
        windows.push(held.windows[i].clone());
        i += 1;
    }
    assert(snapshot_views(windows@) =~= snapshot_views(held.windows@));
    let next = Conf {
        agent_desktop: agent,
        agent_mobile: held.agent_mobile.clone(),
        shortcut_key: held.shortcut_key.clone(),
        windows,
    };
    state.config.set(next);
}

/// The models of a list of pending pairs.
pub open spec fn pending_views(v: Seq<PendingPair>) -> Seq<PendingView> {
    Seq::new(v.len(), |i: int| v[i]@)
}

/// Some pending pair of `ps` has the label.
pub open spec fn pending_has_label(ps: Seq<PendingView>, label: Seq<char>) -> bool {
    exists|i: int| 0 <= i < ps.len() && (#[trigger] ps[i]).label == label
}

/// The pairs of a saved list that can be brought back beside the registry
/// `s`, in the order of the list.
///
/// An entry is passed over if its address is none, if a pair of the
/// registry has its label, or if an earlier entry that is brought back has
/// it. No entry that is passed over keeps a later one from coming back.
/// Only title, label and address come back: the style is that of a new
/// pair.
pub open spec fn restorable(s: Seq<WindowView>, saved: Seq<WindowView>) -> Seq<PendingView>
    decreases saved.len(),
{
    if saved.len() == 0 {
        seq![]
    } else {
        let before = restorable(s, saved.drop_last());
        let w = saved.last();
        match resolved(w.url) {
            Ok(u) => if has_label(s, w.label) || pending_has_label(before, w.label) {
                before
            } else {
                before.push(PendingView { label: w.label, title: w.title, url: u })
            },
            Err(_) => before,
        }
    }
}

/// Whether a pending pair of the list has the label.
fn pending_contains(ps: &Vec<PendingPair>, label: &str) -> (r: bool)
    ensures
        r == pending_has_label(pending_views(ps@), label@),
{
    let mut i: usize = 0;
    while i < ps.len()
        invariant
            i <= ps@.len(),
            forall|j: int| 0 <= j < i ==> (#[trigger] pending_views(ps@)[j]).label != label@,
        decreases ps@.len() - i,
    {
        if same_text(ps[i].label.as_str(), label) {
            assert(pending_views(ps@)[i as int].label == label@);
            return true;
        }
        i += 1;
    }
    false
}

/// The pairs that the configuration held when it was saved, as far as they
/// can be brought back now: see [`restorable`]. The program opens the
/// windows of each in turn, and one that fails does not keep the next from
/// being tried.
pub fn view_restore(state: &AppState<Conf>) -> (r: Vec<PendingPair>)
    ensures
        pending_views(r@) == restorable(state.windows@, state.config.document()@.windows),
{
    let saved = &state.config.get().windows;
    let ghost views = snapshot_views(saved@);
    let mut out: Vec<PendingPair> = Vec::new();
    let mut i: usize = 0;
    assert(views.take(0) =~= seq![]);
    assert(pending_views(out@) =~= seq![]);
    while i < saved.len()
        invariant
            i <= saved@.len(),
            views == snapshot_views(saved@),
            pending_views(out@) == restorable(state.windows@, views.take(i as int)),
        decreases saved@.len() - i,
    {
        let w = &saved[i];
        proof {
            assert(views.take(i + 1).drop_last() =~= views.take(i as int));
            assert(views.take(i + 1).last() == w@);
        }
        let ghost before = pending_views(out@);
        match resolve(w.url.as_str()) {
            Ok(address) => {
                if !state.windows.contains(w.label.as_str()) && !pending_contains(
                    &out,
                    w.label.as_str(),
                ) {
                    out.push(
                        PendingPair { label: w.label.clone(), title: w.title.clone(), url: address },
                    );
                    assert(pending_views(out@) =~= before.push(
                        PendingView { label: w@.label, title: w@.title, url: address@ },
                    ));
                }
            },
            Err(_) => {},
        }
        i += 1;
    }
    assert(views.take(saved@.len() as int) =~= views);
    out
}

/// The registry after every pair of `ps` was opened in turn, and each
/// opening went well.
pub open spec fn restored(s: Seq<WindowView>, ps: Seq<PendingView>) -> Seq<WindowView>
    decreases ps.len(),
{
    if ps.len() == 0 {
        s
    } else {
        opened_registry(restored(s, ps.drop_last()), ps.last(), Opening::Opened)
    }
}

/// The address reads back as itself.
pub open spec fn reads_back(w: WindowView) -> bool {
    resolved(w.url) == Ok::<Seq<char>, Error>(w.url)
}

/// Saving and restoring brings every pair back.
///
/// Take the snapshot of a registry: labels distinct, and each address one
/// that reads back as itself. Restored beside an empty registry, it gives
/// as many pairs as were saved, in the same order, each with its title,
/// label and address, and with the style of a new pair.
pub proof fn lemma_restore_round_trip(saved: Seq<WindowView>)
    requires
        labels_distinct(saved),
        forall|i: int| 0 <= i < saved.len() ==> reads_back(#[trigger] saved[i]),
    ensures
        restorable(Seq::empty(), saved).len() == saved.len(),
        forall|i: int|
            0 <= i < saved.len() ==> (#[trigger] restorable(Seq::empty(), saved)[i]) == (
            PendingView { label: saved[i].label, title: saved[i].title, url: saved[i].url }),
        restored(Seq::empty(), restorable(Seq::empty(), saved)).len() == saved.len(),
        forall|i: int|
            0 <= i < saved.len() ==> (#[trigger] restored(
                Seq::empty(),
                restorable(Seq::empty(), saved),
            )[i]) == WindowView::fresh(saved[i].title, saved[i].label, saved[i].url),
    decreases saved.len(),
{
    let empty = Seq::<WindowView>::empty();
    if saved.len() > 0 {
        let head = saved.drop_last();
        let w = saved.last();
        assert forall|i: int| 0 <= i < head.len() implies reads_back(#[trigger] head[i]) by {
            assert(head[i] == saved[i]);
        }
        assert(labels_distinct(head)) by {
            assert forall|i: int, j: int| 0 <= i < j < head.len() implies (#[trigger] head[i]).label
                != (#[trigger] head[j]).label by {
                assert(head[i] == saved[i] && head[j] == saved[j]);
            }
        }
        lemma_restore_round_trip(head);
        let before = restorable(empty, head);
        let ps = restorable(empty, saved);
        assert(reads_back(saved[saved.len() - 1]));
        assert(!has_label(empty, w.label));
        assert(!pending_has_label(before, w.label)) by {
            if pending_has_label(before, w.label) {
                let i = choose|i: int| 0 <= i < before.len() && (#[trigger] before[i]).label
                    == w.label;
                assert(before[i].label == saved[i].label);
                assert(saved[i].label != saved[saved.len() - 1].label);
            }
        }
        let p = PendingView { label: w.label, title: w.title, url: w.url };
        assert(ps == before.push(p));
        assert(ps.drop_last() =~= before);
        assert(ps.last() == p);
        let prior = restored(empty, before);
        let all = restored(empty, ps);
        assert(all == opened_registry(prior, p, Opening::Opened));
        assert(!has_label(prior, w.label)) by {
            if has_label(prior, w.label) {
                let i = choose|i: int| 0 <= i < prior.len() && (#[trigger] prior[i]).label
                    == w.label;
                assert(prior[i].label == saved[i].label);
                assert(saved[i].label != saved[saved.len() - 1].label);
            }
        }
        assert(all == prior.push(p.record()));
        assert forall|i: int| 0 <= i < saved.len() implies (#[trigger] ps[i]) == (PendingView {
            label: saved[i].label,
            title: saved[i].title,
            url: saved[i].url,
        }) by {
            if i < head.len() {
                assert(ps[i] == before[i]);
                assert(head[i] == saved[i]);
            }
        }
        assert forall|i: int| 0 <= i < saved.len() implies (#[trigger] all[i])
            == WindowView::fresh(saved[i].title, saved[i].label, saved[i].url) by {
            if i < head.len() {
                assert(all[i] == prior[i]);
                assert(head[i] == saved[i]);
            }
        }
    }
}

} // verus!
