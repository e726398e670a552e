//! The table of the window pairs that exist.

use vstd::prelude::*;
use vstd::string::*;
use crate::error::Error;
use crate::text::same_text;
use crate::util::state::{snapshot_views, SWindowData, WindowData, WindowView};

verus! {

/// Some record of `s` has the label.
pub open spec fn has_label(s: Seq<WindowView>, label: Seq<char>) -> bool {
    exists|i: int| 0 <= i < s.len() && (#[trigger] s[i]).label == label
}

/// The place of a record with the label in `s`; of the only one, where the
/// labels are distinct.
pub open spec fn position(s: Seq<WindowView>, label: Seq<char>) -> int {
    choose|i: int| 0 <= i < s.len() && (#[trigger] s[i]).label == label
}

/// The record of `s` that has the label.
pub open spec fn record(s: Seq<WindowView>, label: Seq<char>) -> WindowView {
    s[position(s, label)]
}

/// No two records of `s` share a label.
pub open spec fn labels_distinct(s: Seq<WindowView>) -> bool {
    forall|i: int, j: int|
        0 <= i < j < s.len() ==> (#[trigger] s[i]).label != (#[trigger] s[j]).label
}

/// Exactly one record of `s` has the label.
pub open spec fn holds_once(s: Seq<WindowView>, label: Seq<char>) -> bool {
    exists|i: int|
        0 <= i < s.len() && (#[trigger] s[i]).label == label && forall|j: int|
            0 <= j < s.len() && (#[trigger] s[j]).label == label ==> j == i
}

/// What every registry satisfies: distinct labels, and each zoom within its
/// bounds.
pub open spec fn registry_wf(s: Seq<WindowView>) -> bool {
    &&& labels_distinct(s)
    &&& forall|i: int| 0 <= i < s.len() ==> (#[trigger] s[i]).wf()
}

/// `s` after a record was asked to be added.
pub open spec fn added(s: Seq<WindowView>, w: WindowView) -> Seq<WindowView> {
    if has_label(s, w.label) {
        s
    } else {
        s.push(w)
    }
}

/// `s` after the record with the label was asked to be removed.
pub open spec fn removed(s: Seq<WindowView>, label: Seq<char>) -> Seq<WindowView> {
    if has_label(s, label) {
        s.remove(position(s, label))
    } else {
        s
    }
}

/// `s` with the record that has the label replaced by `w`.
pub open spec fn replaced(s: Seq<WindowView>, label: Seq<char>, w: WindowView) -> Seq<WindowView> {
    if has_label(s, label) {
        s.update(position(s, label), w)
    } else {
        s
    }
}

/// Where the labels are distinct, a record with the label stands at one
/// place only.
pub proof fn lemma_position(s: Seq<WindowView>, label: Seq<char>, i: int)
    requires
        labels_distinct(s),
        0 <= i < s.len(),
        s[i].label == label,
    ensures
        has_label(s, label),
        position(s, label) == i,
        record(s, label) == s[i],
        holds_once(s, label),
{
    let p = position(s, label);
    assert(0 <= p < s.len() && s[p].label == label);
    if p < i {
        assert(s[p].label != s[i].label);
    }
    if i < p {
        assert(s[i].label != s[p].label);
    }
    assert forall|j: int| 0 <= j < s.len() && (#[trigger] s[j]).label == label implies j == i by {
        if j < i {
            assert(s[j].label != s[i].label);
        }
        if i < j {
            assert(s[i].label != s[j].label);
        }
    }
}

/// Adding keeps a registry well formed, and the new label is then held
/// once; a label that is present already leaves the registry as it was.
pub proof fn lemma_added(s: Seq<WindowView>, w: WindowView)
    requires
        registry_wf(s),
        w.wf(),
    ensures
        registry_wf(added(s, w)),
        holds_once(added(s, w), w.label),
        !has_label(s, w.label) ==> record(added(s, w), w.label) == w,
        forall|l: Seq<char>| l != w.label ==> has_label(added(s, w), l) == has_label(s, l),
{
    let t = added(s, w);
    if has_label(s, w.label) {
        let p = position(s, w.label);
        lemma_position(s, w.label, p);
    } else {
        assert forall|i: int, j: int| 0 <= i < j < t.len() implies (#[trigger] t[i]).label != (
        #[trigger] t[j]).label by {
            if j == s.len() {
                assert(s[i].label != w.label);
            } else {
                assert(s[i].label != s[j].label);
            }
        }
        assert(t[s.len() as int] == w);
        lemma_position(t, w.label, s.len() as int);
        assert forall|l: Seq<char>| l != w.label implies has_label(t, l) == has_label(s, l) by {
            if has_label(s, l) {
                let i = position(s, l);
                assert(t[i].label == l);
            }
            if has_label(t, l) {
                let i = position(t, l);
                assert(s[i].label == l);
            }
        }
    }
}

/// Removing keeps a registry well formed, and the label is gone after it;
/// every other label stays, with its record.
pub proof fn lemma_removed(s: Seq<WindowView>, label: Seq<char>)
    requires
        registry_wf(s),
    ensures
        registry_wf(removed(s, label)),
        !has_label(removed(s, label), label),
        has_label(s, label) ==> removed(s, label).len() + 1 == s.len(),
        forall|l: Seq<char>|
            l != label ==> has_label(removed(s, label), l) == has_label(s, l) && (has_label(s, l)
                ==> record(removed(s, label), l) == record(s, l)),
{
    let t = removed(s, label);
    if has_label(s, label) {
        let p = position(s, label);
        lemma_position(s, label, p);
        assert forall|i: int, j: int| 0 <= i < j < t.len() implies (#[trigger] t[i]).label != (
        #[trigger] t[j]).label by {
            let a = if i < p { i } else { i + 1 };
            let b = if j < p { j } else { j + 1 };
            assert(t[i] == s[a] && t[j] == s[b]);
            assert(s[a].label != s[b].label);
        }
        assert forall|i: int| 0 <= i < t.len() implies (#[trigger] t[i]).wf() by {
            let a = if i < p { i } else { i + 1 };
            assert(t[i] == s[a]);
        }
        if has_label(t, label) {
            let i = position(t, label);
            let a = if i < p { i } else { i + 1 };
            assert(t[i] == s[a]);
            if a < p {
                assert(s[a].label != s[p].label);
            } else {
                assert(s[p].label != s[a].label);
            }
        }
        assert forall|l: Seq<char>| l != label implies has_label(t, l) == has_label(s, l) && (
        has_label(s, l) ==> record(t, l) == record(s, l)) by {
            if has_label(s, l) {
                let i = position(s, l);
                let a = if i < p { i } else { i - 1 };
                assert(t[a] == s[i]);
                lemma_position(t, l, a);
            }
            if has_label(t, l) {
                let i = position(t, l);
                let a = if i < p { i } else { i + 1 };
                assert(t[i] == s[a]);
                assert(s[a].label == l);
            }
        }
    } else {
        assert forall|l: Seq<char>| l != label implies has_label(t, l) == has_label(s, l) && (
        has_label(s, l) ==> record(t, l) == record(s, l)) by {}
    }
}

/// Replacing a record by one with the same label keeps a registry well
/// formed and touches no other record.
pub proof fn lemma_replaced(s: Seq<WindowView>, label: Seq<char>, w: WindowView)
    requires
        registry_wf(s),
        w.wf(),
        w.label == label,
    ensures
        registry_wf(replaced(s, label, w)),
        replaced(s, label, w).len() == s.len(),
        forall|l: Seq<char>| has_label(replaced(s, label, w), l) == has_label(s, l),
        has_label(s, label) ==> record(replaced(s, label, w), label) == w,
        forall|l: Seq<char>|
            l != label && has_label(s, l) ==> record(replaced(s, label, w), l) == record(s, l),
{
    let t = replaced(s, label, w);
    if has_label(s, label) {
        let p = position(s, label);
        lemma_position(s, label, p);
        assert forall|i: int| 0 <= i < t.len() implies (#[trigger] t[i]).label == s[i].label by {}
        assert forall|i: int, j: int| 0 <= i < j < t.len() implies (#[trigger] t[i]).label != (
        #[trigger] t[j]).label by {
            assert(s[i].label != s[j].label);
        }
        assert forall|i: int| 0 <= i < t.len() implies (#[trigger] t[i]).wf() by {
            if i != p {
                assert(t[i] == s[i]);
            }
        }
        assert forall|l: Seq<char>| has_label(t, l) == has_label(s, l) by {
            if has_label(s, l) {
                let i = position(s, l);
                assert(t[i].label == l);
            }
            if has_label(t, l) {
                let i = position(t, l);
                assert(s[i].label == l);
            }
        }
        lemma_position(t, label, p);
        assert forall|l: Seq<char>| l != label && has_label(s, l) implies record(t, l) == record(
            s,
            l,
        ) by {
            let i = position(s, l);
            assert(t[i] == s[i]);
            lemma_position(t, l, i);
        }
    }
}

/// The window pairs that exist, each with its record.
///
/// No label occurs twice. A record enters when its pair has been created
/// and leaves when the pair is closed; between the two only its style
/// states change, each when the window has taken the new value.
#[derive(Debug)]
pub struct Registry {
    records: Vec<WindowData>,
}

impl View for Registry {
    type V = Seq<WindowView>;

    closed spec fn view(&self) -> Seq<WindowView> {
        Seq::new(self.records@.len(), |i: int| self.records@[i]@)
    }
}

impl Registry {
    #[verifier::type_invariant]
    closed spec fn inv(self) -> bool {
        registry_wf(self@)
    }

    /// A registry without records.
    pub fn new() -> (r: Self)
        ensures
            r@ == Seq::<WindowView>::empty(),
    {
        let r = Registry { records: Vec::new() };
        assert(r@ =~= Seq::<WindowView>::empty());
        r
    }

    /// The number of records.
    pub fn len(&self) -> (r: usize)
        ensures
            r == self@.len(),
            registry_wf(self@),
    {
        self.well_formed();
        self.records.len()
    }

    /// Says what every registry satisfies. It does nothing when run.
    pub fn well_formed(&self)
        ensures
            registry_wf(self@),
    {
        proof {
            use_type_invariant(self);
        }
    }

    /// The place of the record with the label.
    fn find(&self, label: &str) -> (r: Option<usize>)
        ensures
            registry_wf(self@),
            match r {
                Some(i) => i < self@.len() && self@[i as int].label == label@ && position(
                    self@,
                    label@,
                ) == i && has_label(self@, label@),
                None => !has_label(self@, label@),
            },
    {
        self.well_formed();
        let mut i: usize = 0;
        while i < self.records.len()
            invariant
                i <= self.records@.len(),
                self@.len() == self.records@.len(),
                registry_wf(self@),
                forall|j: int| 0 <= j < i ==> (#[trigger] self@[j]).label != label@,
            decreases self.records@.len() - i,
        {
            if same_text(self.records[i].label().as_str(), label) {
                proof {
                    lemma_position(self@, label@, i as int);
                }
                return Some(i);
            }
            i += 1;
        }
        None
    }

    /// Whether a pair with the label exists.
    pub fn contains(&self, label: &str) -> (r: bool)
        ensures
            r == has_label(self@, label@),
            registry_wf(self@),
    {
        self.find(label).is_some()
    }

    /// Enters the record of a new pair. A label that is present already is
    /// refused, and the registry stays as it was.
    pub fn add(&mut self, window: WindowData) -> (r: Result<(), Error>)
        ensures
            final(self)@ == added(old(self)@, window@),
            r == if has_label(old(self)@, window@.label) {
                Err::<(), Error>(Error::DuplicateLabel)
            } else {
                Ok::<(), Error>(())
            },
            registry_wf(final(self)@),
    {
        self.well_formed();
        proof {
            use_type_invariant(&window);
            window.lemma_inv();
            lemma_added(self@, window@);
        }
        if self.find(window.label().as_str()).is_some() {
            return Err(Error::DuplicateLabel);
        }
        let ghost before = self@;
        let mut records = Vec::new();
        std::mem::swap(&mut records, &mut self.records);
        records.push(window);
        assert(Seq::new(records@.len(), |i: int| records@[i]@) =~= before.push(window@));
        self.records = records;
        Ok(())
    }

    /// Takes the record with the label out. A label that is absent is an
    /// error, and the registry stays as it was.
    pub fn remove(&mut self, label: &str) -> (r: Result<(), Error>)
        ensures
            final(self)@ == removed(old(self)@, label@),
            r == if has_label(old(self)@, label@) {
                Ok::<(), Error>(())
            } else {
                Err::<(), Error>(Error::NotFound)
            },
            registry_wf(final(self)@),
    {
        self.well_formed();
        proof {
            lemma_removed(self@, label@);
        }
        match self.find(label) {
            Some(i) => {
                let ghost before = self@;
                let mut records = Vec::new();
                std::mem::swap(&mut records, &mut self.records);
                records.remove(i);
                assert(Seq::new(records@.len(), |i: int| records@[i]@) =~= before.remove(i as int));
                self.records = records;
                Ok(())
            },
            None => Err(Error::NotFound),
        }
    }

    /// A copy of the record with the label, as it stands now.
    pub fn get(&self, label: &str) -> (r: Option<WindowData>)
        ensures
            match r {
                Some(w) => has_label(self@, label@) && w@ == record(self@, label@) && w@.wf(),
                None => !has_label(self@, label@),
            },
            registry_wf(self@),
    {
        match self.find(label) {
            Some(i) => Some(self.records[i].clone()),
            None => None,
        }
    }

    /// Puts `window` in the place of the record that has its label. Where
    /// no record has it, nothing changes and the error says so.
    pub(crate) fn replace(&mut self, window: WindowData) -> (r: Result<(), Error>)
        ensures
            final(self)@ == replaced(old(self)@, window@.label, window@),
            r == if has_label(old(self)@, window@.label) {
                Ok::<(), Error>(())
            } else {
                Err::<(), Error>(Error::NotFound)
            },
            registry_wf(final(self)@),
    {
        self.well_formed();
        proof {
            use_type_invariant(&window);
            window.lemma_inv();
            lemma_replaced(self@, window@.label, window@);
        }
        match self.find(window.label().as_str()) {
            Some(i) => {
                let ghost before = self@;
                let mut records = Vec::new();
                std::mem::swap(&mut records, &mut self.records);
                records.set(i, window);
                assert(Seq::new(records@.len(), |i: int| records@[i]@) =~= before.update(
                    i as int,
                    window@,
                ));
                self.records = records;
                Ok(())
            },
            None => Err(Error::NotFound),
        }
    }

    /// A copy of every record as it stands now, in the order of the table.
    pub fn snapshot(&self) -> (r: Vec<SWindowData>)
        ensures
            snapshot_views(r@) == self@,
            registry_wf(self@),
    {
        self.well_formed();
        let mut out: Vec<SWindowData> = Vec::new();
        let mut i: usize = 0;
        while i < self.records.len()
            invariant
                i <= self.records@.len(),
                self@.len() == self.records@.len(),
                out@.len() == i,
                forall|j: int| 0 <= j < i ==> (#[trigger] out@[j])@ == self@[j],
            decreases self.records@.len() - i,
        {
            out.push(self.records[i].snapshot());
            i += 1;
        }
        assert(snapshot_views(out@) =~= self@);
        out
    }
}

} // verus!
