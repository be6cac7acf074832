//! The selection set: which tab groups of each bucket (open windows, closed
//! windows) are chosen for preview and export.
//!
//! Each bucket carries an optional sequence of group indexes; an absent
//! sequence means every member of that bucket is implicitly selected. The
//! governing invariant is that at least one bucket always resolves to a
//! non-empty selection. Removing the last explicitly selected index would
//! break it, so that removal repairs the state: the emptied bucket falls
//! back to implicit select-all and the other bucket is forced to an explicit
//! empty sequence.

use vstd::prelude::*;

verus! {

/// Mathematical value of a [`SelectionSet`].
#[verifier::ext_equal]
pub struct SelectionSetView {
    pub open: Option<Seq<u32>>,
    pub closed: Option<Seq<u32>>,
}

impl SelectionSetView {
    /// The explicit index sequence of one bucket.
    pub open spec fn bucket(self, open: bool) -> Option<Seq<u32>> {
        if open {
            self.open
        } else {
            self.closed
        }
    }

    /// This selection with one bucket replaced.
    pub open spec fn with_bucket(self, open: bool, b: Option<Seq<u32>>) -> SelectionSetView {
        if open {
            SelectionSetView { open: b, closed: self.closed }
        } else {
            SelectionSetView { open: self.open, closed: b }
        }
    }

    /// Whether one bucket resolves to a non-empty selection: an absent
    /// sequence implicitly selects the whole bucket.
    pub open spec fn resolves_non_empty(b: Option<Seq<u32>>) -> bool {
        match b {
            None => true,
            Some(s) => s.len() > 0,
        }
    }

    /// Whether one bucket contributes no explicitly selected index.
    pub open spec fn no_explicit(b: Option<Seq<u32>>) -> bool {
        match b {
            None => true,
            Some(s) => s.len() == 0,
        }
    }

    /// The selection-set invariant: at least one bucket resolves to a
    /// non-empty (implicit or explicit) selection.
    pub open spec fn some_bucket_selected(self) -> bool {
        Self::resolves_non_empty(self.open) || Self::resolves_non_empty(self.closed)
    }

    /// No bucket lists the same index twice.
    pub open spec fn no_duplicates(self) -> bool {
        &&& (self.open matches Some(s) ==> s.no_duplicates())
        &&& (self.closed matches Some(s) ==> s.no_duplicates())
    }
}

/// `s` with every occurrence of `x` removed, order otherwise kept.
pub open spec fn remove_val(s: Seq<u32>, x: u32) -> Seq<u32>
    decreases s.len(),
{
    if s.len() == 0 {
        Seq::empty()
    } else if s[0] == x {
        remove_val(s.drop_first(), x)
    } else {
        seq![s[0]] + remove_val(s.drop_first(), x)
    }
}

/// One toggle applied to the mathematical selection: the resulting selection,
/// and whether the effective selection changed (which is what decides whether
/// the preview must be regenerated).
pub open spec fn spec_toggle_buckets(
    a: Option<Seq<u32>>,
    b: Option<Seq<u32>>,
    index: u32,
    select: bool,
) -> (Option<Seq<u32>>, Option<Seq<u32>>, bool) {
    if select {
        let already = match a {
            Some(q) => q.contains(index),
            None => false,
        };
        if already {
            (a, b, false)
        } else {
            let q = match a {
                Some(q) => q,
                None => Seq::empty(),
            };
            let b2 = match b {
                Some(r) => Some(r),
                None => Some(Seq::<u32>::empty()),
            };
            (Some(q.push(index)), b2, true)
        }
    } else {
        match a {
            Some(q) => {
                if q.contains(index) {
                    let q2 = remove_val(q, index);
                    if q2.len() == 0 && SelectionSetView::no_explicit(b) {
                        // Invariant repair: the removed index was the last
                        // explicitly selected one anywhere.
                        (None, Some(Seq::<u32>::empty()), true)
                    } else {
                        (Some(q2), b, true)
                    }
                } else {
                    (a, b, false)
                }
            },
            None => (a, b, false),
        }
    }
}

/// [`spec_toggle_buckets`] lifted to a whole selection.
pub open spec fn spec_toggle(s: SelectionSetView, open: bool, index: u32, select: bool) -> (
    SelectionSetView,
    bool,
) {
    let (a2, b2, changed) = spec_toggle_buckets(s.bucket(open), s.bucket(!open), index, select);
    (s.with_bucket(open, a2).with_bucket(!open, b2), changed)
}

/// Which tab groups are chosen for preview and export. `None` for a bucket
/// means all of its members are implicitly selected.
#[derive(Debug)]
pub struct SelectionSet {
    pub open_group_indexes: Option<Vec<u32>>,
    pub closed_group_indexes: Option<Vec<u32>>,
}

/// Mathematical value of one bucket.
pub open spec fn opt_seq(v: Option<Vec<u32>>) -> Option<Seq<u32>> {
    match v {
        Some(q) => Some(q@),
        None => None,
    }
}

impl View for SelectionSet {
    type V = SelectionSetView;

    open spec fn view(&self) -> SelectionSetView {
        SelectionSetView {
            open: opt_seq(self.open_group_indexes),
            closed: opt_seq(self.closed_group_indexes),
        }
    }
}

impl DeepView for SelectionSet {
    type V = SelectionSetView;

    open spec fn deep_view(&self) -> SelectionSetView {
        self@
    }
}

fn clone_bucket(v: &Option<Vec<u32>>) -> (res: Option<Vec<u32>>)
    ensures
        opt_seq(res) == opt_seq(*v),
{
    match v {
        Some(q) => Some(q.clone()),
        None => None,
    }
}

impl Clone for SelectionSet {
    fn clone(&self) -> (res: Self)
        ensures
            res@ == self@,
    {
        SelectionSet {
            open_group_indexes: clone_bucket(&self.open_group_indexes),
            closed_group_indexes: clone_bucket(&self.closed_group_indexes),
        }
    }
}

impl Default for SelectionSet {
    fn default() -> (res: Self)
        ensures
            res@ == (SelectionSetView { open: None, closed: None }),
            res@.some_bucket_selected(),
            res@.no_duplicates(),
    {
        SelectionSet { open_group_indexes: None, closed_group_indexes: None }
    }
}

fn contains_u32(q: &Vec<u32>, x: u32) -> (r: bool)
    ensures
        r == q@.contains(x),
{
    let mut i: usize = 0;
    while i < q.len()
        invariant
            i <= q.len(),
            forall|j: int| 0 <= j < i ==> q@[j] != x,
        decreases q.len() - i,
    {
        if q[i] == x {
            return true;
        }
        i = i + 1;
    }
    false
}

fn remove_all_u32(q: &Vec<u32>, x: u32) -> (res: Vec<u32>)
    ensures
        res@ == remove_val(q@, x),
{
    let mut res: Vec<u32> = Vec::new();
    let mut i: usize = 0;
    proof {
        assert(q@.subrange(0, q@.len() as int) =~= q@);
        assert(Seq::<u32>::empty() + remove_val(q@, x) =~= remove_val(q@, x));
    }
    while i < q.len()
        invariant
            i <= q.len(),
            remove_val(q@, x) == res@ + remove_val(q@.subrange(i as int, q@.len() as int), x),
        decreases q.len() - i,
    {
        let ghost tail = q@.subrange(i as int, q@.len() as int);
        let ghost res0 = res@;
        proof {
            assert(tail.len() > 0);
            assert(tail[0] == q@[i as int]);
            assert(tail.drop_first() =~= q@.subrange(i as int + 1, q@.len() as int));
        }
        if q[i] != x {
            res.push(q[i]);
            proof {
                let rest = remove_val(tail.drop_first(), x);
                assert(remove_val(tail, x) == seq![tail[0]] + rest);
                assert(res0 + (seq![tail[0]] + rest) =~= res@ + rest);
            }
        }
        i = i + 1;
    }
    proof {
        assert(q@.subrange(q@.len() as int, q@.len() as int) =~= Seq::<u32>::empty());
        assert(res@ + Seq::<u32>::empty() =~= res@);
    }
    res
}

fn toggle_buckets(
    a: &mut Option<Vec<u32>>,
    b: &mut Option<Vec<u32>>,
    index: u32,
    select: bool,
) -> (changed: bool)
    ensures
        ({
            let (a2, b2, ch) = spec_toggle_buckets(
                opt_seq(*old(a)),
                opt_seq(*old(b)),
                index,
                select,
            );
            opt_seq(*final(a)) == a2 && opt_seq(*final(b)) == b2 && changed == ch
        }),
{
    if select {
        let already = match a {
            Some(q) => contains_u32(q, index),
            None => false,
        };
        if already {
            false
        } else {
            match a {
                Some(q) => {
                    q.push(index);
                },
                None => {
                    let mut q: Vec<u32> = Vec::new();
                    q.push(index);
                    proof {
                        assert(q@ =~= Seq::<u32>::empty().push(index));
                    }
                    *a = Some(q);
                },
            }
            if b.is_none() {
                let empty: Vec<u32> = Vec::new();
                proof {
                    assert(empty@ =~= Seq::<u32>::empty());
                }
                *b = Some(empty);
            }
            true
        }
    } else {
        match a {
            Some(q) => {
                if contains_u32(q, index) {
                    let q2 = remove_all_u32(q, index);
                    let b_no_explicit = match b {
                        Some(r) => r.len() == 0,
                        None => true,
                    };
                    if q2.len() == 0 && b_no_explicit {
                        *a = None;
                        *b = Some(Vec::new());
                    } else {
                        *a = Some(q2);
                    }
                    true
                } else {
                    false
                }
            },
            None => false,
        }
    }
}

impl SelectionSet {
    /// Select or deselect one group index in one bucket.
    ///
    /// Selecting appends the index to the bucket's explicit sequence
    /// (creating it, and forcing the other bucket to an explicit sequence, if
    /// either was absent), unless the index is already present, which changes
    /// nothing. Deselecting removes the index if present; if that removal
    /// leaves no explicitly selected index anywhere, the emptied bucket falls
    /// back to implicit select-all and the other bucket is forced to an
    /// explicit empty sequence. The result says whether the effective
    /// selection changed, i.e. whether the preview must be regenerated.
    pub fn toggle(&mut self, open: bool, index: u32, select: bool) -> (changed: bool)
        ensures
            (final(self)@, changed) == spec_toggle(old(self)@, open, index, select),
            old(self)@.some_bucket_selected() ==> final(self)@.some_bucket_selected(),
            old(self)@.no_duplicates() ==> final(self)@.no_duplicates(),
    {
        proof {
            if old(self)@.some_bucket_selected() {
                lemma_toggle_preserves_some_bucket_selected(old(self)@, open, index, select);
            }
            if old(self)@.no_duplicates() {
                lemma_toggle_preserves_no_duplicates(old(self)@, open, index, select);
            }
        }
        if open {
            toggle_buckets(&mut self.open_group_indexes, &mut self.closed_group_indexes, index, select)
        } else {
            toggle_buckets(&mut self.closed_group_indexes, &mut self.open_group_indexes, index, select)
        }
    }

    /// Whether one group index is currently explicitly selected.
    pub fn is_selected(&self, open: bool, index: u32) -> (r: bool)
        ensures
            r == match self@.bucket(open) {
                Some(q) => q.contains(index),
                None => false,
            },
    {
        let bucket = if open {
            &self.open_group_indexes
        } else {
            &self.closed_group_indexes
        };
        match bucket {
            Some(q) => contains_u32(q, index),
            None => false,
        }
    }
}

/// Law: a toggle never leaves the selection with zero selected groups; if at
/// least one bucket resolved to a non-empty selection before, one still does
/// after.
pub proof fn lemma_toggle_preserves_some_bucket_selected(
    s: SelectionSetView,
    open: bool,
    index: u32,
    select: bool,
)
    requires
        s.some_bucket_selected(),
    ensures
        spec_toggle(s, open, index, select).0.some_bucket_selected(),
{
}

/// Everything [`remove_val`] keeps was already present, so removal cannot
/// introduce a duplicate.
proof fn lemma_remove_val_no_duplicates(s: Seq<u32>, x: u32)
    requires
        s.no_duplicates(),
    ensures
        remove_val(s, x).no_duplicates(),
        forall|y: u32| #[trigger] remove_val(s, x).contains(y) ==> s.contains(y) && y != x,
    decreases s.len(),
{
    if s.len() > 0 {
        lemma_remove_val_no_duplicates(s.drop_first(), x);
        assert(forall|y: u32| #[trigger]
            s.drop_first().contains(y) ==> s.contains(y));
        if s[0] != x {
            let rest = remove_val(s.drop_first(), x);
            let r = seq![s[0]] + rest;
            assert(forall|y: u32| #[trigger] r.contains(y) ==> y == s[0] || rest.contains(y));
            assert(!s.drop_first().contains(s[0]));
            assert(!rest.contains(s[0]));
            assert(r.drop_first() =~= rest);
        }
    }
}

/// Law: a toggle never lists an index twice; in particular selecting an index
/// that is already selected adds no duplicate.
pub proof fn lemma_toggle_preserves_no_duplicates(
    s: SelectionSetView,
    open: bool,
    index: u32,
    select: bool,
)
    requires
        s.no_duplicates(),
    ensures
        spec_toggle(s, open, index, select).0.no_duplicates(),
{
    if !select {
        match s.bucket(open) {
            Some(q) => {
                if q.contains(index) {
                    lemma_remove_val_no_duplicates(q, index);
                }
            },
            None => {},
        }
    }
}

/// Law: selecting an index that is already selected is a no-op — the
/// selection is unchanged and no change is reported, so no redundant preview
/// regeneration is triggered.
pub proof fn lemma_select_already_selected_is_noop(s: SelectionSetView, open: bool, index: u32)
    requires
        s.bucket(open) matches Some(q) && q.contains(index),
    ensures
        spec_toggle(s, open, index, true) == (s, false),
{
    assert(s.with_bucket(open, s.bucket(open)).with_bucket(!open, s.bucket(!open)) =~= s);
}

/// Law: deselecting the sole remaining explicitly selected index clears its
/// bucket to implicit select-all and forces the other bucket to an explicit
/// empty sequence.
pub proof fn lemma_deselect_last_explicit_repairs(s: SelectionSetView, open: bool, index: u32)
    requires
        s.bucket(open) matches Some(q) && q.contains(index) && remove_val(q, index).len() == 0,
        SelectionSetView::no_explicit(s.bucket(!open)),
    ensures
        ({
            let (s2, changed) = spec_toggle(s, open, index, false);
            &&& changed
            &&& s2.bucket(open) is None
            &&& s2.bucket(!open) == Some(Seq::<u32>::empty())
        }),
{
}

} // verus!
