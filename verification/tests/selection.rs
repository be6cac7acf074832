use firefox_session_ui_egui::selection::SelectionSet;

fn explicit(bucket: &Option<Vec<u32>>) -> Vec<u32> {
    bucket.clone().expect("bucket should hold an explicit sequence")
}

#[test]
fn select_appends_and_forces_other_bucket_explicit() {
    let mut sel = SelectionSet::default();
    assert!(sel.open_group_indexes.is_none());
    assert!(sel.closed_group_indexes.is_none());

    let changed = sel.toggle(true, 2, true);
    assert!(changed);
    assert_eq!(explicit(&sel.open_group_indexes), vec![2]);
    assert_eq!(explicit(&sel.closed_group_indexes), Vec::<u32>::new());

    let changed = sel.toggle(true, 5, true);
    assert!(changed);
    assert_eq!(explicit(&sel.open_group_indexes), vec![2, 5]);
}

#[test]
fn select_already_selected_is_noop() {
    let mut sel = SelectionSet::default();
    assert!(sel.toggle(true, 1, true));

    // Selecting the same index again must not duplicate it and must not
    // report a change (which would trigger a redundant preview render).
    let changed = sel.toggle(true, 1, true);
    assert!(!changed);
    assert_eq!(explicit(&sel.open_group_indexes), vec![1]);
    assert_eq!(explicit(&sel.closed_group_indexes), Vec::<u32>::new());
}

#[test]
fn deselect_absent_index_is_noop() {
    let mut sel = SelectionSet::default();
    assert!(!sel.toggle(true, 7, false));
    assert!(sel.open_group_indexes.is_none());
    assert!(sel.closed_group_indexes.is_none());

    assert!(sel.toggle(true, 1, true));
    assert!(!sel.toggle(true, 7, false));
    assert_eq!(explicit(&sel.open_group_indexes), vec![1]);
}

#[test]
fn deselect_keeps_remaining_selection() {
    let mut sel = SelectionSet::default();
    assert!(sel.toggle(true, 1, true));
    assert!(sel.toggle(true, 2, true));

    let changed = sel.toggle(true, 1, false);
    assert!(changed);
    assert_eq!(explicit(&sel.open_group_indexes), vec![2]);
    assert_eq!(explicit(&sel.closed_group_indexes), Vec::<u32>::new());
}

#[test]
fn deselect_last_explicit_repairs_to_all_open() {
    let mut sel = SelectionSet::default();
    assert!(sel.toggle(true, 0, true));

    // Removing the sole explicitly selected index empties the open bucket;
    // the repair rule clears it to implicit select-all and forces the closed
    // bucket to an explicit empty sequence.
    let changed = sel.toggle(true, 0, false);
    assert!(changed);
    assert!(sel.open_group_indexes.is_none());
    assert_eq!(explicit(&sel.closed_group_indexes), Vec::<u32>::new());
}

#[test]
fn deselect_last_explicit_in_closed_bucket_repairs() {
    let mut sel = SelectionSet::default();
    assert!(sel.toggle(false, 3, true));
    assert_eq!(explicit(&sel.closed_group_indexes), vec![3]);
    assert_eq!(explicit(&sel.open_group_indexes), Vec::<u32>::new());

    // The emptied bucket is the closed one this time: it falls back to
    // implicit select-all and the open bucket is forced explicit empty.
    let changed = sel.toggle(false, 3, false);
    assert!(changed);
    assert!(sel.closed_group_indexes.is_none());
    assert_eq!(explicit(&sel.open_group_indexes), Vec::<u32>::new());
}

#[test]
fn deselect_with_other_bucket_still_selected_does_not_repair() {
    let mut sel = SelectionSet::default();
    assert!(sel.toggle(true, 0, true));
    assert!(sel.toggle(false, 4, true));

    // The closed bucket still holds an explicit selection, so emptying the
    // open bucket leaves it explicitly empty: no repair.
    let changed = sel.toggle(true, 0, false);
    assert!(changed);
    assert_eq!(explicit(&sel.open_group_indexes), Vec::<u32>::new());
    assert_eq!(explicit(&sel.closed_group_indexes), vec![4]);
}

fn some_bucket_selected(sel: &SelectionSet) -> bool {
    let open_non_empty = sel.open_group_indexes.as_ref().map_or(true, |v| !v.is_empty());
    let closed_non_empty = sel.closed_group_indexes.as_ref().map_or(true, |v| !v.is_empty());
    open_non_empty || closed_non_empty
}

fn no_duplicates(sel: &SelectionSet) -> bool {
    for bucket in [&sel.open_group_indexes, &sel.closed_group_indexes] {
        if let Some(v) = bucket {
            for (i, a) in v.iter().enumerate() {
                if v.iter().skip(i + 1).any(|b| b == a) {
                    return false;
                }
            }
        }
    }
    true
}

#[test]
fn invariant_holds_after_every_toggle_of_a_long_sequence() {
    let mut sel = SelectionSet::default();
    assert!(some_bucket_selected(&sel));

    let script: Vec<(bool, u32, bool)> = vec![
        (true, 0, true),
        (true, 1, true),
        (false, 0, true),
        (true, 0, false),
        (true, 1, false),
        (false, 0, false),
        (false, 9, false),
        (true, 3, true),
        (true, 3, true),
        (true, 3, false),
        (false, 2, true),
        (false, 2, false),
    ];
    for (open, index, select) in script {
        sel.toggle(open, index, select);
        assert!(some_bucket_selected(&sel), "zero groups selected after toggle");
        assert!(no_duplicates(&sel), "duplicate index after toggle");
    }
}

#[test]
fn is_selected_reports_explicit_membership_only() {
    let mut sel = SelectionSet::default();
    // Implicit select-all is not reported as an explicit selection.
    assert!(!sel.is_selected(true, 0));

    sel.toggle(true, 0, true);
    assert!(sel.is_selected(true, 0));
    assert!(!sel.is_selected(true, 1));
    assert!(!sel.is_selected(false, 0));
}
