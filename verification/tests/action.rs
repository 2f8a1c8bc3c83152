use zprs::action::{
    first_matching, get_action, operation_state, MailboxDir, Marker, Markers, OperationState,
};

fn absent() -> MailboxDir {
    MailboxDir { present: false, rebasing: false, applying: false }
}

fn no_markers() -> Markers {
    Markers {
        rebase_apply: absent(),
        rebase: absent(),
        dotest: absent(),
        rebase_merge_interactive: false,
        dotest_merge_interactive: false,
        rebase_merge: false,
        dotest_merge: false,
        merge_head: false,
        bisect_log: false,
        cherry_pick_head: false,
        sequencer: false,
    }
}

#[test]
fn no_marker_no_operation() {
    assert_eq!(operation_state(&no_markers()), OperationState::Idle);
    assert_eq!(get_action(&no_markers()), None);
}

#[test]
fn merge_outranks_bisect() {
    let m = Markers { merge_head: true, bisect_log: true, ..no_markers() };
    assert_eq!(operation_state(&m), OperationState::Merge);
    assert_eq!(get_action(&m), Some("merge".to_string()));
}

#[test]
fn probing_twice_gives_the_same_state() {
    let m = Markers { merge_head: true, bisect_log: true, ..no_markers() };
    assert_eq!(operation_state(&m), operation_state(&m));
    assert_eq!(get_action(&m), get_action(&m));
}

#[test]
fn bisect_alone() {
    let m = Markers { bisect_log: true, ..no_markers() };
    assert_eq!(operation_state(&m), OperationState::Bisect);
    assert_eq!(get_action(&m), Some("bisect".to_string()));
}

#[test]
fn cherry_pick_with_sequencer() {
    let m = Markers { cherry_pick_head: true, sequencer: true, ..no_markers() };
    assert_eq!(operation_state(&m), OperationState::CherryPickSequencer);
    assert_eq!(get_action(&m), Some("cherry-seq".to_string()));
}

#[test]
fn cherry_pick_without_sequencer() {
    let m = Markers { cherry_pick_head: true, ..no_markers() };
    assert_eq!(operation_state(&m), OperationState::CherryPick);
    assert_eq!(get_action(&m), Some("cherry".to_string()));
}

#[test]
fn sequencer_alone() {
    let m = Markers { sequencer: true, ..no_markers() };
    assert_eq!(operation_state(&m), OperationState::CherryOrRevert);
    assert_eq!(get_action(&m), Some("cherry-or-revert".to_string()));
}

#[test]
fn mailbox_directory_by_its_contents() {
    let rebasing = MailboxDir { present: true, rebasing: true, applying: false };
    let applying = MailboxDir { present: true, rebasing: false, applying: true };
    let bare = MailboxDir { present: true, rebasing: false, applying: false };
    let both = MailboxDir { present: true, rebasing: true, applying: true };
    let m = Markers { rebase_apply: rebasing, ..no_markers() };
    assert_eq!(get_action(&m), Some("rebase".to_string()));
    let m = Markers { rebase_apply: applying, ..no_markers() };
    assert_eq!(get_action(&m), Some("am".to_string()));
    let m = Markers { rebase_apply: bare, ..no_markers() };
    assert_eq!(get_action(&m), Some("am/rebase".to_string()));
    let m = Markers { rebase_apply: both, ..no_markers() };
    assert_eq!(get_action(&m), Some("rebase".to_string()));
}

#[test]
fn earlier_mailbox_directory_wins() {
    let applying = MailboxDir { present: true, rebasing: false, applying: true };
    let rebasing = MailboxDir { present: true, rebasing: true, applying: false };
    let bare = MailboxDir { present: true, rebasing: false, applying: false };
    let m = Markers { rebase_apply: bare, rebase: rebasing, dotest: applying, ..no_markers() };
    assert_eq!(operation_state(&m), OperationState::ApplyOrRebase);
    let m = Markers { rebase: applying, dotest: rebasing, ..no_markers() };
    assert_eq!(operation_state(&m), OperationState::ApplyMailbox);
    let m = Markers { dotest: rebasing, merge_head: true, ..no_markers() };
    assert_eq!(operation_state(&m), OperationState::Rebase);
}

#[test]
fn interactive_rebase_outranks_merging_rebase() {
    let m = Markers {
        rebase_merge_interactive: true,
        rebase_merge: true,
        merge_head: true,
        ..no_markers()
    };
    assert_eq!(get_action(&m), Some("rebase-i".to_string()));
    let m = Markers { dotest_merge_interactive: true, rebase_merge: true, ..no_markers() };
    assert_eq!(get_action(&m), Some("rebase-i".to_string()));
    let m = Markers { rebase_merge: true, sequencer: true, ..no_markers() };
    assert_eq!(get_action(&m), Some("rebase-m".to_string()));
    let m = Markers { dotest_merge: true, bisect_log: true, ..no_markers() };
    assert_eq!(get_action(&m), Some("rebase-m".to_string()));
}

#[test]
fn first_matching_rule_decides() {
    let table = [
        (false, OperationState::Rebase),
        (true, OperationState::Bisect),
        (true, OperationState::Merge),
    ];
    assert_eq!(first_matching(&table), OperationState::Bisect);
    assert_eq!(first_matching(&table[..1]), OperationState::Idle);
    assert_eq!(first_matching(&[]), OperationState::Idle);
}

#[test]
fn every_operation_has_its_label() {
    assert_eq!(OperationState::Idle.label(), None);
    assert_eq!(OperationState::Rebase.label(), Some("rebase"));
    assert_eq!(OperationState::ApplyMailbox.label(), Some("am"));
    assert_eq!(OperationState::ApplyOrRebase.label(), Some("am/rebase"));
    assert_eq!(OperationState::InteractiveRebase.label(), Some("rebase-i"));
    assert_eq!(OperationState::MergeRebase.label(), Some("rebase-m"));
    assert_eq!(OperationState::Merge.label(), Some("merge"));
    assert_eq!(OperationState::Bisect.label(), Some("bisect"));
    assert_eq!(OperationState::CherryPick.label(), Some("cherry"));
    assert_eq!(OperationState::CherryPickSequencer.label(), Some("cherry-seq"));
    assert_eq!(OperationState::CherryOrRevert.label(), Some("cherry-or-revert"));
}

#[test]
fn none_has_no_marker() {
    assert_eq!(Markers::none(), no_markers());
    for marker in Marker::all() {
        assert!(!Markers::none().found(marker));
    }
}

#[test]
fn every_marker_is_listed_once() {
    let all = Marker::all();
    assert_eq!(all.len(), 17);
    for i in 0..all.len() {
        for j in 0..i {
            assert_ne!(all[i], all[j]);
            assert_ne!(all[i].path(), all[j].path());
        }
    }
}

#[test]
fn recording_a_marker_changes_that_marker_only() {
    for marker in Marker::all() {
        let mut m = Markers::none();
        m.record(marker);
        for other in Marker::all() {
            assert_eq!(m.found(other), other == marker);
        }
        let once = m;
        m.record(marker);
        assert_eq!(m, once);
    }
}

#[test]
fn recorded_markers_fill_the_fields() {
    let mut m = Markers::none();
    m.record(Marker::MergeHead);
    m.record(Marker::BisectLog);
    assert_eq!(m, Markers { merge_head: true, bisect_log: true, ..no_markers() });
    let mut m = Markers::none();
    m.record(Marker::Dotest);
    m.record(Marker::DotestApplying);
    let dotest = MailboxDir { present: true, rebasing: false, applying: true };
    assert_eq!(m, Markers { dotest, ..no_markers() });
    assert_eq!(get_action(&m), Some("am".to_string()));
}

#[test]
fn where_the_markers_lie() {
    assert_eq!(Marker::RebaseApplyRebasing.path(), "rebase-apply/rebasing");
    assert_eq!(Marker::RebaseApplyApplying.path(), "rebase-apply/applying");
    assert_eq!(Marker::RebaseApply.path(), "rebase-apply");
    assert_eq!(Marker::RebaseRebasing.path(), "rebase/rebasing");
    assert_eq!(Marker::RebaseApplying.path(), "rebase/applying");
    assert_eq!(Marker::Rebase.path(), "rebase");
    assert_eq!(Marker::DotestRebasing.path(), "../.dotest/rebasing");
    assert_eq!(Marker::DotestApplying.path(), "../.dotest/applying");
    assert_eq!(Marker::Dotest.path(), "../.dotest");
    assert_eq!(Marker::RebaseMergeInteractive.path(), "rebase-merge/interactive");
    assert_eq!(Marker::DotestMergeInteractive.path(), ".dotest-merge/interactive");
    assert_eq!(Marker::RebaseMerge.path(), "rebase-merge");
    assert_eq!(Marker::DotestMerge.path(), ".dotest-merge");
    assert_eq!(Marker::MergeHead.path(), "MERGE_HEAD");
    assert_eq!(Marker::BisectLog.path(), "BISECT_LOG");
    assert_eq!(Marker::CherryPickHead.path(), "CHERRY_PICK_HEAD");
    assert_eq!(Marker::Sequencer.path(), "sequencer");
}
