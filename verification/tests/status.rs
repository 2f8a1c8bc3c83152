use zprs::status::{count_files, count_statuses, StatusTally, STAGED, UNSTAGED, UNTRACKED};

#[test]
fn tally_of_an_empty_scan_is_clean() {
    let tally = count_statuses(&[]);
    assert_eq!(tally, StatusTally { staged: 0, unstaged: 0, conflicted: 0, untracked: 0 });
    assert!(tally.is_clean());
}

#[test]
fn groups_match_the_flags_of_git() {
    let staged = git2::Status::INDEX_NEW
        | git2::Status::INDEX_MODIFIED
        | git2::Status::INDEX_DELETED
        | git2::Status::INDEX_RENAMED
        | git2::Status::INDEX_TYPECHANGE;
    let unstaged = git2::Status::WT_MODIFIED
        | git2::Status::WT_DELETED
        | git2::Status::WT_TYPECHANGE
        | git2::Status::WT_RENAMED;
    assert_eq!(STAGED, staged.bits());
    assert_eq!(UNSTAGED, unstaged.bits());
    assert_eq!(UNTRACKED, git2::Status::WT_NEW.bits());
    assert_eq!(zprs::status::CONFLICTED, git2::Status::CONFLICTED.bits());
}

#[test]
fn an_entry_counts_once_for_each_group_it_touches() {
    let entries = [0x0002 | 0x0100, 0x0080, 0x0080, 0x8000, 0x4000, 0];
    assert_eq!(count_files(&entries, STAGED), 1);
    let tally = count_statuses(&entries);
    assert_eq!(tally, StatusTally { staged: 1, unstaged: 1, conflicted: 1, untracked: 2 });
    assert!(!tally.is_clean());
}
