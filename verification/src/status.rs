//! Counting the entries of a status scan by category.
//!
//! An entry of a scan is the word of flags that git reports for one path. The
//! flags fall into four groups that share no bit: changes recorded in the
//! index, changes in the working tree, conflicts, and paths that are new in
//! the working tree. An entry counts once for each group it touches.

use vstd::prelude::*;

verus! {

/// The path is new in the index.
pub const INDEX_NEW: u32 = 0x0001;

/// The path is modified in the index.
pub const INDEX_MODIFIED: u32 = 0x0002;

/// The path is deleted from the index.
pub const INDEX_DELETED: u32 = 0x0004;

/// The path is renamed in the index.
pub const INDEX_RENAMED: u32 = 0x0008;

/// The path changed its type in the index.
pub const INDEX_TYPECHANGE: u32 = 0x0010;

/// The path is new in the working tree.
pub const WT_NEW: u32 = 0x0080;

/// The path is modified in the working tree.
pub const WT_MODIFIED: u32 = 0x0100;

/// The path is deleted from the working tree.
pub const WT_DELETED: u32 = 0x0200;

/// The path changed its type in the working tree.
pub const WT_TYPECHANGE: u32 = 0x0400;

/// The path is renamed in the working tree.
pub const WT_RENAMED: u32 = 0x0800;

/// The path is in conflict.
pub const CONFLICTED: u32 = 0x8000;

/// Every flag of a change recorded in the index.
pub const STAGED: u32 = 0x001f;

/// Every flag of a change in the working tree to a path that git tracks.
pub const UNSTAGED: u32 = 0x0f00;

/// The flag of a path that git does not track yet.
pub const UNTRACKED: u32 = 0x0080;

/// Whether a word of flags has a bit of the group `mask`.
pub open spec fn intersects(flags: u32, mask: u32) -> bool {
    flags & mask != 0
}

/// How many of `entries` have a bit of the group `mask`.
pub open spec fn count_in(entries: Seq<u32>, mask: u32) -> nat
    decreases entries.len(),
{
    if entries.len() == 0 {
        0
    } else {
        count_in(entries.drop_last(), mask) + if intersects(entries.last(), mask) {
            1nat
        } else {
            0nat
        }
    }
}

/// How many entries of a status scan fall into each category.
#[derive(Clone, Copy, Debug, PartialEq, Eq, Structural)]
pub struct StatusTally {
    /// Entries with a change recorded in the index.
    pub staged: usize,
    /// Entries with a change in the working tree that the index lacks.
    pub unstaged: usize,
    /// Entries in conflict.
    pub conflicted: usize,
    /// Entries that are new in the working tree.
    pub untracked: usize,
}

impl StatusTally {
    /// A tally is clean exactly when every count is zero.
    pub open spec fn clean(self) -> bool {
        self.staged == 0 && self.unstaged == 0 && self.conflicted == 0 && self.untracked == 0
    }

    /// Whether this is the tally of the scan `entries`.
    pub open spec fn counts(self, entries: Seq<u32>) -> bool {
        &&& self.staged == count_in(entries, STAGED)
        &&& self.unstaged == count_in(entries, UNSTAGED)
        &&& self.conflicted == count_in(entries, CONFLICTED)
        &&& self.untracked == count_in(entries, UNTRACKED)
    }

    /// Whether nothing was counted in any category.
    pub fn is_clean(&self) -> (r: bool)
        ensures
            r == self.clean(),
    {
        self.staged == 0 && self.unstaged == 0 && self.conflicted == 0 && self.untracked == 0
    }
}

/// A count is zero exactly when no entry has a bit of the group.
pub proof fn lemma_count_zero(entries: Seq<u32>, mask: u32)
    ensures
        count_in(entries, mask) == 0 <==> forall|i: int|
            0 <= i < entries.len() ==> !intersects(#[trigger] entries[i], mask),
    decreases entries.len(),
{
    if entries.len() > 0 {
        let front = entries.drop_last();
        lemma_count_zero(front, mask);
        if count_in(entries, mask) == 0 {
            assert forall|i: int| 0 <= i < entries.len() implies !intersects(
                #[trigger] entries[i],
                mask,
            ) by {
                if i < front.len() {
                    assert(entries[i] == front[i]);
                }
            }
        } else if count_in(front, mask) != 0 {
            let i = choose|i: int| 0 <= i < front.len() && intersects(#[trigger] front[i], mask);
            assert(entries[i] == front[i]);
        }
    }
}

/// The four groups are made of the flags that their names stand for, and no
/// two of them share a bit.
pub proof fn lemma_groups()
    ensures
        STAGED == INDEX_NEW | INDEX_MODIFIED | INDEX_DELETED | INDEX_RENAMED | INDEX_TYPECHANGE,
        UNSTAGED == WT_MODIFIED | WT_DELETED | WT_TYPECHANGE | WT_RENAMED,
        UNTRACKED == WT_NEW,
        STAGED & UNSTAGED == 0,
        STAGED & CONFLICTED == 0,
        STAGED & UNTRACKED == 0,
        UNSTAGED & CONFLICTED == 0,
        UNSTAGED & UNTRACKED == 0,
        CONFLICTED & UNTRACKED == 0,
{
    assert(0x001fu32 == 0x0001u32 | 0x0002u32 | 0x0004u32 | 0x0008u32 | 0x0010u32) by (bit_vector);
    assert(0x0f00u32 == 0x0100u32 | 0x0200u32 | 0x0400u32 | 0x0800u32) by (bit_vector);
    assert(0x001fu32 & 0x0f00u32 == 0) by (bit_vector);
    assert(0x001fu32 & 0x8000u32 == 0) by (bit_vector);
    assert(0x001fu32 & 0x0080u32 == 0) by (bit_vector);
    assert(0x0f00u32 & 0x8000u32 == 0) by (bit_vector);
    assert(0x0f00u32 & 0x0080u32 == 0) by (bit_vector);
    assert(0x8000u32 & 0x0080u32 == 0) by (bit_vector);
}

/// Counts the entries that have a bit of the group `mask`.
pub fn count_files(entries: &[u32], mask: u32) -> (n: usize)
    ensures
        n == count_in(entries@, mask),
{
    let mut n: usize = 0;
    let mut i: usize = 0;
    while i < entries.len()
        invariant
            i <= entries.len(),
            n == count_in(entries@.subrange(0, i as int), mask),
            n <= i,
        decreases entries.len() - i,
    {
        assert(entries@.subrange(0, i + 1).drop_last() =~= entries@.subrange(0, i as int));
        if entries[i] & mask != 0 {
            n = n + 1;
        }
        i = i + 1;
    }
    assert(entries@.subrange(0, i as int) =~= entries@);
    n
}

/// Tallies a status scan: for each category, how many entries touch it.
pub fn count_statuses(entries: &[u32]) -> (tally: StatusTally)
    ensures
        tally.counts(entries@),
{
    StatusTally {
        staged: count_files(entries, STAGED),
        unstaged: count_files(entries, UNSTAGED),
        conflicted: count_files(entries, CONFLICTED),
        untracked: count_files(entries, UNTRACKED),
    }
}

/// The tally of a scan is clean exactly when no entry has a flag of any of the
/// four groups.
pub proof fn lemma_clean_scan(tally: StatusTally, entries: Seq<u32>)
    requires
        tally.counts(entries),
    ensures
        tally.clean() <==> forall|i: int|
            0 <= i < entries.len() ==> !intersects(
                #[trigger] entries[i],
                STAGED | UNSTAGED | CONFLICTED | UNTRACKED,
            ),
{
    lemma_count_zero(entries, STAGED);
    lemma_count_zero(entries, UNSTAGED);
    lemma_count_zero(entries, CONFLICTED);
    lemma_count_zero(entries, UNTRACKED);
    assert forall|f: u32|
        intersects(f, STAGED | UNSTAGED | CONFLICTED | UNTRACKED) <==> (intersects(f, STAGED)
            || intersects(f, UNSTAGED) || intersects(f, CONFLICTED) || intersects(
            f,
            UNTRACKED,
        )) by {
        assert((f & (0x001fu32 | 0x0f00u32 | 0x8000u32 | 0x0080u32) != 0) <==> (f & 0x001fu32 != 0
            || f & 0x0f00u32 != 0 || f & 0x8000u32 != 0 || f & 0x0080u32 != 0)) by (bit_vector);
    }
}

} // verus!
