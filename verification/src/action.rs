//! Which multi-step operation is in progress in a repository.
//!
//! Git leaves marker files and directories in a repository's metadata
//! directory while a rebase, a merge, a bisection or a cherry-pick is under
//! way. Which of them are present is held in `Markers`; the operation is found
//! from an ordered table of rules, of which the first that matches decides.

use vstd::prelude::*;
use vstd::string::*;

verus! {

/// What was found of a directory in which git applies a series of patches.
#[derive(Clone, Copy, Debug, PartialEq, Eq, Structural)]
pub struct MailboxDir {
    /// The directory itself exists.
    pub present: bool,
    /// It holds the file `rebasing`.
    pub rebasing: bool,
    /// It holds the file `applying`.
    pub applying: bool,
}

/// Which markers are present under the metadata directory of a repository.
#[derive(Clone, Copy, Debug, PartialEq, Eq, Structural)]
pub struct Markers {
    /// The directory `rebase-apply`.
    pub rebase_apply: MailboxDir,
    /// The directory `rebase`.
    pub rebase: MailboxDir,
    /// The directory `.dotest` beside the metadata directory.
    pub dotest: MailboxDir,
    /// The file `rebase-merge/interactive`.
    pub rebase_merge_interactive: bool,
    /// The file `.dotest-merge/interactive`.
    pub dotest_merge_interactive: bool,
    /// The directory `rebase-merge`.
    pub rebase_merge: bool,
    /// The directory `.dotest-merge`.
    pub dotest_merge: bool,
    /// The file `MERGE_HEAD`.
    pub merge_head: bool,
    /// The file `BISECT_LOG`.
    pub bisect_log: bool,
    /// The file `CHERRY_PICK_HEAD`.
    pub cherry_pick_head: bool,
    /// The directory `sequencer`.
    pub sequencer: bool,
}

/// One marker that git may leave under the metadata directory.
#[derive(Clone, Copy, Debug, PartialEq, Eq, Structural)]
pub enum Marker {
    /// The file `rebase-apply/rebasing`.
    RebaseApplyRebasing,
    /// The file `rebase-apply/applying`.
    RebaseApplyApplying,
    /// The directory `rebase-apply`.
    RebaseApply,
    /// The file `rebase/rebasing`.
    RebaseRebasing,
    /// The file `rebase/applying`.
    RebaseApplying,
    /// The directory `rebase`.
    Rebase,
    /// The file `.dotest/rebasing` beside the metadata directory.
    DotestRebasing,
    /// The file `.dotest/applying` beside the metadata directory.
    DotestApplying,
    /// The directory `.dotest` beside the metadata directory.
    Dotest,
    /// The file `rebase-merge/interactive`.
    RebaseMergeInteractive,
    /// The file `.dotest-merge/interactive`.
    DotestMergeInteractive,
    /// The directory `rebase-merge`.
    RebaseMerge,
    /// The directory `.dotest-merge`.
    DotestMerge,
    /// The file `MERGE_HEAD`.
    MergeHead,
    /// The file `BISECT_LOG`.
    BisectLog,
    /// The file `CHERRY_PICK_HEAD`.
    CherryPickHead,
    /// The directory `sequencer`.
    Sequencer,
}

/// Where a marker lies, from the metadata directory.
pub open spec fn path_of(marker: Marker) -> Seq<char> {
    match marker {
        Marker::RebaseApplyRebasing => "rebase-apply/rebasing"@,
        Marker::RebaseApplyApplying => "rebase-apply/applying"@,
        Marker::RebaseApply => "rebase-apply"@,
        Marker::RebaseRebasing => "rebase/rebasing"@,
        Marker::RebaseApplying => "rebase/applying"@,
        Marker::Rebase => "rebase"@,
        Marker::DotestRebasing => "../.dotest/rebasing"@,
        Marker::DotestApplying => "../.dotest/applying"@,
        Marker::Dotest => "../.dotest"@,
        Marker::RebaseMergeInteractive => "rebase-merge/interactive"@,
        Marker::DotestMergeInteractive => ".dotest-merge/interactive"@,
        Marker::RebaseMerge => "rebase-merge"@,
        Marker::DotestMerge => ".dotest-merge"@,
        Marker::MergeHead => "MERGE_HEAD"@,
        Marker::BisectLog => "BISECT_LOG"@,
        Marker::CherryPickHead => "CHERRY_PICK_HEAD"@,
        Marker::Sequencer => "sequencer"@,
    }
}

/// Every marker, once.
pub open spec fn all_markers() -> Seq<Marker> {
    seq![
        Marker::RebaseApplyRebasing,
        Marker::RebaseApplyApplying,
        Marker::RebaseApply,
        Marker::RebaseRebasing,
        Marker::RebaseApplying,
        Marker::Rebase,
        Marker::DotestRebasing,
        Marker::DotestApplying,
        Marker::Dotest,
        Marker::RebaseMergeInteractive,
        Marker::DotestMergeInteractive,
        Marker::RebaseMerge,
        Marker::DotestMerge,
        Marker::MergeHead,
        Marker::BisectLog,
        Marker::CherryPickHead,
        Marker::Sequencer,
    ]
}

impl Marker {
    /// Where the marker lies, from the metadata directory.
    pub fn path(self) -> (path: &'static str)
        ensures
            path@ == path_of(self),
    {
        match self {
            Marker::RebaseApplyRebasing => "rebase-apply/rebasing",
            Marker::RebaseApplyApplying => "rebase-apply/applying",
            Marker::RebaseApply => "rebase-apply",
            Marker::RebaseRebasing => "rebase/rebasing",
            Marker::RebaseApplying => "rebase/applying",
            Marker::Rebase => "rebase",
            Marker::DotestRebasing => "../.dotest/rebasing",
            Marker::DotestApplying => "../.dotest/applying",
            Marker::Dotest => "../.dotest",
            Marker::RebaseMergeInteractive => "rebase-merge/interactive",
            Marker::DotestMergeInteractive => ".dotest-merge/interactive",
            Marker::RebaseMerge => "rebase-merge",
            Marker::DotestMerge => ".dotest-merge",
            Marker::MergeHead => "MERGE_HEAD",
            Marker::BisectLog => "BISECT_LOG",
            Marker::CherryPickHead => "CHERRY_PICK_HEAD",
            Marker::Sequencer => "sequencer",
        }
    }

    /// Every marker, once: what there is to look for in a repository.
    pub fn all() -> (markers: Vec<Marker>)
        ensures
            markers@ == all_markers(),
    {
        let markers = vec![
            Marker::RebaseApplyRebasing,
            Marker::RebaseApplyApplying,
            Marker::RebaseApply,
            Marker::RebaseRebasing,
            Marker::RebaseApplying,
            Marker::Rebase,
            Marker::DotestRebasing,
            Marker::DotestApplying,
            Marker::Dotest,
            Marker::RebaseMergeInteractive,
            Marker::DotestMergeInteractive,
            Marker::RebaseMerge,
            Marker::DotestMerge,
            Marker::MergeHead,
            Marker::BisectLog,
            Marker::CherryPickHead,
            Marker::Sequencer,
        ];
        assert(markers@ =~= all_markers());
        markers
    }
}

impl Markers {
    /// Whether the given marker is among those present.
    pub open spec fn has(self, marker: Marker) -> bool {
        match marker {
            Marker::RebaseApplyRebasing => self.rebase_apply.rebasing,
            Marker::RebaseApplyApplying => self.rebase_apply.applying,
            Marker::RebaseApply => self.rebase_apply.present,
            Marker::RebaseRebasing => self.rebase.rebasing,
            Marker::RebaseApplying => self.rebase.applying,
            Marker::Rebase => self.rebase.present,
            Marker::DotestRebasing => self.dotest.rebasing,
            Marker::DotestApplying => self.dotest.applying,
            Marker::Dotest => self.dotest.present,
            Marker::RebaseMergeInteractive => self.rebase_merge_interactive,
            Marker::DotestMergeInteractive => self.dotest_merge_interactive,
            Marker::RebaseMerge => self.rebase_merge,
            Marker::DotestMerge => self.dotest_merge,
            Marker::MergeHead => self.merge_head,
            Marker::BisectLog => self.bisect_log,
            Marker::CherryPickHead => self.cherry_pick_head,
            Marker::Sequencer => self.sequencer,
        }
    }

    /// No marker at all: a repository at rest.
    pub open spec fn empty() -> Markers {
        Markers {
            rebase_apply: MailboxDir { present: false, rebasing: false, applying: false },
            rebase: MailboxDir { present: false, rebasing: false, applying: false },
            dotest: MailboxDir { present: false, rebasing: false, applying: false },
            rebase_merge_interactive: false,
            dotest_merge_interactive: false,
            rebase_merge: false,
            dotest_merge: false,
            merge_head: false,
            bisect_log: false,
            cherry_pick_head: false,
            sequencer: false,
        }
    }

    /// No marker at all: a repository at rest.
    pub fn none() -> (m: Markers)
        ensures
            m == Markers::empty(),
    {
        let absent = MailboxDir { present: false, rebasing: false, applying: false };
        Markers {
            rebase_apply: absent,
            rebase: absent,
            dotest: absent,
            rebase_merge_interactive: false,
            dotest_merge_interactive: false,
            rebase_merge: false,
            dotest_merge: false,
            merge_head: false,
            bisect_log: false,
            cherry_pick_head: false,
            sequencer: false,
        }
    }

    /// Whether the given marker is among those present.
    pub fn found(&self, marker: Marker) -> (r: bool)
        ensures
            r == self.has(marker),
    {
        match marker {
            Marker::RebaseApplyRebasing => self.rebase_apply.rebasing,
            Marker::RebaseApplyApplying => self.rebase_apply.applying,
            Marker::RebaseApply => self.rebase_apply.present,
            Marker::RebaseRebasing => self.rebase.rebasing,
            Marker::RebaseApplying => self.rebase.applying,
            Marker::Rebase => self.rebase.present,
            Marker::DotestRebasing => self.dotest.rebasing,
            Marker::DotestApplying => self.dotest.applying,
            Marker::Dotest => self.dotest.present,
            Marker::RebaseMergeInteractive => self.rebase_merge_interactive,
            Marker::DotestMergeInteractive => self.dotest_merge_interactive,
            Marker::RebaseMerge => self.rebase_merge,
            Marker::DotestMerge => self.dotest_merge,
            Marker::MergeHead => self.merge_head,
            Marker::BisectLog => self.bisect_log,
            Marker::CherryPickHead => self.cherry_pick_head,
            Marker::Sequencer => self.sequencer,
        }
    }

    /// These markers and the given one.
    pub open spec fn with(self, marker: Marker) -> Markers {
        Markers {
            rebase_apply: MailboxDir {
                present: self.rebase_apply.present || marker == Marker::RebaseApply,
                rebasing: self.rebase_apply.rebasing || marker == Marker::RebaseApplyRebasing,
                applying: self.rebase_apply.applying || marker == Marker::RebaseApplyApplying,
            },
            rebase: MailboxDir {
                present: self.rebase.present || marker == Marker::Rebase,
                rebasing: self.rebase.rebasing || marker == Marker::RebaseRebasing,
                applying: self.rebase.applying || marker == Marker::RebaseApplying,
            },
            dotest: MailboxDir {
                present: self.dotest.present || marker == Marker::Dotest,
                rebasing: self.dotest.rebasing || marker == Marker::DotestRebasing,
                applying: self.dotest.applying || marker == Marker::DotestApplying,
            },
            rebase_merge_interactive: self.rebase_merge_interactive || marker
                == Marker::RebaseMergeInteractive,
            dotest_merge_interactive: self.dotest_merge_interactive || marker
                == Marker::DotestMergeInteractive,
            rebase_merge: self.rebase_merge || marker == Marker::RebaseMerge,
            dotest_merge: self.dotest_merge || marker == Marker::DotestMerge,
            merge_head: self.merge_head || marker == Marker::MergeHead,
            bisect_log: self.bisect_log || marker == Marker::BisectLog,
            cherry_pick_head: self.cherry_pick_head || marker == Marker::CherryPickHead,
            sequencer: self.sequencer || marker == Marker::Sequencer,
        }
    }

    /// Notes that the given marker is present. The others stay as they were.
    pub fn record(&mut self, marker: Marker)
        ensures
            *final(self) == old(self).with(marker),
    {
        *self = Markers {
            rebase_apply: MailboxDir {
                present: self.rebase_apply.present || marker == Marker::RebaseApply,
                rebasing: self.rebase_apply.rebasing || marker == Marker::RebaseApplyRebasing,
                applying: self.rebase_apply.applying || marker == Marker::RebaseApplyApplying,
            },
            rebase: MailboxDir {
                present: self.rebase.present || marker == Marker::Rebase,
                rebasing: self.rebase.rebasing || marker == Marker::RebaseRebasing,
                applying: self.rebase.applying || marker == Marker::RebaseApplying,
            },
            dotest: MailboxDir {
                present: self.dotest.present || marker == Marker::Dotest,
                rebasing: self.dotest.rebasing || marker == Marker::DotestRebasing,
                applying: self.dotest.applying || marker == Marker::DotestApplying,
            },
            rebase_merge_interactive: self.rebase_merge_interactive || marker
                == Marker::RebaseMergeInteractive,
            dotest_merge_interactive: self.dotest_merge_interactive || marker
                == Marker::DotestMergeInteractive,
            rebase_merge: self.rebase_merge || marker == Marker::RebaseMerge,
            dotest_merge: self.dotest_merge || marker == Marker::DotestMerge,
            merge_head: self.merge_head || marker == Marker::MergeHead,
            bisect_log: self.bisect_log || marker == Marker::BisectLog,
            cherry_pick_head: self.cherry_pick_head || marker == Marker::CherryPickHead,
            sequencer: self.sequencer || marker == Marker::Sequencer,
        };
    }
}

/// After a marker is noted it is present, and no other marker has changed.
pub proof fn lemma_with(m: Markers, marker: Marker, k: Marker)
    ensures
        m.with(marker).has(k) == (m.has(k) || k == marker),
{
}

/// Noting a marker a second time changes nothing, and the order in which
/// markers are noted does not matter: what was found decides, not how the
/// search went.
pub proof fn lemma_with_again(m: Markers, a: Marker, b: Marker)
    ensures
        m.with(a).with(a) == m.with(a),
        m.with(a).with(b) == m.with(b).with(a),
{
}

/// The operation that a repository is in the middle of.
#[derive(Clone, Copy, Debug, PartialEq, Eq, Structural)]
pub enum OperationState {
    /// No operation is in progress.
    Idle,
    /// A rebase that applies patches.
    Rebase,
    /// A mailbox is being applied.
    ApplyMailbox,
    /// Patches are being applied, for a rebase or from a mailbox.
    ApplyOrRebase,
    /// An interactive rebase.
    InteractiveRebase,
    /// A rebase that merges.
    MergeRebase,
    /// A merge.
    Merge,
    /// A bisection.
    Bisect,
    /// A cherry-pick of a single commit.
    CherryPick,
    /// A cherry-pick of several commits, run by the sequencer.
    CherryPickSequencer,
    /// The sequencer is at work on a cherry-pick or a revert.
    CherryOrRevert,
}

/// One rule: whether its marker is present, and the operation it stands for.
pub type Rule = (bool, OperationState);

/// The operation of the first rule that matches; `Idle` when none does.
pub open spec fn first_match(rules: Seq<Rule>) -> OperationState
    decreases rules.len(),
{
    if rules.len() == 0 {
        OperationState::Idle
    } else if rules[0].0 {
        rules[0].1
    } else {
        first_match(rules.drop_first())
    }
}

/// The table of rules for the markers `m`, highest priority first.
pub open spec fn rules(m: Markers) -> Seq<Rule> {
    seq![
        (m.rebase_apply.rebasing, OperationState::Rebase),
        (m.rebase_apply.applying, OperationState::ApplyMailbox),
        (m.rebase_apply.present, OperationState::ApplyOrRebase),
        (m.rebase.rebasing, OperationState::Rebase),
        (m.rebase.applying, OperationState::ApplyMailbox),
        (m.rebase.present, OperationState::ApplyOrRebase),
        (m.dotest.rebasing, OperationState::Rebase),
        (m.dotest.applying, OperationState::ApplyMailbox),
        (m.dotest.present, OperationState::ApplyOrRebase),
        (m.rebase_merge_interactive, OperationState::InteractiveRebase),
        (m.dotest_merge_interactive, OperationState::InteractiveRebase),
        (m.rebase_merge, OperationState::MergeRebase),
        (m.dotest_merge, OperationState::MergeRebase),
        (m.merge_head, OperationState::Merge),
        (m.bisect_log, OperationState::Bisect),
        (m.cherry_pick_head && m.sequencer, OperationState::CherryPickSequencer),
        (m.cherry_pick_head, OperationState::CherryPick),
        (m.sequencer, OperationState::CherryOrRevert),
    ]
}

/// The operation in progress, given which markers are present.
pub open spec fn operation_of(m: Markers) -> OperationState {
    first_match(rules(m))
}

/// Whether a marker of a rebase of any kind is present. These outrank every
/// other marker.
pub open spec fn rebasing(m: Markers) -> bool {
    ||| m.rebase_apply.rebasing || m.rebase_apply.applying || m.rebase_apply.present
    ||| m.rebase.rebasing || m.rebase.applying || m.rebase.present
    ||| m.dotest.rebasing || m.dotest.applying || m.dotest.present
    ||| m.rebase_merge_interactive || m.dotest_merge_interactive
    ||| m.rebase_merge || m.dotest_merge
}

/// The name under which an operation is shown; none for `Idle`.
pub open spec fn label_of(state: OperationState) -> Option<Seq<char>> {
    match state {
        OperationState::Idle => None,
        OperationState::Rebase => Some("rebase"@),
        OperationState::ApplyMailbox => Some("am"@),
        OperationState::ApplyOrRebase => Some("am/rebase"@),
        OperationState::InteractiveRebase => Some("rebase-i"@),
        OperationState::MergeRebase => Some("rebase-m"@),
        OperationState::Merge => Some("merge"@),
        OperationState::Bisect => Some("bisect"@),
        OperationState::CherryPick => Some("cherry"@),
        OperationState::CherryPickSequencer => Some("cherry-seq"@),
        OperationState::CherryOrRevert => Some("cherry-or-revert"@),
    }
}

/// In a table of rules, a rule that matches decides as soon as no rule before
/// it matches, whatever the rules after it say.
pub proof fn lemma_first_match_decides(rules: Seq<Rule>, i: int)
    requires
        0 <= i < rules.len(),
        rules[i].0,
        forall|j: int| 0 <= j < i ==> !(#[trigger] rules[j]).0,
    ensures
        first_match(rules) == rules[i].1,
    decreases i,
{
    if i > 0 {
        let rest = rules.drop_first();
        assert(!rules[0].0);
        assert forall|j: int| 0 <= j < i - 1 implies !(#[trigger] rest[j]).0 by {
            assert(rest[j] == rules[j + 1]);
        }
        lemma_first_match_decides(rest, i - 1);
    }
}

/// A table in which no rule matches gives `Idle`.
pub proof fn lemma_no_match_is_idle(rules: Seq<Rule>)
    requires
        forall|j: int| 0 <= j < rules.len() ==> !(#[trigger] rules[j]).0,
    ensures
        first_match(rules) == OperationState::Idle,
    decreases rules.len(),
{
    if rules.len() > 0 {
        let rest = rules.drop_first();
        assert(!rules[0].0);
        assert forall|j: int| 0 <= j < rest.len() implies !(#[trigger] rest[j]).0 by {
            assert(rest[j] == rules[j + 1]);
        }
        lemma_no_match_is_idle(rest);
    }
}

/// The operation of the first matching rule of `table`.
pub fn first_matching(table: &[Rule]) -> (state: OperationState)
    ensures
        state == first_match(table@),
{
    let mut i: usize = 0;
    assert(table@.skip(0) =~= table@);
    while i < table.len()
        invariant
            i <= table.len(),
            first_match(table@) == first_match(table@.skip(i as int)),
        decreases table.len() - i,
    {
        assert(table@.skip(i as int)[0] == table@[i as int]);
        assert(table@.skip(i as int).drop_first() =~= table@.skip(i + 1));
        if table[i].0 {
            return table[i].1;
        }
        i = i + 1;
    }
    assert(table@.skip(i as int).len() == 0);
    OperationState::Idle
}

/// Finds the operation in progress from the markers that are present.
pub fn operation_state(m: &Markers) -> (state: OperationState)
    ensures
        state == operation_of(*m),
{
    let table: Vec<Rule> = vec![
        (m.rebase_apply.rebasing, OperationState::Rebase),
        (m.rebase_apply.applying, OperationState::ApplyMailbox),
        (m.rebase_apply.present, OperationState::ApplyOrRebase),
        (m.rebase.rebasing, OperationState::Rebase),
        (m.rebase.applying, OperationState::ApplyMailbox),
        (m.rebase.present, OperationState::ApplyOrRebase),
        (m.dotest.rebasing, OperationState::Rebase),
        (m.dotest.applying, OperationState::ApplyMailbox),
        (m.dotest.present, OperationState::ApplyOrRebase),
        (m.rebase_merge_interactive, OperationState::InteractiveRebase),
        (m.dotest_merge_interactive, OperationState::InteractiveRebase),
        (m.rebase_merge, OperationState::MergeRebase),
        (m.dotest_merge, OperationState::MergeRebase),
        (m.merge_head, OperationState::Merge),
        (m.bisect_log, OperationState::Bisect),
        (m.cherry_pick_head && m.sequencer, OperationState::CherryPickSequencer),
        (m.cherry_pick_head, OperationState::CherryPick),
        (m.sequencer, OperationState::CherryOrRevert),
    ];
    assert(table@ =~= rules(*m));
    first_matching(table.as_slice())
}

impl OperationState {
    /// The name under which the operation is shown; none for `Idle`.
    pub fn label(self) -> (name: Option<&'static str>)
        ensures
            name is Some == label_of(self) is Some,
            name is Some ==> name->0@ == label_of(self)->0,
    {
        match self {
            OperationState::Idle => None,
            OperationState::Rebase => Some("rebase"),
            OperationState::ApplyMailbox => Some("am"),
            OperationState::ApplyOrRebase => Some("am/rebase"),
            OperationState::InteractiveRebase => Some("rebase-i"),
            OperationState::MergeRebase => Some("rebase-m"),
            OperationState::Merge => Some("merge"),
            OperationState::Bisect => Some("bisect"),
            OperationState::CherryPick => Some("cherry"),
            OperationState::CherryPickSequencer => Some("cherry-seq"),
            OperationState::CherryOrRevert => Some("cherry-or-revert"),
        }
    }
}

/// The name of the operation in progress, if there is one.
pub fn get_action(m: &Markers) -> (name: Option<String>)
    ensures
        name is Some == label_of(operation_of(*m)) is Some,
        name is Some ==> name->0@ == label_of(operation_of(*m))->0,
{
    match operation_state(m).label() {
        Some(name) => Some(name.to_owned()),
        None => None,
    }
}

/// No operation is reported exactly when no marker is present.
pub proof fn lemma_idle(m: Markers)
    ensures
        operation_of(m) == OperationState::Idle <==> !rebasing(m) && !m.merge_head
            && !m.bisect_log && !m.cherry_pick_head && !m.sequencer,
{
    reveal_with_fuel(first_match, 19);
}

/// A merge outranks a bisection: with the marker of a merge present and no
/// rebase under way, a merge is reported, whether or not a bisection has left
/// its marker too.
pub proof fn lemma_merge_outranks_bisect(m: Markers)
    requires
        m.merge_head,
        !rebasing(m),
    ensures
        operation_of(m) == OperationState::Merge,
{
    lemma_first_match_decides(rules(m), 13);
}

/// A bisection is reported only when no merge and no rebase is under way.
pub proof fn lemma_bisect(m: Markers)
    ensures
        operation_of(m) == OperationState::Bisect <==> m.bisect_log && !m.merge_head && !rebasing(
            m,
        ),
{
    reveal_with_fuel(first_match, 19);
}

/// With the marker of a cherry-pick present and nothing of higher priority,
/// the sequencer's marker decides between the two kinds of cherry-pick.
pub proof fn lemma_cherry_pick(m: Markers)
    requires
        m.cherry_pick_head,
        !rebasing(m),
        !m.merge_head,
        !m.bisect_log,
    ensures
        operation_of(m) == if m.sequencer {
            OperationState::CherryPickSequencer
        } else {
            OperationState::CherryPick
        },
{
    if m.sequencer {
        lemma_first_match_decides(rules(m), 15);
    } else {
        lemma_first_match_decides(rules(m), 16);
    }
}

} // verus!
