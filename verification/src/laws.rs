//! What holds of every summary, whatever was read of the repository.

use crate::precmd::{
    action_tokens, counted, dirty_tokens, divergence_tokens, has_kind, head_tokens, rank,
    status_part, status_tokens, tally_tokens, TokenKind, TokenView,
};
use crate::repo::{commits_ahead, commits_behind, divergence, Snapshot};
use crate::status::{count_in, StatusTally};
use vstd::prelude::*;

verus! {

/// Whether every token of `tokens` has a rank from `lo` to `hi`.
pub open spec fn within(tokens: Seq<TokenView>, lo: int, hi: int) -> bool {
    forall|i: int| 0 <= i < tokens.len() ==> lo <= rank((#[trigger] tokens[i]).0) <= hi
}

/// Whether the tokens stand in the order of their ranks, no rank twice.
pub open spec fn ordered(tokens: Seq<TokenView>) -> bool {
    forall|i: int, j: int|
        0 <= i < j < tokens.len() ==> rank((#[trigger] tokens[i]).0) < rank(
            (#[trigger] tokens[j]).0,
        )
}

/// A kind is among two runs of tokens joined exactly when it is among one of
/// them.
pub proof fn lemma_has_kind_concat(a: Seq<TokenView>, b: Seq<TokenView>, kind: TokenKind)
    ensures
        has_kind(a + b, kind) <==> has_kind(a, kind) || has_kind(b, kind),
{
    let ab = a + b;
    if has_kind(a, kind) {
        let i = choose|i: int| 0 <= i < a.len() && (#[trigger] a[i]).0 == kind;
        assert(ab[i] == a[i]);
    }
    if has_kind(b, kind) {
        let i = choose|i: int| 0 <= i < b.len() && (#[trigger] b[i]).0 == kind;
        assert(ab[a.len() + i] == b[i]);
    }
    if has_kind(ab, kind) {
        let i = choose|i: int| 0 <= i < ab.len() && (#[trigger] ab[i]).0 == kind;
        if i < a.len() {
            assert(a[i] == ab[i]);
        } else {
            assert(b[i - a.len()] == ab[i]);
        }
    }
}

/// A kind whose rank lies outside the ranks of a run of tokens is not among
/// them.
pub proof fn lemma_kind_outside(tokens: Seq<TokenView>, lo: int, hi: int, kind: TokenKind)
    requires
        within(tokens, lo, hi),
        rank(kind) < lo || hi < rank(kind),
    ensures
        !has_kind(tokens, kind),
{
}

/// Two ordered runs of tokens, the ranks of the first all below those of the
/// second, are ordered when joined.
pub proof fn lemma_ordered_concat(
    a: Seq<TokenView>,
    b: Seq<TokenView>,
    lo: int,
    mid: int,
    hi: int,
)
    requires
        lo <= mid <= hi,
        ordered(a),
        ordered(b),
        within(a, lo, mid),
        within(b, mid + 1, hi),
    ensures
        ordered(a + b),
        within(a + b, lo, hi),
{
    let ab = a + b;
    assert forall|i: int| 0 <= i < ab.len() implies lo <= rank((#[trigger] ab[i]).0) <= hi by {
        if i < a.len() {
            assert(ab[i] == a[i]);
        } else {
            assert(ab[i] == b[i - a.len()]);
        }
    }
    assert forall|i: int, j: int| 0 <= i < j < ab.len() implies rank((#[trigger] ab[i]).0) < rank(
        (#[trigger] ab[j]).0,
    ) by {
        if j < a.len() {
            assert(ab[i] == a[i] && ab[j] == a[j]);
        } else if i < a.len() {
            assert(ab[i] == a[i] && ab[j] == b[j - a.len()]);
        } else {
            assert(ab[i] == b[i - a.len()] && ab[j] == b[j - a.len()]);
        }
    }
}

/// The token of a count is there exactly when the count is not zero.
pub proof fn lemma_counted(kind: TokenKind, mark: Seq<char>, n: nat)
    ensures
        has_kind(counted(kind, mark, n), kind) <==> n > 0,
        ordered(counted(kind, mark, n)),
        within(counted(kind, mark, n), rank(kind), rank(kind)),
{
    let c = counted(kind, mark, n);
    if n > 0 {
        assert(c[0].0 == kind);
    }
}

/// The tokens of the divergence: the one for commits ahead is there exactly
/// when there are commits ahead, and the one for commits behind exactly when
/// there are commits behind. Without counts there is neither.
pub proof fn lemma_divergence_tokens(s: Snapshot)
    ensures
        has_kind(divergence_tokens(s), TokenKind::Ahead) <==> commits_ahead(s) > 0,
        has_kind(divergence_tokens(s), TokenKind::Behind) <==> commits_behind(s) > 0,
        ordered(divergence_tokens(s)),
        within(divergence_tokens(s), 1, 2),
{
    match divergence(s) {
        Some((ahead, behind)) => {
            let a = counted(TokenKind::Ahead, "↑"@, ahead as nat);
            let b = counted(TokenKind::Behind, "↓"@, behind as nat);
            lemma_counted(TokenKind::Ahead, "↑"@, ahead as nat);
            lemma_counted(TokenKind::Behind, "↓"@, behind as nat);
            lemma_ordered_concat(a, b, 1, 1, 2);
            lemma_has_kind_concat(a, b, TokenKind::Ahead);
            lemma_has_kind_concat(a, b, TokenKind::Behind);
            lemma_kind_outside(a, 1, 1, TokenKind::Behind);
            lemma_kind_outside(b, 2, 2, TokenKind::Ahead);
        },
        None => {},
    }
}

/// The detailed tokens of the working tree say "clean" exactly when all four
/// counts are zero; they are ordered, and the terse mark is not among them.
pub proof fn lemma_tally_tokens(staged: nat, conflicted: nat, unstaged: nat, untracked: nat)
    ensures
        has_kind(tally_tokens(staged, conflicted, unstaged, untracked), TokenKind::Clean) <==> (
        staged == 0 && conflicted == 0 && unstaged == 0 && untracked == 0),
        has_kind(tally_tokens(staged, conflicted, unstaged, untracked), TokenKind::Staged)
            <==> staged > 0,
        has_kind(tally_tokens(staged, conflicted, unstaged, untracked), TokenKind::Conflicted)
            <==> conflicted > 0,
        has_kind(tally_tokens(staged, conflicted, unstaged, untracked), TokenKind::Unstaged)
            <==> unstaged > 0,
        has_kind(tally_tokens(staged, conflicted, unstaged, untracked), TokenKind::Untracked)
            <==> untracked > 0,
        ordered(tally_tokens(staged, conflicted, unstaged, untracked)),
        within(tally_tokens(staged, conflicted, unstaged, untracked), 4, 8),
{
    let all = tally_tokens(staged, conflicted, unstaged, untracked);
    if staged == 0 && conflicted == 0 && unstaged == 0 && untracked == 0 {
        assert(all[0].0 == TokenKind::Clean);
    } else {
        let a = counted(TokenKind::Staged, "♦"@, staged);
        let b = counted(TokenKind::Conflicted, "✖"@, conflicted);
        let c = counted(TokenKind::Unstaged, "✚"@, unstaged);
        let d: Seq<TokenView> = if untracked > 0 {
            seq![(TokenKind::Untracked, "…"@)]
        } else {
            seq![]
        };
        lemma_counted(TokenKind::Staged, "♦"@, staged);
        lemma_counted(TokenKind::Conflicted, "✖"@, conflicted);
        lemma_counted(TokenKind::Unstaged, "✚"@, unstaged);
        if untracked > 0 {
            assert(d[0].0 == TokenKind::Untracked);
        }
        assert(within(d, 8, 8));
        assert(ordered(d));
        lemma_ordered_concat(a, b, 5, 5, 6);
        lemma_ordered_concat(a + b, c, 5, 6, 7);
        lemma_ordered_concat(a + b + c, d, 5, 7, 8);
        assert(all == a + b + c + d);
        lemma_has_kind_concat(a + b + c, d, TokenKind::Clean);
        lemma_has_kind_concat(a + b + c, d, TokenKind::Staged);
        lemma_has_kind_concat(a + b + c, d, TokenKind::Conflicted);
        lemma_has_kind_concat(a + b + c, d, TokenKind::Unstaged);
        lemma_has_kind_concat(a + b + c, d, TokenKind::Untracked);
        lemma_has_kind_concat(a + b, c, TokenKind::Staged);
        lemma_has_kind_concat(a + b, c, TokenKind::Conflicted);
        lemma_has_kind_concat(a + b, c, TokenKind::Unstaged);
        lemma_has_kind_concat(a + b, c, TokenKind::Untracked);
        lemma_has_kind_concat(a, b, TokenKind::Staged);
        lemma_has_kind_concat(a, b, TokenKind::Conflicted);
        lemma_has_kind_concat(a, b, TokenKind::Unstaged);
        lemma_has_kind_concat(a, b, TokenKind::Untracked);
        lemma_kind_outside(a, 5, 5, TokenKind::Conflicted);
        lemma_kind_outside(a, 5, 5, TokenKind::Unstaged);
        lemma_kind_outside(a, 5, 5, TokenKind::Untracked);
        lemma_kind_outside(b, 6, 6, TokenKind::Staged);
        lemma_kind_outside(b, 6, 6, TokenKind::Unstaged);
        lemma_kind_outside(b, 6, 6, TokenKind::Untracked);
        lemma_kind_outside(c, 7, 7, TokenKind::Staged);
        lemma_kind_outside(c, 7, 7, TokenKind::Conflicted);
        lemma_kind_outside(c, 7, 7, TokenKind::Untracked);
        lemma_kind_outside(d, 8, 8, TokenKind::Staged);
        lemma_kind_outside(d, 8, 8, TokenKind::Conflicted);
        lemma_kind_outside(d, 8, 8, TokenKind::Unstaged);
        lemma_kind_outside(all, 5, 8, TokenKind::Clean);
    }
}

/// The tokens of the working tree, in either form, are ordered and have the
/// ranks of their part of the summary.
pub proof fn lemma_status_part(s: Snapshot, detail: bool)
    ensures
        ordered(status_part(s, detail)),
        within(status_part(s, detail), 3, 8),
{
    match s.statuses {
        Some(entries) => {
            lemma_tally_tokens(
                count_in(entries@, crate::status::STAGED),
                count_in(entries@, crate::status::CONFLICTED),
                count_in(entries@, crate::status::UNSTAGED),
                count_in(entries@, crate::status::UNTRACKED),
            );
        },
        None => {},
    }
}

/// The tokens of a summary stand in one fixed order: the head, the commits
/// ahead, the commits behind, the state of the working tree in the order
/// staged, conflicted, unstaged, untracked, and the operation in progress. No
/// kind of token occurs twice.
pub proof fn lemma_tokens_ordered(s: Snapshot, detail: bool)
    ensures
        ordered(status_tokens(s, detail)),
{
    let h = head_tokens(s);
    let d = divergence_tokens(s);
    let w = status_part(s, detail);
    let a = action_tokens(s.markers);
    assert(ordered(h) && within(h, 0, 0));
    assert(ordered(a) && within(a, 9, 9));
    lemma_divergence_tokens(s);
    lemma_status_part(s, detail);
    if detail {
        lemma_ordered_concat(h, d, 0, 0, 2);
        lemma_ordered_concat(h + d, w, 0, 2, 8);
        lemma_ordered_concat(h + d + w, a, 0, 8, 9);
    } else {
        lemma_ordered_concat(h, w, 0, 2, 8);
    }
}

/// The tally of a status scan is all zero exactly when the terse summary
/// leaves out the mark of a change and the detailed summary says "clean".
pub proof fn lemma_clean_tally(s: Snapshot, tally: StatusTally)
    requires
        s.statuses is Some,
        tally.counts(s.statuses->0@),
    ensures
        tally.clean() <==> !has_kind(status_tokens(s, false), TokenKind::Dirty) && has_kind(
            status_tokens(s, true),
            TokenKind::Clean,
        ),
{
    let entries = s.statuses->0@;
    let staged = count_in(entries, crate::status::STAGED);
    let conflicted = count_in(entries, crate::status::CONFLICTED);
    let unstaged = count_in(entries, crate::status::UNSTAGED);
    let untracked = count_in(entries, crate::status::UNTRACKED);
    let h = head_tokens(s);
    let d = divergence_tokens(s);
    let a = action_tokens(s.markers);
    let terse = dirty_tokens(staged, conflicted, unstaged, untracked);
    let full = tally_tokens(staged, conflicted, unstaged, untracked);
    lemma_tally_tokens(staged, conflicted, unstaged, untracked);
    lemma_divergence_tokens(s);
    assert(within(h, 0, 0));
    assert(within(a, 9, 9));
    lemma_kind_outside(h, 0, 0, TokenKind::Dirty);
    lemma_kind_outside(h, 0, 0, TokenKind::Clean);
    lemma_kind_outside(d, 1, 2, TokenKind::Clean);
    lemma_kind_outside(a, 9, 9, TokenKind::Clean);
    lemma_has_kind_concat(h, terse, TokenKind::Dirty);
    lemma_has_kind_concat(h + d + full, a, TokenKind::Clean);
    lemma_has_kind_concat(h + d, full, TokenKind::Clean);
    lemma_has_kind_concat(h, d, TokenKind::Clean);
    if !tally.clean() {
        assert(terse[0].0 == TokenKind::Dirty);
    }
}

/// A token for commits ahead is in the summary only in its detailed form and
/// only when the count of commits ahead is there and not zero; the same holds
/// of the token for commits behind. A head without an upstream has neither.
pub proof fn lemma_divergence_shown(s: Snapshot, detail: bool)
    ensures
        has_kind(status_tokens(s, detail), TokenKind::Ahead) <==> detail && commits_ahead(s) > 0,
        has_kind(status_tokens(s, detail), TokenKind::Behind) <==> detail && commits_behind(s) > 0,
        s.upstream is None ==> !has_kind(status_tokens(s, detail), TokenKind::Ahead) && !has_kind(
            status_tokens(s, detail),
            TokenKind::Behind,
        ),
{
    let h = head_tokens(s);
    let d = divergence_tokens(s);
    let w = status_part(s, detail);
    let a = action_tokens(s.markers);
    lemma_divergence_tokens(s);
    lemma_status_part(s, detail);
    assert(within(h, 0, 0));
    assert(within(a, 9, 9));
    lemma_kind_outside(h, 0, 0, TokenKind::Ahead);
    lemma_kind_outside(h, 0, 0, TokenKind::Behind);
    lemma_kind_outside(w, 3, 8, TokenKind::Ahead);
    lemma_kind_outside(w, 3, 8, TokenKind::Behind);
    lemma_kind_outside(a, 9, 9, TokenKind::Ahead);
    lemma_kind_outside(a, 9, 9, TokenKind::Behind);
    if detail {
        lemma_has_kind_concat(h + d + w, a, TokenKind::Ahead);
        lemma_has_kind_concat(h + d, w, TokenKind::Ahead);
        lemma_has_kind_concat(h, d, TokenKind::Ahead);
        lemma_has_kind_concat(h + d + w, a, TokenKind::Behind);
        lemma_has_kind_concat(h + d, w, TokenKind::Behind);
        lemma_has_kind_concat(h, d, TokenKind::Behind);
    } else {
        lemma_has_kind_concat(h, w, TokenKind::Ahead);
        lemma_has_kind_concat(h, w, TokenKind::Behind);
    }
}

} // verus!
