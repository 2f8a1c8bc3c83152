//! The line shown before each prompt: the working directory and a summary of
//! the repository around it.
//!
//! The summary is a run of tokens in a fixed order: the head, how far it has
//! diverged from its upstream, the state of the working tree, and the
//! operation in progress. In its terse form it holds the head and one mark
//! that tells whether anything has changed. Untracked paths show as one mark
//! without a count. A space ends the summary.

use crate::action::{get_action, label_of, operation_of, Markers};
use crate::paint::{paint, paint_run, painted, painted_run, Span, Tint};
use crate::path::{truncate_path, truncated};
use crate::repo::{divergence, head_label, Snapshot};
use crate::status::{count_in, StatusTally, CONFLICTED, STAGED, UNSTAGED, UNTRACKED};
use crate::text::{decimal, decimal_digits};
use vstd::prelude::*;
use vstd::string::*;

verus! {

/// What a token of the summary stands for.
#[derive(Clone, Copy, Debug, PartialEq, Eq, Structural)]
pub enum TokenKind {
    /// The name of the branch, or the short identifier of a detached head.
    Head,
    /// Commits that the upstream lacks.
    Ahead,
    /// Commits that only the upstream has.
    Behind,
    /// Something has changed; the terse form's only word on the working tree.
    Dirty,
    /// Nothing has changed.
    Clean,
    /// Changes recorded in the index.
    Staged,
    /// Paths in conflict.
    Conflicted,
    /// Changes in the working tree.
    Unstaged,
    /// Paths that git does not track.
    Untracked,
    /// The operation in progress.
    Operation,
}

/// The way each kind of token is shown.
pub open spec fn tint_of(kind: TokenKind) -> Tint {
    match kind {
        TokenKind::Head => Tint::Cyan,
        TokenKind::Ahead => Tint::Cyan,
        TokenKind::Behind => Tint::Cyan,
        TokenKind::Dirty => Tint::RedBold,
        TokenKind::Clean => Tint::Green,
        TokenKind::Staged => Tint::Green,
        TokenKind::Conflicted => Tint::Red,
        TokenKind::Unstaged => Tint::Plain,
        TokenKind::Untracked => Tint::Plain,
        TokenKind::Operation => Tint::Purple,
    }
}

/// The place of each kind of token in the summary: a token of a lower rank
/// comes before one of a higher rank.
pub open spec fn rank(kind: TokenKind) -> int {
    match kind {
        TokenKind::Head => 0,
        TokenKind::Ahead => 1,
        TokenKind::Behind => 2,
        TokenKind::Dirty => 3,
        TokenKind::Clean => 4,
        TokenKind::Staged => 5,
        TokenKind::Conflicted => 6,
        TokenKind::Unstaged => 7,
        TokenKind::Untracked => 8,
        TokenKind::Operation => 9,
    }
}

impl TokenKind {
    /// The way this kind of token is shown.
    pub fn tint(self) -> (tint: Tint)
        ensures
            tint == tint_of(self),
    {
        match self {
            TokenKind::Head => Tint::Cyan,
            TokenKind::Ahead => Tint::Cyan,
            TokenKind::Behind => Tint::Cyan,
            TokenKind::Dirty => Tint::RedBold,
            TokenKind::Clean => Tint::Green,
            TokenKind::Staged => Tint::Green,
            TokenKind::Conflicted => Tint::Red,
            TokenKind::Unstaged => Tint::Plain,
            TokenKind::Untracked => Tint::Plain,
            TokenKind::Operation => Tint::Purple,
        }
    }
}

/// One token of the summary.
#[derive(Clone, Debug, PartialEq, Eq)]
pub struct Token {
    /// What the token stands for.
    pub kind: TokenKind,
    /// Its text, before any colour.
    pub text: String,
}

/// A token as a plain value: its kind and the characters of its text.
pub type TokenView = (TokenKind, Seq<char>);

impl View for Token {
    type V = TokenView;

    open spec fn view(&self) -> TokenView {
        (self.kind, self.text@)
    }
}

/// The views of a sequence of tokens, in order.
pub open spec fn token_views(tokens: Seq<Token>) -> Seq<TokenView> {
    tokens.map_values(|t: Token| t@)
}

/// The tokens as pieces of text, each with the tint of its kind.
pub open spec fn tinted(tokens: Seq<TokenView>) -> Seq<(Tint, Seq<char>)> {
    tokens.map_values(|t: TokenView| (tint_of(t.0), t.1))
}

/// Whether a token of the given kind is among `tokens`.
pub open spec fn has_kind(tokens: Seq<TokenView>, kind: TokenKind) -> bool {
    exists|i: int| 0 <= i < tokens.len() && (#[trigger] tokens[i]).0 == kind
}

/// A token that carries a count: its mark and the count in decimal. There is
/// none for a count of zero.
pub open spec fn counted(kind: TokenKind, mark: Seq<char>, n: nat) -> Seq<TokenView> {
    if n > 0 {
        seq![(kind, mark + decimal_digits(n))]
    } else {
        seq![]
    }
}

/// The token of the head, where the head has a label.
pub open spec fn head_tokens(s: Snapshot) -> Seq<TokenView> {
    match head_label(s.head) {
        Some(name) => seq![(TokenKind::Head, name)],
        None => seq![],
    }
}

/// The tokens of the divergence from the upstream: one for the commits ahead
/// and one for the commits behind, each only where there are any.
pub open spec fn divergence_tokens(s: Snapshot) -> Seq<TokenView> {
    match divergence(s) {
        Some((ahead, behind)) => counted(TokenKind::Ahead, "↑"@, ahead as nat) + counted(
            TokenKind::Behind,
            "↓"@,
            behind as nat,
        ),
        None => seq![],
    }
}

/// The tokens of the working tree in the detailed form: one that says
/// "clean", or one for each category that is not empty, in the order staged,
/// conflicted, unstaged, untracked.
pub open spec fn tally_tokens(
    staged: nat,
    conflicted: nat,
    unstaged: nat,
    untracked: nat,
) -> Seq<TokenView> {
    if staged == 0 && conflicted == 0 && unstaged == 0 && untracked == 0 {
        seq![(TokenKind::Clean, "✔"@)]
    } else {
        counted(TokenKind::Staged, "♦"@, staged) + counted(TokenKind::Conflicted, "✖"@, conflicted)
            + counted(TokenKind::Unstaged, "✚"@, unstaged) + if untracked > 0 {
            seq![(TokenKind::Untracked, "…"@)]
        } else {
            seq![]
        }
    }
}

/// The token of the working tree in the terse form: a mark where anything was
/// counted, nothing otherwise.
pub open spec fn dirty_tokens(
    staged: nat,
    conflicted: nat,
    unstaged: nat,
    untracked: nat,
) -> Seq<TokenView> {
    if staged == 0 && conflicted == 0 && unstaged == 0 && untracked == 0 {
        seq![]
    } else {
        seq![(TokenKind::Dirty, "*"@)]
    }
}

/// The tokens of the working tree; none where the status scan failed.
pub open spec fn status_part(s: Snapshot, detail: bool) -> Seq<TokenView> {
    match s.statuses {
        Some(entries) => {
            let staged = count_in(entries@, STAGED);
            let conflicted = count_in(entries@, CONFLICTED);
            let unstaged = count_in(entries@, UNSTAGED);
            let untracked = count_in(entries@, UNTRACKED);
            if detail {
                tally_tokens(staged, conflicted, unstaged, untracked)
            } else {
                dirty_tokens(staged, conflicted, unstaged, untracked)
            }
        },
        None => seq![],
    }
}

/// The token of the operation in progress, where there is one.
pub open spec fn action_tokens(m: Markers) -> Seq<TokenView> {
    match label_of(operation_of(m)) {
        Some(name) => seq![(TokenKind::Operation, " "@ + name)],
        None => seq![],
    }
}

/// The tokens of the summary of a repository, in order.
pub open spec fn status_tokens(s: Snapshot, detail: bool) -> Seq<TokenView> {
    if detail {
        head_tokens(s) + divergence_tokens(s) + status_part(s, true) + action_tokens(s.markers)
    } else {
        head_tokens(s) + status_part(s, false)
    }
}

/// The summary of a repository as it is shown: its tokens, each in its
/// colour, and one space that parts the summary from what follows it.
pub open spec fn summary(s: Snapshot, detail: bool) -> Seq<char> {
    painted_run(tinted(status_tokens(s, detail))) + " "@
}

/// Appends a token.
fn push_token(out: &mut Vec<Token>, kind: TokenKind, text: String)
    ensures
        token_views(final(out)@) == token_views(old(out)@).push((kind, text@)),
{
    out.push(Token { kind, text });
    assert(token_views(out@) =~= token_views(old(out)@).push((kind, text@)));
}

/// Appends the token of a count, unless the count is zero.
fn push_counted(out: &mut Vec<Token>, kind: TokenKind, mark: &str, n: usize)
    ensures
        token_views(final(out)@) == token_views(old(out)@) + counted(kind, mark@, n as nat),
{
    if n > 0 {
        let mut text = mark.to_owned();
        text.append(decimal(n).as_str());
        push_token(out, kind, text);
        assert(token_views(out@) =~= token_views(old(out)@) + counted(kind, mark@, n as nat));
    } else {
        assert(token_views(out@) =~= token_views(old(out)@) + counted(kind, mark@, n as nat));
    }
}

/// Appends the tokens of the working tree.
fn push_status(out: &mut Vec<Token>, tally: &StatusTally, detail: bool)
    ensures
        token_views(final(out)@) == token_views(old(out)@) + if detail {
            tally_tokens(
                tally.staged as nat,
                tally.conflicted as nat,
                tally.unstaged as nat,
                tally.untracked as nat,
            )
        } else {
            dirty_tokens(
                tally.staged as nat,
                tally.conflicted as nat,
                tally.unstaged as nat,
                tally.untracked as nat,
            )
        },
{
    let ghost before = token_views(out@);
    if !detail {
        if !tally.is_clean() {
            push_token(out, TokenKind::Dirty, "*".to_owned());
        }
        assert(token_views(out@) =~= before + dirty_tokens(
            tally.staged as nat,
            tally.conflicted as nat,
            tally.unstaged as nat,
            tally.untracked as nat,
        ));
    } else if tally.is_clean() {
        push_token(out, TokenKind::Clean, "✔".to_owned());
        assert(token_views(out@) =~= before + tally_tokens(0, 0, 0, 0));
    } else {
        push_counted(out, TokenKind::Staged, "♦", tally.staged);
        push_counted(out, TokenKind::Conflicted, "✖", tally.conflicted);
        push_counted(out, TokenKind::Unstaged, "✚", tally.unstaged);
        if tally.untracked > 0 {
            push_token(out, TokenKind::Untracked, "…".to_owned());
        }
        assert(token_views(out@) =~= before + tally_tokens(
            tally.staged as nat,
            tally.conflicted as nat,
            tally.unstaged as nat,
            tally.untracked as nat,
        ));
    }
}

/// The tokens of the summary of a repository, in order.
pub fn tokens(s: &Snapshot, detail: bool) -> (out: Vec<Token>)
    ensures
        token_views(out@) == status_tokens(*s, detail),
{
    let mut out: Vec<Token> = Vec::new();
    assert(token_views(out@) =~= Seq::<TokenView>::empty());
    if let Some(name) = s.get_head() {
        push_token(&mut out, TokenKind::Head, name);
    }
    assert(token_views(out@) =~= head_tokens(*s));
    if detail {
        if let Some((ahead, behind)) = s.get_pos() {
            push_counted(&mut out, TokenKind::Ahead, "↑", ahead);
            push_counted(&mut out, TokenKind::Behind, "↓", behind);
        }
        assert(token_views(out@) =~= head_tokens(*s) + divergence_tokens(*s));
    }
    let ghost before = token_views(out@);
    if let Some(tally) = s.count_statuses() {
        push_status(&mut out, &tally, detail);
    }
    assert(token_views(out@) =~= before + status_part(*s, detail));
    if detail {
        let ghost before = token_views(out@);
        if let Some(name) = get_action(&s.markers) {
            let mut text = " ".to_owned();
            text.append(name.as_str());
            push_token(&mut out, TokenKind::Operation, text);
        }
        assert(token_views(out@) =~= before + action_tokens(s.markers));
    }
    out
}

/// The tokens as pieces of text, each with the tint of its kind.
pub fn spans(tokens: &Vec<Token>) -> (out: Vec<Span>)
    ensures
        crate::paint::span_views(out@) == tinted(token_views(tokens@)),
{
    let mut out: Vec<Span> = Vec::new();
    let mut i: usize = 0;
    while i < tokens.len()
        invariant
            i <= tokens.len(),
            out.len() == i,
            forall|j: int| 0 <= j < i ==> (#[trigger] out[j])@ == (tint_of(tokens[j].kind), tokens[j].text@),
        decreases tokens.len() - i,
    {
        out.push(Span { tint: tokens[i].kind.tint(), text: tokens[i].text.clone() });
        i = i + 1;
    }
    assert(crate::paint::span_views(out@) =~= tinted(token_views(tokens@)));
    out
}

/// The summary of a repository: its tokens, each in its colour, joined, and
/// a space after them.
pub fn repo_status(s: &Snapshot, detail: bool) -> (out: String)
    ensures
        out@ == summary(*s, detail),
{
    let tokens = tokens(s, detail);
    let spans = spans(&tokens);
    let mut out = paint_run(&spans);
    out.append(" ");
    out
}

/// The summary of the repository around a path, given what was read of it.
/// Outside any repository there is no snapshot and no summary; inside one
/// there is always a summary, however little could be read.
pub fn synthesize(snapshot: Option<&Snapshot>, detail: bool) -> (out: Option<String>)
    ensures
        out is Some == snapshot is Some,
        out is Some ==> out->0@ == summary(*snapshot->0, detail),
{
    match snapshot {
        Some(s) => Some(repo_status(s, detail)),
        None => None,
    }
}

/// The line before the prompt, without the line break that ends it.
pub open spec fn line(
    cwd: Seq<char>,
    home: Option<Seq<char>>,
    snapshot: Option<Snapshot>,
    detail: bool,
) -> Seq<char> {
    "\n"@ + painted(Tint::Blue, truncated(cwd, home)) + " "@ + painted(
        Tint::Cyan,
        match snapshot {
            Some(s) => summary(s, detail),
            None => Seq::empty(),
        },
    )
}

/// Builds the line before the prompt: an empty line, then the shortened
/// working directory in blue, a space, and the summary of the repository, if
/// there is one, in cyan.
pub fn render(cwd: &str, home: Option<&str>, snapshot: Option<&Snapshot>, detail: bool) -> (out:
    String)
    ensures
        out@ == line(
            cwd@,
            match home {
                Some(h) => Some(h@),
                None => None,
            },
            match snapshot {
                Some(s) => Some(*s),
                None => None,
            },
            detail,
        ),
{
    let path = truncate_path(cwd, home);
    let branch = match synthesize(snapshot, detail) {
        Some(text) => text,
        None => String::new(),
    };
    let mut out = "\n".to_owned();
    out.append(paint(Tint::Blue, path.as_str()).as_str());
    out.append(" ");
    out.append(paint(Tint::Cyan, branch.as_str()).as_str());
    out
}

} // verus!
