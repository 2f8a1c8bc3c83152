use zprs::action::{MailboxDir, Markers};
use zprs::precmd::{render, repo_status, spans, synthesize, tokens, Token, TokenKind};
use zprs::paint::{Span, Tint};
use zprs::repo::{Head, Snapshot};

fn markers_none() -> Markers {
    let absent = MailboxDir { present: false, rebasing: false, applying: false };
    Markers {
        rebase_apply: absent,
        rebase: absent,
        dotest: absent,
        rebase_merge_interactive: false,
        dotest_merge_interactive: false,
        rebase_merge: false,
        dotest_merge: false,
        merge_head: false,
        bisect_log: false,
        cherry_pick_head: false,
        sequencer: false,
    }
}

fn on_branch(name: &str) -> Option<Head> {
    Some(Head { shorthand: Some(name.to_string()), is_branch: true, short_id: None })
}

fn token(kind: TokenKind, text: &str) -> Token {
    Token { kind, text: text.to_string() }
}

fn clean_main() -> Snapshot {
    Snapshot {
        head: on_branch("main"),
        upstream: None,
        statuses: Some(vec![]),
        markers: markers_none(),
    }
}

fn detached_with_untracked() -> Snapshot {
    Snapshot {
        head: Some(Head {
            shorthand: Some("HEAD".to_string()),
            is_branch: false,
            short_id: Some(b"abcdef1".to_vec()),
        }),
        upstream: None,
        statuses: Some(vec![0x0080, 0x0080]),
        markers: markers_none(),
    }
}

fn diverged_with_staged() -> Snapshot {
    Snapshot {
        head: on_branch("main"),
        upstream: Some((3, 1)),
        statuses: Some(vec![0x0002]),
        markers: markers_none(),
    }
}

fn cherry_pick_sequenced() -> Snapshot {
    Snapshot {
        head: on_branch("main"),
        upstream: None,
        statuses: Some(vec![]),
        markers: Markers { cherry_pick_head: true, sequencer: true, ..markers_none() },
    }
}

#[test]
fn clean_branch_without_upstream() {
    let s = clean_main();
    assert_eq!(
        tokens(&s, true),
        vec![token(TokenKind::Head, "main"), token(TokenKind::Clean, "\u{2714}")]
    );
    assert_eq!(tokens(&s, false), vec![token(TokenKind::Head, "main")]);
    assert_eq!(repo_status(&s, true), "\x1b[36mmain\x1b[32m\u{2714}\x1b[0m ");
    assert_eq!(repo_status(&s, false), "\x1b[36mmain\x1b[0m ");
}

#[test]
fn detached_head_with_untracked_files() {
    let s = detached_with_untracked();
    assert_eq!(s.count_statuses().map(|t| t.untracked), Some(2));
    assert_eq!(
        tokens(&s, true),
        vec![token(TokenKind::Head, ":abcdef1"), token(TokenKind::Untracked, "\u{2026}")]
    );
    assert_eq!(
        tokens(&s, false),
        vec![token(TokenKind::Head, ":abcdef1"), token(TokenKind::Dirty, "*")]
    );
    assert_eq!(repo_status(&s, true), "\x1b[36m:abcdef1\x1b[0m\u{2026} ");
    assert_eq!(repo_status(&s, false), "\x1b[36m:abcdef1\x1b[1;31m*\x1b[0m ");
}

#[test]
fn branch_ahead_and_behind_with_a_staged_change() {
    let s = diverged_with_staged();
    assert_eq!(
        tokens(&s, true),
        vec![
            token(TokenKind::Head, "main"),
            token(TokenKind::Ahead, "\u{2191}3"),
            token(TokenKind::Behind, "\u{2193}1"),
            token(TokenKind::Staged, "\u{2666}1"),
        ]
    );
    assert_eq!(
        repo_status(&s, true),
        "\x1b[36mmain\u{2191}3\u{2193}1\x1b[32m\u{2666}1\x1b[0m "
    );
    assert_eq!(
        tokens(&s, false),
        vec![token(TokenKind::Head, "main"), token(TokenKind::Dirty, "*")]
    );
}

#[test]
fn cherry_pick_run_by_the_sequencer() {
    let s = cherry_pick_sequenced();
    assert_eq!(
        tokens(&s, true),
        vec![
            token(TokenKind::Head, "main"),
            token(TokenKind::Clean, "\u{2714}"),
            token(TokenKind::Operation, " cherry-seq"),
        ]
    );
    assert_eq!(tokens(&s, false), vec![token(TokenKind::Head, "main")]);
}

#[test]
fn every_category_in_its_order() {
    let s = Snapshot {
        head: on_branch("topic"),
        upstream: Some((0, 12)),
        statuses: Some(vec![0x0100, 0x8000, 0x0080, 0x0001 | 0x0200, 0x0010, 0x8000 | 0x0400]),
        markers: Markers { merge_head: true, bisect_log: true, ..markers_none() },
    };
    assert_eq!(
        tokens(&s, true),
        vec![
            token(TokenKind::Head, "topic"),
            token(TokenKind::Behind, "\u{2193}12"),
            token(TokenKind::Staged, "\u{2666}2"),
            token(TokenKind::Conflicted, "\u{2716}2"),
            token(TokenKind::Unstaged, "\u{271a}3"),
            token(TokenKind::Untracked, "\u{2026}"),
            token(TokenKind::Operation, " merge"),
        ]
    );
    assert_eq!(
        repo_status(&s, true),
        "\x1b[36mtopic\u{2193}12\x1b[32m\u{2666}2\x1b[31m\u{2716}2\x1b[0m\u{271a}3\u{2026}\x1b[35m merge\x1b[0m "
    );
}

#[test]
fn what_cannot_be_read_is_left_out() {
    let s = Snapshot { head: None, upstream: Some((1, 1)), statuses: None, markers: markers_none() };
    assert_eq!(tokens(&s, true), vec![]);
    assert_eq!(tokens(&s, false), vec![]);
    assert_eq!(repo_status(&s, true), " ");
    assert_eq!(synthesize(Some(&s), true), Some(" ".to_string()));
    let s = Snapshot {
        head: None,
        upstream: None,
        statuses: Some(vec![0x0100]),
        markers: Markers { bisect_log: true, ..markers_none() },
    };
    assert_eq!(
        tokens(&s, true),
        vec![token(TokenKind::Unstaged, "\u{271a}1"), token(TokenKind::Operation, " bisect")]
    );
}

#[test]
fn ignored_entries_do_not_make_a_tree_dirty() {
    let s = Snapshot {
        head: on_branch("main"),
        upstream: None,
        statuses: Some(vec![0x4000, 0x1000, 0]),
        markers: markers_none(),
    };
    assert_eq!(
        tokens(&s, true),
        vec![token(TokenKind::Head, "main"), token(TokenKind::Clean, "\u{2714}")]
    );
    assert_eq!(tokens(&s, false), vec![token(TokenKind::Head, "main")]);
}

#[test]
fn clean_exactly_when_terse_has_no_mark_and_detail_says_clean() {
    for s in [clean_main(), detached_with_untracked(), diverged_with_staged(), cherry_pick_sequenced()] {
        let clean = s.count_statuses().map(|t| t.is_clean()) == Some(true);
        let terse_mark = tokens(&s, false).iter().any(|t| t.kind == TokenKind::Dirty);
        let says_clean = tokens(&s, true).iter().any(|t| t.kind == TokenKind::Clean);
        assert_eq!(clean, !terse_mark && says_clean);
    }
}

#[test]
fn no_divergence_tokens_without_upstream_or_in_terse_form() {
    for s in [clean_main(), detached_with_untracked(), cherry_pick_sequenced()] {
        for detail in [false, true] {
            assert!(tokens(&s, detail)
                .iter()
                .all(|t| t.kind != TokenKind::Ahead && t.kind != TokenKind::Behind));
        }
    }
    assert!(tokens(&diverged_with_staged(), false)
        .iter()
        .all(|t| t.kind != TokenKind::Ahead && t.kind != TokenKind::Behind));
    let mut s = diverged_with_staged();
    s.upstream = Some((0, 0));
    assert_eq!(
        tokens(&s, true),
        vec![token(TokenKind::Head, "main"), token(TokenKind::Staged, "\u{2666}1")]
    );
}

#[test]
fn outside_a_repository_there_is_no_summary() {
    assert_eq!(synthesize(None, false), None);
    assert_eq!(synthesize(None, true), None);
}

#[test]
fn inside_a_repository_there_is_a_summary() {
    let s = diverged_with_staged();
    assert_eq!(synthesize(Some(&s), true), Some(repo_status(&s, true)));
    assert_eq!(synthesize(Some(&s), false), Some("\x1b[36mmain\x1b[1;31m*\x1b[0m ".to_string()));
}

#[test]
fn spans_carry_the_tint_of_each_kind() {
    let all = vec![
        token(TokenKind::Head, "a"),
        token(TokenKind::Ahead, "b"),
        token(TokenKind::Behind, "c"),
        token(TokenKind::Dirty, "d"),
        token(TokenKind::Clean, "e"),
        token(TokenKind::Staged, "f"),
        token(TokenKind::Conflicted, "g"),
        token(TokenKind::Unstaged, "h"),
        token(TokenKind::Untracked, "i"),
        token(TokenKind::Operation, "j"),
    ];
    let tints = [
        Tint::Cyan,
        Tint::Cyan,
        Tint::Cyan,
        Tint::RedBold,
        Tint::Green,
        Tint::Green,
        Tint::Red,
        Tint::Plain,
        Tint::Plain,
        Tint::Purple,
    ];
    let got = spans(&all);
    assert_eq!(got.len(), 10);
    for i in 0..10 {
        assert_eq!(got[i], Span { tint: tints[i], text: all[i].text.clone() });
        assert_eq!(all[i].kind.tint(), tints[i]);
    }
}

#[test]
fn line_before_the_prompt() {
    let s = clean_main();
    assert_eq!(
        render("/home/ada/work/zprs", Some("/home/ada"), Some(&s), false),
        "\n\x1b[34m~/w/zprs\x1b[0m \x1b[36m\x1b[36mmain\x1b[0m \x1b[0m"
    );
    assert_eq!(
        render("/srv/data", Some("/home/ada"), None, true),
        "\n\x1b[34m/s/data\x1b[0m \x1b[36m\x1b[0m"
    );
    assert_eq!(render("/srv/data", None, None, true), "\n\x1b[34m/srv/data\x1b[0m \x1b[36m\x1b[0m");
}
