//! What is read of a repository, and what the reading means.
//!
//! A `Snapshot` holds the answers that git gave about one repository, each
//! absent where git gave none. The functions here decide what follows from
//! them; they read no file and ask git nothing.

use crate::action::Markers;
use crate::status::{count_statuses, StatusTally};
use crate::text::{bytes_as_chars, push_bytes, str_eq};
use vstd::prelude::*;
use vstd::string::*;

verus! {

/// What git says of the reference that is checked out.
#[derive(Clone, Debug, PartialEq, Eq)]
pub struct Head {
    /// The short name of the reference, where it has one that is text.
    pub shorthand: Option<String>,
    /// Whether the reference is a local branch.
    pub is_branch: bool,
    /// A short prefix of the identifier of the commit that the reference
    /// leads to, one byte for each character, where the commit can be found.
    pub short_id: Option<Vec<u8>>,
}

/// What was read of one repository.
#[derive(Clone, Debug, PartialEq, Eq)]
pub struct Snapshot {
    /// The reference that is checked out, unless it cannot be read.
    pub head: Option<Head>,
    /// How many commits the head has that its upstream lacks, and how many the
    /// upstream has that the head lacks; absent where the head's branch has
    /// no upstream or either end cannot be resolved.
    pub upstream: Option<(usize, usize)>,
    /// The flags of each entry of a status scan that lists untracked paths
    /// too; absent where the scan failed.
    pub statuses: Option<Vec<u32>>,
    /// The markers found under the metadata directory.
    pub markers: Markers,
}

/// The name that a detached head goes by when it has no other.
pub open spec fn detached_name() -> Seq<char> {
    "HEAD"@
}

/// The label of a detached head: a colon, then the short identifier.
pub open spec fn detached_label(short_id: Seq<u8>) -> Seq<char> {
    seq![':'] + bytes_as_chars(short_id)
}

/// The label of the head: the name of the branch where the head is on one,
/// else a colon and the short identifier of its commit, else nothing.
pub open spec fn head_label(head: Option<Head>) -> Option<Seq<char>> {
    match head {
        None => None,
        Some(h) => if h.shorthand is Some && h.shorthand->0@ != detached_name() {
            Some(h.shorthand->0@)
        } else if h.short_id is Some {
            Some(detached_label(h.short_id->0@))
        } else {
            None
        },
    }
}

/// How far the head and its upstream have diverged. The counts are there only
/// for a head that is a named local branch with an upstream.
pub open spec fn divergence(s: Snapshot) -> Option<(usize, usize)> {
    match s.head {
        None => None,
        Some(h) => if h.is_branch && h.shorthand is Some {
            s.upstream
        } else {
            None
        },
    }
}

/// The commits that the head has and its upstream lacks; zero where they are
/// not counted.
pub open spec fn commits_ahead(s: Snapshot) -> nat {
    match divergence(s) {
        Some((ahead, _)) => ahead as nat,
        None => 0,
    }
}

/// The commits that the upstream has and the head lacks; zero where they are
/// not counted.
pub open spec fn commits_behind(s: Snapshot) -> nat {
    match divergence(s) {
        Some((_, behind)) => behind as nat,
        None => 0,
    }
}

impl Snapshot {
    /// The label of the head, where it has one.
    pub fn get_head(&self) -> (label: Option<String>)
        ensures
            label is Some == head_label(self.head) is Some,
            label is Some ==> label->0@ == head_label(self.head)->0,
    {
        match &self.head {
            None => None,
            Some(h) => {
                if let Some(name) = &h.shorthand {
                    if !str_eq(name.as_str(), "HEAD") {
                        return Some(name.clone());
                    }
                }
                match &h.short_id {
                    None => None,
                    Some(id) => {
                        let mut label = String::new();
                        crate::text::push_char(&mut label, ':');
                        push_bytes(&mut label, id.as_slice());
                        assert(label@ =~= detached_label(id@));
                        Some(label)
                    },
                }
            },
        }
    }

    /// The commits ahead of the upstream and behind it, where the head is a
    /// named local branch that has an upstream.
    pub fn get_pos(&self) -> (counts: Option<(usize, usize)>)
        ensures
            counts == divergence(*self),
    {
        match &self.head {
            None => None,
            Some(h) => {
                if !h.is_branch {
                    return None;
                }
                if h.shorthand.is_none() {
                    return None;
                }
                self.upstream
            },
        }
    }

    /// The tally of the status scan, where there was one.
    pub fn count_statuses(&self) -> (tally: Option<StatusTally>)
        ensures
            tally is Some == self.statuses is Some,
            tally is Some ==> tally->0.counts(self.statuses->0@),
    {
        match &self.statuses {
            None => None,
            Some(entries) => Some(count_statuses(entries.as_slice())),
        }
    }
}

} // verus!
