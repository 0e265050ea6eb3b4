//! The issue status vocabulary and its one legacy alias.

use crate::text::same_text;
use vstd::prelude::*;

verus! {

/// The canonical status that an accepted status text stands for. The five
/// accepted texts are the four canonical ones, each standing for itself, and
/// the legacy alias `backlog`, which stands for `in_review`.
pub open spec fn canonical_status(s: Seq<char>) -> Option<Seq<char>> {
    if s == "todo"@ {
        Some("todo"@)
    } else if s == "in_progress"@ {
        Some("in_progress"@)
    } else if s == "in_review"@ {
        Some("in_review"@)
    } else if s == "backlog"@ {
        Some("in_review"@)
    } else if s == "done"@ {
        Some("done"@)
    } else {
        None
    }
}

/// Whether `s` is one of the four canonical status texts.
pub open spec fn is_canonical_status(s: Seq<char>) -> bool {
    s == "todo"@ || s == "in_progress"@ || s == "in_review"@ || s == "done"@
}

/// Maps a status text to its canonical form; `None` for a text that is not a status.
pub fn normalize_status(status: &str) -> (r: Option<&'static str>)
    ensures
        match canonical_status(status@) {
            Some(c) => r matches Some(t) && t@ == c,
            None => r is None,
        },
{
    if same_text(status, "todo") {
        Some("todo")
    } else if same_text(status, "in_progress") {
        Some("in_progress")
    } else if same_text(status, "in_review") {
        Some("in_review")
    } else if same_text(status, "backlog") {
        Some("in_review")
    } else if same_text(status, "done") {
        Some("done")
    } else {
        None
    }
}

/// Normalization accepts exactly the five status texts, always yields one of
/// the four canonical ones, sends `backlog` to `in_review`, and leaves a
/// canonical status as it is.
pub proof fn lemma_normalization(s: Seq<char>)
    ensures
        canonical_status(s) is Some <==> (is_canonical_status(s) || s == "backlog"@),
        canonical_status(s) matches Some(c) ==> is_canonical_status(c),
        s == "backlog"@ ==> canonical_status(s) == Some("in_review"@),
        is_canonical_status(s) ==> canonical_status(s) == Some(s),
{
    reveal_strlit("todo");
    reveal_strlit("in_progress");
    reveal_strlit("in_review");
    reveal_strlit("backlog");
    reveal_strlit("done");
    if s == "in_review"@ {
        assert(s.len() == 9);
    }
    if s == "backlog"@ {
        assert(s.len() == 7);
    }
}

/// Normalizing twice is the same as normalizing once.
pub proof fn lemma_normalization_idempotent(s: Seq<char>)
    ensures
        canonical_status(s) matches Some(c) ==> canonical_status(c) == Some(c),
{
    lemma_normalization(s);
    if let Some(c) = canonical_status(s) {
        lemma_normalization(c);
    }
}

} // verus!
