//! The two automatons tracked for every build: where its repository stands
//! and whether it has been published. Both are persisted as a small integer
//! code plus an optional free-text reason that only a failure carries.

use crate::text::opt_text;
use vstd::prelude::*;

verus! {

/// Repository side of a build's lifecycle.
#[derive(Debug, PartialEq, Eq)]
pub enum RepoState {
    Uploading,
    Verifying,
    Ready,
    Failed(String),
    Purging,
    Purged,
}

/// Publication side of a build's lifecycle.
#[derive(Debug, PartialEq, Eq)]
pub enum PublishedState {
    Unpublished,
    Publishing,
    Published,
    Failed(String),
}

/// `RepoState` with the failure reason as a sequence of characters.
pub enum RepoStateView {
    Uploading,
    Verifying,
    Ready,
    Failed(Seq<char>),
    Purging,
    Purged,
}

/// `PublishedState` with the failure reason as a sequence of characters.
pub enum PublishedStateView {
    Unpublished,
    Publishing,
    Published,
    Failed(Seq<char>),
}

impl RepoStateView {
    /// The persisted code of the state.
    pub open spec fn code(self) -> i16 {
        match self {
            RepoStateView::Uploading => 0,
            RepoStateView::Verifying => 1,
            RepoStateView::Ready => 2,
            RepoStateView::Failed(_) => 3,
            RepoStateView::Purging => 4,
            RepoStateView::Purged => 5,
        }
    }

    /// The persisted reason: present exactly for a failure.
    pub open spec fn reason(self) -> Option<Seq<char>> {
        match self {
            RepoStateView::Failed(r) => Some(r),
            _ => None,
        }
    }

    /// The state that a persisted code and reason stand for. A failure
    /// without a reason and a code outside the table both read as failures
    /// with a fixed text.
    pub open spec fn decode(code: i16, reason: Option<Seq<char>>) -> Self {
        if code == 0 {
            RepoStateView::Uploading
        } else if code == 1 {
            RepoStateView::Verifying
        } else if code == 2 {
            RepoStateView::Ready
        } else if code == 3 {
            match reason {
                Some(r) => RepoStateView::Failed(r),
                None => RepoStateView::Failed("Unknown reason"@),
            }
        } else if code == 4 {
            RepoStateView::Purging
        } else if code == 5 {
            RepoStateView::Purged
        } else {
            RepoStateView::Failed("Unknown state"@)
        }
    }

    /// Whether two states are the same variant, whatever their reasons.
    pub open spec fn same_state_as(self, other: Self) -> bool {
        match (self, other) {
            (RepoStateView::Uploading, RepoStateView::Uploading) => true,
            (RepoStateView::Verifying, RepoStateView::Verifying) => true,
            (RepoStateView::Ready, RepoStateView::Ready) => true,
            (RepoStateView::Failed(_), RepoStateView::Failed(_)) => true,
            (RepoStateView::Purging, RepoStateView::Purging) => true,
            (RepoStateView::Purged, RepoStateView::Purged) => true,
            _ => false,
        }
    }
}

impl RepoStateView {
    /// The name under which the state is reported.
    pub open spec fn name(self) -> Seq<char> {
        match self {
            RepoStateView::Uploading => "uploading"@,
            RepoStateView::Verifying => "verifying"@,
            RepoStateView::Ready => "ready"@,
            RepoStateView::Failed(_) => "failed"@,
            RepoStateView::Purging => "purging"@,
            RepoStateView::Purged => "purged"@,
        }
    }

    /// Whether one request can take the repository of a build from this
    /// state to `next`: a request leaves the state alone, starts the commit of
    /// an upload, begins a purge where none is under way and nothing is being
    /// verified, or ends a purge in success or failure.
    pub open spec fn may_become(self, next: RepoStateView) -> bool {
        ||| next == self
        ||| self == RepoStateView::Uploading && next == RepoStateView::Verifying
        ||| next == RepoStateView::Purging && !self.same_state_as(RepoStateView::Verifying)
        ||| self == RepoStateView::Purging && (next == RepoStateView::Purged
            || next is Failed)
    }
}

impl PublishedStateView {
    /// The name under which the state is reported.
    pub open spec fn name(self) -> Seq<char> {
        match self {
            PublishedStateView::Unpublished => "unpublished"@,
            PublishedStateView::Publishing => "publishing"@,
            PublishedStateView::Published => "published"@,
            PublishedStateView::Failed(_) => "failed"@,
        }
    }

    /// Whether one request can take the publication of a build from this
    /// state to `next`: a request leaves the state alone or starts the
    /// publication of a build that is unpublished.
    pub open spec fn may_become(self, next: PublishedStateView) -> bool {
        ||| next == self
        ||| self == PublishedStateView::Unpublished && next == PublishedStateView::Publishing
    }

    /// The persisted code of the state.
    pub open spec fn code(self) -> i16 {
        match self {
            PublishedStateView::Unpublished => 0,
            PublishedStateView::Publishing => 1,
            PublishedStateView::Published => 2,
            PublishedStateView::Failed(_) => 3,
        }
    }

    /// The persisted reason: present exactly for a failure.
    pub open spec fn reason(self) -> Option<Seq<char>> {
        match self {
            PublishedStateView::Failed(r) => Some(r),
            _ => None,
        }
    }

    /// The state that a persisted code and reason stand for. A failure
    /// without a reason and a code outside the table both read as failures
    /// with a fixed text.
    pub open spec fn decode(code: i16, reason: Option<Seq<char>>) -> Self {
        if code == 0 {
            PublishedStateView::Unpublished
        } else if code == 1 {
            PublishedStateView::Publishing
        } else if code == 2 {
            PublishedStateView::Published
        } else if code == 3 {
            match reason {
                Some(r) => PublishedStateView::Failed(r),
                None => PublishedStateView::Failed("Unknown reason"@),
            }
        } else {
            PublishedStateView::Failed("Unknown state"@)
        }
    }

    /// Whether two states are the same variant, whatever their reasons.
    pub open spec fn same_state_as(self, other: Self) -> bool {
        match (self, other) {
            (PublishedStateView::Unpublished, PublishedStateView::Unpublished) => true,
            (PublishedStateView::Publishing, PublishedStateView::Publishing) => true,
            (PublishedStateView::Published, PublishedStateView::Published) => true,
            (PublishedStateView::Failed(_), PublishedStateView::Failed(_)) => true,
            _ => false,
        }
    }
}

impl View for RepoState {
    type V = RepoStateView;

    open spec fn view(&self) -> RepoStateView {
        match self {
            RepoState::Uploading => RepoStateView::Uploading,
            RepoState::Verifying => RepoStateView::Verifying,
            RepoState::Ready => RepoStateView::Ready,
            RepoState::Failed(r) => RepoStateView::Failed(r@),
            RepoState::Purging => RepoStateView::Purging,
            RepoState::Purged => RepoStateView::Purged,
        }
    }
}

impl View for PublishedState {
    type V = PublishedStateView;

    open spec fn view(&self) -> PublishedStateView {
        match self {
            PublishedState::Unpublished => PublishedStateView::Unpublished,
            PublishedState::Publishing => PublishedStateView::Publishing,
            PublishedState::Published => PublishedStateView::Published,
            PublishedState::Failed(r) => PublishedStateView::Failed(r@),
        }
    }
}

impl Clone for RepoState {
    fn clone(&self) -> (copy: Self)
        ensures
            copy@ == self@,
    {
        match self {
            RepoState::Uploading => RepoState::Uploading,
            RepoState::Verifying => RepoState::Verifying,
            RepoState::Ready => RepoState::Ready,
            RepoState::Failed(r) => RepoState::Failed(r.clone()),
            RepoState::Purging => RepoState::Purging,
            RepoState::Purged => RepoState::Purged,
        }
    }
}

impl Clone for PublishedState {
    fn clone(&self) -> (copy: Self)
        ensures
            copy@ == self@,
    {
        match self {
            PublishedState::Unpublished => PublishedState::Unpublished,
            PublishedState::Publishing => PublishedState::Publishing,
            PublishedState::Published => PublishedState::Published,
            PublishedState::Failed(r) => PublishedState::Failed(r.clone()),
        }
    }
}

impl RepoState {
    /// The name under which the state is reported.
    pub fn name(&self) -> (name: &'static str)
        ensures
            name@ == self@.name(),
    {
        match self {
            RepoState::Uploading => "uploading",
            RepoState::Verifying => "verifying",
            RepoState::Ready => "ready",
            RepoState::Failed(_) => "failed",
            RepoState::Purging => "purging",
            RepoState::Purged => "purged",
        }
    }

    /// Compares the variants only: two failures are the same state whatever
    /// their reasons say.
    pub fn same_state_as(&self, other: &Self) -> (same: bool)
        ensures
            same == self@.same_state_as(other@),
    {
        match (self, other) {
            (RepoState::Uploading, RepoState::Uploading) => true,
            (RepoState::Verifying, RepoState::Verifying) => true,
            (RepoState::Ready, RepoState::Ready) => true,
            (RepoState::Failed(_), RepoState::Failed(_)) => true,
            (RepoState::Purging, RepoState::Purging) => true,
            (RepoState::Purged, RepoState::Purged) => true,
            _ => false,
        }
    }

    /// The code and reason under which the state is persisted.
    pub fn to_db(&self) -> (row: (i16, Option<String>))
        ensures
            row.0 == self@.code(),
            opt_text(row.1) == self@.reason(),
    {
        match self {
            RepoState::Uploading => (0, None),
            RepoState::Verifying => (1, None),
            RepoState::Ready => (2, None),
            RepoState::Failed(s) => (3, Some(s.clone())),
            RepoState::Purging => (4, None),
            RepoState::Purged => (5, None),
        }
    }

    /// Reads a persisted code and reason back into a state.
    pub fn from_db(val: i16, reason: &Option<String>) -> (state: Self)
        ensures
            state@ == RepoStateView::decode(val, opt_text(*reason)),
    {
        match val {
            0 => RepoState::Uploading,
            1 => RepoState::Verifying,
            2 => RepoState::Ready,
            3 => match reason {
                Some(r) => RepoState::Failed(r.clone()),
                None => RepoState::Failed("Unknown reason".to_owned()),
            },
            4 => RepoState::Purging,
            5 => RepoState::Purged,
            _ => RepoState::Failed("Unknown state".to_owned()),
        }
    }
}

impl PublishedState {
    /// The name under which the state is reported.
    pub fn name(&self) -> (name: &'static str)
        ensures
            name@ == self@.name(),
    {
        match self {
            PublishedState::Unpublished => "unpublished",
            PublishedState::Publishing => "publishing",
            PublishedState::Published => "published",
            PublishedState::Failed(_) => "failed",
        }
    }

    /// Compares the variants only: two failures are the same state whatever
    /// their reasons say.
    pub fn same_state_as(&self, other: &Self) -> (same: bool)
        ensures
            same == self@.same_state_as(other@),
    {
        match (self, other) {
            (PublishedState::Unpublished, PublishedState::Unpublished) => true,
            (PublishedState::Publishing, PublishedState::Publishing) => true,
            (PublishedState::Published, PublishedState::Published) => true,
            (PublishedState::Failed(_), PublishedState::Failed(_)) => true,
            _ => false,
        }
    }

    /// The code and reason under which the state is persisted.
    pub fn to_db(&self) -> (row: (i16, Option<String>))
        ensures
            row.0 == self@.code(),
            opt_text(row.1) == self@.reason(),
    {
        match self {
            PublishedState::Unpublished => (0, None),
            PublishedState::Publishing => (1, None),
            PublishedState::Published => (2, None),
            PublishedState::Failed(s) => (3, Some(s.clone())),
        }
    }

    /// Reads a persisted code and reason back into a state.
    pub fn from_db(val: i16, reason: &Option<String>) -> (state: Self)
        ensures
            state@ == PublishedStateView::decode(val, opt_text(*reason)),
    {
        match val {
            0 => PublishedState::Unpublished,
            1 => PublishedState::Publishing,
            2 => PublishedState::Published,
            3 => match reason {
                Some(r) => PublishedState::Failed(r.clone()),
                None => PublishedState::Failed("Unknown reason".to_owned()),
            },
            _ => PublishedState::Failed("Unknown state".to_owned()),
        }
    }
}

/// Persisting a repository state and reading it back gives the same state,
/// reason included: the variant survives, and so does the text of a failure.
pub proof fn lemma_repo_state_round_trip(s: RepoStateView)
    ensures
        RepoStateView::decode(s.code(), s.reason()) == s,
        RepoStateView::decode(s.code(), s.reason()).same_state_as(s),
        s matches RepoStateView::Failed(r) ==> RepoStateView::decode(s.code(), s.reason())
            == RepoStateView::Failed(r),
{
}

/// Persisting a publication state and reading it back gives the same state,
/// reason included: the variant survives, and so does the text of a failure.
pub proof fn lemma_published_state_round_trip(s: PublishedStateView)
    ensures
        PublishedStateView::decode(s.code(), s.reason()) == s,
        PublishedStateView::decode(s.code(), s.reason()).same_state_as(s),
        s matches PublishedStateView::Failed(r) ==> PublishedStateView::decode(
            s.code(),
            s.reason(),
        ) == PublishedStateView::Failed(r),
{
}

} // verus!
