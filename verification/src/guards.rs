//! The conditions under which a build may move on, as functions of its two
//! states. Each guard either lets the transition pass or names the error
//! that turns it down.

use crate::errors::{result_view, ApiError, ApiErrorView};
use crate::state::{PublishedState, PublishedStateView, RepoState, RepoStateView};
use crate::text::{join, opt_text};
use vstd::prelude::*;

verus! {

/// The error of a request that wants the repository of a build in one state
/// and finds it in another: it carries the names of both.
pub open spec fn wrong_repo_state(
    message: Seq<char>,
    expected: RepoStateView,
    actual: RepoStateView,
) -> ApiErrorView {
    ApiErrorView::WrongRepoState(message, expected.name(), actual.name())
}

/// The error of a request that wants the publication of a build in one state
/// and finds it in another: it carries the names of both.
pub open spec fn wrong_published_state(
    message: Seq<char>,
    expected: PublishedStateView,
    actual: PublishedStateView,
) -> ApiErrorView {
    ApiErrorView::WrongPublishedState(message, expected.name(), actual.name())
}

/// A commit may start only while the build is uploading. In every other
/// state it is turned down with the name of that state.
pub open spec fn commit_guard(repo: RepoStateView) -> Result<(), ApiErrorView> {
    let expected = RepoStateView::Uploading;
    match repo {
        RepoStateView::Uploading => Ok(()),
        RepoStateView::Verifying => Err(
            wrong_repo_state("Build is currently being commited"@, expected, repo),
        ),
        RepoStateView::Ready => Err(wrong_repo_state("Build is already commited"@, expected, repo)),
        RepoStateView::Failed(reason) => Err(
            wrong_repo_state("Commit already failed: "@ + reason, expected, repo),
        ),
        RepoStateView::Purging => Err(wrong_repo_state("Build is being purged"@, expected, repo)),
        RepoStateView::Purged => Err(wrong_repo_state("Build has been purged"@, expected, repo)),
    }
}

/// A publication may start only while the build is unpublished and its
/// repository is ready. The publication state is judged first. Whichever of
/// the two states stands in the way, the publication is turned down with the
/// name of that state.
pub open spec fn publish_guard(published: PublishedStateView, repo: RepoStateView) -> Result<
    (),
    ApiErrorView,
> {
    let unpublished = PublishedStateView::Unpublished;
    let ready = RepoStateView::Ready;
    match published {
        PublishedStateView::Publishing => Err(
            wrong_published_state("Build is currently being published"@, unpublished, published),
        ),
        PublishedStateView::Published => Err(
            wrong_published_state("Build has already been published"@, unpublished, published),
        ),
        PublishedStateView::Failed(reason) => Err(
            wrong_published_state("Previous publish failed: "@ + reason, unpublished, published),
        ),
        PublishedStateView::Unpublished => match repo {
            RepoStateView::Ready => Ok(()),
            RepoStateView::Uploading | RepoStateView::Verifying => Err(
                wrong_repo_state("Build is not commited"@, ready, repo),
            ),
            RepoStateView::Failed(reason) => Err(
                wrong_repo_state("Build failed: "@ + reason, ready, repo),
            ),
            RepoStateView::Purging => Err(wrong_repo_state("Build is being purged"@, ready, repo)),
            RepoStateView::Purged => Err(wrong_repo_state("Build has been purged"@, ready, repo)),
        },
    }
}

/// Whether a build is being worked on, so that it must not be purged: its
/// repository is verifying or already purging, or it is being published.
pub open spec fn in_use(repo: RepoStateView, published: PublishedStateView) -> bool {
    ||| repo.same_state_as(RepoStateView::Verifying)
    ||| repo.same_state_as(RepoStateView::Purging)
    ||| published.same_state_as(PublishedStateView::Publishing)
}

/// A purge may begin only on a build that is not in use.
pub open spec fn init_purge_guard(repo: RepoStateView, published: PublishedStateView) -> Result<
    (),
    ApiErrorView,
> {
    if in_use(repo, published) {
        Err(ApiErrorView::BadRequest("Can't prune build while in use"@))
    } else {
        Ok(())
    }
}

/// A purge may end only on a build that is purging.
pub open spec fn finish_purge_guard(repo: RepoStateView) -> Result<(), ApiErrorView> {
    if repo.same_state_as(RepoStateView::Purging) {
        Ok(())
    } else {
        Err(ApiErrorView::BadRequest("Unexpected repo state, was not purging"@))
    }
}

/// The state in which a purge leaves the repository: purged, or failed with
/// the error that the purge ran into.
pub open spec fn purge_outcome(error: Option<Seq<char>>) -> RepoStateView {
    match error {
        None => RepoStateView::Purged,
        Some(text) => RepoStateView::Failed("Failed to Purge build: "@ + text),
    }
}

/// Judges whether a commit may start.
pub fn check_commit(repo: &RepoState) -> (verdict: Result<(), ApiError>)
    ensures
        result_view(verdict) == commit_guard(repo@),
{
    let message = match repo {
        RepoState::Uploading => {
            return Ok(());
        },
        RepoState::Verifying => "Build is currently being commited".to_owned(),
        RepoState::Ready => "Build is already commited".to_owned(),
        RepoState::Failed(reason) => join("Commit already failed: ", reason.as_str()),
        RepoState::Purging => "Build is being purged".to_owned(),
        RepoState::Purged => "Build has been purged".to_owned(),
    };
    Err(
        ApiError::WrongRepoState(
            message,
            RepoState::Uploading.name().to_owned(),
            repo.name().to_owned(),
        ),
    )
}

/// Judges whether a publication may start.
pub fn check_publish(published: &PublishedState, repo: &RepoState) -> (verdict: Result<
    (),
    ApiError,
>)
    ensures
        result_view(verdict) == publish_guard(published@, repo@),
{
    match published {
        PublishedState::Unpublished => {},
        refused => {
            let message = match refused {
                PublishedState::Failed(reason) => join(
                    "Previous publish failed: ",
                    reason.as_str(),
                ),
                PublishedState::Published => "Build has already been published".to_owned(),
                _ => "Build is currently being published".to_owned(),
            };
            return Err(
                ApiError::WrongPublishedState(
                    message,
                    PublishedState::Unpublished.name().to_owned(),
                    refused.name().to_owned(),
                ),
            );
        },
    }
    let message = match repo {
        RepoState::Ready => {
            return Ok(());
        },
        RepoState::Uploading | RepoState::Verifying => "Build is not commited".to_owned(),
        RepoState::Failed(reason) => join("Build failed: ", reason.as_str()),
        RepoState::Purging => "Build is being purged".to_owned(),
        RepoState::Purged => "Build has been purged".to_owned(),
    };
    Err(
        ApiError::WrongRepoState(
            message,
            RepoState::Ready.name().to_owned(),
            repo.name().to_owned(),
        ),
    )
}

/// Judges whether a purge may begin.
pub fn check_init_purge(repo: &RepoState, published: &PublishedState) -> (verdict: Result<
    (),
    ApiError,
>)
    ensures
        result_view(verdict) == init_purge_guard(repo@, published@),
{
    if repo.same_state_as(&RepoState::Verifying) || repo.same_state_as(&RepoState::Purging)
        || published.same_state_as(&PublishedState::Publishing) {
        Err(ApiError::BadRequest("Can't prune build while in use".to_owned()))
    } else {
        Ok(())
    }
}

/// Judges whether a purge may end.
pub fn check_finish_purge(repo: &RepoState) -> (verdict: Result<(), ApiError>)
    ensures
        result_view(verdict) == finish_purge_guard(repo@),
{
    if repo.same_state_as(&RepoState::Purging) {
        Ok(())
    } else {
        Err(ApiError::BadRequest("Unexpected repo state, was not purging".to_owned()))
    }
}

/// The state in which a purge leaves the repository.
pub fn purge_result(error: &Option<String>) -> (state: RepoState)
    ensures
        state@ == purge_outcome(opt_text(*error)),
{
    match error {
        None => RepoState::Purged,
        Some(text) => RepoState::Failed(join("Failed to Purge build: ", text.as_str())),
    }
}

} // verus!
