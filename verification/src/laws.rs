//! What holds of the requests whatever the tables hold.

use crate::builds::{BuildView, NewBuild};
use crate::db::{
    AddExtraIds, DbRequest, FinishPurge, InitPurge, ListBuilds, ListJobs, LookupBuild,
    LookupBuildRef, LookupBuildRefs, LookupCommitJob, LookupJob, LookupPublishJob, StartCommitJob,
    StartPublishJob,
};
use crate::errors::ApiErrorView;
use crate::executor::{up_to_status, DbView};
use crate::extra_ids::{
    lemma_merge_extends, lemma_merge_idempotent, lemma_merge_in_steps, lemma_merge_is_union,
    lemma_merge_no_duplicates, merge_ids,
};
use crate::guards::{in_use, purge_outcome};
use crate::jobs::{JobKind, JobStatus, JobView, PublishJob};
use crate::state::{PublishedStateView, RepoStateView};
use crate::text::{opt_text, texts};
use vstd::prelude::*;

verus! {

/// A new build is uploading and unpublished, has no job and no extra id, and
/// is found under the id that it was given.
pub proof fn lemma_new_build_is_uploading(db: DbView, msg: NewBuild)
    requires
        db.wf(),
    ensures
        msg.outcome(db).1 is Ok <==> db.builds.len() < i32::MAX,
        msg.outcome(db).1 matches Ok(build) ==> {
            let after = msg.outcome(db).0;
            &&& after.wf()
            &&& !db.has_build(build.id)
            &&& after.has_build(build.id)
            &&& after.build(build.id) == build
            &&& build.current_repo_state() == RepoStateView::Uploading
            &&& build.current_published_state() == PublishedStateView::Unpublished
            &&& build.commit_job_id is None
            &&& build.publish_job_id is None
            &&& build.extra_ids.len() == 0
        },
{
}

/// Looking something up and listing never change the tables.
pub proof fn lemma_reading_changes_nothing(
    db: DbView,
    job: LookupJob,
    commit_job: LookupCommitJob,
    publish_job: LookupPublishJob,
    build: LookupBuild,
    build_ref: LookupBuildRef,
    build_refs: LookupBuildRefs,
    builds: ListBuilds,
    jobs: ListJobs,
)
    ensures
        job.outcome(db).0 == db,
        commit_job.outcome(db).0 == db,
        publish_job.outcome(db).0 == db,
        build.outcome(db).0 == db,
        build_ref.outcome(db).0 == db,
        build_refs.outcome(db).0 == db,
        builds.outcome(db).0 == db,
        jobs.outcome(db).0 == db,
{
}

/// A commit starts exactly on a build that is uploading, as long as the job
/// table has an id left. It leaves the build verifying and referring to the
/// new job, which is a commit job that has not started and the only row that
/// is added; the publication state and the extra ids of the build stay as
/// they were, and so does every other build.
pub proof fn lemma_commit_starts_when_uploading(db: DbView, msg: StartCommitJob)
    requires
        db.wf(),
    ensures
        msg.outcome(db).1 is Ok <==> db.has_build(msg.id) && db.build(
            msg.id,
        ).current_repo_state() == RepoStateView::Uploading && db.jobs.len() < i32::MAX,
        msg.outcome(db).1 matches Ok(job) ==> {
            let after = msg.outcome(db).0;
            &&& after.wf()
            &&& job == JobView::pending(db.next_job_id(), msg.job())
            &&& job.id == db.next_job_id()
            &&& job.kind == JobKind::Commit.code()
            &&& job.status == JobStatus::New.code()
            &&& job.repo is None
            &&& job.contents == msg.payload().json()
            &&& job.log.len() == 0
            &&& after.has_job(job.id)
            &&& after.job(job.id) == job
            &&& after.build(msg.id).current_repo_state() == RepoStateView::Verifying
            &&& after.build(msg.id).commit_job_id == Some(job.id)
            &&& after.build(msg.id).current_published_state() == db.build(
                msg.id,
            ).current_published_state()
            &&& after.build(msg.id).publish_job_id == db.build(msg.id).publish_job_id
            &&& after.build(msg.id).extra_ids == db.build(msg.id).extra_ids
            &&& after.jobs == db.jobs.push(job)
            &&& after.build_refs == db.build_refs
            &&& after.builds.len() == db.builds.len()
            &&& forall|other: i32|
                db.has_build(other) && other != msg.id ==> #[trigger] after.build(other)
                    == db.build(other)
        },
{
}

/// A commit on a build that is not uploading is turned down with the name of
/// the state that it wants, uploading, and the name of the state that the
/// build is in, and changes nothing. A build whose purge is under way is
/// reported as purging, one whose purge has ended as purged.
pub proof fn lemma_commit_refusal_names_the_state(db: DbView, msg: StartCommitJob)
    requires
        db.wf(),
    ensures
        db.has_build(msg.id) && db.build(msg.id).current_repo_state() != RepoStateView::Uploading
            ==> {
            let state = db.build(msg.id).current_repo_state();
            &&& msg.outcome(db).0 == db
            &&& msg.outcome(db).1 matches Err(ApiErrorView::WrongRepoState(_, expected, actual))
            &&& expected == "uploading"@
            &&& actual == state.name()
            &&& state == RepoStateView::Verifying ==> actual == "verifying"@
            &&& state == RepoStateView::Ready ==> actual == "ready"@
            &&& state is Failed ==> actual == "failed"@
            &&& state == RepoStateView::Purging ==> actual == "purging"@
            &&& state == RepoStateView::Purged ==> actual == "purged"@
        },
{
}

/// A publication on a build that is not unpublished is turned down with the
/// name of the publication state that it wants, unpublished, and the name of
/// the one that the build is in. On a build that is unpublished but not
/// ready it is turned down with the name of the repository state that it
/// wants, ready, and the name of the one that the build is in. Either way
/// nothing changes.
pub proof fn lemma_publish_refusal_names_the_state(db: DbView, msg: StartPublishJob)
    requires
        db.wf(),
    ensures
        db.has_build(msg.id) && db.build(msg.id).current_published_state()
            != PublishedStateView::Unpublished ==> {
            let state = db.build(msg.id).current_published_state();
            &&& msg.outcome(db).0 == db
            &&& msg.outcome(db).1 matches Err(
                ApiErrorView::WrongPublishedState(_, expected, actual),
            )
            &&& expected == "unpublished"@
            &&& actual == state.name()
            &&& state == PublishedStateView::Publishing ==> actual == "publishing"@
            &&& state == PublishedStateView::Published ==> actual == "published"@
            &&& state is Failed ==> actual == "failed"@
        },
        db.has_build(msg.id) && db.build(msg.id).current_published_state()
            == PublishedStateView::Unpublished && db.build(msg.id).current_repo_state()
            != RepoStateView::Ready ==> {
            let state = db.build(msg.id).current_repo_state();
            &&& msg.outcome(db).0 == db
            &&& msg.outcome(db).1 matches Err(ApiErrorView::WrongRepoState(_, expected, actual))
            &&& expected == "ready"@
            &&& actual == state.name()
            &&& state == RepoStateView::Uploading ==> actual == "uploading"@
            &&& state == RepoStateView::Verifying ==> actual == "verifying"@
            &&& state is Failed ==> actual == "failed"@
            &&& state == RepoStateView::Purging ==> actual == "purging"@
            &&& state == RepoStateView::Purged ==> actual == "purged"@
        },
{
}

/// Of two requests to commit the same build, carried out one after the
/// other, at most one succeeds; where the first succeeds, the second is
/// turned down because the build is verifying, and changes nothing. On a
/// build that is uploading the first does succeed, as long as the job table
/// has an id left.
pub proof fn lemma_commit_starts_once(db: DbView, first: StartCommitJob, second: StartCommitJob)
    requires
        db.wf(),
        first.id == second.id,
    ensures
        !(first.outcome(db).1 is Ok && second.outcome(first.outcome(db).0).1 is Ok),
        first.outcome(db).1 is Ok ==> second.outcome(first.outcome(db).0).1 == Err::<
            JobView,
            ApiErrorView,
        >(
            ApiErrorView::WrongRepoState(
                "Build is currently being commited"@,
                "uploading"@,
                "verifying"@,
            ),
        ),
        first.outcome(db).1 is Ok ==> second.outcome(first.outcome(db).0).0 == first.outcome(
            db,
        ).0,
        db.has_build(first.id) && db.build(first.id).current_repo_state()
            == RepoStateView::Uploading && db.jobs.len() < i32::MAX ==> first.outcome(db).1 is Ok,
{
}

/// A publication starts exactly on a build that is unpublished and whose
/// repository is ready, as long as the job table has an id left. It leaves
/// the build publishing and referring to the new job, which is a publish job
/// for the repository that the request names and the only row that is added;
/// the repository state of the build stays as it was, and so does every other
/// build.
pub proof fn lemma_publish_starts_when_ready(db: DbView, msg: StartPublishJob)
    requires
        db.wf(),
    ensures
        msg.outcome(db).1 is Ok <==> db.has_build(msg.id) && db.build(
            msg.id,
        ).current_published_state() == PublishedStateView::Unpublished && db.build(
            msg.id,
        ).current_repo_state() == RepoStateView::Ready && db.jobs.len() < i32::MAX,
        msg.outcome(db).1 matches Ok(job) ==> {
            let after = msg.outcome(db).0;
            &&& after.wf()
            &&& job == JobView::pending(db.next_job_id(), msg.job())
            &&& job.id == db.next_job_id()
            &&& job.kind == JobKind::Publish.code()
            &&& job.status == JobStatus::New.code()
            &&& job.repo == Some(msg.repo@)
            &&& job.contents == (PublishJob { build: msg.id }).json()
            &&& job.log.len() == 0
            &&& after.has_job(job.id)
            &&& after.job(job.id) == job
            &&& after.build(msg.id).current_published_state() == PublishedStateView::Publishing
            &&& after.build(msg.id).publish_job_id == Some(job.id)
            &&& after.build(msg.id).current_repo_state() == RepoStateView::Ready
            &&& after.build(msg.id).commit_job_id == db.build(msg.id).commit_job_id
            &&& after.build(msg.id).extra_ids == db.build(msg.id).extra_ids
            &&& after.jobs == db.jobs.push(job)
            &&& after.build_refs == db.build_refs
            &&& after.builds.len() == db.builds.len()
            &&& forall|other: i32|
                db.has_build(other) && other != msg.id ==> #[trigger] after.build(other)
                    == db.build(other)
        },
{
}

/// A purge begins exactly on a build that is not in use, and leaves its
/// repository purging; the publication state stays as it was.
pub proof fn lemma_purge_begins_when_idle(db: DbView, msg: InitPurge)
    requires
        db.wf(),
    ensures
        msg.outcome(db).1 is Ok <==> db.has_build(msg.id) && !in_use(
            db.build(msg.id).current_repo_state(),
            db.build(msg.id).current_published_state(),
        ),
        msg.outcome(db).1 is Ok ==> {
            let after = msg.outcome(db).0;
            &&& after.wf()
            &&& after.build(msg.id).current_repo_state() == RepoStateView::Purging
            &&& after.build(msg.id).current_published_state() == db.build(
                msg.id,
            ).current_published_state()
        },
{
}

/// A purge ends exactly on a build that is purging, and leaves its
/// repository purged, or failed with the error of the purge; the answer is
/// the build as it then stands.
pub proof fn lemma_purge_ends_when_purging(db: DbView, msg: FinishPurge)
    requires
        db.wf(),
    ensures
        msg.outcome(db).1 is Ok <==> db.has_build(msg.id) && db.build(
            msg.id,
        ).current_repo_state() == RepoStateView::Purging,
        msg.outcome(db).1 matches Ok(build) ==> {
            let after = msg.outcome(db).0;
            &&& after.wf()
            &&& after.build(msg.id) == build
            &&& build.current_repo_state() == purge_outcome(opt_text(msg.error))
            &&& msg.error is None ==> build.current_repo_state() == RepoStateView::Purged
        },
{
}

/// Of two requests to end the purge of the same build, carried out one after
/// the other, the second is turned down where the first succeeds.
pub proof fn lemma_purge_ends_once(db: DbView, first: FinishPurge, second: FinishPurge)
    requires
        db.wf(),
        first.id == second.id,
    ensures
        first.outcome(db).1 is Ok ==> second.outcome(first.outcome(db).0).1 == Err::<
            BuildView,
            ApiErrorView,
        >(ApiErrorView::BadRequest("Unexpected repo state, was not purging"@)),
        first.outcome(db).1 is Ok ==> second.outcome(first.outcome(db).0).0 == first.outcome(
            db,
        ).0,
{
}

/// Adding extra ids to a build that exists always succeeds. The build then
/// has its old ids, unmoved, followed by the new ones among those added, each
/// once: the list holds exactly the ids that were there and the ids that were
/// added, and nothing else about the build changes.
pub proof fn lemma_add_extra_ids(db: DbView, msg: AddExtraIds)
    requires
        db.wf(),
    ensures
        msg.outcome(db).1 is Ok <==> db.has_build(msg.build_id),
        msg.outcome(db).1 matches Ok(build) ==> {
            let before = db.build(msg.build_id);
            let after = msg.outcome(db).0;
            &&& after.wf()
            &&& after.build(msg.build_id) == build
            &&& build.extra_ids == merge_ids(before.extra_ids, texts(msg.ids@))
            &&& before.extra_ids.is_prefix_of(build.extra_ids)
            &&& build.extra_ids.no_duplicates()
            &&& forall|id: Seq<char>| #[trigger]
                build.extra_ids.contains(id) <==> before.extra_ids.contains(id) || texts(
                    msg.ids@,
                ).contains(id)
            &&& build.current_repo_state() == before.current_repo_state()
            &&& build.current_published_state() == before.current_published_state()
            &&& build.commit_job_id == before.commit_job_id
            &&& build.publish_job_id == before.publish_job_id
        },
{
    if db.has_build(msg.build_id) {
        let before = db.build(msg.build_id);
        lemma_merge_extends(before.extra_ids, texts(msg.ids@));
        lemma_merge_no_duplicates(before.extra_ids, texts(msg.ids@));
        lemma_merge_is_union(before.extra_ids, texts(msg.ids@));
    }
}

/// Adding the same extra ids to a build a second time changes nothing.
pub proof fn lemma_add_extra_ids_again(db: DbView, msg: AddExtraIds)
    requires
        db.wf(),
    ensures
        msg.outcome(msg.outcome(db).0) == msg.outcome(db),
{
    if db.has_build(msg.build_id) {
        let before = db.build(msg.build_id);
        lemma_merge_idempotent(before.extra_ids, texts(msg.ids@));
        let once = msg.outcome(db).0;
        assert(once.builds.update(msg.build_id - 1, once.build(msg.build_id)) =~= once.builds);
    }
}

/// Extra ids added to a build in two requests, whether or not the two have
/// ids in common, leave the build with what one request for all of them
/// would have left.
pub proof fn lemma_add_extra_ids_in_steps(
    db: DbView,
    first: AddExtraIds,
    second: AddExtraIds,
    both: AddExtraIds,
)
    requires
        db.wf(),
        first.build_id == second.build_id,
        first.build_id == both.build_id,
        texts(both.ids@) == texts(first.ids@) + texts(second.ids@),
    ensures
        second.outcome(first.outcome(db).0) == both.outcome(db),
{
    if db.has_build(first.build_id) {
        let before = db.build(first.build_id);
        lemma_merge_in_steps(before.extra_ids, texts(first.ids@), texts(second.ids@));
        let once = first.outcome(db).0;
        let twice = second.outcome(once).0;
        assert(twice.builds =~= both.outcome(db).0.builds);
    }
}

/// The jobs that are listed are exactly those still pending or running, and
/// they come in the order of their ids, lowest first.
pub proof fn lemma_list_jobs(db: DbView, msg: ListJobs)
    requires
        db.wf(),
    ensures
        msg.outcome(db).0 == db,
        msg.outcome(db).1 matches Ok(jobs) && {
            &&& forall|job: JobView| #[trigger]
                jobs.contains(job) <==> db.jobs.contains(job) && job.is_active()
            &&& forall|i: int, j: int|
                0 <= i < j < jobs.len() ==> (#[trigger] jobs[i]).id < (#[trigger] jobs[j]).id
        },
{
    let keep = up_to_status(JobStatus::Started.code());
    let jobs = db.jobs.filter(keep);
    lemma_filter_members(db.jobs, keep);
    lemma_filter_ascending(db.jobs, keep);
}

/// The builds that are listed are exactly those that are not purged.
pub proof fn lemma_list_builds(db: DbView, msg: ListBuilds)
    requires
        db.wf(),
    ensures
        msg.outcome(db).0 == db,
        msg.outcome(db).1 matches Ok(builds) && forall|build: BuildView| #[trigger]
            builds.contains(build) <==> db.builds.contains(build) && build.current_repo_state()
                != RepoStateView::Purged,
{
    let keep = crate::executor::outside_state(RepoStateView::Purged.code());
    lemma_filter_members(db.builds, keep);
}

/// What a filter lets through is what was there and passes.
proof fn lemma_filter_members<A>(rows: Seq<A>, keep: spec_fn(A) -> bool)
    ensures
        forall|row: A| #[trigger]
            rows.filter(keep).contains(row) <==> rows.contains(row) && keep(row),
{
    assert forall|row: A| #[trigger] rows.filter(keep).contains(row) <==> rows.contains(row)
        && keep(row) by {
        if rows.filter(keep).contains(row) {
            rows.lemma_filter_contains_rev(keep, row);
        }
    }
}

/// Jobs numbered in the order in which they stand stay in the order of their
/// ids when some of them are filtered out.
proof fn lemma_filter_ascending(rows: Seq<JobView>, keep: spec_fn(JobView) -> bool)
    requires
        forall|i: int| 0 <= i < rows.len() ==> (#[trigger] rows[i]).id == i + 1,
    ensures
        forall|i: int, j: int|
            0 <= i < j < rows.filter(keep).len() ==> (#[trigger] rows.filter(keep)[i]).id < (
            #[trigger] rows.filter(keep)[j]).id,
        forall|i: int|
            0 <= i < rows.filter(keep).len() ==> (#[trigger] rows.filter(keep)[i]).id
                <= rows.len(),
    decreases rows.len(),
{
    reveal(Seq::filter);
    if rows.len() > 0 {
        lemma_filter_ascending(rows.drop_last(), keep);
    }
}

} // verus!
