//! The requests that the service accepts, and what each of them does to the
//! tables.

use crate::builds::{Build, BuildRef, BuildRefView, BuildView, NewBuild, NewBuildRef};
use crate::errors::{result_view, ApiError, ApiErrorView};
use crate::executor::{out_of_ids, DbExecutor, DbView};
use crate::extra_ids::{
    lemma_merge_extends, lemma_merge_no_duplicates, merge_extra_ids, merge_ids,
};
use crate::guards::{
    check_commit, check_finish_purge, check_init_purge, check_publish, commit_guard,
    finish_purge_guard, init_purge_guard, publish_guard, purge_outcome, purge_result,
};
use crate::jobs::{
    boundary_from, log_suffix, CommitJob, CommitJobView, Job, JobKind, JobStatus, JobView, NewJob,
    NewJobView, PublishJob,
};
use crate::state::{PublishedState, PublishedStateView, RepoState, RepoStateView};
use crate::text::{opt_text, texts};
use vstd::prelude::*;

verus! {

/// A request: a value that says what is asked of the tables, and whose type
/// says what comes back.
pub trait DbRequest: Send + Sized + 'static {
    /// What the request answers with when it succeeds.
    type DbType: 'static + Send + DeepView;

    /// The tables that the request leaves behind and the answer that it
    /// gives, as a function of the tables that it finds.
    spec fn outcome(&self, db: DbView) -> (
        DbView,
        Result<<Self::DbType as DeepView>::V, ApiErrorView>,
    );

    /// Carries the request out as one step: either all of it happens or, when
    /// it ends in an error, nothing does. Whatever happens, no row is lost,
    /// no job and no ref is rewritten, and no build moves further than one
    /// request can move it.
    fn execute(self, db: &mut DbExecutor) -> (reply: Result<Self::DbType, ApiError>)
        ensures
            final(db)@.wf(),
            final(db)@ == self.outcome(old(db)@).0,
            result_view(reply) == self.outcome(old(db)@).1,
            reply is Err ==> final(db)@ == old(db)@,
            final(db)@.continues(old(db)@),
    ;
}

/// A request on its way to the executor.
pub struct DbRequestWrapper<T>(pub T);

/// Cuts the log of a job down to what follows the byte at `log_offset`;
/// without an offset the job is returned as it is.
pub fn handle_log_offset(job: Job, log_offset: Option<usize>) -> (trimmed: Job)
    ensures
        trimmed@ == trimmed_job(job@, log_offset),
{
    match log_offset {
        None => job,
        Some(offset) => {
            let ghost bytes = vstd::utf8::encode_utf8(job.log@);
            let text = job.log.as_str();
            let len: usize = text.as_bytes().len();
            let mut start: usize = if offset < len {
                offset
            } else {
                len
            };
            proof {
                vstd::utf8::encode_utf8_valid_utf8(job.log@);
                vstd::utf8::is_char_boundary_start_end_of_seq(bytes);
            }
            while start < len && !text.is_char_boundary(start)
                invariant
                    text@ == job.log@,
                    bytes == vstd::utf8::encode_utf8(job.log@),
                    len == bytes.len(),
                    start <= len,
                    boundary_from(bytes, offset as int) == boundary_from(bytes, start as int),
                decreases len - start,
            {
                start += 1;
            }
            let (_, tail) = text.split_at(start);
            proof {
                vstd::utf8::encode_utf8_decode_utf8(tail@);
            }
            let log = tail.to_owned();
            Job { log, ..job }
        },
    }
}

/// A job with its log cut at an offset, or untouched without one.
pub open spec fn trimmed_job(job: JobView, log_offset: Option<usize>) -> JobView {
    match log_offset {
        None => job,
        Some(offset) => JobView { log: log_suffix(job.log, offset as int), ..job },
    }
}

impl DbExecutor {
    /// Carries out the request that `msg` holds and gives its answer.
    pub fn handle<T: DbRequest>(&mut self, msg: DbRequestWrapper<T>) -> (reply: Result<
        T::DbType,
        ApiError,
    >)
        ensures
            final(self)@.wf(),
            final(self)@ == msg.0.outcome(old(self)@).0,
            result_view(reply) == msg.0.outcome(old(self)@).1,
            reply is Err ==> final(self)@ == old(self)@,
            final(self)@.continues(old(self)@),
    {
        msg.0.execute(self)
    }
}

impl DbRequest for NewBuild {
    type DbType = Build;

    /// A build is added in the state in which an upload leaves it.
    open spec fn outcome(&self, db: DbView) -> (DbView, Result<BuildView, ApiErrorView>) {
        if db.builds.len() >= i32::MAX {
            (db, Err(ApiErrorView::StoreFault(out_of_ids())))
        } else {
            (db.with_new_build(), Ok(BuildView::fresh(db.next_build_id())))
        }
    }

    fn execute(self, db: &mut DbExecutor) -> (reply: Result<Build, ApiError>) {
        db.insert_build()
    }
}

impl DbRequest for NewBuildRef {
    type DbType = BuildRef;

    /// A ref is added as it was given.
    open spec fn outcome(&self, db: DbView) -> (DbView, Result<BuildRefView, ApiErrorView>) {
        if db.build_refs.len() >= i32::MAX {
            (db, Err(ApiErrorView::StoreFault(out_of_ids())))
        } else {
            (db.with_new_build_ref(*self), Ok(self.stored(db.next_build_ref_id())))
        }
    }

    fn execute(self, db: &mut DbExecutor) -> (reply: Result<BuildRef, ApiError>) {
        db.insert_build_ref(self)
    }
}

/// Adds ids to the extra ids of a build.
#[derive(Debug)]
pub struct AddExtraIds {
    pub build_id: i32,
    pub ids: Vec<String>,
}

impl AddExtraIds {
    /// The build with the ids of the request merged into its own.
    pub open spec fn merged(&self, build: BuildView) -> BuildView {
        BuildView { extra_ids: merge_ids(build.extra_ids, texts(self.ids@)), ..build }
    }

    /// Merges the ids of the request into those of the build: an id that the
    /// build has already is skipped, a new one goes to the end.
    pub fn apply(&self, build: Build) -> (updated: Build)
        ensures
            updated@ == self.merged(build@),
    {
        let extra_ids = merge_extra_ids(&build.extra_ids, &self.ids);
        Build { extra_ids, ..build }
    }
}

impl DbRequest for AddExtraIds {
    type DbType = Build;

    /// The ids are merged whatever state the build is in.
    open spec fn outcome(&self, db: DbView) -> (DbView, Result<BuildView, ApiErrorView>) {
        if !db.has_build(self.build_id) {
            (db, Err(ApiErrorView::NotFound))
        } else {
            let updated = self.merged(db.build(self.build_id));
            (db.with_build(updated), Ok(updated))
        }
    }

    fn execute(self, db: &mut DbExecutor) -> (reply: Result<Build, ApiError>) {
        proof {
            use_type_invariant(&*db);
        }
        let current = match db.lookup_build(self.build_id) {
            Some(row) => row.clone(),
            None => {
                return Err(ApiError::NotFound);
            },
        };
        proof {
            lemma_merge_no_duplicates(current@.extra_ids, texts(self.ids@));
            lemma_merge_extends(current@.extra_ids, texts(self.ids@));
        }
        let updated = self.apply(current);
        let answer = updated.clone();
        match db.update_build(updated) {
            Ok(_) => Ok(answer),
            Err(e) => Err(e),
        }
    }
}

/// Asks for a job by its id.
#[derive(Debug)]
pub struct LookupJob {
    pub id: i32,
    pub log_offset: Option<usize>,
}

impl DbRequest for LookupJob {
    type DbType = Job;

    open spec fn outcome(&self, db: DbView) -> (DbView, Result<JobView, ApiErrorView>) {
        if db.has_job(self.id) {
            (db, Ok(trimmed_job(db.job(self.id), self.log_offset)))
        } else {
            (db, Err(ApiErrorView::NotFound))
        }
    }

    fn execute(self, db: &mut DbExecutor) -> (reply: Result<Job, ApiError>) {
        proof {
            use_type_invariant(&*db);
        }
        match db.lookup_job(self.id) {
            Some(row) => Ok(handle_log_offset(row.clone(), self.log_offset)),
            None => Err(ApiError::NotFound),
        }
    }
}

/// Asks for the commit job of a build.
#[derive(Debug)]
pub struct LookupCommitJob {
    pub build_id: i32,
    pub log_offset: Option<usize>,
}

/// The job that a build refers to under `job_id`, its log cut at
/// `log_offset`; not found when the build is missing, refers to no job, or
/// refers to a job that is missing.
pub open spec fn referred_job(
    db: DbView,
    build_id: i32,
    job_id: Option<i32>,
    log_offset: Option<usize>,
) -> Result<JobView, ApiErrorView> {
    match job_id {
        Some(id) => if db.has_build(build_id) && db.has_job(id) {
            Ok(trimmed_job(db.job(id), log_offset))
        } else {
            Err(ApiErrorView::NotFound)
        },
        None => Err(ApiErrorView::NotFound),
    }
}

impl DbRequest for LookupCommitJob {
    type DbType = Job;

    open spec fn outcome(&self, db: DbView) -> (DbView, Result<JobView, ApiErrorView>) {
        let job_id = db.build(self.build_id).commit_job_id;
        (db, referred_job(db, self.build_id, job_id, self.log_offset))
    }

    fn execute(self, db: &mut DbExecutor) -> (reply: Result<Job, ApiError>) {
        proof {
            use_type_invariant(&*db);
        }
        let job_id = match db.lookup_build(self.build_id) {
            Some(build) => build.commit_job_id,
            None => None,
        };
        match job_id {
            Some(id) => match db.lookup_job(id) {
                Some(row) => Ok(handle_log_offset(row.clone(), self.log_offset)),
                None => Err(ApiError::NotFound),
            },
            None => Err(ApiError::NotFound),
        }
    }
}

/// Asks for the publish job of a build.
#[derive(Debug)]
pub struct LookupPublishJob {
    pub build_id: i32,
    pub log_offset: Option<usize>,
}

impl DbRequest for LookupPublishJob {
    type DbType = Job;

    open spec fn outcome(&self, db: DbView) -> (DbView, Result<JobView, ApiErrorView>) {
        let job_id = db.build(self.build_id).publish_job_id;
        (db, referred_job(db, self.build_id, job_id, self.log_offset))
    }

    fn execute(self, db: &mut DbExecutor) -> (reply: Result<Job, ApiError>) {
        proof {
            use_type_invariant(&*db);
        }
        let job_id = match db.lookup_build(self.build_id) {
            Some(build) => build.publish_job_id,
            None => None,
        };
        match job_id {
            Some(id) => match db.lookup_job(id) {
                Some(row) => Ok(handle_log_offset(row.clone(), self.log_offset)),
                None => Err(ApiError::NotFound),
            },
            None => Err(ApiError::NotFound),
        }
    }
}

/// Asks for a build by its id.
#[derive(Debug)]
pub struct LookupBuild {
    pub id: i32,
}

impl DbRequest for LookupBuild {
    type DbType = Build;

    open spec fn outcome(&self, db: DbView) -> (DbView, Result<BuildView, ApiErrorView>) {
        if db.has_build(self.id) {
            (db, Ok(db.build(self.id)))
        } else {
            (db, Err(ApiErrorView::NotFound))
        }
    }

    fn execute(self, db: &mut DbExecutor) -> (reply: Result<Build, ApiError>) {
        proof {
            use_type_invariant(&*db);
        }
        match db.lookup_build(self.id) {
            Some(row) => Ok(row.clone()),
            None => Err(ApiError::NotFound),
        }
    }
}

/// Asks for one ref of a build: `id` is the build's, `ref_id` the ref's.
#[derive(Debug)]
pub struct LookupBuildRef {
    pub id: i32,
    pub ref_id: i32,
}

impl DbRequest for LookupBuildRef {
    type DbType = BuildRef;

    open spec fn outcome(&self, db: DbView) -> (DbView, Result<BuildRefView, ApiErrorView>) {
        if db.has_build_ref(self.id, self.ref_id) {
            (db, Ok(db.build_ref(self.ref_id)))
        } else {
            (db, Err(ApiErrorView::NotFound))
        }
    }

    fn execute(self, db: &mut DbExecutor) -> (reply: Result<BuildRef, ApiError>) {
        proof {
            use_type_invariant(&*db);
        }
        match db.lookup_build_ref(self.id, self.ref_id) {
            Some(row) => Ok(row.clone()),
            None => Err(ApiError::NotFound),
        }
    }
}

/// Asks for all refs of a build.
#[derive(Debug)]
pub struct LookupBuildRefs {
    pub id: i32,
}

impl DbRequest for LookupBuildRefs {
    type DbType = Vec<BuildRef>;

    /// A build without refs, and one that does not exist, have no refs:
    /// that is an empty answer and no error.
    open spec fn outcome(&self, db: DbView) -> (DbView, Result<Seq<BuildRefView>, ApiErrorView>) {
        (db, Ok(db.build_refs_of(self.id)))
    }

    fn execute(self, db: &mut DbExecutor) -> (reply: Result<Vec<BuildRef>, ApiError>) {
        proof {
            use_type_invariant(&*db);
        }
        let rows = db.build_refs_of(self.id);
        assert(rows.deep_view() =~= crate::executor::build_ref_views(rows@));
        Ok(rows)
    }
}

/// Asks for the builds that have not been purged.
#[derive(Debug)]
pub struct ListBuilds {}

impl DbRequest for ListBuilds {
    type DbType = Vec<Build>;

    open spec fn outcome(&self, db: DbView) -> (DbView, Result<Seq<BuildView>, ApiErrorView>) {
        (db, Ok(db.builds_outside_state(RepoStateView::Purged.code())))
    }

    fn execute(self, db: &mut DbExecutor) -> (reply: Result<Vec<Build>, ApiError>) {
        proof {
            use_type_invariant(&*db);
        }
        let (purged, _) = RepoState::Purged.to_db();
        let rows = db.builds_outside_state(purged);
        assert(rows.deep_view() =~= crate::executor::build_views(rows@));
        Ok(rows)
    }
}

/// Asks for the jobs that are still pending or running, oldest first.
#[derive(Debug)]
pub struct ListJobs {}

impl DbRequest for ListJobs {
    type DbType = Vec<Job>;

    open spec fn outcome(&self, db: DbView) -> (DbView, Result<Seq<JobView>, ApiErrorView>) {
        (db, Ok(db.jobs_up_to_status(JobStatus::Started.code())))
    }

    fn execute(self, db: &mut DbExecutor) -> (reply: Result<Vec<Job>, ApiError>) {
        proof {
            use_type_invariant(&*db);
        }
        let rows = db.jobs_up_to_status(JobStatus::Started.to_db());
        assert(rows.deep_view() =~= crate::executor::job_views(rows@));
        Ok(rows)
    }
}

/// Starts the commit of a build that has been uploaded.
#[derive(Debug)]
pub struct StartCommitJob {
    pub id: i32,
    pub endoflife: Option<String>,
    pub endoflife_rebase: Option<String>,
    pub token_type: Option<i32>,
}

impl StartCommitJob {
    /// What the commit job is to work on.
    pub open spec fn payload(&self) -> CommitJobView {
        CommitJobView {
            build: self.id,
            endoflife: opt_text(self.endoflife),
            endoflife_rebase: opt_text(self.endoflife_rebase),
            token_type: self.token_type,
        }
    }

    /// The job that the request creates.
    pub open spec fn job(&self) -> NewJobView {
        NewJobView {
            kind: JobKind::Commit.code(),
            start_after: None,
            repo: None,
            contents: self.payload().json(),
        }
    }

    /// The build once its commit has started: verifying, and referring to
    /// the job.
    pub open spec fn started(build: BuildView, job_id: i32) -> BuildView {
        BuildView {
            commit_job_id: Some(job_id),
            ..build.with_repo_state(RepoStateView::Verifying)
        }
    }

    /// Judges whether the commit of the build may start.
    pub fn check(&self, build: &Build) -> (verdict: Result<(), ApiError>)
        ensures
            result_view(verdict) == commit_guard(build@.current_repo_state()),
    {
        check_commit(&build.current_repo_state())
    }

    /// Writes the job that carries the commit out.
    pub fn new_job(&self) -> (job: NewJob)
        ensures
            job@ == self.job(),
    {
        let payload = CommitJob {
            build: self.id,
            endoflife: self.endoflife.clone(),
            endoflife_rebase: self.endoflife_rebase.clone(),
            token_type: self.token_type,
        };
        NewJob::new(JobKind::Commit, None, None, payload.contents())
    }

    /// Moves the build on once the job has been created.
    pub fn apply(&self, build: Build, job_id: i32) -> (updated: Build)
        ensures
            updated@ == Self::started(build@, job_id),
    {
        let build = build.with_repo_state(&RepoState::Verifying);
        Build { commit_job_id: Some(job_id), ..build }
    }
}

impl DbRequest for StartCommitJob {
    type DbType = Job;

    open spec fn outcome(&self, db: DbView) -> (DbView, Result<JobView, ApiErrorView>) {
        if !db.has_build(self.id) {
            (db, Err(ApiErrorView::NotFound))
        } else {
            let build = db.build(self.id);
            match commit_guard(build.current_repo_state()) {
                Err(e) => (db, Err(e)),
                Ok(_) => if db.jobs.len() >= i32::MAX {
                    (db, Err(ApiErrorView::StoreFault(out_of_ids())))
                } else {
                    let job = JobView::pending(db.next_job_id(), self.job());
                    (db.with_new_job(self.job()).with_build(Self::started(build, job.id)), Ok(job))
                },
            }
        }
    }

    fn execute(self, db: &mut DbExecutor) -> (reply: Result<Job, ApiError>) {
        proof {
            use_type_invariant(&*db);
        }
        let current = match db.lookup_build(self.id) {
            Some(row) => row.clone(),
            None => {
                return Err(ApiError::NotFound);
            },
        };
        match self.check(&current) {
            Ok(_) => {},
            Err(e) => {
                return Err(e);
            },
        }
        let job = match db.insert_job(self.new_job()) {
            Ok(row) => row,
            Err(e) => {
                return Err(e);
            },
        };
        match db.update_build(self.apply(current, job.id)) {
            Ok(_) => Ok(job),
            Err(e) => Err(e),
        }
    }
}

/// Starts the publication of a build that has been committed.
#[derive(Debug)]
pub struct StartPublishJob {
    pub id: i32,
    pub repo: String,
}

impl StartPublishJob {
    /// The job that the request creates.
    pub open spec fn job(&self) -> NewJobView {
        NewJobView {
            kind: JobKind::Publish.code(),
            start_after: None,
            repo: Some(self.repo@),
            contents: (PublishJob { build: self.id }).json(),
        }
    }

    /// The build once its publication has started: publishing, and
    /// referring to the job.
    pub open spec fn started(build: BuildView, job_id: i32) -> BuildView {
        BuildView {
            publish_job_id: Some(job_id),
            ..build.with_published_state(PublishedStateView::Publishing)
        }
    }

    /// Judges whether the publication of the build may start.
    pub fn check(&self, build: &Build) -> (verdict: Result<(), ApiError>)
        ensures
            result_view(verdict) == publish_guard(
                build@.current_published_state(),
                build@.current_repo_state(),
            ),
    {
        check_publish(&build.current_published_state(), &build.current_repo_state())
    }

    /// Writes the job that carries the publication out.
    pub fn new_job(&self) -> (job: NewJob)
        ensures
            job@ == self.job(),
    {
        let payload = PublishJob { build: self.id };
        NewJob::new(JobKind::Publish, None, Some(self.repo.clone()), payload.contents())
    }

    /// Moves the build on once the job has been created.
    pub fn apply(&self, build: Build, job_id: i32) -> (updated: Build)
        ensures
            updated@ == Self::started(build@, job_id),
    {
        let build = build.with_published_state(&PublishedState::Publishing);
        Build { publish_job_id: Some(job_id), ..build }
    }
}

impl DbRequest for StartPublishJob {
    type DbType = Job;

    open spec fn outcome(&self, db: DbView) -> (DbView, Result<JobView, ApiErrorView>) {
        if !db.has_build(self.id) {
            (db, Err(ApiErrorView::NotFound))
        } else {
            let build = db.build(self.id);
            match publish_guard(build.current_published_state(), build.current_repo_state()) {
                Err(e) => (db, Err(e)),
                Ok(_) => if db.jobs.len() >= i32::MAX {
                    (db, Err(ApiErrorView::StoreFault(out_of_ids())))
                } else {
                    let job = JobView::pending(db.next_job_id(), self.job());
                    (db.with_new_job(self.job()).with_build(Self::started(build, job.id)), Ok(job))
                },
            }
        }
    }

    fn execute(self, db: &mut DbExecutor) -> (reply: Result<Job, ApiError>) {
        proof {
            use_type_invariant(&*db);
        }
        let current = match db.lookup_build(self.id) {
            Some(row) => row.clone(),
            None => {
                return Err(ApiError::NotFound);
            },
        };
        match self.check(&current) {
            Ok(_) => {},
            Err(e) => {
                return Err(e);
            },
        }
        let job = match db.insert_job(self.new_job()) {
            Ok(row) => row,
            Err(e) => {
                return Err(e);
            },
        };
        match db.update_build(self.apply(current, job.id)) {
            Ok(_) => Ok(job),
            Err(e) => Err(e),
        }
    }
}

/// Begins the purge of a build.
#[derive(Debug)]
pub struct InitPurge {
    pub id: i32,
}

impl InitPurge {
    /// The build once its purge has begun.
    pub open spec fn begun(build: BuildView) -> BuildView {
        build.with_repo_state(RepoStateView::Purging)
    }

    /// Judges whether the purge of the build may begin.
    pub fn check(&self, build: &Build) -> (verdict: Result<(), ApiError>)
        ensures
            result_view(verdict) == init_purge_guard(
                build@.current_repo_state(),
                build@.current_published_state(),
            ),
    {
        check_init_purge(&build.current_repo_state(), &build.current_published_state())
    }

    /// Moves the build on to its purge.
    pub fn apply(&self, build: Build) -> (updated: Build)
        ensures
            updated@ == Self::begun(build@),
    {
        build.with_repo_state(&RepoState::Purging)
    }
}

impl DbRequest for InitPurge {
    type DbType = ();

    open spec fn outcome(&self, db: DbView) -> (DbView, Result<(), ApiErrorView>) {
        if !db.has_build(self.id) {
            (db, Err(ApiErrorView::NotFound))
        } else {
            let build = db.build(self.id);
            match init_purge_guard(build.current_repo_state(), build.current_published_state()) {
                Err(e) => (db, Err(e)),
                Ok(_) => (db.with_build(Self::begun(build)), Ok(())),
            }
        }
    }

    fn execute(self, db: &mut DbExecutor) -> (reply: Result<(), ApiError>) {
        proof {
            use_type_invariant(&*db);
        }
        let current = match db.lookup_build(self.id) {
            Some(row) => row.clone(),
            None => {
                return Err(ApiError::NotFound);
            },
        };
        match self.check(&current) {
            Ok(_) => {},
            Err(e) => {
                return Err(e);
            },
        }
        db.update_build(self.apply(current))
    }
}

/// Ends the purge of a build, with the error that it ran into, if any.
#[derive(Debug)]
pub struct FinishPurge {
    pub id: i32,
    pub error: Option<String>,
}

impl FinishPurge {
    /// The build once its purge has ended.
    pub open spec fn ended(&self, build: BuildView) -> BuildView {
        build.with_repo_state(purge_outcome(opt_text(self.error)))
    }

    /// Judges whether the purge of the build may end.
    pub fn check(&self, build: &Build) -> (verdict: Result<(), ApiError>)
        ensures
            result_view(verdict) == finish_purge_guard(build@.current_repo_state()),
    {
        check_finish_purge(&build.current_repo_state())
    }

    /// Moves the build on to where its purge has left it.
    pub fn apply(&self, build: Build) -> (updated: Build)
        ensures
            updated@ == self.ended(build@),
    {
        build.with_repo_state(&purge_result(&self.error))
    }
}

impl DbRequest for FinishPurge {
    type DbType = Build;

    open spec fn outcome(&self, db: DbView) -> (DbView, Result<BuildView, ApiErrorView>) {
        if !db.has_build(self.id) {
            (db, Err(ApiErrorView::NotFound))
        } else {
            let build = db.build(self.id);
            match finish_purge_guard(build.current_repo_state()) {
                Err(e) => (db, Err(e)),
                Ok(_) => (db.with_build(self.ended(build)), Ok(self.ended(build))),
            }
        }
    }

    fn execute(self, db: &mut DbExecutor) -> (reply: Result<Build, ApiError>) {
        proof {
            use_type_invariant(&*db);
        }
        let current = match db.lookup_build(self.id) {
            Some(row) => row.clone(),
            None => {
                return Err(ApiError::NotFound);
            },
        };
        match self.check(&current) {
            Ok(_) => {},
            Err(e) => {
                return Err(e);
            },
        }
        let updated = self.apply(current);
        let answer = updated.clone();
        match db.update_build(updated) {
            Ok(_) => Ok(answer),
            Err(e) => Err(e),
        }
    }
}

} // verus!
