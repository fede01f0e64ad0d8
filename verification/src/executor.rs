//! The tables that requests work on, held in memory.
//!
//! Each table is kept in the order of its ids, which the executor hands out
//! itself: the first row of a table has id 1, the next id 2, and so on. Rows
//! are never removed.

use crate::builds::{Build, BuildRef, BuildRefView, BuildView, NewBuildRef};
use crate::errors::{ApiError, ApiErrorView};
use crate::extra_ids::all_distinct;
use crate::jobs::{Job, JobView, NewJob, NewJobView};
use crate::text::texts;
use vstd::prelude::*;

verus! {

/// The three tables as sequences of rows.
pub struct DbView {
    pub builds: Seq<BuildView>,
    pub build_refs: Seq<BuildRefView>,
    pub jobs: Seq<JobView>,
}

/// The text of the fault that is reported when a table has no id left.
pub open spec fn out_of_ids() -> Seq<char> {
    "no id left in the table"@
}

/// The refs that belong to the build with this id.
pub open spec fn belongs_to(build_id: i32) -> spec_fn(BuildRefView) -> bool {
    |r: BuildRefView| r.build_id == build_id
}

/// The builds whose persisted repository state is not `code`.
pub open spec fn outside_state(code: i16) -> spec_fn(BuildView) -> bool {
    |b: BuildView| b.repo_state != code
}

/// The jobs whose persisted status is at most `status`.
pub open spec fn up_to_status(status: i16) -> spec_fn(JobView) -> bool {
    |j: JobView| j.status <= status
}

/// What filtering the first `i + 1` rows gives, from what filtering the first
/// `i` rows gives.
proof fn lemma_filter_step<A>(rows: Seq<A>, keep: spec_fn(A) -> bool, i: int)
    requires
        0 <= i < rows.len(),
    ensures
        rows.take(i + 1).filter(keep) == (if keep(rows[i]) {
            rows.take(i).filter(keep).push(rows[i])
        } else {
            rows.take(i).filter(keep)
        }),
{
    reveal(Seq::filter);
    assert(rows.take(i + 1).drop_last() =~= rows.take(i));
}

impl DbView {
    /// Tables without rows.
    pub open spec fn empty() -> DbView {
        DbView { builds: Seq::empty(), build_refs: Seq::empty(), jobs: Seq::empty() }
    }

    /// Every table is numbered from 1 on without a gap, no table is longer
    /// than there are ids, and no build has an extra id twice.
    pub open spec fn wf(self) -> bool {
        &&& self.builds.len() <= i32::MAX
        &&& self.build_refs.len() <= i32::MAX
        &&& self.jobs.len() <= i32::MAX
        &&& forall|i: int| 0 <= i < self.builds.len() ==> (#[trigger] self.builds[i]).id == i + 1
        &&& forall|i: int|
            0 <= i < self.build_refs.len() ==> (#[trigger] self.build_refs[i]).id == i + 1
        &&& forall|i: int| 0 <= i < self.jobs.len() ==> (#[trigger] self.jobs[i]).id == i + 1
        &&& forall|i: int|
            0 <= i < self.builds.len() ==> (#[trigger] self.builds[i]).extra_ids.no_duplicates()
    }

    /// Whether one request can have made these tables out of `before`: no
    /// row has gone, every job and every ref is as it was, and every build
    /// has moved no further than one request can move it.
    pub open spec fn continues(self, before: DbView) -> bool {
        &&& before.jobs.is_prefix_of(self.jobs)
        &&& before.build_refs.is_prefix_of(self.build_refs)
        &&& before.builds.len() <= self.builds.len()
        &&& forall|i: int|
            0 <= i < before.builds.len() ==> self.builds[i].follows(#[trigger] before.builds[i])
    }

    /// Whether there is a build with this id.
    pub open spec fn has_build(self, id: i32) -> bool {
        0 < id <= self.builds.len()
    }

    /// The build with this id.
    pub open spec fn build(self, id: i32) -> BuildView
        recommends
            self.has_build(id),
    {
        self.builds[id - 1]
    }

    /// Whether there is a job with this id.
    pub open spec fn has_job(self, id: i32) -> bool {
        0 < id <= self.jobs.len()
    }

    /// The job with this id.
    pub open spec fn job(self, id: i32) -> JobView
        recommends
            self.has_job(id),
    {
        self.jobs[id - 1]
    }

    /// Whether there is a ref with this id that belongs to this build.
    pub open spec fn has_build_ref(self, build_id: i32, ref_id: i32) -> bool {
        0 < ref_id <= self.build_refs.len() && self.build_refs[ref_id - 1].build_id == build_id
    }

    /// The ref with this id.
    pub open spec fn build_ref(self, ref_id: i32) -> BuildRefView
        recommends
            0 < ref_id <= self.build_refs.len(),
    {
        self.build_refs[ref_id - 1]
    }

    /// The refs that belong to this build, in the order of their ids.
    pub open spec fn build_refs_of(self, build_id: i32) -> Seq<BuildRefView> {
        self.build_refs.filter(belongs_to(build_id))
    }

    /// The builds whose persisted repository state is not `code`, in the
    /// order of their ids.
    pub open spec fn builds_outside_state(self, code: i16) -> Seq<BuildView> {
        self.builds.filter(outside_state(code))
    }

    /// The jobs whose persisted status is at most `status`, in the order of
    /// their ids.
    pub open spec fn jobs_up_to_status(self, status: i16) -> Seq<JobView> {
        self.jobs.filter(up_to_status(status))
    }

    /// The id that the next build gets.
    pub open spec fn next_build_id(self) -> i32 {
        (self.builds.len() + 1) as i32
    }

    /// The id that the next ref gets.
    pub open spec fn next_build_ref_id(self) -> i32 {
        (self.build_refs.len() + 1) as i32
    }

    /// The id that the next job gets.
    pub open spec fn next_job_id(self) -> i32 {
        (self.jobs.len() + 1) as i32
    }

    /// The tables with one more build, fresh from its upload.
    pub open spec fn with_new_build(self) -> DbView {
        DbView { builds: self.builds.push(BuildView::fresh(self.next_build_id())), ..self }
    }

    /// The tables with one more ref.
    pub open spec fn with_new_build_ref(self, new_ref: NewBuildRef) -> DbView {
        DbView {
            build_refs: self.build_refs.push(new_ref.stored(self.next_build_ref_id())),
            ..self
        }
    }

    /// The tables with one more job, not yet started.
    pub open spec fn with_new_job(self, job: NewJobView) -> DbView {
        DbView { jobs: self.jobs.push(JobView::pending(self.next_job_id(), job)), ..self }
    }

    /// The tables with the build of the same id replaced by `build`.
    pub open spec fn with_build(self, build: BuildView) -> DbView
        recommends
            self.has_build(build.id),
    {
        DbView { builds: self.builds.update(build.id - 1, build), ..self }
    }
}

/// The rows of a list of builds.
pub open spec fn build_views(rows: Seq<Build>) -> Seq<BuildView> {
    Seq::new(rows.len(), |i: int| rows[i]@)
}

/// The rows of a list of refs.
pub open spec fn build_ref_views(rows: Seq<BuildRef>) -> Seq<BuildRefView> {
    Seq::new(rows.len(), |i: int| rows[i]@)
}

/// The rows of a list of jobs.
pub open spec fn job_views(rows: Seq<Job>) -> Seq<JobView> {
    Seq::new(rows.len(), |i: int| rows[i]@)
}

/// Three lists of rows as tables.
pub open spec fn tables_view(
    builds: Seq<Build>,
    build_refs: Seq<BuildRef>,
    jobs: Seq<Job>,
) -> DbView {
    DbView {
        builds: build_views(builds),
        build_refs: build_ref_views(build_refs),
        jobs: job_views(jobs),
    }
}

/// Executes requests on tables that it holds in memory.
pub struct DbExecutor {
    builds: Vec<Build>,
    build_refs: Vec<BuildRef>,
    jobs: Vec<Job>,
}

impl View for DbExecutor {
    type V = DbView;

    closed spec fn view(&self) -> DbView {
        DbView {
            builds: build_views(self.builds@),
            build_refs: build_ref_views(self.build_refs@),
            jobs: job_views(self.jobs@),
        }
    }
}

impl DbExecutor {
    /// An executor only ever holds well numbered tables.
    #[verifier::type_invariant]
    pub open spec fn well_numbered(self) -> bool {
        self@.wf()
    }

    /// An executor without rows.
    pub fn new() -> (db: DbExecutor)
        ensures
            db@ == DbView::empty(),
            db@.wf(),
    {
        let db = DbExecutor { builds: Vec::new(), build_refs: Vec::new(), jobs: Vec::new() };
        assert(db@.builds =~= Seq::empty());
        assert(db@.build_refs =~= Seq::empty());
        assert(db@.jobs =~= Seq::empty());
        db
    }

    /// An executor on the given tables; none where a table is not numbered
    /// from 1 on without a gap, or a build has an extra id twice.
    pub fn with_tables(
        builds: Vec<Build>,
        build_refs: Vec<BuildRef>,
        jobs: Vec<Job>,
    ) -> (db: Option<DbExecutor>)
        ensures
            db is Some <==> tables_view(builds@, build_refs@, jobs@).wf(),
            db matches Some(d) ==> d@ == tables_view(builds@, build_refs@, jobs@),
    {
        let limit: usize = i32::MAX as usize;
        if builds.len() > limit || build_refs.len() > limit || jobs.len() > limit {
            return None;
        }
        let mut i: usize = 0;
        while i < builds.len()
            invariant
                i <= builds.len() <= i32::MAX,
                forall|k: int| 0 <= k < i ==> (#[trigger] builds@[k]).id == k + 1,
                forall|k: int|
                    0 <= k < i ==> texts((#[trigger] builds@[k]).extra_ids@).no_duplicates(),
            decreases builds.len() - i,
        {
            if builds[i].id != (i + 1) as i32 || !all_distinct(&builds[i].extra_ids) {
                assert(build_views(builds@)[i as int] == builds@[i as int]@);
                return None;
            }
            i += 1;
        }
        let mut i: usize = 0;
        while i < build_refs.len()
            invariant
                i <= build_refs.len() <= i32::MAX,
                forall|k: int| 0 <= k < i ==> (#[trigger] build_refs@[k]).id == k + 1,
            decreases build_refs.len() - i,
        {
            if build_refs[i].id != (i + 1) as i32 {
                assert(build_ref_views(build_refs@)[i as int] == build_refs@[i as int]@);
                return None;
            }
            i += 1;
        }
        let mut i: usize = 0;
        while i < jobs.len()
            invariant
                i <= jobs.len() <= i32::MAX,
                forall|k: int| 0 <= k < i ==> (#[trigger] jobs@[k]).id == k + 1,
            decreases jobs.len() - i,
        {
            if jobs[i].id != (i + 1) as i32 {
                assert(job_views(jobs@)[i as int] == jobs@[i as int]@);
                return None;
            }
            i += 1;
        }
        Some(DbExecutor { builds, build_refs, jobs })
    }

    /// All builds, in the order of their ids.
    pub fn builds(&self) -> (rows: &Vec<Build>)
        ensures
            build_views(rows@) == self@.builds,
    {
        &self.builds
    }

    /// All refs, in the order of their ids.
    pub fn build_refs(&self) -> (rows: &Vec<BuildRef>)
        ensures
            build_ref_views(rows@) == self@.build_refs,
    {
        &self.build_refs
    }

    /// All jobs, in the order of their ids.
    pub fn jobs(&self) -> (rows: &Vec<Job>)
        ensures
            job_views(rows@) == self@.jobs,
    {
        &self.jobs
    }

    /// The build with this id, if there is one.
    pub fn lookup_build(&self, id: i32) -> (row: Option<&Build>)
        ensures
            row is Some <==> self@.has_build(id),
            row matches Some(b) ==> b@ == self@.build(id),
    {
        if 0 < id && id as usize <= self.builds.len() {
            Some(&self.builds[id as usize - 1])
        } else {
            None
        }
    }

    /// The job with this id, if there is one.
    pub fn lookup_job(&self, id: i32) -> (row: Option<&Job>)
        ensures
            row is Some <==> self@.has_job(id),
            row matches Some(j) ==> j@ == self@.job(id),
    {
        if 0 < id && id as usize <= self.jobs.len() {
            Some(&self.jobs[id as usize - 1])
        } else {
            None
        }
    }

    /// The ref with this id, if there is one and it belongs to this build.
    pub fn lookup_build_ref(&self, build_id: i32, ref_id: i32) -> (row: Option<&BuildRef>)
        ensures
            row is Some <==> self@.has_build_ref(build_id, ref_id),
            row matches Some(r) ==> r@ == self@.build_ref(ref_id),
    {
        if 0 < ref_id && ref_id as usize <= self.build_refs.len() {
            let row = &self.build_refs[ref_id as usize - 1];
            if row.build_id == build_id {
                Some(row)
            } else {
                None
            }
        } else {
            None
        }
    }

    /// The refs that belong to this build, in the order of their ids.
    pub fn build_refs_of(&self, build_id: i32) -> (rows: Vec<BuildRef>)
        ensures
            build_ref_views(rows@) == self@.build_refs_of(build_id),
    {
        let ghost all = build_ref_views(self.build_refs@);
        let ghost keep = belongs_to(build_id);
        let mut rows: Vec<BuildRef> = Vec::new();
        let mut i: usize = 0;
        while i < self.build_refs.len()
            invariant
                i <= self.build_refs.len(),
                all == build_ref_views(self.build_refs@),
                keep == belongs_to(build_id),
                build_ref_views(rows@) == all.take(i as int).filter(keep),
            decreases self.build_refs.len() - i,
        {
            proof {
                lemma_filter_step(all, keep, i as int);
            }
            if self.build_refs[i].build_id == build_id {
                rows.push(self.build_refs[i].clone());
            }
            i += 1;
        }
        assert(all.take(i as int) =~= all);
        rows
    }

    /// The builds whose persisted repository state is not `code`, in the
    /// order of their ids.
    pub fn builds_outside_state(&self, code: i16) -> (rows: Vec<Build>)
        ensures
            build_views(rows@) == self@.builds_outside_state(code),
    {
        let ghost all = build_views(self.builds@);
        let ghost keep = outside_state(code);
        let mut rows: Vec<Build> = Vec::new();
        let mut i: usize = 0;
        while i < self.builds.len()
            invariant
                i <= self.builds.len(),
                all == build_views(self.builds@),
                keep == outside_state(code),
                build_views(rows@) == all.take(i as int).filter(keep),
            decreases self.builds.len() - i,
        {
            proof {
                lemma_filter_step(all, keep, i as int);
            }
            if self.builds[i].repo_state != code {
                rows.push(self.builds[i].clone());
            }
            i += 1;
        }
        assert(all.take(i as int) =~= all);
        rows
    }

    /// The jobs whose persisted status is at most `status`, in the order of
    /// their ids.
    pub fn jobs_up_to_status(&self, status: i16) -> (rows: Vec<Job>)
        ensures
            job_views(rows@) == self@.jobs_up_to_status(status),
    {
        let ghost all = job_views(self.jobs@);
        let ghost keep = up_to_status(status);
        let mut rows: Vec<Job> = Vec::new();
        let mut i: usize = 0;
        while i < self.jobs.len()
            invariant
                i <= self.jobs.len(),
                all == job_views(self.jobs@),
                keep == up_to_status(status),
                job_views(rows@) == all.take(i as int).filter(keep),
            decreases self.jobs.len() - i,
        {
            proof {
                lemma_filter_step(all, keep, i as int);
            }
            if self.jobs[i].status <= status {
                rows.push(self.jobs[i].clone());
            }
            i += 1;
        }
        assert(all.take(i as int) =~= all);
        rows
    }

    /// Adds a build, fresh from its upload, under the next id. Fails, and
    /// adds nothing, when the table has no id left.
    pub fn insert_build(&mut self) -> (row: Result<Build, ApiError>)
        ensures
            final(self)@.wf(),
            match row {
                Ok(b) => {
                    &&& old(self)@.builds.len() < i32::MAX
                    &&& b@ == BuildView::fresh(old(self)@.next_build_id())
                    &&& final(self)@ == old(self)@.with_new_build()
                },
                Err(e) => {
                    &&& old(self)@.builds.len() >= i32::MAX
                    &&& e@ == ApiErrorView::StoreFault(out_of_ids())
                    &&& final(self)@ == old(self)@
                },
            },
    {
        proof {
            use_type_invariant(&*self);
        }
        if self.builds.len() >= i32::MAX as usize {
            return Err(ApiError::StoreFault("no id left in the table".to_owned()));
        }
        let id: i32 = (self.builds.len() + 1) as i32;
        let row = Build::fresh(id);
        let copy = row.clone();
        let ghost before = build_views(self.builds@);
        let mut rows: Vec<Build> = Vec::new();
        std::mem::swap(&mut rows, &mut self.builds);
        rows.push(row);
        assert(build_views(rows@) =~= before.push(copy@));
        self.builds = rows;
        Ok(copy)
    }

    /// Adds a ref under the next id. Fails, and adds nothing, when the table
    /// has no id left.
    pub fn insert_build_ref(&mut self, new_ref: NewBuildRef) -> (row: Result<BuildRef, ApiError>)
        ensures
            final(self)@.wf(),
            match row {
                Ok(r) => {
                    &&& old(self)@.build_refs.len() < i32::MAX
                    &&& r@ == new_ref.stored(old(self)@.next_build_ref_id())
                    &&& final(self)@ == old(self)@.with_new_build_ref(new_ref)
                },
                Err(e) => {
                    &&& old(self)@.build_refs.len() >= i32::MAX
                    &&& e@ == ApiErrorView::StoreFault(out_of_ids())
                    &&& final(self)@ == old(self)@
                },
            },
    {
        proof {
            use_type_invariant(&*self);
        }
        if self.build_refs.len() >= i32::MAX as usize {
            return Err(ApiError::StoreFault("no id left in the table".to_owned()));
        }
        let id: i32 = (self.build_refs.len() + 1) as i32;
        let row = BuildRef::stored(id, new_ref);
        let copy = row.clone();
        let ghost before = build_ref_views(self.build_refs@);
        let mut rows: Vec<BuildRef> = Vec::new();
        std::mem::swap(&mut rows, &mut self.build_refs);
        rows.push(row);
        assert(build_ref_views(rows@) =~= before.push(copy@));
        self.build_refs = rows;
        Ok(copy)
    }

    /// Adds a job, not yet started, under the next id. Fails, and adds
    /// nothing, when the table has no id left.
    pub fn insert_job(&mut self, job: NewJob) -> (row: Result<Job, ApiError>)
        ensures
            final(self)@.wf(),
            match row {
                Ok(j) => {
                    &&& old(self)@.jobs.len() < i32::MAX
                    &&& j@ == JobView::pending(old(self)@.next_job_id(), job@)
                    &&& final(self)@ == old(self)@.with_new_job(job@)
                },
                Err(e) => {
                    &&& old(self)@.jobs.len() >= i32::MAX
                    &&& e@ == ApiErrorView::StoreFault(out_of_ids())
                    &&& final(self)@ == old(self)@
                },
            },
    {
        proof {
            use_type_invariant(&*self);
        }
        if self.jobs.len() >= i32::MAX as usize {
            return Err(ApiError::StoreFault("no id left in the table".to_owned()));
        }
        let id: i32 = (self.jobs.len() + 1) as i32;
        let row = Job::pending(id, job);
        let copy = row.clone();
        let ghost before = job_views(self.jobs@);
        let mut rows: Vec<Job> = Vec::new();
        std::mem::swap(&mut rows, &mut self.jobs);
        rows.push(row);
        assert(job_views(rows@) =~= before.push(copy@));
        self.jobs = rows;
        Ok(copy)
    }

    /// Replaces the build that has the id of `build`. Fails, and changes
    /// nothing, when there is no such build.
    pub(crate) fn update_build(&mut self, build: Build) -> (done: Result<(), ApiError>)
        requires
            build@.extra_ids.no_duplicates(),
        ensures
            final(self)@.wf(),
            match done {
                Ok(_) => {
                    &&& old(self)@.has_build(build.id)
                    &&& final(self)@ == old(self)@.with_build(build@)
                },
                Err(e) => {
                    &&& !old(self)@.has_build(build.id)
                    &&& e@ == ApiErrorView::NotFound
                    &&& final(self)@ == old(self)@
                },
            },
    {
        proof {
            use_type_invariant(&*self);
        }
        if 0 < build.id && build.id as usize <= self.builds.len() {
            let ghost before = build_views(self.builds@);
            let ghost row = build@;
            let at: usize = build.id as usize - 1;
            let mut rows: Vec<Build> = Vec::new();
            std::mem::swap(&mut rows, &mut self.builds);
            rows.set(at, build);
            assert(build_views(rows@) =~= before.update(at as int, row));
            self.builds = rows;
            Ok(())
        } else {
            Err(ApiError::NotFound)
        }
    }
}

} // verus!
