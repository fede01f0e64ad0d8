//! Builds and the refs that belong to them.

use crate::state::{PublishedState, PublishedStateView, RepoState, RepoStateView};
use crate::text::{opt_text, texts};
use vstd::prelude::*;

verus! {

/// A build as the store holds it. Both states are kept in their persisted
/// form, a code and a reason.
#[derive(Debug, PartialEq, Eq)]
pub struct Build {
    pub id: i32,
    pub repo_state: i16,
    pub repo_state_reason: Option<String>,
    pub published_state: i16,
    pub published_state_reason: Option<String>,
    pub commit_job_id: Option<i32>,
    pub publish_job_id: Option<i32>,
    pub extra_ids: Vec<String>,
}

/// `Build` with its texts as sequences of characters.
pub struct BuildView {
    pub id: i32,
    pub repo_state: i16,
    pub repo_state_reason: Option<Seq<char>>,
    pub published_state: i16,
    pub published_state_reason: Option<Seq<char>>,
    pub commit_job_id: Option<i32>,
    pub publish_job_id: Option<i32>,
    pub extra_ids: Seq<Seq<char>>,
}

impl View for Build {
    type V = BuildView;

    open spec fn view(&self) -> BuildView {
        BuildView {
            id: self.id,
            repo_state: self.repo_state,
            repo_state_reason: opt_text(self.repo_state_reason),
            published_state: self.published_state,
            published_state_reason: opt_text(self.published_state_reason),
            commit_job_id: self.commit_job_id,
            publish_job_id: self.publish_job_id,
            extra_ids: texts(self.extra_ids@),
        }
    }
}

impl DeepView for Build {
    type V = BuildView;

    open spec fn deep_view(&self) -> BuildView {
        self@
    }
}

impl BuildView {
    /// The build as it stands when its upload has just completed: uploading,
    /// unpublished, with no job and no extra id.
    pub open spec fn fresh(id: i32) -> BuildView {
        BuildView {
            id,
            repo_state: RepoStateView::Uploading.code(),
            repo_state_reason: None,
            published_state: PublishedStateView::Unpublished.code(),
            published_state_reason: None,
            commit_job_id: None,
            publish_job_id: None,
            extra_ids: Seq::empty(),
        }
    }

    /// The repository state that the build is in.
    pub open spec fn current_repo_state(self) -> RepoStateView {
        RepoStateView::decode(self.repo_state, self.repo_state_reason)
    }

    /// The publication state that the build is in.
    pub open spec fn current_published_state(self) -> PublishedStateView {
        PublishedStateView::decode(self.published_state, self.published_state_reason)
    }

    /// Whether one request can have made this build out of `before`: it is
    /// the same build, both of its states have moved as one request can move
    /// them, and it still has the extra ids that it had, in the places where
    /// it had them.
    pub open spec fn follows(self, before: BuildView) -> bool {
        &&& self.id == before.id
        &&& before.current_repo_state().may_become(self.current_repo_state())
        &&& before.current_published_state().may_become(self.current_published_state())
        &&& before.extra_ids.is_prefix_of(self.extra_ids)
    }

    /// The build moved to another repository state, all else unchanged.
    pub open spec fn with_repo_state(self, state: RepoStateView) -> BuildView {
        BuildView { repo_state: state.code(), repo_state_reason: state.reason(), ..self }
    }

    /// The build moved to another publication state, all else unchanged.
    pub open spec fn with_published_state(self, state: PublishedStateView) -> BuildView {
        BuildView { published_state: state.code(), published_state_reason: state.reason(), ..self }
    }
}

impl Build {
    /// The build as it stands when its upload has just completed.
    pub fn fresh(id: i32) -> (build: Build)
        ensures
            build@ == BuildView::fresh(id),
    {
        let build = Build {
            id,
            repo_state: 0,
            repo_state_reason: None,
            published_state: 0,
            published_state_reason: None,
            commit_job_id: None,
            publish_job_id: None,
            extra_ids: Vec::new(),
        };
        assert(texts(build.extra_ids@) =~= Seq::empty());
        build
    }

    /// The repository state that the build is in.
    pub fn current_repo_state(&self) -> (state: RepoState)
        ensures
            state@ == self@.current_repo_state(),
    {
        RepoState::from_db(self.repo_state, &self.repo_state_reason)
    }

    /// The publication state that the build is in.
    pub fn current_published_state(&self) -> (state: PublishedState)
        ensures
            state@ == self@.current_published_state(),
    {
        PublishedState::from_db(self.published_state, &self.published_state_reason)
    }

    /// Moves the build to another repository state.
    pub fn with_repo_state(self, state: &RepoState) -> (build: Build)
        ensures
            build@ == self@.with_repo_state(state@),
    {
        let (code, reason) = state.to_db();
        Build { repo_state: code, repo_state_reason: reason, ..self }
    }

    /// Moves the build to another publication state.
    pub fn with_published_state(self, state: &PublishedState) -> (build: Build)
        ensures
            build@ == self@.with_published_state(state@),
    {
        let (code, reason) = state.to_db();
        Build { published_state: code, published_state_reason: reason, ..self }
    }

}

impl Clone for Build {
    fn clone(&self) -> (copy: Self)
        ensures
            copy@ == self@,
    {
        let extra_ids = self.extra_ids.clone();
        Build {
            id: self.id,
            repo_state: self.repo_state,
            repo_state_reason: self.repo_state_reason.clone(),
            published_state: self.published_state,
            published_state_reason: self.published_state_reason.clone(),
            commit_job_id: self.commit_job_id,
            publish_job_id: self.publish_job_id,
            extra_ids,
        }
    }
}

/// A build before the store has given it an id. It has no fields: a build
/// starts out the same way every time.
#[derive(Debug, Clone, Copy, PartialEq, Eq)]
pub struct NewBuild {}

/// A ref before the store has given it an id.
#[derive(Debug, PartialEq, Eq)]
pub struct NewBuildRef {
    pub build_id: i32,
    pub ref_name: String,
    pub commit: String,
}

/// A ref of a build as the store holds it.
#[derive(Debug, PartialEq, Eq)]
pub struct BuildRef {
    pub id: i32,
    pub build_id: i32,
    pub ref_name: String,
    pub commit: String,
}

/// `BuildRef` with its texts as sequences of characters.
pub struct BuildRefView {
    pub id: i32,
    pub build_id: i32,
    pub ref_name: Seq<char>,
    pub commit: Seq<char>,
}

impl View for BuildRef {
    type V = BuildRefView;

    open spec fn view(&self) -> BuildRefView {
        BuildRefView {
            id: self.id,
            build_id: self.build_id,
            ref_name: self.ref_name@,
            commit: self.commit@,
        }
    }
}

impl DeepView for BuildRef {
    type V = BuildRefView;

    open spec fn deep_view(&self) -> BuildRefView {
        self@
    }
}

impl NewBuildRef {
    /// The row that the store creates for the ref under the given id.
    pub open spec fn stored(self, id: i32) -> BuildRefView {
        BuildRefView { id, build_id: self.build_id, ref_name: self.ref_name@, commit: self.commit@ }
    }
}

impl BuildRef {
    /// The row that the store creates for a new ref under the given id.
    pub fn stored(id: i32, new_ref: NewBuildRef) -> (row: BuildRef)
        ensures
            row@ == new_ref.stored(id),
    {
        BuildRef {
            id,
            build_id: new_ref.build_id,
            ref_name: new_ref.ref_name,
            commit: new_ref.commit,
        }
    }
}

impl Clone for BuildRef {
    fn clone(&self) -> (copy: Self)
        ensures
            copy@ == self@,
    {
        BuildRef {
            id: self.id,
            build_id: self.build_id,
            ref_name: self.ref_name.clone(),
            commit: self.commit.clone(),
        }
    }
}

} // verus!
