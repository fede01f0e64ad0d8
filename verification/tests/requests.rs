use build_lifecycle::builds::{Build, BuildRef, NewBuild, NewBuildRef};
use build_lifecycle::db::{
    AddExtraIds, DbRequestWrapper, FinishPurge, InitPurge, ListBuilds, ListJobs, LookupBuild,
    LookupBuildRef, LookupBuildRefs, LookupCommitJob, LookupJob, LookupPublishJob, StartCommitJob,
    StartPublishJob,
};
use build_lifecycle::errors::ApiError;
use build_lifecycle::executor::DbExecutor;
use build_lifecycle::jobs::Job;
use build_lifecycle::state::{PublishedState, RepoState};

fn build_in(id: i32, repo: &RepoState, published: &PublishedState) -> Build {
    Build::fresh(id).with_repo_state(repo).with_published_state(published)
}

fn job_row(id: i32, kind: i16, status: i16, log: &str) -> Job {
    Job {
        id,
        kind,
        status,
        contents: "{\"build\":1}".to_string(),
        log: log.to_string(),
        start_after: None,
        repo: None,
    }
}

fn commit(id: i32) -> DbRequestWrapper<StartCommitJob> {
    DbRequestWrapper(StartCommitJob {
        id,
        endoflife: None,
        endoflife_rebase: None,
        token_type: None,
    })
}

fn publish(id: i32, repo: &str) -> DbRequestWrapper<StartPublishJob> {
    DbRequestWrapper(StartPublishJob { id, repo: repo.to_string() })
}

fn id_list(items: &[&str]) -> Vec<String> {
    items.iter().map(|s| s.to_string()).collect()
}

fn snapshot(db: &DbExecutor) -> (Vec<Build>, Vec<BuildRef>, Vec<Job>) {
    (db.builds().clone(), db.build_refs().clone(), db.jobs().clone())
}

#[test]
fn new_build_starts_uploading_and_unpublished() {
    let mut db = DbExecutor::new();
    let first = db.handle(DbRequestWrapper(NewBuild {})).unwrap();
    let second = db.handle(DbRequestWrapper(NewBuild {})).unwrap();
    assert_eq!(first.id, 1);
    assert_eq!(second.id, 2);
    assert_eq!(first, Build::fresh(1));
    assert_eq!(first.current_repo_state(), RepoState::Uploading);
    assert_eq!(first.current_published_state(), PublishedState::Unpublished);
    assert_eq!(first.commit_job_id, None);
    assert_eq!(first.publish_job_id, None);
    assert!(first.extra_ids.is_empty());
    assert_eq!(db.builds().len(), 2);
}

#[test]
fn commit_moves_an_uploading_build_to_verifying() {
    let mut db = DbExecutor::new();
    let b1 = db.handle(DbRequestWrapper(NewBuild {})).unwrap();
    let j1 = db.handle(commit(b1.id)).unwrap();
    assert_eq!(j1.id, 1);
    assert_eq!(j1.kind, 0);
    assert_eq!(j1.status, 0);
    assert_eq!(j1.repo, None);
    assert_eq!(j1.log, "");
    assert_eq!(
        j1.contents,
        "{\"build\":1,\"endoflife\":null,\"endoflife_rebase\":null,\"token_type\":null}"
    );
    let after = db.handle(DbRequestWrapper(LookupBuild { id: b1.id })).unwrap();
    assert_eq!(after.current_repo_state(), RepoState::Verifying);
    assert_eq!(after.repo_state, 1);
    assert_eq!(after.repo_state_reason, None);
    assert_eq!(after.commit_job_id, Some(j1.id));
    assert_eq!(after.current_published_state(), PublishedState::Unpublished);
    assert_eq!(db.handle(DbRequestWrapper(LookupJob { id: j1.id, log_offset: None })), Ok(j1));
}

#[test]
fn second_commit_finds_the_build_verifying() {
    let mut db = DbExecutor::new();
    let b1 = db.handle(DbRequestWrapper(NewBuild {})).unwrap();
    assert!(db.handle(commit(b1.id)).is_ok());
    let before = snapshot(&db);
    assert_eq!(
        db.handle(commit(b1.id)),
        Err(ApiError::WrongRepoState(
            "Build is currently being commited".to_string(),
            "uploading".to_string(),
            "verifying".to_string()
        ))
    );
    assert_eq!(snapshot(&db), before);
    assert_eq!(db.jobs().len(), 1);
}

#[test]
fn commit_carries_its_fields_to_the_job() {
    let mut db = DbExecutor::new();
    db.handle(DbRequestWrapper(NewBuild {})).unwrap();
    let job = db
        .handle(DbRequestWrapper(StartCommitJob {
            id: 1,
            endoflife: Some("no longer \"maintained\"".to_string()),
            endoflife_rebase: Some("org.new.App".to_string()),
            token_type: Some(3),
        }))
        .unwrap();
    let value: serde_json::Value = serde_json::from_str(&job.contents).unwrap();
    assert_eq!(value.get("build").unwrap().as_i64(), Some(1));
    assert_eq!(value.get("endoflife").unwrap().as_str(), Some("no longer \"maintained\""));
    assert_eq!(value.get("endoflife_rebase").unwrap().as_str(), Some("org.new.App"));
    assert_eq!(value.get("token_type").unwrap().as_i64(), Some(3));
}

#[test]
fn commit_of_a_missing_build_is_not_found() {
    let mut db = DbExecutor::new();
    assert_eq!(db.handle(commit(1)), Err(ApiError::NotFound));
    db.handle(DbRequestWrapper(NewBuild {})).unwrap();
    assert_eq!(db.handle(commit(2)), Err(ApiError::NotFound));
    assert_eq!(db.handle(commit(0)), Err(ApiError::NotFound));
    assert_eq!(db.handle(commit(-1)), Err(ApiError::NotFound));
    assert!(db.jobs().is_empty());
}

#[test]
fn commit_is_turned_down_outside_uploading() {
    let cases = vec![
        (RepoState::Ready, "Build is already commited", "ready"),
        (RepoState::Failed("bad".to_string()), "Commit already failed: bad", "failed"),
        (RepoState::Purging, "Build is being purged", "purging"),
        (RepoState::Purged, "Build has been purged", "purged"),
    ];
    for (state, message, actual) in cases {
        let build = build_in(1, &state, &PublishedState::Unpublished);
        let mut db = DbExecutor::with_tables(vec![build], vec![], vec![]).unwrap();
        let before = snapshot(&db);
        assert_eq!(
            db.handle(commit(1)),
            Err(ApiError::WrongRepoState(
                message.to_string(),
                "uploading".to_string(),
                actual.to_string()
            ))
        );
        assert_eq!(snapshot(&db), before);
    }
}

#[test]
fn publish_moves_a_ready_build_to_publishing() {
    let b2 = build_in(1, &RepoState::Ready, &PublishedState::Unpublished);
    let mut db = DbExecutor::with_tables(vec![b2], vec![], vec![]).unwrap();
    let j2 = db.handle(publish(1, "stable")).unwrap();
    assert_eq!(j2.id, 1);
    assert_eq!(j2.kind, 1);
    assert_eq!(j2.status, 0);
    assert_eq!(j2.repo, Some("stable".to_string()));
    assert_eq!(j2.contents, "{\"build\":1}");
    let after = db.handle(DbRequestWrapper(LookupBuild { id: 1 })).unwrap();
    assert_eq!(after.current_published_state(), PublishedState::Publishing);
    assert_eq!(after.published_state, 1);
    assert_eq!(after.published_state_reason, None);
    assert_eq!(after.publish_job_id, Some(j2.id));
    assert_eq!(after.current_repo_state(), RepoState::Ready);
    assert_eq!(after.commit_job_id, None);
}

#[test]
fn publish_is_turned_down_unless_unpublished_and_ready() {
    let wrong_repo = |message: &str, actual: &str| {
        ApiError::WrongRepoState(message.to_string(), "ready".to_string(), actual.to_string())
    };
    let wrong_published = |message: &str, actual: &str| {
        ApiError::WrongPublishedState(
            message.to_string(),
            "unpublished".to_string(),
            actual.to_string(),
        )
    };
    let cases = vec![
        (
            RepoState::Uploading,
            PublishedState::Unpublished,
            wrong_repo("Build is not commited", "uploading"),
        ),
        (
            RepoState::Verifying,
            PublishedState::Unpublished,
            wrong_repo("Build is not commited", "verifying"),
        ),
        (
            RepoState::Failed("x".to_string()),
            PublishedState::Unpublished,
            wrong_repo("Build failed: x", "failed"),
        ),
        (
            RepoState::Purging,
            PublishedState::Unpublished,
            wrong_repo("Build is being purged", "purging"),
        ),
        (
            RepoState::Purged,
            PublishedState::Unpublished,
            wrong_repo("Build has been purged", "purged"),
        ),
        (
            RepoState::Ready,
            PublishedState::Publishing,
            wrong_published("Build is currently being published", "publishing"),
        ),
        (
            RepoState::Ready,
            PublishedState::Published,
            wrong_published("Build has already been published", "published"),
        ),
        (
            RepoState::Ready,
            PublishedState::Failed("y".to_string()),
            wrong_published("Previous publish failed: y", "failed"),
        ),
        (
            RepoState::Uploading,
            PublishedState::Published,
            wrong_published("Build has already been published", "published"),
        ),
    ];
    for (repo, published, error) in cases {
        let mut db =
            DbExecutor::with_tables(vec![build_in(1, &repo, &published)], vec![], vec![]).unwrap();
        let before = snapshot(&db);
        assert_eq!(db.handle(publish(1, "stable")), Err(error));
        assert_eq!(snapshot(&db), before);
    }
    let mut empty = DbExecutor::new();
    assert_eq!(empty.handle(publish(1, "stable")), Err(ApiError::NotFound));
}

#[test]
fn second_publish_finds_the_build_publishing() {
    let b = build_in(1, &RepoState::Ready, &PublishedState::Unpublished);
    let mut db = DbExecutor::with_tables(vec![b], vec![], vec![]).unwrap();
    assert!(db.handle(publish(1, "stable")).is_ok());
    assert_eq!(
        db.handle(publish(1, "beta")),
        Err(ApiError::WrongPublishedState(
            "Build is currently being published".to_string(),
            "unpublished".to_string(),
            "publishing".to_string()
        ))
    );
    assert_eq!(db.jobs().len(), 1);
}

#[test]
fn new_job_of_a_kind_replaces_the_reference_to_the_old_one() {
    let mut build = build_in(1, &RepoState::Ready, &PublishedState::Unpublished);
    build.commit_job_id = Some(1);
    build.publish_job_id = Some(2);
    let jobs = vec![job_row(1, 0, 2, "committed"), job_row(2, 1, 3, "broke")];
    let mut db = DbExecutor::with_tables(vec![build], vec![], jobs).unwrap();
    let job = db.handle(publish(1, "stable")).unwrap();
    assert_eq!(job.id, 3);
    let after = db.handle(DbRequestWrapper(LookupBuild { id: 1 })).unwrap();
    assert_eq!(after.publish_job_id, Some(3));
    assert_eq!(after.commit_job_id, Some(1));
    assert_eq!(
        db.handle(DbRequestWrapper(LookupPublishJob { build_id: 1, log_offset: None })),
        Ok(job)
    );
}

#[test]
fn finish_purge_moves_a_purging_build_to_purged() {
    let b3 = build_in(1, &RepoState::Purging, &PublishedState::Unpublished);
    let mut db = DbExecutor::with_tables(vec![b3], vec![], vec![]).unwrap();
    let done = db.handle(DbRequestWrapper(FinishPurge { id: 1, error: None })).unwrap();
    assert_eq!(done.id, 1);
    assert_eq!(done.current_repo_state(), RepoState::Purged);
    assert_eq!(done.repo_state, 5);
    assert_eq!(done.repo_state_reason, None);
    assert_eq!(db.handle(DbRequestWrapper(LookupBuild { id: 1 })), Ok(done));
    let before = snapshot(&db);
    assert_eq!(
        db.handle(DbRequestWrapper(FinishPurge { id: 1, error: None })),
        Err(ApiError::BadRequest("Unexpected repo state, was not purging".to_string()))
    );
    assert_eq!(snapshot(&db), before);
}

#[test]
fn finish_purge_with_an_error_moves_the_build_to_failed() {
    let b = build_in(1, &RepoState::Purging, &PublishedState::Published);
    let mut db = DbExecutor::with_tables(vec![b], vec![], vec![]).unwrap();
    let done = db
        .handle(DbRequestWrapper(FinishPurge { id: 1, error: Some("disk gone".to_string()) }))
        .unwrap();
    assert_eq!(
        done.current_repo_state(),
        RepoState::Failed("Failed to Purge build: disk gone".to_string())
    );
    assert_eq!(done.repo_state, 3);
    assert_eq!(done.repo_state_reason, Some("Failed to Purge build: disk gone".to_string()));
    assert_eq!(done.current_published_state(), PublishedState::Published);
}

#[test]
fn finish_purge_is_turned_down_unless_purging() {
    let states = vec![
        RepoState::Uploading,
        RepoState::Verifying,
        RepoState::Ready,
        RepoState::Failed("x".to_string()),
        RepoState::Purged,
    ];
    for state in states {
        let b = build_in(1, &state, &PublishedState::Unpublished);
        let mut db = DbExecutor::with_tables(vec![b], vec![], vec![]).unwrap();
        let before = snapshot(&db);
        assert_eq!(
            db.handle(DbRequestWrapper(FinishPurge { id: 1, error: None })),
            Err(ApiError::BadRequest("Unexpected repo state, was not purging".to_string()))
        );
        assert_eq!(snapshot(&db), before);
    }
    let mut empty = DbExecutor::new();
    assert_eq!(
        empty.handle(DbRequestWrapper(FinishPurge { id: 1, error: None })),
        Err(ApiError::NotFound)
    );
}

#[test]
fn init_purge_moves_an_idle_build_to_purging() {
    let idle = vec![
        (RepoState::Uploading, PublishedState::Unpublished),
        (RepoState::Ready, PublishedState::Unpublished),
        (RepoState::Ready, PublishedState::Published),
        (RepoState::Ready, PublishedState::Failed("p".to_string())),
        (RepoState::Failed("r".to_string()), PublishedState::Unpublished),
        (RepoState::Purged, PublishedState::Unpublished),
    ];
    for (repo, published) in idle {
        let mut db =
            DbExecutor::with_tables(vec![build_in(1, &repo, &published)], vec![], vec![]).unwrap();
        assert_eq!(db.handle(DbRequestWrapper(InitPurge { id: 1 })), Ok(()));
        let after = db.handle(DbRequestWrapper(LookupBuild { id: 1 })).unwrap();
        assert_eq!(after.current_repo_state(), RepoState::Purging);
        assert_eq!(after.repo_state_reason, None);
        assert_eq!(after.current_published_state(), published);
    }
}

#[test]
fn init_purge_is_turned_down_while_the_build_is_in_use() {
    let busy = vec![
        (RepoState::Verifying, PublishedState::Unpublished),
        (RepoState::Purging, PublishedState::Unpublished),
        (RepoState::Ready, PublishedState::Publishing),
        (RepoState::Purging, PublishedState::Published),
    ];
    for (repo, published) in busy {
        let mut db =
            DbExecutor::with_tables(vec![build_in(1, &repo, &published)], vec![], vec![]).unwrap();
        let before = snapshot(&db);
        assert_eq!(
            db.handle(DbRequestWrapper(InitPurge { id: 1 })),
            Err(ApiError::BadRequest("Can't prune build while in use".to_string()))
        );
        assert_eq!(snapshot(&db), before);
    }
    let mut empty = DbExecutor::new();
    assert_eq!(empty.handle(DbRequestWrapper(InitPurge { id: 3 })), Err(ApiError::NotFound));
}

#[test]
fn a_build_runs_through_its_whole_life() {
    let mut db = DbExecutor::new();
    let build = db.handle(DbRequestWrapper(NewBuild {})).unwrap();
    let commit_job = db.handle(commit(build.id)).unwrap();
    assert_eq!(
        db.handle(DbRequestWrapper(InitPurge { id: build.id })),
        Err(ApiError::BadRequest("Can't prune build while in use".to_string()))
    );
    // The worker ends the commit: the build becomes ready.
    let ready = db
        .handle(DbRequestWrapper(LookupBuild { id: build.id }))
        .unwrap()
        .with_repo_state(&RepoState::Ready);
    let mut db =
        DbExecutor::with_tables(vec![ready], db.build_refs().clone(), db.jobs().clone()).unwrap();
    let publish_job = db.handle(publish(build.id, "stable")).unwrap();
    assert_eq!(publish_job.id, commit_job.id + 1);
    assert_eq!(
        db.handle(DbRequestWrapper(InitPurge { id: build.id })),
        Err(ApiError::BadRequest("Can't prune build while in use".to_string()))
    );
    // The worker ends the publication.
    let published = db
        .handle(DbRequestWrapper(LookupBuild { id: build.id }))
        .unwrap()
        .with_published_state(&PublishedState::Published);
    let mut db =
        DbExecutor::with_tables(vec![published], db.build_refs().clone(), db.jobs().clone())
            .unwrap();
    assert_eq!(db.handle(DbRequestWrapper(InitPurge { id: build.id })), Ok(()));
    let purged = db.handle(DbRequestWrapper(FinishPurge { id: build.id, error: None })).unwrap();
    assert_eq!(purged.current_repo_state(), RepoState::Purged);
    assert_eq!(purged.current_published_state(), PublishedState::Published);
    assert_eq!(purged.commit_job_id, Some(commit_job.id));
    assert_eq!(purged.publish_job_id, Some(publish_job.id));
    assert_eq!(db.handle(DbRequestWrapper(ListBuilds {})), Ok(vec![]));
    assert_eq!(db.handle(DbRequestWrapper(LookupBuild { id: build.id })), Ok(purged));
}

#[test]
fn extra_ids_are_added_once_and_in_first_seen_order() {
    let mut db = DbExecutor::new();
    db.handle(DbRequestWrapper(NewBuild {})).unwrap();
    let first = db
        .handle(DbRequestWrapper(AddExtraIds { build_id: 1, ids: id_list(&["org.a", "org.b"]) }))
        .unwrap();
    assert_eq!(first.extra_ids, id_list(&["org.a", "org.b"]));
    let second = db
        .handle(DbRequestWrapper(AddExtraIds {
            build_id: 1,
            ids: id_list(&["org.c", "org.a", "org.c", "org.d"]),
        }))
        .unwrap();
    assert_eq!(second.extra_ids, id_list(&["org.a", "org.b", "org.c", "org.d"]));
    let third = db
        .handle(DbRequestWrapper(AddExtraIds {
            build_id: 1,
            ids: id_list(&["org.c", "org.a", "org.c", "org.d"]),
        }))
        .unwrap();
    assert_eq!(third, second);
    assert_eq!(db.handle(DbRequestWrapper(LookupBuild { id: 1 })), Ok(third));
}

#[test]
fn extra_ids_are_added_in_any_state() {
    let states = vec![
        RepoState::Uploading,
        RepoState::Verifying,
        RepoState::Ready,
        RepoState::Failed("x".to_string()),
        RepoState::Purging,
        RepoState::Purged,
    ];
    for state in states {
        let b = build_in(1, &state, &PublishedState::Publishing);
        let mut db = DbExecutor::with_tables(vec![b], vec![], vec![]).unwrap();
        let add = AddExtraIds { build_id: 1, ids: id_list(&["org.a"]) };
        let after = db.handle(DbRequestWrapper(add)).unwrap();
        assert_eq!(after.extra_ids, id_list(&["org.a"]));
        assert_eq!(after.current_repo_state(), state);
        assert_eq!(after.current_published_state(), PublishedState::Publishing);
    }
}

#[test]
fn extra_ids_of_a_missing_build_are_not_found() {
    let mut db = DbExecutor::new();
    assert_eq!(
        db.handle(DbRequestWrapper(AddExtraIds { build_id: 1, ids: id_list(&["org.a"]) })),
        Err(ApiError::NotFound)
    );
}

#[test]
fn extra_ids_touch_one_build_only() {
    let mut db = DbExecutor::new();
    db.handle(DbRequestWrapper(NewBuild {})).unwrap();
    db.handle(DbRequestWrapper(NewBuild {})).unwrap();
    db.handle(DbRequestWrapper(AddExtraIds { build_id: 2, ids: id_list(&["org.a"]) })).unwrap();
    assert_eq!(db.handle(DbRequestWrapper(LookupBuild { id: 1 })), Ok(Build::fresh(1)));
    assert_eq!(
        db.handle(DbRequestWrapper(LookupBuild { id: 2 })).unwrap().extra_ids,
        id_list(&["org.a"])
    );
}

#[test]
fn job_lookup_cuts_the_log() {
    let jobs = vec![job_row(1, 0, 1, "abcdefgh")];
    let mut db = DbExecutor::with_tables(vec![], vec![], jobs).unwrap();
    assert_eq!(
        db.handle(DbRequestWrapper(LookupJob { id: 1, log_offset: Some(5) })).unwrap().log,
        "fgh"
    );
    assert_eq!(
        db.handle(DbRequestWrapper(LookupJob { id: 1, log_offset: Some(100) })).unwrap().log,
        ""
    );
    assert_eq!(
        db.handle(DbRequestWrapper(LookupJob { id: 1, log_offset: None })).unwrap().log,
        "abcdefgh"
    );
    assert_eq!(
        db.handle(DbRequestWrapper(LookupJob { id: 1, log_offset: None })),
        Ok(job_row(1, 0, 1, "abcdefgh"))
    );
    assert_eq!(db.jobs()[0].log, "abcdefgh");
    assert_eq!(
        db.handle(DbRequestWrapper(LookupJob { id: 2, log_offset: None })),
        Err(ApiError::NotFound)
    );
    assert_eq!(
        db.handle(DbRequestWrapper(LookupJob { id: 0, log_offset: Some(1) })),
        Err(ApiError::NotFound)
    );
}

#[test]
fn commit_and_publish_jobs_are_found_through_their_build() {
    let mut with_both = build_in(1, &RepoState::Ready, &PublishedState::Publishing);
    with_both.commit_job_id = Some(2);
    with_both.publish_job_id = Some(1);
    let without = Build::fresh(2);
    let mut dangling = Build::fresh(3);
    dangling.commit_job_id = Some(9);
    let jobs = vec![job_row(1, 1, 0, "publishing"), job_row(2, 0, 2, "committing")];
    let mut db = DbExecutor::with_tables(vec![with_both, without, dangling], vec![], jobs).unwrap();
    assert_eq!(
        db.handle(DbRequestWrapper(LookupCommitJob { build_id: 1, log_offset: None })),
        Ok(job_row(2, 0, 2, "committing"))
    );
    assert_eq!(
        db.handle(DbRequestWrapper(LookupCommitJob { build_id: 1, log_offset: Some(6) }))
            .unwrap()
            .log,
        "ting"
    );
    assert_eq!(
        db.handle(DbRequestWrapper(LookupPublishJob { build_id: 1, log_offset: None })),
        Ok(job_row(1, 1, 0, "publishing"))
    );
    assert_eq!(
        db.handle(DbRequestWrapper(LookupPublishJob { build_id: 1, log_offset: Some(3) }))
            .unwrap()
            .log,
        "lishing"
    );
    assert_eq!(
        db.handle(DbRequestWrapper(LookupCommitJob { build_id: 2, log_offset: None })),
        Err(ApiError::NotFound)
    );
    assert_eq!(
        db.handle(DbRequestWrapper(LookupPublishJob { build_id: 2, log_offset: None })),
        Err(ApiError::NotFound)
    );
    assert_eq!(
        db.handle(DbRequestWrapper(LookupCommitJob { build_id: 3, log_offset: None })),
        Err(ApiError::NotFound)
    );
    assert_eq!(
        db.handle(DbRequestWrapper(LookupCommitJob { build_id: 4, log_offset: None })),
        Err(ApiError::NotFound)
    );
    assert_eq!(
        db.handle(DbRequestWrapper(LookupPublishJob { build_id: 0, log_offset: None })),
        Err(ApiError::NotFound)
    );
}

#[test]
fn builds_are_listed_unless_purged() {
    let builds = vec![
        build_in(1, &RepoState::Uploading, &PublishedState::Unpublished),
        build_in(2, &RepoState::Purged, &PublishedState::Published),
        build_in(3, &RepoState::Purging, &PublishedState::Unpublished),
        build_in(4, &RepoState::Failed("x".to_string()), &PublishedState::Unpublished),
        build_in(5, &RepoState::Purged, &PublishedState::Unpublished),
        build_in(6, &RepoState::Ready, &PublishedState::Publishing),
    ];
    let mut db = DbExecutor::with_tables(builds, vec![], vec![]).unwrap();
    let listed = db.handle(DbRequestWrapper(ListBuilds {})).unwrap();
    let listed_ids: Vec<i32> = listed.iter().map(|b| b.id).collect();
    assert_eq!(listed_ids, vec![1, 3, 4, 6]);
    assert_eq!(listed[1], build_in(3, &RepoState::Purging, &PublishedState::Unpublished));
    let mut empty = DbExecutor::new();
    assert_eq!(empty.handle(DbRequestWrapper(ListBuilds {})), Ok(vec![]));
}

#[test]
fn jobs_are_listed_while_pending_or_running_oldest_first() {
    let jobs = vec![
        job_row(1, 0, 2, "ended"),
        job_row(2, 1, 0, "new"),
        job_row(3, 0, 3, "broken"),
        job_row(4, 0, 1, "started"),
        job_row(5, 1, 0, "new too"),
        job_row(6, 1, 2, "ended too"),
    ];
    let mut db = DbExecutor::with_tables(vec![], vec![], jobs).unwrap();
    let listed = db.handle(DbRequestWrapper(ListJobs {})).unwrap();
    let listed_ids: Vec<i32> = listed.iter().map(|j| j.id).collect();
    assert_eq!(listed_ids, vec![2, 4, 5]);
    assert_eq!(listed[1], job_row(4, 0, 1, "started"));
    let mut empty = DbExecutor::new();
    assert_eq!(empty.handle(DbRequestWrapper(ListJobs {})), Ok(vec![]));
}

#[test]
fn new_jobs_are_listed_until_they_end() {
    let mut db = DbExecutor::new();
    db.handle(DbRequestWrapper(NewBuild {})).unwrap();
    db.handle(DbRequestWrapper(NewBuild {})).unwrap();
    let second = db.handle(commit(2)).unwrap();
    let first = db.handle(commit(1)).unwrap();
    assert_eq!((second.id, first.id), (1, 2));
    assert_eq!(db.handle(DbRequestWrapper(ListJobs {})), Ok(vec![second, first]));
}

#[test]
fn refs_are_stored_and_found() {
    let mut db = DbExecutor::new();
    db.handle(DbRequestWrapper(NewBuild {})).unwrap();
    db.handle(DbRequestWrapper(NewBuild {})).unwrap();
    let new_ref = |build_id: i32, name: &str, commit: &str| {
        DbRequestWrapper(NewBuildRef {
            build_id,
            ref_name: name.to_string(),
            commit: commit.to_string(),
        })
    };
    let r1 = db.handle(new_ref(1, "app/org.a/x86_64/stable", "aaaa")).unwrap();
    let r2 = db.handle(new_ref(2, "app/org.b/x86_64/stable", "bbbb")).unwrap();
    let r3 = db.handle(new_ref(1, "runtime/org.a.Locale/x86_64/stable", "cccc")).unwrap();
    assert_eq!(
        r1,
        BuildRef {
            id: 1,
            build_id: 1,
            ref_name: "app/org.a/x86_64/stable".to_string(),
            commit: "aaaa".to_string(),
        }
    );
    assert_eq!((r2.id, r3.id), (2, 3));
    assert_eq!(r3.clone(), r3);
    assert_eq!(db.handle(DbRequestWrapper(LookupBuildRef { id: 1, ref_id: 3 })), Ok(r3.clone()));
    assert_eq!(db.handle(DbRequestWrapper(LookupBuildRef { id: 2, ref_id: 2 })), Ok(r2.clone()));
    assert_eq!(
        db.handle(DbRequestWrapper(LookupBuildRef { id: 2, ref_id: 3 })),
        Err(ApiError::NotFound)
    );
    assert_eq!(
        db.handle(DbRequestWrapper(LookupBuildRef { id: 1, ref_id: 4 })),
        Err(ApiError::NotFound)
    );
    assert_eq!(
        db.handle(DbRequestWrapper(LookupBuildRef { id: 1, ref_id: 0 })),
        Err(ApiError::NotFound)
    );
    assert_eq!(db.handle(DbRequestWrapper(LookupBuildRefs { id: 1 })), Ok(vec![r1, r3]));
    assert_eq!(db.handle(DbRequestWrapper(LookupBuildRefs { id: 2 })), Ok(vec![r2]));
    assert_eq!(db.handle(DbRequestWrapper(LookupBuildRefs { id: 3 })), Ok(vec![]));
}

#[test]
fn build_lookup_finds_what_is_there() {
    let mut db = DbExecutor::new();
    assert_eq!(db.handle(DbRequestWrapper(LookupBuild { id: 1 })), Err(ApiError::NotFound));
    db.handle(DbRequestWrapper(NewBuild {})).unwrap();
    assert_eq!(db.handle(DbRequestWrapper(LookupBuild { id: 1 })), Ok(Build::fresh(1)));
    assert_eq!(db.handle(DbRequestWrapper(LookupBuild { id: 2 })), Err(ApiError::NotFound));
    assert_eq!(db.handle(DbRequestWrapper(LookupBuild { id: 0 })), Err(ApiError::NotFound));
    assert_eq!(
        db.handle(DbRequestWrapper(LookupBuild { id: i32::MIN })),
        Err(ApiError::NotFound)
    );
    assert_eq!(
        db.handle(DbRequestWrapper(LookupBuild { id: i32::MAX })),
        Err(ApiError::NotFound)
    );
}

#[test]
fn lookups_change_nothing() {
    let mut build = build_in(1, &RepoState::Ready, &PublishedState::Unpublished);
    build.commit_job_id = Some(1);
    let jobs = vec![job_row(1, 0, 2, "abcdefgh")];
    let refs = vec![BuildRef {
        id: 1,
        build_id: 1,
        ref_name: "app/org.a/x86_64/stable".to_string(),
        commit: "aaaa".to_string(),
    }];
    let mut db = DbExecutor::with_tables(vec![build], refs, jobs).unwrap();
    let before = snapshot(&db);
    db.handle(DbRequestWrapper(LookupBuild { id: 1 })).unwrap();
    db.handle(DbRequestWrapper(LookupJob { id: 1, log_offset: Some(3) })).unwrap();
    db.handle(DbRequestWrapper(LookupCommitJob { build_id: 1, log_offset: Some(3) })).unwrap();
    db.handle(DbRequestWrapper(LookupBuildRef { id: 1, ref_id: 1 })).unwrap();
    db.handle(DbRequestWrapper(LookupBuildRefs { id: 1 })).unwrap();
    db.handle(DbRequestWrapper(ListBuilds {})).unwrap();
    db.handle(DbRequestWrapper(ListJobs {})).unwrap();
    assert_eq!(snapshot(&db), before);
}

#[test]
fn tables_must_be_numbered_from_one() {
    assert!(DbExecutor::with_tables(vec![], vec![], vec![]).is_some());
    assert!(DbExecutor::with_tables(vec![Build::fresh(1), Build::fresh(2)], vec![], vec![])
        .is_some());
    assert!(DbExecutor::with_tables(vec![Build::fresh(2)], vec![], vec![]).is_none());
    assert!(DbExecutor::with_tables(vec![Build::fresh(1), Build::fresh(3)], vec![], vec![])
        .is_none());
    assert!(DbExecutor::with_tables(vec![Build::fresh(1), Build::fresh(1)], vec![], vec![])
        .is_none());
    assert!(DbExecutor::with_tables(vec![], vec![], vec![job_row(0, 0, 0, "")]).is_none());
    let two_jobs = vec![job_row(1, 0, 0, ""), job_row(2, 0, 0, "")];
    assert!(DbExecutor::with_tables(vec![], vec![], two_jobs).is_some());
    let misnumbered = BuildRef {
        id: 5,
        build_id: 1,
        ref_name: "app/org.a/x86_64/stable".to_string(),
        commit: "aaaa".to_string(),
    };
    assert!(DbExecutor::with_tables(vec![], vec![misnumbered], vec![]).is_none());
}

#[test]
fn tables_must_not_repeat_an_extra_id() {
    let mut build = Build::fresh(1);
    build.extra_ids = id_list(&["org.a", "org.b", "org.a"]);
    assert!(DbExecutor::with_tables(vec![build], vec![], vec![]).is_none());
    let mut build = Build::fresh(1);
    build.extra_ids = id_list(&["org.a", "org.b"]);
    let db = DbExecutor::with_tables(vec![build.clone()], vec![], vec![]).unwrap();
    assert_eq!(db.builds(), &vec![build]);
}

#[test]
fn request_steps_agree_with_the_executor() {
    let msg = StartCommitJob { id: 1, endoflife: None, endoflife_rebase: None, token_type: None };
    let build = Build::fresh(1);
    assert_eq!(msg.check(&build), Ok(()));
    let updated = msg.apply(build.clone(), 17);
    assert_eq!(updated.current_repo_state(), RepoState::Verifying);
    assert_eq!(updated.commit_job_id, Some(17));
    assert_eq!(
        msg.check(&updated),
        Err(ApiError::WrongRepoState(
            "Build is currently being commited".to_string(),
            "uploading".to_string(),
            "verifying".to_string()
        ))
    );
    let publish = StartPublishJob { id: 1, repo: "stable".to_string() };
    let ready = build.clone().with_repo_state(&RepoState::Ready);
    assert_eq!(publish.check(&ready), Ok(()));
    let publishing = publish.apply(ready, 18);
    assert_eq!(publishing.current_published_state(), PublishedState::Publishing);
    assert_eq!(publishing.publish_job_id, Some(18));
    let init = InitPurge { id: 1 };
    assert_eq!(
        init.check(&publishing),
        Err(ApiError::BadRequest("Can't prune build while in use".to_string()))
    );
    assert_eq!(init.check(&build), Ok(()));
    let purging = init.apply(build.clone());
    assert_eq!(purging.current_repo_state(), RepoState::Purging);
    let finish = FinishPurge { id: 1, error: Some("e".to_string()) };
    assert_eq!(finish.check(&purging), Ok(()));
    assert_eq!(
        finish.apply(purging).current_repo_state(),
        RepoState::Failed("Failed to Purge build: e".to_string())
    );
    let add = AddExtraIds { build_id: 1, ids: id_list(&["b", "a", "b"]) };
    assert_eq!(add.apply(build).extra_ids, id_list(&["b", "a"]));
}
