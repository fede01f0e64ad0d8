//! Jobs: the units of work that a transition leaves for the worker.

use crate::json::{
    decimal, number, number_or_null, string_or_null, write_number_or_null, write_string_or_null,
};
use crate::text::join;
use crate::text::opt_text;
use vstd::prelude::*;

verus! {

/// What a job does.
#[derive(Debug, Clone, Copy, PartialEq, Eq)]
pub enum JobKind {
    Commit,
    Publish,
}

impl JobKind {
    /// The persisted code of a kind.
    pub open spec fn code(self) -> i16 {
        match self {
            JobKind::Commit => 0,
            JobKind::Publish => 1,
        }
    }

    /// The code under which the kind is persisted.
    pub fn to_db(&self) -> (code: i16)
        ensures
            code == self.code(),
    {
        match self {
            JobKind::Commit => 0,
            JobKind::Publish => 1,
        }
    }

    /// The kind that a persisted code stands for, if any.
    pub fn from_db(val: i16) -> (kind: Option<JobKind>)
        ensures
            kind == (if val == 0 {
                Some(JobKind::Commit)
            } else if val == 1 {
                Some(JobKind::Publish)
            } else {
                None
            }),
    {
        match val {
            0 => Some(JobKind::Commit),
            1 => Some(JobKind::Publish),
            _ => None,
        }
    }
}

/// How far a job has come. `New` and `Started` are the statuses of work that
/// is still pending or running; the others are final.
#[derive(Debug, Clone, Copy, PartialEq, Eq)]
pub enum JobStatus {
    New,
    Started,
    Ended,
    Broken,
}

impl JobStatus {
    /// The persisted code of a status.
    pub open spec fn code(self) -> i16 {
        match self {
            JobStatus::New => 0,
            JobStatus::Started => 1,
            JobStatus::Ended => 2,
            JobStatus::Broken => 3,
        }
    }

    /// The code under which the status is persisted.
    pub fn to_db(&self) -> (code: i16)
        ensures
            code == self.code(),
    {
        match self {
            JobStatus::New => 0,
            JobStatus::Started => 1,
            JobStatus::Ended => 2,
            JobStatus::Broken => 3,
        }
    }

    /// The status that a persisted code stands for, if any.
    pub fn from_db(val: i16) -> (status: Option<JobStatus>)
        ensures
            status == (if val == 0 {
                Some(JobStatus::New)
            } else if val == 1 {
                Some(JobStatus::Started)
            } else if val == 2 {
                Some(JobStatus::Ended)
            } else if val == 3 {
                Some(JobStatus::Broken)
            } else {
                None
            }),
    {
        match val {
            0 => Some(JobStatus::New),
            1 => Some(JobStatus::Started),
            2 => Some(JobStatus::Ended),
            3 => Some(JobStatus::Broken),
            _ => None,
        }
    }
}

/// Whether a persisted status is that of a job still pending or running.
pub open spec fn is_active_status(status: i16) -> bool {
    status <= JobStatus::Started.code()
}

/// What a commit job works on.
#[derive(Debug, PartialEq, Eq)]
pub struct CommitJob {
    pub build: i32,
    pub endoflife: Option<String>,
    pub endoflife_rebase: Option<String>,
    pub token_type: Option<i32>,
}

/// `CommitJob` with its texts as sequences of characters.
pub struct CommitJobView {
    pub build: i32,
    pub endoflife: Option<Seq<char>>,
    pub endoflife_rebase: Option<Seq<char>>,
    pub token_type: Option<i32>,
}

impl View for CommitJob {
    type V = CommitJobView;

    open spec fn view(&self) -> CommitJobView {
        CommitJobView {
            build: self.build,
            endoflife: opt_text(self.endoflife),
            endoflife_rebase: opt_text(self.endoflife_rebase),
            token_type: self.token_type,
        }
    }
}

impl CommitJobView {
    /// The object that holds the four fields of a payload, each given as it
    /// is written: without white space, the fields in this order.
    pub open spec fn frame(
        build: Seq<char>,
        endoflife: Seq<char>,
        endoflife_rebase: Seq<char>,
        token_type: Seq<char>,
    ) -> Seq<char> {
        "{\"build\":"@ + build + ",\"endoflife\":"@ + endoflife + ",\"endoflife_rebase\":"@
            + endoflife_rebase + ",\"token_type\":"@ + token_type + "}"@
    }

    /// The payload as JSON text: every field is there, and one without a
    /// value holds `null`.
    pub open spec fn json(self) -> Seq<char> {
        Self::frame(
            decimal(self.build as int),
            string_or_null(self.endoflife),
            string_or_null(self.endoflife_rebase),
            number_or_null(self.token_type),
        )
    }
}

impl CommitJob {
    /// Puts the fields of a payload, each already written, into the object
    /// that holds them.
    pub fn frame(
        build: &str,
        endoflife: &str,
        endoflife_rebase: &str,
        token_type: &str,
    ) -> (text: String)
        ensures
            text@ == CommitJobView::frame(build@, endoflife@, endoflife_rebase@, token_type@),
    {
        let text = join("{\"build\":", build);
        let text = join(text.as_str(), ",\"endoflife\":");
        let text = join(text.as_str(), endoflife);
        let text = join(text.as_str(), ",\"endoflife_rebase\":");
        let text = join(text.as_str(), endoflife_rebase);
        let text = join(text.as_str(), ",\"token_type\":");
        let text = join(text.as_str(), token_type);
        join(text.as_str(), "}")
    }

    /// The payload as the text that a job carries.
    pub fn contents(&self) -> (text: String)
        ensures
            text@ == self@.json(),
    {
        let build = number(self.build);
        let endoflife = write_string_or_null(&self.endoflife);
        let endoflife_rebase = write_string_or_null(&self.endoflife_rebase);
        let token_type = write_number_or_null(self.token_type);
        Self::frame(
            build.as_str(),
            endoflife.as_str(),
            endoflife_rebase.as_str(),
            token_type.as_str(),
        )
    }
}

/// What a publish job works on.
#[derive(Debug, Clone, Copy, PartialEq, Eq)]
pub struct PublishJob {
    pub build: i32,
}

impl PublishJob {
    /// The payload as JSON text: an object without white space that holds
    /// the build.
    pub open spec fn json(self) -> Seq<char> {
        "{\"build\":"@ + decimal(self.build as int) + "}"@
    }

    /// The payload as the text that a job carries.
    pub fn contents(&self) -> (text: String)
        ensures
            text@ == self.json(),
    {
        let build = number(self.build);
        let text = join("{\"build\":", build.as_str());
        join(text.as_str(), "}")
    }
}

/// A job as it is handed to the store: everything but what the store itself
/// assigns.
#[derive(Debug, PartialEq, Eq)]
pub struct NewJob {
    pub kind: i16,
    /// Seconds since the epoch before which the job must not start.
    pub start_after: Option<u64>,
    pub repo: Option<String>,
    pub contents: String,
}

/// `NewJob` with its texts as sequences of characters.
pub struct NewJobView {
    pub kind: i16,
    pub start_after: Option<u64>,
    pub repo: Option<Seq<char>>,
    pub contents: Seq<char>,
}

impl View for NewJob {
    type V = NewJobView;

    open spec fn view(&self) -> NewJobView {
        NewJobView {
            kind: self.kind,
            start_after: self.start_after,
            repo: opt_text(self.repo),
            contents: self.contents@,
        }
    }
}

impl NewJob {
    /// Assembles the job of the given kind around an already written payload.
    pub fn new(
        kind: JobKind,
        start_after: Option<u64>,
        repo: Option<String>,
        contents: String,
    ) -> (job: NewJob)
        ensures
            job@ == (NewJobView {
                kind: kind.code(),
                start_after,
                repo: opt_text(repo),
                contents: contents@,
            }),
    {
        NewJob { kind: kind.to_db(), start_after, repo, contents }
    }
}

/// A job as the store holds it.
#[derive(Debug, PartialEq, Eq)]
pub struct Job {
    pub id: i32,
    pub kind: i16,
    pub status: i16,
    pub contents: String,
    pub log: String,
    /// Seconds since the epoch before which the job must not start.
    pub start_after: Option<u64>,
    pub repo: Option<String>,
}

/// `Job` with its texts as sequences of characters.
pub struct JobView {
    pub id: i32,
    pub kind: i16,
    pub status: i16,
    pub contents: Seq<char>,
    pub log: Seq<char>,
    pub start_after: Option<u64>,
    pub repo: Option<Seq<char>>,
}

impl View for Job {
    type V = JobView;

    open spec fn view(&self) -> JobView {
        JobView {
            id: self.id,
            kind: self.kind,
            status: self.status,
            contents: self.contents@,
            log: self.log@,
            start_after: self.start_after,
            repo: opt_text(self.repo),
        }
    }
}

impl DeepView for Job {
    type V = JobView;

    open spec fn deep_view(&self) -> JobView {
        self@
    }
}

impl JobView {
    /// The row that the store creates for a new job under the given id:
    /// not yet started, with an empty log.
    pub open spec fn pending(id: i32, job: NewJobView) -> JobView {
        JobView {
            id,
            kind: job.kind,
            status: JobStatus::New.code(),
            contents: job.contents,
            log: Seq::empty(),
            start_after: job.start_after,
            repo: job.repo,
        }
    }

    /// Whether the job is still pending or running.
    pub open spec fn is_active(self) -> bool {
        is_active_status(self.status)
    }
}

impl Job {
    /// The row that the store creates for a new job under the given id.
    pub fn pending(id: i32, job: NewJob) -> (row: Job)
        ensures
            row@ == JobView::pending(id, job@),
    {
        Job {
            id,
            kind: job.kind,
            status: JobStatus::New.to_db(),
            contents: job.contents,
            log: String::new(),
            start_after: job.start_after,
            repo: job.repo,
        }
    }

    /// Whether the job is still pending or running.
    pub fn is_active(&self) -> (active: bool)
        ensures
            active == self@.is_active(),
    {
        self.status <= JobStatus::Started.to_db()
    }

}

impl Clone for Job {
    fn clone(&self) -> (copy: Self)
        ensures
            copy@ == self@,
    {
        Job {
            id: self.id,
            kind: self.kind,
            status: self.status,
            contents: self.contents.clone(),
            log: self.log.clone(),
            start_after: self.start_after,
            repo: self.repo.clone(),
        }
    }
}

/// The first character boundary of `bytes` at or after `from`; the end of
/// `bytes` where `from` lies beyond it.
pub open spec fn boundary_from(bytes: Seq<u8>, from: int) -> int
    decreases bytes.len() - from,
{
    if from >= bytes.len() {
        bytes.len() as int
    } else if vstd::utf8::is_char_boundary(bytes, from) {
        from
    } else {
        boundary_from(bytes, from + 1)
    }
}

/// What is left of a log from the byte at `offset` on. An offset is counted
/// in bytes of the log's UTF-8 form. One that points into the middle of a
/// character is moved on to the next character; one beyond the end leaves
/// nothing.
pub open spec fn log_suffix(log: Seq<char>, offset: int) -> Seq<char> {
    let bytes = vstd::utf8::encode_utf8(log);
    vstd::utf8::decode_utf8(bytes.subrange(boundary_from(bytes, offset), bytes.len() as int))
}

/// A log cut at or beyond its end is empty.
pub proof fn lemma_log_suffix_beyond_end(log: Seq<char>, offset: int)
    requires
        offset >= vstd::utf8::encode_utf8(log).len(),
    ensures
        log_suffix(log, offset) == Seq::<char>::empty(),
{
}

/// A log cut at its start is the whole log.
pub proof fn lemma_log_suffix_from_start(log: Seq<char>)
    ensures
        log_suffix(log, 0) == log,
{
    let bytes = vstd::utf8::encode_utf8(log);
    vstd::utf8::encode_utf8_valid_utf8(log);
    vstd::utf8::encode_utf8_decode_utf8(log);
    assert(bytes.subrange(0, bytes.len() as int) =~= bytes);
}

/// The bytes of two texts put together are the bytes of the one followed by
/// the bytes of the other.
proof fn lemma_encode_concat(a: Seq<char>, b: Seq<char>)
    ensures
        vstd::utf8::encode_utf8(a + b) == vstd::utf8::encode_utf8(a) + vstd::utf8::encode_utf8(b),
    decreases a.len(),
{
    if a.len() == 0 {
        assert(vstd::utf8::encode_utf8(a) + vstd::utf8::encode_utf8(b) =~= vstd::utf8::encode_utf8(
            b,
        ));
    } else {
        lemma_encode_concat(a.drop_first(), b);
        assert((a + b).drop_first() =~= a.drop_first() + b);
        let head = vstd::utf8::encode_scalar(a[0] as u32);
        assert(head + (vstd::utf8::encode_utf8(a.drop_first()) + vstd::utf8::encode_utf8(b)) =~= (
        head + vstd::utf8::encode_utf8(a.drop_first())) + vstd::utf8::encode_utf8(b));
    }
}

/// Where the bytes of one text end and those of the next begin, a character
/// begins.
proof fn lemma_boundary_between(a: Seq<char>, b: Seq<char>)
    ensures
        vstd::utf8::is_char_boundary(
            vstd::utf8::encode_utf8(a + b),
            vstd::utf8::encode_utf8(a).len() as int,
        ),
    decreases a.len(),
{
    let bytes = vstd::utf8::encode_utf8(a + b);
    vstd::utf8::encode_utf8_valid_utf8(a + b);
    if a.len() > 0 {
        let rest = a.drop_first();
        vstd::utf8::encode_utf8_first_scalar(a + b);
        assert((a + b).drop_first() =~= rest + b);
        assert(vstd::utf8::pop_first_scalar(bytes) =~= vstd::utf8::encode_utf8(rest + b));
        lemma_boundary_between(rest, b);
    }
}

/// A log cut where its first `n` characters end is the log without them.
pub proof fn lemma_log_suffix_after_prefix(log: Seq<char>, n: int)
    requires
        0 <= n <= log.len(),
    ensures
        log_suffix(log, vstd::utf8::encode_utf8(log.take(n)).len() as int) == log.skip(n),
{
    let bytes = vstd::utf8::encode_utf8(log);
    let at: int = vstd::utf8::encode_utf8(log.take(n)).len() as int;
    assert(log.take(n) + log.skip(n) =~= log);
    lemma_encode_concat(log.take(n), log.skip(n));
    lemma_boundary_between(log.take(n), log.skip(n));
    assert(bytes.subrange(at, bytes.len() as int) =~= vstd::utf8::encode_utf8(log.skip(n)));
    vstd::utf8::encode_utf8_decode_utf8(log.skip(n));
}

/// In a log of ASCII characters a byte is a character: cut at `n`, the log
/// is left without its first `n` characters.
pub proof fn lemma_log_suffix_ascii(log: Seq<char>, n: int)
    requires
        vstd::utf8::is_ascii_chars(log),
        0 <= n <= log.len(),
    ensures
        log_suffix(log, n) == log.skip(n),
{
    vstd::utf8::is_ascii_chars_encode_utf8(log.take(n));
    lemma_log_suffix_after_prefix(log, n);
}

} // verus!
