//! The decision core behind the three endpoints.
//!
//! The HTTP layer and the spawned background jobs perform the outside work
//! (directory creation, process execution, file reads) and hand the plain
//! outcomes to the functions here, which decide every status transition, every
//! classification of a failure, and every response.  Each decision is stated
//! exactly by a spec function or an `ensures`, so the protocol properties --
//! idempotent submission, single delivery of terminal results, isolation of
//! working directories -- are proved rather than hoped for.

use vstd::prelude::*;
use vstd::string::StringExecFns;

use crate::exception::AppError;
use crate::exception::AppErrorView;
use crate::exception::AppResult;
use crate::exception::ClientError;
use crate::exception::ClientErrorView;
use crate::exception::ServerError;
use crate::exception::ServerErrorView;
use crate::models::AppResp;
use crate::models::PollStatusResp;
use crate::models::ServerState;
use crate::models::TaskStatus;
use crate::models::TaskStatusView;
use crate::text::contains_seq;
use crate::text::contains_sub;

verus! {

/// Wraps a success payload in the response envelope.
pub fn ok<T>(resp: T) -> (r: AppResp<T>)
    ensures
        r == AppResp::<T>::Success(resp),
{
    AppResp::Success(resp)
}

/// Wraps an error in the response envelope.
pub fn err<T>(e: AppError) -> (r: AppResp<T>)
    ensures
        r == AppResp::<T>::Exception(e),
{
    AppResp::Exception(e)
}

/// Records an error as a terminal task status.
pub fn task_err(e: AppError) -> (r: TaskStatus)
    ensures
        r@ == TaskStatusView::Failed(e@),
{
    TaskStatus::Failed(e)
}

/// Does the fetch tool's error text indicate an invalid or unreachable
/// address?  The match is over a fixed set of phrases; anything else is
/// treated as the server's fault.
pub open spec fn spec_is_url_problem(msg: Seq<char>) -> bool {
    contains_seq(msg, "is not a valid URL"@) || contains_seq(msg, "Failed to resolve"@)
        || contains_seq(msg, "Video unavailable"@) || contains_seq(
        msg,
        "Incomplete YouTube ID"@,
    )
}

/// Decides [`spec_is_url_problem`] on real tool output.
pub fn is_url_problem(err_msg: &str) -> (r: bool)
    ensures
        r == spec_is_url_problem(err_msg@),
{
    contains_sub(err_msg, "is not a valid URL") || contains_sub(err_msg, "Failed to resolve")
        || contains_sub(err_msg, "Video unavailable") || contains_sub(
        err_msg,
        "Incomplete YouTube ID",
    )
}

/// How a non-zero exit of the fetch tool is classified: a recognised
/// invalid-address phrase is the caller's fault, anything else the server's.
pub open spec fn classify_fetch_failure_spec(url: Seq<char>, stderr: Seq<char>) -> AppErrorView {
    if spec_is_url_problem(stderr) {
        AppErrorView::Client(ClientErrorView::VideoLinkNotExist(url))
    } else {
        AppErrorView::Server(ServerErrorView::VideoDownload(stderr))
    }
}

/// Classifies a fetch failure exactly as [`classify_fetch_failure_spec`]
/// states it.
pub fn classify_fetch_failure(url: String, stderr: String) -> (r: AppError)
    ensures
        r@ == classify_fetch_failure_spec(url@, stderr@),
{
    if is_url_problem(stderr.as_str()) {
        AppError::Client(ClientError::VideoLinkNotExist(url))
    } else {
        AppError::Server(ServerError::VideoDownload(stderr))
    }
}

/// Fault classification law: error text containing `Video unavailable` is
/// always classified as the caller's fault, naming the offending link.
pub proof fn lemma_video_unavailable_is_client_fault(url: Seq<char>, stderr: Seq<char>)
    requires
        contains_seq(stderr, "Video unavailable"@),
    ensures
        classify_fetch_failure_spec(url, stderr) == AppErrorView::Client(
            ClientErrorView::VideoLinkNotExist(url),
        ),
{
}

/// What running an external command came to: it could not be launched at
/// all, or it ran and exited, successfully or not, with some error text.
pub enum CmdOutcome {
    LaunchFailed,
    Exited { success: bool, stderr: String },
}

/// Mathematical model of a [`CmdOutcome`].
pub enum CmdOutcomeView {
    LaunchFailed,
    Exited { success: bool, stderr: Seq<char> },
}

impl View for CmdOutcome {
    type V = CmdOutcomeView;

    open spec fn view(&self) -> CmdOutcomeView {
        match self {
            CmdOutcome::LaunchFailed => CmdOutcomeView::LaunchFailed,
            CmdOutcome::Exited { success, stderr } => CmdOutcomeView::Exited {
                success: *success,
                stderr: stderr@,
            },
        }
    }
}

/// The arguments joined with single spaces.
pub open spec fn joined_args(args: Seq<Seq<char>>) -> Seq<char>
    decreases args.len(),
{
    if args.len() == 0 {
        Seq::empty()
    } else if args.len() == 1 {
        args[0]
    } else {
        joined_args(args.drop_last()) + " "@ + args.last()
    }
}

/// The human-readable command line: program, a space, then the arguments
/// joined with spaces.
pub open spec fn command_line_view(program: Seq<char>, args: Seq<Seq<char>>) -> Seq<char> {
    program + " "@ + joined_args(args)
}

/// Renders a command line exactly as [`command_line_view`] states it.
pub fn command_line(program: &str, args: &Vec<String>) -> (r: String)
    ensures
        r@ == command_line_view(program@, args.deep_view()),
{
    let ghost dv = args.deep_view();
    let mut s = program.to_owned();
    s.append(" ");
    proof {
        assert(s@ =~= program@ + " "@ + joined_args(dv.subrange(0, 0)));
    }
    let mut i: usize = 0;
    while i < args.len()
        invariant
            i <= args@.len(),
            dv == args.deep_view(),
            dv.len() == args@.len(),
            s@ == program@ + " "@ + joined_args(dv.subrange(0, i as int)),
        decreases args@.len() - i,
    {
        if i > 0 {
            s.append(" ");
        }
        s.append(args[i].as_str());
        proof {
            assert(dv.subrange(0, i + 1).drop_last() =~= dv.subrange(0, i as int));
            assert(dv.subrange(0, i + 1).last() == dv[i as int]);
            assert(dv[i as int] == args@[i as int]@);
            assert(s@ =~= program@ + " "@ + joined_args(dv.subrange(0, i + 1)));
        }
        i += 1;
    }
    proof {
        assert(dv.subrange(0, dv.len() as int) =~= dv);
    }
    s
}

/// The fixed argument list handed to the fetch tool for `url`, writing the
/// media to `audio_path`.
pub open spec fn fetch_args_view(url: Seq<char>, audio_path: Seq<char>) -> Seq<Seq<char>> {
    seq!["run"@, "-n"@, "server"@, "download_mp3.sh"@, url, audio_path]
}

/// Builds the fetch tool's arguments exactly as [`fetch_args_view`] states.
pub fn fetch_args(url: &str, audio_path: &str) -> (r: Vec<String>)
    ensures
        r.deep_view() == fetch_args_view(url@, audio_path@),
{
    let mut v: Vec<String> = Vec::new();
    v.push("run".to_owned());
    v.push("-n".to_owned());
    v.push("server".to_owned());
    v.push("download_mp3.sh".to_owned());
    v.push(url.to_owned());
    v.push(audio_path.to_owned());
    proof {
        assert(v.deep_view() =~= fetch_args_view(url@, audio_path@));
    }
    v
}

/// The fixed argument list handed to the summarization tool for the fetched
/// media at `audio_path`, writing into `user_dir`.
pub open spec fn model_args_view(audio_path: Seq<char>, user_dir: Seq<char>) -> Seq<Seq<char>> {
    seq!["run"@, "-n"@, "server"@, "run_model.sh"@, audio_path, user_dir]
}

/// Builds the summarization tool's arguments exactly as [`model_args_view`]
/// states.
pub fn model_args(audio_path: &str, user_dir: &str) -> (r: Vec<String>)
    ensures
        r.deep_view() == model_args_view(audio_path@, user_dir@),
{
    let mut v: Vec<String> = Vec::new();
    v.push("run".to_owned());
    v.push("-n".to_owned());
    v.push("server".to_owned());
    v.push("run_model.sh".to_owned());
    v.push(audio_path.to_owned());
    v.push(user_dir.to_owned());
    proof {
        assert(v.deep_view() =~= model_args_view(audio_path@, user_dir@));
    }
    v
}

/// The fixed argument list handed to the archiver: recursive, into
/// `archive_path`, of the current directory.
pub open spec fn zip_args_view(archive_path: Seq<char>) -> Seq<Seq<char>> {
    seq!["-r"@, archive_path, "."@]
}

/// Builds the archiver's arguments exactly as [`zip_args_view`] states.
pub fn zip_args(archive_path: &str) -> (r: Vec<String>)
    ensures
        r.deep_view() == zip_args_view(archive_path@),
{
    let mut v: Vec<String> = Vec::new();
    v.push("-r".to_owned());
    v.push(archive_path.to_owned());
    v.push(".".to_owned());
    proof {
        assert(v.deep_view() =~= zip_args_view(archive_path@));
    }
    v
}

/// The status recorded when the working directory cannot be created.
pub open spec fn setup_failure_spec(user_dir: Seq<char>) -> TaskStatusView {
    TaskStatusView::Failed(AppErrorView::Server(ServerErrorView::ParsePath(user_dir)))
}

/// Builds the setup-failure status exactly as [`setup_failure_spec`] states.
pub fn setup_failure_status(user_dir: String) -> (r: TaskStatus)
    ensures
        r@ == setup_failure_spec(user_dir@),
{
    TaskStatus::Failed(AppError::Server(ServerError::ParsePath(user_dir)))
}

/// The status transition after the fetch stage: launch failure and non-zero
/// exit are terminal (the latter classified by the error text); success
/// advances the job to the inference stage.  The second component says
/// whether the pipeline proceeds.
pub open spec fn after_fetch_spec(url: Seq<char>, cmd: Seq<char>, o: CmdOutcomeView) -> (
    TaskStatusView,
    bool,
) {
    match o {
        CmdOutcomeView::LaunchFailed => (
            TaskStatusView::Failed(AppErrorView::Server(ServerErrorView::IssueCommand(cmd))),
            false,
        ),
        CmdOutcomeView::Exited { success, stderr } => if success {
            (TaskStatusView::Pending, true)
        } else {
            (TaskStatusView::Failed(classify_fetch_failure_spec(url, stderr)), false)
        },
    }
}

/// Decides the fetch transition exactly as [`after_fetch_spec`] states it.
/// `cmd` is the human-readable command line, used when the tool could not be
/// launched at all.
pub fn after_fetch(url: String, cmd: String, outcome: CmdOutcome) -> (r: (TaskStatus, bool))
    ensures
        r.0@ == after_fetch_spec(url@, cmd@, outcome@).0,
        r.1 == after_fetch_spec(url@, cmd@, outcome@).1,
{
    match outcome {
        CmdOutcome::LaunchFailed => (
            TaskStatus::Failed(AppError::Server(ServerError::IssueCommand(cmd))),
            false,
        ),
        CmdOutcome::Exited { success, stderr } => {
            if success {
                (TaskStatus::Pending, true)
            } else {
                (TaskStatus::Failed(classify_fetch_failure(url, stderr)), false)
            }
        },
    }
}

/// The status transition after the inference stage: launch failure and
/// non-zero exit are terminal server faults (once the input was valid, a
/// failure here is not attributable to the caller); success finishes the job.
pub open spec fn after_model_spec(cmd: Seq<char>, o: CmdOutcomeView) -> (TaskStatusView, bool) {
    match o {
        CmdOutcomeView::LaunchFailed => (
            TaskStatusView::Failed(AppErrorView::Server(ServerErrorView::IssueCommand(cmd))),
            false,
        ),
        CmdOutcomeView::Exited { success, stderr } => if success {
            (TaskStatusView::Done, true)
        } else {
            (TaskStatusView::Failed(AppErrorView::Server(ServerErrorView::AiModel(stderr))), false)
        },
    }
}

/// Decides the inference transition exactly as [`after_model_spec`] states.
pub fn after_model(cmd: String, outcome: CmdOutcome) -> (r: (TaskStatus, bool))
    ensures
        r.0@ == after_model_spec(cmd@, outcome@).0,
        r.1 == after_model_spec(cmd@, outcome@).1,
{
    match outcome {
        CmdOutcome::LaunchFailed => (
            TaskStatus::Failed(AppError::Server(ServerError::IssueCommand(cmd))),
            false,
        ),
        CmdOutcome::Exited { success, stderr } => {
            if success {
                (TaskStatus::Done, true)
            } else {
                (TaskStatus::Failed(AppError::Server(ServerError::AiModel(stderr))), false)
            }
        },
    }
}

/// The status to record after the archiver ran, if any: launch failure and
/// non-zero exit are recorded as server faults; success records nothing,
/// because the archive file itself is the completion signal.
pub open spec fn after_zip_spec(cmd: Seq<char>, o: CmdOutcomeView) -> Option<TaskStatusView> {
    match o {
        CmdOutcomeView::LaunchFailed => Option::Some(
            TaskStatusView::Failed(AppErrorView::Server(ServerErrorView::IssueCommand(cmd))),
        ),
        CmdOutcomeView::Exited { success, .. } => if success {
            Option::None
        } else {
            Option::Some(TaskStatusView::Failed(AppErrorView::Server(ServerErrorView::CompressFile)))
        },
    }
}

/// Decides the archiver transition exactly as [`after_zip_spec`] states.
pub fn after_zip(cmd: String, outcome: CmdOutcome) -> (r: Option<TaskStatus>)
    ensures
        match r {
            Option::Some(st) => after_zip_spec(cmd@, outcome@) == Option::Some(st@),
            Option::None => after_zip_spec(cmd@, outcome@) is None,
        },
{
    match outcome {
        CmdOutcome::LaunchFailed => Option::Some(
            TaskStatus::Failed(AppError::Server(ServerError::IssueCommand(cmd))),
        ),
        CmdOutcome::Exited { success, stderr: _ } => {
            if success {
                Option::None
            } else {
                Option::Some(TaskStatus::Failed(AppError::Server(ServerError::CompressFile)))
            }
        },
    }
}

/// A path joined with a single separator.
pub open spec fn joined_path(dir: Seq<char>, name: Seq<char>) -> Seq<char> {
    dir + "/"@ + name
}

/// Joins a directory and a name exactly as [`joined_path`] states.
pub fn join_path(dir: &str, name: &str) -> (r: String)
    ensures
        r@ == joined_path(dir@, name@),
{
    let mut s = dir.to_owned();
    s.append("/");
    s.append(name);
    proof {
        assert(s@ =~= joined_path(dir@, name@));
    }
    s
}

/// The media artifact inside a token's working directory.
pub fn audio_file_path(user_dir: &str) -> (r: String)
    ensures
        r@ == joined_path(user_dir@, "audio.mp3"@),
{
    join_path(user_dir, "audio.mp3")
}

/// The result artifact inside a token's working directory.
pub fn summary_file_path(user_dir: &str) -> (r: String)
    ensures
        r@ == joined_path(user_dir@, "summary.txt"@),
{
    join_path(user_dir, "summary.txt")
}

/// The archive artifact inside a token's working directory.
pub fn archive_file_path(user_dir: &str) -> (r: String)
    ensures
        r@ == joined_path(user_dir@, "archive.zip"@),
{
    join_path(user_dir, "archive.zip")
}

/// Isolation law, file-system half: distinct tokens always get distinct
/// working directories under the same root, so no job can touch another's
/// files.
pub proof fn lemma_distinct_tokens_distinct_dirs(work_dir: Seq<char>, t1: Seq<char>, t2: Seq<char>)
    requires
        t1 != t2,
    ensures
        joined_path(work_dir, t1) != joined_path(work_dir, t2),
{
    reveal_strlit("/");
    let p1 = joined_path(work_dir, t1);
    let p2 = joined_path(work_dir, t2);
    if p1 == p2 {
        assert(p1.len() == work_dir.len() + 1 + t1.len());
        assert(t1.len() == t2.len());
        assert forall|i: int| 0 <= i < t1.len() implies t1[i] == t2[i] by {
            assert(p1[work_dir.len() + 1 + i] == t1[i]);
            assert(p2[work_dir.len() + 1 + i] == t2[i]);
        }
        assert(t1 =~= t2);
    }
}

/// Isolation law, registry half: writing or removing one token's entry
/// neither adds, removes, nor changes any other token's entry.
pub proof fn lemma_registry_isolation(
    m: Map<Seq<char>, TaskStatusView>,
    t1: Seq<char>,
    t2: Seq<char>,
    st: TaskStatusView,
)
    requires
        t1 != t2,
    ensures
        m.insert(t1, st).contains_key(t2) == m.contains_key(t2),
        m.contains_key(t2) ==> m.insert(t1, st)[t2] == m[t2],
        m.remove(t1).contains_key(t2) == m.contains_key(t2),
        m.contains_key(t2) ==> m.remove(t1)[t2] == m[t2],
{
}

/// Relies on `uuid::Uuid::new_v4` and its hyphenated `Display` form: a fresh
/// random version-4 identifier rendered as 36 characters.  Nothing further is
/// assumed of the value; in particular, uniqueness is not.
#[verifier::external_body]
fn fresh_token() -> (r: String)
    ensures
        r@.len() == 36,
{
    uuid::Uuid::new_v4().to_string()
}

/// The submission decision.  Idempotence: a token already present in the
/// registry is returned unchanged and no new pipeline is requested (the
/// second component is false, and the state is not touched); otherwise a
/// fresh token is minted and a pipeline launch is requested.
pub fn submit(state: &ServerState, req_uuid: String) -> (r: (String, bool))
    ensures
        r.1 == !state.task_status@.contains_key(req_uuid@),
        !r.1 ==> r.0@ == req_uuid@,
        r.1 ==> r.0@.len() == 36,
{
    if state.has_task(req_uuid.as_str()) {
        (req_uuid, false)
    } else {
        (fresh_token(), true)
    }
}

/// A status from which no further pipeline transition happens.
pub open spec fn terminal_status(s: TaskStatusView) -> bool {
    s is Done || s is Failed
}

/// What one poll does to the registry: a terminal entry is consumed, any
/// other registry content is left untouched.
pub open spec fn poll_next(m: Map<Seq<char>, TaskStatusView>, t: Seq<char>) -> Map<
    Seq<char>,
    TaskStatusView,
> {
    if m.contains_key(t) && terminal_status(m[t]) {
        m.remove(t)
    } else {
        m
    }
}

/// What a poll of token `t` against registry `m` observes: nothing, an
/// in-progress stage, or a terminal status delivered (and consumed) by this
/// very poll.
pub enum PollView {
    Unknown,
    InProgress(TaskStatusView),
    Delivered(TaskStatusView),
}

/// The observation a poll makes.
pub open spec fn poll_observation(m: Map<Seq<char>, TaskStatusView>, t: Seq<char>) -> PollView {
    if !m.contains_key(t) {
        PollView::Unknown
    } else if terminal_status(m[t]) {
        PollView::Delivered(m[t])
    } else {
        PollView::InProgress(m[t])
    }
}

/// What a poll decided: the token is unknown, the job is still in progress
/// (with the response to send), the job finished and its result file must be
/// read, or the job failed with the recorded error.
pub enum PollStep {
    NotFound(AppError),
    InProgress(PollStatusResp),
    NeedRead,
    Failed(AppError),
}

/// The poll decision.  Consumes a terminal entry in the same step that
/// observes it (single delivery); an unknown token is the caller's fault; an
/// in-progress entry is reported without mutation.
pub fn poll_step(state: &mut ServerState, uuid: &str) -> (r: PollStep)
    requires
        old(state).wf(),
    ensures
        final(state).wf(),
        final(state).work_dir == old(state).work_dir,
        final(state).task_status@ == poll_next(old(state).task_status@, uuid@),
        match r {
            PollStep::NotFound(e) => !old(state).task_status@.contains_key(uuid@) && e@
                == AppErrorView::Client(ClientErrorView::TokenNotExist(uuid@)),
            PollStep::InProgress(resp) => old(state).task_status@.contains_key(uuid@)
                && !terminal_status(old(state).task_status@[uuid@]) && resp.done == false
                && resp.stage@ == old(state).task_status@[uuid@] && resp.result is None,
            PollStep::NeedRead => old(state).task_status@.contains_key(uuid@) && old(
                state,
            ).task_status@[uuid@] is Done,
            PollStep::Failed(e) => old(state).task_status@.contains_key(uuid@) && old(
                state,
            ).task_status@[uuid@] == TaskStatusView::Failed(e@),
        },
        match r {
            PollStep::NotFound(_) => poll_observation(old(state).task_status@, uuid@)
                is Unknown,
            PollStep::InProgress(resp) => poll_observation(old(state).task_status@, uuid@)
                == PollView::InProgress(resp.stage@),
            PollStep::NeedRead => poll_observation(old(state).task_status@, uuid@)
                == PollView::Delivered(TaskStatusView::Done),
            PollStep::Failed(e) => poll_observation(old(state).task_status@, uuid@)
                == PollView::Delivered(TaskStatusView::Failed(e@)),
        },
{
    match state.get_task(uuid) {
        Option::None => PollStep::NotFound(
            AppError::Client(ClientError::TokenNotExist(uuid.to_owned())),
        ),
        Option::Some(TaskStatus::Download) => PollStep::InProgress(
            PollStatusResp { done: false, stage: TaskStatus::Download, result: Option::None },
        ),
        Option::Some(TaskStatus::Pending) => PollStep::InProgress(
            PollStatusResp { done: false, stage: TaskStatus::Pending, result: Option::None },
        ),
        Option::Some(TaskStatus::Done) => {
            state.remove_task(uuid);
            PollStep::NeedRead
        },
        Option::Some(TaskStatus::Failed(e)) => {
            state.remove_task(uuid);
            PollStep::Failed(e)
        },
    }
}

/// Finishes a poll that observed `Done`, from the result of reading the
/// summary artifact: a successful read is delivered as the final response; a
/// failed read is a server fault naming the unreadable path.  Either way the
/// registry entry was already consumed.
pub fn poll_finish(content: Option<String>, summary_path: String) -> (r: AppResult<
    PollStatusResp,
>)
    ensures
        match r {
            Result::Ok(resp) => content is Some && resp.done == true && resp.stage@
                == TaskStatusView::Done && resp.result == content,
            Result::Err(e) => content is None && e@ == AppErrorView::Server(
                ServerErrorView::ReadFile(summary_path@),
            ),
        },
{
    match content {
        Option::Some(text) => Result::Ok(
            PollStatusResp { done: true, stage: TaskStatus::Done, result: Option::Some(text) },
        ),
        Option::None => Result::Err(AppError::Server(ServerError::ReadFile(summary_path))),
    }
}

/// Single-delivery law: a poll that observes a terminal status delivers it
/// and consumes the entry, so the token is absent afterwards and a second
/// poll of the same token observes nothing and changes nothing further.
pub proof fn lemma_single_delivery(m: Map<Seq<char>, TaskStatusView>, t: Seq<char>)
    requires
        m.contains_key(t),
        terminal_status(m[t]),
    ensures
        poll_observation(m, t) == PollView::Delivered(m[t]),
        !poll_next(m, t).contains_key(t),
        poll_observation(poll_next(m, t), t) == PollView::Unknown,
        poll_next(poll_next(m, t), t) == poll_next(m, t),
{
}

/// Happy-path law: for a fresh token, a successful fetch advances the job to
/// `Pending`, a successful summarization to `Done`; the registry passes
/// through `Download`, `Pending`, `Done`, and the poll that observes `Done`
/// consumes the entry, leaving the registry exactly as before submission.
pub proof fn lemma_happy_path(
    m0: Map<Seq<char>, TaskStatusView>,
    t: Seq<char>,
    url: Seq<char>,
    fetch_cmd: Seq<char>,
    model_cmd: Seq<char>,
    fetch_err: Seq<char>,
    model_err: Seq<char>,
)
    requires
        !m0.contains_key(t),
    ensures
        after_fetch_spec(url, fetch_cmd, CmdOutcomeView::Exited { success: true, stderr: fetch_err })
            == (TaskStatusView::Pending, true),
        after_model_spec(model_cmd, CmdOutcomeView::Exited { success: true, stderr: model_err })
            == (TaskStatusView::Done, true),
        ({
            let m3 = m0.insert(t, TaskStatusView::Download).insert(t, TaskStatusView::Pending)
                .insert(t, TaskStatusView::Done);
            m3.contains_key(t) && poll_observation(m3, t) == PollView::Delivered(
                TaskStatusView::Done,
            ) && poll_next(m3, t) == m0 && !poll_next(m3, t).contains_key(t)
        }),
{
    let m3 = m0.insert(t, TaskStatusView::Download).insert(t, TaskStatusView::Pending).insert(
        t,
        TaskStatusView::Done,
    );
    assert(m3.remove(t) =~= m0);
}

/// What an archive request decided: the token has no working directory (the
/// caller's fault), the finished archive is ready to stream, the job had
/// failed (surface that error), or packaging should start now.
pub enum ArchiveStep {
    NotFound(AppError),
    Stream,
    Failed(AppError),
    StartCompress,
}

/// The archive decision, from the registry and the two file-system facts the
/// caller observed: whether the token's working directory exists and whether
/// the archive file already exists.  A present archive is streamed without
/// spawning anything; a recorded failure is surfaced instead of packaging an
/// incomplete result; otherwise packaging is initiated.
pub fn archive_step(
    state: &ServerState,
    uuid: &str,
    user_dir_exists: bool,
    archive_exists: bool,
) -> (r: ArchiveStep)
    requires
        state.wf(),
    ensures
        match r {
            ArchiveStep::NotFound(e) => !user_dir_exists && e@ == AppErrorView::Client(
                ClientErrorView::TokenNotExist(uuid@),
            ),
            ArchiveStep::Stream => user_dir_exists && archive_exists,
            ArchiveStep::Failed(e) => user_dir_exists && !archive_exists
                && state.task_status@.contains_key(uuid@) && state.task_status@[uuid@]
                == TaskStatusView::Failed(e@),
            ArchiveStep::StartCompress => user_dir_exists && !archive_exists && !(
            state.task_status@.contains_key(uuid@) && state.task_status@[uuid@] is Failed),
        },
{
    if !user_dir_exists {
        return ArchiveStep::NotFound(
            AppError::Client(ClientError::TokenNotExist(uuid.to_owned())),
        );
    }
    if archive_exists {
        return ArchiveStep::Stream;
    }
    match state.get_task(uuid) {
        Option::Some(TaskStatus::Failed(e)) => ArchiveStep::Failed(e),
        _ => ArchiveStep::StartCompress,
    }
}

} // verus!
