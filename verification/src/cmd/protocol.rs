use vstd::prelude::*;

use crate::apply_context::{ApplyContext, ApplyContextView};
use crate::context::{Context, ContextView};
use crate::failure::Failure;
use crate::storage::{ContextList, ContextListView};
use crate::vcs::Vcs;

verus! {

/// How loudly a message is shown.
#[derive(Clone, Copy, Debug, PartialEq, Eq, Structural)]
pub enum LogLevel {
    Info,
    Warn,
}

/// Outside work that a command asks the program around the library to do:
/// reading and writing the saved contexts, talking to the VCS command line
/// configuration and API, reading the terminal or the repository, and
/// showing messages. The program answers each request with a `Reply`.
#[derive(Debug)]
pub enum Request {
    ContextExists { name: String, vcs: Vcs },
    ReadContext { name: String, vcs: Vcs },
    WriteContext { name: String, vcs: Vcs, context: Context },
    DeleteContext { name: String, vcs: Vcs },
    ReadToken { name: String, vcs: Vcs },
    WriteToken { name: String, vcs: Vcs, token: String },
    GetActive,
    SetActive { active: ApplyContext },
    ClearActive,
    ListContexts,
    WriteHostCredentials { vcs: Vcs, hostname: String, user: String, token: String },
    SetDefaultHost { vcs: Vcs, hostname: String },
    AuthStatus { vcs: Vcs, hostname: String },
    AuthSwitch { vcs: Vcs, hostname: String, user: String },
    ApiUser { vcs: Vcs, hostname: String },
    ReadEnv { variable: String },
    ReadLine,
    RepoRoot,
    FileExists { path: String },
    ReadBinding { path: String },
    WriteFile { path: String, content: String },
    RemoveFile { path: String },
    Log { level: LogLevel, message: String },
}

/// The content of a request.
pub enum RequestView {
    ContextExists { name: Seq<char>, vcs: Vcs },
    ReadContext { name: Seq<char>, vcs: Vcs },
    WriteContext { name: Seq<char>, vcs: Vcs, context: ContextView },
    DeleteContext { name: Seq<char>, vcs: Vcs },
    ReadToken { name: Seq<char>, vcs: Vcs },
    WriteToken { name: Seq<char>, vcs: Vcs, token: Seq<char> },
    GetActive,
    SetActive { active: ApplyContextView },
    ClearActive,
    ListContexts,
    WriteHostCredentials { vcs: Vcs, hostname: Seq<char>, user: Seq<char>, token: Seq<char> },
    SetDefaultHost { vcs: Vcs, hostname: Seq<char> },
    AuthStatus { vcs: Vcs, hostname: Seq<char> },
    AuthSwitch { vcs: Vcs, hostname: Seq<char>, user: Seq<char> },
    ApiUser { vcs: Vcs, hostname: Seq<char> },
    ReadEnv { variable: Seq<char> },
    ReadLine,
    RepoRoot,
    FileExists { path: Seq<char> },
    ReadBinding { path: Seq<char> },
    WriteFile { path: Seq<char>, content: Seq<char> },
    RemoveFile { path: Seq<char> },
    Log { level: LogLevel, message: Seq<char> },
}

impl View for Request {
    type V = RequestView;

    open spec fn view(&self) -> RequestView {
        match self {
            Request::ContextExists { name, vcs } => RequestView::ContextExists { name: name@, vcs: *vcs },
            Request::ReadContext { name, vcs } => RequestView::ReadContext { name: name@, vcs: *vcs },
            Request::WriteContext { name, vcs, context } => RequestView::WriteContext {
                name: name@,
                vcs: *vcs,
                context: context@,
            },
            Request::DeleteContext { name, vcs } => RequestView::DeleteContext { name: name@, vcs: *vcs },
            Request::ReadToken { name, vcs } => RequestView::ReadToken { name: name@, vcs: *vcs },
            Request::WriteToken { name, vcs, token } => RequestView::WriteToken {
                name: name@,
                vcs: *vcs,
                token: token@,
            },
            Request::GetActive => RequestView::GetActive,
            Request::SetActive { active } => RequestView::SetActive { active: active@ },
            Request::ClearActive => RequestView::ClearActive,
            Request::ListContexts => RequestView::ListContexts,
            Request::WriteHostCredentials { vcs, hostname, user, token } => RequestView::WriteHostCredentials {
                vcs: *vcs,
                hostname: hostname@,
                user: user@,
                token: token@,
            },
            Request::SetDefaultHost { vcs, hostname } => RequestView::SetDefaultHost {
                vcs: *vcs,
                hostname: hostname@,
            },
            Request::AuthStatus { vcs, hostname } => RequestView::AuthStatus { vcs: *vcs, hostname: hostname@ },
            Request::AuthSwitch { vcs, hostname, user } => RequestView::AuthSwitch {
                vcs: *vcs,
                hostname: hostname@,
                user: user@,
            },
            Request::ApiUser { vcs, hostname } => RequestView::ApiUser { vcs: *vcs, hostname: hostname@ },
            Request::ReadEnv { variable } => RequestView::ReadEnv { variable: variable@ },
            Request::ReadLine => RequestView::ReadLine,
            Request::RepoRoot => RequestView::RepoRoot,
            Request::FileExists { path } => RequestView::FileExists { path: path@ },
            Request::ReadBinding { path } => RequestView::ReadBinding { path: path@ },
            Request::WriteFile { path, content } => RequestView::WriteFile { path: path@, content: content@ },
            Request::RemoveFile { path } => RequestView::RemoveFile { path: path@ },
            Request::Log { level, message } => RequestView::Log { level: *level, message: message@ },
        }
    }
}

/// What an environment variable holds.
#[derive(Debug)]
pub enum EnvValue {
    Present(String),
    NotPresent,
    /// The variable holds bytes that are not Unicode; the text shows them.
    NotUnicode(String),
}

/// The program's answer to a request.
#[derive(Debug)]
pub enum Reply {
    /// No request was made yet: the command is starting.
    Started,
    Done,
    Flag(bool),
    Text(String),
    MaybeText(Option<String>),
    Context(Context),
    Active(Option<ApplyContext>),
    Contexts(ContextList),
    Env(EnvValue),
    Failed(Failure),
}

/// What a command does next: ask for outside work, or finish.
#[derive(Debug)]
pub enum Step {
    Perform(Request),
    Finish(Result<(), Failure>),
}

/// The content of a step.
pub enum StepView {
    Perform(RequestView),
    Fail(Seq<char>),
    Succeed,
}

impl View for Step {
    type V = StepView;

    open spec fn view(&self) -> StepView {
        match self {
            Step::Perform(r) => StepView::Perform(r@),
            Step::Finish(Ok(())) => StepView::Succeed,
            Step::Finish(Err(e)) => StepView::Fail(e.message@),
        }
    }
}

/// The message of a command that is answered with a reply that does not
/// fit its request.
pub open spec fn unexpected_reply_message() -> Seq<char> {
    "unexpected reply to a request"@
}

/// The message that refuses a command on a context that does not exist.
pub open spec fn missing_context_message(name: Seq<char>) -> Seq<char> {
    "context '"@ + name + "' does not exist"@
}

/// Whether a request changes the saved contexts, their tokens or the
/// active context.
pub open spec fn writes_storage(request: RequestView) -> bool {
    match request {
        RequestView::WriteContext { .. } => true,
        RequestView::DeleteContext { .. } => true,
        RequestView::WriteToken { .. } => true,
        RequestView::SetActive { .. } => true,
        RequestView::ClearActive => true,
        _ => false,
    }
}

/// Whether a request changes the configuration of a VCS command line.
pub open spec fn writes_vcs_configuration(request: RequestView) -> bool {
    match request {
        RequestView::WriteHostCredentials { .. } => true,
        RequestView::SetDefaultHost { .. } => true,
        RequestView::AuthSwitch { .. } => true,
        _ => false,
    }
}

/// Whether a request changes a file of the repository.
pub open spec fn writes_repository(request: RequestView) -> bool {
    match request {
        RequestView::WriteFile { .. } => true,
        RequestView::RemoveFile { .. } => true,
        _ => false,
    }
}

/// Whether a step asks for any change outside the program.
pub open spec fn step_writes(step: StepView) -> bool {
    step matches StepView::Perform(request) && (writes_storage(request) || writes_vcs_configuration(request)
        || writes_repository(request))
}

/// Whether a step ends the command with a failure other than the one that
/// refuses a reply that does not fit its request.
pub open spec fn fails_on_answer(step: StepView) -> bool {
    step matches StepView::Fail(message) && message != unexpected_reply_message()
}

/// Whether the stages `progress`, the replies `replies` and the steps
/// `steps` make a run of a command whose single steps are described by
/// `moves` (its stage and reply, then its next stage and step): the run
/// starts at `start`, each step follows from the stage before it and the
/// reply it was given, and every step but the last asks for work to be
/// done, so the run stops at its first finishing step.
pub open spec fn is_run<P>(
    moves: spec_fn(P, Reply, (P, Step)) -> bool,
    start: P,
    progress: Seq<P>,
    replies: Seq<Reply>,
    steps: Seq<Step>,
) -> bool {
    &&& progress.len() == steps.len() + 1
    &&& replies.len() == steps.len()
    &&& progress[0] == start
    &&& forall|i: int| 0 <= i < steps.len() ==> #[trigger] moves(progress[i], replies[i], (progress[i + 1], steps[i]))
    &&& forall|i: int| 0 <= i < steps.len() - 1 ==> (#[trigger] steps[i])@ is Perform
}

/// Whether a run has ended in success.
pub open spec fn run_succeeded(steps: Seq<Step>) -> bool {
    steps.len() > 0 && steps.last()@ == StepView::Succeed
}

/// Whether some step of a run asks for `request`.
pub open spec fn run_requests(steps: Seq<Step>, request: RequestView) -> bool {
    exists|i: int| 0 <= i < steps.len() && (#[trigger] steps[i])@ == StepView::Perform(request)
}

/// A log step.
pub open spec fn log_view(level: LogLevel, message: Seq<char>) -> StepView {
    StepView::Perform(RequestView::Log { level, message })
}

pub fn perform(request: Request) -> (s: Step)
    ensures
        s@ == StepView::Perform(request@),
{
    Step::Perform(request)
}

pub fn log(level: LogLevel, message: String) -> (s: Step)
    ensures
        s@ == log_view(level, message@),
{
    Step::Perform(Request::Log { level, message })
}

pub fn fail(failure: Failure) -> (s: Step)
    ensures
        s@ == StepView::Fail(failure.message@),
{
    Step::Finish(Err(failure))
}

pub fn succeed() -> (s: Step)
    ensures
        s@ == StepView::Succeed,
{
    Step::Finish(Ok(()))
}

pub fn unexpected_reply() -> (s: Step)
    ensures
        s@ == StepView::Fail(unexpected_reply_message()),
{
    Step::Finish(Err(Failure::from_text("unexpected reply to a request")))
}

pub fn missing_context(name: &str) -> (s: Step)
    ensures
        s@ == StepView::Fail(missing_context_message(name@)),
{
    let mut message = "context '".to_owned();
    message.append(name);
    message.append("' does not exist");
    Step::Finish(Err(Failure::new(message)))
}

} // verus!
