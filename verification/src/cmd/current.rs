use vstd::prelude::*;

use crate::apply_context::{ApplyContext, ApplyContextView};
use crate::cmd::binding::{binding_path, binding_path_of, repo_root, repo_root_of};
use crate::cmd::protocol::{
    LogLevel, Reply, Request, RequestView, Step, StepView, fail, log, log_view, perform, succeed,
    unexpected_reply, unexpected_reply_message,
};
use crate::context::ContextView;
use crate::transport::transport_name;
use crate::vcs::vcs_name;

verus! {

/// Shows the active context and the context that the repository in the
/// current directory is bound to.
pub struct Current;

/// How far showing the current contexts has come.
pub enum CurrentProgress {
    Start,
    ReadingActive,
    ReadingContext(ApplyContext),
    ReportedActive,
    FindingRepository,
    CheckingBinding(String),
    ReadingBinding,
    Reporting,
}

pub open spec fn active_line(active: ApplyContextView, context: ContextView) -> Seq<char> {
    active.name + " ("@ + context.user + "@"@ + context.hostname + ", "@ + transport_name(context.transport)
        + ", "@ + vcs_name(active.vcs) + ")"@
}

pub open spec fn no_active_message() -> Seq<char> {
    "No active context"@
}

pub open spec fn bound_line(bound: ApplyContextView) -> Seq<char> {
    "Repo-bound context: "@ + bound.name + " ("@ + vcs_name(bound.vcs) + ")"@
}

impl Current {
    /// One step of showing the current contexts: the active one, if any,
    /// with its details; then the one bound to the repository, if the
    /// current directory lies in a git working tree with a binding file.
    pub fn execute(&self, progress: CurrentProgress, reply: Reply) -> (r: (CurrentProgress, Step))
        ensures
            progress is Start ==> r.0 is ReadingActive && r.1@ == StepView::Perform(RequestView::GetActive),
            progress is ReadingActive ==> match reply {
                Reply::Active(Some(a)) => r.0 == CurrentProgress::ReadingContext(a) && r.1@ == StepView::Perform(
                    RequestView::ReadContext { name: a.name@, vcs: a.vcs },
                ),
                Reply::Active(None) => r.0 is ReportedActive && r.1@ == log_view(LogLevel::Info, no_active_message()),
                Reply::Failed(e) => r.1@ == StepView::Fail(e.message@),
                _ => r.1@ == StepView::Fail(unexpected_reply_message()),
            },
            progress matches CurrentProgress::ReadingContext(a) ==> match reply {
                Reply::Context(c) => r.0 is ReportedActive && r.1@ == log_view(LogLevel::Info, active_line(a@, c@)),
                Reply::Failed(e) => r.1@ == StepView::Fail(e.message@),
                _ => r.1@ == StepView::Fail(unexpected_reply_message()),
            },
            progress is ReportedActive ==> r.0 is FindingRepository && r.1@ == StepView::Perform(RequestView::RepoRoot),
            progress is FindingRepository ==> match reply {
                Reply::MaybeText(Some(workdir)) => r.0 matches CurrentProgress::CheckingBinding(path)
                    && path@ == binding_path_of(repo_root_of(workdir@)) && r.1@ == StepView::Perform(
                    RequestView::FileExists { path: path@ },
                ),
                Reply::MaybeText(None) => r.1@ == StepView::Succeed,
                Reply::Failed(e) => r.1@ == StepView::Fail(e.message@),
                _ => r.1@ == StepView::Fail(unexpected_reply_message()),
            },
            progress matches CurrentProgress::CheckingBinding(path) ==> match reply {
                Reply::Flag(true) => r.0 is ReadingBinding && r.1@ == StepView::Perform(
                    RequestView::ReadBinding { path: path@ },
                ),
                Reply::Flag(false) => r.1@ == StepView::Succeed,
                Reply::Failed(e) => r.1@ == StepView::Fail(e.message@),
                _ => r.1@ == StepView::Fail(unexpected_reply_message()),
            },
            progress is ReadingBinding ==> match reply {
                Reply::Active(Some(b)) => r.0 is Reporting && r.1@ == log_view(LogLevel::Info, bound_line(b@)),
                Reply::Failed(e) => r.1@ == StepView::Fail(e.message@),
                _ => r.1@ == StepView::Fail(unexpected_reply_message()),
            },
            progress is Reporting ==> r.1@ == StepView::Succeed,
    {
        match progress {
            CurrentProgress::Start => (CurrentProgress::ReadingActive, perform(Request::GetActive)),
            CurrentProgress::ReadingActive => match reply {
                Reply::Active(Some(a)) => {
                    let request = Request::ReadContext { name: a.name.clone(), vcs: a.vcs };
                    (CurrentProgress::ReadingContext(a), perform(request))
                },
                Reply::Active(None) => (
                    CurrentProgress::ReportedActive,
                    log(LogLevel::Info, "No active context".to_owned()),
                ),
                Reply::Failed(e) => (CurrentProgress::Reporting, fail(e)),
                _ => (CurrentProgress::Reporting, unexpected_reply()),
            },
            CurrentProgress::ReadingContext(a) => match reply {
                Reply::Context(c) => {
                    let mut message = a.name.clone();
                    message.append(" (");
                    message.append(c.user.as_str());
                    message.append("@");
                    message.append(c.hostname.as_str());
                    message.append(", ");
                    message.append(c.transport.name());
                    message.append(", ");
                    message.append(a.vcs.name());
                    message.append(")");
                    (CurrentProgress::ReportedActive, log(LogLevel::Info, message))
                },
                Reply::Failed(e) => (CurrentProgress::Reporting, fail(e)),
                _ => (CurrentProgress::Reporting, unexpected_reply()),
            },
            CurrentProgress::ReportedActive => (CurrentProgress::FindingRepository, perform(Request::RepoRoot)),
            CurrentProgress::FindingRepository => match reply {
                Reply::MaybeText(Some(workdir)) => {
                    let root = repo_root(workdir.as_str());
                    let path = binding_path(root.as_str());
                    let request = Request::FileExists { path: path.clone() };
                    (CurrentProgress::CheckingBinding(path), perform(request))
                },
                Reply::MaybeText(None) => (CurrentProgress::Reporting, succeed()),
                Reply::Failed(e) => (CurrentProgress::Reporting, fail(e)),
                _ => (CurrentProgress::Reporting, unexpected_reply()),
            },
            CurrentProgress::CheckingBinding(path) => match reply {
                Reply::Flag(true) => (CurrentProgress::ReadingBinding, perform(Request::ReadBinding { path })),
                Reply::Flag(false) => (CurrentProgress::Reporting, succeed()),
                Reply::Failed(e) => (CurrentProgress::Reporting, fail(e)),
                _ => (CurrentProgress::Reporting, unexpected_reply()),
            },
            CurrentProgress::ReadingBinding => match reply {
                Reply::Active(Some(b)) => {
                    let mut message = "Repo-bound context: ".to_owned();
                    message.append(b.name.as_str());
                    message.append(" (");
                    message.append(b.vcs.name());
                    message.append(")");
                    (CurrentProgress::Reporting, log(LogLevel::Info, message))
                },
                Reply::Failed(e) => (CurrentProgress::Reporting, fail(e)),
                _ => (CurrentProgress::Reporting, unexpected_reply()),
            },
            CurrentProgress::Reporting => (CurrentProgress::Reporting, succeed()),
        }
    }
}

} // verus!
