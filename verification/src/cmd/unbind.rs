use vstd::prelude::*;

use crate::cmd::binding::{binding_path, binding_path_of, outside_repository_message, repo_root, repo_root_of};
use crate::cmd::protocol::{
    LogLevel, Reply, Request, RequestView, Step, StepView, fail, log, log_view, perform, succeed,
    unexpected_reply, unexpected_reply_message,
};
use crate::failure::Failure;

verus! {

/// Removes the binding of the repository in the current directory.
pub struct Unbind;

/// How far an unbinding has come; the repository root and the binding
/// file travel with the later stages.
pub enum UnbindProgress {
    Start,
    FindingRepository,
    CheckingBinding(String, String),
    Removing(String),
    Reporting,
}

pub open spec fn unbound_message(root: Seq<char>) -> Seq<char> {
    "Unbound context from "@ + root
}

pub open spec fn nothing_bound_message() -> Seq<char> {
    "No context bound to this repository"@
}

impl Unbind {
    /// One step of the unbinding: the current directory must lie in a git
    /// working tree; a binding file at its root is removed, and the user is
    /// told whether there was one.
    pub fn execute(&self, progress: UnbindProgress, reply: Reply) -> (r: (UnbindProgress, Step))
        ensures
            progress is Start ==> r.0 is FindingRepository && r.1@ == StepView::Perform(RequestView::RepoRoot),
            progress is FindingRepository ==> match reply {
                Reply::MaybeText(Some(workdir)) => r.0 matches UnbindProgress::CheckingBinding(root, path)
                    && root@ == repo_root_of(workdir@) && path@ == binding_path_of(root@) && r.1@
                    == StepView::Perform(RequestView::FileExists { path: path@ }),
                Reply::MaybeText(None) => r.1@ == StepView::Fail(outside_repository_message()),
                Reply::Failed(e) => r.1@ == StepView::Fail(e.message@),
                _ => r.1@ == StepView::Fail(unexpected_reply_message()),
            },
            progress matches UnbindProgress::CheckingBinding(root, path) ==> match reply {
                Reply::Flag(true) => r.0 == UnbindProgress::Removing(root) && r.1@ == StepView::Perform(
                    RequestView::RemoveFile { path: path@ },
                ),
                Reply::Flag(false) => r.0 is Reporting && r.1@ == log_view(LogLevel::Info, nothing_bound_message()),
                Reply::Failed(e) => r.1@ == StepView::Fail(e.message@),
                _ => r.1@ == StepView::Fail(unexpected_reply_message()),
            },
            progress matches UnbindProgress::Removing(root) ==> match reply {
                Reply::Done => r.0 is Reporting && r.1@ == log_view(LogLevel::Info, unbound_message(root@)),
                Reply::Failed(e) => r.1@ == StepView::Fail(e.message@),
                _ => r.1@ == StepView::Fail(unexpected_reply_message()),
            },
            progress is Reporting ==> r.1@ == StepView::Succeed,
    {
        match progress {
            UnbindProgress::Start => (UnbindProgress::FindingRepository, perform(Request::RepoRoot)),
            UnbindProgress::FindingRepository => match reply {
                Reply::MaybeText(Some(workdir)) => {
                    let root = repo_root(workdir.as_str());
                    let path = binding_path(root.as_str());
                    let request = Request::FileExists { path: path.clone() };
                    (UnbindProgress::CheckingBinding(root, path), perform(request))
                },
                Reply::MaybeText(None) => (
                    UnbindProgress::Reporting,
                    fail(Failure::from_text("not inside a git repository")),
                ),
                Reply::Failed(e) => (UnbindProgress::Reporting, fail(e)),
                _ => (UnbindProgress::Reporting, unexpected_reply()),
            },
            UnbindProgress::CheckingBinding(root, path) => match reply {
                Reply::Flag(true) => (UnbindProgress::Removing(root), perform(Request::RemoveFile { path })),
                Reply::Flag(false) => (
                    UnbindProgress::Reporting,
                    log(LogLevel::Info, "No context bound to this repository".to_owned()),
                ),
                Reply::Failed(e) => (UnbindProgress::Reporting, fail(e)),
                _ => (UnbindProgress::Reporting, unexpected_reply()),
            },
            UnbindProgress::Removing(root) => match reply {
                Reply::Done => {
                    let mut message = "Unbound context from ".to_owned();
                    message.append(root.as_str());
                    (UnbindProgress::Reporting, log(LogLevel::Info, message))
                },
                Reply::Failed(e) => (UnbindProgress::Reporting, fail(e)),
                _ => (UnbindProgress::Reporting, unexpected_reply()),
            },
            UnbindProgress::Reporting => (UnbindProgress::Reporting, succeed()),
        }
    }
}

} // verus!
