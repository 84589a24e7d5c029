use vstd::prelude::*;

use crate::cmd::binding::{
    binding_content, binding_content_of, binding_path, binding_path_of, outside_repository_message,
    repo_root, repo_root_of,
};
use crate::cmd::protocol::{
    LogLevel, Reply, Request, RequestView, Step, StepView, fail, log, log_view, missing_context,
    missing_context_message, perform, succeed, unexpected_reply, unexpected_reply_message,
};
use crate::failure::Failure;
use crate::vcs::{Vcs, vcs_name};

verus! {

/// Binds the repository in the current directory to a saved context.
pub struct Bind {
    pub name: String,
    pub vcs: Vcs,
}

/// How far a binding has come; the repository root travels with the
/// later stages.
pub enum BindProgress {
    Start,
    CheckingExistence,
    FindingRepository,
    Writing(String),
    Reporting,
}

pub open spec fn bound_message(name: Seq<char>, vcs: Vcs, root: Seq<char>) -> Seq<char> {
    "Bound context '"@ + name + "' ("@ + vcs_name(vcs) + ") to "@ + root
}

impl Bind {
    pub fn new(name: String, vcs: Vcs) -> (b: Bind)
        ensures
            b.name == name,
            b.vcs == vcs,
    {
        Bind { name, vcs }
    }

    /// One step of the binding: the context must exist and the current
    /// directory must lie in a git working tree; then the binding file is
    /// written at the root of the tree.
    pub fn execute(&self, progress: BindProgress, reply: Reply) -> (r: (BindProgress, Step))
        ensures
            progress is Start ==> r.0 is CheckingExistence && r.1@ == StepView::Perform(
                RequestView::ContextExists { name: self.name@, vcs: self.vcs },
            ),
            progress is CheckingExistence ==> match reply {
                Reply::Flag(true) => r.0 is FindingRepository && r.1@ == StepView::Perform(RequestView::RepoRoot),
                Reply::Flag(false) => r.1@ == StepView::Fail(missing_context_message(self.name@)),
                Reply::Failed(e) => r.1@ == StepView::Fail(e.message@),
                _ => r.1@ == StepView::Fail(unexpected_reply_message()),
            },
            progress is FindingRepository ==> match reply {
                Reply::MaybeText(Some(workdir)) => r.0 matches BindProgress::Writing(root) && root@
                    == repo_root_of(workdir@) && r.1@ == StepView::Perform(
                    RequestView::WriteFile {
                        path: binding_path_of(repo_root_of(workdir@)),
                        content: binding_content_of(self.name@, self.vcs),
                    },
                ),
                Reply::MaybeText(None) => r.1@ == StepView::Fail(outside_repository_message()),
                Reply::Failed(e) => r.1@ == StepView::Fail(e.message@),
                _ => r.1@ == StepView::Fail(unexpected_reply_message()),
            },
            progress matches BindProgress::Writing(root) ==> match reply {
                Reply::Done => r.0 is Reporting && r.1@ == log_view(
                    LogLevel::Info,
                    bound_message(self.name@, self.vcs, root@),
                ),
                Reply::Failed(e) => r.1@ == StepView::Fail(e.message@),
                _ => r.1@ == StepView::Fail(unexpected_reply_message()),
            },
            progress is Reporting ==> r.1@ == StepView::Succeed,
    {
        match progress {
            BindProgress::Start => (
                BindProgress::CheckingExistence,
                perform(Request::ContextExists { name: self.name.clone(), vcs: self.vcs }),
            ),
            BindProgress::CheckingExistence => match reply {
                Reply::Flag(true) => (BindProgress::FindingRepository, perform(Request::RepoRoot)),
                Reply::Flag(false) => (BindProgress::Reporting, missing_context(self.name.as_str())),
                Reply::Failed(e) => (BindProgress::Reporting, fail(e)),
                _ => (BindProgress::Reporting, unexpected_reply()),
            },
            BindProgress::FindingRepository => match reply {
                Reply::MaybeText(Some(workdir)) => {
                    let root = repo_root(workdir.as_str());
                    let request = Request::WriteFile {
                        path: binding_path(root.as_str()),
                        content: binding_content(self.name.as_str(), self.vcs),
                    };
                    (BindProgress::Writing(root), perform(request))
                },
                Reply::MaybeText(None) => (
                    BindProgress::Reporting,
                    fail(Failure::from_text("not inside a git repository")),
                ),
                Reply::Failed(e) => (BindProgress::Reporting, fail(e)),
                _ => (BindProgress::Reporting, unexpected_reply()),
            },
            BindProgress::Writing(root) => match reply {
                Reply::Done => {
                    let mut message = "Bound context '".to_owned();
                    message.append(self.name.as_str());
                    message.append("' (");
                    message.append(self.vcs.name());
                    message.append(") to ");
                    message.append(root.as_str());
                    (BindProgress::Reporting, log(LogLevel::Info, message))
                },
                Reply::Failed(e) => (BindProgress::Reporting, fail(e)),
                _ => (BindProgress::Reporting, unexpected_reply()),
            },
            BindProgress::Reporting => (BindProgress::Reporting, succeed()),
        }
    }
}

} // verus!
