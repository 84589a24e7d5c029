use vstd::prelude::*;

use crate::apply_context::{is_active_context, names_context};
use crate::cmd::protocol::{
    LogLevel, Reply, Request, RequestView, Step, StepView, fail, log, log_view, missing_context,
    missing_context_message, perform, step_writes, succeed, is_run, run_requests, run_succeeded, unexpected_reply, unexpected_reply_message,
};
use crate::apply_context::ApplyContext;
use crate::vcs::Vcs;

verus! {

/// Deletes a saved context and its stored token, and clears the active
/// context when it is the one deleted.
pub struct Delete {
    pub name: String,
    pub vcs: Vcs,
}

/// How far a deletion has come.
pub enum DeleteProgress {
    Start,
    CheckingExistence,
    Deleting,
    CheckingActive,
    ClearingActive,
    Reporting,
}

pub open spec fn deleted_message(name: Seq<char>) -> Seq<char> {
    "Deleted context '"@ + name + "'"@
}

impl Delete {
    pub fn new(name: String, vcs: Vcs) -> (d: Delete)
        ensures
            d.name == name,
            d.vcs == vcs,
    {
        Delete { name, vcs }
    }

    fn report(&self) -> (s: Step)
        ensures
            s@ == log_view(LogLevel::Info, deleted_message(self.name@)),
    {
        let mut message = "Deleted context '".to_owned();
        message.append(self.name.as_str());
        message.append("'");
        log(LogLevel::Info, message)
    }

    /// One step of the deletion: the context must exist; then its files go,
    /// the active context is cleared when it is the one deleted, and the
    /// deletion is reported.
    pub fn execute(&self, progress: DeleteProgress, reply: Reply) -> (r: (DeleteProgress, Step))
        ensures
            progress is Start ==> r.0 is CheckingExistence && r.1@ == StepView::Perform(
                RequestView::ContextExists { name: self.name@, vcs: self.vcs },
            ),
            progress is CheckingExistence ==> match reply {
                Reply::Flag(true) => r.0 is Deleting && r.1@ == StepView::Perform(
                    RequestView::DeleteContext { name: self.name@, vcs: self.vcs },
                ),
                Reply::Flag(false) => r.1@ == StepView::Fail(missing_context_message(self.name@)),
                Reply::Failed(e) => r.1@ == StepView::Fail(e.message@),
                _ => r.1@ == StepView::Fail(unexpected_reply_message()),
            },
            progress is Deleting ==> match reply {
                Reply::Done => r.0 is CheckingActive && r.1@ == StepView::Perform(RequestView::GetActive),
                Reply::Failed(e) => r.1@ == StepView::Fail(e.message@),
                _ => r.1@ == StepView::Fail(unexpected_reply_message()),
            },
            progress is CheckingActive ==> match reply {
                Reply::Active(active) => if names_context(active, self.name@, self.vcs) {
                    r.0 is ClearingActive && r.1@ == StepView::Perform(RequestView::ClearActive)
                } else {
                    r.0 is Reporting && r.1@ == log_view(LogLevel::Info, deleted_message(self.name@))
                },
                Reply::Failed(e) => r.1@ == StepView::Fail(e.message@),
                _ => r.1@ == StepView::Fail(unexpected_reply_message()),
            },
            progress is ClearingActive ==> match reply {
                Reply::Done => r.0 is Reporting && r.1@ == log_view(LogLevel::Info, deleted_message(self.name@)),
                Reply::Failed(e) => r.1@ == StepView::Fail(e.message@),
                _ => r.1@ == StepView::Fail(unexpected_reply_message()),
            },
            progress is Reporting ==> r.1@ == StepView::Succeed,
    {
        match progress {
            DeleteProgress::Start => (
                DeleteProgress::CheckingExistence,
                perform(Request::ContextExists { name: self.name.clone(), vcs: self.vcs }),
            ),
            DeleteProgress::CheckingExistence => match reply {
                Reply::Flag(true) => (
                    DeleteProgress::Deleting,
                    perform(Request::DeleteContext { name: self.name.clone(), vcs: self.vcs }),
                ),
                Reply::Flag(false) => (DeleteProgress::Reporting, missing_context(self.name.as_str())),
                Reply::Failed(e) => (DeleteProgress::Reporting, fail(e)),
                _ => (DeleteProgress::Reporting, unexpected_reply()),
            },
            DeleteProgress::Deleting => match reply {
                Reply::Done => (DeleteProgress::CheckingActive, perform(Request::GetActive)),
                Reply::Failed(e) => (DeleteProgress::Reporting, fail(e)),
                _ => (DeleteProgress::Reporting, unexpected_reply()),
            },
            DeleteProgress::CheckingActive => match reply {
                Reply::Active(active) => if is_active_context(&active, self.name.as_str(), self.vcs) {
                    (DeleteProgress::ClearingActive, perform(Request::ClearActive))
                } else {
                    (DeleteProgress::Reporting, self.report())
                },
                Reply::Failed(e) => (DeleteProgress::Reporting, fail(e)),
                _ => (DeleteProgress::Reporting, unexpected_reply()),
            },
            DeleteProgress::ClearingActive => match reply {
                Reply::Done => (DeleteProgress::Reporting, self.report()),
                Reply::Failed(e) => (DeleteProgress::Reporting, fail(e)),
                _ => (DeleteProgress::Reporting, unexpected_reply()),
            },
            DeleteProgress::Reporting => (DeleteProgress::Reporting, succeed()),
        }
    }
}

/// A deletion removes the context named and nothing else, and clears the
/// active context exactly when the active context is the one deleted.
pub proof fn law_delete_clears_only_its_own_activity(
    command: Delete,
    progress: DeleteProgress,
    reply: Reply,
    r: (DeleteProgress, Step),
)
    requires
        call_ensures(Delete::execute, (&command, progress, reply), r),
    ensures
        step_writes(r.1@) ==> r.1@ == StepView::Perform(RequestView::DeleteContext { name: command.name@, vcs: command.vcs })
            || r.1@ == StepView::Perform(RequestView::ClearActive),
        r.1@ == StepView::Perform(RequestView::ClearActive) ==> ({
            &&& progress is CheckingActive
            &&& reply matches Reply::Active(active)
            &&& names_context(active, command.name@, command.vcs)
        }),
        progress is CheckingActive ==> (reply matches Reply::Active(active) ==> (r.1@ == StepView::Perform(
            RequestView::ClearActive,
        ) <==> names_context(active, command.name@, command.vcs))),
{
}

/// The single steps of a deletion, as its contract describes them.
pub open spec fn delete_moves(command: Delete) -> spec_fn(DeleteProgress, Reply, (DeleteProgress, Step)) -> bool {
    |progress: DeleteProgress, reply: Reply, result: (DeleteProgress, Step)|
        call_ensures(Delete::execute, (&command, progress, reply), result)
}

/// Whether a run has asked for the active context and, on the answer,
/// asked to clear it exactly when it is the context deleted.
pub open spec fn run_settles_active(command: Delete, progress: Seq<DeleteProgress>, replies: Seq<Reply>, steps: Seq<Step>) -> bool {
    exists|i: int|
        0 <= i < steps.len() && progress[i] is CheckingActive && replies[i] is Active && ((#[trigger] steps[i])@
            == StepView::Perform(RequestView::ClearActive) <==> names_context(
            replies[i]->Active_0,
            command.name@,
            command.vcs,
        ))
}

proof fn lemma_delete_run_history(
    command: Delete,
    progress: Seq<DeleteProgress>,
    replies: Seq<Reply>,
    steps: Seq<Step>,
    j: int,
)
    requires
        is_run(delete_moves(command), DeleteProgress::Start, progress, replies, steps),
        0 <= j < steps.len(),
        progress[j] is Deleting || progress[j] is CheckingActive || progress[j] is ClearingActive
            || progress[j] is Reporting,
    ensures
        run_requests(steps, RequestView::DeleteContext { name: command.name@, vcs: command.vcs }),
        progress[j] is ClearingActive || progress[j] is Reporting ==> run_settles_active(command, progress, replies, steps),
    decreases j,
{
    let moves = delete_moves(command);
    let prev = j - 1;
    if j == 0 {
        assert(progress[0] == DeleteProgress::Start);
    } else {
        assert(moves(progress[prev], replies[prev], (progress[prev + 1], steps[prev])));
        assert(steps[prev]@ is Perform);
        if progress[prev] is Deleting || progress[prev] is CheckingActive || progress[prev] is ClearingActive
            || progress[prev] is Reporting {
            lemma_delete_run_history(command, progress, replies, steps, prev);
        } else {
            assert(progress[prev] is CheckingExistence);
        }
    }
}

/// A whole deletion: it changes nothing but the context named and, when
/// it is the active context, the active context; when it succeeds it has
/// asked to remove the context's directory (which holds its configuration
/// and its token) and, having asked for the active context, to clear it
/// exactly when it is the context deleted.
pub proof fn law_delete_run(command: Delete, progress: Seq<DeleteProgress>, replies: Seq<Reply>, steps: Seq<Step>)
    requires
        is_run(delete_moves(command), DeleteProgress::Start, progress, replies, steps),
    ensures
        forall|i: int|
            0 <= i < steps.len() && step_writes((#[trigger] steps[i])@) ==> steps[i]@ == StepView::Perform(
                RequestView::DeleteContext { name: command.name@, vcs: command.vcs },
            ) || (steps[i]@ == StepView::Perform(RequestView::ClearActive) && replies[i] is Active && names_context(
                replies[i]->Active_0,
                command.name@,
                command.vcs,
            )),
        run_succeeded(steps) ==> run_requests(steps, RequestView::DeleteContext { name: command.name@, vcs: command.vcs })
            && run_settles_active(command, progress, replies, steps),
{
    let moves = delete_moves(command);
    assert forall|i: int| 0 <= i < steps.len() && step_writes((#[trigger] steps[i])@) implies steps[i]@
        == StepView::Perform(RequestView::DeleteContext { name: command.name@, vcs: command.vcs }) || (steps[i]@
        == StepView::Perform(RequestView::ClearActive) && replies[i] is Active && names_context(
        replies[i]->Active_0,
        command.name@,
        command.vcs,
    )) by {
        assert(moves(progress[i], replies[i], (progress[i + 1], steps[i])));
        law_delete_clears_only_its_own_activity(command, progress[i], replies[i], (progress[i + 1], steps[i]));
    }
    if run_succeeded(steps) {
        let last = steps.len() - 1;
        assert(moves(progress[last], replies[last], (progress[last + 1], steps[last])));
        assert(progress[last] is Reporting);
        lemma_delete_run_history(command, progress, replies, steps, last);
    }
}

} // verus!
