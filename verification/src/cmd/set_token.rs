use vstd::prelude::*;

use crate::cmd::protocol::{
    LogLevel, Reply, is_run, run_succeeded, step_writes, Request, RequestView, Step, StepView, fail, log, log_view, missing_context,
    missing_context_message, perform, succeed, unexpected_reply, unexpected_reply_message,
};
use crate::text::{trim, trimmed};
use crate::vcs::Vcs;

verus! {

/// Stores a token for a saved context, read from the terminal.
pub struct SetToken {
    pub name: String,
    pub vcs: Vcs,
}

/// How far storing a token has come.
pub enum SetTokenProgress {
    Start,
    CheckingExistence,
    Prompting,
    ReadingToken,
    Writing,
    Reporting,
}

pub open spec fn prompt_message(name: Seq<char>) -> Seq<char> {
    "Paste the token for "@ + name + ": "@
}

pub open spec fn stored_message(name: Seq<char>) -> Seq<char> {
    "Stored token for context '"@ + name + "'"@
}

impl SetToken {
    pub fn new(name: String, vcs: Vcs) -> (s: SetToken)
        ensures
            s.name == name,
            s.vcs == vcs,
    {
        SetToken { name, vcs }
    }

    /// One step of storing a token: the context must exist; the user is
    /// asked for the token, and the line read, without surrounding white
    /// space, is stored.
    pub fn execute(&self, progress: SetTokenProgress, reply: Reply) -> (r: (SetTokenProgress, Step))
        ensures
            progress is Start ==> r.0 is CheckingExistence && r.1@ == StepView::Perform(
                RequestView::ContextExists { name: self.name@, vcs: self.vcs },
            ),
            progress is CheckingExistence ==> match reply {
                Reply::Flag(true) => r.0 is Prompting && r.1@ == log_view(LogLevel::Info, prompt_message(self.name@)),
                Reply::Flag(false) => r.1@ == StepView::Fail(missing_context_message(self.name@)),
                Reply::Failed(e) => r.1@ == StepView::Fail(e.message@),
                _ => r.1@ == StepView::Fail(unexpected_reply_message()),
            },
            progress is Prompting ==> r.0 is ReadingToken && r.1@ == StepView::Perform(RequestView::ReadLine),
            progress is ReadingToken ==> match reply {
                Reply::Text(line) => r.0 is Writing && r.1@ == StepView::Perform(
                    RequestView::WriteToken { name: self.name@, vcs: self.vcs, token: trimmed(line@) },
                ),
                Reply::Failed(e) => r.1@ == StepView::Fail(e.message@),
                _ => r.1@ == StepView::Fail(unexpected_reply_message()),
            },
            progress is Writing ==> match reply {
                Reply::Done => r.0 is Reporting && r.1@ == log_view(LogLevel::Info, stored_message(self.name@)),
                Reply::Failed(e) => r.1@ == StepView::Fail(e.message@),
                _ => r.1@ == StepView::Fail(unexpected_reply_message()),
            },
            progress is Reporting ==> r.1@ == StepView::Succeed,
    {
        match progress {
            SetTokenProgress::Start => (
                SetTokenProgress::CheckingExistence,
                perform(Request::ContextExists { name: self.name.clone(), vcs: self.vcs }),
            ),
            SetTokenProgress::CheckingExistence => match reply {
                Reply::Flag(true) => {
                    let mut message = "Paste the token for ".to_owned();
                    message.append(self.name.as_str());
                    message.append(": ");
                    (SetTokenProgress::Prompting, log(LogLevel::Info, message))
                },
                Reply::Flag(false) => (SetTokenProgress::Reporting, missing_context(self.name.as_str())),
                Reply::Failed(e) => (SetTokenProgress::Reporting, fail(e)),
                _ => (SetTokenProgress::Reporting, unexpected_reply()),
            },
            SetTokenProgress::Prompting => (SetTokenProgress::ReadingToken, perform(Request::ReadLine)),
            SetTokenProgress::ReadingToken => match reply {
                Reply::Text(line) => {
                    let token = trim(line.as_str());
                    (
                        SetTokenProgress::Writing,
                        perform(Request::WriteToken { name: self.name.clone(), vcs: self.vcs, token }),
                    )
                },
                Reply::Failed(e) => (SetTokenProgress::Reporting, fail(e)),
                _ => (SetTokenProgress::Reporting, unexpected_reply()),
            },
            SetTokenProgress::Writing => match reply {
                Reply::Done => {
                    let mut message = "Stored token for context '".to_owned();
                    message.append(self.name.as_str());
                    message.append("'");
                    (SetTokenProgress::Reporting, log(LogLevel::Info, message))
                },
                Reply::Failed(e) => (SetTokenProgress::Reporting, fail(e)),
                _ => (SetTokenProgress::Reporting, unexpected_reply()),
            },
            SetTokenProgress::Reporting => (SetTokenProgress::Reporting, succeed()),
        }
    }
}

/// Storing a token changes nothing but the token of the context named,
/// and stores there exactly the line read, without its surrounding white
/// space.
pub proof fn law_set_token_stores_only_the_trimmed_line(
    command: SetToken,
    progress: SetTokenProgress,
    reply: Reply,
    r: (SetTokenProgress, Step),
)
    requires
        call_ensures(SetToken::execute, (&command, progress, reply), r),
    ensures
        step_writes(r.1@) ==> ({
            &&& progress is ReadingToken
            &&& reply matches Reply::Text(line)
            &&& r.1@ == StepView::Perform(
                RequestView::WriteToken { name: command.name@, vcs: command.vcs, token: trimmed(line@) },
            )
        }),
{
}

/// The single steps of storing a token, as its contract describes them.
pub open spec fn set_token_moves(command: SetToken) -> spec_fn(SetTokenProgress, Reply, (SetTokenProgress, Step)) -> bool {
    |progress: SetTokenProgress, reply: Reply, result: (SetTokenProgress, Step)|
        call_ensures(SetToken::execute, (&command, progress, reply), result)
}

/// Whether some step of a run stores, as the token of the context, the
/// line given to it without its surrounding white space.
pub open spec fn run_stores_read_line(command: SetToken, replies: Seq<Reply>, steps: Seq<Step>) -> bool {
    exists|i: int|
        0 <= i < steps.len() && replies[i] is Text && (#[trigger] steps[i])@ == StepView::Perform(
            RequestView::WriteToken { name: command.name@, vcs: command.vcs, token: trimmed(replies[i]->Text_0@) },
        )
}

proof fn lemma_set_token_run_stores(
    command: SetToken,
    progress: Seq<SetTokenProgress>,
    replies: Seq<Reply>,
    steps: Seq<Step>,
    j: int,
)
    requires
        is_run(set_token_moves(command), SetTokenProgress::Start, progress, replies, steps),
        0 <= j < steps.len(),
        progress[j] is Writing || progress[j] is Reporting,
    ensures
        run_stores_read_line(command, replies, steps),
    decreases j,
{
    let moves = set_token_moves(command);
    let prev = j - 1;
    if j == 0 {
        assert(progress[0] == SetTokenProgress::Start);
    } else {
        assert(moves(progress[prev], replies[prev], (progress[prev + 1], steps[prev])));
        assert(steps[prev]@ is Perform);
        if progress[prev] is Writing || progress[prev] is Reporting {
            lemma_set_token_run_stores(command, progress, replies, steps, prev);
        } else {
            assert(progress[prev] is ReadingToken);
        }
    }
}

/// A whole run of storing a token: it changes nothing but the token of the
/// context named, always to a line it was given without its surrounding
/// white space, and when it succeeds it has stored such a line.
pub proof fn law_set_token_run(
    command: SetToken,
    progress: Seq<SetTokenProgress>,
    replies: Seq<Reply>,
    steps: Seq<Step>,
)
    requires
        is_run(set_token_moves(command), SetTokenProgress::Start, progress, replies, steps),
    ensures
        forall|i: int|
            0 <= i < steps.len() && step_writes((#[trigger] steps[i])@) ==> replies[i] is Text && steps[i]@
                == StepView::Perform(
                RequestView::WriteToken { name: command.name@, vcs: command.vcs, token: trimmed(replies[i]->Text_0@) },
            ),
        run_succeeded(steps) ==> run_stores_read_line(command, replies, steps),
{
    let moves = set_token_moves(command);
    assert forall|i: int| 0 <= i < steps.len() && step_writes((#[trigger] steps[i])@) implies replies[i] is Text
        && steps[i]@ == StepView::Perform(
        RequestView::WriteToken { name: command.name@, vcs: command.vcs, token: trimmed(replies[i]->Text_0@) },
    ) by {
        assert(moves(progress[i], replies[i], (progress[i + 1], steps[i])));
        law_set_token_stores_only_the_trimmed_line(command, progress[i], replies[i], (progress[i + 1], steps[i]));
    }
    if run_succeeded(steps) {
        let last = steps.len() - 1;
        assert(moves(progress[last], replies[last], (progress[last + 1], steps[last])));
        lemma_set_token_run_stores(command, progress, replies, steps, last);
    }
}

} // verus!
