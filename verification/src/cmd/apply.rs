use vstd::prelude::*;

use crate::apply_context::ApplyContext;
use crate::cmd::binding::{binding_path, binding_path_of, outside_repository_message, repo_root, repo_root_of};
use crate::cmd::protocol::{
    Reply, Request, RequestView, Step, StepView, fail, is_run, perform, unexpected_reply, unexpected_reply_message,
};
use crate::cmd::switch::{Switch, SwitchProgress, switch_moves};
use crate::failure::Failure;

verus! {

/// Switches to the context that the repository in the current directory
/// is bound to.
pub struct Apply;

/// How far applying a binding has come; once the binding is read, the
/// switch it asks for runs inside.
pub enum ApplyProgress {
    Start,
    FindingRepository,
    CheckingBinding(String),
    ReadingBinding,
    Switching(Switch, SwitchProgress),
}

pub open spec fn no_binding_message() -> Seq<char> {
    "no context bound to this repository (use 'kalamarnica bind <name> --vcs <vcs>' first)"@
}

impl Apply {
    /// One step of applying the binding: the current directory must lie in
    /// a git working tree whose root holds a binding file; the context it
    /// names is then switched to, step by step.
    pub fn execute(&self, progress: ApplyProgress, reply: Reply) -> (r: (ApplyProgress, Step))
        ensures
            progress is Start ==> r.0 is FindingRepository && r.1@ == StepView::Perform(RequestView::RepoRoot),
            progress is FindingRepository ==> match reply {
                Reply::MaybeText(Some(workdir)) => r.0 matches ApplyProgress::CheckingBinding(path)
                    && path@ == binding_path_of(repo_root_of(workdir@)) && r.1@ == StepView::Perform(
                    RequestView::FileExists { path: path@ },
                ),
                Reply::MaybeText(None) => r.1@ == StepView::Fail(outside_repository_message()),
                Reply::Failed(e) => r.1@ == StepView::Fail(e.message@),
                _ => r.1@ == StepView::Fail(unexpected_reply_message()),
            },
            progress matches ApplyProgress::CheckingBinding(path) ==> match reply {
                Reply::Flag(true) => r.0 is ReadingBinding && r.1@ == StepView::Perform(
                    RequestView::ReadBinding { path: path@ },
                ),
                Reply::Flag(false) => r.1@ == StepView::Fail(no_binding_message()),
                Reply::Failed(e) => r.1@ == StepView::Fail(e.message@),
                _ => r.1@ == StepView::Fail(unexpected_reply_message()),
            },
            progress is ReadingBinding ==> match reply {
                Reply::Active(Some(bound)) => r.0 matches ApplyProgress::Switching(switch, switch_progress)
                    && switch.name == bound.name && switch.vcs == bound.vcs && call_ensures(
                    Switch::execute,
                    (&switch, SwitchProgress::Start, Reply::Started),
                    (switch_progress, r.1),
                ),
                Reply::Failed(e) => r.1@ == StepView::Fail(e.message@),
                _ => r.1@ == StepView::Fail(unexpected_reply_message()),
            },
            progress matches ApplyProgress::Switching(switch, switch_progress) ==> r.0 matches ApplyProgress::Switching(
                next_switch,
                next_progress,
            ) && next_switch == switch && call_ensures(
                Switch::execute,
                (&switch, switch_progress, reply),
                (next_progress, r.1),
            ),
    {
        match progress {
            ApplyProgress::Start => (ApplyProgress::FindingRepository, perform(Request::RepoRoot)),
            ApplyProgress::FindingRepository => match reply {
                Reply::MaybeText(Some(workdir)) => {
                    let root = repo_root(workdir.as_str());
                    let path = binding_path(root.as_str());
                    let request = Request::FileExists { path: path.clone() };
                    (ApplyProgress::CheckingBinding(path), perform(request))
                },
                Reply::MaybeText(None) => (
                    ApplyProgress::Start,
                    fail(Failure::from_text("not inside a git repository")),
                ),
                Reply::Failed(e) => (ApplyProgress::Start, fail(e)),
                _ => (ApplyProgress::Start, unexpected_reply()),
            },
            ApplyProgress::CheckingBinding(path) => match reply {
                Reply::Flag(true) => (ApplyProgress::ReadingBinding, perform(Request::ReadBinding { path })),
                Reply::Flag(false) => (
                    ApplyProgress::Start,
                    fail(
                        Failure::from_text(
                            "no context bound to this repository (use 'kalamarnica bind <name> --vcs <vcs>' first)",
                        ),
                    ),
                ),
                Reply::Failed(e) => (ApplyProgress::Start, fail(e)),
                _ => (ApplyProgress::Start, unexpected_reply()),
            },
            ApplyProgress::ReadingBinding => match reply {
                Reply::Active(Some(bound)) => {
                    let switch = Switch::for_context(bound.name, bound.vcs);
                    let (switch_progress, step) = switch.execute(SwitchProgress::Start, Reply::Started);
                    (ApplyProgress::Switching(switch, switch_progress), step)
                },
                Reply::Failed(e) => (ApplyProgress::Start, fail(e)),
                _ => (ApplyProgress::Start, unexpected_reply()),
            },
            ApplyProgress::Switching(switch, switch_progress) => {
                let (next_progress, step) = switch.execute(switch_progress, reply);
                (ApplyProgress::Switching(switch, next_progress), step)
            },
        }
    }
}

/// The single steps of applying a binding, as its contract describes them.
pub open spec fn apply_moves(command: Apply) -> spec_fn(ApplyProgress, Reply, (ApplyProgress, Step)) -> bool {
    |progress: ApplyProgress, reply: Reply, result: (ApplyProgress, Step)|
        call_ensures(Apply::execute, (&command, progress, reply), result)
}

/// The stage of the switch inside a stage of applying a binding.
pub open spec fn inner_switch(progress: ApplyProgress) -> SwitchProgress {
    match progress {
        ApplyProgress::Switching(_, switch_progress) => switch_progress,
        _ => SwitchProgress::Start,
    }
}

proof fn lemma_apply_keeps_switch(
    command: Apply,
    progress: Seq<ApplyProgress>,
    replies: Seq<Reply>,
    steps: Seq<Step>,
    switch: Switch,
    j: int,
    k: int,
)
    requires
        is_run(apply_moves(command), ApplyProgress::Start, progress, replies, steps),
        0 <= j < k <= steps.len(),
        progress[j + 1] matches ApplyProgress::Switching(s, _) && s == switch,
    ensures
        progress[k] matches ApplyProgress::Switching(s, _) && s == switch,
    decreases k - j,
{
    if k > j + 1 {
        let i = k - 1;
        lemma_apply_keeps_switch(command, progress, replies, steps, switch, j, i);
        assert(apply_moves(command)(progress[i], replies[i], (progress[i + 1], steps[i])));
    }
}

/// Once the binding file is read, applying it is a switch to the context
/// it names: the steps that follow, given the same replies, are exactly
/// the steps of a switch to that context, started afresh.
pub proof fn law_apply_is_a_switch(
    command: Apply,
    progress: Seq<ApplyProgress>,
    replies: Seq<Reply>,
    steps: Seq<Step>,
    j: int,
    bound: ApplyContext,
)
    requires
        is_run(apply_moves(command), ApplyProgress::Start, progress, replies, steps),
        0 <= j < steps.len(),
        progress[j] is ReadingBinding,
        replies[j] == Reply::Active(Some(bound)),
    ensures
        progress[j + 1] matches ApplyProgress::Switching(switch, _) && switch.name == bound.name && switch.vcs == bound.vcs
            && is_run(
            switch_moves(switch),
            SwitchProgress::Start,
            seq![SwitchProgress::Start] + progress.subrange(j + 1, progress.len() as int).map_values(
                |p: ApplyProgress| inner_switch(p),
            ),
            seq![Reply::Started] + replies.subrange(j + 1, replies.len() as int),
            steps.subrange(j, steps.len() as int),
        ),
{
    let moves = apply_moves(command);
    assert(moves(progress[j], replies[j], (progress[j + 1], steps[j])));
    let switch = progress[j + 1]->Switching_0;
    let sp = seq![SwitchProgress::Start] + progress.subrange(j + 1, progress.len() as int).map_values(
        |p: ApplyProgress| inner_switch(p),
    );
    let sr = seq![Reply::Started] + replies.subrange(j + 1, replies.len() as int);
    let ss = steps.subrange(j, steps.len() as int);
    assert forall|i: int| 0 <= i < ss.len() implies #[trigger] switch_moves(switch)(sp[i], sr[i], (sp[i + 1], ss[i])) by {
        lemma_apply_keeps_switch(command, progress, replies, steps, switch, j, j + 1 + i);
        assert(sp[i + 1] == inner_switch(progress[j + 1 + i]));
        assert(ss[i] == steps[j + i]);
        if i == 0 {
            assert(sp[0] == SwitchProgress::Start);
            assert(sr[0] == Reply::Started);
        } else {
            lemma_apply_keeps_switch(command, progress, replies, steps, switch, j, j + i);
            assert(sp[i] == inner_switch(progress[j + i]));
            assert(sr[i] == replies[j + i]);
            let a = j + i;
            assert(moves(progress[a], replies[a], (progress[a + 1], steps[a])));
        }
    }
    assert forall|i: int| 0 <= i < ss.len() - 1 implies (#[trigger] ss[i])@ is Perform by {
        assert(ss[i] == steps[j + i]);
    }
}

} // verus!
