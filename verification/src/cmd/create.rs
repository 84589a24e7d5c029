use vstd::prelude::*;

use crate::cmd::protocol::{
    EnvValue, LogLevel, Reply, Request, RequestView, Step, StepView, fail, log, log_view, perform,
    step_writes, succeed, unexpected_reply, unexpected_reply_message, is_run, run_requests, run_succeeded,
};
use crate::storage::{configuration_path_of, law_context_files_distinct};
use crate::validate_name::is_path_component;
use crate::context::{Context, ContextView};
use crate::failure::Failure;
use crate::transport::{Transport, transport_name};
use crate::vcs::{Vcs, vcs_name};

verus! {

/// Creates a context, either from the host and user given or from the
/// session that the VCS command line is logged in to.
pub struct Create {
    pub name: String,
    pub from_current: bool,
    pub hostname: Option<String>,
    pub user: Option<String>,
    pub transport: Transport,
    pub vcs: Vcs,
}

/// How far a creation has come; the host found or the context built
/// travels with the later stages.
pub enum CreateProgress {
    Start,
    CheckingExistence,
    ReadingHostVariable,
    FetchingUser(String),
    Writing(Context),
    Reporting,
}

/// The environment variable that names the host of the current session.
pub open spec fn host_variable(vcs: Vcs) -> Seq<char> {
    match vcs {
        Vcs::Github => "GH_HOST"@,
        Vcs::Gitlab => "GL_HOST"@,
    }
}

/// The host of the current session when the variable is not set.
pub open spec fn default_host(vcs: Vcs) -> Seq<char> {
    match vcs {
        Vcs::Github => "github.com"@,
        Vcs::Gitlab => "gitlab.com"@,
    }
}

pub open spec fn exists_message(name: Seq<char>) -> Seq<char> {
    "context '"@ + name + "' already exists"@
}

pub open spec fn invalid_unicode_message(vcs: Vcs, raw: Seq<char>) -> Seq<char> {
    host_variable(vcs) + " contains invalid unicode: "@ + raw
}

pub open spec fn missing_hostname_message() -> Seq<char> {
    "--hostname is required (or use --from-current)"@
}

pub open spec fn missing_user_message() -> Seq<char> {
    "--user is required (or use --from-current)"@
}

pub open spec fn created_message(name: Seq<char>, context: ContextView, vcs: Vcs) -> Seq<char> {
    "Created context '"@ + name + "' ("@ + context.user + "@"@ + context.hostname + ", "@
        + transport_name(context.transport) + ", "@ + vcs_name(vcs) + ")"@
}

impl Create {
    fn host_variable_name(&self) -> (r: &'static str)
        ensures
            r@ == host_variable(self.vcs),
    {
        match self.vcs {
            Vcs::Github => "GH_HOST",
            Vcs::Gitlab => "GL_HOST",
        }
    }

    fn default_host_name(&self) -> (r: &'static str)
        ensures
            r@ == default_host(self.vcs),
    {
        match self.vcs {
            Vcs::Github => "github.com",
            Vcs::Gitlab => "gitlab.com",
        }
    }

    /// One step of the creation: the context must not exist yet; its host
    /// and user come from the session or from the command line; then it is
    /// written and reported.
    pub fn execute(&self, progress: CreateProgress, reply: Reply) -> (r: (CreateProgress, Step))
        ensures
            progress is Start ==> r.0 is CheckingExistence && r.1@ == StepView::Perform(
                RequestView::ContextExists { name: self.name@, vcs: self.vcs },
            ),
            progress is CheckingExistence ==> match reply {
                Reply::Flag(true) => r.1@ == StepView::Fail(exists_message(self.name@)),
                Reply::Flag(false) => if self.from_current {
                    r.0 is ReadingHostVariable && r.1@ == StepView::Perform(
                        RequestView::ReadEnv { variable: host_variable(self.vcs) },
                    )
                } else {
                    match (self.hostname, self.user) {
                        (None, _) => r.1@ == StepView::Fail(missing_hostname_message()),
                        (Some(_), None) => r.1@ == StepView::Fail(missing_user_message()),
                        (Some(h), Some(u)) => r.0 matches CreateProgress::Writing(c) && c@ == ContextView {
                            hostname: h@,
                            user: u@,
                            transport: self.transport,
                        } && r.1@ == StepView::Perform(
                            RequestView::WriteContext { name: self.name@, vcs: self.vcs, context: c@ },
                        ),
                    }
                },
                Reply::Failed(e) => r.1@ == StepView::Fail(e.message@),
                _ => r.1@ == StepView::Fail(unexpected_reply_message()),
            },
            progress is ReadingHostVariable ==> match reply {
                Reply::Env(EnvValue::Present(h)) => r.0 matches CreateProgress::FetchingUser(host) && host@
                    == h@ && r.1@ == StepView::Perform(RequestView::ApiUser { vcs: self.vcs, hostname: h@ }),
                Reply::Env(EnvValue::NotPresent) => r.0 matches CreateProgress::FetchingUser(host) && host@
                    == default_host(self.vcs) && r.1@ == StepView::Perform(
                    RequestView::ApiUser { vcs: self.vcs, hostname: default_host(self.vcs) },
                ),
                Reply::Env(EnvValue::NotUnicode(raw)) => r.1@ == StepView::Fail(
                    invalid_unicode_message(self.vcs, raw@),
                ),
                _ => r.1@ == StepView::Fail(unexpected_reply_message()),
            },
            progress matches CreateProgress::FetchingUser(host) ==> match reply {
                Reply::Text(u) => r.0 matches CreateProgress::Writing(c) && c@ == ContextView {
                    hostname: host@,
                    user: u@,
                    transport: self.transport,
                } && r.1@ == StepView::Perform(
                    RequestView::WriteContext { name: self.name@, vcs: self.vcs, context: c@ },
                ),
                Reply::Failed(e) => r.1@ == StepView::Fail(e.message@),
                _ => r.1@ == StepView::Fail(unexpected_reply_message()),
            },
            progress matches CreateProgress::Writing(c) ==> match reply {
                Reply::Done => r.0 is Reporting && r.1@ == log_view(
                    LogLevel::Info,
                    created_message(self.name@, c@, self.vcs),
                ),
                Reply::Failed(e) => r.1@ == StepView::Fail(e.message@),
                _ => r.1@ == StepView::Fail(unexpected_reply_message()),
            },
            progress is Reporting ==> r.1@ == StepView::Succeed,
    {
        match progress {
            CreateProgress::Start => (
                CreateProgress::CheckingExistence,
                perform(Request::ContextExists { name: self.name.clone(), vcs: self.vcs }),
            ),
            CreateProgress::CheckingExistence => match reply {
                Reply::Flag(true) => {
                    let mut message = "context '".to_owned();
                    message.append(self.name.as_str());
                    message.append("' already exists");
                    (CreateProgress::Reporting, fail(Failure::new(message)))
                },
                Reply::Flag(false) => {
                    if self.from_current {
                        (
                            CreateProgress::ReadingHostVariable,
                            perform(Request::ReadEnv { variable: self.host_variable_name().to_owned() }),
                        )
                    } else {
                        match (&self.hostname, &self.user) {
                            (None, _) => (
                                CreateProgress::Reporting,
                                fail(Failure::from_text("--hostname is required (or use --from-current)")),
                            ),
                            (Some(_), None) => (
                                CreateProgress::Reporting,
                                fail(Failure::from_text("--user is required (or use --from-current)")),
                            ),
                            (Some(h), Some(u)) => {
                                let context = Context::new(h.clone(), u.clone(), self.transport);
                                let request = Request::WriteContext {
                                    name: self.name.clone(),
                                    vcs: self.vcs,
                                    context: context.duplicate(),
                                };
                                (CreateProgress::Writing(context), perform(request))
                            },
                        }
                    }
                },
                Reply::Failed(e) => (CreateProgress::Reporting, fail(e)),
                _ => (CreateProgress::Reporting, unexpected_reply()),
            },
            CreateProgress::ReadingHostVariable => match reply {
                Reply::Env(EnvValue::Present(h)) => {
                    let request = Request::ApiUser { vcs: self.vcs, hostname: h.clone() };
                    (CreateProgress::FetchingUser(h), perform(request))
                },
                Reply::Env(EnvValue::NotPresent) => {
                    let h = self.default_host_name().to_owned();
                    let request = Request::ApiUser { vcs: self.vcs, hostname: h.clone() };
                    (CreateProgress::FetchingUser(h), perform(request))
                },
                Reply::Env(EnvValue::NotUnicode(raw)) => {
                    let mut message = self.host_variable_name().to_owned();
                    message.append(" contains invalid unicode: ");
                    message.append(raw.as_str());
                    (CreateProgress::Reporting, fail(Failure::new(message)))
                },
                _ => (CreateProgress::Reporting, unexpected_reply()),
            },
            CreateProgress::FetchingUser(host) => match reply {
                Reply::Text(u) => {
                    let context = Context::new(host, u, self.transport);
                    let request = Request::WriteContext {
                        name: self.name.clone(),
                        vcs: self.vcs,
                        context: context.duplicate(),
                    };
                    (CreateProgress::Writing(context), perform(request))
                },
                Reply::Failed(e) => (CreateProgress::Reporting, fail(e)),
                _ => (CreateProgress::Reporting, unexpected_reply()),
            },
            CreateProgress::Writing(c) => match reply {
                Reply::Done => {
                    let mut message = "Created context '".to_owned();
                    message.append(self.name.as_str());
                    message.append("' (");
                    message.append(c.user.as_str());
                    message.append("@");
                    message.append(c.hostname.as_str());
                    message.append(", ");
                    message.append(c.transport.name());
                    message.append(", ");
                    message.append(self.vcs.name());
                    message.append(")");
                    (CreateProgress::Reporting, log(LogLevel::Info, message))
                },
                Reply::Failed(e) => (CreateProgress::Reporting, fail(e)),
                _ => (CreateProgress::Reporting, unexpected_reply()),
            },
            CreateProgress::Reporting => (CreateProgress::Reporting, succeed()),
        }
    }
}

/// A creation changes nothing but the configuration of the context named
/// on `vcs`; when the name is one path component, as every name that
/// `validate_name` accepts is, that file is a different file from the
/// configuration of every other context.
pub proof fn law_create_writes_only_its_context(
    command: Create,
    progress: CreateProgress,
    reply: Reply,
    r: (CreateProgress, Step),
    base: Seq<char>,
    other_vcs: Vcs,
    other_name: Seq<char>,
)
    requires
        call_ensures(Create::execute, (&command, progress, reply), r),
    ensures
        step_writes(r.1@) ==> (r.1@ matches StepView::Perform(RequestView::WriteContext { name, vcs, .. }) && name
            == command.name@ && vcs == command.vcs),
        is_path_component(command.name@) && is_path_component(other_name) && (other_vcs != command.vcs || other_name
            != command.name@) ==> configuration_path_of(base, command.vcs, command.name@) != configuration_path_of(
            base,
            other_vcs,
            other_name,
        ),
{
    if is_path_component(command.name@) && is_path_component(other_name) && (other_vcs != command.vcs || other_name
        != command.name@) {
        law_context_files_distinct(
            base,
            command.vcs,
            command.name@,
            "configuration.toml"@,
            other_vcs,
            other_name,
            "configuration.toml"@,
        );
    }
}

/// The single steps of a creation, as its contract describes them.
pub open spec fn create_moves(command: Create) -> spec_fn(CreateProgress, Reply, (CreateProgress, Step)) -> bool {
    |progress: CreateProgress, reply: Reply, result: (CreateProgress, Step)|
        call_ensures(Create::execute, (&command, progress, reply), result)
}

/// Whether the host of the current session, as a run of a creation has
/// learnt it, is `host`: the value of the host variable, or the default
/// host when the variable is not set.
pub open spec fn run_found_host(command: Create, progress: Seq<CreateProgress>, replies: Seq<Reply>, host: Seq<char>) -> bool {
    exists|m: int|
        0 <= m < replies.len() && progress[m] is ReadingHostVariable && (match #[trigger] replies[m] {
            Reply::Env(EnvValue::Present(h)) => h@ == host,
            Reply::Env(EnvValue::NotPresent) => host == default_host(command.vcs),
            _ => false,
        })
}

/// Whether a run has written the context of the current session: the
/// host it found and the user that the VCS API named for that host.
pub open spec fn run_writes_session_context(
    command: Create,
    progress: Seq<CreateProgress>,
    replies: Seq<Reply>,
    steps: Seq<Step>,
) -> bool {
    exists|i: int|
        0 <= i < steps.len() && progress[i] is FetchingUser && replies[i] is Text && run_found_host(
            command,
            progress,
            replies,
            progress[i]->FetchingUser_0@,
        ) && (#[trigger] steps[i])@ == StepView::Perform(
            RequestView::WriteContext {
                name: command.name@,
                vcs: command.vcs,
                context: ContextView {
                    hostname: progress[i]->FetchingUser_0@,
                    user: replies[i]->Text_0@,
                    transport: command.transport,
                },
            },
        )
}

proof fn lemma_create_host_found(
    command: Create,
    progress: Seq<CreateProgress>,
    replies: Seq<Reply>,
    steps: Seq<Step>,
    j: int,
)
    requires
        is_run(create_moves(command), CreateProgress::Start, progress, replies, steps),
        0 <= j < steps.len(),
        progress[j] is FetchingUser,
    ensures
        run_found_host(command, progress, replies, progress[j]->FetchingUser_0@),
{
    let moves = create_moves(command);
    let prev = j - 1;
    if j == 0 {
        assert(progress[0] == CreateProgress::Start);
    } else {
        assert(moves(progress[prev], replies[prev], (progress[prev + 1], steps[prev])));
        assert(steps[prev]@ is Perform);
        assert(progress[prev] is ReadingHostVariable);
        assert(progress[prev] is ReadingHostVariable && (match replies[prev] {
            Reply::Env(EnvValue::Present(h)) => h@ == progress[j]->FetchingUser_0@,
            Reply::Env(EnvValue::NotPresent) => progress[j]->FetchingUser_0@ == default_host(command.vcs),
            _ => false,
        }));
    }
}

proof fn lemma_create_run_wrote(
    command: Create,
    progress: Seq<CreateProgress>,
    replies: Seq<Reply>,
    steps: Seq<Step>,
    j: int,
)
    requires
        is_run(create_moves(command), CreateProgress::Start, progress, replies, steps),
        0 <= j < steps.len(),
        progress[j] is Writing || progress[j] is Reporting,
    ensures
        command.from_current ==> run_writes_session_context(command, progress, replies, steps),
        !command.from_current ==> (command.hostname matches Some(h) && command.user matches Some(u) && run_requests(
            steps,
            RequestView::WriteContext {
                name: command.name@,
                vcs: command.vcs,
                context: ContextView { hostname: h@, user: u@, transport: command.transport },
            },
        )),
    decreases j,
{
    let moves = create_moves(command);
    let prev = j - 1;
    if j == 0 {
        assert(progress[0] == CreateProgress::Start);
    } else {
        assert(moves(progress[prev], replies[prev], (progress[prev + 1], steps[prev])));
        assert(steps[prev]@ is Perform);
        if progress[prev] is Writing || progress[prev] is Reporting {
            lemma_create_run_wrote(command, progress, replies, steps, prev);
        } else if progress[prev] is FetchingUser {
            lemma_create_host_found(command, progress, replies, steps, prev);
            assert(command.from_current ==> run_writes_session_context(command, progress, replies, steps)) by {
                assert(steps[prev]@ == StepView::Perform(
                    RequestView::WriteContext {
                        name: command.name@,
                        vcs: command.vcs,
                        context: ContextView {
                            hostname: progress[prev]->FetchingUser_0@,
                            user: replies[prev]->Text_0@,
                            transport: command.transport,
                        },
                    },
                ));
            }
            if !command.from_current {
                assert(false) by {
                    lemma_create_fetching_only_from_session(command, progress, replies, steps, prev);
                }
            }
        } else {
            assert(progress[prev] is CheckingExistence);
            assert(!command.from_current);
        }
    }
}

proof fn lemma_create_fetching_only_from_session(
    command: Create,
    progress: Seq<CreateProgress>,
    replies: Seq<Reply>,
    steps: Seq<Step>,
    j: int,
)
    requires
        is_run(create_moves(command), CreateProgress::Start, progress, replies, steps),
        0 <= j < steps.len(),
        progress[j] is FetchingUser || progress[j] is ReadingHostVariable,
    ensures
        command.from_current,
    decreases j,
{
    let moves = create_moves(command);
    let prev = j - 1;
    if j == 0 {
        assert(progress[0] == CreateProgress::Start);
    } else {
        assert(moves(progress[prev], replies[prev], (progress[prev + 1], steps[prev])));
        assert(steps[prev]@ is Perform);
        if progress[prev] is FetchingUser || progress[prev] is ReadingHostVariable {
            lemma_create_fetching_only_from_session(command, progress, replies, steps, prev);
        }
    }
}

proof fn lemma_create_after_write(
    command: Create,
    progress: Seq<CreateProgress>,
    replies: Seq<Reply>,
    steps: Seq<Step>,
    i: int,
    k: int,
)
    requires
        is_run(create_moves(command), CreateProgress::Start, progress, replies, steps),
        0 <= i < k < steps.len(),
        step_writes(steps[i]@),
    ensures
        progress[k] is Writing || progress[k] is Reporting,
    decreases k - i,
{
    let moves = create_moves(command);
    let prev = k - 1;
    assert(moves(progress[prev], replies[prev], (progress[prev + 1], steps[prev])));
    assert(steps[prev]@ is Perform);
    if prev > i {
        lemma_create_after_write(command, progress, replies, steps, i, prev);
    } else {
        law_create_writes_only_its_context(command, progress[i], replies[i], (progress[i + 1], steps[i]), Seq::empty(), command.vcs, command.name@);
    }
}

/// A whole creation: it changes nothing but the configuration of the
/// context named on its VCS; when it succeeds it has written, for a
/// creation from the current session, the host it found (the host
/// variable, or the default host) with the user that the VCS API named for
/// it, and otherwise the host and user given; and when the VCS API refuses
/// to name the user, the creation fails with the API's message having
/// written nothing.
pub proof fn law_create_run(command: Create, progress: Seq<CreateProgress>, replies: Seq<Reply>, steps: Seq<Step>)
    requires
        is_run(create_moves(command), CreateProgress::Start, progress, replies, steps),
    ensures
        forall|i: int|
            0 <= i < steps.len() && step_writes((#[trigger] steps[i])@) ==> (steps[i]@ matches StepView::Perform(
                RequestView::WriteContext { name, vcs, .. },
            ) && name == command.name@ && vcs == command.vcs),
        run_succeeded(steps) && command.from_current ==> run_writes_session_context(command, progress, replies, steps),
        run_succeeded(steps) && !command.from_current ==> (command.hostname matches Some(h) && command.user matches Some(
            u,
        ) && run_requests(
            steps,
            RequestView::WriteContext {
                name: command.name@,
                vcs: command.vcs,
                context: ContextView { hostname: h@, user: u@, transport: command.transport },
            },
        )),
        steps.len() > 0 && progress[steps.len() - 1] is FetchingUser && replies[steps.len() - 1] is Failed ==> (
        steps.last()@ == StepView::Fail(replies[steps.len() - 1]->Failed_0.message@) && forall|i: int|
            0 <= i < steps.len() ==> !step_writes(#[trigger] steps[i]@)),
{
    let moves = create_moves(command);
    assert forall|i: int| 0 <= i < steps.len() && step_writes((#[trigger] steps[i])@) implies (steps[i]@ matches StepView::Perform(
        RequestView::WriteContext { name, vcs, .. },
    ) && name == command.name@ && vcs == command.vcs) by {
        assert(moves(progress[i], replies[i], (progress[i + 1], steps[i])));
        law_create_writes_only_its_context(command, progress[i], replies[i], (progress[i + 1], steps[i]), Seq::empty(), command.vcs, command.name@);
    }
    if steps.len() > 0 {
        let last = steps.len() - 1;
        assert(moves(progress[last], replies[last], (progress[last + 1], steps[last])));
        if run_succeeded(steps) {
            lemma_create_run_wrote(command, progress, replies, steps, last);
        }
        if progress[last] is FetchingUser && replies[last] is Failed {
            assert forall|i: int| 0 <= i < steps.len() implies !step_writes(#[trigger] steps[i]@) by {
                if step_writes(steps[i]@) && i < last {
                    lemma_create_after_write(command, progress, replies, steps, i, last);
                }
            }
        }
    }
}

/// A creation from the current session asks for the host variable of its
/// own VCS, `GH_HOST` for GitHub and `GL_HOST` for GitLab, so the two VCSs
/// read different variables; when that variable is not set, the user is
/// asked of the public host of that VCS, `github.com` or `gitlab.com`.
pub proof fn law_session_host_of_each_vcs(
    command: Create,
    reply: Reply,
    asked: (CreateProgress, Step),
    unset: (CreateProgress, Step),
)
    requires
        command.from_current,
        reply == Reply::Flag(false),
        call_ensures(Create::execute, (&command, CreateProgress::CheckingExistence, reply), asked),
        call_ensures(
            Create::execute,
            (&command, CreateProgress::ReadingHostVariable, Reply::Env(EnvValue::NotPresent)),
            unset,
        ),
    ensures
        asked.1@ == StepView::Perform(
            RequestView::ReadEnv {
                variable: match command.vcs {
                    Vcs::Github => "GH_HOST"@,
                    Vcs::Gitlab => "GL_HOST"@,
                },
            },
        ),
        unset.1@ == StepView::Perform(
            RequestView::ApiUser {
                vcs: command.vcs,
                hostname: match command.vcs {
                    Vcs::Github => "github.com"@,
                    Vcs::Gitlab => "gitlab.com"@,
                },
            },
        ),
        "GH_HOST"@ != "GL_HOST"@,
        "github.com"@ != "gitlab.com"@,
{
    reveal_strlit("GH_HOST");
    reveal_strlit("GL_HOST");
    reveal_strlit("github.com");
    reveal_strlit("gitlab.com");
    assert("GH_HOST"@[1] != "GL_HOST"@[1]);
    assert("github.com"@[3] != "gitlab.com"@[3]);
}

} // verus!
