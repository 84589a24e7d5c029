use vstd::prelude::*;

use crate::apply_context::{ApplyContext, ApplyContextView};
use crate::cmd::protocol::{
    LogLevel, Reply, Request, RequestView, Step, StepView, fail, log, log_view, missing_context,
    missing_context_message, perform, succeed, unexpected_reply, unexpected_reply_message, fails_on_answer,
    writes_repository, writes_storage, writes_vcs_configuration, is_run, run_requests, run_succeeded,
};
use crate::clients::{lemma_token_keys_are_not_user, token_key_of};
use crate::context::Context;
use crate::failure::Failure;
use crate::hosts::{
    api_token_of, auth_status_text, law_status_after_credentials, law_token_after_credentials, logged_in_line,
    with_credentials,
};
use crate::yaml::Table;
use crate::text::{contains, contains_text};
use crate::transport::transport_name;
use crate::vcs::{Vcs, vcs_name};

verus! {

/// Makes a saved context the active one: applies its stored token to the
/// VCS command line, makes its host the default, and checks that the VCS
/// accepts the context's user.
pub struct Switch {
    pub name: String,
    pub vcs: Vcs,
}

/// How far a switch has come. The context read from storage travels with
/// the later stages.
pub enum SwitchProgress {
    Start,
    CheckingExistence,
    ReadingContext,
    SettingActive(Context),
    ReadingToken(Context),
    ApplyingToken(Context),
    ReportedToken(Context),
    SettingDefaultHost(Context),
    ReportedDefaultHost(Context),
    CheckingStatus(Context),
    SwitchingAccount(Context),
    CheckingUser(Context),
    ReportedVerification(Context),
    Finishing,
}

pub open spec fn applied_token_message(name: Seq<char>) -> Seq<char> {
    "Applied stored token for '"@ + name + "'"@
}

pub open spec fn failed_token_message(name: Seq<char>, error: Seq<char>) -> Seq<char> {
    "Failed to apply stored token for '"@ + name + "': "@ + error
}

pub open spec fn failed_default_host_message(name: Seq<char>, error: Seq<char>) -> Seq<char> {
    "Failed to set default VCS host for '"@ + name + "': "@ + error
}

/// What the user is told to run to log in again.
pub open spec fn login_instruction(vcs: Vcs, name: Seq<char>, hostname: Seq<char>, user: Seq<char>) -> Seq<char> {
    match vcs {
        Vcs::Github => "Run: gh auth login --hostname "@ + hostname + " --user "@ + user
            + " --scopes repo,read:org"@,
        Vcs::Gitlab => "Run: kalamarnica set-token --name "@ + name
            + " --token <your-personal-access-token>"@,
    }
}

pub open spec fn auth_required_message(
    vcs: Vcs,
    name: Seq<char>,
    hostname: Seq<char>,
    user: Seq<char>,
    error: Seq<char>,
) -> Seq<char> {
    "Authentication required for "@ + user + "@"@ + hostname + " ("@ + error + ")\n  "@
        + login_instruction(vcs, name, hostname, user)
}

pub open spec fn not_logged_in_as_message(user: Seq<char>) -> Seq<char> {
    "not logged in as "@ + user
}

pub open spec fn unexpected_user_message(expected: Seq<char>, actual: Seq<char>) -> Seq<char> {
    "expected user "@ + expected + ", got "@ + actual
}

pub open spec fn verified_message() -> Seq<char> {
    "Authentication verified"@
}

pub open spec fn switched_message(name: Seq<char>, context: Context, vcs: Vcs) -> Seq<char> {
    "Switched to context '"@ + name + "' ("@ + context.user@ + "@"@ + context.hostname@ + ", "@
        + transport_name(context.transport) + ", "@ + vcs_name(vcs) + ")"@
}

pub fn login_instruction_text(vcs: Vcs, name: &str, hostname: &str, user: &str) -> (r: String)
    ensures
        r@ == login_instruction(vcs, name@, hostname@, user@),
{
    match vcs {
        Vcs::Github => {
            let mut s = "Run: gh auth login --hostname ".to_owned();
            s.append(hostname);
            s.append(" --user ");
            s.append(user);
            s.append(" --scopes repo,read:org");
            s
        },
        Vcs::Gitlab => {
            let mut s = "Run: kalamarnica set-token --name ".to_owned();
            s.append(name);
            s.append(" --token <your-personal-access-token>");
            s
        },
    }
}

impl Switch {
    /// A switch to the context `name` of `vcs`.
    pub fn for_context(name: String, vcs: Vcs) -> (s: Switch)
        ensures
            s.name == name,
            s.vcs == vcs,
    {
        Switch { name, vcs }
    }

    fn auth_required(&self, context: &Context, error: &str) -> (s: Step)
        ensures
            s@ == log_view(
                LogLevel::Warn,
                auth_required_message(self.vcs, self.name@, context.hostname@, context.user@, error@),
            ),
    {
        let mut message = "Authentication required for ".to_owned();
        message.append(context.user.as_str());
        message.append("@");
        message.append(context.hostname.as_str());
        message.append(" (");
        message.append(error);
        message.append(")\n  ");
        let instruction = login_instruction_text(
            self.vcs,
            self.name.as_str(),
            context.hostname.as_str(),
            context.user.as_str(),
        );
        message.append(instruction.as_str());
        log(LogLevel::Warn, message)
    }

    /// One step of the switch: given how far it has come and the answer to
    /// its last request, says what it does next.
    pub fn execute(&self, progress: SwitchProgress, reply: Reply) -> (r: (SwitchProgress, Step))
        ensures
            progress is Start ==> r.0 is CheckingExistence && r.1@ == StepView::Perform(
                RequestView::ContextExists { name: self.name@, vcs: self.vcs },
            ),
            progress is CheckingExistence ==> match reply {
                Reply::Flag(true) => r.0 is ReadingContext && r.1@ == StepView::Perform(
                    RequestView::ReadContext { name: self.name@, vcs: self.vcs },
                ),
                Reply::Flag(false) => r.1@ == StepView::Fail(missing_context_message(self.name@)),
                Reply::Failed(e) => r.1@ == StepView::Fail(e.message@),
                _ => r.1@ == StepView::Fail(unexpected_reply_message()),
            },
            progress is ReadingContext ==> match reply {
                Reply::Context(c) => r.0 == SwitchProgress::SettingActive(c) && r.1@ == StepView::Perform(
                    RequestView::SetActive { active: ApplyContextView { name: self.name@, vcs: self.vcs } },
                ),
                Reply::Failed(e) => r.1@ == StepView::Fail(e.message@),
                _ => r.1@ == StepView::Fail(unexpected_reply_message()),
            },
            progress matches SwitchProgress::SettingActive(c) ==> match reply {
                Reply::Done => r.0 == SwitchProgress::ReadingToken(c) && r.1@ == StepView::Perform(
                    RequestView::ReadToken { name: self.name@, vcs: self.vcs },
                ),
                Reply::Failed(e) => r.1@ == StepView::Fail(e.message@),
                _ => r.1@ == StepView::Fail(unexpected_reply_message()),
            },
            progress matches SwitchProgress::ReadingToken(c) ==> match reply {
                Reply::MaybeText(Some(token)) => r.0 == SwitchProgress::ApplyingToken(c) && r.1@
                    == StepView::Perform(
                    RequestView::WriteHostCredentials {
                        vcs: self.vcs,
                        hostname: c.hostname@,
                        user: c.user@,
                        token: token@,
                    },
                ),
                Reply::MaybeText(None) => r.0 == SwitchProgress::SettingDefaultHost(c) && r.1@
                    == StepView::Perform(RequestView::SetDefaultHost { vcs: self.vcs, hostname: c.hostname@ }),
                Reply::Failed(e) => r.1@ == StepView::Fail(e.message@),
                _ => r.1@ == StepView::Fail(unexpected_reply_message()),
            },
            progress matches SwitchProgress::ApplyingToken(c) ==> match reply {
                Reply::Done => r.0 == SwitchProgress::ReportedToken(c) && r.1@ == log_view(
                    LogLevel::Warn,
                    applied_token_message(self.name@),
                ),
                Reply::Failed(e) => r.0 == SwitchProgress::ReportedToken(c) && r.1@ == log_view(
                    LogLevel::Warn,
                    failed_token_message(self.name@, e.message@),
                ),
                _ => r.1@ == StepView::Fail(unexpected_reply_message()),
            },
            progress matches SwitchProgress::ReportedToken(c) ==> r.0 == SwitchProgress::SettingDefaultHost(c)
                && r.1@ == StepView::Perform(RequestView::SetDefaultHost { vcs: self.vcs, hostname: c.hostname@ }),
            progress matches SwitchProgress::SettingDefaultHost(c) ==> match reply {
                Reply::Done => r.0 == SwitchProgress::CheckingStatus(c) && r.1@ == StepView::Perform(
                    RequestView::AuthStatus { vcs: self.vcs, hostname: c.hostname@ },
                ),
                Reply::Failed(e) => r.0 == SwitchProgress::ReportedDefaultHost(c) && r.1@ == log_view(
                    LogLevel::Warn,
                    failed_default_host_message(self.name@, e.message@),
                ),
                _ => r.1@ == StepView::Fail(unexpected_reply_message()),
            },
            progress matches SwitchProgress::ReportedDefaultHost(c) ==> r.0 == SwitchProgress::CheckingStatus(c)
                && r.1@ == StepView::Perform(RequestView::AuthStatus { vcs: self.vcs, hostname: c.hostname@ }),
            progress matches SwitchProgress::CheckingStatus(c) ==> match reply {
                Reply::Text(output) => if contains_text(output@, logged_in_line(c.hostname@, c.user@)) {
                    r.0 == SwitchProgress::SwitchingAccount(c) && r.1@ == StepView::Perform(
                        RequestView::AuthSwitch { vcs: self.vcs, hostname: c.hostname@, user: c.user@ },
                    )
                } else {
                    r.0 == SwitchProgress::ReportedVerification(c) && r.1@ == log_view(
                        LogLevel::Warn,
                        auth_required_message(
                            self.vcs,
                            self.name@,
                            c.hostname@,
                            c.user@,
                            not_logged_in_as_message(c.user@),
                        ),
                    )
                },
                Reply::Failed(e) => r.0 == SwitchProgress::ReportedVerification(c) && r.1@ == log_view(
                    LogLevel::Warn,
                    auth_required_message(self.vcs, self.name@, c.hostname@, c.user@, e.message@),
                ),
                _ => r.1@ == StepView::Fail(unexpected_reply_message()),
            },
            progress matches SwitchProgress::SwitchingAccount(c) ==> match reply {
                Reply::Done => r.0 == SwitchProgress::CheckingUser(c) && r.1@ == StepView::Perform(
                    RequestView::ApiUser { vcs: self.vcs, hostname: c.hostname@ },
                ),
                Reply::Failed(e) => r.0 == SwitchProgress::ReportedVerification(c) && r.1@ == log_view(
                    LogLevel::Warn,
                    auth_required_message(self.vcs, self.name@, c.hostname@, c.user@, e.message@),
                ),
                _ => r.1@ == StepView::Fail(unexpected_reply_message()),
            },
            progress matches SwitchProgress::CheckingUser(c) ==> match reply {
                Reply::Text(actual) => r.0 == SwitchProgress::ReportedVerification(c) && if actual@ == c.user@ {
                    r.1@ == log_view(LogLevel::Warn, verified_message())
                } else {
                    r.1@ == log_view(
                        LogLevel::Warn,
                        auth_required_message(
                            self.vcs,
                            self.name@,
                            c.hostname@,
                            c.user@,
                            unexpected_user_message(c.user@, actual@),
                        ),
                    )
                },
                Reply::Failed(e) => r.0 == SwitchProgress::ReportedVerification(c) && r.1@ == log_view(
                    LogLevel::Warn,
                    auth_required_message(self.vcs, self.name@, c.hostname@, c.user@, e.message@),
                ),
                _ => r.1@ == StepView::Fail(unexpected_reply_message()),
            },
            progress matches SwitchProgress::ReportedVerification(c) ==> r.0 is Finishing && r.1@ == log_view(
                LogLevel::Info,
                switched_message(self.name@, c, self.vcs),
            ),
            progress is Finishing ==> r.1@ == StepView::Succeed,
    {
        match progress {
            SwitchProgress::Start => (
                SwitchProgress::CheckingExistence,
                perform(Request::ContextExists { name: self.name.clone(), vcs: self.vcs }),
            ),
            SwitchProgress::CheckingExistence => match reply {
                Reply::Flag(true) => (
                    SwitchProgress::ReadingContext,
                    perform(Request::ReadContext { name: self.name.clone(), vcs: self.vcs }),
                ),
                Reply::Flag(false) => (SwitchProgress::Finishing, missing_context(self.name.as_str())),
                Reply::Failed(e) => (SwitchProgress::Finishing, fail(e)),
                _ => (SwitchProgress::Finishing, unexpected_reply()),
            },
            SwitchProgress::ReadingContext => match reply {
                Reply::Context(c) => (
                    SwitchProgress::SettingActive(c),
                    perform(Request::SetActive { active: ApplyContext::new(self.name.clone(), self.vcs) }),
                ),
                Reply::Failed(e) => (SwitchProgress::Finishing, fail(e)),
                _ => (SwitchProgress::Finishing, unexpected_reply()),
            },
            SwitchProgress::SettingActive(c) => match reply {
                Reply::Done => (
                    SwitchProgress::ReadingToken(c),
                    perform(Request::ReadToken { name: self.name.clone(), vcs: self.vcs }),
                ),
                Reply::Failed(e) => (SwitchProgress::Finishing, fail(e)),
                _ => (SwitchProgress::Finishing, unexpected_reply()),
            },
            SwitchProgress::ReadingToken(c) => match reply {
                Reply::MaybeText(Some(token)) => {
                    let request = Request::WriteHostCredentials {
                        vcs: self.vcs,
                        hostname: c.hostname.clone(),
                        user: c.user.clone(),
                        token,
                    };
                    (SwitchProgress::ApplyingToken(c), perform(request))
                },
                Reply::MaybeText(None) => {
                    let request = Request::SetDefaultHost { vcs: self.vcs, hostname: c.hostname.clone() };
                    (SwitchProgress::SettingDefaultHost(c), perform(request))
                },
                Reply::Failed(e) => (SwitchProgress::Finishing, fail(e)),
                _ => (SwitchProgress::Finishing, unexpected_reply()),
            },
            SwitchProgress::ApplyingToken(c) => match reply {
                Reply::Done => {
                    let mut message = "Applied stored token for '".to_owned();
                    message.append(self.name.as_str());
                    message.append("'");
                    (SwitchProgress::ReportedToken(c), log(LogLevel::Warn, message))
                },
                Reply::Failed(e) => {
                    let mut message = "Failed to apply stored token for '".to_owned();
                    message.append(self.name.as_str());
                    message.append("': ");
                    message.append(e.message.as_str());
                    (SwitchProgress::ReportedToken(c), log(LogLevel::Warn, message))
                },
                _ => (SwitchProgress::Finishing, unexpected_reply()),
            },
            SwitchProgress::ReportedToken(c) => {
                let request = Request::SetDefaultHost { vcs: self.vcs, hostname: c.hostname.clone() };
                (SwitchProgress::SettingDefaultHost(c), perform(request))
            },
            SwitchProgress::SettingDefaultHost(c) => match reply {
                Reply::Done => {
                    let request = Request::AuthStatus { vcs: self.vcs, hostname: c.hostname.clone() };
                    (SwitchProgress::CheckingStatus(c), perform(request))
                },
                Reply::Failed(e) => {
                    let mut message = "Failed to set default VCS host for '".to_owned();
                    message.append(self.name.as_str());
                    message.append("': ");
                    message.append(e.message.as_str());
                    (SwitchProgress::ReportedDefaultHost(c), log(LogLevel::Warn, message))
                },
                _ => (SwitchProgress::Finishing, unexpected_reply()),
            },
            SwitchProgress::ReportedDefaultHost(c) => {
                let request = Request::AuthStatus { vcs: self.vcs, hostname: c.hostname.clone() };
                (SwitchProgress::CheckingStatus(c), perform(request))
            },
            SwitchProgress::CheckingStatus(c) => match reply {
                Reply::Text(output) => {
                    let mut expected = "Logged in to ".to_owned();
                    expected.append(c.hostname.as_str());
                    expected.append(" account ");
                    expected.append(c.user.as_str());
                    if contains(output.as_str(), expected.as_str()) {
                        let request = Request::AuthSwitch {
                            vcs: self.vcs,
                            hostname: c.hostname.clone(),
                            user: c.user.clone(),
                        };
                        (SwitchProgress::SwitchingAccount(c), perform(request))
                    } else {
                        let mut error = "not logged in as ".to_owned();
                        error.append(c.user.as_str());
                        let step = self.auth_required(&c, error.as_str());
                        (SwitchProgress::ReportedVerification(c), step)
                    }
                },
                Reply::Failed(e) => {
                    let step = self.auth_required(&c, e.message.as_str());
                    (SwitchProgress::ReportedVerification(c), step)
                },
                _ => (SwitchProgress::Finishing, unexpected_reply()),
            },
            SwitchProgress::SwitchingAccount(c) => match reply {
                Reply::Done => {
                    let request = Request::ApiUser { vcs: self.vcs, hostname: c.hostname.clone() };
                    (SwitchProgress::CheckingUser(c), perform(request))
                },
                Reply::Failed(e) => {
                    let step = self.auth_required(&c, e.message.as_str());
                    (SwitchProgress::ReportedVerification(c), step)
                },
                _ => (SwitchProgress::Finishing, unexpected_reply()),
            },
            SwitchProgress::CheckingUser(c) => match reply {
                Reply::Text(actual) => {
                    if actual == c.user {
                        let step = log(LogLevel::Warn, "Authentication verified".to_owned());
                        (SwitchProgress::ReportedVerification(c), step)
                    } else {
                        let mut error = "expected user ".to_owned();
                        error.append(c.user.as_str());
                        error.append(", got ");
                        error.append(actual.as_str());
                        let step = self.auth_required(&c, error.as_str());
                        (SwitchProgress::ReportedVerification(c), step)
                    }
                },
                Reply::Failed(e) => {
                    let step = self.auth_required(&c, e.message.as_str());
                    (SwitchProgress::ReportedVerification(c), step)
                },
                _ => (SwitchProgress::Finishing, unexpected_reply()),
            },
            SwitchProgress::ReportedVerification(c) => {
                let mut message = "Switched to context '".to_owned();
                message.append(self.name.as_str());
                message.append("' (");
                message.append(c.user.as_str());
                message.append("@");
                message.append(c.hostname.as_str());
                message.append(", ");
                message.append(c.transport.name());
                message.append(", ");
                message.append(self.vcs.name());
                message.append(")");
                (SwitchProgress::Finishing, log(LogLevel::Info, message))
            },
            SwitchProgress::Finishing => (SwitchProgress::Finishing, succeed()),
        }
    }
}

/// The context that a switch carries at a stage, once it is read.
pub open spec fn carried_context(progress: SwitchProgress) -> Option<Context> {
    match progress {
        SwitchProgress::SettingActive(c) => Some(c),
        SwitchProgress::ReadingToken(c) => Some(c),
        SwitchProgress::ApplyingToken(c) => Some(c),
        SwitchProgress::ReportedToken(c) => Some(c),
        SwitchProgress::SettingDefaultHost(c) => Some(c),
        SwitchProgress::ReportedDefaultHost(c) => Some(c),
        SwitchProgress::CheckingStatus(c) => Some(c),
        SwitchProgress::SwitchingAccount(c) => Some(c),
        SwitchProgress::CheckingUser(c) => Some(c),
        SwitchProgress::ReportedVerification(c) => Some(c),
        _ => None,
    }
}

/// Whether a change to the configuration of a VCS command line concerns
/// only the host of `context` on `vcs`, and, where it names an account,
/// the user of `context`.
pub open spec fn concerns_context(request: RequestView, vcs: Vcs, context: Context) -> bool {
    match request {
        RequestView::WriteHostCredentials { vcs: v, hostname, user, .. } => v == vcs && hostname
            == context.hostname@ && user == context.user@,
        RequestView::SetDefaultHost { vcs: v, hostname } => v == vcs && hostname == context.hostname@,
        RequestView::AuthSwitch { vcs: v, hostname, user } => v == vcs && hostname == context.hostname@ && user
            == context.user@,
        _ => false,
    }
}

/// The only change a switch makes to the saved contexts is to make the
/// context switched to the active one; it touches no repository file; and
/// every change it makes to the VCS configuration concerns the host and
/// user of that context.
pub proof fn law_switch_writes_only_what_it_switches_to(
    command: Switch,
    progress: SwitchProgress,
    reply: Reply,
    r: (SwitchProgress, Step),
)
    requires
        call_ensures(Switch::execute, (&command, progress, reply), r),
    ensures
        r.1@ matches StepView::Perform(request) ==> {
            &&& writes_storage(request) ==> request == RequestView::SetActive {
                active: ApplyContextView { name: command.name@, vcs: command.vcs },
            }
            &&& !writes_repository(request)
            &&& writes_vcs_configuration(request) ==> (match carried_context(progress) {
                Some(c) => concerns_context(request, command.vcs, c),
                None => false,
            })
        },
{
}

/// Once the context is made the active one and its stored token is read,
/// the switch succeeds whatever the VCS command line answers: a failure to
/// apply the token, to set the default host or to verify the login is
/// reported and the switch goes on.
pub proof fn law_switch_survives_vcs_answers(
    command: Switch,
    progress: SwitchProgress,
    reply: Reply,
    r: (SwitchProgress, Step),
)
    requires
        call_ensures(Switch::execute, (&command, progress, reply), r),
    ensures
        fails_on_answer(r.1@) ==> progress is CheckingExistence || progress is ReadingContext
            || progress is SettingActive || progress is ReadingToken,
{
}

/// A stored token is handed to the VCS command line for the host and user
/// of the context; once written there, the host reports that user logged
/// in, and API requests to it use that token.
pub proof fn law_switch_applies_stored_token(
    command: Switch,
    context: Context,
    token: String,
    hosts: Table,
    r: (SwitchProgress, Step),
)
    requires
        call_ensures(
            Switch::execute,
            (&command, SwitchProgress::ReadingToken(context), Reply::MaybeText(Some(token))),
            r,
        ),
        with_credentials(hosts, context.hostname@, context.user@, token@, token_key_of(command.vcs)) is Some,
    ensures
        r.1@ == StepView::Perform(
            RequestView::WriteHostCredentials {
                vcs: command.vcs,
                hostname: context.hostname@,
                user: context.user@,
                token: token@,
            },
        ),
        auth_status_text(
            with_credentials(hosts, context.hostname@, context.user@, token@, token_key_of(command.vcs))->0,
            context.hostname@,
        ) == logged_in_line(context.hostname@, context.user@),
        api_token_of(
            with_credentials(hosts, context.hostname@, context.user@, token@, token_key_of(command.vcs))->0,
            context.hostname@,
            token_key_of(command.vcs),
        ) == Ok::<Seq<char>, Seq<char>>(token@),
{
    lemma_token_keys_are_not_user(command.vcs);
    law_status_after_credentials(hosts, context.hostname@, context.user@, token@, token_key_of(command.vcs));
    law_token_after_credentials(hosts, context.hostname@, context.user@, token@, token_key_of(command.vcs));
}

/// The single steps of a switch, as its contract describes them.
pub open spec fn switch_moves(command: Switch) -> spec_fn(SwitchProgress, Reply, (SwitchProgress, Step)) -> bool {
    |progress: SwitchProgress, reply: Reply, result: (SwitchProgress, Step)|
        call_ensures(Switch::execute, (&command, progress, reply), result)
}

/// Whether a switch has come past reading the context.
pub open spec fn past_reading(progress: SwitchProgress) -> bool {
    !(progress is Start || progress is CheckingExistence || progress is ReadingContext)
}

proof fn lemma_switch_run_activates(command: Switch, progress: Seq<SwitchProgress>, replies: Seq<Reply>, steps: Seq<Step>, j: int)
    requires
        is_run(switch_moves(command), SwitchProgress::Start, progress, replies, steps),
        0 <= j < steps.len(),
        past_reading(progress[j]),
    ensures
        run_requests(steps, RequestView::SetActive { active: ApplyContextView { name: command.name@, vcs: command.vcs } }),
    decreases j,
{
    let moves = switch_moves(command);
    let prev = j - 1;
    if j == 0 {
        assert(progress[0] == SwitchProgress::Start);
    } else {
        assert(moves(progress[prev], replies[prev], (progress[prev + 1], steps[prev])));
        assert(steps[prev]@ is Perform);
        if past_reading(progress[prev]) {
            lemma_switch_run_activates(command, progress, replies, steps, prev);
        } else {
            assert(steps[prev]@ == StepView::Perform(
                RequestView::SetActive { active: ApplyContextView { name: command.name@, vcs: command.vcs } },
            ));
        }
    }
}

/// Whether a switch has asked to set the default host, or come past that.
pub open spec fn at_or_past_default_host(progress: SwitchProgress) -> bool {
    ||| progress is SettingDefaultHost
    ||| progress is ReportedDefaultHost
    ||| progress is CheckingStatus
    ||| progress is SwitchingAccount
    ||| progress is CheckingUser
    ||| progress is ReportedVerification
    ||| progress is Finishing
}

/// Whether some step of a switch asks to make the host of the context it
/// carries the default host of the VCS command line.
pub open spec fn run_sets_default_host(command: Switch, progress: Seq<SwitchProgress>, steps: Seq<Step>) -> bool {
    exists|i: int|
        0 <= i < steps.len() && carried_context(progress[i]) is Some && (#[trigger] steps[i])@ == StepView::Perform(
            RequestView::SetDefaultHost { vcs: command.vcs, hostname: carried_context(progress[i])->0.hostname@ },
        )
}

proof fn lemma_switch_run_sets_default_host(
    command: Switch,
    progress: Seq<SwitchProgress>,
    replies: Seq<Reply>,
    steps: Seq<Step>,
    j: int,
)
    requires
        is_run(switch_moves(command), SwitchProgress::Start, progress, replies, steps),
        0 <= j < steps.len(),
        at_or_past_default_host(progress[j]),
    ensures
        run_sets_default_host(command, progress, steps),
    decreases j,
{
    let moves = switch_moves(command);
    let prev = j - 1;
    if j == 0 {
        assert(progress[0] == SwitchProgress::Start);
    } else {
        assert(moves(progress[prev], replies[prev], (progress[prev + 1], steps[prev])));
        assert(steps[prev]@ is Perform);
        if at_or_past_default_host(progress[prev]) {
            lemma_switch_run_sets_default_host(command, progress, replies, steps, prev);
        } else {
            assert(progress[prev] is ReadingToken || progress[prev] is ReportedToken);
            assert(steps[prev]@ == StepView::Perform(
                RequestView::SetDefaultHost { vcs: command.vcs, hostname: carried_context(progress[prev])->0.hostname@ },
            ));
        }
    }
}

/// A whole switch: it changes no saved context, token or repository file
/// but to make the context switched to the active one; every change to the
/// VCS configuration concerns that context; it fails only when the context
/// cannot be found, read or made active or its token cannot be read; and
/// when it succeeds, it has made the context the active one and asked to
/// make the context's host the default host.
pub proof fn law_switch_run(command: Switch, progress: Seq<SwitchProgress>, replies: Seq<Reply>, steps: Seq<Step>)
    requires
        is_run(switch_moves(command), SwitchProgress::Start, progress, replies, steps),
    ensures
        forall|i: int|
            0 <= i < steps.len() ==> ((#[trigger] steps[i])@ matches StepView::Perform(request) ==> {
                &&& writes_storage(request) ==> request == RequestView::SetActive {
                    active: ApplyContextView { name: command.name@, vcs: command.vcs },
                }
                &&& !writes_repository(request)
                &&& writes_vcs_configuration(request) ==> (match carried_context(progress[i]) {
                    Some(c) => concerns_context(request, command.vcs, c),
                    None => false,
                })
            }),
        forall|i: int|
            0 <= i < steps.len() ==> (fails_on_answer((#[trigger] steps[i])@) ==> progress[i] is CheckingExistence
                || progress[i] is ReadingContext || progress[i] is SettingActive || progress[i] is ReadingToken),
        run_succeeded(steps) ==> run_requests(
            steps,
            RequestView::SetActive { active: ApplyContextView { name: command.name@, vcs: command.vcs } },
        ),
        run_succeeded(steps) ==> run_sets_default_host(command, progress, steps),
{
    let moves = switch_moves(command);
    assert forall|i: int| 0 <= i < steps.len() implies ((#[trigger] steps[i])@ matches StepView::Perform(request) ==> {
        &&& writes_storage(request) ==> request == RequestView::SetActive {
            active: ApplyContextView { name: command.name@, vcs: command.vcs },
        }
        &&& !writes_repository(request)
        &&& writes_vcs_configuration(request) ==> (match carried_context(progress[i]) {
            Some(c) => concerns_context(request, command.vcs, c),
            None => false,
        })
    }) by {
        assert(moves(progress[i], replies[i], (progress[i + 1], steps[i])));
        law_switch_writes_only_what_it_switches_to(command, progress[i], replies[i], (progress[i + 1], steps[i]));
    }
    assert forall|i: int| 0 <= i < steps.len() implies (fails_on_answer((#[trigger] steps[i])@) ==> progress[i] is CheckingExistence
        || progress[i] is ReadingContext || progress[i] is SettingActive || progress[i] is ReadingToken) by {
        assert(moves(progress[i], replies[i], (progress[i + 1], steps[i])));
        law_switch_survives_vcs_answers(command, progress[i], replies[i], (progress[i + 1], steps[i]));
    }
    if run_succeeded(steps) {
        let last = steps.len() - 1;
        assert(moves(progress[last], replies[last], (progress[last + 1], steps[last])));
        assert(progress[last] is Finishing);
        lemma_switch_run_activates(command, progress, replies, steps, last);
        lemma_switch_run_sets_default_host(command, progress, replies, steps, last);
    }
}

} // verus!
