use vstd::prelude::*;

use crate::apply_context::ApplyContext;
use crate::cmd::list::{active_marker, active_marker_text};
use crate::cmd::protocol::{
    LogLevel, Reply, Request, RequestView, Step, StepView, fail, fails_on_answer, log, log_view, perform,
    step_writes, succeed, unexpected_reply, unexpected_reply_message, is_run, run_succeeded,
};
use crate::cmd::switch::{login_instruction, login_instruction_text};
use crate::context::{Context, ContextView};
use crate::hosts::logged_in_line;
use crate::storage::{ContextList, law_listing_visits_each_context_once, lemma_positions_valid, lemma_rank_position};
use crate::text::{contains, contains_text};
use crate::transport::transport_name;
use crate::vcs::{Vcs, vcs_name};

verus! {

/// Shows, for every saved context, its host, user, transport, whether a
/// token is stored, and whether the VCS command line is logged in as its
/// user.
pub struct AuthStatus;

/// How far the report has come: the contexts found and the active one
/// travel with the later stages, with the position of the context at hand
/// and what was learnt of it.
pub enum AuthStatusProgress {
    Start,
    Listing,
    ReadingActive(ContextList),
    Heading(ContextList, Option<ApplyContext>, Vcs, usize),
    Reading(ContextList, Option<ApplyContext>, Vcs, usize),
    ReadingToken(ContextList, Option<ApplyContext>, Vcs, usize, Context),
    CheckingAuth(ContextList, Option<ApplyContext>, Vcs, usize, Context, bool),
    Reported(ContextList, Option<ApplyContext>, Vcs, usize),
    Reporting,
}

/// What the report says of a context whose user is not logged in.
pub open spec fn unauthenticated_hint(vcs: Vcs, name: Seq<char>, hostname: Seq<char>, user: Seq<char>) -> Seq<char> {
    "not authenticated\n    "@ + login_instruction(vcs, name, hostname, user)
}

/// What the report says of the token of a context.
pub open spec fn token_info(has_stored_token: bool) -> Seq<char> {
    if has_stored_token {
        "stored"@
    } else {
        "none (using shared keyring)"@
    }
}

/// What the report says of the login of a context.
pub open spec fn auth_info(authenticated: bool, vcs: Vcs, name: Seq<char>, context: ContextView) -> Seq<char> {
    if authenticated {
        "verified"@
    } else {
        unauthenticated_hint(vcs, name, context.hostname, context.user)
    }
}

/// The report on one context.
pub open spec fn context_entry(
    name: Seq<char>,
    marker: Seq<char>,
    context: ContextView,
    token_text: Seq<char>,
    auth_text: Seq<char>,
) -> Seq<char> {
    name + marker + "\n  Host: "@ + context.hostname + "\n  User: "@ + context.user + "\n  Transport: "@
        + transport_name(context.transport) + "\n  Token: "@ + token_text + "\n  Auth: "@ + auth_text
}

pub open spec fn no_contexts_found_message() -> Seq<char> {
    "No contexts found."@
}

/// Formats what the report says of a context whose user is not logged in.
pub fn format_unauthenticated_hint(vcs: Vcs, name: &str, hostname: &str, user: &str) -> (r: String)
    ensures
        r@ == unauthenticated_hint(vcs, name@, hostname@, user@),
{
    let mut hint = "not authenticated\n    ".to_owned();
    let instruction = login_instruction_text(vcs, name, hostname, user);
    hint.append(instruction.as_str());
    hint
}

/// Formats the report on one context.
pub fn format_context_entry(
    name: &str,
    active_marker: &str,
    context: &Context,
    token_info: &str,
    auth_info: &str,
) -> (r: String)
    ensures
        r@ == context_entry(name@, active_marker@, context@, token_info@, auth_info@),
{
    let mut entry = name.to_owned();
    entry.append(active_marker);
    entry.append("\n  Host: ");
    entry.append(context.hostname.as_str());
    entry.append("\n  User: ");
    entry.append(context.user.as_str());
    entry.append("\n  Transport: ");
    entry.append(context.transport.name());
    entry.append("\n  Token: ");
    entry.append(token_info);
    entry.append("\n  Auth: ");
    entry.append(auth_info);
    entry
}

impl AuthStatus {
    fn read_at(list: ContextList, active: Option<ApplyContext>, vcs: Vcs, index: usize) -> (r: (AuthStatusProgress, Step))
        requires
            list@.has_position(vcs, index as int),
        ensures
            r.0 == AuthStatusProgress::Reading(list, active, vcs, index),
            r.1@ == StepView::Perform(RequestView::ReadContext { name: list@.names(vcs)[index as int], vcs }),
    {
        let name = list.name_at(vcs, index).clone();
        (AuthStatusProgress::Reading(list, active, vcs, index), perform(Request::ReadContext { name, vcs }))
    }

    fn entry_step(
        list: &ContextList,
        active: &Option<ApplyContext>,
        vcs: Vcs,
        index: usize,
        context: &Context,
        has_stored_token: bool,
        authenticated: bool,
    ) -> (s: Step)
        requires
            list@.has_position(vcs, index as int),
        ensures
            s@ == log_view(
                LogLevel::Info,
                context_entry(
                    list@.names(vcs)[index as int],
                    active_marker(*active, list@.names(vcs)[index as int], vcs),
                    context@,
                    token_info(has_stored_token),
                    auth_info(authenticated, vcs, list@.names(vcs)[index as int], context@),
                ),
            ),
    {
        let name = list.name_at(vcs, index);
        let marker = active_marker_text(active, name.as_str(), vcs);
        let token_text = if has_stored_token {
            "stored"
        } else {
            "none (using shared keyring)"
        };
        let auth_text = if authenticated {
            "verified".to_owned()
        } else {
            format_unauthenticated_hint(vcs, name.as_str(), context.hostname.as_str(), context.user.as_str())
        };
        log(LogLevel::Info, format_context_entry(name.as_str(), marker, context, token_text, auth_text.as_str()))
    }

    /// One step of the report: the contexts and the active one are read;
    /// then, under a heading per VCS, each context is read together with
    /// its stored token and the login state of its host, and reported.
    pub fn execute(&self, progress: AuthStatusProgress, reply: Reply) -> (r: (AuthStatusProgress, Step))
        ensures
            progress is Start ==> r.0 is Listing && r.1@ == StepView::Perform(RequestView::ListContexts),
            progress is Listing ==> match reply {
                Reply::Contexts(list) => r.0 == AuthStatusProgress::ReadingActive(list) && r.1@
                    == StepView::Perform(RequestView::GetActive),
                Reply::Failed(e) => r.1@ == StepView::Fail(e.message@),
                _ => r.1@ == StepView::Fail(unexpected_reply_message()),
            },
            progress matches AuthStatusProgress::ReadingActive(list) ==> match reply {
                Reply::Active(active) => match list@.first_position() {
                    None => r.0 is Reporting && r.1@ == log_view(LogLevel::Info, no_contexts_found_message()),
                    Some((vcs, index)) => r.0 == AuthStatusProgress::Heading(list, active, vcs, index as usize)
                        && r.1@ == log_view(LogLevel::Info, vcs_name(vcs)),
                },
                Reply::Failed(e) => r.1@ == StepView::Fail(e.message@),
                _ => r.1@ == StepView::Fail(unexpected_reply_message()),
            },
            progress matches AuthStatusProgress::Heading(list, active, vcs, index) ==> if !list@.has_position(
                vcs,
                index as int,
            ) {
                r.1@ == StepView::Fail(unexpected_reply_message())
            } else {
                r.0 == AuthStatusProgress::Reading(list, active, vcs, index) && r.1@ == StepView::Perform(
                    RequestView::ReadContext { name: list@.names(vcs)[index as int], vcs },
                )
            },
            progress matches AuthStatusProgress::Reading(list, active, vcs, index) ==> if !list@.has_position(
                vcs,
                index as int,
            ) {
                r.1@ == StepView::Fail(unexpected_reply_message())
            } else {
                match reply {
                    Reply::Context(c) => r.0 == AuthStatusProgress::ReadingToken(list, active, vcs, index, c)
                        && r.1@ == StepView::Perform(
                        RequestView::ReadToken { name: list@.names(vcs)[index as int], vcs },
                    ),
                    Reply::Failed(e) => r.1@ == StepView::Fail(e.message@),
                    _ => r.1@ == StepView::Fail(unexpected_reply_message()),
                }
            },
            progress matches AuthStatusProgress::ReadingToken(list, active, vcs, index, c) ==> match reply {
                Reply::MaybeText(token) => r.0 == AuthStatusProgress::CheckingAuth(
                    list,
                    active,
                    vcs,
                    index,
                    c,
                    token is Some,
                ) && r.1@ == StepView::Perform(RequestView::AuthStatus { vcs, hostname: c.hostname@ }),
                Reply::Failed(e) => r.1@ == StepView::Fail(e.message@),
                _ => r.1@ == StepView::Fail(unexpected_reply_message()),
            },
            progress matches AuthStatusProgress::CheckingAuth(list, active, vcs, index, c, has_token) ==> if !list@.has_position(
                vcs,
                index as int,
            ) {
                r.1@ == StepView::Fail(unexpected_reply_message())
            } else {
                match reply {
                    Reply::Text(output) => r.0 == AuthStatusProgress::Reported(list, active, vcs, index) && r.1@
                        == log_view(
                        LogLevel::Info,
                        context_entry(
                            list@.names(vcs)[index as int],
                            active_marker(active, list@.names(vcs)[index as int], vcs),
                            c@,
                            token_info(has_token),
                            auth_info(
                                contains_text(output@, logged_in_line(c.hostname@, c.user@)),
                                vcs,
                                list@.names(vcs)[index as int],
                                c@,
                            ),
                        ),
                    ),
                    Reply::Failed(_) => r.0 == AuthStatusProgress::Reported(list, active, vcs, index) && r.1@
                        == log_view(
                        LogLevel::Info,
                        context_entry(
                            list@.names(vcs)[index as int],
                            active_marker(active, list@.names(vcs)[index as int], vcs),
                            c@,
                            token_info(has_token),
                            auth_info(false, vcs, list@.names(vcs)[index as int], c@),
                        ),
                    ),
                    _ => r.1@ == StepView::Fail(unexpected_reply_message()),
                }
            },
            progress matches AuthStatusProgress::Reported(list, active, vcs, index) ==> if !list@.has_position(
                vcs,
                index as int,
            ) {
                r.1@ == StepView::Fail(unexpected_reply_message())
            } else {
                match list@.next_position(vcs, index as int) {
                    None => r.1@ == StepView::Succeed,
                    Some((next_vcs, next_index)) => if next_vcs == vcs {
                        r.0 == AuthStatusProgress::Reading(list, active, next_vcs, next_index as usize) && r.1@
                            == StepView::Perform(
                            RequestView::ReadContext { name: list@.names(next_vcs)[next_index], vcs: next_vcs },
                        )
                    } else {
                        r.0 == AuthStatusProgress::Heading(list, active, next_vcs, next_index as usize) && r.1@
                            == log_view(LogLevel::Info, vcs_name(next_vcs))
                    },
                }
            },
            progress is Reporting ==> r.1@ == StepView::Succeed,
    {
        match progress {
            AuthStatusProgress::Start => (AuthStatusProgress::Listing, perform(Request::ListContexts)),
            AuthStatusProgress::Listing => match reply {
                Reply::Contexts(list) => (AuthStatusProgress::ReadingActive(list), perform(Request::GetActive)),
                Reply::Failed(e) => (AuthStatusProgress::Reporting, fail(e)),
                _ => (AuthStatusProgress::Reporting, unexpected_reply()),
            },
            AuthStatusProgress::ReadingActive(list) => match reply {
                Reply::Active(active) => match list.first_position() {
                    None => (
                        AuthStatusProgress::Reporting,
                        log(LogLevel::Info, "No contexts found.".to_owned()),
                    ),
                    Some((vcs, index)) => (
                        AuthStatusProgress::Heading(list, active, vcs, index),
                        log(LogLevel::Info, vcs.to_string()),
                    ),
                },
                Reply::Failed(e) => (AuthStatusProgress::Reporting, fail(e)),
                _ => (AuthStatusProgress::Reporting, unexpected_reply()),
            },
            AuthStatusProgress::Heading(list, active, vcs, index) => if !list.has_position(vcs, index) {
                (AuthStatusProgress::Reporting, unexpected_reply())
            } else {
                AuthStatus::read_at(list, active, vcs, index)
            },
            AuthStatusProgress::Reading(list, active, vcs, index) => if !list.has_position(vcs, index) {
                (AuthStatusProgress::Reporting, unexpected_reply())
            } else {
                match reply {
                    Reply::Context(c) => {
                        let name = list.name_at(vcs, index).clone();
                        (
                            AuthStatusProgress::ReadingToken(list, active, vcs, index, c),
                            perform(Request::ReadToken { name, vcs }),
                        )
                    },
                    Reply::Failed(e) => (AuthStatusProgress::Reporting, fail(e)),
                    _ => (AuthStatusProgress::Reporting, unexpected_reply()),
                }
            },
            AuthStatusProgress::ReadingToken(list, active, vcs, index, c) => match reply {
                Reply::MaybeText(token) => {
                    let request = Request::AuthStatus { vcs, hostname: c.hostname.clone() };
                    (
                        AuthStatusProgress::CheckingAuth(list, active, vcs, index, c, token.is_some()),
                        perform(request),
                    )
                },
                Reply::Failed(e) => (AuthStatusProgress::Reporting, fail(e)),
                _ => (AuthStatusProgress::Reporting, unexpected_reply()),
            },
            AuthStatusProgress::CheckingAuth(list, active, vcs, index, c, has_token) => if !list.has_position(
                vcs,
                index,
            ) {
                (AuthStatusProgress::Reporting, unexpected_reply())
            } else {
                match reply {
                    Reply::Text(output) => {
                        let mut expected = "Logged in to ".to_owned();
                        expected.append(c.hostname.as_str());
                        expected.append(" account ");
                        expected.append(c.user.as_str());
                        let authenticated = contains(output.as_str(), expected.as_str());
                        let step = AuthStatus::entry_step(&list, &active, vcs, index, &c, has_token, authenticated);
                        (AuthStatusProgress::Reported(list, active, vcs, index), step)
                    },
                    Reply::Failed(_) => {
                        let step = AuthStatus::entry_step(&list, &active, vcs, index, &c, has_token, false);
                        (AuthStatusProgress::Reported(list, active, vcs, index), step)
                    },
                    _ => (AuthStatusProgress::Reporting, unexpected_reply()),
                }
            },
            AuthStatusProgress::Reported(list, active, vcs, index) => if !list.has_position(vcs, index) {
                (AuthStatusProgress::Reporting, unexpected_reply())
            } else {
                match list.next_position(vcs, index) {
                    None => (AuthStatusProgress::Reporting, succeed()),
                    Some((next_vcs, next_index)) => {
                        proof {
                            lemma_positions_valid(list@);
                        }
                        if next_vcs == vcs {
                            AuthStatus::read_at(list, active, next_vcs, next_index)
                        } else {
                            (
                                AuthStatusProgress::Heading(list, active, next_vcs, next_index),
                                log(LogLevel::Info, next_vcs.to_string()),
                            )
                        }
                    },
                }
            },
            AuthStatusProgress::Reporting => (AuthStatusProgress::Reporting, succeed()),
        }
    }
}

/// The context that the report turns to next: the one it reads, or the
/// one it writes a heading for.
pub open spec fn next_report(progress: AuthStatusProgress) -> Option<(ContextList, Option<ApplyContext>, Vcs, usize)> {
    match progress {
        AuthStatusProgress::Reading(l, a, v, i) => Some((l, a, v, i)),
        AuthStatusProgress::Heading(l, a, v, i) => Some((l, a, v, i)),
        _ => None,
    }
}

/// The report changes nothing, and fails only when the contexts, the
/// active context, a context or a token cannot be read: whatever the VCS
/// command line answers about a login, the report goes on.
pub proof fn law_auth_status_reads_only(
    command: AuthStatus,
    progress: AuthStatusProgress,
    reply: Reply,
    r: (AuthStatusProgress, Step),
)
    requires
        call_ensures(AuthStatus::execute, (&command, progress, reply), r),
    ensures
        !step_writes(r.1@),
        fails_on_answer(r.1@) ==> progress is Listing || progress is ReadingActive || progress is Reading
            || progress is ReadingToken,
{
}

/// After reporting on a context, the report goes on with the context of
/// the next rank in listing order, under a heading when its VCS changes,
/// or, after the last one, finishes; so each context is reported once, in
/// order.
pub proof fn law_auth_status_goes_to_next_context(
    command: AuthStatus,
    list: ContextList,
    active: Option<ApplyContext>,
    vcs: Vcs,
    index: usize,
    reply: Reply,
    r: (AuthStatusProgress, Step),
)
    requires
        call_ensures(
            AuthStatus::execute,
            (&command, AuthStatusProgress::Reported(list, active, vcs, index), reply),
            r,
        ),
        list@.has_position(vcs, index as int),
        list@.total() <= usize::MAX,
    ensures
        r.1@ == StepView::Succeed <==> list@.rank(vcs, index as int) == list@.total() - 1,
        r.1@ != StepView::Succeed ==> (next_report(r.0) matches Some((l, a, v, i)) && l == list && a == active
            && list@.has_position(v, i as int) && list@.rank(v, i as int) == list@.rank(vcs, index as int) + 1
            && (r.0 is Heading <==> v != vcs)),
{
    law_listing_visits_each_context_once(list@, vcs, index as int, vcs, index as int);
}

/// The single steps of the report, as its contract describes them.
pub open spec fn auth_status_moves(command: AuthStatus) -> spec_fn(AuthStatusProgress, Reply, (AuthStatusProgress, Step)) -> bool {
    |progress: AuthStatusProgress, reply: Reply, result: (AuthStatusProgress, Step)|
        call_ensures(AuthStatus::execute, (&command, progress, reply), result)
}

/// The contexts that a stage of the report carries.
pub open spec fn carried_contexts(progress: AuthStatusProgress) -> Option<ContextList> {
    match progress {
        AuthStatusProgress::ReadingActive(list) => Some(list),
        AuthStatusProgress::Heading(list, _, _, _) => Some(list),
        AuthStatusProgress::Reading(list, _, _, _) => Some(list),
        AuthStatusProgress::ReadingToken(list, _, _, _, _) => Some(list),
        AuthStatusProgress::CheckingAuth(list, _, _, _, _, _) => Some(list),
        AuthStatusProgress::Reported(list, _, _, _) => Some(list),
        _ => None,
    }
}

/// The position that a stage of the report is at, with the contexts and
/// the active context it carries.
pub open spec fn report_position(progress: AuthStatusProgress) -> Option<(ContextList, Option<ApplyContext>, Vcs, usize)> {
    match progress {
        AuthStatusProgress::Heading(l, a, v, x) => Some((l, a, v, x)),
        AuthStatusProgress::Reading(l, a, v, x) => Some((l, a, v, x)),
        AuthStatusProgress::ReadingToken(l, a, v, x, _) => Some((l, a, v, x)),
        AuthStatusProgress::CheckingAuth(l, a, v, x, _, _) => Some((l, a, v, x)),
        AuthStatusProgress::Reported(l, a, v, x) => Some((l, a, v, x)),
        _ => None,
    }
}

/// Whether the VCS command line's answer says the user of `context` is
/// logged in.
pub open spec fn login_verified(reply: Reply, context: Context) -> bool {
    match reply {
        Reply::Text(output) => contains_text(output@, logged_in_line(context.hostname@, context.user@)),
        _ => false,
    }
}

/// Whether step `i` of a run reports on the context of rank `rank` of
/// `list`: with the marker of the active context, the token that the step
/// before found or not, and whether the login was verified.
pub open spec fn reports_entry(
    progress: Seq<AuthStatusProgress>,
    replies: Seq<Reply>,
    steps: Seq<Step>,
    list: ContextList,
    active: Option<ApplyContext>,
    i: int,
    rank: int,
) -> bool {
    let (vcs, index) = list@.position_at(rank);
    let name = list@.names(vcs)[index];
    &&& 0 <= rank < list@.total()
    &&& 0 < i
    &&& progress[i] is CheckingAuth
    &&& report_position(progress[i]) == Some((list, active, vcs, index as usize))
    &&& progress[i - 1] == AuthStatusProgress::ReadingToken(list, active, vcs, index as usize, progress[i]->CheckingAuth_4)
    &&& replies[i - 1] is MaybeText
    &&& progress[i]->CheckingAuth_5 == replies[i - 1]->MaybeText_0 is Some
    &&& (replies[i] is Text || replies[i] is Failed)
    &&& steps[i]@ == log_view(
        LogLevel::Info,
        context_entry(
            name,
            active_marker(active, name, vcs),
            progress[i]->CheckingAuth_4@,
            token_info(progress[i]->CheckingAuth_5),
            auth_info(login_verified(replies[i], progress[i]->CheckingAuth_4), vcs, name, progress[i]->CheckingAuth_4@),
        ),
    )
}

/// Whether some step of a run before `k` reports on the context of rank
/// `rank` of `list`.
pub open spec fn reported_by(
    progress: Seq<AuthStatusProgress>,
    replies: Seq<Reply>,
    steps: Seq<Step>,
    list: ContextList,
    active: Option<ApplyContext>,
    k: int,
    rank: int,
) -> bool {
    exists|i: int| 0 <= i < k && #[trigger] reports_entry(progress, replies, steps, list, active, i, rank)
}

/// Whether the steps of a run before `k` report on every context of rank
/// below `upto`.
pub open spec fn reported_before(
    progress: Seq<AuthStatusProgress>,
    replies: Seq<Reply>,
    steps: Seq<Step>,
    list: ContextList,
    active: Option<ApplyContext>,
    k: int,
    upto: int,
) -> bool {
    forall|rank: int| 0 <= rank < upto ==> #[trigger] reported_by(progress, replies, steps, list, active, k, rank)
}

/// The rank a stage of the report has reached, and whether it has logged
/// the entry of the context at it.
pub open spec fn reported_upto(progress: AuthStatusProgress) -> int {
    match progress {
        AuthStatusProgress::Reported(l, _, v, x) => l@.rank(v, x as int) + 1,
        _ => match report_position(progress) {
            Some((l, _, v, x)) => l@.rank(v, x as int),
            None => 0,
        },
    }
}

proof fn lemma_auth_status_run_reports(
    command: AuthStatus,
    progress: Seq<AuthStatusProgress>,
    replies: Seq<Reply>,
    steps: Seq<Step>,
    k: int,
)
    requires
        is_run(auth_status_moves(command), AuthStatusProgress::Start, progress, replies, steps),
        forall|i: int| 0 <= i < progress.len() ==> (#[trigger] carried_contexts(progress[i]) matches Some(l) ==> l@.fits()),
        0 <= k < steps.len(),
    ensures
        report_position(progress[k]) matches Some((l, a, v, x)) ==> l@.has_position(v, x as int) ==> reported_before(
            progress,
            replies,
            steps,
            l,
            a,
            k,
            reported_upto(progress[k]),
        ),
    decreases k,
{
    let moves = auth_status_moves(command);
    if k > 0 {
        let prev = k - 1;
        assert(moves(progress[prev], replies[prev], (progress[prev + 1], steps[prev])));
        assert(steps[prev]@ is Perform);
        lemma_auth_status_run_reports(command, progress, replies, steps, prev);
        assert(carried_contexts(progress[prev]) matches Some(l) ==> l@.fits());
        if let Some((l, a, v, x)) = report_position(progress[k]) {
            if l@.has_position(v, x as int) {
                let upto = reported_upto(progress[k]);
                match progress[prev] {
                    AuthStatusProgress::Reported(pl, pa, pv, px) => {
                        law_listing_visits_each_context_once(pl@, pv, px as int, pv, px as int);
                        assert(pl == l && pa == a);
                        assert forall|rank: int| 0 <= rank < upto implies reported_by(progress, replies, steps, l, a, k, rank) by {
                            assert(reported_by(progress, replies, steps, l, a, prev, rank));
                            let i = choose|i: int| 0 <= i < prev && #[trigger] reports_entry(progress, replies, steps, l, a, i, rank);
                            assert(reports_entry(progress, replies, steps, l, a, i, rank));
                        }
                    },
                    AuthStatusProgress::ReadingActive(pl) => {
                        law_listing_visits_each_context_once(pl@, Vcs::Github, 0, Vcs::Github, 0);
                    },
                    AuthStatusProgress::CheckingAuth(pl, pa, pv, px, c, h) => {
                        assert(progress[k] == AuthStatusProgress::Reported(pl, pa, pv, px));
                        lemma_rank_position(l@, l@.rank(v, x as int), v, x as int);
                        let pp = prev - 1;
                        assert(prev > 0) by {
                            if prev == 0 {
                                assert(progress[0] == AuthStatusProgress::Start);
                            }
                        }
                        assert(moves(progress[pp], replies[pp], (progress[pp + 1], steps[pp])));
                        assert(steps[pp]@ is Perform);
                        assert(reports_entry(progress, replies, steps, l, a, prev, l@.rank(v, x as int)));
                        assert forall|rank: int| 0 <= rank < upto implies reported_by(progress, replies, steps, l, a, k, rank) by {
                            if rank < l@.rank(v, x as int) {
                                assert(reported_by(progress, replies, steps, l, a, prev, rank));
                                let i = choose|i: int| 0 <= i < prev && #[trigger] reports_entry(progress, replies, steps, l, a, i, rank);
                                assert(reports_entry(progress, replies, steps, l, a, i, rank));
                            } else {
                                assert(reports_entry(progress, replies, steps, l, a, prev, rank));
                            }
                        }
                    },
                    _ => {
                        assert forall|rank: int| 0 <= rank < upto implies reported_by(progress, replies, steps, l, a, k, rank) by {
                            assert(reported_by(progress, replies, steps, l, a, prev, rank));
                            let i = choose|i: int| 0 <= i < prev && #[trigger] reports_entry(progress, replies, steps, l, a, i, rank);
                            assert(reports_entry(progress, replies, steps, l, a, i, rank));
                        }
                    },
                }
            }
        }
    }
}

/// A whole report: it changes nothing; and when it succeeds it has
/// reported, for the contexts it was given and the active context it read,
/// on every context in listing order: its entry shows the marker of the
/// active context, whether the step before found a stored token, and
/// whether the VCS command line's answer verified the login, whatever that
/// answer was; or there was no context, and it said so.
pub proof fn law_auth_status_run(
    command: AuthStatus,
    progress: Seq<AuthStatusProgress>,
    replies: Seq<Reply>,
    steps: Seq<Step>,
)
    requires
        is_run(auth_status_moves(command), AuthStatusProgress::Start, progress, replies, steps),
        forall|i: int| 0 <= i < progress.len() ==> (#[trigger] carried_contexts(progress[i]) matches Some(l) ==> l@.fits()),
    ensures
        forall|i: int| 0 <= i < steps.len() ==> !step_writes(#[trigger] steps[i]@),
        run_succeeded(steps) ==> (match progress[steps.len() - 1] {
            AuthStatusProgress::Reported(list, active, _, _) => list@.total() > 0 && reported_before(
                progress,
                replies,
                steps,
                list,
                active,
                steps.len() as int,
                list@.total(),
            ),
            _ => steps.len() >= 2 && steps[steps.len() - 2]@ == log_view(LogLevel::Info, no_contexts_found_message())
                && (match carried_contexts(progress[steps.len() - 2]) {
                Some(list) => list@.total() == 0,
                None => false,
            }),
        }),
{
    let moves = auth_status_moves(command);
    assert forall|i: int| 0 <= i < steps.len() implies !step_writes(#[trigger] steps[i]@) by {
        assert(moves(progress[i], replies[i], (progress[i + 1], steps[i])));
        law_auth_status_reads_only(command, progress[i], replies[i], (progress[i + 1], steps[i]));
    }
    if run_succeeded(steps) {
        let last = steps.len() - 1;
        assert(moves(progress[last], replies[last], (progress[last + 1], steps[last])));
        assert(carried_contexts(progress[last]) matches Some(l) ==> l@.fits());
        match progress[last] {
            AuthStatusProgress::Reported(list, active, vcs, index) => {
                law_listing_visits_each_context_once(list@, vcs, index as int, vcs, index as int);
                lemma_auth_status_run_reports(command, progress, replies, steps, last);
                assert forall|rank: int| 0 <= rank < list@.total() implies reported_by(progress, replies, steps, list, active, steps.len() as int, rank) by {
                    assert(reported_by(progress, replies, steps, list, active, last, rank));
                    let i = choose|i: int| 0 <= i < last && #[trigger] reports_entry(progress, replies, steps, list, active, i, rank);
                    assert(reports_entry(progress, replies, steps, list, active, i, rank));
                }
            },
            _ => {
                assert(progress[last] is Reporting);
                let prev = last - 1;
                if last == 0 {
                    assert(progress[0] == AuthStatusProgress::Start);
                } else {
                    assert(moves(progress[prev], replies[prev], (progress[prev + 1], steps[prev])));
                    assert(steps[prev]@ is Perform);
                }
            },
        }
    }
}

} // verus!
