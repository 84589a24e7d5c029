use vstd::prelude::*;

use crate::apply_context::{ApplyContext, is_active_context, names_context};
use crate::cmd::protocol::{
    LogLevel, Reply, Request, RequestView, Step, StepView, fail, fails_on_answer, log, log_view, perform,
    step_writes, succeed, unexpected_reply, unexpected_reply_message, is_run, run_succeeded,
};
use crate::context::{Context, ContextView};
use crate::storage::{
    ContextList, ContextListView, law_listing_visits_each_context_once, lemma_positions_valid, lemma_rank_position,
};
use crate::transport::transport_name;
use crate::vcs::{Vcs, vcs_name};

verus! {

/// Lists the saved contexts, marking the active one.
pub struct List;

/// How far the listing has come: the contexts found and the active one
/// travel with the later stages, and the position of the context at hand.
pub enum ListProgress {
    Start,
    Listing,
    ReadingActive(ContextList),
    Reading(ContextList, Option<ApplyContext>, Vcs, usize),
    Reported(ContextList, Option<ApplyContext>, Vcs, usize),
    Reporting,
}

/// The mark after the name of the active context.
pub open spec fn active_marker(active: Option<ApplyContext>, name: Seq<char>, vcs: Vcs) -> Seq<char> {
    if names_context(active, name, vcs) {
        " *"@
    } else {
        ""@
    }
}

/// The line that lists one context.
pub open spec fn context_line(name: Seq<char>, marker: Seq<char>, context: ContextView, vcs_text: Seq<char>) -> Seq<char> {
    name + marker + " ("@ + context.user + "@"@ + context.hostname + ", "@ + transport_name(context.transport)
        + ", "@ + vcs_text + ")"@
}

pub open spec fn no_contexts_message() -> Seq<char> {
    "No contexts found. Create one with: kalamarnica create --name <name> --vcs <vcs> --hostname <host> --user <user>"@
}

/// In a listing whose names are distinct within each VCS, the context
/// marked as active is the active one, and at most one context is marked.
pub proof fn law_only_active_context_marked(
    list: ContextListView,
    active: Option<ApplyContext>,
    vcs1: Vcs,
    index1: int,
    vcs2: Vcs,
    index2: int,
)
    requires
        list.github.no_duplicates(),
        list.gitlab.no_duplicates(),
        list.has_position(vcs1, index1),
        list.has_position(vcs2, index2),
    ensures
        active_marker(active, list.names(vcs1)[index1], vcs1) == " *"@ <==> names_context(
            active,
            list.names(vcs1)[index1],
            vcs1,
        ),
        active_marker(active, list.names(vcs1)[index1], vcs1) == " *"@ && active_marker(
            active,
            list.names(vcs2)[index2],
            vcs2,
        ) == " *"@ ==> vcs1 == vcs2 && index1 == index2,
{
    reveal_strlit(" *");
    reveal_strlit("");
    assert(" *"@.len() == 2);
    assert(""@.len() == 0);
    let n1 = list.names(vcs1)[index1];
    let n2 = list.names(vcs2)[index2];
    if names_context(active, n1, vcs1) && names_context(active, n2, vcs2) {
        assert(vcs1 == vcs2);
        assert(list.names(vcs1).no_duplicates());
        assert(index1 == index2);
    }
}

pub fn active_marker_text(active: &Option<ApplyContext>, name: &str, vcs: Vcs) -> (r: &'static str)
    ensures
        r@ == active_marker(*active, name@, vcs),
{
    if is_active_context(active, name, vcs) {
        " *"
    } else {
        ""
    }
}

/// Formats the line that lists one context.
pub fn format_context_line(name: &str, active_marker: &str, context: &Context, vcs_str: &str) -> (r: String)
    ensures
        r@ == context_line(name@, active_marker@, context@, vcs_str@),
{
    let mut line = name.to_owned();
    line.append(active_marker);
    line.append(" (");
    line.append(context.user.as_str());
    line.append("@");
    line.append(context.hostname.as_str());
    line.append(", ");
    line.append(context.transport.name());
    line.append(", ");
    line.append(vcs_str);
    line.append(")");
    line
}

impl List {
    fn read_at(list: ContextList, active: Option<ApplyContext>, vcs: Vcs, index: usize) -> (r: (ListProgress, Step))
        requires
            list@.has_position(vcs, index as int),
        ensures
            r.0 == ListProgress::Reading(list, active, vcs, index),
            r.1@ == StepView::Perform(
                RequestView::ReadContext { name: list@.names(vcs)[index as int], vcs },
            ),
    {
        let name = list.name_at(vcs, index).clone();
        (ListProgress::Reading(list, active, vcs, index), perform(Request::ReadContext { name, vcs }))
    }

    /// One step of the listing: the contexts and the active one are read;
    /// then each context, GitHub ones first, is read and shown on a line.
    pub fn execute(&self, progress: ListProgress, reply: Reply) -> (r: (ListProgress, Step))
        ensures
            progress is Start ==> r.0 is Listing && r.1@ == StepView::Perform(RequestView::ListContexts),
            progress is Listing ==> match reply {
                Reply::Contexts(list) => r.0 == ListProgress::ReadingActive(list) && r.1@ == StepView::Perform(
                    RequestView::GetActive,
                ),
                Reply::Failed(e) => r.1@ == StepView::Fail(e.message@),
                _ => r.1@ == StepView::Fail(unexpected_reply_message()),
            },
            progress matches ListProgress::ReadingActive(list) ==> match reply {
                Reply::Active(active) => match list@.first_position() {
                    None => r.0 is Reporting && r.1@ == log_view(LogLevel::Info, no_contexts_message()),
                    Some((vcs, index)) => r.0 == ListProgress::Reading(list, active, vcs, index as usize)
                        && r.1@ == StepView::Perform(
                        RequestView::ReadContext { name: list@.names(vcs)[index], vcs },
                    ),
                },
                Reply::Failed(e) => r.1@ == StepView::Fail(e.message@),
                _ => r.1@ == StepView::Fail(unexpected_reply_message()),
            },
            progress matches ListProgress::Reading(list, active, vcs, index) ==> if !list@.has_position(
                vcs,
                index as int,
            ) {
                r.1@ == StepView::Fail(unexpected_reply_message())
            } else {
                match reply {
                Reply::Context(c) => r.0 == ListProgress::Reported(list, active, vcs, index) && r.1@ == log_view(
                    LogLevel::Info,
                    context_line(
                        list@.names(vcs)[index as int],
                        active_marker(active, list@.names(vcs)[index as int], vcs),
                        c@,
                        vcs_name(vcs),
                    ),
                ),
                Reply::Failed(e) => r.1@ == StepView::Fail(e.message@),
                _ => r.1@ == StepView::Fail(unexpected_reply_message()),
                }
            },
            progress matches ListProgress::Reported(list, active, vcs, index) ==> if !list@.has_position(
                vcs,
                index as int,
            ) {
                r.1@ == StepView::Fail(unexpected_reply_message())
            } else {
                match list@.next_position(vcs, index as int) {
                None => r.1@ == StepView::Succeed,
                Some((next_vcs, next_index)) => r.0 == ListProgress::Reading(
                    list,
                    active,
                    next_vcs,
                    next_index as usize,
                ) && r.1@ == StepView::Perform(
                    RequestView::ReadContext { name: list@.names(next_vcs)[next_index], vcs: next_vcs },
                ),
                }
            },
            progress is Reporting ==> r.1@ == StepView::Succeed,
    {
        match progress {
            ListProgress::Start => (ListProgress::Listing, perform(Request::ListContexts)),
            ListProgress::Listing => match reply {
                Reply::Contexts(list) => (ListProgress::ReadingActive(list), perform(Request::GetActive)),
                Reply::Failed(e) => (ListProgress::Reporting, fail(e)),
                _ => (ListProgress::Reporting, unexpected_reply()),
            },
            ListProgress::ReadingActive(list) => match reply {
                Reply::Active(active) => match list.first_position() {
                    None => {
                        let message =
                            "No contexts found. Create one with: kalamarnica create --name <name> --vcs <vcs> --hostname <host> --user <user>"
                            .to_owned();
                        (ListProgress::Reporting, log(LogLevel::Info, message))
                    },
                    Some((vcs, index)) => {
                        proof {
                            lemma_positions_valid(list@);
                        }
                        List::read_at(list, active, vcs, index)
                    },
                },
                Reply::Failed(e) => (ListProgress::Reporting, fail(e)),
                _ => (ListProgress::Reporting, unexpected_reply()),
            },
            ListProgress::Reading(list, active, vcs, index) => if !list.has_position(vcs, index) {
                (ListProgress::Reporting, unexpected_reply())
            } else {
                match reply {
                Reply::Context(c) => {
                    let line = {
                        let name = list.name_at(vcs, index);
                        let marker = active_marker_text(&active, name.as_str(), vcs);
                        format_context_line(name.as_str(), marker, &c, vcs.name())
                    };
                    (ListProgress::Reported(list, active, vcs, index), log(LogLevel::Info, line))
                },
                Reply::Failed(e) => (ListProgress::Reporting, fail(e)),
                _ => (ListProgress::Reporting, unexpected_reply()),
                }
            },
            ListProgress::Reported(list, active, vcs, index) => if !list.has_position(vcs, index) {
                (ListProgress::Reporting, unexpected_reply())
            } else {
                match list.next_position(vcs, index) {
                None => (ListProgress::Reporting, succeed()),
                Some((next_vcs, next_index)) => {
                    proof {
                        lemma_positions_valid(list@);
                    }
                    List::read_at(list, active, next_vcs, next_index)
                },
                }
            },
            ListProgress::Reporting => (ListProgress::Reporting, succeed()),
        }
    }
}

/// The listing changes nothing, fails only when the contexts, the active
/// context or a context cannot be read, and reads first the context of
/// rank 0 in listing order.
pub proof fn law_list_reads_only(command: List, progress: ListProgress, reply: Reply, r: (ListProgress, Step))
    requires
        call_ensures(List::execute, (&command, progress, reply), r),
    ensures
        !step_writes(r.1@),
        fails_on_answer(r.1@) ==> progress is Listing || progress is ReadingActive || progress is Reading,
        progress matches ListProgress::ReadingActive(list) ==> (r.1@ is Perform ==> (r.0 matches ListProgress::Reading(
            l,
            a,
            v,
            i,
        ) ==> l == list && list@.has_position(v, i as int) && list@.rank(v, i as int) == 0)),
{
    if let ListProgress::ReadingActive(list) = progress {
        law_listing_visits_each_context_once(list@, Vcs::Github, 0, Vcs::Github, 0);
    }
}

/// After showing a context, the listing reads the context of the next rank
/// in listing order, with the same contexts and active context, or, after
/// the last one, finishes; so each context is shown once, in order.
pub proof fn law_list_goes_to_next_context(
    command: List,
    list: ContextList,
    active: Option<ApplyContext>,
    vcs: Vcs,
    index: usize,
    reply: Reply,
    r: (ListProgress, Step),
)
    requires
        call_ensures(List::execute, (&command, ListProgress::Reported(list, active, vcs, index), reply), r),
        list@.has_position(vcs, index as int),
        list@.total() <= usize::MAX,
    ensures
        r.1@ == StepView::Succeed <==> list@.rank(vcs, index as int) == list@.total() - 1,
        r.1@ is Perform ==> (r.0 matches ListProgress::Reading(l, a, v, i) && l == list && a == active
            && list@.has_position(v, i as int) && list@.rank(v, i as int) == list@.rank(vcs, index as int) + 1),
{
    law_listing_visits_each_context_once(list@, vcs, index as int, vcs, index as int);
}

/// The single steps of the listing, as its contract describes them.
pub open spec fn list_moves(command: List) -> spec_fn(ListProgress, Reply, (ListProgress, Step)) -> bool {
    |progress: ListProgress, reply: Reply, result: (ListProgress, Step)|
        call_ensures(List::execute, (&command, progress, reply), result)
}

/// The contexts that a stage of the listing carries.
pub open spec fn carried_list(progress: ListProgress) -> Option<ContextList> {
    match progress {
        ListProgress::ReadingActive(list) => Some(list),
        ListProgress::Reading(list, _, _, _) => Some(list),
        ListProgress::Reported(list, _, _, _) => Some(list),
        _ => None,
    }
}

/// Whether step `i` of a run shows the line of the context of rank `rank`
/// of `list`, marked when `active` names it.
pub open spec fn shows_line(
    progress: Seq<ListProgress>,
    replies: Seq<Reply>,
    steps: Seq<Step>,
    list: ContextList,
    active: Option<ApplyContext>,
    i: int,
    rank: int,
) -> bool {
    let (vcs, index) = list@.position_at(rank);
    &&& 0 <= rank < list@.total()
    &&& progress[i] == ListProgress::Reading(list, active, vcs, index as usize)
    &&& replies[i] is Context
    &&& steps[i]@ == log_view(
        LogLevel::Info,
        context_line(
            list@.names(vcs)[index],
            active_marker(active, list@.names(vcs)[index], vcs),
            replies[i]->Context_0@,
            vcs_name(vcs),
        ),
    )
}

/// Whether the steps of a run before `k` show the lines of the contexts of
/// every rank below `upto`, each at one step, in listing order.
pub open spec fn shown_before(
    progress: Seq<ListProgress>,
    replies: Seq<Reply>,
    steps: Seq<Step>,
    list: ContextList,
    active: Option<ApplyContext>,
    k: int,
    upto: int,
) -> bool {
    forall|rank: int| 0 <= rank < upto ==> #[trigger] shown_by(progress, replies, steps, list, active, k, rank)
}

/// Whether some step of a run before `k` shows the line of the context of
/// rank `rank` of `list`.
pub open spec fn shown_by(
    progress: Seq<ListProgress>,
    replies: Seq<Reply>,
    steps: Seq<Step>,
    list: ContextList,
    active: Option<ApplyContext>,
    k: int,
    rank: int,
) -> bool {
    exists|i: int| 0 <= i < k && #[trigger] shows_line(progress, replies, steps, list, active, i, rank)
}

proof fn lemma_list_run_shows(
    command: List,
    progress: Seq<ListProgress>,
    replies: Seq<Reply>,
    steps: Seq<Step>,
    k: int,
)
    requires
        is_run(list_moves(command), ListProgress::Start, progress, replies, steps),
        forall|i: int| 0 <= i < progress.len() ==> (#[trigger] carried_list(progress[i]) matches Some(l) ==> l@.fits()),
        0 <= k < steps.len(),
    ensures
        progress[k] matches ListProgress::Reading(l, a, v, x) ==> l@.has_position(v, x as int) ==> shown_before(
            progress,
            replies,
            steps,
            l,
            a,
            k,
            l@.rank(v, x as int),
        ),
        progress[k] matches ListProgress::Reported(l, a, v, x) ==> l@.has_position(v, x as int) ==> shown_before(
            progress,
            replies,
            steps,
            l,
            a,
            k,
            l@.rank(v, x as int) + 1,
        ),
    decreases k,
{
    let moves = list_moves(command);
    if k > 0 {
        let prev = k - 1;
        assert(moves(progress[prev], replies[prev], (progress[prev + 1], steps[prev])));
        assert(steps[prev]@ is Perform);
        lemma_list_run_shows(command, progress, replies, steps, prev);
        assert(carried_list(progress[prev]) matches Some(l) ==> l@.fits());
        match progress[k] {
            ListProgress::Reading(l, a, v, x) => {
                if l@.has_position(v, x as int) {
                    match progress[prev] {
                        ListProgress::Reported(pl, pa, pv, px) => {
                            law_listing_visits_each_context_once(pl@, pv, px as int, pv, px as int);
                            assert(pl == l && pa == a);
                            assert(l@.rank(v, x as int) == l@.rank(pv, px as int) + 1);
                            assert forall|rank: int| 0 <= rank < l@.rank(v, x as int) implies shown_by(progress, replies, steps, l, a, k, rank) by {
                                assert(shown_by(progress, replies, steps, l, a, prev, rank));
                                let i = choose|i: int| 0 <= i < prev && #[trigger] shows_line(progress, replies, steps, l, a, i, rank);
                                assert(shows_line(progress, replies, steps, l, a, i, rank));
                            }
                        },
                        ListProgress::ReadingActive(pl) => {
                            law_listing_visits_each_context_once(pl@, Vcs::Github, 0, Vcs::Github, 0);
                        },
                        _ => {},
                    }
                }
            },
            ListProgress::Reported(l, a, v, x) => {
                if l@.has_position(v, x as int) {
                    assert(progress[prev] == ListProgress::Reading(l, a, v, x));
                    lemma_rank_position(l@, l@.rank(v, x as int), v, x as int);
                    assert(shows_line(progress, replies, steps, l, a, prev, l@.rank(v, x as int)));
                    assert forall|rank: int| 0 <= rank < l@.rank(v, x as int) + 1 implies shown_by(progress, replies, steps, l, a, k, rank) by {
                        if rank < l@.rank(v, x as int) {
                            assert(shown_by(progress, replies, steps, l, a, prev, rank));
                            let i = choose|i: int| 0 <= i < prev && #[trigger] shows_line(progress, replies, steps, l, a, i, rank);
                            assert(shows_line(progress, replies, steps, l, a, i, rank));
                        } else {
                            assert(shows_line(progress, replies, steps, l, a, prev, rank));
                        }
                    }
                }
            },
            _ => {},
        }
    }
}

/// A whole listing: it changes nothing; and when it succeeds, it has shown,
/// for the contexts it was given and the active context it read, the line
/// of every context, each at its own step and in listing order (GitHub
/// contexts first), marked exactly when it is the active one; or there was
/// no context, and it said so.
pub proof fn law_list_run(command: List, progress: Seq<ListProgress>, replies: Seq<Reply>, steps: Seq<Step>)
    requires
        is_run(list_moves(command), ListProgress::Start, progress, replies, steps),
        forall|i: int| 0 <= i < progress.len() ==> (#[trigger] carried_list(progress[i]) matches Some(l) ==> l@.fits()),
    ensures
        forall|i: int| 0 <= i < steps.len() ==> !step_writes(#[trigger] steps[i]@),
        run_succeeded(steps) ==> (match progress[steps.len() - 1] {
            ListProgress::Reported(list, active, _, _) => list@.total() > 0 && shown_before(
                progress,
                replies,
                steps,
                list,
                active,
                steps.len() as int,
                list@.total(),
            ),
            _ => steps.len() >= 2 && steps[steps.len() - 2]@ == log_view(LogLevel::Info, no_contexts_message())
                && (match carried_list(progress[steps.len() - 2]) {
                Some(list) => list@.total() == 0,
                None => false,
            }),
        }),
        forall|i: int, j: int, r1: int, r2: int|
            0 <= i < j < steps.len() && carried_list(progress[i]) == carried_list(progress[j])
                && #[trigger] shows_line(progress, replies, steps, progress[i]->Reading_0, progress[i]->Reading_1, i, r1)
                && #[trigger] shows_line(progress, replies, steps, progress[j]->Reading_0, progress[j]->Reading_1, j, r2)
                ==> r1 < r2,
{
    let moves = list_moves(command);
    assert forall|i: int| 0 <= i < steps.len() implies !step_writes(#[trigger] steps[i]@) by {
        assert(moves(progress[i], replies[i], (progress[i + 1], steps[i])));
        law_list_reads_only(command, progress[i], replies[i], (progress[i + 1], steps[i]));
    }
    if run_succeeded(steps) {
        let last = steps.len() - 1;
        assert(moves(progress[last], replies[last], (progress[last + 1], steps[last])));
        assert(carried_list(progress[last]) matches Some(l) ==> l@.fits());
        match progress[last] {
            ListProgress::Reported(list, active, vcs, index) => {
                law_listing_visits_each_context_once(list@, vcs, index as int, vcs, index as int);
                lemma_list_run_shows(command, progress, replies, steps, last);
                assert forall|rank: int| 0 <= rank < list@.total() implies shown_by(progress, replies, steps, list, active, steps.len() as int, rank) by {
                    assert(shown_by(progress, replies, steps, list, active, last, rank));
                    let i = choose|i: int| 0 <= i < last && #[trigger] shows_line(progress, replies, steps, list, active, i, rank);
                    assert(shows_line(progress, replies, steps, list, active, i, rank));
                }
            },
            _ => {
                assert(progress[last] is Reporting);
                let prev = last - 1;
                if last == 0 {
                    assert(progress[0] == ListProgress::Start);
                } else {
                    assert(moves(progress[prev], replies[prev], (progress[prev + 1], steps[prev])));
                    assert(steps[prev]@ is Perform);
                }
            },
        }
    }
    lemma_list_run_in_order(command, progress, replies, steps);
}

proof fn lemma_list_run_in_order(command: List, progress: Seq<ListProgress>, replies: Seq<Reply>, steps: Seq<Step>)
    requires
        is_run(list_moves(command), ListProgress::Start, progress, replies, steps),
        forall|i: int| 0 <= i < progress.len() ==> (#[trigger] carried_list(progress[i]) matches Some(l) ==> l@.fits()),
    ensures
        forall|i: int, j: int, r1: int, r2: int|
            0 <= i < j < steps.len() && carried_list(progress[i]) == carried_list(progress[j])
                && #[trigger] shows_line(progress, replies, steps, progress[i]->Reading_0, progress[i]->Reading_1, i, r1)
                && #[trigger] shows_line(progress, replies, steps, progress[j]->Reading_0, progress[j]->Reading_1, j, r2)
                ==> r1 < r2,
{
    assert forall|i: int, j: int, r1: int, r2: int|
        0 <= i < j < steps.len() && carried_list(progress[i]) == carried_list(progress[j])
            && #[trigger] shows_line(progress, replies, steps, progress[i]->Reading_0, progress[i]->Reading_1, i, r1)
            && #[trigger] shows_line(progress, replies, steps, progress[j]->Reading_0, progress[j]->Reading_1, j, r2)
            implies r1 < r2 by {
        lemma_list_rank_grows(command, progress, replies, steps, i, j);
        let l = progress[i]->Reading_0;
        assert(carried_list(progress[i]) matches Some(m) ==> m@.fits());
        lemma_rank_position(l@, r1, Vcs::Github, 0);
        lemma_rank_position(l@, r2, Vcs::Github, 0);
    }
}

/// The rank that a stage of the listing has reached, once it reads.
pub open spec fn reached_rank(progress: ListProgress) -> int {
    match progress {
        ListProgress::Reading(l, _, v, x) => l@.rank(v, x as int),
        ListProgress::Reported(l, _, v, x) => l@.rank(v, x as int),
        _ => -1,
    }
}

proof fn lemma_list_rank_grows(
    command: List,
    progress: Seq<ListProgress>,
    replies: Seq<Reply>,
    steps: Seq<Step>,
    i: int,
    j: int,
)
    requires
        is_run(list_moves(command), ListProgress::Start, progress, replies, steps),
        forall|k: int| 0 <= k < progress.len() ==> (#[trigger] carried_list(progress[k]) matches Some(l) ==> l@.fits()),
        0 <= i < j < steps.len(),
        progress[i] is Reading,
        progress[j] is Reading,
    ensures
        reached_rank(progress[i]) < reached_rank(progress[j]),
    decreases j - i,
{
    lemma_list_rank_steps(command, progress, replies, steps, i, j);
}

proof fn lemma_list_rank_steps(
    command: List,
    progress: Seq<ListProgress>,
    replies: Seq<Reply>,
    steps: Seq<Step>,
    i: int,
    k: int,
)
    requires
        is_run(list_moves(command), ListProgress::Start, progress, replies, steps),
        forall|m: int| 0 <= m < progress.len() ==> (#[trigger] carried_list(progress[m]) matches Some(l) ==> l@.fits()),
        0 <= i < k < steps.len(),
        progress[i] is Reading,
    ensures
        progress[k] is Reading ==> reached_rank(progress[i]) < reached_rank(progress[k]),
        progress[k] is Reported ==> reached_rank(progress[i]) <= reached_rank(progress[k]),
        progress[k] is Reading || progress[k] is Reported || progress[k] is Reporting,
    decreases k - i,
{
    let moves = list_moves(command);
    let prev = k - 1;
    assert(moves(progress[prev], replies[prev], (progress[prev + 1], steps[prev])));
    assert(steps[prev]@ is Perform);
    assert(carried_list(progress[prev]) matches Some(l) ==> l@.fits());
    if prev > i {
        lemma_list_rank_steps(command, progress, replies, steps, i, prev);
    }
    if let ListProgress::Reported(pl, pa, pv, px) = progress[prev] {
        law_listing_visits_each_context_once(pl@, pv, px as int, pv, px as int);
    }
}

} // verus!
