use vstd::prelude::*;
use crate::error::{text_or_empty, ErrorView};
use crate::response::{decoded, is_capy, is_geetest, CaptchaResponse, RawContent, RequestContentView};
use crate::solution::{CaptchaSolution, SolveInfo};
use crate::solver::{accepted_id, content_text, elapsed, fails_with, not_ready, Action, Event, Flow};

verus! {

/// Decoding goes by a fixed order of shapes. A bare string is always the
/// string shape; an object with the three GeeTest members is the GeeTest
/// shape, whatever else it holds; an object without them but with the three
/// Capy members is the Capy shape; every other object has no shape.
pub proof fn lemma_shapes_are_tried_in_order(raw: RawContent)
    ensures
        raw matches RawContent::Text(t) ==> decoded(raw) == Some(RequestContentView::String(t@)),
        raw matches RawContent::Object(f) ==> {
            &&& is_geetest(f@) ==> decoded(raw) is Some && decoded(raw)->0 is GeetestResponse
            &&& !is_geetest(f@) && is_capy(f@) ==> decoded(raw) is Some && decoded(raw)->0
                is CapyResponse
            &&& !is_geetest(f@) && !is_capy(f@) ==> decoded(raw) is None
        },
{
}

/// Once the service has answered the submission, no event changes the task
/// identifier of a call.
pub proof fn lemma_task_id_is_kept<S: CaptchaSolution>(flow: Flow, event: Event)
    requires
        !(flow.phase is Submitting),
    ensures
        flow.next::<S>(event).task_id == flow.task_id,
        flow.next::<S>(event).policy == flow.policy,
{
}

/// A submission that the service accepts, the first wait, and a poll that
/// finds the task ready give a solution that carries the identifier from the
/// submission and all the data of the solve.
pub proof fn lemma_ready_solution_has_submitted_id<S: CaptchaSolution>(
    flow: Flow,
    ack: CaptchaResponse,
    acked_at: u64,
    woke_at: u64,
    reply: CaptchaResponse,
    info: SolveInfo,
    replied_at: u64,
    action: Action<S>,
)
    requires
        flow.phase is Submitting,
        accepted_id(ack) is Some,
        flow.next::<S>(Event::SubmitReplied { reply: ack, now: acked_at }).next::<S>(
            Event::Woke { now: woke_at },
        ).phase is Polling,
        reply.status == 1,
        S::fits(reply.request),
        flow.next::<S>(Event::SubmitReplied { reply: ack, now: acked_at }).next::<S>(
            Event::Woke { now: woke_at },
        ).answers(Event::PollReplied { reply, info: Some(info), now: replied_at }, action),
    ensures
        action matches Action::Finish(Ok(found)) && found.task_id == accepted_id(ack)->0
            && found.solution.reads(reply.request) && found.carries(info),
        flow.next::<S>(Event::SubmitReplied { reply: ack, now: acked_at }).next::<S>(
            Event::Woke { now: woke_at },
        ).next::<S>(Event::PollReplied { reply, info: Some(info), now: replied_at }).phase is Ready,
{
}

/// Before the first poll of a call, a poll is asked for only when a wait ends
/// at a time at which the initial delay has passed since the submission.
pub proof fn lemma_no_poll_before_initial_delay<S: CaptchaSolution>(
    flow: Flow,
    event: Event,
    action: Action<S>,
)
    requires
        flow.wf(),
        flow.phase is Idle || flow.phase is Submitting || flow.phase is Submitted,
        flow.answers(event, action),
        action is Poll,
    ensures
        event is Woke,
        elapsed(flow.submitted_at, event->Woke_now) >= flow.policy.initial_delay_secs,
{
}

/// A submission that the service refuses ends the call at once, with the
/// code and the error text of the reply, and no poll is asked for.
pub proof fn lemma_rejected_submission_ends_call<S: CaptchaSolution>(
    flow: Flow,
    reply: CaptchaResponse,
    now: u64,
    action: Action<S>,
)
    requires
        flow.phase is Submitting,
        reply.status != 1,
        flow.answers(Event::SubmitReplied { reply, now }, action),
    ensures
        flow.next::<S>(Event::SubmitReplied { reply, now }).phase is Failed,
        fails_with(
            action,
            ErrorView::RemoteRejected {
                code: content_text(reply.request),
                message: text_or_empty(reply.error_text),
            },
        ),
{
}

/// A call that is over stays as it is: every event is ignored, so nothing is
/// sent again, and neither a report nor anything else reaches the solution
/// that was handed out.
pub proof fn lemma_finished_call_is_inert<S: CaptchaSolution>(
    flow: Flow,
    event: Event,
    action: Action<S>,
)
    requires
        flow.is_terminal(),
        flow.answers(event, action),
    ensures
        flow.next::<S>(event) == flow,
        action is Ignored,
{
}

/// Giving a call up ends it without a request: whatever its state, nothing
/// is to be done, and from then on it is over.
pub proof fn lemma_abandoned_call_sends_nothing<S: CaptchaSolution>(flow: Flow, action: Action<S>)
    requires
        flow.answers(Event::Abandoned, action),
    ensures
        action is Ignored,
        flow.next::<S>(Event::Abandoned).is_terminal(),
{
}

/// One round with a service that has nothing yet: a wait ends at `woke_at`,
/// and the reply `reply` to the poll that may follow arrives at `replied_at`.
pub open spec fn silent_round<S: CaptchaSolution>(
    flow: Flow,
    round: (u64, CaptchaResponse, u64),
) -> Flow {
    flow.next::<S>(Event::Woke { now: round.0 }).next::<S>(
        Event::PollReplied { reply: round.1, info: None, now: round.2 },
    )
}

/// The state after a run of such rounds.
pub open spec fn after_silent_rounds<S: CaptchaSolution>(
    flow: Flow,
    rounds: Seq<(u64, CaptchaResponse, u64)>,
) -> Flow
    decreases rounds.len(),
{
    if rounds.len() == 0 {
        flow
    } else {
        silent_round::<S>(after_silent_rounds::<S>(flow, rounds.drop_last()), rounds.last())
    }
}

/// Whether round `i` of the run is in order: its reply says "not ready", and
/// its wait ends no earlier than asked, unless the call is over by then.
pub open spec fn round_in_order<S: CaptchaSolution>(
    flow: Flow,
    rounds: Seq<(u64, CaptchaResponse, u64)>,
    i: int,
) -> bool {
    let before = after_silent_rounds::<S>(flow, rounds.take(i));
    not_ready(rounds[i].1) && (before.is_terminal() || before.due(rounds[i].0))
}

/// Whether every round of the run is in order.
pub open spec fn silent_and_punctual<S: CaptchaSolution>(
    flow: Flow,
    rounds: Seq<(u64, CaptchaResponse, u64)>,
) -> bool {
    forall|i: int| 0 <= i < rounds.len() ==> #[trigger] round_in_order::<S>(flow, rounds, i)
}

/// One round in order, from a call that waits or has timed out: the call
/// waits again with one more poll counted, or has timed out.
proof fn lemma_silent_round<S: CaptchaSolution>(flow: Flow, round: (u64, CaptchaResponse, u64))
    requires
        flow.wf(),
        flow.phase is Submitted || flow.phase is Pending || flow.phase is TimedOut,
        not_ready(round.1),
        flow.is_terminal() || flow.due(round.0),
    ensures
        ({
            let end = silent_round::<S>(flow, round);
            &&& end.wf()
            &&& end.policy == flow.policy
            &&& end.phase is Pending || end.phase is TimedOut
            &&& flow.phase is TimedOut ==> end.phase is TimedOut
            &&& !(end.phase is TimedOut) ==> end.polls_sent == flow.polls_sent + 1
        }),
{
}

/// While the service keeps answering "not ready", a waiting call stays
/// waiting or times out; it never delivers and never fails otherwise, and it
/// counts one poll for each round until it times out.
pub proof fn lemma_silent_rounds_count_polls<S: CaptchaSolution>(
    flow: Flow,
    rounds: Seq<(u64, CaptchaResponse, u64)>,
)
    requires
        flow.wf(),
        flow.phase is Submitted || flow.phase is Pending,
        silent_and_punctual::<S>(flow, rounds),
    ensures
        ({
            let end = after_silent_rounds::<S>(flow, rounds);
            &&& end.wf()
            &&& end.policy == flow.policy
            &&& end.phase is Submitted || end.phase is Pending || end.phase is TimedOut
            &&& !(end.phase is TimedOut) ==> end.polls_sent == flow.polls_sent + rounds.len()
        }),
    decreases rounds.len(),
{
    if rounds.len() > 0 {
        let front = rounds.drop_last();
        let last = rounds.len() - 1;
        assert forall|i: int| 0 <= i < front.len() implies #[trigger] round_in_order::<S>(
            flow,
            front,
            i,
        ) by {
            assert(round_in_order::<S>(flow, rounds, i));
            assert(front.take(i) =~= rounds.take(i));
        }
        lemma_silent_rounds_count_polls::<S>(flow, front);
        assert(round_in_order::<S>(flow, rounds, last));
        assert(rounds.take(last) =~= front);
        lemma_silent_round::<S>(after_silent_rounds::<S>(flow, front), rounds.last());
    }
}

/// A service that answers "not ready" for ever cannot keep a call alive:
/// once there have been more rounds than the call had polls left, the call
/// has timed out.
pub proof fn lemma_silent_service_times_out<S: CaptchaSolution>(
    flow: Flow,
    rounds: Seq<(u64, CaptchaResponse, u64)>,
)
    requires
        flow.wf(),
        flow.phase is Submitted || flow.phase is Pending,
        silent_and_punctual::<S>(flow, rounds),
        flow.polls_sent + rounds.len() > flow.policy.max_polls,
    ensures
        after_silent_rounds::<S>(flow, rounds).phase is TimedOut,
{
    lemma_silent_rounds_count_polls::<S>(flow, rounds);
}

/// The end of a wait at which time or polls have run out ends the call with
/// a timeout, whatever the service would have said.
pub proof fn lemma_expired_wait_times_out<S: CaptchaSolution>(
    flow: Flow,
    now: u64,
    action: Action<S>,
)
    requires
        flow.phase is Submitted || flow.phase is Pending,
        flow.due(now),
        flow.expired(now),
        flow.answers(Event::Woke { now }, action),
    ensures
        flow.next::<S>(Event::Woke { now }).phase is TimedOut,
        fails_with(action, ErrorView::Timeout),
{
}

} // verus!
