use vstd::prelude::*;
use crate::captcha_types::CaptchaTask;
use crate::error::{clone_or_empty, text_or_empty, Error, ErrorView};
use crate::response::{CaptchaResponse, RawContent};
use crate::solution::{CaptchaSolution, Solution, SolveInfo};
use crate::form::{pairs_view, push_field};
use crate::task_id::{decimal_text, format_task_id, parse_task_id, task_id_of};

verus! {

/// How long and how often a task is polled.
#[derive(Debug, Clone, Copy, PartialEq, Eq)]
pub struct PollPolicy {
    /// Seconds to wait after the submission before the first poll.
    pub initial_delay_secs: u64,
    /// Seconds to wait after a poll that found the task unfinished.
    pub poll_interval_secs: u64,
    /// Seconds after the submission at which polling is given up.
    pub max_wait_secs: u64,
    /// The largest number of polls that one task may take.
    pub max_polls: u64,
}

impl PollPolicy {
    /// The policy for one task with the usual rest: a poll every five
    /// seconds, for at most five minutes and a hundred polls.
    pub fn with_defaults<T: CaptchaTask>(task: &T) -> (r: PollPolicy)
        ensures
            r == (PollPolicy {
                initial_delay_secs: task.timeout_secs(),
                poll_interval_secs: 5,
                max_wait_secs: 300,
                max_polls: 100,
            }),
    {
        PollPolicy::for_task(task, 5, 300, 100)
    }

    /// The policy for one task: its kind gives the wait before the first
    /// poll, the caller the rest.
    pub fn for_task<T: CaptchaTask>(
        task: &T,
        poll_interval_secs: u64,
        max_wait_secs: u64,
        max_polls: u64,
    ) -> (r: PollPolicy)
        ensures
            r == (PollPolicy {
                initial_delay_secs: task.timeout_secs(),
                poll_interval_secs,
                max_wait_secs,
                max_polls,
            }),
    {
        PollPolicy {
            initial_delay_secs: task.get_timeout(),
            poll_interval_secs,
            max_wait_secs,
            max_polls,
        }
    }
}

/// Where one solve call stands.
#[derive(Debug, Clone, Copy, PartialEq, Eq, Structural)]
pub enum Phase {
    /// Nothing has been sent.
    Idle,
    /// The submission is on its way.
    Submitting,
    /// The service took the task; the first poll is still to come.
    Submitted,
    /// A poll is on its way.
    Polling,
    /// The last poll found the task unfinished.
    Pending,
    /// The answer was delivered.
    Ready,
    /// The call ended in an error other than a timeout.
    Failed,
    /// The call ended because the service never finished.
    TimedOut,
    /// The caller gave the call up before it ended.
    Abandoned,
}

/// What happened outside since the last step.
#[derive(Debug, Clone, PartialEq, Eq)]
pub enum Event {
    /// The caller asks for the task to be solved.
    Start,
    /// The service answered the submission.
    SubmitReplied { reply: CaptchaResponse, now: u64 },
    /// A wait that the engine asked for is over.
    Woke { now: u64 },
    /// The service answered a poll.
    PollReplied { reply: CaptchaResponse, info: Option<SolveInfo>, now: u64 },
    /// A request got no reply.
    TransportFailed { message: String },
    /// The caller gives the call up.
    Abandoned,
}

/// What the engine wants done next.
#[derive(Debug, PartialEq, Eq)]
pub enum Action<S> {
    /// Send the submission.
    Submit,
    /// Wait this many seconds, then report `Woke`.
    Sleep(u64),
    /// Ask the service about the task with this identifier.
    Poll(u64),
    /// The call is over, with this result.
    Finish(Result<Solution<S>, Error>),
    /// Nothing is to be done: the event does not belong to the current
    /// phase, or the call was given up.
    Ignored,
}

/// The state of one solve call. Times are seconds on a clock of the caller's
/// choosing.
#[derive(Debug, Clone, Copy, PartialEq, Eq)]
pub struct Flow {
    pub phase: Phase,
    pub policy: PollPolicy,
    /// The identifier that the service assigned; meaningful once submitted.
    pub task_id: u64,
    /// When the service took the task.
    pub submitted_at: u64,
    /// When the current wait began.
    pub mark: u64,
    /// How many polls have been sent.
    pub polls_sent: u64,
}

/// Seconds from `from` to `now`, zero where the clock went backwards.
pub open spec fn elapsed(from: u64, now: u64) -> u64 {
    if now >= from {
        (now - from) as u64
    } else {
        0
    }
}

/// The text of a raw content: the string itself, or nothing for an object.
pub open spec fn content_text(raw: RawContent) -> Seq<char> {
    match raw {
        RawContent::Text(t) => t@,
        RawContent::Object(_) => Seq::<char>::empty(),
    }
}

/// The task identifier in a submission reply, where the service accepted the
/// task and the reply names one.
pub open spec fn accepted_id(reply: CaptchaResponse) -> Option<u64> {
    match reply.request {
        RawContent::Text(t) => if reply.status == 1 {
            task_id_of(t@)
        } else {
            None
        },
        RawContent::Object(_) => None,
    }
}

/// Whether a poll reply says that the task is still being worked on.
pub open spec fn not_ready(reply: CaptchaResponse) -> bool {
    reply.status != 1 && reply.request is Text && content_text(reply.request)
        == "CAPCHA_NOT_READY"@
}

/// The fields of a poll: the key, the word for "fetch the result", the task
/// identifier in decimal, and the flag that asks for a JSON reply.
pub open spec fn poll_request_fields(api_key: Seq<char>, task_id: u64) -> Seq<
    (Seq<char>, Seq<char>),
> {
    seq![
        ("key"@, api_key),
        ("action"@, "get"@),
        ("id"@, decimal_text(task_id as nat)),
        ("json"@, "1"@),
    ]
}

/// Lists the fields of the poll for a task.
pub fn poll_fields(api_key: String, task_id: u64) -> (r: Vec<(String, String)>)
    ensures
        pairs_view(r@) == poll_request_fields(api_key@, task_id),
{
    let mut fields: Vec<(String, String)> = Vec::new();
    proof {
        assert(pairs_view(fields@) =~= Seq::<(Seq<char>, Seq<char>)>::empty());
    }
    push_field(&mut fields, "key", api_key);
    push_field(&mut fields, "action", "get".to_owned());
    push_field(&mut fields, "id", format_task_id(task_id));
    push_field(&mut fields, "json", "1".to_owned());
    proof {
        assert(pairs_view(fields@) =~= poll_request_fields(api_key@, task_id));
    }
    fields
}

/// Copies the text of a raw content.
pub fn content_string(raw: &RawContent) -> (r: String)
    ensures
        r@ == content_text(*raw),
{
    match raw {
        RawContent::Text(t) => t.clone(),
        RawContent::Object(_) => String::new(),
    }
}

/// Tells whether a poll reply says that the task is still being worked on.
pub fn is_not_ready(reply: &CaptchaResponse) -> (r: bool)
    ensures
        r == not_ready(*reply),
{
    if reply.status == 1 {
        return false;
    }
    match &reply.request {
        RawContent::Text(t) => {
            let pending: String = "CAPCHA_NOT_READY".to_owned();
            *t == pending
        },
        RawContent::Object(_) => false,
    }
}

/// Reads the task identifier out of a submission reply.
pub fn read_accepted_id(reply: &CaptchaResponse) -> (r: Option<u64>)
    ensures
        r == accepted_id(*reply),
{
    match &reply.request {
        RawContent::Text(t) => if reply.status == 1 {
            parse_task_id(t.as_str())
        } else {
            None
        },
        RawContent::Object(_) => None,
    }
}

impl Flow {
    /// A call that has not sent anything yet.
    pub fn new(policy: PollPolicy) -> (r: Flow)
        ensures
            r == (Flow {
                phase: Phase::Idle,
                policy,
                task_id: 0,
                submitted_at: 0,
                mark: 0,
                polls_sent: 0,
            }),
            r.wf(),
    {
        Flow { phase: Phase::Idle, policy, task_id: 0, submitted_at: 0, mark: 0, polls_sent: 0 }
    }

    /// What every reachable state satisfies: until the first poll the
    /// current wait is the one that began at submission and no poll has been
    /// counted, and the count never passes the budget.
    pub open spec fn wf(self) -> bool {
        &&& self.polls_sent <= self.policy.max_polls || self.polls_sent == 0
        &&& self.phase is Submitted ==> self.mark == self.submitted_at && self.polls_sent == 0
        &&& (self.phase is Idle || self.phase is Submitting) ==> self.polls_sent == 0
    }

    /// Whether the call is over.
    pub open spec fn is_terminal(self) -> bool {
        self.phase is Ready || self.phase is Failed || self.phase is TimedOut
            || self.phase is Abandoned
    }

    /// The wait that must pass before the next poll: the initial delay
    /// before the first one, the poll interval after that.
    pub open spec fn wait_secs(self) -> u64 {
        if self.phase is Submitted {
            self.policy.initial_delay_secs
        } else {
            self.policy.poll_interval_secs
        }
    }

    /// Whether the current wait is over at `now`.
    pub open spec fn due(self, now: u64) -> bool {
        elapsed(self.mark, now) >= self.wait_secs()
    }

    /// Whether the call has used up its time or its polls at `now`.
    pub open spec fn expired(self, now: u64) -> bool {
        self.polls_sent >= self.policy.max_polls || elapsed(self.submitted_at, now)
            >= self.policy.max_wait_secs
    }

    /// The state after `event`. What the solution type `S` decides is
    /// whether a ready reply can be decoded.
    pub open spec fn next<S: CaptchaSolution>(self, event: Event) -> Flow {
        match (self.phase, event) {
            (Phase::Idle, Event::Start) => Flow { phase: Phase::Submitting, ..self },
            (Phase::Submitting, Event::SubmitReplied { reply, now }) => match accepted_id(reply) {
                Some(id) => Flow {
                    phase: Phase::Submitted,
                    task_id: id,
                    submitted_at: now,
                    mark: now,
                    ..self
                },
                None => Flow { phase: Phase::Failed, ..self },
            },
            (Phase::Submitting, Event::TransportFailed { message }) => Flow {
                phase: Phase::Failed,
                ..self
            },
            (Phase::Polling, Event::TransportFailed { message }) => Flow {
                phase: Phase::Failed,
                ..self
            },
            (Phase::Submitted, Event::Woke { now }) => self.after_wake(now),
            (Phase::Pending, Event::Woke { now }) => self.after_wake(now),
            (Phase::Polling, Event::PollReplied { reply, info, now }) => if reply.status == 1 {
                if S::fits(reply.request) && info is Some {
                    Flow { phase: Phase::Ready, ..self }
                } else {
                    Flow { phase: Phase::Failed, ..self }
                }
            } else if not_ready(reply) {
                Flow { phase: Phase::Pending, mark: now, ..self }
            } else {
                Flow { phase: Phase::Failed, ..self }
            },
            (_, Event::Abandoned) => if self.is_terminal() {
                self
            } else {
                Flow { phase: Phase::Abandoned, ..self }
            },
            _ => self,
        }
    }

    /// The state after a wait ended at `now`, in a phase that waits.
    pub open spec fn after_wake(self, now: u64) -> Flow {
        if !self.due(now) {
            self
        } else if self.expired(now) {
            Flow { phase: Phase::TimedOut, ..self }
        } else {
            Flow { phase: Phase::Polling, polls_sent: (self.polls_sent + 1) as u64, ..self }
        }
    }

    /// Whether `action` is the right answer to `event` in this state.
    pub open spec fn answers<S: CaptchaSolution>(self, event: Event, action: Action<S>) -> bool {
        match (self.phase, event) {
            (Phase::Idle, Event::Start) => action is Submit,
            (Phase::Submitting, Event::SubmitReplied { reply, now }) => {
                if accepted_id(reply) is Some {
                    action == Action::<S>::Sleep(self.policy.initial_delay_secs)
                } else if reply.status == 1 {
                    fails_with(action, ErrorView::SchemaMismatch)
                } else {
                    fails_with(
                        action,
                        ErrorView::RemoteRejected {
                            code: content_text(reply.request),
                            message: text_or_empty(reply.error_text),
                        },
                    )
                }
            },
            (Phase::Submitting, Event::TransportFailed { message }) => fails_with(
                action,
                ErrorView::Transport(message@),
            ),
            (Phase::Polling, Event::TransportFailed { message }) => fails_with(
                action,
                ErrorView::Transport(message@),
            ),
            (Phase::Submitted, Event::Woke { now }) => self.wake_answer(now, action),
            (Phase::Pending, Event::Woke { now }) => self.wake_answer(now, action),
            (Phase::Polling, Event::PollReplied { reply, info, now }) => if reply.status == 1 {
                if S::fits(reply.request) && info is Some {
                    &&& action matches Action::Finish(Ok(found))
                    &&& found.task_id == self.task_id
                    &&& found.solution.reads(reply.request)
                    &&& found.carries(info->0)
                } else {
                    fails_with(action, ErrorView::SchemaMismatch)
                }
            } else if not_ready(reply) {
                action == Action::<S>::Sleep(self.policy.poll_interval_secs)
            } else {
                fails_with(
                    action,
                    ErrorView::RemoteFailed {
                        code: content_text(reply.request),
                        message: text_or_empty(reply.error_text),
                    },
                )
            },
            _ => action is Ignored,
        }
    }

    /// The right answer to the end of a wait at `now`: the rest of the wait
    /// if it ended early, a timeout if time or polls have run out, else a
    /// poll under the identifier of the call.
    pub open spec fn wake_answer<S: CaptchaSolution>(self, now: u64, action: Action<S>) -> bool {
        if !self.due(now) {
            action == Action::<S>::Sleep((self.wait_secs() - elapsed(self.mark, now)) as u64)
        } else if self.expired(now) {
            fails_with(action, ErrorView::Timeout)
        } else {
            action == Action::<S>::Poll(self.task_id)
        }
    }

    /// Takes one step of the protocol: the next state, and what is to be done
    /// outside before the next event. A finished call ignores every event,
    /// and a call that is given up is finished.
    pub fn step<S: CaptchaSolution>(self, event: Event) -> (r: (Flow, Action<S>))
        ensures
            r.0 == self.next::<S>(event),
            self.answers(event, r.1),
            self.wf() ==> r.0.wf(),
    {
        match (self.phase, event) {
            (Phase::Idle, Event::Start) => (Flow { phase: Phase::Submitting, ..self }, Action::Submit),
            (Phase::Submitting, Event::SubmitReplied { reply, now }) => {
                match read_accepted_id(&reply) {
                    Some(id) => (
                        Flow {
                            phase: Phase::Submitted,
                            task_id: id,
                            submitted_at: now,
                            mark: now,
                            ..self
                        },
                        Action::Sleep(self.policy.initial_delay_secs),
                    ),
                    None => {
                        let error = if reply.status == 1 {
                            Error::SchemaMismatch
                        } else {
                            Error::RemoteRejected {
                                code: content_string(&reply.request),
                                message: clone_or_empty(&reply.error_text),
                            }
                        };
                        (Flow { phase: Phase::Failed, ..self }, Action::Finish(Err(error)))
                    },
                }
            },
            (Phase::Submitting, Event::TransportFailed { message }) => (
                Flow { phase: Phase::Failed, ..self },
                Action::Finish(Err(Error::Transport(message))),
            ),
            (Phase::Polling, Event::TransportFailed { message }) => (
                Flow { phase: Phase::Failed, ..self },
                Action::Finish(Err(Error::Transport(message))),
            ),
            (Phase::Submitted, Event::Woke { now }) => self.wake(now),
            (Phase::Pending, Event::Woke { now }) => self.wake(now),
            (Phase::Polling, Event::PollReplied { reply, info, now }) => {
                if reply.status == 1 {
                    match (S::from_content(&reply.request), info) {
                        (Some(answer), Some(info)) => (
                            Flow { phase: Phase::Ready, ..self },
                            Action::Finish(Ok(Solution::assemble(self.task_id, answer, info))),
                        ),
                        _ => (
                            Flow { phase: Phase::Failed, ..self },
                            Action::Finish(Err(Error::SchemaMismatch)),
                        ),
                    }
                } else if is_not_ready(&reply) {
                    (
                        Flow { phase: Phase::Pending, mark: now, ..self },
                        Action::Sleep(self.policy.poll_interval_secs),
                    )
                } else {
                    let error = Error::RemoteFailed {
                        code: content_string(&reply.request),
                        message: clone_or_empty(&reply.error_text),
                    };
                    (Flow { phase: Phase::Failed, ..self }, Action::Finish(Err(error)))
                }
            },
            (phase, Event::Abandoned) => match phase {
                Phase::Ready | Phase::Failed | Phase::TimedOut | Phase::Abandoned => (
                    self,
                    Action::Ignored,
                ),
                _ => (Flow { phase: Phase::Abandoned, ..self }, Action::Ignored),
            },
            _ => (self, Action::Ignored),
        }
    }

    /// Decides what follows the end of a wait at `now`.
    pub fn wake<S: CaptchaSolution>(self, now: u64) -> (r: (Flow, Action<S>))
        requires
            self.phase is Submitted || self.phase is Pending,
        ensures
            r.0 == self.after_wake(now),
            self.wake_answer(now, r.1),
            self.wf() ==> r.0.wf(),
    {
        let wait: u64 = match self.phase {
            Phase::Submitted => self.policy.initial_delay_secs,
            _ => self.policy.poll_interval_secs,
        };
        let waited: u64 = if now >= self.mark {
            now - self.mark
        } else {
            0
        };
        let total: u64 = if now >= self.submitted_at {
            now - self.submitted_at
        } else {
            0
        };
        if waited < wait {
            (self, Action::Sleep(wait - waited))
        } else if self.polls_sent >= self.policy.max_polls || total >= self.policy.max_wait_secs {
            (Flow { phase: Phase::TimedOut, ..self }, Action::Finish(Err(Error::Timeout)))
        } else {
            (Flow { phase: Phase::Polling, polls_sent: self.polls_sent + 1, ..self }, Action::Poll(self.task_id))
        }
    }
}

/// Whether `action` ends the call with an error whose content is `error`.
pub open spec fn fails_with<S>(action: Action<S>, error: ErrorView) -> bool {
    action matches Action::Finish(Err(e)) && e@ == error
}

} // verus!
