use captcha_oxide::captcha_types::solution::ReCaptchaSolution;
use captcha_oxide::captcha_types::task::{RecaptchaV2, RecaptchaV2Types};
use captcha_oxide::captcha_types::CaptchaTask;
use captcha_oxide::error::Error;
use captcha_oxide::response::{CaptchaResponse, RawContent, RequestContent};
use captcha_oxide::solution::SolveInfo;
use captcha_oxide::solver::{Action, Event, Flow, Phase, PollPolicy};
use captcha_oxide::web_url::WebUrl;

fn policy() -> PollPolicy {
    PollPolicy { initial_delay_secs: 20, poll_interval_secs: 5, max_wait_secs: 120, max_polls: 10 }
}

fn text_reply(status: u8, text: &str, error_text: Option<&str>) -> CaptchaResponse {
    CaptchaResponse {
        status,
        request: RawContent::Text(text.to_string()),
        error_text: error_text.map(|t| t.to_string()),
    }
}

fn info() -> SolveInfo {
    SolveInfo {
        cost: "0.00299".to_string(),
        create_time: 1_692_863_536,
        end_time: 1_692_863_556,
        solve_count: 1,
        ip: "1.2.3.4".to_string(),
    }
}

fn submitted(policy: PollPolicy, id: &str, at: u64) -> Flow {
    let (flow, action) = Flow::new(policy).step::<RequestContent>(Event::Start);
    assert_eq!(action, Action::Submit);
    assert_eq!(flow.phase, Phase::Submitting);
    let (flow, action) =
        flow.step::<RequestContent>(Event::SubmitReplied { reply: text_reply(1, id, None), now: at });
    assert_eq!(action, Action::Sleep(policy.initial_delay_secs));
    assert_eq!(flow.phase, Phase::Submitted);
    flow
}

#[test]
fn recaptcha_scenario_delivers_on_third_poll() {
    let task = RecaptchaV2 {
        task_type: RecaptchaV2Types::ProxyLess,
        website_url: WebUrl::parse("https://example.com").unwrap(),
        website_key: "abc".to_string(),
        recaptcha_data_s_value: None,
        is_invisible: false,
        user_agent: None,
        cookies: None,
        api_domain: None,
    };
    let policy = PollPolicy::for_task(&task, 5, 120, 10);
    assert_eq!(policy.initial_delay_secs, 20);
    let flow = submitted(policy, "12345", 1000);
    assert_eq!(flow.task_id, 12345);

    let (flow, action) = flow.step::<ReCaptchaSolution>(Event::Woke { now: 1020 });
    assert_eq!(action, Action::Poll(12345));
    let (flow, action) = flow.step::<ReCaptchaSolution>(Event::PollReplied {
        reply: text_reply(0, "CAPCHA_NOT_READY", None),
        info: None,
        now: 1021,
    });
    assert_eq!(action, Action::Sleep(5));
    assert_eq!(flow.phase, Phase::Pending);

    let (flow, action) = flow.step::<ReCaptchaSolution>(Event::Woke { now: 1026 });
    assert_eq!(action, Action::Poll(12345));
    let (flow, action) = flow.step::<ReCaptchaSolution>(Event::PollReplied {
        reply: text_reply(0, "CAPCHA_NOT_READY", None),
        info: None,
        now: 1027,
    });
    assert_eq!(action, Action::Sleep(5));

    let (flow, action) = flow.step::<ReCaptchaSolution>(Event::Woke { now: 1032 });
    assert_eq!(action, Action::Poll(12345));
    assert_eq!(flow.polls_sent, 3);
    let ready = CaptchaResponse {
        status: 1,
        request: RawContent::Object(vec![
            ("gRecaptchaResponse".to_string(), "xyz".to_string()),
            ("token".to_string(), "xyz".to_string()),
        ]),
        error_text: None,
    };
    let (flow, action) = flow.step::<ReCaptchaSolution>(Event::PollReplied {
        reply: ready,
        info: Some(info()),
        now: 1033,
    });
    assert_eq!(flow.phase, Phase::Ready);
    match action {
        Action::Finish(Ok(solution)) => {
            assert_eq!(solution.task_id(), 12345);
            assert_eq!(solution.solution.g_recaptcha_response, "xyz");
            assert_eq!(solution.solution.token, "xyz");
            assert_eq!(solution.cost, "0.00299");
            assert_eq!(solution.create_time, 1_692_863_536);
            assert_eq!(solution.end_time, 1_692_863_556);
            assert_eq!(solution.solve_count, 1);
            assert_eq!(solution.ip, "1.2.3.4");
        }
        other => panic!("unexpected action {:?}", other),
    }
}

#[test]
fn early_wake_sleeps_the_rest_of_the_initial_delay() {
    let flow = submitted(policy(), "7", 100);
    let (next, action) = flow.step::<RequestContent>(Event::Woke { now: 112 });
    assert_eq!(action, Action::Sleep(8));
    assert_eq!(next, flow);
    let (next, action) = flow.step::<RequestContent>(Event::Woke { now: 119 });
    assert_eq!(action, Action::Sleep(1));
    assert_eq!(next.phase, Phase::Submitted);
    let (next, action) = flow.step::<RequestContent>(Event::Woke { now: 120 });
    assert_eq!(action, Action::Poll(7));
    assert_eq!(next.phase, Phase::Polling);
}

#[test]
fn clock_running_backwards_counts_as_no_time_passed() {
    let flow = submitted(policy(), "7", 100);
    let (next, action) = flow.step::<RequestContent>(Event::Woke { now: 50 });
    assert_eq!(action, Action::Sleep(20));
    assert_eq!(next, flow);
}

#[test]
fn silent_service_ends_in_timeout_by_poll_budget() {
    let policy =
        PollPolicy { initial_delay_secs: 1, poll_interval_secs: 1, max_wait_secs: 1_000_000, max_polls: 3 };
    let mut flow = submitted(policy, "9", 0);
    let mut now = 0;
    let mut polls = 0;
    let mut rounds = 0;
    loop {
        rounds += 1;
        assert!(rounds < 100);
        now += 1;
        let (next, action) = flow.step::<RequestContent>(Event::Woke { now });
        flow = next;
        match action {
            Action::Poll(id) => {
                assert_eq!(id, 9);
                polls += 1;
                let (next, action) = flow.step::<RequestContent>(Event::PollReplied {
                    reply: text_reply(0, "CAPCHA_NOT_READY", None),
                    info: None,
                    now,
                });
                flow = next;
                assert_eq!(action, Action::Sleep(1));
            }
            Action::Finish(result) => {
                assert_eq!(result, Err(Error::Timeout));
                break;
            }
            other => panic!("unexpected action {:?}", other),
        }
    }
    assert_eq!(polls, 3);
    assert_eq!(flow.phase, Phase::TimedOut);
}

#[test]
fn silent_service_ends_in_timeout_by_deadline() {
    let policy =
        PollPolicy { initial_delay_secs: 10, poll_interval_secs: 5, max_wait_secs: 17, max_polls: 100 };
    let flow = submitted(policy, "9", 0);
    let (flow, action) = flow.step::<RequestContent>(Event::Woke { now: 10 });
    assert_eq!(action, Action::Poll(9));
    let (flow, _) = flow.step::<RequestContent>(Event::PollReplied {
        reply: text_reply(0, "CAPCHA_NOT_READY", None),
        info: None,
        now: 11,
    });
    let (flow, action) = flow.step::<RequestContent>(Event::Woke { now: 16 });
    assert_eq!(action, Action::Poll(9));
    let (flow, _) = flow.step::<RequestContent>(Event::PollReplied {
        reply: text_reply(0, "CAPCHA_NOT_READY", None),
        info: None,
        now: 16,
    });
    let (flow, action) = flow.step::<RequestContent>(Event::Woke { now: 21 });
    assert_eq!(action, Action::Finish(Err(Error::Timeout)));
    assert_eq!(flow.phase, Phase::TimedOut);
}

#[test]
fn rejected_submission_ends_before_any_poll() {
    let (flow, _) = Flow::new(policy()).step::<RequestContent>(Event::Start);
    let (flow, action) = flow.step::<RequestContent>(Event::SubmitReplied {
        reply: text_reply(0, "ERROR_ZERO_BALANCE", Some("You don't have funds on your account.")),
        now: 5,
    });
    assert_eq!(flow.phase, Phase::Failed);
    assert_eq!(
        action,
        Action::Finish(Err(Error::RemoteRejected {
            code: "ERROR_ZERO_BALANCE".to_string(),
            message: "You don't have funds on your account.".to_string(),
        }))
    );
    let (after, action) = flow.step::<RequestContent>(Event::Woke { now: 500 });
    assert_eq!(action, Action::Ignored);
    assert_eq!(after, flow);
}

#[test]
fn accepted_submission_without_identifier_is_a_schema_mismatch() {
    let (flow, _) = Flow::new(policy()).step::<RequestContent>(Event::Start);
    let (flow, action) = flow.step::<RequestContent>(Event::SubmitReplied {
        reply: text_reply(1, "not-a-number", None),
        now: 5,
    });
    assert_eq!(flow.phase, Phase::Failed);
    assert_eq!(action, Action::Finish(Err(Error::SchemaMismatch)));
}

#[test]
fn transport_failure_is_its_own_error() {
    let (flow, _) = Flow::new(policy()).step::<RequestContent>(Event::Start);
    let (flow, action) = flow
        .step::<RequestContent>(Event::TransportFailed { message: "connection reset".to_string() });
    assert_eq!(flow.phase, Phase::Failed);
    assert_eq!(action, Action::Finish(Err(Error::Transport("connection reset".to_string()))));

    let flow = submitted(policy(), "3", 0);
    let (flow, _) = flow.step::<RequestContent>(Event::Woke { now: 20 });
    let (flow, action) =
        flow.step::<RequestContent>(Event::TransportFailed { message: "timed out".to_string() });
    assert_eq!(flow.phase, Phase::Failed);
    assert_eq!(action, Action::Finish(Err(Error::Transport("timed out".to_string()))));
}

#[test]
fn poll_error_is_remote_failed() {
    let flow = submitted(policy(), "3", 0);
    let (flow, _) = flow.step::<RequestContent>(Event::Woke { now: 20 });
    let (flow, action) = flow.step::<RequestContent>(Event::PollReplied {
        reply: text_reply(0, "ERROR_CAPTCHA_UNSOLVABLE", Some("Workers could not solve it")),
        info: None,
        now: 21,
    });
    assert_eq!(flow.phase, Phase::Failed);
    assert_eq!(
        action,
        Action::Finish(Err(Error::RemoteFailed {
            code: "ERROR_CAPTCHA_UNSOLVABLE".to_string(),
            message: "Workers could not solve it".to_string(),
        }))
    );
}

#[test]
fn ready_reply_without_solve_data_is_a_schema_mismatch() {
    let flow = submitted(policy(), "3", 0);
    let (flow, _) = flow.step::<RequestContent>(Event::Woke { now: 20 });
    let (flow, action) = flow.step::<RequestContent>(Event::PollReplied {
        reply: text_reply(1, "token", None),
        info: None,
        now: 21,
    });
    assert_eq!(flow.phase, Phase::Failed);
    assert_eq!(action, Action::Finish(Err(Error::SchemaMismatch)));
}

#[test]
fn ready_reply_of_another_shape_is_a_schema_mismatch() {
    let flow = submitted(policy(), "3", 0);
    let (flow, _) = flow.step::<ReCaptchaSolution>(Event::Woke { now: 20 });
    let (flow, action) = flow.step::<ReCaptchaSolution>(Event::PollReplied {
        reply: text_reply(1, "token", None),
        info: Some(info()),
        now: 21,
    });
    assert_eq!(flow.phase, Phase::Failed);
    assert_eq!(action, Action::Finish(Err(Error::SchemaMismatch)));
}

#[test]
fn string_answer_is_delivered_with_all_data() {
    let flow = submitted(policy(), "77", 0);
    let (flow, _) = flow.step::<RequestContent>(Event::Woke { now: 20 });
    let (flow, action) = flow.step::<RequestContent>(Event::PollReplied {
        reply: text_reply(1, "03AHJ_Vuve5Asa", None),
        info: Some(info()),
        now: 21,
    });
    assert_eq!(flow.phase, Phase::Ready);
    match action {
        Action::Finish(Ok(solution)) => {
            assert_eq!(solution.task_id, 77);
            assert_eq!(solution.solution.request_as_string(), "03AHJ_Vuve5Asa");
            assert_eq!(solution.ip, "1.2.3.4");
        }
        other => panic!("unexpected action {:?}", other),
    }
    let (after, action) = flow.step::<RequestContent>(Event::Woke { now: 30 });
    assert_eq!(after, flow);
    assert_eq!(action, Action::Ignored);
}

#[test]
fn events_out_of_turn_are_ignored() {
    let idle = Flow::new(policy());
    let (after, action) = idle.step::<RequestContent>(Event::Woke { now: 1 });
    assert_eq!(after, idle);
    assert_eq!(action, Action::Ignored);
    let flow = submitted(policy(), "3", 0);
    let (after, action) = flow.step::<RequestContent>(Event::Start);
    assert_eq!(after, flow);
    assert_eq!(action, Action::Ignored);
}

#[test]
fn task_kinds_name_their_tag_and_first_wait() {
    let task = RecaptchaV2 {
        task_type: RecaptchaV2Types::ProxyLess,
        website_url: WebUrl::parse("https://example.com").unwrap(),
        website_key: "abc".to_string(),
        recaptcha_data_s_value: None,
        is_invisible: false,
        user_agent: None,
        cookies: None,
        api_domain: None,
    };
    assert_eq!(task.get_type(), "RecaptchaV2TaskProxyless");
    assert_eq!(task.get_timeout(), 20);
}

#[test]
fn abandoned_call_sends_nothing_more() {
    let flow = submitted(policy(), "3", 0);
    let (flow, action) = flow.step::<RequestContent>(Event::Abandoned);
    assert_eq!(action, Action::Ignored);
    assert_eq!(flow.phase, Phase::Abandoned);
    let (after, action) = flow.step::<RequestContent>(Event::Woke { now: 100 });
    assert_eq!(action, Action::Ignored);
    assert_eq!(after, flow);

    let (polling, _) = submitted(policy(), "3", 0).step::<RequestContent>(Event::Woke { now: 20 });
    let (gone, _) = polling.step::<RequestContent>(Event::Abandoned);
    let (after, action) = gone.step::<RequestContent>(Event::PollReplied {
        reply: text_reply(1, "token", None),
        info: Some(info()),
        now: 21,
    });
    assert_eq!(action, Action::Ignored);
    assert_eq!(after.phase, Phase::Abandoned);
}
