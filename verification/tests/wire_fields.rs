use captcha_oxide::captcha_arguments::RecaptchaV2;
use captcha_oxide::captcha_types::task::TextCaptcha;
use captcha_oxide::captcha_types::CaptchaTask;
use captcha_oxide::report::{report_fields, report_request};
use captcha_oxide::solution::{Solution, SolveInfo, Status};
use captcha_oxide::solver::{poll_fields, PollPolicy};
use captcha_oxide::task_id::{format_task_id, parse_task_id, write_decimal};

fn pair(name: &str, value: &str) -> (String, String) {
    (name.to_string(), value.to_string())
}

#[test]
fn identifiers_are_written_in_decimal() {
    assert_eq!(format_task_id(0), "0");
    assert_eq!(format_task_id(7), "7");
    assert_eq!(format_task_id(10), "10");
    assert_eq!(format_task_id(12345), "12345");
    assert_eq!(format_task_id(u64::MAX), "18446744073709551615");
    let mut out = "id=".to_string();
    write_decimal(2122988149, &mut out);
    assert_eq!(out, "id=2122988149");
}

#[test]
fn written_identifiers_read_back() {
    for id in [0u64, 1, 9, 10, 99, 100, 4143, 1 << 32, u64::MAX - 1, u64::MAX] {
        assert_eq!(parse_task_id(&format_task_id(id)), Some(id));
    }
}

#[test]
fn poll_carries_key_and_identifier() {
    assert_eq!(
        poll_fields("API_KEY".to_string(), 2122988149),
        vec![
            pair("key", "API_KEY"),
            pair("action", "get"),
            pair("id", "2122988149"),
            pair("json", "1"),
        ]
    );
}

#[test]
fn report_carries_key_verdict_and_identifier() {
    let info = SolveInfo {
        cost: "0".to_string(),
        create_time: 0,
        end_time: 0,
        solve_count: 0,
        ip: "::1".to_string(),
    };
    let solution = Solution::assemble(12345, (), info);
    let request = report_request(&solution, Status::Incorrect);
    assert_eq!(
        report_fields("K".to_string(), &request),
        vec![pair("key", "K"), pair("action", "reportbad"), pair("id", "12345"), pair("json", "1")]
    );
}

#[test]
fn policies_take_the_first_wait_from_the_kind() {
    let text = TextCaptcha { comment: "2+2?".to_string() };
    assert_eq!(
        PollPolicy::with_defaults(&text),
        PollPolicy { initial_delay_secs: 5, poll_interval_secs: 5, max_wait_secs: 300, max_polls: 100 }
    );
    let form = RecaptchaV2::new("https://example.com".to_string(), "abc".to_string());
    assert_eq!(form.get_type(), "userrecaptcha");
    assert_eq!(
        PollPolicy::for_task(&form, 3, 60, 10),
        PollPolicy { initial_delay_secs: 15, poll_interval_secs: 3, max_wait_secs: 60, max_polls: 10 }
    );
}

#[test]
fn text_captcha_body_names_key_tag_and_comment() {
    let text = TextCaptcha { comment: "2+2?".to_string() };
    assert_eq!(
        text.to_fields("K".to_string()),
        vec![
            pair("clientKey", "K"),
            pair("softId", "4143"),
            pair("type", "TextCaptchaTask"),
            pair("comment", "2+2?"),
        ]
    );
}

#[test]
fn form_kind_body_is_its_request_fields() {
    let form = RecaptchaV2::new("https://example.com".to_string(), "abc".to_string());
    assert_eq!(form.to_fields("K".to_string()), form.to_request_fields("K".to_string()));
}
