use captcha_oxide::captcha_types::solution::{
    ArkoseLabsCaptchaSolution, CapyCaptchaSolution, CyberSiARACaptchaSolution, LeminCaptchaSolution,
    ReCaptchaSolution,
};
use captcha_oxide::error::Error;
use captcha_oxide::response::{find_member, RawContent, RequestContent};
use captcha_oxide::solution::CaptchaSolution;
use captcha_oxide::task_id::parse_task_id;

fn object(members: &[(&str, &str)]) -> RawContent {
    RawContent::Object(members.iter().map(|(k, v)| (k.to_string(), v.to_string())).collect())
}

#[test]
fn bare_string_is_the_string_shape() {
    let decoded = RequestContent::decode(&RawContent::Text("geetest_challenge".to_string()));
    assert_eq!(decoded, Ok(RequestContent::String("geetest_challenge".to_string())));
    assert_eq!(decoded.unwrap().request_as_string(), "geetest_challenge");
}

#[test]
fn geetest_members_give_the_geetest_shape() {
    let raw = object(&[
        ("geetest_seccode", "s|jordan"),
        ("geetest_challenge", "c"),
        ("geetest_validate", "v"),
    ]);
    assert_eq!(
        RequestContent::decode(&raw),
        Ok(RequestContent::GeetestResponse {
            challenge: "c".to_string(),
            validate: "v".to_string(),
            seccode: "s|jordan".to_string(),
        })
    );
}

#[test]
fn capy_members_give_the_capy_shape() {
    let raw = object(&[("captchakey", "k"), ("challengekey", "c"), ("answer", "a")]);
    assert_eq!(
        RequestContent::decode(&raw),
        Ok(RequestContent::CapyResponse {
            captcha_key: "k".to_string(),
            challenge_key: "c".to_string(),
            answer: "a".to_string(),
        })
    );
}

#[test]
fn geetest_is_tried_before_capy() {
    let raw = object(&[
        ("captchakey", "k"),
        ("challengekey", "c"),
        ("answer", "a"),
        ("geetest_challenge", "gc"),
        ("geetest_validate", "gv"),
        ("geetest_seccode", "gs"),
    ]);
    assert_eq!(
        RequestContent::decode(&raw),
        Ok(RequestContent::GeetestResponse {
            challenge: "gc".to_string(),
            validate: "gv".to_string(),
            seccode: "gs".to_string(),
        })
    );
}

#[test]
fn unknown_members_are_a_schema_mismatch() {
    assert_eq!(RequestContent::decode(&object(&[("foo", "bar")])), Err(Error::SchemaMismatch));
    assert_eq!(RequestContent::decode(&object(&[])), Err(Error::SchemaMismatch));
    let partial = object(&[("geetest_challenge", "c"), ("geetest_validate", "v"), ("answer", "a")]);
    assert_eq!(RequestContent::decode(&partial), Err(Error::SchemaMismatch));
}

#[test]
fn last_occurrence_of_a_member_wins() {
    let fields = vec![
        ("token".to_string(), "first".to_string()),
        ("other".to_string(), "x".to_string()),
        ("token".to_string(), "second".to_string()),
    ];
    assert_eq!(find_member(&fields, "token"), Some("second".to_string()));
    assert_eq!(find_member(&fields, "other"), Some("x".to_string()));
    assert_eq!(find_member(&fields, "missing"), None);
}

#[test]
fn each_answer_shape_reads_its_members() {
    let raw = object(&[("gRecaptchaResponse", "r"), ("token", "t")]);
    assert_eq!(
        ReCaptchaSolution::from_content(&raw),
        Some(ReCaptchaSolution { g_recaptcha_response: "r".to_string(), token: "t".to_string() })
    );
    assert_eq!(
        ArkoseLabsCaptchaSolution::from_content(&raw),
        Some(ArkoseLabsCaptchaSolution { token: "t".to_string() })
    );
    assert_eq!(
        CyberSiARACaptchaSolution::from_content(&raw),
        Some(CyberSiARACaptchaSolution { token: "t".to_string() })
    );
    assert_eq!(LeminCaptchaSolution::from_content(&raw), None);
    let lemin = object(&[("answer", "0xaxakx0xaxaax0xkxx"), ("challenge_id", "e0348984")]);
    assert_eq!(
        LeminCaptchaSolution::from_content(&lemin),
        Some(LeminCaptchaSolution {
            answer: "0xaxakx0xaxaax0xkxx".to_string(),
            challenge_id: "e0348984".to_string(),
        })
    );
    let capy = object(&[
        ("captchakey", "k"),
        ("challengekey", "c"),
        ("answer", "a"),
        ("resp_key", "r"),
    ]);
    assert_eq!(
        CapyCaptchaSolution::from_content(&capy),
        Some(CapyCaptchaSolution {
            captcha_key: "k".to_string(),
            challenge_key: "c".to_string(),
            answer: "a".to_string(),
            resp_key: "r".to_string(),
        })
    );
    assert_eq!(ReCaptchaSolution::from_content(&RawContent::Text("t".to_string())), None);
    assert_eq!(
        <RequestContent as CaptchaSolution>::from_content(&RawContent::Text("t".to_string())),
        Some(RequestContent::String("t".to_string()))
    );
    assert_eq!(<RequestContent as CaptchaSolution>::from_content(&lemin), None);
}

#[test]
fn task_identifiers_are_decimal_and_fit_in_64_bits() {
    assert_eq!(parse_task_id("12345"), Some(12345));
    assert_eq!(parse_task_id("0"), Some(0));
    assert_eq!(parse_task_id("007"), Some(7));
    assert_eq!(parse_task_id("18446744073709551615"), Some(u64::MAX));
    assert_eq!(parse_task_id("18446744073709551616"), None);
    assert_eq!(parse_task_id("99999999999999999999999999"), None);
    assert_eq!(parse_task_id(""), None);
    assert_eq!(parse_task_id("12a"), None);
    assert_eq!(parse_task_id("-1"), None);
    assert_eq!(parse_task_id("+1"), None);
    assert_eq!(parse_task_id(" 1"), None);
    assert_eq!(parse_task_id("١٢"), None);
}
