use vstd::prelude::*;
use crate::error::Error;

verus! {

/// The `request` field of a reply as it arrives, before any shape has been
/// chosen for it: a bare string, or an object given as its members in the
/// order they were written.
#[derive(Debug, Clone, PartialEq, Eq)]
pub enum RawContent {
    Text(String),
    Object(Vec<(String, String)>),
}

/// The decoded reply of the service to a submission or a poll.
#[derive(Debug, Clone, PartialEq, Eq)]
pub struct CaptchaResponse {
    pub status: u8,
    pub request: RawContent,
    pub error_text: Option<String>,
}

/// The value of member `name` in an object: that of its last occurrence, as
/// in a JSON object where a repeated key overwrites the earlier one.
pub open spec fn member(fields: Seq<(String, String)>, name: Seq<char>) -> Option<Seq<char>>
    decreases fields.len(),
{
    if fields.len() == 0 {
        None
    } else if fields.last().0@ == name {
        Some(fields.last().1@)
    } else {
        member(fields.drop_last(), name)
    }
}

/// Looks up member `name` of an object and copies its value.
pub fn find_member(fields: &Vec<(String, String)>, name: &str) -> (r: Option<String>)
    ensures
        crate::error::opt_text(r) == member(fields@, name@),
{
    let key: String = name.to_owned();
    let mut found: Option<String> = None;
    let mut i: usize = 0;
    while i < fields.len()
        invariant
            i <= fields.len(),
            key@ == name@,
            crate::error::opt_text(found) == member(fields@.take(i as int), name@),
        decreases fields.len() - i,
    {
        proof {
            assert(fields@.take(i + 1).drop_last() =~= fields@.take(i as int));
        }
        if fields[i].0 == key {
            found = Some(fields[i].1.clone());
        }
        i += 1;
    }
    proof {
        assert(fields@.take(i as int) =~= fields@);
    }
    found
}

/// The possible contents of the `request` field of a finished task: usually a
/// single token, for some captcha kinds an object.
#[derive(Debug, Clone, PartialEq, Eq, Hash)]
pub enum RequestContent {
    /// An answer that is a token and nothing else.
    String(String),
    GeetestResponse { challenge: String, validate: String, seccode: String },
    CapyResponse { captcha_key: String, challenge_key: String, answer: String },
}

/// The mathematical content of a [`RequestContent`].
pub enum RequestContentView {
    String(Seq<char>),
    GeetestResponse { challenge: Seq<char>, validate: Seq<char>, seccode: Seq<char> },
    CapyResponse { captcha_key: Seq<char>, challenge_key: Seq<char>, answer: Seq<char> },
}

impl View for RequestContent {
    type V = RequestContentView;

    open spec fn view(&self) -> RequestContentView {
        match *self {
            RequestContent::String(s) => RequestContentView::String(s@),
            RequestContent::GeetestResponse { challenge, validate, seccode } =>
                RequestContentView::GeetestResponse {
                    challenge: challenge@,
                    validate: validate@,
                    seccode: seccode@,
                },
            RequestContent::CapyResponse { captcha_key, challenge_key, answer } =>
                RequestContentView::CapyResponse {
                    captcha_key: captcha_key@,
                    challenge_key: challenge_key@,
                    answer: answer@,
                },
        }
    }
}

/// Whether an object has the three members of a GeeTest answer.
pub open spec fn is_geetest(fields: Seq<(String, String)>) -> bool {
    &&& member(fields, "geetest_challenge"@) is Some
    &&& member(fields, "geetest_validate"@) is Some
    &&& member(fields, "geetest_seccode"@) is Some
}

/// Whether an object has the three members of a Capy answer.
pub open spec fn is_capy(fields: Seq<(String, String)>) -> bool {
    &&& member(fields, "captchakey"@) is Some
    &&& member(fields, "challengekey"@) is Some
    &&& member(fields, "answer"@) is Some
}

/// What a raw content decodes to. The shapes are tried in a fixed order: the
/// bare string, then GeeTest, then Capy; the first that fits is taken, and
/// `None` means that none fits.
pub open spec fn decoded(raw: RawContent) -> Option<RequestContentView> {
    match raw {
        RawContent::Text(s) => Some(RequestContentView::String(s@)),
        RawContent::Object(fields) => if is_geetest(fields@) {
            Some(
                RequestContentView::GeetestResponse {
                    challenge: member(fields@, "geetest_challenge"@).unwrap(),
                    validate: member(fields@, "geetest_validate"@).unwrap(),
                    seccode: member(fields@, "geetest_seccode"@).unwrap(),
                },
            )
        } else if is_capy(fields@) {
            Some(
                RequestContentView::CapyResponse {
                    captcha_key: member(fields@, "captchakey"@).unwrap(),
                    challenge_key: member(fields@, "challengekey"@).unwrap(),
                    answer: member(fields@, "answer"@).unwrap(),
                },
            )
        } else {
            None
        },
    }
}

impl RequestContent {
    /// Decodes a raw content by ordered structural matching. Fails with
    /// `SchemaMismatch` exactly when no shape fits.
    pub fn decode(raw: &RawContent) -> (r: Result<RequestContent, Error>)
        ensures
            match r {
                Ok(content) => decoded(*raw) == Some(content@),
                Err(e) => decoded(*raw) is None && e@ == crate::error::ErrorView::SchemaMismatch,
            },
    {
        match raw {
            RawContent::Text(s) => Ok(RequestContent::String(s.clone())),
            RawContent::Object(fields) => {
                let challenge = find_member(fields, "geetest_challenge");
                let validate = find_member(fields, "geetest_validate");
                let seccode = find_member(fields, "geetest_seccode");
                match (challenge, validate, seccode) {
                    (Some(challenge), Some(validate), Some(seccode)) => {
                        return Ok(RequestContent::GeetestResponse { challenge, validate, seccode });
                    },
                    _ => {},
                }
                let captcha_key = find_member(fields, "captchakey");
                let challenge_key = find_member(fields, "challengekey");
                let answer = find_member(fields, "answer");
                match (captcha_key, challenge_key, answer) {
                    (Some(captcha_key), Some(challenge_key), Some(answer)) => Ok(
                        RequestContent::CapyResponse { captcha_key, challenge_key, answer },
                    ),
                    _ => Err(Error::SchemaMismatch),
                }
            },
        }
    }

    /// The token of a content known to be a bare string.
    pub fn request_as_string(&self) -> (r: String)
        requires
            self is String,
        ensures
            self@ == RequestContentView::String(r@),
    {
        match self {
            RequestContent::String(data) => data.clone(),
            _ => String::new(),
        }
    }
}

} // verus!
