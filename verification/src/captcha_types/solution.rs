use vstd::prelude::*;
use crate::response::{decoded, find_member, member, RawContent, RequestContent};
use crate::solution::CaptchaSolution;

verus! {

impl CaptchaSolution for RequestContent {
    open spec fn fits(raw: RawContent) -> bool {
        decoded(raw) is Some
    }

    open spec fn reads(&self, raw: RawContent) -> bool {
        decoded(raw) == Some(self@)
    }

    fn from_content(raw: &RawContent) -> (r: Option<Self>) {
        match RequestContent::decode(raw) {
            Ok(content) => Some(content),
            Err(_) => None,
        }
    }
}

/// The answer to a reCAPTCHA challenge.
#[derive(Debug, Clone, PartialEq, Eq)]
pub struct ReCaptchaSolution {
    pub g_recaptcha_response: String,
    pub token: String,
}

impl CaptchaSolution for ReCaptchaSolution {
    open spec fn fits(raw: RawContent) -> bool {
        &&& raw is Object
        &&& member(raw->Object_0@, "gRecaptchaResponse"@) is Some
        &&& member(raw->Object_0@, "token"@) is Some
    }

    open spec fn reads(&self, raw: RawContent) -> bool {
        &&& raw is Object
        &&& member(raw->Object_0@, "gRecaptchaResponse"@) == Some(self.g_recaptcha_response@)
        &&& member(raw->Object_0@, "token"@) == Some(self.token@)
    }

    fn from_content(raw: &RawContent) -> (r: Option<Self>) {
        match raw {
            RawContent::Text(_) => None,
            RawContent::Object(fields) => {
                let g_recaptcha_response = find_member(fields, "gRecaptchaResponse");
                let token = find_member(fields, "token");
                match (g_recaptcha_response, token) {
                    (Some(g_recaptcha_response), Some(token)) => Some(ReCaptchaSolution { g_recaptcha_response, token }),
                    _ => None,
                }
            },
        }
    }
}

/// The answer to an Arkose Labs challenge.
#[derive(Debug, Clone, PartialEq, Eq)]
pub struct ArkoseLabsCaptchaSolution {
    pub token: String,
}

impl CaptchaSolution for ArkoseLabsCaptchaSolution {
    open spec fn fits(raw: RawContent) -> bool {
        &&& raw is Object
        &&& member(raw->Object_0@, "token"@) is Some
    }

    open spec fn reads(&self, raw: RawContent) -> bool {
        &&& raw is Object
        &&& member(raw->Object_0@, "token"@) == Some(self.token@)
    }

    fn from_content(raw: &RawContent) -> (r: Option<Self>) {
        match raw {
            RawContent::Text(_) => None,
            RawContent::Object(fields) => {
                let token = find_member(fields, "token");
                match token {
                    Some(token) => Some(ArkoseLabsCaptchaSolution { token }),
                    None => None,
                }
            },
        }
    }
}

/// The answer to a Capy puzzle.
#[derive(Debug, Clone, PartialEq, Eq)]
pub struct CapyCaptchaSolution {
    pub captcha_key: String,
    pub challenge_key: String,
    pub answer: String,
    pub resp_key: String,
}

impl CaptchaSolution for CapyCaptchaSolution {
    open spec fn fits(raw: RawContent) -> bool {
        &&& raw is Object
        &&& member(raw->Object_0@, "captchakey"@) is Some
        &&& member(raw->Object_0@, "challengekey"@) is Some
        &&& member(raw->Object_0@, "answer"@) is Some
        &&& member(raw->Object_0@, "resp_key"@) is Some
    }

    open spec fn reads(&self, raw: RawContent) -> bool {
        &&& raw is Object
        &&& member(raw->Object_0@, "captchakey"@) == Some(self.captcha_key@)
        &&& member(raw->Object_0@, "challengekey"@) == Some(self.challenge_key@)
        &&& member(raw->Object_0@, "answer"@) == Some(self.answer@)
        &&& member(raw->Object_0@, "resp_key"@) == Some(self.resp_key@)
    }

    fn from_content(raw: &RawContent) -> (r: Option<Self>) {
        match raw {
            RawContent::Text(_) => None,
            RawContent::Object(fields) => {
                let captcha_key = find_member(fields, "captchakey");
                let challenge_key = find_member(fields, "challengekey");
                let answer = find_member(fields, "answer");
                let resp_key = find_member(fields, "resp_key");
                match (captcha_key, challenge_key, answer, resp_key) {
                    (Some(captcha_key), Some(challenge_key), Some(answer), Some(resp_key)) => Some(CapyCaptchaSolution { captcha_key, challenge_key, answer, resp_key }),
                    _ => None,
                }
            },
        }
    }
}

/// The answer to a CyberSiARA challenge.
#[derive(Debug, Clone, PartialEq, Eq)]
pub struct CyberSiARACaptchaSolution {
    pub token: String,
}

impl CaptchaSolution for CyberSiARACaptchaSolution {
    open spec fn fits(raw: RawContent) -> bool {
        &&& raw is Object
        &&& member(raw->Object_0@, "token"@) is Some
    }

    open spec fn reads(&self, raw: RawContent) -> bool {
        &&& raw is Object
        &&& member(raw->Object_0@, "token"@) == Some(self.token@)
    }

    fn from_content(raw: &RawContent) -> (r: Option<Self>) {
        match raw {
            RawContent::Text(_) => None,
            RawContent::Object(fields) => {
                let token = find_member(fields, "token");
                match token {
                    Some(token) => Some(CyberSiARACaptchaSolution { token }),
                    None => None,
                }
            },
        }
    }
}

/// The answer to a Lemin puzzle.
#[derive(Debug, Clone, PartialEq, Eq)]
pub struct LeminCaptchaSolution {
    pub answer: String,
    pub challenge_id: String,
}

impl CaptchaSolution for LeminCaptchaSolution {
    open spec fn fits(raw: RawContent) -> bool {
        &&& raw is Object
        &&& member(raw->Object_0@, "answer"@) is Some
        &&& member(raw->Object_0@, "challenge_id"@) is Some
    }

    open spec fn reads(&self, raw: RawContent) -> bool {
        &&& raw is Object
        &&& member(raw->Object_0@, "answer"@) == Some(self.answer@)
        &&& member(raw->Object_0@, "challenge_id"@) == Some(self.challenge_id@)
    }

    fn from_content(raw: &RawContent) -> (r: Option<Self>) {
        match raw {
            RawContent::Text(_) => None,
            RawContent::Object(fields) => {
                let answer = find_member(fields, "answer");
                let challenge_id = find_member(fields, "challenge_id");
                match (answer, challenge_id) {
                    (Some(answer), Some(challenge_id)) => Some(LeminCaptchaSolution { answer, challenge_id }),
                    _ => None,
                }
            },
        }
    }
}

} // verus!
