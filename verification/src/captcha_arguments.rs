use vstd::prelude::*;
use reqwest::multipart::Form;
use crate::error::{opt_text, Error};
use crate::form::{flag_text, form_fields, form_of, opt_field, pairs_view, push_field, push_opt_field};
use crate::captcha_types::CaptchaTask;
use crate::proxy::ProxyType;
use crate::response::RequestContent;

verus! {

/// A reCAPTCHA v2 challenge as the form-based submission endpoint takes it.
#[derive(Debug, Clone, PartialEq, Eq)]
pub struct RecaptchaV2 {
    pub page_url: String,
    pub site_key: String,
    pub proxy: Option<String>,
    pub domain: Option<String>,
    pub cookies: Option<String>,
    pub data_s: Option<String>,
    pub user_agent: Option<String>,
    pub pingback: Option<String>,
    pub proxy_type: Option<ProxyType>,
    pub enterprise: Option<bool>,
    pub invisible: Option<bool>,
}

/// The text of an optional flag.
pub open spec fn opt_flag(flag: Option<bool>) -> Option<Seq<char>> {
    match flag {
        Some(f) => Some(flag_text(f)),
        None => None,
    }
}

/// The wire tag of an optional proxy protocol.
pub open spec fn opt_proxy_type(proxy_type: Option<ProxyType>) -> Option<Seq<char>> {
    match proxy_type {
        Some(p) => Some(p.wire_name()),
        None => None,
    }
}

/// Writes an optional flag as text.
pub fn flag_string(flag: Option<bool>) -> (r: Option<String>)
    ensures
        opt_text(r) == opt_flag(flag),
{
    match flag {
        Some(true) => Some("1".to_owned()),
        Some(false) => Some("0".to_owned()),
        None => None,
    }
}

impl RecaptchaV2 {
    /// A challenge with the two required fields and nothing else.
    pub fn new(page_url: String, site_key: String) -> (r: RecaptchaV2)
        ensures
            r.page_url == page_url,
            r.site_key == site_key,
            r.proxy is None,
            r.domain is None,
            r.cookies is None,
            r.data_s is None,
            r.user_agent is None,
            r.pingback is None,
            r.proxy_type is None,
            r.enterprise is None,
            r.invisible is None,
    {
        RecaptchaV2 {
            page_url,
            site_key,
            proxy: None,
            domain: None,
            cookies: None,
            data_s: None,
            user_agent: None,
            pingback: None,
            proxy_type: None,
            enterprise: None,
            invisible: None,
        }
    }

    /// The fields of the submission, in the order in which they are sent:
    /// the seven fixed ones, then each optional one that has a value.
    pub open spec fn request_fields(self, api_key: Seq<char>) -> Seq<(Seq<char>, Seq<char>)> {
        Seq::<(Seq<char>, Seq<char>)>::empty().push(("key"@, api_key)).push(("json"@, "1"@)).push(
            ("header_acao"@, "1"@),
        ).push(("soft_id"@, "4143"@)).push(("pageurl"@, self.page_url@)).push(
            ("googlekey"@, self.site_key@),
        ).push(("method"@, "userrecaptcha"@)) + opt_field("proxy"@, opt_text(self.proxy))
            + opt_field("domain"@, opt_text(self.domain)) + opt_field(
            "cookies"@,
            opt_text(self.cookies),
        ) + opt_field("data-s"@, opt_text(self.data_s)) + opt_field(
            "userAgent"@,
            opt_text(self.user_agent),
        ) + opt_field("pingback"@, opt_text(self.pingback)) + opt_field(
            "enterprise"@,
            opt_flag(self.enterprise),
        ) + opt_field("invisible"@, opt_flag(self.invisible)) + opt_field(
            "proxytype"@,
            opt_proxy_type(self.proxy_type),
        )
    }

    /// Lists the fields of the submission. Optional fields without a value
    /// are left out, not sent empty.
    pub fn to_request_fields(&self, api_key: String) -> (r: Vec<(String, String)>)
        ensures
            pairs_view(r@) == self.request_fields(api_key@),
    {
        let mut fields: Vec<(String, String)> = Vec::new();
        proof {
            assert(pairs_view(fields@) =~= Seq::<(Seq<char>, Seq<char>)>::empty());
        }
        push_field(&mut fields, "key", api_key);
        push_field(&mut fields, "json", "1".to_owned());
        push_field(&mut fields, "header_acao", "1".to_owned());
        push_field(&mut fields, "soft_id", "4143".to_owned());
        push_field(&mut fields, "pageurl", self.page_url.clone());
        push_field(&mut fields, "googlekey", self.site_key.clone());
        push_field(&mut fields, "method", "userrecaptcha".to_owned());
        push_opt_field(&mut fields, "proxy", &self.proxy);
        push_opt_field(&mut fields, "domain", &self.domain);
        push_opt_field(&mut fields, "cookies", &self.cookies);
        push_opt_field(&mut fields, "data-s", &self.data_s);
        push_opt_field(&mut fields, "userAgent", &self.user_agent);
        push_opt_field(&mut fields, "pingback", &self.pingback);
        let enterprise = flag_string(self.enterprise);
        push_opt_field(&mut fields, "enterprise", &enterprise);
        let invisible = flag_string(self.invisible);
        push_opt_field(&mut fields, "invisible", &invisible);
        let proxy_type = match self.proxy_type {
            Some(p) => Some(p.to_string()),
            None => None,
        };
        push_opt_field(&mut fields, "proxytype", &proxy_type);
        fields
    }

    /// Builds the body of the submission as a multipart form.
    pub fn to_request_params(&self, api_key: String) -> (r: Result<Form, Error>)
        ensures
            r matches Ok(form) && form_fields(form) == self.request_fields(api_key@),
    {
        let fields = self.to_request_fields(api_key);
        Ok(form_of(&fields))
    }

    /// Seconds to wait after the submission before the first poll.
    pub fn get_initial_timeout_secs(&self) -> (r: u64)
        ensures
            r == 15,
    {
        15
    }
}

impl CaptchaTask for RecaptchaV2 {
    type Solution = RequestContent;

    open spec fn type_tag(&self) -> Seq<char> {
        "userrecaptcha"@
    }

    open spec fn timeout_secs(&self) -> u64 {
        15
    }

    fn get_type(&self) -> (r: String) {
        "userrecaptcha".to_owned()
    }

    open spec fn body_fields(&self, api_key: Seq<char>) -> Seq<(Seq<char>, Seq<char>)> {
        self.request_fields(api_key)
    }

    fn to_fields(&self, api_key: String) -> (r: Vec<(String, String)>) {
        self.to_request_fields(api_key)
    }

    fn get_timeout(&self) -> (r: u64) {
        self.get_initial_timeout_secs()
    }
}

} // verus!
