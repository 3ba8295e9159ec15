use vstd::prelude::*;
use crate::captcha_types::solution::ReCaptchaSolution;
use crate::captcha_types::CaptchaTask;
use crate::error::{opt_text, Error, ErrorView};
use crate::form::{
    bool_string, bool_text, opt_bool_string, opt_bool_text, opt_field, pairs_view, push_field,
    push_opt_field, start_task_fields, task_head,
};
use crate::proxy::{opt_proxy_fields, push_opt_proxy, Proxy};
use crate::response::RequestContent;
use crate::web_url::{parsed_url, WebUrl};

verus! {

/// A question in plain text that a worker answers by reading it.
#[derive(Debug, Clone, PartialEq, Eq)]
pub struct TextCaptcha {
    pub comment: String,
}

impl CaptchaTask for TextCaptcha {
    type Solution = RequestContent;

    open spec fn type_tag(&self) -> Seq<char> {
        "TextCaptchaTask"@
    }

    open spec fn timeout_secs(&self) -> u64 {
        5
    }

    fn get_type(&self) -> (r: String) {
        "TextCaptchaTask".to_owned()
    }

    open spec fn body_fields(&self, api_key: Seq<char>) -> Seq<(Seq<char>, Seq<char>)> {
        task_head(api_key, self.type_tag()).push(("comment"@, self.comment@))
    }

    fn to_fields(&self, api_key: String) -> (r: Vec<(String, String)>) {
        let mut fields = start_task_fields(api_key, self.get_type());
        push_field(&mut fields, "comment", self.comment.clone());
        fields
    }

    fn get_timeout(&self) -> (r: u64) {
        5
    }
}

/// Whether a reCAPTCHA v2 task is solved from the service's own addresses or
/// through a proxy of the caller.
#[derive(Debug, Clone, PartialEq, Eq)]
pub enum RecaptchaV2Types {
    ProxyLess,
    WithProxy(Proxy),
}

impl RecaptchaV2Types {
    /// The proxy, where the task goes through one.
    pub open spec fn proxy(self) -> Option<Proxy> {
        match self {
            RecaptchaV2Types::ProxyLess => None,
            RecaptchaV2Types::WithProxy(p) => Some(p),
        }
    }

    /// Copies the proxy, where the task goes through one.
    pub fn get_proxy(&self) -> (r: Option<Proxy>)
        ensures
            r is Some == self.proxy() is Some,
            r matches Some(p) ==> p.fields() == self.proxy()->0.fields(),
    {
        match self {
            RecaptchaV2Types::ProxyLess => None,
            RecaptchaV2Types::WithProxy(p) => Some(
                Proxy {
                    proxy_type: p.proxy_type,
                    proxy_address: p.proxy_address.clone(),
                    proxy_port: p.proxy_port,
                    proxy_login: p.proxy_login.clone(),
                    proxy_password: p.proxy_password.clone(),
                },
            ),
        }
    }
}

/// A reCAPTCHA v2 challenge.
#[derive(Debug, Clone, PartialEq, Eq)]
pub struct RecaptchaV2 {
    pub task_type: RecaptchaV2Types,
    pub website_url: WebUrl,
    pub website_key: String,
    pub recaptcha_data_s_value: Option<String>,
    pub is_invisible: bool,
    pub user_agent: Option<String>,
    pub cookies: Option<String>,
    pub api_domain: Option<String>,
}

impl CaptchaTask for RecaptchaV2 {
    type Solution = ReCaptchaSolution;

    open spec fn type_tag(&self) -> Seq<char> {
        match self.task_type {
            RecaptchaV2Types::ProxyLess => "RecaptchaV2TaskProxyless"@,
            RecaptchaV2Types::WithProxy(_) => "RecaptchaV2Task"@,
        }
    }

    open spec fn timeout_secs(&self) -> u64 {
        20
    }

    fn get_type(&self) -> (r: String) {
        match &self.task_type {
            RecaptchaV2Types::ProxyLess => "RecaptchaV2TaskProxyless".to_owned(),
            RecaptchaV2Types::WithProxy(_) => "RecaptchaV2Task".to_owned(),
        }
    }

    open spec fn body_fields(&self, api_key: Seq<char>) -> Seq<(Seq<char>, Seq<char>)> {
        (task_head(api_key, self.type_tag()) + opt_proxy_fields(self.task_type.proxy())).push(
            ("websiteURL"@, self.website_url.href@),
        ).push(("websiteKey"@, self.website_key@)) + opt_field(
            "recaptchaDataSValue"@,
            opt_text(self.recaptcha_data_s_value),
        ) + seq![("isInvisible"@, bool_text(self.is_invisible))] + opt_field(
            "userAgent"@,
            opt_text(self.user_agent),
        ) + opt_field("cookies"@, opt_text(self.cookies)) + opt_field(
            "apiDomain"@,
            opt_text(self.api_domain),
        )
    }

    fn to_fields(&self, api_key: String) -> (r: Vec<(String, String)>) {
        let mut fields = start_task_fields(api_key, self.get_type());
        let proxy = self.task_type.get_proxy();
        push_opt_proxy(&mut fields, &proxy);
        push_field(&mut fields, "websiteURL", self.website_url.href.clone());
        push_field(&mut fields, "websiteKey", self.website_key.clone());
        push_opt_field(&mut fields, "recaptchaDataSValue", &self.recaptcha_data_s_value);
        let ghost before = pairs_view(fields@);
        push_field(&mut fields, "isInvisible", bool_string(self.is_invisible));
        proof {
            assert(pairs_view(fields@) =~= before + seq![
                ("isInvisible"@, bool_text(self.is_invisible)),
            ]);
        }
        push_opt_field(&mut fields, "userAgent", &self.user_agent);
        push_opt_field(&mut fields, "cookies", &self.cookies);
        push_opt_field(&mut fields, "apiDomain", &self.api_domain);
        fields
    }

    fn get_timeout(&self) -> (r: u64) {
        20
    }
}

/// Whether an hCaptcha task is solved from the service's own addresses or
/// through a proxy of the caller.
#[derive(Debug, Clone, PartialEq, Eq)]
pub enum HCaptchaTypes {
    ProxyLess,
    WithProxy(Proxy),
}

impl HCaptchaTypes {
    /// The proxy, where the task goes through one.
    pub open spec fn proxy(self) -> Option<Proxy> {
        match self {
            HCaptchaTypes::ProxyLess => None,
            HCaptchaTypes::WithProxy(p) => Some(p),
        }
    }

    /// Copies the proxy, where the task goes through one.
    pub fn get_proxy(&self) -> (r: Option<Proxy>)
        ensures
            r is Some == self.proxy() is Some,
            r matches Some(p) ==> p.fields() == self.proxy()->0.fields(),
    {
        match self {
            HCaptchaTypes::ProxyLess => None,
            HCaptchaTypes::WithProxy(p) => Some(
                Proxy {
                    proxy_type: p.proxy_type,
                    proxy_address: p.proxy_address.clone(),
                    proxy_port: p.proxy_port,
                    proxy_login: p.proxy_login.clone(),
                    proxy_password: p.proxy_password.clone(),
                },
            ),
        }
    }
}

/// An hCaptcha challenge. The enterprise payload, where there is one, is
/// held in its serialised form.
#[derive(Debug, Clone, PartialEq, Eq)]
pub struct HCaptcha {
    pub task_type: HCaptchaTypes,
    pub website_url: WebUrl,
    pub website_key: String,
    pub is_invisible: bool,
    pub enterprise_payload: Option<String>,
}

impl CaptchaTask for HCaptcha {
    type Solution = RequestContent;

    open spec fn type_tag(&self) -> Seq<char> {
        match self.task_type {
            HCaptchaTypes::ProxyLess => "HCaptchaTaskProxyless"@,
            HCaptchaTypes::WithProxy(_) => "HCaptchaTask"@,
        }
    }

    open spec fn timeout_secs(&self) -> u64 {
        20
    }

    fn get_type(&self) -> (r: String) {
        match &self.task_type {
            HCaptchaTypes::ProxyLess => "HCaptchaTaskProxyless".to_owned(),
            HCaptchaTypes::WithProxy(_) => "HCaptchaTask".to_owned(),
        }
    }

    open spec fn body_fields(&self, api_key: Seq<char>) -> Seq<(Seq<char>, Seq<char>)> {
        (task_head(api_key, self.type_tag()) + opt_proxy_fields(self.task_type.proxy())).push(
            ("websiteURL"@, self.website_url.href@),
        ).push(("websiteKey"@, self.website_key@)).push(
            ("isInvisible"@, bool_text(self.is_invisible)),
        ) + opt_field("enterprisePayload"@, opt_text(self.enterprise_payload))
    }

    fn to_fields(&self, api_key: String) -> (r: Vec<(String, String)>) {
        let mut fields = start_task_fields(api_key, self.get_type());
        let proxy = self.task_type.get_proxy();
        push_opt_proxy(&mut fields, &proxy);
        push_field(&mut fields, "websiteURL", self.website_url.href.clone());
        push_field(&mut fields, "websiteKey", self.website_key.clone());
        push_field(&mut fields, "isInvisible", bool_string(self.is_invisible));
        push_opt_field(&mut fields, "enterprisePayload", &self.enterprise_payload);
        fields
    }

    fn get_timeout(&self) -> (r: u64) {
        20
    }
}

/// A reCAPTCHA v2 Enterprise challenge. The enterprise payload, where there
/// is one, is held in its serialised form.
#[derive(Debug, Clone, PartialEq, Eq)]
pub struct RecaptchaV2Enterprise {
    pub proxy: Option<Proxy>,
    pub website_url: WebUrl,
    pub website_key: String,
    pub enterprise_payload: Option<String>,
    pub is_invisible: Option<bool>,
    pub user_agent: Option<String>,
    pub cookies: Option<String>,
    pub api_domain: Option<String>,
}

impl CaptchaTask for RecaptchaV2Enterprise {
    type Solution = ReCaptchaSolution;

    open spec fn type_tag(&self) -> Seq<char> {
        match self.proxy {
            None => "RecaptchaV2EnterpriseTaskProxyless"@,
            Some(_) => "RecaptchaV2EnterpriseTask"@,
        }
    }

    open spec fn timeout_secs(&self) -> u64 {
        20
    }

    fn get_type(&self) -> (r: String) {
        match &self.proxy {
            None => "RecaptchaV2EnterpriseTaskProxyless".to_owned(),
            Some(_) => "RecaptchaV2EnterpriseTask".to_owned(),
        }
    }

    open spec fn body_fields(&self, api_key: Seq<char>) -> Seq<(Seq<char>, Seq<char>)> {
        (task_head(api_key, self.type_tag()) + opt_proxy_fields(self.proxy)).push(
            ("websiteURL"@, self.website_url.href@),
        ).push(("websiteKey"@, self.website_key@)) + opt_field(
            "enterprisePayload"@,
            opt_text(self.enterprise_payload),
        ) + opt_field("isInvisible"@, opt_bool_text(self.is_invisible)) + opt_field(
            "userAgent"@,
            opt_text(self.user_agent),
        ) + opt_field("cookies"@, opt_text(self.cookies)) + opt_field(
            "apiDomain"@,
            opt_text(self.api_domain),
        )
    }

    fn to_fields(&self, api_key: String) -> (r: Vec<(String, String)>) {
        let mut fields = start_task_fields(api_key, self.get_type());
        push_opt_proxy(&mut fields, &self.proxy);
        push_field(&mut fields, "websiteURL", self.website_url.href.clone());
        push_field(&mut fields, "websiteKey", self.website_key.clone());
        push_opt_field(&mut fields, "enterprisePayload", &self.enterprise_payload);
        let is_invisible = opt_bool_string(self.is_invisible);
        push_opt_field(&mut fields, "isInvisible", &is_invisible);
        push_opt_field(&mut fields, "userAgent", &self.user_agent);
        push_opt_field(&mut fields, "cookies", &self.cookies);
        push_opt_field(&mut fields, "apiDomain", &self.api_domain);
        fields
    }

    fn get_timeout(&self) -> (r: u64) {
        20
    }
}

/// Collects the fields of a reCAPTCHA v2 Enterprise challenge; the required
/// ones are checked when the challenge is built.
#[derive(Debug, Clone, PartialEq, Eq)]
pub struct RecaptchaV2EnterpriseBuilder {
    pub website_url: Option<String>,
    pub website_key: Option<String>,
    pub proxy: Option<Proxy>,
    pub enterprise_payload: Option<String>,
    pub is_invisible: Option<bool>,
    pub user_agent: Option<String>,
    pub cookies: Option<String>,
    pub api_domain: Option<String>,
}

/// The error that a build ends in, or nothing where it succeeds: a missing
/// field is named, the URL first; a URL that cannot be parsed is quoted.
pub open spec fn build_error(
    website_url: Option<String>,
    website_key: Option<String>,
) -> Option<ErrorView> {
    match website_url {
        None => Some(ErrorView::InvalidInput("website_url"@)),
        Some(text) => if website_key is None {
            Some(ErrorView::InvalidInput("website_key"@))
        } else if parsed_url(text@) is None {
            Some(ErrorView::InvalidInput(text@))
        } else {
            None
        },
    }
}

impl RecaptchaV2Enterprise {
    /// A builder with no field set.
    pub fn builder() -> (r: RecaptchaV2EnterpriseBuilder)
        ensures
            r.website_url is None,
            r.website_key is None,
            r.proxy is None,
            r.enterprise_payload is None,
            r.is_invisible is None,
            r.user_agent is None,
            r.cookies is None,
            r.api_domain is None,
    {
        RecaptchaV2EnterpriseBuilder {
            website_url: None,
            website_key: None,
            proxy: None,
            enterprise_payload: None,
            is_invisible: None,
            user_agent: None,
            cookies: None,
            api_domain: None,
        }
    }
}

impl RecaptchaV2EnterpriseBuilder {
    /// Sets the address of the page that shows the captcha.
    pub fn website_url(self, url: &str) -> (r: RecaptchaV2EnterpriseBuilder)
        ensures
            r.website_url matches Some(u) && u@ == url@,
            r.website_key == self.website_key,
            r.proxy == self.proxy,
            r.enterprise_payload == self.enterprise_payload,
            r.is_invisible == self.is_invisible,
            r.user_agent == self.user_agent,
            r.cookies == self.cookies,
            r.api_domain == self.api_domain,
    {
        RecaptchaV2EnterpriseBuilder { website_url: Some(url.to_owned()), ..self }
    }

    /// Sets the site key of the captcha.
    pub fn website_key(self, key: &str) -> (r: RecaptchaV2EnterpriseBuilder)
        ensures
            r.website_key matches Some(k) && k@ == key@,
            r.website_url == self.website_url,
            r.proxy == self.proxy,
            r.enterprise_payload == self.enterprise_payload,
            r.is_invisible == self.is_invisible,
            r.user_agent == self.user_agent,
            r.cookies == self.cookies,
            r.api_domain == self.api_domain,
    {
        RecaptchaV2EnterpriseBuilder { website_key: Some(key.to_owned()), ..self }
    }

    /// Builds the challenge. Fails with `InvalidInput` where a required
    /// field is missing or the URL cannot be parsed, and only then.
    pub fn build(self) -> (r: Result<RecaptchaV2Enterprise, Error>)
        ensures
            match r {
                Ok(task) => {
                    &&& build_error(self.website_url, self.website_key) is None
                    &&& Some(task.website_url.href@) == parsed_url(self.website_url->0@)
                    &&& Some(task.website_key) == self.website_key
                    &&& task.proxy == self.proxy
                    &&& task.enterprise_payload == self.enterprise_payload
                    &&& task.is_invisible == self.is_invisible
                    &&& task.user_agent == self.user_agent
                    &&& task.cookies == self.cookies
                    &&& task.api_domain == self.api_domain
                },
                Err(e) => build_error(self.website_url, self.website_key) == Some(e@),
            },
    {
        let text = match self.website_url {
            Some(text) => text,
            None => {
                return Err(Error::InvalidInput("website_url".to_owned()));
            },
        };
        let website_key = match self.website_key {
            Some(key) => key,
            None => {
                return Err(Error::InvalidInput("website_key".to_owned()));
            },
        };
        match WebUrl::parse(text.as_str()) {
            Ok(website_url) => Ok(
                RecaptchaV2Enterprise {
                    proxy: self.proxy,
                    website_url,
                    website_key,
                    enterprise_payload: self.enterprise_payload,
                    is_invisible: self.is_invisible,
                    user_agent: self.user_agent,
                    cookies: self.cookies,
                    api_domain: self.api_domain,
                },
            ),
            Err(e) => Err(e),
        }
    }
}

} // verus!
