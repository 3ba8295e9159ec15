use vstd::prelude::*;
use crate::error::opt_text;
use crate::form::{opt_field, pairs_view, push_field, push_opt_field};
use crate::task_id::{decimal_text, format_task_id};

verus! {

/// Protocol spoken by a caller-supplied proxy.
#[derive(Debug, Clone, Copy, PartialEq, Eq, Structural)]
pub enum ProxyType {
    Http,
    Socks4,
    Socks5,
}

impl ProxyType {
    /// The lower-case tag that stands for this protocol on the wire.
    pub open spec fn wire_name(self) -> Seq<char> {
        match self {
            ProxyType::Http => "http"@,
            ProxyType::Socks4 => "socks4"@,
            ProxyType::Socks5 => "socks5"@,
        }
    }

    /// The wire tag as an owned string.
    pub fn to_string(&self) -> (r: String)
        ensures
            r@ == self.wire_name(),
    {
        match self {
            ProxyType::Http => "http".to_owned(),
            ProxyType::Socks4 => "socks4".to_owned(),
            ProxyType::Socks5 => "socks5".to_owned(),
        }
    }
}

/// Routing information that lets the remote worker reach the target site
/// through a proxy chosen by the caller.
#[derive(Debug, Clone, PartialEq, Eq)]
pub struct Proxy {
    pub proxy_type: ProxyType,
    pub proxy_address: String,
    pub proxy_port: u16,
    pub proxy_login: Option<String>,
    pub proxy_password: Option<String>,
}

impl Proxy {
    /// The fields that describe the proxy: protocol, address and port, then
    /// login and password where there are any.
    pub open spec fn fields(self) -> Seq<(Seq<char>, Seq<char>)> {
        Seq::<(Seq<char>, Seq<char>)>::empty().push(
            ("proxyType"@, self.proxy_type.wire_name()),
        ).push(("proxyAddress"@, self.proxy_address@)).push(
            ("proxyPort"@, decimal_text(self.proxy_port as nat)),
        ) + opt_field("proxyLogin"@, opt_text(self.proxy_login)) + opt_field(
            "proxyPassword"@,
            opt_text(self.proxy_password),
        )
    }

    /// Appends the fields that describe the proxy.
    pub fn push_fields(&self, fields: &mut Vec<(String, String)>)
        ensures
            pairs_view(final(fields)@) == pairs_view(old(fields)@) + self.fields(),
    {
        push_field(fields, "proxyType", self.proxy_type.to_string());
        push_field(fields, "proxyAddress", self.proxy_address.clone());
        push_field(fields, "proxyPort", format_task_id(self.proxy_port as u64));
        push_opt_field(fields, "proxyLogin", &self.proxy_login);
        push_opt_field(fields, "proxyPassword", &self.proxy_password);
        proof {
            assert(pairs_view(fields@) =~= pairs_view(old(fields)@) + self.fields());
        }
    }
}

/// The fields of an optional proxy: none where there is no proxy.
pub open spec fn opt_proxy_fields(proxy: Option<Proxy>) -> Seq<(Seq<char>, Seq<char>)> {
    match proxy {
        Some(p) => p.fields(),
        None => Seq::empty(),
    }
}

/// Appends the fields of a proxy where there is one.
pub fn push_opt_proxy(fields: &mut Vec<(String, String)>, proxy: &Option<Proxy>)
    ensures
        pairs_view(final(fields)@) == pairs_view(old(fields)@) + opt_proxy_fields(*proxy),
{
    match proxy {
        Some(p) => {
            p.push_fields(fields);
        },
        None => {
            proof {
                assert(pairs_view(fields@) =~= pairs_view(old(fields)@) + opt_proxy_fields(*proxy));
            }
        },
    }
}

} // verus!
