//! The record that a proxy lookup returns.
use crate::ip::IpAddress;
use std::borrow::Cow;
use vstd::prelude::*;

verus! {

/// A country: its two-letter code and its name.
#[derive(Debug, PartialEq)]
pub struct Country<'a> {
    pub short_name: Cow<'a, str>,
    pub long_name: Cow<'a, str>,
}

/// How an address is classified.
#[derive(Clone, Copy, Debug, PartialEq, Eq, Structural)]
pub enum Proxy {
    IsAnError,
    IsNotAProxy,
    IsAProxy,
    IsADataCenterIpAddress,
}

/// What a proxy database tells of an address, as far as its schema goes. Text
/// fields borrow from the database's bytes.
#[derive(Debug, PartialEq)]
pub struct ProxyRecord<'a> {
    pub ip: IpAddress,
    pub country: Option<Country<'a>>,
    pub region: Option<Cow<'a, str>>,
    pub city: Option<Cow<'a, str>>,
    pub isp: Option<Cow<'a, str>>,
    pub domain: Option<Cow<'a, str>>,
    pub is_proxy: Option<Proxy>,
    pub proxy_type: Option<Cow<'a, str>>,
    pub asn: Option<Cow<'a, str>>,
    pub as_: Option<Cow<'a, str>>,
    pub last_seen: Option<Cow<'a, str>>,
    pub threat: Option<Cow<'a, str>>,
    pub provider: Option<Cow<'a, str>>,
    pub usage_type: Option<Cow<'a, str>>,
}

/// A proxy record seen through views: texts as characters, a country as its
/// short and long name.
pub struct ProxyView {
    pub ip: IpAddress,
    pub country: Option<(Seq<char>, Seq<char>)>,
    pub region: Option<Seq<char>>,
    pub city: Option<Seq<char>>,
    pub isp: Option<Seq<char>>,
    pub domain: Option<Seq<char>>,
    pub is_proxy: Option<Proxy>,
    pub proxy_type: Option<Seq<char>>,
    pub asn: Option<Seq<char>>,
    pub as_: Option<Seq<char>>,
    pub last_seen: Option<Seq<char>>,
    pub threat: Option<Seq<char>>,
    pub provider: Option<Seq<char>>,
    pub usage_type: Option<Seq<char>>,
}

/// The characters of an optional text.
pub open spec fn opt_text_view(t: Option<Cow<'_, str>>) -> Option<Seq<char>> {
    match t {
        Some(s) => Some(s@),
        None => None,
    }
}

/// The short and long name of an optional country.
pub open spec fn opt_country_view(c: Option<Country<'_>>) -> Option<(Seq<char>, Seq<char>)> {
    match c {
        Some(c) => Some((c.short_name@, c.long_name@)),
        None => None,
    }
}

impl<'a> View for ProxyRecord<'a> {
    type V = ProxyView;

    open spec fn view(&self) -> ProxyView {
        ProxyView {
            ip: self.ip,
            country: opt_country_view(self.country),
            region: opt_text_view(self.region),
            city: opt_text_view(self.city),
            isp: opt_text_view(self.isp),
            domain: opt_text_view(self.domain),
            is_proxy: self.is_proxy,
            proxy_type: opt_text_view(self.proxy_type),
            asn: opt_text_view(self.asn),
            as_: opt_text_view(self.as_),
            last_seen: opt_text_view(self.last_seen),
            threat: opt_text_view(self.threat),
            provider: opt_text_view(self.provider),
            usage_type: opt_text_view(self.usage_type),
        }
    }
}

/// The view of a record with no field set, for the unspecified address `::`;
/// its classification is `IsAnError`.
pub open spec fn empty_proxy_view() -> ProxyView {
    ProxyView {
        ip: IpAddress::V6(0),
        country: None,
        region: None,
        city: None,
        isp: None,
        domain: None,
        is_proxy: Some(Proxy::IsAnError),
        proxy_type: None,
        asn: None,
        as_: None,
        last_seen: None,
        threat: None,
        provider: None,
        usage_type: None,
    }
}

impl<'a> Default for ProxyRecord<'a> {
    fn default() -> (r: Self)
        ensures
            r@ == empty_proxy_view(),
    {
        ProxyRecord {
            ip: IpAddress::V6(0),
            country: None,
            region: None,
            city: None,
            isp: None,
            domain: None,
            is_proxy: Some(Proxy::IsAnError),
            proxy_type: None,
            asn: None,
            as_: None,
            last_seen: None,
            threat: None,
            provider: None,
            usage_type: None,
        }
    }
}

} // verus!
