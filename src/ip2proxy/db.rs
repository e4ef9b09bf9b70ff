//! Lookups in a proxy (IP2Proxy) database.
use crate::common::{country_column, text_column, Source, ROW_OFFSET_LIMIT};
use crate::error::Error;
use crate::header::{open_header, open_result, Header, PROXY_PRODUCT};
use crate::ip2proxy::consts::{
    ASN_POSITION, AS_POSITION, CITY_POSITION, COUNTRY_POSITION, DOMAIN_POSITION, ISP_POSITION, LAST_SEEN_POSITION, PROVIDER_POSITION, PROXY_TYPE_POSITION, REGION_POSITION, THREAT_POSITION, USAGE_TYPE_POSITION,
};
use crate::ip2proxy::record::{Country, Proxy, ProxyRecord, ProxyView};
use crate::ip::{canonicalize, search_key, IpAddress};
use crate::search::{locate, payload_offset, row_payload_offset, search_key_target, search_table};
use std::borrow::Cow;
use vstd::prelude::*;
use vstd::string::StrSliceExecFns;

verus! {

/// The largest `db_type` of a proxy file.
pub const PROXY_MAX_TYPE: u8 = 25;

/// The column that `table` gives a field in schema `t`: schemas past the
/// tables' last entry (11) hold none of the fields.
pub open spec fn proxy_column(table: [u32; 12], t: int) -> u32 {
    if 0 <= t < 12 {
        table@[t]
    } else {
        0
    }
}

/// The column that `table` gives a field in schema `t`, or 0 past the table.
pub fn column_of(table: &[u32; 12], t: usize) -> (c: u32)
    ensures
        c == proxy_column(*table, t as int),
{
    if t < 12 {
        table[t]
    } else {
        0
    }
}

/// The classification of an address whose country code is `short` and whose
/// proxy type is `proxy_type`: no country (`-`) means no proxy, the types `DCH`
/// and `SES` mean a data centre, anything else a proxy.
pub open spec fn classify(short: Seq<char>, proxy_type: Option<Seq<char>>) -> Proxy {
    if short == "-"@ {
        Proxy::IsNotAProxy
    } else if proxy_type == Some("DCH"@) || proxy_type == Some("SES"@) {
        Proxy::IsADataCenterIpAddress
    } else {
        Proxy::IsAProxy
    }
}

/// The record that the row whose column 1 starts at `row` holds, in a file of
/// schema `t`, for the address `ip`; `None` where a column escapes the blob.
pub open spec fn proxy_at(blob: Seq<u8>, t: int, row: int, ip: IpAddress) -> Option<ProxyView> {
    let country = country_column(blob, row, proxy_column(COUNTRY_POSITION, t));
    let region = text_column(blob, row, proxy_column(REGION_POSITION, t));
    let city = text_column(blob, row, proxy_column(CITY_POSITION, t));
    let isp = text_column(blob, row, proxy_column(ISP_POSITION, t));
    let domain = text_column(blob, row, proxy_column(DOMAIN_POSITION, t));
    let proxy_type = text_column(blob, row, proxy_column(PROXY_TYPE_POSITION, t));
    let asn = text_column(blob, row, proxy_column(ASN_POSITION, t));
    let as_ = text_column(blob, row, proxy_column(AS_POSITION, t));
    let last_seen = text_column(blob, row, proxy_column(LAST_SEEN_POSITION, t));
    let threat = text_column(blob, row, proxy_column(THREAT_POSITION, t));
    let provider = text_column(blob, row, proxy_column(PROVIDER_POSITION, t));
    let usage_type = text_column(blob, row, proxy_column(USAGE_TYPE_POSITION, t));
    if country is Some
        && region is Some
        && city is Some
        && isp is Some
        && domain is Some
        && proxy_type is Some
        && asn is Some
        && as_ is Some
        && last_seen is Some
        && threat is Some
        && provider is Some
        && usage_type is Some {
        let is_proxy = match country->0 {
            Some(c) => classify(c.0, proxy_type->0),
            None => Proxy::IsAnError,
        };
        Some(
            ProxyView {
                ip,
                country: country->0,
                region: region->0,
                city: city->0,
                isp: isp->0,
                domain: domain->0,
                is_proxy: Some(is_proxy),
                proxy_type: proxy_type->0,
                asn: asn->0,
                as_: as_->0,
                last_seen: last_seen->0,
                threat: threat->0,
                provider: provider->0,
                usage_type: usage_type->0,
            },
        )
    } else {
        None
    }
}

/// What a lookup of `ip` in the proxy file `blob`, with header `h`, returns.
pub open spec fn proxy_lookup(blob: Seq<u8>, h: Header, ip: IpAddress) -> Result<ProxyView, Error> {
    match locate(blob, h, search_key(ip)) {
        Err(e) => Err(e),
        Ok((fam, i)) => match proxy_at(blob, h.db_type as int, payload_offset(h, fam, i), ip) {
            Some(v) => Ok(v),
            None => Err(Error::OutOfBounds),
        },
    }
}

/// A lookup result seen through views.
pub open spec fn proxy_result_view(r: Result<ProxyRecord<'_>, Error>) -> Result<ProxyView, Error> {
    match r {
        Ok(rec) => Ok(rec@),
        Err(e) => Err(e),
    }
}

/// Whether the text `t` is exactly `lit`.
pub fn text_is(t: &Cow<'_, str>, lit: &str) -> (r: bool)
    ensures
        r == (t@ == lit@),
{
    let s: &str = match t {
        Cow::Borrowed(b) => *b,
        Cow::Owned(o) => o.as_str(),
    };
    let n = s.unicode_len();
    if n != lit.unicode_len() {
        return false;
    }
    let mut i: usize = 0;
    while i < n
        invariant
            n == s@.len(),
            n == lit@.len(),
            s@ == t@,
            forall|j: int| 0 <= j < i ==> s@[j] == lit@[j],
        decreases n - i,
    {
        if s.get_char(i) != lit.get_char(i) {
            return false;
        }
        i = i + 1;
    }
    assert(s@ =~= lit@);
    true
}

/// Classifies an address from its country code and proxy type.
pub fn classify_proxy(short: &Cow<'_, str>, proxy_type: &Option<Cow<'_, str>>) -> (r: Proxy)
    ensures
        r == classify(short@, match proxy_type {
            Some(p) => Some(p@),
            None => None,
        }),
{
    if text_is(short, "-") {
        return Proxy::IsNotAProxy;
    }
    match proxy_type {
        Some(p) => {
            if text_is(p, "DCH") || text_is(p, "SES") {
                Proxy::IsADataCenterIpAddress
            } else {
                Proxy::IsAProxy
            }
        },
        None => Proxy::IsAProxy,
    }
}

/// An open proxy database: its header and the bytes of its file.
pub struct ProxyDB<'a> {
    header: Header,
    source: Source<'a>,
}

impl<'a> ProxyDB<'a> {
    #[verifier::type_invariant]
    spec fn inv(&self) -> bool {
        open_result(self.source@, PROXY_PRODUCT, PROXY_MAX_TYPE) == Ok::<Header, Error>(self.header)
    }

    /// The bytes of the file.
    pub closed spec fn blob(&self) -> Seq<u8> {
        self.source@
    }

    /// The header of the file.
    pub closed spec fn header(&self) -> Header {
        self.header
    }

    /// Opens the proxy database held in `bytes`.
    pub fn from_bytes(bytes: &'a [u8]) -> (r: Result<Self, Error>)
        ensures
            match r {
                Ok(db) => open_result(bytes@, PROXY_PRODUCT, PROXY_MAX_TYPE) == Ok::<Header, Error>(db.header()) && db.blob() == bytes@,
                Err(e) => open_result(bytes@, PROXY_PRODUCT, PROXY_MAX_TYPE) == Err::<Header, Error>(e),
            },
    {
        let source = Source::new(bytes);
        let header = open_header(&source, PROXY_PRODUCT, PROXY_MAX_TYPE)?;
        Ok(ProxyDB { header, source })
    }

    /// The header fields of the file.
    pub fn header_fields(&self) -> (h: Header)
        ensures
            h == self.header(),
    {
        self.header
    }

    /// Looks up the address `ip`.
    pub fn ip_lookup(&self, ip: IpAddress) -> (r: Result<ProxyRecord<'a>, Error>)
        ensures
            proxy_result_view(r) == proxy_lookup(self.blob(), self.header(), ip),
    {
        proof {
            use_type_invariant(self);
        }
        let (fam, key) = search_key_target(canonicalize(ip));
        let i = search_table(&self.source, &self.header, fam, key)?;
        let row = row_payload_offset(&self.header, fam, i);
        self.read_record(row, ip)
    }

    /// Reads every field that the schema holds from the row whose column 1
    /// starts at `row`, and classifies the address.
    fn read_record(&self, row: u64, ip: IpAddress) -> (r: Result<ProxyRecord<'a>, Error>)
        requires
            row < ROW_OFFSET_LIMIT,
        ensures
            proxy_result_view(r) == (match proxy_at(self.blob(), self.header().db_type as int, row as int, ip) {
                Some(v) => Ok::<ProxyView, Error>(v),
                None => Err(Error::OutOfBounds),
            }),
    {
        proof {
            use_type_invariant(self);
        }
        let t = self.header.db_type as usize;
        let src = &self.source;
        let mut record = ProxyRecord::default();
        record.ip = ip;
        record.region = src.read_text_column(row, column_of(&REGION_POSITION, t))?;
        record.city = src.read_text_column(row, column_of(&CITY_POSITION, t))?;
        record.isp = src.read_text_column(row, column_of(&ISP_POSITION, t))?;
        record.proxy_type = src.read_text_column(row, column_of(&PROXY_TYPE_POSITION, t))?;
        record.domain = src.read_text_column(row, column_of(&DOMAIN_POSITION, t))?;
        record.usage_type = src.read_text_column(row, column_of(&USAGE_TYPE_POSITION, t))?;
        record.asn = src.read_text_column(row, column_of(&ASN_POSITION, t))?;
        record.as_ = src.read_text_column(row, column_of(&AS_POSITION, t))?;
        record.last_seen = src.read_text_column(row, column_of(&LAST_SEEN_POSITION, t))?;
        record.threat = src.read_text_column(row, column_of(&THREAT_POSITION, t))?;
        record.provider = src.read_text_column(row, column_of(&PROVIDER_POSITION, t))?;
        if let Some((short_name, long_name)) = src.read_country_column(row, column_of(&COUNTRY_POSITION, t))? {
            record.is_proxy = Some(classify_proxy(&short_name, &record.proxy_type));
            record.country = Some(Country { short_name, long_name });
        }
        Ok(record)
    }
}

/// A proxy record has a field exactly where the file's schema gives that field a
/// column.
pub proof fn lemma_proxy_fields_follow_schema(blob: Seq<u8>, h: Header, ip: IpAddress)
    ensures
        proxy_lookup(blob, h, ip) matches Ok(v) ==> {
            &&& (v.country is Some <==> proxy_column(COUNTRY_POSITION, h.db_type as int) != 0)
            &&& (v.region is Some <==> proxy_column(REGION_POSITION, h.db_type as int) != 0)
            &&& (v.city is Some <==> proxy_column(CITY_POSITION, h.db_type as int) != 0)
            &&& (v.isp is Some <==> proxy_column(ISP_POSITION, h.db_type as int) != 0)
            &&& (v.domain is Some <==> proxy_column(DOMAIN_POSITION, h.db_type as int) != 0)
            &&& (v.proxy_type is Some <==> proxy_column(PROXY_TYPE_POSITION, h.db_type as int) != 0)
            &&& (v.asn is Some <==> proxy_column(ASN_POSITION, h.db_type as int) != 0)
            &&& (v.as_ is Some <==> proxy_column(AS_POSITION, h.db_type as int) != 0)
            &&& (v.last_seen is Some <==> proxy_column(LAST_SEEN_POSITION, h.db_type as int) != 0)
            &&& (v.threat is Some <==> proxy_column(THREAT_POSITION, h.db_type as int) != 0)
            &&& (v.provider is Some <==> proxy_column(PROVIDER_POSITION, h.db_type as int) != 0)
            &&& (v.usage_type is Some <==> proxy_column(USAGE_TYPE_POSITION, h.db_type as int) != 0)
        },
{
}

} // verus!
