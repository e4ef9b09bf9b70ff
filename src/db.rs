//! One handle for both families: the file's header decides which one it is.
use crate::common::{readable, u32_at, Source};
use crate::error::Error;
use crate::header::{
    header_at, header_result, open_result, read_header, tables_fit, Header, LOCATION_PRODUCT,
    PROXY_PRODUCT,
};
use crate::ip::{
    embedded_ipv4, embeds_ipv4, lemma_embedded_ipv4_searched_as_ipv4, search_key, IpAddress,
};
use crate::ip2location::db::{location_at, LocationDB, LOCATION_MAX_TYPE};
use crate::ip2location::record::{LocationRecord, LocationView};
use crate::ip2proxy::db::{proxy_at, ProxyDB, PROXY_MAX_TYPE};
use crate::ip2proxy::record::{ProxyRecord, ProxyView};
use crate::search::{
    covers, find_row, index_base, index_entry, ipv4_target, keys_readable,
    keys_sorted, key_prefix, lemma_covering_row_unique, lemma_find_row_in_table, lemma_search_finds_covering_row, lemma_search_hit_covers,
    locate, payload_offset, row_key, search_window, table_count, target_of, Family,
};
use vstd::prelude::*;

verus! {

/// The two kinds of database file.
#[derive(Clone, Copy, Debug, PartialEq, Eq, Structural)]
pub enum Product {
    Location,
    Proxy,
}

/// An open database of either family.
pub enum DB<'a> {
    LocationDb(LocationDB<'a>),
    ProxyDb(ProxyDB<'a>),
}

/// A record of either family.
#[derive(Debug, PartialEq)]
pub enum Record<'a> {
    LocationDb(LocationRecord<'a>),
    ProxyDb(ProxyRecord<'a>),
}

/// A record of either family, seen through views.
pub enum RecordView {
    LocationDb(LocationView),
    ProxyDb(ProxyView),
}

/// What describes an open database: its family, schema and date.
#[derive(Clone, Copy, Debug, PartialEq, Eq, Structural)]
pub struct DbInfo {
    pub product: Product,
    pub db_type: u8,
    pub db_column: u8,
    pub db_year: u8,
    pub db_month: u8,
    pub db_day: u8,
}

impl<'a> View for Record<'a> {
    type V = RecordView;

    open spec fn view(&self) -> RecordView {
        match self {
            Record::LocationDb(r) => RecordView::LocationDb(r@),
            Record::ProxyDb(r) => RecordView::ProxyDb(r@),
        }
    }
}

/// A lookup result seen through views.
pub open spec fn record_result_view(r: Result<Record<'_>, Error>) -> Result<RecordView, Error> {
    match r {
        Ok(rec) => Ok(rec@),
        Err(e) => Err(e),
    }
}

/// The product code and the schema range of a family.
pub open spec fn product_code(p: Product) -> u8 {
    match p {
        Product::Location => LOCATION_PRODUCT,
        Product::Proxy => PROXY_PRODUCT,
    }
}

pub open spec fn max_type(p: Product) -> u8 {
    match p {
        Product::Location => LOCATION_MAX_TYPE,
        Product::Proxy => PROXY_MAX_TYPE,
    }
}

/// What opening `blob` as the family `p` gives.
pub open spec fn open_as(blob: Seq<u8>, p: Product) -> Result<(Product, Header), Error> {
    match open_result(blob, product_code(p), max_type(p)) {
        Ok(h) => Ok((p, h)),
        Err(e) => Err(e),
    }
}

/// What opening `blob` gives: product code 1 is a location file, 2 a proxy
/// file; a legacy file (code 0) is a location file if it passes as one, else a
/// proxy file if it passes as one; anything else is unknown.
pub open spec fn open_db(blob: Seq<u8>) -> Result<(Product, Header), Error> {
    match header_result(blob) {
        Err(e) => Err(e),
        Ok(h) => if h.product_code == LOCATION_PRODUCT {
            open_as(blob, Product::Location)
        } else if h.product_code == PROXY_PRODUCT {
            open_as(blob, Product::Proxy)
        } else if h.product_code == 0 {
            match open_as(blob, Product::Location) {
                Ok(r) => Ok(r),
                Err(_) => match open_as(blob, Product::Proxy) {
                    Ok(r) => Ok(r),
                    Err(_) => Err(Error::UnknownDb),
                },
            }
        } else {
            Err(Error::UnknownDb)
        },
    }
}

/// The record that the row whose column 1 starts at `row` holds, for `ip`.
pub open spec fn record_at(p: Product, blob: Seq<u8>, h: Header, row: int, ip: IpAddress) -> Option<
    RecordView,
> {
    match p {
        Product::Location => match location_at(blob, h.db_type as int, row, ip) {
            Some(v) => Some(RecordView::LocationDb(v)),
            None => None,
        },
        Product::Proxy => match proxy_at(blob, h.db_type as int, row, ip) {
            Some(v) => Some(RecordView::ProxyDb(v)),
            None => None,
        },
    }
}

/// The record that row `i` of table `fam` holds, for `ip`.
pub open spec fn row_record(
    p: Product,
    blob: Seq<u8>,
    h: Header,
    fam: Family,
    i: int,
    ip: IpAddress,
) -> Option<RecordView> {
    record_at(p, blob, h, payload_offset(h, fam, i), ip)
}

/// What a lookup of `ip` in a file of family `p` returns.
pub open spec fn lookup_in(p: Product, blob: Seq<u8>, h: Header, ip: IpAddress) -> Result<
    RecordView,
    Error,
> {
    match locate(blob, h, search_key(ip)) {
        Err(e) => Err(e),
        Ok((fam, i)) => match row_record(p, blob, h, fam, i, ip) {
            Some(v) => Ok(v),
            None => Err(Error::OutOfBounds),
        },
    }
}

impl<'a> DB<'a> {
    /// The family of the file.
    pub open spec fn product(&self) -> Product {
        match self {
            DB::LocationDb(_) => Product::Location,
            DB::ProxyDb(_) => Product::Proxy,
        }
    }

    /// The bytes of the file.
    pub open spec fn blob(&self) -> Seq<u8> {
        match self {
            DB::LocationDb(db) => db.blob(),
            DB::ProxyDb(db) => db.blob(),
        }
    }

    /// The header of the file.
    pub open spec fn header(&self) -> Header {
        match self {
            DB::LocationDb(db) => db.header(),
            DB::ProxyDb(db) => db.header(),
        }
    }

    /// Opens the database held in `bytes`, as whichever family its header names.
    pub fn from_bytes(bytes: &'a [u8]) -> (r: Result<Self, Error>)
        ensures
            match r {
                Ok(db) => open_db(bytes@) == Ok::<(Product, Header), Error>(
                    (db.product(), db.header()),
                ) && db.blob() == bytes@,
                Err(e) => open_db(bytes@) == Err::<(Product, Header), Error>(e),
            },
    {
        let source = Source::new(bytes);
        let h = read_header(&source)?;
        if h.product_code == LOCATION_PRODUCT {
            Ok(DB::LocationDb(LocationDB::from_bytes(bytes)?))
        } else if h.product_code == PROXY_PRODUCT {
            Ok(DB::ProxyDb(ProxyDB::from_bytes(bytes)?))
        } else if h.product_code == 0 {
            match LocationDB::from_bytes(bytes) {
                Ok(db) => Ok(DB::LocationDb(db)),
                Err(_) => match ProxyDB::from_bytes(bytes) {
                    Ok(db) => Ok(DB::ProxyDb(db)),
                    Err(_) => Err(Error::UnknownDb),
                },
            }
        } else {
            Err(Error::UnknownDb)
        }
    }

    /// The family, schema and date of the file.
    pub fn info(&self) -> (r: DbInfo)
        ensures
            r.product == self.product(),
            r.db_type == self.header().db_type,
            r.db_column == self.header().db_column,
            r.db_year == self.header().db_year,
            r.db_month == self.header().db_month,
            r.db_day == self.header().db_day,
    {
        let (product, h) = match self {
            DB::LocationDb(db) => (Product::Location, db.header_fields()),
            DB::ProxyDb(db) => (Product::Proxy, db.header_fields()),
        };
        DbInfo {
            product,
            db_type: h.db_type,
            db_column: h.db_column,
            db_year: h.db_year,
            db_month: h.db_month,
            db_day: h.db_day,
        }
    }

    /// Looks up the address `ip` in whichever family the file is.
    pub fn ip_lookup(&self, ip: IpAddress) -> (r: Result<Record<'a>, Error>)
        ensures
            record_result_view(r) == lookup_in(self.product(), self.blob(), self.header(), ip),
    {
        match self {
            DB::LocationDb(db) => Ok(Record::LocationDb(db.ip_lookup(ip)?)),
            DB::ProxyDb(db) => Ok(Record::ProxyDb(db.ip_lookup(ip)?)),
        }
    }
}

/// A lookup result with its record's `ip` field set to `ip`.
pub open spec fn relabel(r: Result<RecordView, Error>, ip: IpAddress) -> Result<RecordView, Error> {
    match r {
        Ok(RecordView::LocationDb(v)) => Ok(RecordView::LocationDb(LocationView { ip, ..v })),
        Ok(RecordView::ProxyDb(v)) => Ok(RecordView::ProxyDb(ProxyView { ip, ..v })),
        Err(e) => Err(e),
    }
}

/// The address a record was looked up for.
pub open spec fn record_ip(v: RecordView) -> IpAddress {
    match v {
        RecordView::LocationDb(v) => v.ip,
        RecordView::ProxyDb(v) => v.ip,
    }
}

/// A lookup of an IPv4-mapped, 6to4 or Teredo address gives what a lookup of the
/// IPv4 address it carries gives, but for the `ip` field.
pub proof fn lemma_embedded_ipv4_lookup(p: Product, blob: Seq<u8>, h: Header, w: u128)
    requires
        embeds_ipv4(w),
    ensures
        lookup_in(p, blob, h, IpAddress::V6(w)) == relabel(
            lookup_in(p, blob, h, IpAddress::V4(embedded_ipv4(w))),
            IpAddress::V6(w),
        ),
{
    lemma_embedded_ipv4_searched_as_ipv4(w);
}

/// A record that a lookup returns carries the address it was looked up for.
pub proof fn lemma_record_ip_is_query(p: Product, blob: Seq<u8>, h: Header, ip: IpAddress)
    ensures
        lookup_in(p, blob, h, ip) matches Ok(v) ==> record_ip(v) == ip,
{
}

/// Opening the same bytes twice gives the same database, and the same lookup in
/// either gives the same record.
pub proof fn lemma_same_bytes_same_records(b1: Seq<u8>, b2: Seq<u8>, ip: IpAddress)
    requires
        b1 == b2,
    ensures
        open_db(b1) == open_db(b2),
        open_db(b1) matches Ok((p, h)) ==> lookup_in(p, b1, h, ip) == lookup_in(p, b2, h, ip),
{
}

/// Whether the index entry for prefix `k` of table `fam` lies inside the blob and
/// names a window that ends within the table.
pub open spec fn index_entry_in_table(blob: Seq<u8>, h: Header, fam: Family, k: int) -> bool {
    let e = index_base(h, fam) + k * 8;
    &&& readable(blob, e, 4)
    &&& readable(blob, e + 4, 4)
    &&& u32_at(blob, e + 4) <= table_count(h, fam)
}

/// Whether every read that a lookup in table `fam` makes lies inside the blob:
/// each index entry, with a window that ends within the table; the range start
/// of rows `0..=count + 1`; and every column of rows `0..=count`.
pub open spec fn table_in_bounds(p: Product, blob: Seq<u8>, h: Header, fam: Family) -> bool {
    &&& index_base(h, fam) > 0 ==> forall|k: int|
        0 <= k <= 0xffff ==> #[trigger] index_entry_in_table(blob, h, fam, k)
    &&& keys_readable(blob, h, fam, 0, table_count(h, fam) + 1)
    &&& forall|i: int, ip: IpAddress|
        0 <= i <= table_count(h, fam) ==> (#[trigger] row_record(p, blob, h, fam, i, ip)) is Some
}

/// In a file whose lookups only read inside it, a lookup of any address (`0`,
/// `255.255.255.255`, `::` and `::1` among them) returns a record or
/// `RecordNotFound`, never a bounds error.
pub proof fn lemma_in_bounds_file_lookup_finds_or_misses(
    p: Product,
    blob: Seq<u8>,
    h: Header,
    ip: IpAddress,
)
    requires
        table_in_bounds(p, blob, h, Family::V4),
        table_in_bounds(p, blob, h, Family::V6),
    ensures
        lookup_in(p, blob, h, ip) is Ok || lookup_in(p, blob, h, ip) == Err::<RecordView, Error>(
            Error::RecordNotFound,
        ),
{
    let (fam, key) = target_of(search_key(ip));
    if index_base(h, fam) > 0 {
        let k = key_prefix(fam, key);
        assert(0 <= k <= 0xffff);
        assert(index_entry_in_table(blob, h, fam, k));
    }
    lemma_find_row_in_table(blob, h, fam, key);
    if let Ok(i) = find_row(blob, h, fam, key) {
        assert(row_record(p, blob, h, fam, i, ip) is Some);
    }
}

/// In a file whose IPv4 rows `0..=count` start in non-decreasing order, whose
/// last start lies above `v`, and whose index window for `v` ends within the
/// table, a record found for `v` is that of the one row of the table whose range
/// holds `v`. (`255.255.255.255` is left out: no 32-bit range end lies above it.)
pub proof fn lemma_ipv4_record_from_unique_row(p: Product, blob: Seq<u8>, h: Header, v: u32)
    requires
        v < u32::MAX,
        keys_sorted(blob, h, Family::V4, 0, table_count(h, Family::V4)),
        v < row_key(blob, h, Family::V4, table_count(h, Family::V4)),
        index_base(h, Family::V4) > 0 ==> index_entry_in_table(blob, h, Family::V4, v as int / 0x1_0000),
        lookup_in(p, blob, h, IpAddress::V4(v)) is Ok,
    ensures
        exists|i: int|
            0 <= i < table_count(h, Family::V4) && covers(blob, h, Family::V4, i, v as int)
                && lookup_in(p, blob, h, IpAddress::V4(v)) == Ok::<RecordView, Error>(
                row_record(p, blob, h, Family::V4, i, IpAddress::V4(v))->0,
            ) && forall|j: int|
                0 <= j < table_count(h, Family::V4) && #[trigger] covers(
                    blob,
                    h,
                    Family::V4,
                    j,
                    v as int,
                ) ==> j == i,
{
    let fam = Family::V4;
    let key = v as int;
    let count = table_count(h, fam);
    assert(ipv4_target(v) == v);
    let (lo, hi) = if index_base(h, fam) > 0 {
        assert(index_entry_in_table(blob, h, fam, key / 0x1_0000));
        (u32_at(blob, index_entry(h, fam, key)) as int, u32_at(blob, index_entry(h, fam, key) + 4) as int)
    } else {
        (0, count)
    };
    assert(search_window(blob, h, fam, key) == Ok::<(int, int), Error>((lo, hi)));
    lemma_search_hit_covers(blob, h, fam, key, lo, hi);
    let i = find_row(blob, h, fam, key)->Ok_0;
    assert(i < count);
    assert forall|j: int| 0 <= j < count && #[trigger] covers(blob, h, fam, j, key) implies j == i by {
        lemma_covering_row_unique(blob, h, fam, key, 0, count, i, j);
    }
}

/// A file shorter than its 35-byte header, or one whose claimed row tables run
/// past its end, is refused as unknown or out of bounds.
pub proof fn lemma_truncated_file_refused(blob: Seq<u8>)
    requires
        blob.len() < 35 || !tables_fit(header_at(blob), blob.len() as int),
    ensures
        open_db(blob) == Err::<(Product, Header), Error>(Error::UnknownDb) || open_db(blob) == Err::<
            (Product, Header),
            Error,
        >(Error::OutOfBounds),
{
}

/// A file whose header bytes are all `0xFF` is refused as unknown: no family
/// has product code 255.
pub proof fn lemma_all_ones_header_refused(blob: Seq<u8>)
    requires
        blob.len() >= 35,
        forall|k: int| 0 <= k < 32 ==> blob[k] == 0xff,
    ensures
        open_db(blob) == Err::<(Product, Header), Error>(Error::UnknownDb),
{
    assert(blob[29] == 0xff);
}

/// In a file whose table has rows, whose rows `lo..=hi + 1` start inside the
/// blob in non-decreasing order, and whose covering row is readable, an address
/// that a row of its window covers is found: the lookup returns that row's
/// record.
pub proof fn lemma_covered_address_found(
    p: Product,
    blob: Seq<u8>,
    h: Header,
    ip: IpAddress,
    lo: int,
    hi: int,
    j: int,
)
    requires
        search_window(blob, h, target_of(search_key(ip)).0, target_of(search_key(ip)).1) == Ok::<
            (int, int),
            Error,
        >((lo, hi)),
        keys_readable(blob, h, target_of(search_key(ip)).0, lo, hi + 1),
        keys_sorted(blob, h, target_of(search_key(ip)).0, lo, hi + 1),
        lo <= j <= hi,
        covers(blob, h, target_of(search_key(ip)).0, j, target_of(search_key(ip)).1),
        row_record(p, blob, h, target_of(search_key(ip)).0, j, ip) is Some,
        table_count(h, target_of(search_key(ip)).0) > 0,
    ensures
        lookup_in(p, blob, h, ip) == Ok::<RecordView, Error>(
            row_record(p, blob, h, target_of(search_key(ip)).0, j, ip)->0,
        ),
{
    let (fam, key) = target_of(search_key(ip));
    lemma_search_finds_covering_row(blob, h, fam, key, lo, hi, j);
}

} // verus!
