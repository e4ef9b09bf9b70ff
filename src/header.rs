//! The 32-byte file header, and the checks that decide whether a file is opened.
use crate::common::{readable, u32_at, u8_at, Source};
use crate::error::Error;
use vstd::prelude::*;

verus! {

/// `product_code` of a location (IP2Location) file.
pub const LOCATION_PRODUCT: u8 = 1;

/// `product_code` of a proxy (IP2Proxy) file.
pub const PROXY_PRODUCT: u8 = 2;

/// Files of this year or earlier may carry `product_code` 0.
pub const LEGACY_LAST_YEAR: u8 = 20;

/// The fields of the file header, at their 1-based offsets.
#[derive(Clone, Copy, Debug, PartialEq, Eq, Structural)]
pub struct Header {
    pub db_type: u8,
    pub db_column: u8,
    pub db_year: u8,
    pub db_month: u8,
    pub db_day: u8,
    pub ipv4_db_count: u32,
    pub ipv4_db_addr: u32,
    pub ipv6_db_count: u32,
    pub ipv6_db_addr: u32,
    pub ipv4_index_base_addr: u32,
    pub ipv6_index_base_addr: u32,
    pub product_code: u8,
    pub license_code: u8,
    pub database_size: u32,
}

/// The header as the first 35 bytes of `blob` hold it.
pub open spec fn header_at(blob: Seq<u8>) -> Header {
    Header {
        db_type: u8_at(blob, 1),
        db_column: u8_at(blob, 2),
        db_year: u8_at(blob, 3),
        db_month: u8_at(blob, 4),
        db_day: u8_at(blob, 5),
        ipv4_db_count: u32_at(blob, 6),
        ipv4_db_addr: u32_at(blob, 10),
        ipv6_db_count: u32_at(blob, 14),
        ipv6_db_addr: u32_at(blob, 18),
        ipv4_index_base_addr: u32_at(blob, 22),
        ipv6_index_base_addr: u32_at(blob, 26),
        product_code: u8_at(blob, 30),
        license_code: u8_at(blob, 31),
        database_size: u32_at(blob, 32),
    }
}

/// What reading the header of `blob` gives: files under 32 bytes are not
/// databases, and the last header field ends at offset 35.
pub open spec fn header_result(blob: Seq<u8>) -> Result<Header, Error> {
    if blob.len() < 32 {
        Err(Error::UnknownDb)
    } else if !readable(blob, 32, 4) {
        Err(Error::OutOfBounds)
    } else {
        Ok(header_at(blob))
    }
}

/// Whether a family whose product code is `code` accepts the header: the code
/// matches, or the file is a legacy one (code 0) from 2020 or earlier.
pub open spec fn accepts_product(h: Header, code: u8) -> bool {
    h.product_code == code || (h.product_code == 0 && h.db_year <= LEGACY_LAST_YEAR)
}

/// Bytes per IPv4 row.
pub open spec fn ipv4_row_width(h: Header) -> int {
    h.db_column * 4
}

/// Bytes per IPv6 row: the 16-byte address counts as four columns.
pub open spec fn ipv6_row_width(h: Header) -> int {
    h.db_column * 4 + 12
}

/// Whether the row tables that the header claims fit in a blob of `len` bytes.
pub open spec fn tables_fit(h: Header, len: int) -> bool {
    &&& h.ipv4_db_count >= 1 ==> h.ipv4_db_addr + h.ipv4_db_count * ipv4_row_width(h) <= len
    &&& h.ipv6_db_count >= 1 ==> h.ipv6_db_addr + h.ipv6_db_count * ipv6_row_width(h) <= len
}

/// What opening `blob` as the family with product code `code` and schemas
/// `1..=max_type` gives.
pub open spec fn open_result(blob: Seq<u8>, code: u8, max_type: u8) -> Result<Header, Error> {
    match header_result(blob) {
        Err(e) => Err(e),
        Ok(h) => if !accepts_product(h, code) {
            Err(Error::InvalidBinDatabase(h.db_year, h.product_code))
        } else if !(1 <= h.db_type <= max_type && h.db_column >= 1) {
            Err(Error::UnknownDb)
        } else if !tables_fit(h, blob.len() as int) {
            Err(Error::OutOfBounds)
        } else {
            Ok(h)
        },
    }
}

/// Reads the header fields.
pub fn read_header(src: &Source) -> (r: Result<Header, Error>)
    ensures
        r == header_result(src@),
{
    if src.len() < 32 {
        return Err(Error::UnknownDb);
    }
    let db_type = src.read_u8(1)?;
    let db_column = src.read_u8(2)?;
    let db_year = src.read_u8(3)?;
    let db_month = src.read_u8(4)?;
    let db_day = src.read_u8(5)?;
    let ipv4_db_count = src.read_u32(6)?;
    let ipv4_db_addr = src.read_u32(10)?;
    let ipv6_db_count = src.read_u32(14)?;
    let ipv6_db_addr = src.read_u32(18)?;
    let ipv4_index_base_addr = src.read_u32(22)?;
    let ipv6_index_base_addr = src.read_u32(26)?;
    let product_code = src.read_u8(30)?;
    let license_code = src.read_u8(31)?;
    let database_size = src.read_u32(32)?;
    Ok(
        Header {
            db_type,
            db_column,
            db_year,
            db_month,
            db_day,
            ipv4_db_count,
            ipv4_db_addr,
            ipv6_db_count,
            ipv6_db_addr,
            ipv4_index_base_addr,
            ipv6_index_base_addr,
            product_code,
            license_code,
            database_size,
        },
    )
}

/// Reads the header and checks it for the family with product code `code`
/// and schemas `1..=max_type`.
pub fn open_header(src: &Source, code: u8, max_type: u8) -> (r: Result<Header, Error>)
    ensures
        r == open_result(src@, code, max_type),
{
    let h = read_header(src)?;
    if !(h.product_code == code || (h.product_code == 0 && h.db_year <= LEGACY_LAST_YEAR)) {
        return Err(Error::InvalidBinDatabase(h.db_year, h.product_code));
    }
    if !(1 <= h.db_type && h.db_type <= max_type && h.db_column >= 1) {
        return Err(Error::UnknownDb);
    }
    let len = src.len() as u64;
    let w4 = h.db_column as u64 * 4;
    let w6 = h.db_column as u64 * 4 + 12;
    assert(h.ipv4_db_count * w4 <= 0xffff_ffff * 1032) by (nonlinear_arith)
        requires
            w4 <= 1032,
    ;
    assert(h.ipv6_db_count * w6 <= 0xffff_ffff * 1032) by (nonlinear_arith)
        requires
            w6 <= 1032,
    ;
    if h.ipv4_db_count >= 1 && h.ipv4_db_addr as u64 + h.ipv4_db_count as u64 * w4 > len {
        return Err(Error::OutOfBounds);
    }
    if h.ipv6_db_count >= 1 && h.ipv6_db_addr as u64 + h.ipv6_db_count as u64 * w6 > len {
        return Err(Error::OutOfBounds);
    }
    Ok(h)
}

} // verus!
