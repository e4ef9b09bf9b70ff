use ip2location::error::Error;
use ip2location::ip2proxy::record::Proxy;
use ip2location::{IpAddress, LocationDB, Product, ProxyDB, Record, DB};
use std::borrow::Cow;

/// One row: the range start, then the text of columns 2 and on. A column
/// `"XX|Name"` is a country (short name, then long name three bytes on); a column
/// `"f:1.5"` is a float stored in the row itself.
type Row4<'s> = (u32, Vec<&'s str>);
type Row6<'s> = (u128, Vec<&'s str>);

struct Spec<'s> {
    product: u8,
    year: u8,
    db_type: u8,
    db_column: u8,
    v4: Vec<Row4<'s>>,
    v6: Vec<Row6<'s>>,
    index: bool,
}

fn put_u32(b: &mut [u8], at: usize, v: u32) {
    b[at..at + 4].copy_from_slice(&v.to_le_bytes());
}

/// Writes `text` into the string pool and returns its pointer: the 0-based index
/// of its length byte, which a reader finds at 1-based offset `pointer + 1`.
fn add_string(pool: &mut Vec<u8>, pool_start: usize, text: &str) -> u32 {
    let at = pool_start + pool.len();
    if let Some((short, long)) = text.split_once('|') {
        pool.push(short.len() as u8);
        pool.extend_from_slice(short.as_bytes());
        while pool.len() < at - pool_start + 3 {
            pool.push(0);
        }
        pool.push(long.len() as u8);
        pool.extend_from_slice(long.as_bytes());
    } else {
        pool.push(text.len() as u8);
        pool.extend_from_slice(text.as_bytes());
    }
    at as u32
}

fn column_value(pool: &mut Vec<u8>, pool_start: usize, text: &str) -> u32 {
    match text.strip_prefix("f:") {
        Some(f) => f.parse::<f32>().unwrap().to_bits(),
        None => add_string(pool, pool_start, text),
    }
}

/// The window of rows whose range may hold an address of prefix `k`.
fn window(starts: &[u128], shift: u32, k: u128) -> (u32, u32) {
    let lo_key = k << shift;
    let hi_key = lo_key | ((1u128 << shift) - 1);
    let last_at_or_below = |key: u128| starts.iter().rposition(|&s| s <= key).unwrap_or(0) as u32;
    (last_at_or_below(lo_key), last_at_or_below(hi_key))
}

fn build(spec: &Spec) -> Vec<u8> {
    let col = spec.db_column as usize;
    let w4 = col * 4;
    let w6 = col * 4 + 12;
    let v4_base = 64;
    let v4_len = (spec.v4.len() + 2) * w4;
    let v6_base = v4_base + v4_len;
    let v6_len = if spec.v6.is_empty() { 0 } else { (spec.v6.len() + 2) * w6 };
    let idx4 = v6_base + v6_len;
    let idx_len = if spec.index { 65536 * 8 } else { 0 };
    let idx6 = idx4 + idx_len;
    let pool_start = idx6 + if spec.v6.is_empty() { 0 } else { idx_len };
    let mut b = vec![0u8; pool_start];
    let mut pool = Vec::new();

    b[0] = spec.db_type;
    b[1] = spec.db_column;
    b[2] = spec.year;
    b[3] = 6;
    b[4] = 1;
    put_u32(&mut b, 5, spec.v4.len() as u32);
    put_u32(&mut b, 9, v4_base as u32 + 1);
    put_u32(&mut b, 13, spec.v6.len() as u32);
    put_u32(&mut b, 17, if spec.v6.is_empty() { 0 } else { v6_base as u32 + 1 });
    put_u32(&mut b, 21, if spec.index { idx4 as u32 + 1 } else { 0 });
    let has_idx6 = spec.index && !spec.v6.is_empty();
    put_u32(&mut b, 25, if has_idx6 { idx6 as u32 + 1 } else { 0 });
    b[29] = spec.product;
    b[30] = 1;

    for (i, (start, cols)) in spec.v4.iter().enumerate() {
        let at = v4_base + i * w4;
        put_u32(&mut b, at, *start);
        for (c, text) in cols.iter().enumerate() {
            let v = column_value(&mut pool, pool_start, text);
            put_u32(&mut b, at + 4 * (c + 1), v);
        }
    }
    for extra in 0..2 {
        put_u32(&mut b, v4_base + (spec.v4.len() + extra) * w4, u32::MAX);
    }
    for (i, (start, cols)) in spec.v6.iter().enumerate() {
        let at = v6_base + i * w6;
        b[at..at + 16].copy_from_slice(&start.to_le_bytes());
        for (c, text) in cols.iter().enumerate() {
            let v = column_value(&mut pool, pool_start, text);
            put_u32(&mut b, at + 16 + 4 * c, v);
        }
    }
    if !spec.v6.is_empty() {
        for extra in 0..2 {
            let at = v6_base + (spec.v6.len() + extra) * w6;
            b[at..at + 16].copy_from_slice(&u128::MAX.to_le_bytes());
        }
    }
    if spec.index {
        let starts4: Vec<u128> = spec.v4.iter().map(|r| r.0 as u128).collect();
        for k in 0..65536u128 {
            let (lo, hi) = window(&starts4, 16, k);
            put_u32(&mut b, idx4 + (k as usize) * 8, lo);
            put_u32(&mut b, idx4 + (k as usize) * 8 + 4, hi);
        }
        if has_idx6 {
            let starts6: Vec<u128> = spec.v6.iter().map(|r| r.0).collect();
            for k in 0..65536u128 {
                let (lo, hi) = window(&starts6, 112, k);
                put_u32(&mut b, idx6 + (k as usize) * 8, lo);
                put_u32(&mut b, idx6 + (k as usize) * 8 + 4, hi);
            }
        }
    }
    b.extend_from_slice(&pool);
    b
}

fn v4(a: u8, b: u8, c: u8, d: u8) -> IpAddress {
    IpAddress::V4(u32::from_be_bytes([a, b, c, d]))
}

fn ipv4_rows() -> Vec<Row4<'static>> {
    vec![
        (0, vec!["-|-"]),
        (u32::from_be_bytes([1, 0, 0, 0]), vec!["AU|Australia"]),
        (u32::from_be_bytes([1, 0, 1, 0]), vec!["CN|China"]),
        (u32::from_be_bytes([43, 224, 156, 0]), vec!["IN|India"]),
        (u32::from_be_bytes([43, 224, 160, 0]), vec!["JP|Japan"]),
        (u32::from_be_bytes([44, 0, 0, 0]), vec!["US|United States of America"]),
    ]
}

fn ipv6_rows() -> Vec<Row6<'static>> {
    vec![
        (0, vec!["-|-"]),
        (0x2a01_b600_0000_0000_0000_0000_0000_0000, vec!["IT|Italy"]),
        (0x2a01_b700_0000_0000_0000_0000_0000_0000, vec!["-|-"]),
        (0x2a01_cb00_0000_0000_0000_0000_0000_0000, vec!["FR|France"]),
        (0x2a01_cc00_0000_0000_0000_0000_0000_0000, vec!["-|-"]),
    ]
}

fn location_db1_ipv4(index: bool) -> Vec<u8> {
    build(&Spec { product: 1, year: 24, db_type: 1, db_column: 2, v4: ipv4_rows(), v6: vec![], index })
}

fn location_db1_ipv6(index: bool) -> Vec<u8> {
    build(&Spec {
        product: 1,
        year: 24,
        db_type: 1,
        db_column: 2,
        v4: ipv4_rows(),
        v6: ipv6_rows(),
        index,
    })
}

fn proxy_country() -> Vec<u8> {
    build(&Spec {
        product: 2,
        year: 24,
        db_type: 1,
        db_column: 2,
        v4: vec![
            (0, vec!["-|-"]),
            (u32::from_be_bytes([1, 0, 0, 0]), vec!["AU|Australia"]),
            (u32::from_be_bytes([1, 1, 2, 0]), vec!["-|-"]),
        ],
        v6: vec![],
        index: false,
    })
}

fn country_of(record: &Record) -> (String, String) {
    match record {
        Record::LocationDb(r) => {
            let c = r.country.as_ref().unwrap();
            (c.short_name.to_string(), c.long_name.to_string())
        }
        Record::ProxyDb(r) => {
            let c = r.country.as_ref().unwrap();
            (c.short_name.to_string(), c.long_name.to_string())
        }
    }
}

#[test]
fn test_ipv4_lookup_in_ipv4bin() -> Result<(), Error> {
    let bytes = location_db1_ipv4(true);
    let db = DB::from_bytes(&bytes)?;
    let record = db.ip_lookup(v4(43, 224, 159, 155))?;
    let record = if let Record::LocationDb(rec) = record { Some(rec) } else { None };
    assert!(record.is_some());
    let record = record.unwrap();
    assert!(record.country.is_some());
    assert_eq!(record.country.as_ref().unwrap().short_name, "IN");
    assert_eq!(record.country.unwrap().long_name, "India");
    Ok(())
}

#[test]
fn test_ipv4_lookup_in_ipv6bin() -> Result<(), Error> {
    let bytes = location_db1_ipv6(true);
    let db = DB::from_bytes(&bytes)?;
    let record = db.ip_lookup(v4(43, 224, 159, 155))?;
    let record = if let Record::LocationDb(rec) = record { Some(rec) } else { None };
    assert!(record.is_some());
    let record = record.unwrap();
    assert!(record.country.is_some());
    assert_eq!(record.country.as_ref().unwrap().short_name, "IN");
    assert_eq!(record.country.unwrap().long_name, "India");
    Ok(())
}

#[test]
fn test_ipv6_lookup() -> Result<(), Error> {
    let bytes = location_db1_ipv6(true);
    let db = DB::from_bytes(&bytes)?;
    let record = db.ip_lookup(IpAddress::V6(0x2a01_b600_8001_0000_0000_0000_0000_0000))?;
    let record = if let Record::LocationDb(rec) = record { Some(rec) } else { None };
    assert!(record.is_some());
    let record = record.unwrap();
    assert!(record.country.is_some());
    assert_eq!(record.country.as_ref().unwrap().short_name, "IT");
    assert_eq!(record.country.unwrap().long_name, "Italy");
    Ok(())
}

#[test]
fn test_ip_lookup_in_proxy_bin() -> Result<(), Error> {
    let bytes = proxy_country();
    let db = DB::from_bytes(&bytes)?;
    let record = db.ip_lookup(v4(1, 1, 1, 1))?;
    let record = if let Record::ProxyDb(rec) = record { Some(rec) } else { None };
    assert!(record.is_some());
    let record = record.unwrap();
    assert!(record.country.is_some());
    assert_eq!(record.is_proxy, Some(Proxy::IsAProxy));
    Ok(())
}

#[test]
fn ipv6_lookup_france() {
    for index in [false, true] {
        let bytes = location_db1_ipv6(index);
        let db = DB::from_bytes(&bytes).unwrap();
        let record = db.ip_lookup(IpAddress::V6(0x2a01_cb08_8d14_0000_0000_0000_0000_0000)).unwrap();
        assert_eq!(country_of(&record), ("FR".to_string(), "France".to_string()));
    }
}

#[test]
fn lookup_without_index_matches_lookup_with_index() {
    let with = location_db1_ipv6(true);
    let without = location_db1_ipv6(false);
    let a = DB::from_bytes(&with).unwrap();
    let b = DB::from_bytes(&without).unwrap();
    for ip in [v4(0, 0, 0, 9), v4(1, 0, 0, 255), v4(1, 0, 1, 0), v4(43, 224, 159, 155), v4(200, 1, 2, 3)] {
        assert_eq!(country_of(&a.ip_lookup(ip).unwrap()), country_of(&b.ip_lookup(ip).unwrap()));
    }
    assert_eq!(country_of(&b.ip_lookup(v4(1, 0, 0, 255)).unwrap()).0, "AU");
    assert_eq!(country_of(&b.ip_lookup(v4(1, 0, 1, 0)).unwrap()).0, "CN");
}

#[test]
fn ipv4_mapped_lookup_equals_ipv4_lookup() {
    let bytes = location_db1_ipv6(true);
    let db = DB::from_bytes(&bytes).unwrap();
    let mapped = IpAddress::V6(0xffff_2be0_9f9b);
    let plain = v4(43, 224, 159, 155);
    let (Record::LocationDb(mut m), Record::LocationDb(p)) =
        (db.ip_lookup(mapped).unwrap(), db.ip_lookup(plain).unwrap())
    else {
        panic!("location records expected")
    };
    assert_eq!(m.ip, mapped);
    assert_eq!(p.ip, plain);
    m.ip = plain;
    assert_eq!(m, p);
    assert_eq!(p.country.unwrap().short_name, "IN");
}

#[test]
fn six_to_four_and_teredo_fold_onto_ipv4() {
    let bytes = location_db1_ipv6(false);
    let db = DB::from_bytes(&bytes).unwrap();
    // 2002:2be0:9f9b:: carries 43.224.159.155.
    let six_to_four = IpAddress::V6(0x2002_2be0_9f9b_0000_0000_0000_0000_0000);
    assert_eq!(country_of(&db.ip_lookup(six_to_four).unwrap()).0, "IN");
    // Teredo carries the IPv4 address inverted in its low 32 bits.
    let teredo = IpAddress::V6(0x2001_0000_0000_0000_0000_0000_0000_0000 | (!0x2be0_9f9bu32) as u128);
    assert_eq!(country_of(&db.ip_lookup(teredo).unwrap()).0, "IN");
}

#[test]
fn record_ip_is_the_query() {
    let bytes = location_db1_ipv6(true);
    let db = DB::from_bytes(&bytes).unwrap();
    for ip in [v4(43, 224, 159, 155), IpAddress::V6(0xffff_2be0_9f9b), IpAddress::V6(0x2a01_b600_8001 << 80)] {
        match db.ip_lookup(ip).unwrap() {
            Record::LocationDb(r) => assert_eq!(r.ip, ip),
            Record::ProxyDb(_) => panic!("location record expected"),
        }
    }
}

#[test]
fn db1_record_has_only_the_country() {
    let bytes = location_db1_ipv4(false);
    let db = LocationDB::from_bytes(&bytes).unwrap();
    let r = db.ip_lookup(v4(43, 224, 159, 155)).unwrap();
    assert!(r.country.is_some());
    assert!(r.region.is_none() && r.city.is_none() && r.isp.is_none());
    assert!(r.latitude.is_none() && r.longitude.is_none());
    assert!(r.zip_code.is_none() && r.time_zone.is_none() && r.as_name.is_none());
}

#[test]
fn db5_record_has_coordinates_and_names() {
    let bytes = build(&Spec {
        product: 1,
        year: 24,
        db_type: 5,
        db_column: 6,
        v4: vec![
            (0, vec!["-|-", "-", "-", "f:0", "f:0"]),
            (
                u32::from_be_bytes([8, 8, 8, 0]),
                vec!["US|United States of America", "California", "Mountain View", "f:37.405992", "f:-122.078515"],
            ),
            (u32::from_be_bytes([8, 8, 9, 0]), vec!["-|-", "-", "-", "f:0", "f:0"]),
        ],
        v6: vec![],
        index: false,
    });
    let db = LocationDB::from_bytes(&bytes).unwrap();
    let r = db.ip_lookup(v4(8, 8, 8, 8)).unwrap();
    assert_eq!(r.region.as_deref(), Some("California"));
    assert_eq!(r.city.as_deref(), Some("Mountain View"));
    assert_eq!(f32::from_bits(r.latitude.unwrap()), 37.405992f32);
    assert_eq!(f32::from_bits(r.longitude.unwrap()), -122.078515f32);
    assert!(r.isp.is_none() && r.domain.is_none());
}

#[test]
fn proxy_classification() {
    let bytes = build(&Spec {
        product: 2,
        year: 24,
        db_type: 2,
        db_column: 3,
        v4: vec![
            (0, vec!["-", "-|-"]),
            (u32::from_be_bytes([1, 0, 0, 0]), vec!["DCH", "US|United States of America"]),
            (u32::from_be_bytes([2, 0, 0, 0]), vec!["PUB", "FR|France"]),
            (u32::from_be_bytes([3, 0, 0, 0]), vec!["SES", "DE|Germany"]),
        ],
        v6: vec![],
        index: false,
    });
    let db = ProxyDB::from_bytes(&bytes).unwrap();
    let class = |ip| db.ip_lookup(ip).unwrap().is_proxy;
    assert_eq!(class(v4(0, 0, 0, 5)), Some(Proxy::IsNotAProxy));
    assert_eq!(class(v4(1, 2, 3, 4)), Some(Proxy::IsADataCenterIpAddress));
    assert_eq!(class(v4(2, 2, 3, 4)), Some(Proxy::IsAProxy));
    assert_eq!(class(v4(3, 0, 0, 1)), Some(Proxy::IsADataCenterIpAddress));
    let r = db.ip_lookup(v4(2, 2, 3, 4)).unwrap();
    assert_eq!(r.proxy_type.as_deref(), Some("PUB"));
    assert_eq!(r.country.unwrap().long_name, "France");
    assert!(r.region.is_none() && r.provider.is_none());
}

#[test]
fn default_records() {
    let l = ip2location::LocationRecord::default();
    assert_eq!(l.ip, IpAddress::V6(0));
    assert!(l.country.is_none() && l.latitude.is_none());
    let p = ip2location::ProxyRecord::default();
    assert_eq!(p.is_proxy, Some(Proxy::IsAnError));
    assert!(p.country.is_none());
}

#[test]
fn same_bytes_give_same_records() {
    let bytes = location_db1_ipv6(true);
    let copy = bytes.clone();
    let a = DB::from_bytes(&bytes).unwrap();
    let b = DB::from_bytes(&copy).unwrap();
    for ip in [v4(43, 224, 159, 155), IpAddress::V6(0x2a01_cb08_8d14 << 80), v4(1, 0, 0, 1)] {
        assert_eq!(a.ip_lookup(ip).unwrap(), b.ip_lookup(ip).unwrap());
    }
}

#[test]
fn boundary_ipv4_addresses_find_or_miss() {
    for index in [false, true] {
        let bytes = location_db1_ipv6(index);
        let db = DB::from_bytes(&bytes).unwrap();
        for ip in [IpAddress::V4(0), IpAddress::V4(u32::MAX)] {
            match db.ip_lookup(ip) {
                Ok(_) | Err(Error::RecordNotFound) => {}
                Err(e) => panic!("unexpected {:?}", e),
            }
        }
        assert_eq!(country_of(&db.ip_lookup(IpAddress::V4(u32::MAX)).unwrap()).0, "US");
    }
}

#[test]
fn boundary_ipv6_addresses_find_or_miss() {
    for index in [false, true] {
        let bytes = location_db1_ipv6(index);
        let db = DB::from_bytes(&bytes).unwrap();
        for ip in [IpAddress::V6(0), IpAddress::V6(1)] {
            match db.ip_lookup(ip) {
                Ok(_) | Err(Error::RecordNotFound) => {}
                Err(e) => panic!("unexpected {:?}", e),
            }
        }
    }
}

#[test]
fn address_below_first_range_is_not_found() {
    let bytes = build(&Spec {
        product: 1,
        year: 24,
        db_type: 1,
        db_column: 2,
        v4: vec![(u32::from_be_bytes([10, 0, 0, 0]), vec!["IN|India"])],
        v6: vec![],
        index: false,
    });
    let db = DB::from_bytes(&bytes).unwrap();
    assert_eq!(db.ip_lookup(v4(9, 0, 0, 0)).unwrap_err(), Error::RecordNotFound);
    assert_eq!(country_of(&db.ip_lookup(v4(10, 0, 0, 1)).unwrap()).0, "IN");
}

#[test]
fn truncated_files_are_refused() {
    let short = vec![1u8; 31];
    assert_eq!(DB::from_bytes(&short).err(), Some(Error::UnknownDb));
    assert_eq!(LocationDB::from_bytes(&short).err(), Some(Error::UnknownDb));
    let mut header_only = location_db1_ipv4(false);
    header_only.truncate(33);
    assert_eq!(DB::from_bytes(&header_only).err(), Some(Error::OutOfBounds));
    let mut cut = location_db1_ipv4(false);
    cut.truncate(70);
    assert_eq!(DB::from_bytes(&cut).err(), Some(Error::OutOfBounds));
    assert_eq!(ProxyDB::from_bytes(&proxy_country()[..70]).err(), Some(Error::OutOfBounds));
}

#[test]
fn all_ones_header_is_refused() {
    let mut bytes = location_db1_ipv4(false);
    for b in bytes.iter_mut().take(32) {
        *b = 0xff;
    }
    assert_eq!(DB::from_bytes(&bytes).err(), Some(Error::UnknownDb));
    assert_eq!(LocationDB::from_bytes(&bytes).err(), Some(Error::InvalidBinDatabase(255, 255)));
    assert_eq!(ProxyDB::from_bytes(&bytes).err(), Some(Error::InvalidBinDatabase(255, 255)));
}

#[test]
fn family_and_legacy_detection() {
    let proxy = proxy_country();
    assert_eq!(LocationDB::from_bytes(&proxy).err(), Some(Error::InvalidBinDatabase(24, 2)));
    let db = DB::from_bytes(&proxy).unwrap();
    assert_eq!(db.info().product, Product::Proxy);

    let legacy = build(&Spec { product: 0, year: 19, db_type: 1, db_column: 2, v4: ipv4_rows(), v6: vec![], index: false });
    let db = DB::from_bytes(&legacy).unwrap();
    let info = db.info();
    assert_eq!(info.product, Product::Location);
    assert_eq!((info.db_type, info.db_column, info.db_year, info.db_month, info.db_day), (1, 2, 19, 6, 1));

    let too_new = build(&Spec { product: 0, year: 21, db_type: 1, db_column: 2, v4: ipv4_rows(), v6: vec![], index: false });
    assert_eq!(DB::from_bytes(&too_new).err(), Some(Error::UnknownDb));
    assert_eq!(LocationDB::from_bytes(&too_new).err(), Some(Error::InvalidBinDatabase(21, 0)));

    let bad_type = build(&Spec { product: 2, year: 24, db_type: 26, db_column: 2, v4: ipv4_rows(), v6: vec![], index: false });
    assert_eq!(DB::from_bytes(&bad_type).err(), Some(Error::UnknownDb));
    let no_type = build(&Spec { product: 1, year: 24, db_type: 0, db_column: 2, v4: ipv4_rows(), v6: vec![], index: false });
    assert_eq!(DB::from_bytes(&no_type).err(), Some(Error::UnknownDb));
}

#[test]
fn proxy_schema_past_the_tables_opens_without_fields() {
    let bytes = build(&Spec { product: 2, year: 24, db_type: 12, db_column: 2, v4: ipv4_rows(), v6: vec![], index: false });
    let db = DB::from_bytes(&bytes).unwrap();
    assert_eq!(db.info().product, Product::Proxy);
    assert_eq!(db.info().db_type, 12);
    match db.ip_lookup(v4(43, 224, 159, 155)).unwrap() {
        Record::ProxyDb(r) => {
            assert!(r.country.is_none() && r.proxy_type.is_none() && r.provider.is_none());
            assert_eq!(r.is_proxy, Some(Proxy::IsAnError));
        }
        Record::LocationDb(_) => panic!("proxy record expected"),
    }
    let highest = build(&Spec { product: 2, year: 24, db_type: 25, db_column: 2, v4: ipv4_rows(), v6: vec![], index: false });
    assert!(ProxyDB::from_bytes(&highest).is_ok());
}

#[test]
fn table_without_rows_holds_no_address() {
    let bytes = location_db1_ipv4(false);
    let db = DB::from_bytes(&bytes).unwrap();
    for ip in [IpAddress::V6(0), IpAddress::V6(1), IpAddress::V6(0x2a01_b600_8001 << 80)] {
        assert_eq!(db.ip_lookup(ip).unwrap_err(), Error::RecordNotFound);
    }
    let empty = build(&Spec { product: 1, year: 24, db_type: 1, db_column: 2, v4: vec![], v6: vec![], index: false });
    let db = DB::from_bytes(&empty).unwrap();
    assert_eq!(db.ip_lookup(IpAddress::V4(0)).unwrap_err(), Error::RecordNotFound);
}

#[test]
fn text_columns_borrow_valid_utf8_and_repair_the_rest() {
    let mut bytes = build(&Spec {
        product: 1,
        year: 24,
        db_type: 3,
        db_column: 4,
        v4: vec![(0, vec!["-|-", "Zürich", "Bad"])],
        v6: vec![],
        index: false,
    });
    let pos = bytes.windows(3).rposition(|w| w == b"Bad").unwrap();
    bytes[pos + 1] = 0xff;
    let db = LocationDB::from_bytes(&bytes).unwrap();
    let r = db.ip_lookup(v4(1, 2, 3, 4)).unwrap();
    let region = r.region.unwrap();
    assert!(matches!(region, Cow::Borrowed(_)));
    assert_eq!(region, "Zürich");
    let city = r.city.unwrap();
    assert!(matches!(city, Cow::Owned(_)));
    assert_eq!(city, "B\u{fffd}d");
}

#[test]
fn corrupt_string_pointer_is_a_bounds_error() {
    let mut bytes = location_db1_ipv4(false);
    // Row 3 (43.224.156.0) holds its country pointer at 0-based 64 + 3 * 8 + 4.
    let at = 64 + 3 * 8 + 4;
    bytes[at..at + 4].copy_from_slice(&u32::MAX.to_le_bytes());
    let db = DB::from_bytes(&bytes).unwrap();
    assert_eq!(db.ip_lookup(v4(43, 224, 159, 155)).unwrap_err(), Error::OutOfBounds);
    assert_eq!(country_of(&db.ip_lookup(v4(1, 0, 0, 1)).unwrap()).0, "AU");
}
