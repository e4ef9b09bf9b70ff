use ip2location::common::Source;
use ip2location::error::Error;
use ip2location::ip::{canonicalize, IpAddress, SearchKey};

#[test]
fn reads_are_one_based_and_little_endian() {
    let bytes = [0x11u8, 0x22, 0x33, 0x44, 0x55];
    let s = Source::new(&bytes);
    assert_eq!(s.len(), 5);
    assert_eq!(s.read_u8(1), Ok(0x11));
    assert_eq!(s.read_u8(5), Ok(0x55));
    assert_eq!(s.read_u32(1), Ok(0x4433_2211));
    assert_eq!(s.read_u32(2), Ok(0x5544_3322));
    assert_eq!(s.read_f32(2), Ok(0x5544_3322));
}

#[test]
fn reads_outside_the_blob_fail() {
    let bytes = [1u8, 2, 3, 4];
    let s = Source::new(&bytes);
    assert_eq!(s.read_u8(0), Err(Error::OutOfBounds));
    assert_eq!(s.read_u8(5), Err(Error::OutOfBounds));
    assert_eq!(s.read_u32(2), Err(Error::OutOfBounds));
    assert_eq!(s.read_u32(u64::MAX), Err(Error::OutOfBounds));
    assert_eq!(s.read_ipv6(1), Err(Error::OutOfBounds));
    assert_eq!(s.read_str(3), Err(Error::OutOfBounds));
}

#[test]
fn ipv6_is_stored_least_significant_octet_first() {
    let mut bytes = [0u8; 17];
    for (i, b) in bytes.iter_mut().enumerate().skip(1) {
        *b = i as u8;
    }
    let s = Source::new(&bytes);
    assert_eq!(s.read_ipv6(2), Ok(0x100f_0e0d_0c0b_0a09_0807_0605_0403_0201));
}

#[test]
fn strings_are_length_prefixed() {
    let bytes = [9u8, 2, b'I', b'N', 5, b'I', b'n', b'd', b'i', b'a', 0];
    let s = Source::new(&bytes);
    assert_eq!(s.read_str(1).unwrap(), "IN");
    assert_eq!(s.read_str(4).unwrap(), "India");
    assert_eq!(s.read_str(10).unwrap(), "");
    let cut = [9u8, 2, b'I'];
    assert_eq!(Source::new(&cut).read_str(1), Err(Error::OutOfBounds));
}

#[test]
fn embedded_ipv4_addresses_are_extracted() {
    assert_eq!(canonicalize(IpAddress::V4(7)), SearchKey::V4(7));
    assert_eq!(canonicalize(IpAddress::V6(0xffff_0102_0304)), SearchKey::V4(0x0102_0304));
    assert_eq!(
        canonicalize(IpAddress::V6(0x2002_0102_0304_0000_0000_0000_0000_0000)),
        SearchKey::V4(0x0102_0304)
    );
    assert_eq!(
        canonicalize(IpAddress::V6(0x2001_0000_0000_0000_0000_0000_fefd_fcfb)),
        SearchKey::V4(0x0102_0304)
    );
    assert_eq!(canonicalize(IpAddress::V6(1)), SearchKey::V6(1));
    assert_eq!(canonicalize(IpAddress::V6(0x2001_0001 << 96)), SearchKey::V6(0x2001_0001 << 96));
}
