//! Addresses as numbers, and the rule that folds IPv6 addresses with an embedded
//! IPv4 address onto the IPv4 table.
use vstd::prelude::*;

verus! {

/// An IP address in numeric form: an IPv4 address as its 32-bit value, an IPv6
/// address as its 128-bit value (first octet most significant).
#[derive(Clone, Copy, Debug, PartialEq, Eq, Structural)]
pub enum IpAddress {
    V4(u32),
    V6(u128),
}

/// The table a lookup searches, and the number it searches for.
#[derive(Clone, Copy, Debug, PartialEq, Eq, Structural)]
pub enum SearchKey {
    V4(u32),
    V6(u128),
}

/// First address of `::ffff:0:0/96` (IPv4-mapped).
pub const FROM_MAPPED: u128 = 0xffff_0000_0000;

/// Last address of `::ffff:0:0/96`.
pub const TO_MAPPED: u128 = 0xffff_ffff_ffff;

/// First address of `2002::/16` (6to4).
pub const FROM_6TO4: u128 = 0x2002_0000_0000_0000_0000_0000_0000_0000;

/// Last address of `2002::/16`.
pub const TO_6TO4: u128 = 0x2002_ffff_ffff_ffff_ffff_ffff_ffff_ffff;

/// First address of `2001:0000::/32` (Teredo).
pub const FROM_TEREDO: u128 = 0x2001_0000_0000_0000_0000_0000_0000_0000;

/// Last address of `2001:0000::/32`.
pub const TO_TEREDO: u128 = 0x2001_0000_ffff_ffff_ffff_ffff_ffff_ffff;

pub open spec fn is_ipv4_mapped(w: u128) -> bool {
    FROM_MAPPED <= w <= TO_MAPPED
}

pub open spec fn is_6to4(w: u128) -> bool {
    FROM_6TO4 <= w <= TO_6TO4
}

pub open spec fn is_teredo(w: u128) -> bool {
    FROM_TEREDO <= w <= TO_TEREDO
}

/// Whether `w` carries an IPv4 address that the lookup uses instead.
pub open spec fn embeds_ipv4(w: u128) -> bool {
    is_ipv4_mapped(w) || is_6to4(w) || is_teredo(w)
}

/// The IPv4 address that an IPv4-mapped, 6to4 or Teredo address carries.
pub open spec fn embedded_ipv4(w: u128) -> u32 {
    if is_ipv4_mapped(w) {
        (w & 0xffff_ffff) as u32
    } else if is_6to4(w) {
        ((w >> 80u128) & 0xffff_ffff) as u32
    } else {
        ((!w) & 0xffff_ffff) as u32
    }
}

/// Which table a lookup of `a` searches, and for which number.
pub open spec fn search_key(a: IpAddress) -> SearchKey {
    match a {
        IpAddress::V4(v) => SearchKey::V4(v),
        IpAddress::V6(w) => if embeds_ipv4(w) {
            SearchKey::V4(embedded_ipv4(w))
        } else {
            SearchKey::V6(w)
        },
    }
}

/// Folds an address onto the table that holds it.
pub fn canonicalize(a: IpAddress) -> (k: SearchKey)
    ensures
        k == search_key(a),
{
    match a {
        IpAddress::V4(v) => SearchKey::V4(v),
        IpAddress::V6(w) => {
            if FROM_MAPPED <= w && w <= TO_MAPPED {
                assert(w & 0xffff_ffff <= 0xffff_ffff) by (bit_vector);
                SearchKey::V4((w & 0xffff_ffff) as u32)
            } else if FROM_6TO4 <= w && w <= TO_6TO4 {
                assert((w >> 80u128) & 0xffff_ffff <= 0xffff_ffff) by (bit_vector);
                SearchKey::V4(((w >> 80u128) & 0xffff_ffff) as u32)
            } else if FROM_TEREDO <= w && w <= TO_TEREDO {
                assert((!w) & 0xffff_ffff <= 0xffff_ffff) by (bit_vector);
                SearchKey::V4(((!w) & 0xffff_ffff) as u32)
            } else {
                SearchKey::V6(w)
            }
        },
    }
}

/// An IPv4-mapped, 6to4 or Teredo address is searched for exactly as the IPv4
/// address it carries.
pub proof fn lemma_embedded_ipv4_searched_as_ipv4(w: u128)
    requires
        embeds_ipv4(w),
    ensures
        search_key(IpAddress::V6(w)) == search_key(IpAddress::V4(embedded_ipv4(w))),
{
}

} // verus!
