//! Column positions of each field, per schema (`db_type`): the 1-based column
//! that holds the field, or 0 where the schema lacks it.
use vstd::prelude::*;

verus! {

pub const PROXY_TYPE_POSITION: [u32; 12] = [0, 0, 2, 2, 2, 2, 2, 2, 2, 2, 2, 2];

pub const COUNTRY_POSITION: [u32; 12] = [0, 2, 3, 3, 3, 3, 3, 3, 3, 3, 3, 3];

pub const REGION_POSITION: [u32; 12] = [0, 0, 0, 4, 4, 4, 4, 4, 4, 4, 4, 4];

pub const CITY_POSITION: [u32; 12] = [0, 0, 0, 5, 5, 5, 5, 5, 5, 5, 5, 5];

pub const ISP_POSITION: [u32; 12] = [0, 0, 0, 0, 6, 6, 6, 6, 6, 6, 6, 6];

pub const DOMAIN_POSITION: [u32; 12] = [0, 0, 0, 0, 0, 7, 7, 7, 7, 7, 7, 7];

pub const USAGE_TYPE_POSITION: [u32; 12] = [0, 0, 0, 0, 0, 0, 8, 8, 8, 8, 8, 8];

pub const ASN_POSITION: [u32; 12] = [0, 0, 0, 0, 0, 0, 0, 9, 9, 9, 9, 9];

pub const AS_POSITION: [u32; 12] = [0, 0, 0, 0, 0, 0, 0, 10, 10, 10, 10, 10];

pub const LAST_SEEN_POSITION: [u32; 12] = [0, 0, 0, 0, 0, 0, 0, 0, 11, 11, 11, 11];

pub const THREAT_POSITION: [u32; 12] = [0, 0, 0, 0, 0, 0, 0, 0, 0, 12, 12, 12];

pub const PROVIDER_POSITION: [u32; 12] = [0, 0, 0, 0, 0, 0, 0, 0, 0, 0, 0, 13];

} // verus!
