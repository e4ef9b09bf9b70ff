//! The record that a location lookup returns.
use crate::ip::IpAddress;
use std::borrow::Cow;
use vstd::prelude::*;

verus! {

/// A country: its two-letter code and its name.
#[derive(Debug, PartialEq)]
pub struct Country<'a> {
    pub short_name: Cow<'a, str>,
    pub long_name: Cow<'a, str>,
}

/// Where an address is, as far as the database's schema tells. Text fields
/// borrow from the database's bytes; `latitude` and `longitude` hold the bit
/// pattern of an IEEE-754 single-precision number.
#[derive(Debug, PartialEq)]
pub struct LocationRecord<'a> {
    pub ip: IpAddress,
    pub latitude: Option<u32>,
    pub longitude: Option<u32>,
    pub country: Option<Country<'a>>,
    pub region: Option<Cow<'a, str>>,
    pub city: Option<Cow<'a, str>>,
    pub isp: Option<Cow<'a, str>>,
    pub domain: Option<Cow<'a, str>>,
    pub zip_code: Option<Cow<'a, str>>,
    pub time_zone: Option<Cow<'a, str>>,
    pub net_speed: Option<Cow<'a, str>>,
    pub idd_code: Option<Cow<'a, str>>,
    pub area_code: Option<Cow<'a, str>>,
    pub weather_station_code: Option<Cow<'a, str>>,
    pub weather_station_name: Option<Cow<'a, str>>,
    pub mcc: Option<Cow<'a, str>>,
    pub mnc: Option<Cow<'a, str>>,
    pub mobile_brand: Option<Cow<'a, str>>,
    pub elevation: Option<Cow<'a, str>>,
    pub usage_type: Option<Cow<'a, str>>,
    pub address_type: Option<Cow<'a, str>>,
    pub category: Option<Cow<'a, str>>,
    pub district: Option<Cow<'a, str>>,
    pub asn: Option<Cow<'a, str>>,
    pub as_name: Option<Cow<'a, str>>,
}

/// A location record seen through views: texts as characters, a country as its
/// short and long name.
pub struct LocationView {
    pub ip: IpAddress,
    pub latitude: Option<u32>,
    pub longitude: Option<u32>,
    pub country: Option<(Seq<char>, Seq<char>)>,
    pub region: Option<Seq<char>>,
    pub city: Option<Seq<char>>,
    pub isp: Option<Seq<char>>,
    pub domain: Option<Seq<char>>,
    pub zip_code: Option<Seq<char>>,
    pub time_zone: Option<Seq<char>>,
    pub net_speed: Option<Seq<char>>,
    pub idd_code: Option<Seq<char>>,
    pub area_code: Option<Seq<char>>,
    pub weather_station_code: Option<Seq<char>>,
    pub weather_station_name: Option<Seq<char>>,
    pub mcc: Option<Seq<char>>,
    pub mnc: Option<Seq<char>>,
    pub mobile_brand: Option<Seq<char>>,
    pub elevation: Option<Seq<char>>,
    pub usage_type: Option<Seq<char>>,
    pub address_type: Option<Seq<char>>,
    pub category: Option<Seq<char>>,
    pub district: Option<Seq<char>>,
    pub asn: Option<Seq<char>>,
    pub as_name: Option<Seq<char>>,
}

/// The characters of an optional text.
pub open spec fn opt_text_view(t: Option<Cow<'_, str>>) -> Option<Seq<char>> {
    match t {
        Some(s) => Some(s@),
        None => None,
    }
}

/// The short and long name of an optional country.
pub open spec fn opt_country_view(c: Option<Country<'_>>) -> Option<(Seq<char>, Seq<char>)> {
    match c {
        Some(c) => Some((c.short_name@, c.long_name@)),
        None => None,
    }
}

impl<'a> View for LocationRecord<'a> {
    type V = LocationView;

    open spec fn view(&self) -> LocationView {
        LocationView {
            ip: self.ip,
            latitude: self.latitude,
            longitude: self.longitude,
            country: opt_country_view(self.country),
            region: opt_text_view(self.region),
            city: opt_text_view(self.city),
            isp: opt_text_view(self.isp),
            domain: opt_text_view(self.domain),
            zip_code: opt_text_view(self.zip_code),
            time_zone: opt_text_view(self.time_zone),
            net_speed: opt_text_view(self.net_speed),
            idd_code: opt_text_view(self.idd_code),
            area_code: opt_text_view(self.area_code),
            weather_station_code: opt_text_view(self.weather_station_code),
            weather_station_name: opt_text_view(self.weather_station_name),
            mcc: opt_text_view(self.mcc),
            mnc: opt_text_view(self.mnc),
            mobile_brand: opt_text_view(self.mobile_brand),
            elevation: opt_text_view(self.elevation),
            usage_type: opt_text_view(self.usage_type),
            address_type: opt_text_view(self.address_type),
            category: opt_text_view(self.category),
            district: opt_text_view(self.district),
            asn: opt_text_view(self.asn),
            as_name: opt_text_view(self.as_name),
        }
    }
}

/// The view of a record with no field set, for the unspecified address `::`.
pub open spec fn empty_location_view() -> LocationView {
    LocationView {
        ip: IpAddress::V6(0),
        latitude: None,
        longitude: None,
        country: None,
        region: None,
        city: None,
        isp: None,
        domain: None,
        zip_code: None,
        time_zone: None,
        net_speed: None,
        idd_code: None,
        area_code: None,
        weather_station_code: None,
        weather_station_name: None,
        mcc: None,
        mnc: None,
        mobile_brand: None,
        elevation: None,
        usage_type: None,
        address_type: None,
        category: None,
        district: None,
        asn: None,
        as_name: None,
    }
}

impl<'a> Default for LocationRecord<'a> {
    fn default() -> (r: Self)
        ensures
            r@ == empty_location_view(),
    {
        LocationRecord {
            ip: IpAddress::V6(0),
            latitude: None,
            longitude: None,
            country: None,
            region: None,
            city: None,
            isp: None,
            domain: None,
            zip_code: None,
            time_zone: None,
            net_speed: None,
            idd_code: None,
            area_code: None,
            weather_station_code: None,
            weather_station_name: None,
            mcc: None,
            mnc: None,
            mobile_brand: None,
            elevation: None,
            usage_type: None,
            address_type: None,
            category: None,
            district: None,
            asn: None,
            as_name: None,
        }
    }
}

} // verus!
