//! Lookups in a location (IP2Location) database.
use crate::common::{country_column, float_column, text_column, Source, ROW_OFFSET_LIMIT};
use crate::error::Error;
use crate::header::{open_header, open_result, Header, LOCATION_PRODUCT};
use crate::ip2location::consts::{
    ADDRESSTYPE_POSITION, AREACODE_POSITION, ASN_POSITION, AS_POSITION, CATEGORY_POSITION, CITY_POSITION, COUNTRY_POSITION, DISTRICT_POSITION, DOMAIN_POSITION, ELEVATION_POSITION, IDDCODE_POSITION, ISP_POSITION, LATITUDE_POSITION, LONGITUDE_POSITION, MCC_POSITION, MNC_POSITION, MOBILEBRAND_POSITION, NETSPEED_POSITION, REGION_POSITION, TIMEZONE_POSITION, USAGETYPE_POSITION, WEATHERSTATIONCODE_POSITION, WEATHERSTATIONNAME_POSITION, ZIPCODE_POSITION,
};
use crate::ip2location::record::{Country, LocationRecord, LocationView};
use crate::ip::{canonicalize, search_key, IpAddress};
use crate::search::{locate, payload_offset, row_payload_offset, search_key_target};
use vstd::prelude::*;

verus! {

/// The largest `db_type` of a location file.
pub const LOCATION_MAX_TYPE: u8 = 25;

/// The record that the row whose column 1 starts at `row` holds, in a file of
/// schema `t`, for the address `ip`; `None` where a column escapes the blob.
pub open spec fn location_at(blob: Seq<u8>, t: int, row: int, ip: IpAddress) -> Option<LocationView> {
    let latitude = float_column(blob, row, LATITUDE_POSITION@[t]);
    let longitude = float_column(blob, row, LONGITUDE_POSITION@[t]);
    let country = country_column(blob, row, COUNTRY_POSITION@[t]);
    let region = text_column(blob, row, REGION_POSITION@[t]);
    let city = text_column(blob, row, CITY_POSITION@[t]);
    let isp = text_column(blob, row, ISP_POSITION@[t]);
    let domain = text_column(blob, row, DOMAIN_POSITION@[t]);
    let zip_code = text_column(blob, row, ZIPCODE_POSITION@[t]);
    let time_zone = text_column(blob, row, TIMEZONE_POSITION@[t]);
    let net_speed = text_column(blob, row, NETSPEED_POSITION@[t]);
    let idd_code = text_column(blob, row, IDDCODE_POSITION@[t]);
    let area_code = text_column(blob, row, AREACODE_POSITION@[t]);
    let weather_station_code = text_column(blob, row, WEATHERSTATIONCODE_POSITION@[t]);
    let weather_station_name = text_column(blob, row, WEATHERSTATIONNAME_POSITION@[t]);
    let mcc = text_column(blob, row, MCC_POSITION@[t]);
    let mnc = text_column(blob, row, MNC_POSITION@[t]);
    let mobile_brand = text_column(blob, row, MOBILEBRAND_POSITION@[t]);
    let elevation = text_column(blob, row, ELEVATION_POSITION@[t]);
    let usage_type = text_column(blob, row, USAGETYPE_POSITION@[t]);
    let address_type = text_column(blob, row, ADDRESSTYPE_POSITION@[t]);
    let category = text_column(blob, row, CATEGORY_POSITION@[t]);
    let district = text_column(blob, row, DISTRICT_POSITION@[t]);
    let asn = text_column(blob, row, ASN_POSITION@[t]);
    let as_name = text_column(blob, row, AS_POSITION@[t]);
    if latitude is Some
        && longitude is Some
        && country is Some
        && region is Some
        && city is Some
        && isp is Some
        && domain is Some
        && zip_code is Some
        && time_zone is Some
        && net_speed is Some
        && idd_code is Some
        && area_code is Some
        && weather_station_code is Some
        && weather_station_name is Some
        && mcc is Some
        && mnc is Some
        && mobile_brand is Some
        && elevation is Some
        && usage_type is Some
        && address_type is Some
        && category is Some
        && district is Some
        && asn is Some
        && as_name is Some {
        Some(
            LocationView {
                ip,
                latitude: latitude->0,
                longitude: longitude->0,
                country: country->0,
                region: region->0,
                city: city->0,
                isp: isp->0,
                domain: domain->0,
                zip_code: zip_code->0,
                time_zone: time_zone->0,
                net_speed: net_speed->0,
                idd_code: idd_code->0,
                area_code: area_code->0,
                weather_station_code: weather_station_code->0,
                weather_station_name: weather_station_name->0,
                mcc: mcc->0,
                mnc: mnc->0,
                mobile_brand: mobile_brand->0,
                elevation: elevation->0,
                usage_type: usage_type->0,
                address_type: address_type->0,
                category: category->0,
                district: district->0,
                asn: asn->0,
                as_name: as_name->0,
            },
        )
    } else {
        None
    }
}

/// What a lookup of `ip` in the location file `blob`, with header `h`, returns.
pub open spec fn location_lookup(blob: Seq<u8>, h: Header, ip: IpAddress) -> Result<LocationView, Error> {
    match locate(blob, h, search_key(ip)) {
        Err(e) => Err(e),
        Ok((fam, i)) => match location_at(blob, h.db_type as int, payload_offset(h, fam, i), ip) {
            Some(v) => Ok(v),
            None => Err(Error::OutOfBounds),
        },
    }
}

/// A lookup result seen through views.
pub open spec fn location_result_view(r: Result<LocationRecord<'_>, Error>) -> Result<LocationView, Error> {
    match r {
        Ok(rec) => Ok(rec@),
        Err(e) => Err(e),
    }
}

/// An open location database: its header and the bytes of its file.
pub struct LocationDB<'a> {
    header: Header,
    source: Source<'a>,
}

impl<'a> LocationDB<'a> {
    #[verifier::type_invariant]
    spec fn inv(&self) -> bool {
        open_result(self.source@, LOCATION_PRODUCT, LOCATION_MAX_TYPE) == Ok::<Header, Error>(self.header)
    }

    /// The bytes of the file.
    pub closed spec fn blob(&self) -> Seq<u8> {
        self.source@
    }

    /// The header of the file.
    pub closed spec fn header(&self) -> Header {
        self.header
    }

    /// Opens the location database held in `bytes`.
    pub fn from_bytes(bytes: &'a [u8]) -> (r: Result<Self, Error>)
        ensures
            match r {
                Ok(db) => open_result(bytes@, LOCATION_PRODUCT, LOCATION_MAX_TYPE) == Ok::<Header, Error>(db.header()) && db.blob() == bytes@,
                Err(e) => open_result(bytes@, LOCATION_PRODUCT, LOCATION_MAX_TYPE) == Err::<Header, Error>(e),
            },
    {
        let source = Source::new(bytes);
        let header = open_header(&source, LOCATION_PRODUCT, LOCATION_MAX_TYPE)?;
        Ok(LocationDB { header, source })
    }

    /// The header fields of the file.
    pub fn header_fields(&self) -> (h: Header)
        ensures
            h == self.header(),
    {
        self.header
    }

    /// Looks up the address `ip`.
    pub fn ip_lookup(&self, ip: IpAddress) -> (r: Result<LocationRecord<'a>, Error>)
        ensures
            location_result_view(r) == location_lookup(self.blob(), self.header(), ip),
    {
        proof {
            use_type_invariant(self);
        }
        let (fam, key) = search_key_target(canonicalize(ip));
        let i = crate::search::search_table(&self.source, &self.header, fam, key)?;
        let row = row_payload_offset(&self.header, fam, i);
        self.read_record(row, ip)
    }

    /// Reads every field that the schema holds from the row whose column 1
    /// starts at `row`.
    fn read_record(&self, row: u64, ip: IpAddress) -> (r: Result<LocationRecord<'a>, Error>)
        requires
            row < ROW_OFFSET_LIMIT,
        ensures
            location_result_view(r) == (match location_at(self.blob(), self.header().db_type as int, row as int, ip) {
                Some(v) => Ok::<LocationView, Error>(v),
                None => Err(Error::OutOfBounds),
            }),
    {
        proof {
            use_type_invariant(self);
        }
        let t = self.header.db_type as usize;
        let src = &self.source;
        let mut result = LocationRecord::default();
        result.ip = ip;
        result.country = match src.read_country_column(row, COUNTRY_POSITION[t])? {
            Some((short_name, long_name)) => Some(Country { short_name, long_name }),
            None => None,
        };
        result.region = src.read_text_column(row, REGION_POSITION[t])?;
        result.latitude = src.read_float_column(row, LATITUDE_POSITION[t])?;
        result.longitude = src.read_float_column(row, LONGITUDE_POSITION[t])?;
        result.city = src.read_text_column(row, CITY_POSITION[t])?;
        result.isp = src.read_text_column(row, ISP_POSITION[t])?;
        result.domain = src.read_text_column(row, DOMAIN_POSITION[t])?;
        result.zip_code = src.read_text_column(row, ZIPCODE_POSITION[t])?;
        result.time_zone = src.read_text_column(row, TIMEZONE_POSITION[t])?;
        result.net_speed = src.read_text_column(row, NETSPEED_POSITION[t])?;
        result.idd_code = src.read_text_column(row, IDDCODE_POSITION[t])?;
        result.area_code = src.read_text_column(row, AREACODE_POSITION[t])?;
        result.weather_station_code = src.read_text_column(row, WEATHERSTATIONCODE_POSITION[t])?;
        result.weather_station_name = src.read_text_column(row, WEATHERSTATIONNAME_POSITION[t])?;
        result.mcc = src.read_text_column(row, MCC_POSITION[t])?;
        result.mnc = src.read_text_column(row, MNC_POSITION[t])?;
        result.mobile_brand = src.read_text_column(row, MOBILEBRAND_POSITION[t])?;
        result.elevation = src.read_text_column(row, ELEVATION_POSITION[t])?;
        result.usage_type = src.read_text_column(row, USAGETYPE_POSITION[t])?;
        result.address_type = src.read_text_column(row, ADDRESSTYPE_POSITION[t])?;
        result.category = src.read_text_column(row, CATEGORY_POSITION[t])?;
        result.district = src.read_text_column(row, DISTRICT_POSITION[t])?;
        result.asn = src.read_text_column(row, ASN_POSITION[t])?;
        result.as_name = src.read_text_column(row, AS_POSITION[t])?;
        Ok(result)
    }
}

/// A location record has a field exactly where the file's schema gives that field a
/// column.
pub proof fn lemma_location_fields_follow_schema(blob: Seq<u8>, h: Header, ip: IpAddress)
    ensures
        location_lookup(blob, h, ip) matches Ok(v) ==> {
            &&& (v.country is Some <==> COUNTRY_POSITION@[h.db_type as int] != 0)
            &&& (v.region is Some <==> REGION_POSITION@[h.db_type as int] != 0)
            &&& (v.latitude is Some <==> LATITUDE_POSITION@[h.db_type as int] != 0)
            &&& (v.longitude is Some <==> LONGITUDE_POSITION@[h.db_type as int] != 0)
            &&& (v.city is Some <==> CITY_POSITION@[h.db_type as int] != 0)
            &&& (v.isp is Some <==> ISP_POSITION@[h.db_type as int] != 0)
            &&& (v.domain is Some <==> DOMAIN_POSITION@[h.db_type as int] != 0)
            &&& (v.zip_code is Some <==> ZIPCODE_POSITION@[h.db_type as int] != 0)
            &&& (v.time_zone is Some <==> TIMEZONE_POSITION@[h.db_type as int] != 0)
            &&& (v.net_speed is Some <==> NETSPEED_POSITION@[h.db_type as int] != 0)
            &&& (v.idd_code is Some <==> IDDCODE_POSITION@[h.db_type as int] != 0)
            &&& (v.area_code is Some <==> AREACODE_POSITION@[h.db_type as int] != 0)
            &&& (v.weather_station_code is Some <==> WEATHERSTATIONCODE_POSITION@[h.db_type as int] != 0)
            &&& (v.weather_station_name is Some <==> WEATHERSTATIONNAME_POSITION@[h.db_type as int] != 0)
            &&& (v.mcc is Some <==> MCC_POSITION@[h.db_type as int] != 0)
            &&& (v.mnc is Some <==> MNC_POSITION@[h.db_type as int] != 0)
            &&& (v.mobile_brand is Some <==> MOBILEBRAND_POSITION@[h.db_type as int] != 0)
            &&& (v.elevation is Some <==> ELEVATION_POSITION@[h.db_type as int] != 0)
            &&& (v.usage_type is Some <==> USAGETYPE_POSITION@[h.db_type as int] != 0)
            &&& (v.address_type is Some <==> ADDRESSTYPE_POSITION@[h.db_type as int] != 0)
            &&& (v.category is Some <==> CATEGORY_POSITION@[h.db_type as int] != 0)
            &&& (v.district is Some <==> DISTRICT_POSITION@[h.db_type as int] != 0)
            &&& (v.asn is Some <==> ASN_POSITION@[h.db_type as int] != 0)
            &&& (v.as_name is Some <==> AS_POSITION@[h.db_type as int] != 0)
        },
{
}

} // verus!
