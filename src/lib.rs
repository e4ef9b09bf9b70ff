//! Reader for IP2Location and IP2Proxy `.BIN` databases: given the bytes of such
//! a file and an IP address, it returns the record that the file holds for it.
pub mod common;
pub mod db;
pub mod error;
pub mod header;
pub mod ip;
pub mod ip2location;
pub mod ip2proxy;
pub mod search;

pub use db::{DbInfo, Product, Record, DB};
pub use ip::IpAddress;
pub use ip2location::{db::LocationDB, record::LocationRecord};
pub use ip2proxy::{db::ProxyDB, record::ProxyRecord};
