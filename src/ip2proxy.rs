pub mod consts;
pub mod db;
pub mod record;
