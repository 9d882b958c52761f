pub mod mongodb;
pub mod params;
pub mod tls;
