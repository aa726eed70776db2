pub mod config;
pub mod endpoint;

pub use config::HttpConfig;
pub use endpoint::Endpoint;
