//! A typed client for the Bing Maps Locations REST service: the requests it
//! sends, the parameters and URL they carry, and the reading of its answers.

pub mod client;
pub mod error;
pub mod locations;
pub mod params;
pub mod response;
pub mod text;

pub use crate::client::Client;
pub use crate::error::{ApiError, ConversionError, RequestError};
pub use crate::params::Params;
pub use crate::response::{ResourceSet, Response};
