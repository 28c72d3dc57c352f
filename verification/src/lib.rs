//! Swell-station data acquisition: tolerant parsing of a semi-structured
//! buoy payload into a typed record, and classification of the outcomes of
//! the single HTTP request that obtains it.

pub mod errors;
pub mod fetch;
pub mod numtext;
pub mod payload;
pub mod swell;
pub mod timestamp;
pub mod util;

pub use errors::SwellDataError;
pub use swell::SwellData;
pub use timestamp::Timestamp;
