//! A verified client-side core for a brokerage gRPC API: typed domain
//! entities mirroring the wire messages, unit conversions (fixed-point money
//! to decimal, protocol timestamps to calendar dates), and the classification
//! of provider error codes into a closed set of categories.

pub mod auth;
pub mod casing;
pub mod dates;
pub mod errors;
pub mod instruments;
pub mod money;
pub mod types;
pub mod users;
pub mod wire;

pub use casing::upper_snake_case_to_pascal_case;
pub use errors::ErrorType;
pub use errors::TinkoffInvestError;
pub use instruments::InstrumentRequest;

use vstd::prelude::*;

verus! {

/// The result of a call against the provider: a value, or a classified
/// transport failure.
pub type SdkResult<T> = core::result::Result<T, TinkoffInvestError>;

} // verus!
