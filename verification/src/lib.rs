//! Client-side logic for a custodial Lightning wallet service: the data
//! model of each endpoint's payload, the decoding of response bodies, the
//! encoding of request bodies and query strings, and the decoding of BOLT11
//! payment-request strings. Transport (HTTP) is a collaborator the caller
//! supplies; everything here is a pure function from values to values.

pub mod amount;
pub mod bolt11;
pub mod decode;
pub mod encode;
pub mod errors;
pub mod hex;
pub mod json;
pub mod types;
