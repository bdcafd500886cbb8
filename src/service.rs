//! The read side of the airplane service: its identity and record lookups.

use vstd::prelude::*;

use crate::schema::{Airplane, PublicKey, Schema};

verus! {

/// Numeric identifier of the airplane service.
pub const SERVICE_ID: u16 = 1;

/// Name under which the airplane service is known.
pub const SERVICE_NAME: &'static str = "airplane";

/// A lookup of one airplane by its key.
#[derive(Clone, Copy, Debug)]
pub struct AirplaneQuery {
    pub pub_key: PublicKey,
}

/// Why a lookup failed.
#[derive(Debug)]
pub enum ApiError {
    NotFound(String),
}

/// The message of a lookup of an unknown airplane.
pub open spec fn spec_not_found_message() -> Seq<char> {
    "\"Airplane not found\""@
}

/// Record lookups offered to clients.
#[derive(Clone, Copy, Debug)]
pub struct AirplaneApi;

impl AirplaneApi {
    /// The record stored under the queried key, or `NotFound`.
    pub fn get_airplane(schema: &Schema, query: AirplaneQuery) -> (r: Result<Airplane, ApiError>)
        requires
            schema.wf(),
        ensures
            match r {
                Ok(a) => schema@.contains_key(query.pub_key@) && a@ == schema@[query.pub_key@],
                Err(ApiError::NotFound(m)) => !schema@.contains_key(query.pub_key@) && m@
                    == spec_not_found_message(),
            },
    {
        match schema.airplane(&query.pub_key) {
            Some(a) => Ok(a),
            None => Err(ApiError::NotFound("\"Airplane not found\"".to_string())),
        }
    }
}

/// The airplane service as registered with its host.
#[derive(Clone, Copy, Debug)]
pub struct AirplaneService;

impl AirplaneService {
    pub fn service_id(&self) -> (r: u16)
        ensures
            r == SERVICE_ID,
    {
        SERVICE_ID
    }

    pub fn service_name(&self) -> (r: &'static str)
        ensures
            r@ == "airplane"@,
    {
        "airplane"
    }
}

} // verus!
