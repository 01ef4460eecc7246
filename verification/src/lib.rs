/// The geometry transcoder: well-known text into the map-renderable
/// interchange form.
pub mod geometry;
/// The county-adjacency table and its JSON form.
pub mod neighbors;
/// The request pipeline: address to county, county set, fan-out, response.
pub mod pipeline;
/// The region store client: records, pagination and the fan-out aggregate.
pub mod store;

use vstd::prelude::*;

verus! {

/// The form body of the geocoding endpoint: a single free-text address.
pub struct MyForm {
    pub address: String,
}

/// Request-level failure taxonomy: a missing resource versus a failing
/// collaborator.
#[derive(Clone, Copy, PartialEq, Eq, Structural, Debug)]
pub enum ApiError {
    NotFound,
    UpstreamFailure,
}

impl ApiError {
    /// The HTTP status code a request that failed this way is answered with.
    pub fn status_code(&self) -> (r: u16)
        ensures
            r == (if self is NotFound {
                404u16
            } else {
                500u16
            }),
    {
        match self {
            ApiError::NotFound => 404,
            ApiError::UpstreamFailure => 500,
        }
    }
}

} // verus!
