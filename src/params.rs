//! The identifier carried in a request path.
use crate::id::{IdError, TodoId};
use vstd::prelude::*;

verus! {

/// Why a request path gave no identifier.
#[derive(Debug, Clone, Copy, PartialEq, Eq, Structural)]
pub enum ParamError {
    /// The path has no `id` segment.
    Missing,
    /// The `id` segment is not a well-formed identifier.
    Invalid,
}

impl ParamError {
    /// The HTTP status code that reports this error: 400, a bad request.
    pub fn status_code(&self) -> (r: u16)
        ensures
            r == 400,
    {
        400
    }
}

/// An identifier taken from a request path.
#[derive(Debug, Clone, Copy, PartialEq, Eq, Structural)]
pub struct UuidParam(pub TodoId);

impl UuidParam {
    /// The identifier in the path's `id` segment, if the segment is there
    /// and well formed.
    pub fn from_segment(segment: Option<&str>) -> (r: Result<UuidParam, ParamError>)
        ensures
            match segment {
                None => r == Err::<UuidParam, ParamError>(ParamError::Missing),
                Some(s) => match TodoId::parse_spec(s@) {
                    Ok(id) => r == Ok::<UuidParam, ParamError>(UuidParam(id)),
                    Err(_) => r == Err::<UuidParam, ParamError>(ParamError::Invalid),
                },
            },
    {
        match segment {
            None => Err(ParamError::Missing),
            Some(s) => match TodoId::parse(s) {
                Ok(id) => Ok(UuidParam(id)),
                Err(IdError::Invalid) => Err(ParamError::Invalid),
            },
        }
    }
}

} // verus!
