//! What the lookup service and the catalog answer, as plain values, and the
//! addresses at which they are asked.

use crate::error::ScanError;
use crate::trusted::{parse_with_params, url_with_params};
use vstd::prelude::*;

pub mod acoustid;
pub mod musicbrainz;

verus! {

/// What a request for an address gives: the address, or
/// `CatalogRequestError` where the base is no absolute address.
pub open spec fn request_address(base: Seq<char>, params: Seq<(Seq<char>, Seq<char>)>) -> Result<
    Seq<char>,
    ScanError,
> {
    match url_with_params(base, params) {
        Some(address) => Ok(address),
        None => Err(ScanError::CatalogRequestError),
    }
}

/// The characters of an address or the error in its place.
pub open spec fn address_text(r: Result<String, ScanError>) -> Result<Seq<char>, ScanError> {
    match r {
        Ok(address) => Ok(address@),
        Err(e) => Err(e),
    }
}

/// One query parameter.
pub fn param(key: &str, value: &str) -> (r: (String, String))
    ensures
        r.deep_view() == (key@, value@),
{
    (String::from_str(key), String::from_str(value))
}

/// What becomes of a parsed address: the address itself, or
/// `CatalogRequestError` for whatever was wrong with it.
pub fn address_of(parsed: Result<String, url::ParseError>) -> (r: Result<String, ScanError>)
    ensures
        match parsed {
            Ok(address) => r == Ok::<String, ScanError>(address),
            Err(_) => r == Err::<String, ScanError>(ScanError::CatalogRequestError),
        },
{
    match parsed {
        Ok(address) => Ok(address),
        Err(_) => Err(ScanError::CatalogRequestError),
    }
}

/// The address of a request: `base` with the parameters `params` as its
/// query.
pub fn address(base: &str, params: &Vec<(String, String)>) -> (r: Result<String, ScanError>)
    ensures
        address_text(r) == request_address(base@, params.deep_view()),
{
    address_of(parse_with_params(base, params))
}

} // verus!
