//! Raw HTTP request intake: checks that a captured text is one complete
//! HTTP/1.x request head, the precondition for building the canonical model
//! from it.

use vstd::prelude::*;
use vstd::string::{StringExecFns, StringSliceAdditionalSpecFns};

use crate::error::Error;

verus! {

/// The outcome httparse reaches on a raw request text: the offset of the
/// body when the head parses completely, nothing when it is partial or
/// malformed. The outcome is a function of the text alone.
pub uninterp spec fn raw_request_body_offset(s: Seq<char>) -> Option<usize>;

/// Relies on `httparse::Request::parse`, with a 64-slot header table: the
/// result is deterministic in the buffer, and `Complete(n)` reports how many
/// bytes of the head were parsed, at most the buffer's length.
#[verifier::external_body]
fn parse_raw_request(r: &str) -> (res: Option<usize>)
    ensures
        res == raw_request_body_offset(r@),
        res matches Some(n) ==> n <= r.spec_bytes().len(),
{
    let mut headers = [httparse::EMPTY_HEADER; 64];
    let mut request = httparse::Request::new(&mut headers);
    match request.parse(r.as_bytes()) {
        Ok(httparse::Status::Complete(n)) => Some(n),
        Ok(httparse::Status::Partial) => None,
        Err(_) => None,
    }
}

/// Whether `r` is one complete HTTP request head followed by its body: `Ok`
/// exactly when httparse parses it to completion, an error otherwise.
pub fn parse_request(r: &str) -> (res: Result<(), Error>)
    ensures
        res is Ok <==> raw_request_body_offset(r@) is Some,
        res matches Err(e) ==> e is Custom,
{
    match parse_raw_request(r) {
        Some(_) => Ok(()),
        None => Err(Error::Custom(String::from_str("incomplete or malformed http request"))),
    }
}

} // verus!
