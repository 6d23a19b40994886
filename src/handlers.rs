use vstd::prelude::*;
use vstd::utf8::encode_utf8;

use crate::counter::{next_count, RequestCounter};

verus! {

/// The number of bytes in the UTF-8 encoding of `s`.
pub open spec fn utf8_len(s: Seq<char>) -> nat {
    encode_utf8(s).len()
}

/// The body of a reply to the status probe.
pub struct StatusResponse {
    pub status: String,
    pub requests_handled: usize,
}

/// The body of a request to the data endpoint.
pub struct InputData {
    pub message: String,
}

/// The body of a reply from the data endpoint.
pub struct DataResponse {
    pub status: String,
    pub message: String,
    pub processed_length: usize,
}

/// Serves the status probe: takes the next value from the counter and
/// reports the value it held before this request.
pub fn index(counter: &mut RequestCounter) -> (r: StatusResponse)
    ensures
        r.status@ == "success"@,
        r.requests_handled == old(counter)@,
        final(counter)@ == next_count(old(counter)@),
{
    let count = counter.increment_and_get();
    StatusResponse { status: String::from_str("success"), requests_handled: count }
}

/// Serves the data endpoint: counts the request, then echoes the message
/// with its length in bytes. The value taken from the counter is not reported.
pub fn process_data(data: InputData, counter: &mut RequestCounter) -> (r: DataResponse)
    requires
        utf8_len(data.message@) <= usize::MAX,
    ensures
        r.status@ == "success"@,
        r.message@ == data.message@,
        r.processed_length == utf8_len(data.message@),
        final(counter)@ == next_count(old(counter)@),
{
    let _count = counter.increment_and_get();
    let processed_length = data.message.as_str().len();
    DataResponse { status: String::from_str("success"), message: data.message, processed_length }
}

} // verus!
