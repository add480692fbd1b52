//! The uniform response envelope.
//!
//! Every successful handler response is the pair of an HTTP status code and,
//! unless the status is 204, a body of the shape `{ "data": <value> }`.
//! Serialization of the body is the web framework's concern; this module only
//! fixes the shape and the status code.

use vstd::prelude::*;

verus! {

/// The `{ "data": ... }` body shape: exactly one field, `data`, holding the
/// value being returned. Consumers of the API can always look under the one
/// top-level key `data`, whatever the resource or the operation.
pub struct DataRestResult<T> {
    pub data: T,
}

impl<T> From<T> for DataRestResult<T> {
    fn from(val: T) -> Self {
        DataRestResult { data: val }
    }
}

impl<T> vstd::std_specs::convert::FromSpecImpl<T> for DataRestResult<T> {
    open spec fn obeys_from_spec() -> bool {
        true
    }

    open spec fn from_spec(val: T) -> Self {
        DataRestResult { data: val }
    }
}

/// One successful handler response: an HTTP status code and, for the statuses
/// that carry one, the enveloped body. The framework adapter turns this into
/// a wire response; nothing else is needed to serialize it.
pub struct RestResponse<B> {
    pub status: u16,
    pub body: Option<DataRestResult<B>>,
}

/// A response this module hands out: one of the three success statuses, with
/// a body exactly when the status is not 204 No Content.
pub open spec fn response_wf<B>(r: RestResponse<B>) -> bool {
    &&& r.status == 200 || r.status == 201 || r.status == 204
    &&& (r.status == 204 <==> r.body is None)
}

/// The response that `created` builds: 201 Created with `{ "data": data }`.
pub open spec fn spec_created<B>(data: B) -> RestResponse<B> {
    RestResponse { status: 201, body: Some(DataRestResult { data }) }
}

/// The response that `ok` builds: 200 OK with `{ "data": data }`.
pub open spec fn spec_ok<B>(data: B) -> RestResponse<B> {
    RestResponse { status: 200, body: Some(DataRestResult { data }) }
}

/// The response that `no_content` builds: 204 No Content, empty body.
pub open spec fn spec_no_content<B>() -> RestResponse<B> {
    RestResponse { status: 204, body: None }
}

/// Wrap a freshly created value: HTTP 201 with body `{ "data": data }`.
pub fn created<B>(data: B) -> (r: RestResponse<B>)
    ensures
        r == spec_created(data),
        response_wf(r),
{
    RestResponse { status: 201, body: Some(DataRestResult { data }) }
}

/// Wrap a fetched or updated value: HTTP 200 with body `{ "data": data }`.
pub fn ok<B>(data: B) -> (r: RestResponse<B>)
    ensures
        r == spec_ok(data),
        response_wf(r),
{
    RestResponse { status: 200, body: Some(DataRestResult { data }) }
}

/// The bodiless success used after a deletion: HTTP 204, empty body.
pub fn no_content<B>() -> (r: RestResponse<B>)
    ensures
        r == spec_no_content::<B>(),
        response_wf(r),
{
    RestResponse { status: 204, body: None }
}

} // verus!
