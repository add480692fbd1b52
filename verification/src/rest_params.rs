//! Request-side parameter shapes shared by all generated handlers.

use vstd::prelude::*;

verus! {

/// The JSON body of a create request: `{ "data": <create payload> }`.
/// The envelope carries exactly one logical payload; it exists only to
/// namespace the body under the `data` key.
pub struct ParamsForCreate<D> {
    pub data: D,
}

/// The JSON body of an update request: `{ "data": <update payload> }`.
pub struct ParamsForUpdate<D> {
    pub data: D,
}

/// The query parameters of a list request: resource-specific filter criteria
/// and resource-agnostic list options (paging, sorting), both optional and
/// both opaque to this layer, which forwards them to the controller unread.
pub struct ParamsList<F, O> {
    pub filters: Option<F>,
    pub list_options: Option<O>,
}

} // verus!
