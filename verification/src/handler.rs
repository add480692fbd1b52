//! The five-handler CRUD protocol.
//!
//! One declarative description — entity type, create and update payload
//! types, filter type, identifier type — yields five handlers: create, get,
//! list, update, delete. Each handler is a single-pass pipeline: take the
//! extracted request, ask the persistence controller for one or two
//! operations, then wrap the result in the response envelope or propagate the
//! controller's error unchanged.
//!
//! The controller calls are asynchronous and belong to the host framework's
//! adapter. What is defined — and verified — here is the protocol the adapter
//! drives: [`start`] turns an extracted request into the first controller
//! call, and [`on_reply`] turns the controller's answer into either the next
//! call or the finished outcome. The `law_*` proof functions state the
//! protocol of each of the five handlers end to end.
//!
//! Create and update deliberately read after writing: the follow-up `get`
//! makes the response reflect exactly what is now stored (server-computed
//! defaults, timestamps), at the cost of one extra read per write.

use vstd::prelude::*;

use crate::rest_params::ParamsForCreate;
use crate::rest_params::ParamsForUpdate;
use crate::rest_params::ParamsList;
use crate::rest_result::RestResponse;
use crate::rest_result::created;
use crate::rest_result::no_content;
use crate::rest_result::ok;
use crate::rest_result::spec_created;
use crate::rest_result::spec_no_content;
use crate::rest_result::spec_ok;

verus! {

/// An extracted inbound request, one variant per generated handler.
/// `Id` is the path identifier, `C` the create payload, `U` the update
/// payload, `F` the filter criteria, `O` the list options.
pub enum CrudRequest<Id, C, U, F, O> {
    Create(ParamsForCreate<C>),
    Get(Id),
    List(ParamsList<F, O>),
    Update(Id, ParamsForUpdate<U>),
    Delete(Id),
}

/// One call a handler asks the persistence controller to perform.
pub enum ControllerCall<Id, C, U, F, O> {
    Create(C),
    Get(Id),
    List(Option<F>, Option<O>),
    Update(Id, U),
    Delete(Id),
}

/// The controller's answer to one call, success or error. `T` is the entity
/// type; `E` is the controller's error type, which this layer never inspects.
pub enum ControllerReply<Id, T, E> {
    Created(Result<Id, E>),
    Fetched(Result<T, E>),
    Listed(Result<Vec<T>, E>),
    Updated(Result<(), E>),
    Deleted(Result<(), E>),
}

/// The body of a successful response: one entity, or the listed sequence.
pub enum RestBody<T> {
    One(T),
    Many(Vec<T>),
}

/// Where a handler stands while a controller call is outstanding. The update
/// handler remembers the path identifier for its follow-up read; every other
/// state needs nothing beyond its name.
pub enum HandlerState<Id> {
    CreateAwaitingWrite,
    CreateAwaitingRead,
    GetAwaitingRead,
    ListAwaitingRead,
    UpdateAwaitingWrite(Id),
    UpdateAwaitingRead,
    DeleteAwaitingWrite,
}

/// What a handler does with a controller reply: issue the next call, or
/// finish with a wrapped response or the propagated error.
pub enum Step<Id, C, U, F, O, T, E> {
    Continue(HandlerState<Id>, ControllerCall<Id, C, U, F, O>),
    Done(Result<RestResponse<RestBody<T>>, E>),
}

/// The first controller call of each handler, and the state left waiting for
/// its answer: create sends the payload under the request envelope's `data`
/// key, list forwards filters and options unchanged, get, update and delete
/// use the path identifier.
pub open spec fn spec_start<Id, C, U, F, O>(req: CrudRequest<Id, C, U, F, O>) -> (
    HandlerState<Id>,
    ControllerCall<Id, C, U, F, O>,
) {
    match req {
        CrudRequest::Create(params) => (
            HandlerState::CreateAwaitingWrite,
            ControllerCall::Create(params.data),
        ),
        CrudRequest::Get(id) => (HandlerState::GetAwaitingRead, ControllerCall::Get(id)),
        CrudRequest::List(params) => (
            HandlerState::ListAwaitingRead,
            ControllerCall::List(params.filters, params.list_options),
        ),
        CrudRequest::Update(id, params) => (
            HandlerState::UpdateAwaitingWrite(id),
            ControllerCall::Update(id, params.data),
        ),
        CrudRequest::Delete(id) => (HandlerState::DeleteAwaitingWrite, ControllerCall::Delete(id)),
    }
}

/// Whether `reply` answers the controller call that a handler in `state` has
/// outstanding. The driving adapter always feeds the matching reply; the
/// protocol leaves every other pairing undefined.
pub open spec fn reply_expected<Id, T, E>(
    state: HandlerState<Id>,
    reply: ControllerReply<Id, T, E>,
) -> bool {
    match (state, reply) {
        (HandlerState::CreateAwaitingWrite, ControllerReply::Created(_)) => true,
        (HandlerState::CreateAwaitingRead, ControllerReply::Fetched(_)) => true,
        (HandlerState::GetAwaitingRead, ControllerReply::Fetched(_)) => true,
        (HandlerState::ListAwaitingRead, ControllerReply::Listed(_)) => true,
        (HandlerState::UpdateAwaitingWrite(_), ControllerReply::Updated(_)) => true,
        (HandlerState::UpdateAwaitingRead, ControllerReply::Fetched(_)) => true,
        (HandlerState::DeleteAwaitingWrite, ControllerReply::Deleted(_)) => true,
        _ => false,
    }
}

/// The error carried by a reply, if it carries one.
pub open spec fn reply_error<Id, T, E>(reply: ControllerReply<Id, T, E>) -> Option<E> {
    match reply {
        ControllerReply::Created(Err(e)) => Some(e),
        ControllerReply::Fetched(Err(e)) => Some(e),
        ControllerReply::Listed(Err(e)) => Some(e),
        ControllerReply::Updated(Err(e)) => Some(e),
        ControllerReply::Deleted(Err(e)) => Some(e),
        _ => None,
    }
}

/// The protocol's transition on one controller reply. A successful write is
/// followed by the read of the written identifier; a successful read, list or
/// delete finishes with the wrapped response; an error finishes with that
/// error, untouched. A reply that does not answer the outstanding call has no
/// transition.
pub open spec fn spec_on_reply<Id, C, U, F, O, T, E>(
    state: HandlerState<Id>,
    reply: ControllerReply<Id, T, E>,
) -> Option<Step<Id, C, U, F, O, T, E>> {
    match (state, reply) {
        (HandlerState::CreateAwaitingWrite, ControllerReply::Created(r)) => Some(
            match r {
                Ok(id) => Step::Continue(HandlerState::CreateAwaitingRead, ControllerCall::Get(id)),
                Err(e) => Step::Done(Err(e)),
            },
        ),
        (HandlerState::CreateAwaitingRead, ControllerReply::Fetched(r)) => Some(
            match r {
                Ok(entity) => Step::Done(Ok(spec_created(RestBody::One(entity)))),
                Err(e) => Step::Done(Err(e)),
            },
        ),
        (HandlerState::GetAwaitingRead, ControllerReply::Fetched(r)) => Some(
            match r {
                Ok(entity) => Step::Done(Ok(spec_ok(RestBody::One(entity)))),
                Err(e) => Step::Done(Err(e)),
            },
        ),
        (HandlerState::ListAwaitingRead, ControllerReply::Listed(r)) => Some(
            match r {
                Ok(entities) => Step::Done(Ok(spec_ok(RestBody::Many(entities)))),
                Err(e) => Step::Done(Err(e)),
            },
        ),
        (HandlerState::UpdateAwaitingWrite(id), ControllerReply::Updated(r)) => Some(
            match r {
                Ok(()) => Step::Continue(HandlerState::UpdateAwaitingRead, ControllerCall::Get(id)),
                Err(e) => Step::Done(Err(e)),
            },
        ),
        (HandlerState::UpdateAwaitingRead, ControllerReply::Fetched(r)) => Some(
            match r {
                Ok(entity) => Step::Done(Ok(spec_ok(RestBody::One(entity)))),
                Err(e) => Step::Done(Err(e)),
            },
        ),
        (HandlerState::DeleteAwaitingWrite, ControllerReply::Deleted(r)) => Some(
            match r {
                Ok(()) => Step::Done(Ok(spec_no_content())),
                Err(e) => Step::Done(Err(e)),
            },
        ),
        _ => None,
    }
}

/// Begin a handler run: the extracted request becomes the first controller
/// call and the state awaiting its answer.
pub fn start<Id: Copy, C, U, F, O>(req: CrudRequest<Id, C, U, F, O>) -> (r: (
    HandlerState<Id>,
    ControllerCall<Id, C, U, F, O>,
))
    ensures
        r == spec_start(req),
{
    match req {
        CrudRequest::Create(params) => (
            HandlerState::CreateAwaitingWrite,
            ControllerCall::Create(params.data),
        ),
        CrudRequest::Get(id) => (HandlerState::GetAwaitingRead, ControllerCall::Get(id)),
        CrudRequest::List(params) => (
            HandlerState::ListAwaitingRead,
            ControllerCall::List(params.filters, params.list_options),
        ),
        CrudRequest::Update(id, params) => (
            HandlerState::UpdateAwaitingWrite(id),
            ControllerCall::Update(id, params.data),
        ),
        CrudRequest::Delete(id) => (HandlerState::DeleteAwaitingWrite, ControllerCall::Delete(id)),
    }
}

/// Advance a handler run by one controller reply. Returns `None` only when
/// the reply does not answer the outstanding call, which a faithful driving
/// adapter never produces.
pub fn on_reply<Id, C, U, F, O, T, E>(
    state: HandlerState<Id>,
    reply: ControllerReply<Id, T, E>,
) -> (r: Option<Step<Id, C, U, F, O, T, E>>)
    ensures
        r == spec_on_reply::<Id, C, U, F, O, T, E>(state, reply),
{
    match (state, reply) {
        (HandlerState::CreateAwaitingWrite, ControllerReply::Created(r)) => Some(
            match r {
                Ok(id) => Step::Continue(HandlerState::CreateAwaitingRead, ControllerCall::Get(id)),
                Err(e) => Step::Done(Err(e)),
            },
        ),
        (HandlerState::CreateAwaitingRead, ControllerReply::Fetched(r)) => Some(
            match r {
                Ok(entity) => Step::Done(Ok(created(RestBody::One(entity)))),
                Err(e) => Step::Done(Err(e)),
            },
        ),
        (HandlerState::GetAwaitingRead, ControllerReply::Fetched(r)) => Some(
            match r {
                Ok(entity) => Step::Done(Ok(ok(RestBody::One(entity)))),
                Err(e) => Step::Done(Err(e)),
            },
        ),
        (HandlerState::ListAwaitingRead, ControllerReply::Listed(r)) => Some(
            match r {
                Ok(entities) => Step::Done(Ok(ok(RestBody::Many(entities)))),
                Err(e) => Step::Done(Err(e)),
            },
        ),
        (HandlerState::UpdateAwaitingWrite(id), ControllerReply::Updated(r)) => Some(
            match r {
                Ok(()) => Step::Continue(HandlerState::UpdateAwaitingRead, ControllerCall::Get(id)),
                Err(e) => Step::Done(Err(e)),
            },
        ),
        (HandlerState::UpdateAwaitingRead, ControllerReply::Fetched(r)) => Some(
            match r {
                Ok(entity) => Step::Done(Ok(ok(RestBody::One(entity)))),
                Err(e) => Step::Done(Err(e)),
            },
        ),
        (HandlerState::DeleteAwaitingWrite, ControllerReply::Deleted(r)) => Some(
            match r {
                Ok(()) => Step::Done(Ok(no_content())),
                Err(e) => Step::Done(Err(e)),
            },
        ),
        _ => None,
    }
}

/// Law (create): for every create payload and every pair of controller
/// answers, the create handler issues exactly one `create` call carrying the
/// payload under the request envelope's `data` key; if that returns `Ok(id)`
/// it issues exactly one follow-up `get(id)` with the identifier `create`
/// returned and then finishes; a successful read finishes with status 201 and
/// body `{ "data": <result of get> }`, and an error from either call finishes
/// the run at once with that error and no response.
pub proof fn law_create_protocol<Id, C, U, F, O, T, E>(
    params: ParamsForCreate<C>,
    write: Result<Id, E>,
    read: Result<T, E>,
)
    ensures
        ({
            let (s0, first) = spec_start::<Id, C, U, F, O>(CrudRequest::Create(params));
            &&& first == ControllerCall::<Id, C, U, F, O>::Create(params.data)
            &&& match write {
                Ok(id) => {
                    &&& spec_on_reply::<Id, C, U, F, O, T, E>(s0, ControllerReply::Created(write))
                        == Some(
                        Step::<Id, C, U, F, O, T, E>::Continue(
                            HandlerState::CreateAwaitingRead,
                            ControllerCall::Get(id),
                        ),
                    )
                    &&& match read {
                        Ok(entity) => spec_on_reply::<Id, C, U, F, O, T, E>(
                            HandlerState::CreateAwaitingRead,
                            ControllerReply::Fetched(read),
                        ) == Some(
                            Step::<Id, C, U, F, O, T, E>::Done(
                                Ok(spec_created(RestBody::One(entity))),
                            ),
                        ),
                        Err(e) => spec_on_reply::<Id, C, U, F, O, T, E>(
                            HandlerState::CreateAwaitingRead,
                            ControllerReply::Fetched(read),
                        ) == Some(Step::<Id, C, U, F, O, T, E>::Done(Err(e))),
                    }
                },
                Err(e) => spec_on_reply::<Id, C, U, F, O, T, E>(s0, ControllerReply::Created(write))
                    == Some(Step::<Id, C, U, F, O, T, E>::Done(Err(e))),
            }
        }),
{
}

/// Law (get): for every path identifier, the get handler issues exactly one
/// `get(id)` call; a successful read finishes with status 200 and body
/// `{ "data": <entity> }`, and an error finishes with that error, untouched.
pub proof fn law_get_protocol<Id, C, U, F, O, T, E>(id: Id, read: Result<T, E>)
    ensures
        ({
            let (s0, first) = spec_start::<Id, C, U, F, O>(CrudRequest::Get(id));
            &&& first == ControllerCall::<Id, C, U, F, O>::Get(id)
            &&& match read {
                Ok(entity) => spec_on_reply::<Id, C, U, F, O, T, E>(
                    s0,
                    ControllerReply::Fetched(read),
                ) == Some(
                    Step::<Id, C, U, F, O, T, E>::Done(Ok(spec_ok(RestBody::One(entity)))),
                ),
                Err(e) => spec_on_reply::<Id, C, U, F, O, T, E>(s0, ControllerReply::Fetched(read))
                    == Some(Step::<Id, C, U, F, O, T, E>::Done(Err(e))),
            }
        }),
{
}

/// Law (list): for every combination of filters and list options, the list
/// handler forwards both to the controller unchanged in exactly one `list`
/// call; a successful answer finishes with status 200 and a body holding
/// exactly the sequence the controller returned, in the same order, and an
/// error finishes with that error, untouched.
pub proof fn law_list_protocol<Id, C, U, F, O, T, E>(
    params: ParamsList<F, O>,
    listed: Result<Vec<T>, E>,
)
    ensures
        ({
            let (s0, first) = spec_start::<Id, C, U, F, O>(CrudRequest::List(params));
            &&& first == ControllerCall::<Id, C, U, F, O>::List(
                params.filters,
                params.list_options,
            )
            &&& match listed {
                Ok(entities) => spec_on_reply::<Id, C, U, F, O, T, E>(
                    s0,
                    ControllerReply::Listed(listed),
                ) == Some(
                    Step::<Id, C, U, F, O, T, E>::Done(Ok(spec_ok(RestBody::Many(entities)))),
                ),
                Err(e) => spec_on_reply::<Id, C, U, F, O, T, E>(s0, ControllerReply::Listed(listed))
                    == Some(Step::<Id, C, U, F, O, T, E>::Done(Err(e))),
            }
        }),
{
}

/// Law (update): for every update payload and path identifier, the update
/// handler issues exactly one `update(id, payload)` call; if the write
/// succeeds it issues exactly one follow-up `get(id)` with the same path
/// identifier and then finishes; a successful read finishes with status 200
/// and body `{ "data": <result of get> }`, and an error from either call
/// finishes the run at once with that error and no response.
pub proof fn law_update_protocol<Id, C, U, F, O, T, E>(
    id: Id,
    params: ParamsForUpdate<U>,
    write: Result<(), E>,
    read: Result<T, E>,
)
    ensures
        ({
            let (s0, first) = spec_start::<Id, C, U, F, O>(CrudRequest::Update(id, params));
            &&& first == ControllerCall::<Id, C, U, F, O>::Update(id, params.data)
            &&& match write {
                Ok(u) => {
                    &&& spec_on_reply::<Id, C, U, F, O, T, E>(s0, ControllerReply::Updated(write))
                        == Some(
                        Step::<Id, C, U, F, O, T, E>::Continue(
                            HandlerState::UpdateAwaitingRead,
                            ControllerCall::Get(id),
                        ),
                    )
                    &&& match read {
                        Ok(entity) => spec_on_reply::<Id, C, U, F, O, T, E>(
                            HandlerState::UpdateAwaitingRead,
                            ControllerReply::Fetched(read),
                        ) == Some(
                            Step::<Id, C, U, F, O, T, E>::Done(Ok(spec_ok(RestBody::One(entity)))),
                        ),
                        Err(e) => spec_on_reply::<Id, C, U, F, O, T, E>(
                            HandlerState::UpdateAwaitingRead,
                            ControllerReply::Fetched(read),
                        ) == Some(Step::<Id, C, U, F, O, T, E>::Done(Err(e))),
                    }
                },
                Err(e) => spec_on_reply::<Id, C, U, F, O, T, E>(s0, ControllerReply::Updated(write))
                    == Some(Step::<Id, C, U, F, O, T, E>::Done(Err(e))),
            }
        }),
{
}

/// Law (delete): for every path identifier and whatever the entity type, the
/// delete handler issues exactly one `delete(id)` call; success finishes with
/// status 204 and an empty body, and an error finishes with that error,
/// untouched.
pub proof fn law_delete_protocol<Id, C, U, F, O, T, E>(id: Id, deleted: Result<(), E>)
    ensures
        ({
            let (s0, first) = spec_start::<Id, C, U, F, O>(CrudRequest::Delete(id));
            &&& first == ControllerCall::<Id, C, U, F, O>::Delete(id)
            &&& match deleted {
                Ok(u) => spec_on_reply::<Id, C, U, F, O, T, E>(s0, ControllerReply::Deleted(deleted))
                    == Some(
                    Step::<Id, C, U, F, O, T, E>::Done(Ok(spec_no_content())),
                ),
                Err(e) => spec_on_reply::<Id, C, U, F, O, T, E>(
                    s0,
                    ControllerReply::Deleted(deleted),
                ) == Some(Step::<Id, C, U, F, O, T, E>::Done(Err(e))),
            }
        }),
        spec_no_content::<RestBody<T>>().body is None,
{
}

/// Law (error propagation): in every handler state, a controller reply that
/// carries an error ends the run at once with exactly that error — no
/// response body and no status code come from this layer.
pub proof fn law_error_propagation<Id, C, U, F, O, T, E>(
    state: HandlerState<Id>,
    reply: ControllerReply<Id, T, E>,
    e: E,
)
    requires
        reply_expected(state, reply),
        reply_error(reply) == Some(e),
    ensures
        spec_on_reply::<Id, C, U, F, O, T, E>(state, reply) == Some(
            Step::<Id, C, U, F, O, T, E>::Done(Err(e)),
        ),
{
}

/// Law (totality on the protocol): a reply has a transition exactly when it
/// answers the outstanding call.
pub proof fn law_transition_defined<Id, C, U, F, O, T, E>(
    state: HandlerState<Id>,
    reply: ControllerReply<Id, T, E>,
)
    ensures
        spec_on_reply::<Id, C, U, F, O, T, E>(state, reply) is Some <==> reply_expected(
            state,
            reply,
        ),
{
}

} // verus!
