//! The dispatch pipeline: guard, then the operation, then the renderer, then
//! the event signal. Each stage runs at most once and only if the stage
//! before it succeeded.
//!
//! A request that succeeds ends in a [`Dispatched`]: the rendered response
//! and, for an operation that changed the store, the event signal that the
//! transport is to expose. A request that fails ends in an `AppError` that
//! says which stage refused.

use crate::auth::UserId;
use crate::components::Component;
use crate::errors::{AppError, AppResult, AuthError, ModelError, StatusClass};
use crate::models::{
    AuthModelCreate, AuthModelDelete, AuthModelRead, AuthModelWrite, Model, ModelCreate,
    ModelDelete, ModelRead, ModelWrite,
};
use axum::http::HeaderValue;
use vstd::prelude::*;
use vstd::std_specs::convert::FromSpec;
use vstd::string::StringExecFns;
use vstd::utf8::{encode_utf8, is_ascii_chars, is_ascii_chars_encode_utf8};

verus! {

#[verifier::external_type_specification]
#[verifier::external_body]
pub struct ExHeaderValue(HeaderValue);

/// The bytes that a header value holds.
pub uninterp spec fn header_value_bytes(value: HeaderValue) -> Seq<u8>;

/// The bytes that may stand in a header value: everything from the space
/// on but DEL, and the tab.
pub open spec fn is_header_byte(b: u8) -> bool {
    b >= 32 && b != 127 || b == 9
}

/// Whether every byte may stand in a header value.
pub open spec fn is_header_text(bytes: Seq<u8>) -> bool {
    forall|i: int| 0 <= i < bytes.len() ==> is_header_byte(#[trigger] bytes[i])
}

/// The text of the failure that a signal which cannot be encoded ends in.
pub open spec fn signal_failure_text() -> Seq<char> {
    "failed to build HX-Trigger header: "@ + "failed to parse header value"@
}

/// Calls `http::HeaderValue::from_str` and, where it fails, takes the text of
/// the `InvalidHeaderValue`. Trusted: the call succeeds exactly when every
/// byte of `s` may stand in a header value; the value then holds the bytes of
/// `s`; the text of the failure is always the same.
#[verifier::external_body]
fn parse_header_value(s: &str) -> (r: Result<HeaderValue, String>)
    ensures
        r is Ok <==> is_header_text(encode_utf8(s@)),
        r matches Ok(value) ==> header_value_bytes(value) == encode_utf8(s@),
        r matches Err(text) ==> text@ == "failed to parse header value"@,
{
    match HeaderValue::from_str(s) {
        Ok(value) => Ok(value),
        Err(e) => Err(e.to_string()),
    }
}

/// The four kinds of operation that the pipeline dispatches.
#[derive(Debug, Clone, Copy, PartialEq, Eq, Structural)]
pub enum Operation {
    Read,
    Write,
    Create,
    Delete,
}

impl Operation {
    /// The name of the signal that a successful operation of this kind on
    /// the entity type `name` sends: the name followed by what happened. A
    /// read changes nothing and sends none.
    pub open spec fn signal_name(self, name: Seq<char>) -> Option<Seq<char>> {
        match self {
            Operation::Read => None,
            Operation::Write => Some(name + "Updated"@),
            Operation::Create => Some(name + "Created"@),
            Operation::Delete => Some(name + "Deleted"@),
        }
    }

    /// The name of the signal that a successful operation of this kind on an
    /// entity of type `M` sends.
    pub fn signal<M: Model>(self) -> (r: Option<String>)
        ensures
            r is Some <==> self != Operation::Read,
            match self.signal_name(M::MODEL_NAME@) {
                Some(name) => r is Some && r->Some_0@ == name,
                None => r is None,
            },
    {
        match self {
            Operation::Read => None,
            Operation::Write => Some(M::event_updated()),
            Operation::Create => Some(M::event_created()),
            Operation::Delete => Some(M::event_deleted()),
        }
    }
}

/// A request that went through: the rendered response and the event signal
/// to expose with it, if the operation sends one.
pub struct Dispatched<R> {
    pub response: R,
    pub signal: Option<HeaderValue>,
}

impl<R> Dispatched<R> {
    /// Whether the signal is the one named `name`: no signal where `name` is
    /// `None`, and otherwise exactly one, holding the bytes of the name.
    pub open spec fn carries(self, name: Option<Seq<char>>) -> bool {
        match name {
            None => self.signal is None,
            Some(text) => self.signal is Some && header_value_bytes(self.signal->Some_0)
                == encode_utf8(text),
        }
    }
}

/// How a request goes on after the guard: a denial ends it
/// as an authorization failure.
pub open spec fn guard_outcome(verdict: Result<(), AuthError>) -> Result<(), AppError> {
    match verdict {
        Ok(()) => Ok(()),
        Err(e) => Err(AppError::Auth(e)),
    }
}

/// How a request goes on after the operation: an absent entity ends the
/// request as `NotFound`, a failure ends it as that failure.
pub open spec fn access_outcome<M>(found: Result<Option<M>, ModelError>) -> Result<M, AppError> {
    match found {
        Ok(Some(m)) => Ok(m),
        Ok(None) => Err(AppError::NotFound),
        Err(e) => Err(AppError::Model(e)),
    }
}

/// How a request ends after the renderer, given the signal to send:
/// a renderer that failed ends the request as it failed; a signal that can be
/// encoded is attached; a signal that cannot be encoded ends the request as
/// an internal error.
pub open spec fn attach_outcome<R>(
    rendered: AppResult<R>,
    name: Option<Seq<char>>,
    r: AppResult<Dispatched<R>>,
) -> bool {
    match rendered {
        Err(e) => r == Err::<Dispatched<R>, AppError>(e),
        Ok(response) => if name is Some && !is_header_text(encode_utf8(name->Some_0)) {
            r is Err && r->Err_0 is Internal && r->Err_0->Internal_0@ == signal_failure_text()
        } else {
            r is Ok && r->Ok_0.response == response && r->Ok_0.carries(name)
        },
    }
}

/// Ends the guard stage.
pub fn after_guard(verdict: Result<(), AuthError>) -> (r: Result<(), AppError>)
    ensures
        r == guard_outcome(verdict),
{
    match verdict {
        Ok(()) => Ok(()),
        Err(e) => Err(AppError::from(e)),
    }
}

/// Ends the stage of an operation that may find nothing.
pub fn after_access<M>(found: Result<Option<M>, ModelError>) -> (r: Result<M, AppError>)
    ensures
        r == access_outcome(found),
{
    match found {
        Ok(Some(m)) => Ok(m),
        Ok(None) => Err(AppError::NotFound),
        Err(e) => Err(AppError::from(e)),
    }
}

/// Ends the request: attaches the signal, if there is one to send, to the
/// renderer's response.
pub fn attach_signal<R>(rendered: AppResult<R>, name: Option<String>) -> (r: AppResult<
    Dispatched<R>,
>)
    ensures
        attach_outcome(
            rendered,
            match name {
                Some(text) => Some(text@),
                None => None,
            },
            r,
        ),
{
    let response = match rendered {
        Ok(response) => response,
        Err(e) => {
            return Err(e);
        },
    };
    match name {
        None => Ok(Dispatched { response, signal: None }),
        Some(text) => match parse_header_value(text.as_str()) {
            Ok(value) => Ok(Dispatched { response, signal: Some(value) }),
            Err(why) => Err(
                AppError::Internal(
                    String::from_str("failed to build HX-Trigger header: ").concat(why.as_str()),
                ),
            ),
        },
    }
}

/// Renders an entity as a response.
pub trait ModelController<C>: Send + Sync + Sized {
    type Model: Send + Sync + Sized;

    type Response;

    /// The outputs that `build_response` may give.
    open spec fn build_response_spec(
        pre: C,
        user_id: Option<UserId>,
        m: Self::Model,
        post: C,
        r: AppResult<Self::Response>,
    ) -> bool {
        true
    }

    /// Renders `m` for the caller. The connection is at hand for what the
    /// response needs beyond the entity.
    fn build_response(conn: &mut C, user_id: Option<UserId>, m: Self::Model) -> (r: AppResult<
        Self::Response,
    >)
        ensures
            Self::build_response_spec(*old(conn), user_id, m, *final(conn), r),
    ;
}

/// Renders a response from the data of a request alone.
pub trait InitController<C> {
    type Init: Send + Sync + Sized;

    type Response;

    /// The outputs that `build_response` may give.
    open spec fn build_response_spec(
        pre: C,
        data: Self::Init,
        user_id: Option<UserId>,
        post: C,
        r: AppResult<Self::Response>,
    ) -> bool {
        true
    }

    /// Renders a response from `data` for the caller.
    fn build_response(conn: &mut C, data: Self::Init, user_id: Option<UserId>) -> (r: AppResult<
        Self::Response,
    >)
        ensures
            Self::build_response_spec(*old(conn), data, user_id, *final(conn), r),
    ;
}

/// The last two stages, given the entity `m`: the renderer runs once on `m`
/// and the caller's identity, and the signal named `name` is attached to what
/// it returns.
pub open spec fn render_spec<C, H: ModelController<C>>(
    pre: C,
    user_id: Option<UserId>,
    m: H::Model,
    name: Option<Seq<char>>,
    post: C,
    r: AppResult<Dispatched<H::Response>>,
) -> bool {
    exists|rendered: AppResult<H::Response>| #[trigger]
        H::build_response_spec(pre, user_id, m, post, rendered) && attach_outcome(
            rendered,
            name,
            r,
        )
}

/// The stages that follow the operation, given the store's answer `found`
/// and the connection `mid` as the operation left it: without an entity the
/// request ends there and the connection is not used again; with an entity
/// the renderer and the signal follow.
pub open spec fn access_spec<C, H: ModelController<C>>(
    found: Result<Option<H::Model>, ModelError>,
    mid: C,
    user_id: Option<UserId>,
    name: Option<Seq<char>>,
    post: C,
    r: AppResult<Dispatched<H::Response>>,
) -> bool {
    match found {
        Ok(Some(m)) => render_spec::<C, H>(mid, user_id, m, name, post, r),
        _ => post == mid && r == Err::<Dispatched<H::Response>, AppError>(access_outcome(found)->Err_0),
    }
}

/// Runs the renderer on `m` and attaches the signal of `op`.
fn render<C, H: ModelController<C>>(
    conn: &mut C,
    user_id: Option<UserId>,
    m: H::Model,
    op: Operation,
) -> (r: AppResult<Dispatched<H::Response>>) where H::Model: Model
    ensures
        render_spec::<C, H>(
            *old(conn),
            user_id,
            m,
            op.signal_name(<H::Model as Model>::MODEL_NAME@),
            *final(conn),
            r,
        ),
{
    let rendered = H::build_response(conn, user_id, m);
    attach_signal(rendered, op.signal::<H::Model>())
}

/// What a read request ends in. The guard runs first, on `id` and the
/// caller's identity. If it denies, the request ends as that denial and the
/// connection is left as the guard left it: the entity is never read. If it
/// lets the caller through, the entity with the same `id` is read once; then
/// the renderer runs. No signal is sent.
pub open spec fn read_dispatch_spec<C, H: ModelController<C>>(
    pre: C,
    id: i64,
    user_id: Option<UserId>,
    post: C,
    r: AppResult<Dispatched<H::Response>>,
) -> bool where H::Model: AuthModelRead<C> {
    exists|guarded: C, verdict: Result<(), AuthError>| #[trigger]
        <H::Model as AuthModelRead<C>>::can_read_spec(pre, id, user_id, guarded, verdict) && (
        match verdict {
            Err(e) => post == guarded && r == Err::<Dispatched<H::Response>, AppError>(
                AppError::Auth(e),
            ),
            Ok(()) => exists|mid: C, found: Result<Option<H::Model>, ModelError>| #[trigger]
                <H::Model as ModelRead<C>>::read_spec(guarded, id, mid, found) && access_spec::<
                    C,
                    H,
                >(found, mid, user_id, None, post, r),
        })
}

/// Dispatches a read: guard, read, render.
pub fn model_controller_read<C, H: ModelController<C>>(
    conn: &mut C,
    id: i64,
    user_id: Option<UserId>,
) -> (r: AppResult<Dispatched<H::Response>>) where H::Model: AuthModelRead<C>
    ensures
        read_dispatch_spec::<C, H>(*old(conn), id, user_id, *final(conn), r),
        user_id is None ==> r == Err::<Dispatched<H::Response>, AppError>(
            AppError::Auth(AuthError::Unauthenticated),
        ),
        r is Ok ==> r->Ok_0.signal is None,
{
    let verdict = <H::Model as AuthModelRead<C>>::can_read(conn, id, user_id);
    let ghost guarded = *conn;
    if let Err(e) = after_guard(verdict) {
        return Err(e);
    }
    let found = <H::Model as ModelRead<C>>::read(conn, id);
    let ghost mid = *conn;
    let item = match after_access(found) {
        Ok(item) => item,
        Err(e) => {
            return Err(e);
        },
    };
    let r = render::<C, H>(conn, user_id, item, Operation::Read);
    proof {
        assert(access_spec::<C, H>(found, mid, user_id, None, *conn, r));
    }
    r
}

/// What a write request ends in. The guard runs first, on `id`, the caller's
/// identity and `data`. If it denies, the request ends as that denial and the
/// connection is left as the guard left it: nothing is written. If it lets
/// the caller through, the same `data` is written once to the same `id`; then
/// the renderer runs and the "updated" signal is attached.
pub open spec fn write_dispatch_spec<C, H: ModelController<C>>(
    pre: C,
    id: i64,
    user_id: Option<UserId>,
    data: <H::Model as ModelWrite<C>>::Write,
    post: C,
    r: AppResult<Dispatched<H::Response>>,
) -> bool where H::Model: AuthModelWrite<C> {
    exists|guarded: C, verdict: Result<(), AuthError>| #[trigger]
        <H::Model as AuthModelWrite<C>>::can_write_spec(pre, id, user_id, data, guarded, verdict)
            && (match verdict {
            Err(e) => post == guarded && r == Err::<Dispatched<H::Response>, AppError>(
                AppError::Auth(e),
            ),
            Ok(()) => exists|mid: C, found: Result<Option<H::Model>, ModelError>| #[trigger]
                <H::Model as ModelWrite<C>>::write_spec(guarded, id, data, mid, found)
                    && access_spec::<C, H>(
                    found,
                    mid,
                    user_id,
                    Operation::Write.signal_name(<H::Model as Model>::MODEL_NAME@),
                    post,
                    r,
                ),
        })
}

/// Dispatches a write: guard, write, render, signal.
pub fn model_controller_write<C, H: ModelController<C>>(
    conn: &mut C,
    id: i64,
    user_id: Option<UserId>,
    data: <H::Model as ModelWrite<C>>::Write,
) -> (r: AppResult<Dispatched<H::Response>>) where H::Model: AuthModelWrite<C>
    ensures
        write_dispatch_spec::<C, H>(*old(conn), id, user_id, data, *final(conn), r),
        user_id is None ==> r == Err::<Dispatched<H::Response>, AppError>(
            AppError::Auth(AuthError::Unauthenticated),
        ),
        r is Ok ==> r->Ok_0.carries(Some(<H::Model as Model>::MODEL_NAME@ + "Updated"@)),
{
    let verdict = <H::Model as AuthModelWrite<C>>::can_write(conn, id, user_id, &data);
    let ghost guarded = *conn;
    if let Err(e) = after_guard(verdict) {
        return Err(e);
    }
    let found = <H::Model as ModelWrite<C>>::write(conn, id, data);
    let ghost mid = *conn;
    let item = match after_access(found) {
        Ok(item) => item,
        Err(e) => {
            return Err(e);
        },
    };
    let r = render::<C, H>(conn, user_id, item, Operation::Write);
    proof {
        assert(access_spec::<C, H>(
            found,
            mid,
            user_id,
            Operation::Write.signal_name(<H::Model as Model>::MODEL_NAME@),
            *conn,
            r,
        ));
    }
    r
}

/// What a create request ends in. The guard runs first, on the caller's
/// identity and `data`. If it denies, the request ends as that denial and the
/// connection is left as the guard left it: nothing is created. If it lets
/// the caller through, an entity is created once from the same `data`; then
/// the renderer runs and the "created" signal is attached.
pub open spec fn create_dispatch_spec<C, H: ModelController<C>>(
    pre: C,
    user_id: Option<UserId>,
    data: <H::Model as ModelCreate<C>>::Create,
    post: C,
    r: AppResult<Dispatched<H::Response>>,
) -> bool where H::Model: AuthModelCreate<C> {
    exists|guarded: C, verdict: Result<(), AuthError>| #[trigger]
        <H::Model as AuthModelCreate<C>>::can_create_spec(pre, user_id, data, guarded, verdict)
            && (match verdict {
            Err(e) => post == guarded && r == Err::<Dispatched<H::Response>, AppError>(
                AppError::Auth(e),
            ),
            Ok(()) => exists|mid: C, made: Result<H::Model, ModelError>| #[trigger]
                <H::Model as ModelCreate<C>>::create_spec(guarded, data, mid, made)
                    && access_spec::<C, H>(
                    present(made),
                    mid,
                    user_id,
                    Operation::Create.signal_name(<H::Model as Model>::MODEL_NAME@),
                    post,
                    r,
                ),
        })
}

/// The answer of an operation that yields an entity or fails, seen as the
/// answer of one that may also find nothing.
pub open spec fn present<M>(made: Result<M, ModelError>) -> Result<Option<M>, ModelError> {
    match made {
        Ok(m) => Ok(Some(m)),
        Err(e) => Err(e),
    }
}

/// Ends the stage of an operation that yields an entity or fails.
pub fn after_change<M>(made: Result<M, ModelError>) -> (r: Result<M, AppError>)
    ensures
        r == access_outcome(present(made)),
{
    match made {
        Ok(m) => Ok(m),
        Err(e) => Err(AppError::from(e)),
    }
}

/// Dispatches a create: guard, create, render, signal.
pub fn model_controller_create<C, H: ModelController<C>>(
    conn: &mut C,
    user_id: Option<UserId>,
    data: <H::Model as ModelCreate<C>>::Create,
) -> (r: AppResult<Dispatched<H::Response>>) where H::Model: AuthModelCreate<C>
    ensures
        create_dispatch_spec::<C, H>(*old(conn), user_id, data, *final(conn), r),
        user_id is None ==> r == Err::<Dispatched<H::Response>, AppError>(
            AppError::Auth(AuthError::Unauthenticated),
        ),
        r is Ok ==> r->Ok_0.carries(Some(<H::Model as Model>::MODEL_NAME@ + "Created"@)),
{
    let verdict = <H::Model as AuthModelCreate<C>>::can_create(conn, user_id, &data);
    let ghost guarded = *conn;
    if let Err(e) = after_guard(verdict) {
        return Err(e);
    }
    let made = <H::Model as ModelCreate<C>>::create(conn, data);
    let ghost mid = *conn;
    let item = match after_change(made) {
        Ok(item) => item,
        Err(e) => {
            return Err(e);
        },
    };
    let r = render::<C, H>(conn, user_id, item, Operation::Create);
    proof {
        assert(access_spec::<C, H>(
            present(made),
            mid,
            user_id,
            Operation::Create.signal_name(<H::Model as Model>::MODEL_NAME@),
            *conn,
            r,
        ));
    }
    r
}

/// What a delete request ends in. The guard runs first, on `id` and the
/// caller's identity. If it denies, the request ends as that denial and the
/// connection is left as the guard left it: nothing is deleted. If it lets
/// the caller through, the entity with the same `id` is deleted once; then
/// the renderer runs on the deleted entity and the "deleted" signal is
/// attached.
pub open spec fn delete_dispatch_spec<C, H: ModelController<C>>(
    pre: C,
    id: i64,
    user_id: Option<UserId>,
    post: C,
    r: AppResult<Dispatched<H::Response>>,
) -> bool where H::Model: AuthModelDelete<C> {
    exists|guarded: C, verdict: Result<(), AuthError>| #[trigger]
        <H::Model as AuthModelDelete<C>>::can_delete_spec(pre, id, user_id, guarded, verdict) && (
        match verdict {
            Err(e) => post == guarded && r == Err::<Dispatched<H::Response>, AppError>(
                AppError::Auth(e),
            ),
            Ok(()) => exists|mid: C, gone: Result<H::Model, ModelError>| #[trigger]
                <H::Model as ModelDelete<C>>::delete_spec(guarded, id, mid, gone) && access_spec::<
                    C,
                    H,
                >(
                    present(gone),
                    mid,
                    user_id,
                    Operation::Delete.signal_name(<H::Model as Model>::MODEL_NAME@),
                    post,
                    r,
                ),
        })
}

/// Dispatches a delete: guard, delete, render, signal.
pub fn model_controller_delete<C, H: ModelController<C>>(
    conn: &mut C,
    id: i64,
    user_id: Option<UserId>,
) -> (r: AppResult<Dispatched<H::Response>>) where H::Model: AuthModelDelete<C>
    ensures
        delete_dispatch_spec::<C, H>(*old(conn), id, user_id, *final(conn), r),
        user_id is None ==> r == Err::<Dispatched<H::Response>, AppError>(
            AppError::Auth(AuthError::Unauthenticated),
        ),
        r is Ok ==> r->Ok_0.carries(Some(<H::Model as Model>::MODEL_NAME@ + "Deleted"@)),
{
    let verdict = <H::Model as AuthModelDelete<C>>::can_delete(conn, id, user_id);
    let ghost guarded = *conn;
    if let Err(e) = after_guard(verdict) {
        return Err(e);
    }
    let gone = <H::Model as ModelDelete<C>>::delete(conn, id);
    let ghost mid = *conn;
    let item = match after_change(gone) {
        Ok(item) => item,
        Err(e) => {
            return Err(e);
        },
    };
    let r = render::<C, H>(conn, user_id, item, Operation::Delete);
    proof {
        assert(access_spec::<C, H>(
            present(gone),
            mid,
            user_id,
            Operation::Delete.signal_name(<H::Model as Model>::MODEL_NAME@),
            *conn,
            r,
        ));
    }
    r
}

/// Renders a response from the data of a request: the renderer runs once.
pub fn init_controller_from_query<C, I: InitController<C>>(
    conn: &mut C,
    user_id: Option<UserId>,
    data: I::Init,
) -> (r: AppResult<I::Response>)
    ensures
        I::build_response_spec(*old(conn), data, user_id, *final(conn), r),
{
    I::build_response(conn, data, user_id)
}

/// The controller that renders an entity by converting it into a component:
/// the component is the response. The store is not touched.
pub struct ComponentFromModelController<
    M: Send + Sync + Sized,
    Comp: Component + From<M> + Send + Sync + Sized,
>(M, Comp);

impl<C, M: Send + Sync + Sized, Comp: Component + From<M> + Send + Sync + Sized> ModelController<
    C,
> for ComponentFromModelController<M, Comp> {
    type Model = M;

    type Response = Comp;

    open spec fn build_response_spec(
        pre: C,
        user_id: Option<UserId>,
        m: M,
        post: C,
        r: AppResult<Comp>,
    ) -> bool {
        post == pre && r is Ok && (<Comp as FromSpec<M>>::obeys_from_spec() ==> r->Ok_0
            == <Comp as FromSpec<M>>::from_spec(m))
    }

    fn build_response(_conn: &mut C, _user_id: Option<UserId>, m: M) -> (r: AppResult<Comp>) {
        Ok(Comp::from(m))
    }
}

/// Once the guard has let the caller through, an operation that finds no
/// matching row ends the request as not found, never as an authorization
/// failure, whether the store says so by an absent entity or by `NotFound`.
/// The renderer does not run.
pub proof fn lemma_missing_row_is_not_found<C, H: ModelController<C>>(
    found: Result<Option<H::Model>, ModelError>,
    mid: C,
    user_id: Option<UserId>,
    name: Option<Seq<char>>,
    post: C,
    r: AppResult<Dispatched<H::Response>>,
)
    requires
        access_spec::<C, H>(found, mid, user_id, name, post, r),
        found == Ok::<Option<H::Model>, ModelError>(None) || found == Err::<
            Option<H::Model>,
            ModelError,
        >(ModelError::NotFound),
    ensures
        r is Err,
        r->Err_0 == AppError::NotFound || r->Err_0 == AppError::Model(ModelError::NotFound),
        r->Err_0.status_class() == StatusClass::NotFound,
        !(r->Err_0 is Auth),
        post == mid,
{
}

/// A request that succeeds carries exactly the signal of its operation: none
/// for a read, and for a write, a create and a delete the one signal that
/// holds the entity's name followed by `Updated`, `Created` or `Deleted`.
pub proof fn lemma_success_carries_signal<C, H: ModelController<C>>(
    op: Operation,
    found: Result<Option<H::Model>, ModelError>,
    mid: C,
    user_id: Option<UserId>,
    post: C,
    r: AppResult<Dispatched<H::Response>>,
) where H::Model: Model
    requires
        access_spec::<C, H>(
            found,
            mid,
            user_id,
            op.signal_name(<H::Model as Model>::MODEL_NAME@),
            post,
            r,
        ),
        r is Ok,
    ensures
        found is Ok && found->Ok_0 is Some,
        op == Operation::Read ==> r->Ok_0.signal is None,
        op == Operation::Write ==> r->Ok_0.carries(
            Some(<H::Model as Model>::MODEL_NAME@ + "Updated"@),
        ),
        op == Operation::Create ==> r->Ok_0.carries(
            Some(<H::Model as Model>::MODEL_NAME@ + "Created"@),
        ),
        op == Operation::Delete ==> r->Ok_0.carries(
            Some(<H::Model as Model>::MODEL_NAME@ + "Deleted"@),
        ),
        op != Operation::Read ==> r->Ok_0.signal is Some,
{
}

/// A guard that denies ends the request as that denial, for every kind of
/// operation: the outcome of the guard stage is an authorization failure and
/// nothing else.
pub proof fn lemma_denial_is_auth_failure(verdict: Result<(), AuthError>)
    ensures
        verdict is Err ==> guard_outcome(verdict) == Err::<(), AppError>(
            AppError::Auth(verdict->Err_0),
        ),
        verdict is Ok <==> guard_outcome(verdict) is Ok,
        verdict == Err::<(), AuthError>(AuthError::Unauthenticated) ==> guard_outcome(
            verdict,
        )->Err_0.status_class() == StatusClass::Unauthenticated,
        verdict == Err::<(), AuthError>(AuthError::Unauthorized) ==> guard_outcome(
            verdict,
        )->Err_0.status_class() == StatusClass::Forbidden,
{
}

/// Whether a text is made of spaces and visible ASCII characters only.
pub open spec fn is_plain_text(text: Seq<char>) -> bool {
    forall|i: int| 0 <= i < text.len() ==> ' ' <= #[trigger] text[i] <= '~'
}

/// A text of spaces and visible ASCII characters can stand in a header
/// value.
pub proof fn lemma_plain_text_is_header_text(text: Seq<char>)
    requires
        is_plain_text(text),
    ensures
        is_header_text(encode_utf8(text)),
{
    assert(is_ascii_chars(text)) by {
        assert forall|i: int| 0 <= i < text.len() implies '\0' <= #[trigger] text[i]
            <= '\u{7f}' by {
            assert(' ' <= text[i] <= '~');
        }
    }
    is_ascii_chars_encode_utf8(text);
    let bytes = encode_utf8(text);
    assert forall|i: int| 0 <= i < bytes.len() implies is_header_byte(#[trigger] bytes[i]) by {
        assert(' ' <= text[i] <= '~');
        assert(text[i] as u8 == bytes[i]);
    }
}

/// An entity type with a plain name never fails at the signal: once the
/// renderer has succeeded, the request succeeds, whatever the operation.
pub proof fn lemma_plain_name_always_signals<R>(
    op: Operation,
    name: Seq<char>,
    response: R,
    r: AppResult<Dispatched<R>>,
)
    requires
        is_plain_text(name),
        attach_outcome(Ok::<R, AppError>(response), op.signal_name(name), r),
    ensures
        r is Ok,
        r->Ok_0.response == response,
        r->Ok_0.carries(op.signal_name(name)),
{
    reveal_strlit("Updated");
    reveal_strlit("Created");
    reveal_strlit("Deleted");
    if op.signal_name(name) is Some {
        let text = op.signal_name(name)->Some_0;
        assert(is_plain_text(text)) by {
            assert forall|i: int| 0 <= i < text.len() implies ' ' <= #[trigger] text[i]
                <= '~' by {
                if i < name.len() {
                    assert(text[i] == name[i]);
                }
            }
        }
        lemma_plain_text_is_header_text(text);
    }
}

} // verus!
