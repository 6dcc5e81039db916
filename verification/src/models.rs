//! What an entity type offers to the dispatch pipeline: its name, its
//! operations against a store, who owns an entity, and the guard that decides
//! whether a caller may perform an operation.
//!
//! Every trait is generic over `C`, the connection to the store. An operation
//! takes the connection exclusively and is attempted once. What a store may
//! answer is not fixed here: each trait names a relation between the
//! connection before the call, the arguments, the connection after the call
//! and the result, and the operation promises an answer within that relation.
//! The pipeline's contracts are stated over these relations.

use crate::auth::UserId;
use crate::errors::{AuthError, ModelError};
use vstd::prelude::*;
use vstd::string::StringExecFns;

verus! {

/// An entity type: a record with a stable identity and a fixed name.
pub trait Model {
    /// The name of the entity type; event signals are derived from it.
    const MODEL_NAME: &'static str;

    /// The signal sent after an entity was created.
    fn event_created() -> (r: String)
        ensures
            r@ == Self::MODEL_NAME@ + "Created"@,
    {
        String::from_str(Self::MODEL_NAME).concat("Created")
    }

    /// The signal sent after an entity was updated.
    fn event_updated() -> (r: String)
        ensures
            r@ == Self::MODEL_NAME@ + "Updated"@,
    {
        String::from_str(Self::MODEL_NAME).concat("Updated")
    }

    /// The signal sent after an entity was deleted.
    fn event_deleted() -> (r: String)
        ensures
            r@ == Self::MODEL_NAME@ + "Deleted"@,
    {
        String::from_str(Self::MODEL_NAME).concat("Deleted")
    }
}

/// What `read_one` and `write_one` make of the store's answer: an entity that
/// is absent becomes `NotFound`, everything else is passed on.
pub open spec fn required<M>(found: Result<Option<M>, ModelError>) -> Result<M, ModelError> {
    match found {
        Ok(Some(m)) => Ok(m),
        Ok(None) => Err(ModelError::NotFound),
        Err(e) => Err(e),
    }
}

/// Turns "absent" into `NotFound`.
pub fn require_found<M>(found: Result<Option<M>, ModelError>) -> (r: Result<M, ModelError>)
    ensures
        r == required(found),
{
    match found {
        Ok(Some(m)) => Ok(m),
        Ok(None) => Err(ModelError::NotFound),
        Err(e) => Err(e),
    }
}

/// An entity type that records which identity owns each entity.
pub trait WithOwnerModel<C>: Sized + Model {
    /// The answers that `owner` may give.
    open spec fn owner_spec(pre: C, id: i64, post: C, r: Result<Option<i64>, ModelError>) -> bool {
        true
    }

    /// The answers that `all_for_owner` may give.
    open spec fn all_for_owner_spec(pre: C, user_id: i64, post: C, r: Result<Vec<Self>, ModelError>) -> bool {
        true
    }

    /// The identity that owns `id`. `Ok(None)` says that no owner is recorded
    /// for `id`, which is not the same as the entity being absent.
    fn owner(conn: &mut C, id: i64) -> (r: Result<Option<i64>, ModelError>)
        ensures
            Self::owner_spec(*old(conn), id, *final(conn), r),
    ;

    /// All entities that `user_id` owns.
    fn all_for_owner(conn: &mut C, user_id: i64) -> (r: Result<Vec<Self>, ModelError>)
        ensures
            Self::all_for_owner_spec(*old(conn), user_id, *final(conn), r),
    ;
}

/// An entity type that can be read by its numeric id.
pub trait ModelRead<C>: Sized + Model {
    /// The answers that `read` may give.
    open spec fn read_spec(pre: C, id: i64, post: C, r: Result<Option<Self>, ModelError>) -> bool {
        true
    }

    /// The entity with the given id, `Ok(None)` if there is none.
    fn read(conn: &mut C, id: i64) -> (r: Result<Option<Self>, ModelError>)
        ensures
            Self::read_spec(*old(conn), id, *final(conn), r),
    ;

    /// Reads once; an absent entity is `NotFound`.
    fn read_one(conn: &mut C, id: i64) -> (r: Result<Self, ModelError>)
        ensures
            exists|found: Result<Option<Self>, ModelError>|
                #[trigger] Self::read_spec(*old(conn), id, *final(conn), found) && r == required(
                    found,
                ),
    {
        let found = Self::read(conn, id);
        require_found(found)
    }
}

/// An entity type that can be updated. `Write` holds the fields that an
/// update may set.
pub trait ModelWrite<C>: Sized + Model {
    type Write: Sized + Send + Sync;

    /// The answers that `write` may give.
    open spec fn write_spec(
        pre: C,
        id: i64,
        data: Self::Write,
        post: C,
        r: Result<Option<Self>, ModelError>,
    ) -> bool {
        true
    }

    /// Updates the entity with the given id and returns it as updated,
    /// `Ok(None)` if the id no longer exists.
    fn write(conn: &mut C, id: i64, data: Self::Write) -> (r: Result<Option<Self>, ModelError>)
        ensures
            Self::write_spec(*old(conn), id, data, *final(conn), r),
    ;

    /// Writes once; an absent entity is `NotFound`.
    fn write_one(conn: &mut C, id: i64, data: Self::Write) -> (r: Result<Self, ModelError>)
        ensures
            exists|found: Result<Option<Self>, ModelError>|
                #[trigger] Self::write_spec(*old(conn), id, data, *final(conn), found) && r
                    == required(found),
    {
        let found = Self::write(conn, id, data);
        require_found(found)
    }
}

/// An entity type that can be created. `Create` holds the fields that the
/// caller supplies; the store fills in the rest.
pub trait ModelCreate<C>: Sized + Model {
    type Create: Sized + Send + Sync;

    /// The answers that `create` may give.
    open spec fn create_spec(pre: C, data: Self::Create, post: C, r: Result<Self, ModelError>) -> bool {
        true
    }

    /// Creates an entity and returns it.
    fn create(conn: &mut C, data: Self::Create) -> (r: Result<Self, ModelError>)
        ensures
            Self::create_spec(*old(conn), data, *final(conn), r),
    ;
}

/// An entity type that can be deleted by its numeric id.
pub trait ModelDelete<C>: Sized + Model {
    /// The answers that `delete` may give.
    open spec fn delete_spec(pre: C, id: i64, post: C, r: Result<Self, ModelError>) -> bool {
        true
    }

    /// Deletes the entity with the given id and returns it; `NotFound` when
    /// nothing matched.
    fn delete(conn: &mut C, id: i64) -> (r: Result<Self, ModelError>)
        ensures
            Self::delete_spec(*old(conn), id, *final(conn), r),
    ;
}

/// The guard in front of `ModelRead::read`.
pub trait AuthModelRead<C>: ModelRead<C> {
    /// The verdicts that `can_read` may give.
    open spec fn can_read_spec(
        pre: C,
        id: i64,
        user_id: Option<UserId>,
        post: C,
        r: Result<(), AuthError>,
    ) -> bool {
        true
    }

    /// Whether the caller may read `id`. An anonymous caller is always
    /// answered with `Unauthenticated`.
    fn can_read(conn: &mut C, id: i64, user_id: Option<UserId>) -> (r: Result<(), AuthError>)
        ensures
            Self::can_read_spec(*old(conn), id, user_id, *final(conn), r),
            user_id is None ==> r == Err::<(), AuthError>(AuthError::Unauthenticated),
    ;
}

/// The guard in front of `ModelWrite::write`. It sees the data that the write
/// will be made with.
pub trait AuthModelWrite<C>: ModelWrite<C> {
    /// The verdicts that `can_write` may give.
    open spec fn can_write_spec(
        pre: C,
        id: i64,
        user_id: Option<UserId>,
        data: <Self as ModelWrite<C>>::Write,
        post: C,
        r: Result<(), AuthError>,
    ) -> bool {
        true
    }

    /// Whether the caller may write `data` to `id`. An anonymous caller is
    /// always answered with `Unauthenticated`.
    fn can_write(
        conn: &mut C,
        id: i64,
        user_id: Option<UserId>,
        data: &<Self as ModelWrite<C>>::Write,
    ) -> (r: Result<(), AuthError>)
        ensures
            Self::can_write_spec(*old(conn), id, user_id, *data, *final(conn), r),
            user_id is None ==> r == Err::<(), AuthError>(AuthError::Unauthenticated),
    ;
}

/// The guard in front of `ModelCreate::create`. It sees the data that the
/// entity will be created from.
pub trait AuthModelCreate<C>: ModelCreate<C> {
    /// The verdicts that `can_create` may give.
    open spec fn can_create_spec(
        pre: C,
        user_id: Option<UserId>,
        data: <Self as ModelCreate<C>>::Create,
        post: C,
        r: Result<(), AuthError>,
    ) -> bool {
        true
    }

    /// Whether the caller may create an entity from `data`. An anonymous
    /// caller is always answered with `Unauthenticated`.
    fn can_create(
        conn: &mut C,
        user_id: Option<UserId>,
        data: &<Self as ModelCreate<C>>::Create,
    ) -> (r: Result<(), AuthError>)
        ensures
            Self::can_create_spec(*old(conn), user_id, *data, *final(conn), r),
            user_id is None ==> r == Err::<(), AuthError>(AuthError::Unauthenticated),
    ;
}

/// The guard in front of `ModelDelete::delete`.
pub trait AuthModelDelete<C>: ModelDelete<C> {
    /// The verdicts that `can_delete` may give.
    open spec fn can_delete_spec(
        pre: C,
        id: i64,
        user_id: Option<UserId>,
        post: C,
        r: Result<(), AuthError>,
    ) -> bool {
        true
    }

    /// Whether the caller may delete `id`. An anonymous caller is always
    /// answered with `Unauthenticated`.
    fn can_delete(conn: &mut C, id: i64, user_id: Option<UserId>) -> (r: Result<(), AuthError>)
        ensures
            Self::can_delete_spec(*old(conn), id, user_id, *final(conn), r),
            user_id is None ==> r == Err::<(), AuthError>(AuthError::Unauthenticated),
    ;
}

/// The ownership policy, given an authenticated caller and the store's answer
/// to "who owns this id": a failed lookup is passed on inside `Model`; an id
/// without a recorded owner is `Unauthorized`, so that the verdict does not
/// tell a stranger whether the entity exists; an owner other than the caller
/// is `Unauthorized`; the owner is let through.
pub open spec fn owner_verdict(user_id: UserId, owner: Result<Option<i64>, ModelError>) -> Result<
    (),
    AuthError,
> {
    match owner {
        Err(e) => Err(AuthError::Model(e)),
        Ok(None) => Err(AuthError::Unauthorized),
        Ok(Some(o)) => if o == user_id.0 {
            Ok(())
        } else {
            Err(AuthError::Unauthorized)
        },
    }
}

/// The verdicts of the ownership guard on an entity type: an anonymous caller
/// is `Unauthenticated` and the store is not asked; for any other caller the
/// owner of `id` is looked up once and the verdict is `owner_verdict` of the
/// answer.
pub open spec fn owner_guard_spec<C, M: WithOwnerModel<C>>(
    pre: C,
    id: i64,
    user_id: Option<UserId>,
    post: C,
    r: Result<(), AuthError>,
) -> bool {
    match user_id {
        None => post == pre && r == Err::<(), AuthError>(AuthError::Unauthenticated),
        Some(uid) => exists|owner: Result<Option<i64>, ModelError>|
            #[trigger] M::owner_spec(pre, id, post, owner) && r == owner_verdict(uid, owner),
    }
}

/// Applies the ownership policy to the store's answer.
pub fn check_owner(user_id: UserId, owner: Result<Option<i64>, ModelError>) -> (r: Result<
    (),
    AuthError,
>)
    ensures
        r == owner_verdict(user_id, owner),
{
    match owner {
        Err(e) => Err(AuthError::from(e)),
        Ok(None) => Err(AuthError::Unauthorized),
        Ok(Some(o)) => {
            if o != user_id.0 {
                Err(AuthError::Unauthorized)
            } else {
                Ok(())
            }
        },
    }
}

/// The ownership guard: the guard of every operation on an entity type that
/// opted into the ownership policy.
pub fn owner_guard<C, M: WithOwnerModel<C>>(conn: &mut C, id: i64, user_id: Option<UserId>) -> (r:
    Result<(), AuthError>)
    ensures
        owner_guard_spec::<C, M>(*old(conn), id, user_id, *final(conn), r),
        user_id is None ==> r == Err::<(), AuthError>(AuthError::Unauthenticated),
{
    match user_id {
        None => Err(AuthError::Unauthenticated),
        Some(uid) => {
            let owner = M::owner(conn, id);
            check_owner(uid, owner)
        },
    }
}

/// Opts an entity type into the ownership policy for reading.
pub trait OwnerAuthModelRead<C>: WithOwnerModel<C> + ModelRead<C> {
}

impl<C, M: OwnerAuthModelRead<C>> AuthModelRead<C> for M {
    open spec fn can_read_spec(
        pre: C,
        id: i64,
        user_id: Option<UserId>,
        post: C,
        r: Result<(), AuthError>,
    ) -> bool {
        owner_guard_spec::<C, M>(pre, id, user_id, post, r)
    }

    fn can_read(conn: &mut C, id: i64, user_id: Option<UserId>) -> (r: Result<(), AuthError>) {
        owner_guard::<C, M>(conn, id, user_id)
    }
}

/// Opts an entity type into the ownership policy for writing. The data of
/// the write plays no part in the verdict.
pub trait OwnerAuthModelWrite<C>: WithOwnerModel<C> + ModelWrite<C> {
}

impl<C, M: OwnerAuthModelWrite<C>> AuthModelWrite<C> for M {
    open spec fn can_write_spec(
        pre: C,
        id: i64,
        user_id: Option<UserId>,
        data: <M as ModelWrite<C>>::Write,
        post: C,
        r: Result<(), AuthError>,
    ) -> bool {
        owner_guard_spec::<C, M>(pre, id, user_id, post, r)
    }

    fn can_write(
        conn: &mut C,
        id: i64,
        user_id: Option<UserId>,
        _data: &<M as ModelWrite<C>>::Write,
    ) -> (r: Result<(), AuthError>) {
        owner_guard::<C, M>(conn, id, user_id)
    }
}

/// Opts an entity type into the ownership policy for deleting.
pub trait OwnerAuthModelDelete<C>: WithOwnerModel<C> + ModelDelete<C> {
}

impl<C, M: OwnerAuthModelDelete<C>> AuthModelDelete<C> for M {
    open spec fn can_delete_spec(
        pre: C,
        id: i64,
        user_id: Option<UserId>,
        post: C,
        r: Result<(), AuthError>,
    ) -> bool {
        owner_guard_spec::<C, M>(pre, id, user_id, post, r)
    }

    fn can_delete(conn: &mut C, id: i64, user_id: Option<UserId>) -> (r: Result<(), AuthError>) {
        owner_guard::<C, M>(conn, id, user_id)
    }
}

/// An anonymous caller is refused by the ownership guard as
/// `Unauthenticated`, whatever the id, and the store is left untouched.
pub proof fn lemma_anonymous_is_unauthenticated<C, M: WithOwnerModel<C>>(
    pre: C,
    id: i64,
    post: C,
    r: Result<(), AuthError>,
)
    requires
        owner_guard_spec::<C, M>(pre, id, None, post, r),
    ensures
        r == Err::<(), AuthError>(AuthError::Unauthenticated),
        post == pre,
{
}

/// An authenticated caller who asks for an id without a recorded owner is
/// refused as `Unauthorized`. The guard never answers `NotFound` of its own
/// accord: a domain error in its verdict is the one that the lookup failed
/// with.
pub proof fn lemma_no_owner_is_unauthorized(
    user_id: UserId,
    owner: Result<Option<i64>, ModelError>,
)
    ensures
        owner_verdict(user_id, Ok(None)) == Err::<(), AuthError>(AuthError::Unauthorized),
        owner_verdict(user_id, owner) matches Err(AuthError::Model(e)) ==> owner == Err::<
            Option<i64>,
            ModelError,
        >(e),
        owner is Ok ==> !(owner_verdict(user_id, owner) matches Err(AuthError::Model(_))),
{
}

/// The owner is let through and nobody else is: with a recorded owner the
/// verdict is success exactly when the caller is that owner, and
/// `Unauthorized` otherwise. Success is never given on any other answer of
/// the store.
pub proof fn lemma_owner_decides(user_id: UserId, recorded: i64, owner: Result<Option<i64>, ModelError>)
    ensures
        recorded == user_id.0 ==> owner_verdict(user_id, Ok(Some(recorded))) == Ok::<
            (),
            AuthError,
        >(()),
        recorded != user_id.0 ==> owner_verdict(user_id, Ok(Some(recorded))) == Err::<
            (),
            AuthError,
        >(AuthError::Unauthorized),
        owner_verdict(user_id, owner) is Ok <==> owner == Ok::<Option<i64>, ModelError>(
            Some(user_id.0),
        ),
        !(owner_verdict(user_id, owner) matches Err(AuthError::Unauthenticated)),
{
}

} // verus!
