use break_stack::auth::UserId;
use break_stack::errors::{AuthError, ModelError};
use break_stack::models::{
    check_owner, owner_guard, AuthModelRead, Model, ModelRead, OwnerAuthModelRead, WithOwnerModel,
};

/// A store held in memory: rows of (id, owner), and a count of the calls made.
struct Store {
    rows: Vec<(i64, i64)>,
    calls: usize,
}

#[derive(Debug, PartialEq)]
struct Widget {
    id: i64,
}

impl Model for Widget {
    const MODEL_NAME: &'static str = "Widget";
}

impl WithOwnerModel<Store> for Widget {
    fn owner(conn: &mut Store, id: i64) -> Result<Option<i64>, ModelError> {
        conn.calls += 1;
        Ok(conn.rows.iter().find(|r| r.0 == id).map(|r| r.1))
    }

    fn all_for_owner(conn: &mut Store, user_id: i64) -> Result<Vec<Self>, ModelError> {
        conn.calls += 1;
        Ok(conn.rows.iter().filter(|r| r.1 == user_id).map(|r| Widget { id: r.0 }).collect())
    }
}

impl ModelRead<Store> for Widget {
    fn read(conn: &mut Store, id: i64) -> Result<Option<Self>, ModelError> {
        conn.calls += 1;
        Ok(conn.rows.iter().find(|r| r.0 == id).map(|r| Widget { id: r.0 }))
    }
}

impl OwnerAuthModelRead<Store> for Widget {}

#[test]
fn event_names_are_derived_from_the_model_name() {
    assert_eq!(Widget::event_created(), "WidgetCreated");
    assert_eq!(Widget::event_updated(), "WidgetUpdated");
    assert_eq!(Widget::event_deleted(), "WidgetDeleted");
}

#[test]
fn read_one_turns_absent_into_not_found() {
    let mut store = Store { rows: vec![(7, 7)], calls: 0 };
    assert_eq!(Widget::read_one(&mut store, 7).unwrap(), Widget { id: 7 });
    assert!(matches!(Widget::read_one(&mut store, 999), Err(ModelError::NotFound)));
}

#[test]
fn default_guard_follows_the_ownership_policy() {
    let mut store = Store { rows: vec![(7, 7)], calls: 0 };
    assert!(matches!(Widget::can_read(&mut store, 7, Some(UserId(7))), Ok(())));
    assert!(matches!(
        Widget::can_read(&mut store, 7, Some(UserId(8))),
        Err(AuthError::Unauthorized)
    ));
    assert!(matches!(
        Widget::can_read(&mut store, 999, Some(UserId(8))),
        Err(AuthError::Unauthorized)
    ));
    let before = store.calls;
    assert!(matches!(Widget::can_read(&mut store, 7, None), Err(AuthError::Unauthenticated)));
    assert_eq!(store.calls, before);
    assert!(matches!(
        owner_guard::<Store, Widget>(&mut store, 7, Some(UserId(7))),
        Ok(())
    ));
}

#[test]
fn check_owner_passes_a_failed_lookup_on() {
    assert!(matches!(
        check_owner(UserId(1), Err(ModelError::Conflict)),
        Err(AuthError::Model(ModelError::Conflict))
    ));
    assert!(matches!(check_owner(UserId(1), Ok(Some(1))), Ok(())));
    assert!(matches!(check_owner(UserId(1), Ok(Some(2))), Err(AuthError::Unauthorized)));
    assert!(matches!(check_owner(UserId(1), Ok(None)), Err(AuthError::Unauthorized)));
}
