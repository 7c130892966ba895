use mousebridge::status::{permission_from_key, permission_key, Permission};

#[test]
fn permission_keys_are_stable_and_distinct() {
    assert_eq!(permission_key(Permission::Accessibility), "accessibility");
    assert_eq!(
        permission_key(Permission::InputMonitoring),
        "input-monitoring"
    );
}

#[test]
fn every_permission_key_round_trips() {
    for p in Permission::all() {
        assert_eq!(permission_from_key(permission_key(p)), Some(p));
    }
}

#[test]
fn an_unknown_key_from_the_frontend_is_rejected() {
    assert_eq!(permission_from_key("camera"), None);
    assert_eq!(permission_from_key(""), None);
    assert_eq!(permission_from_key("Accessibility"), None);
}
