use bugsnag::user::User;

#[test]
fn test_user_to_json() {
    let user = User::new("19", Some("Chris Raethke"), Some("chris@example.com"));
    assert_eq!(user.id, "19");
    assert_eq!(user.name, Some("Chris Raethke".to_string()));
    assert_eq!(user.email, Some("chris@example.com".to_string()));
}

#[test]
fn test_user_with_id_to_json() {
    let user = User::new("19", None, None);
    assert_eq!(user.id, "19");
    assert_eq!(user.name, None);
    assert_eq!(user.email, None);
}

#[test]
fn test_user_with_name_to_json() {
    let user = User::new("19", Some("Chris Raethke"), None);
    assert_eq!(user.id, "19");
    assert_eq!(user.name, Some("Chris Raethke".to_string()));
    assert_eq!(user.email, None);
}

#[test]
fn test_user_with_email_to_json() {
    let user = User::new("19", None, Some("chris@example.com"));
    assert_eq!(user.id, "19");
    assert_eq!(user.name, None);
    assert_eq!(user.email, Some("chris@example.com".to_string()));
}
