use registration::users::InsertableUserBuilder;
use registration::users::ResourceId;

fn expect_missing(errors: &registration::erro::ErrorMap, field: &str) {
    let msgs = errors
        .messages_for(field)
        .unwrap_or_else(|| panic!("no entry for {field}"));
    assert_eq!(msgs, vec!["Missing field".to_string()]);
}

#[test]
fn empty_builder_yields_exactly_three_errors() {
    let errors = InsertableUserBuilder::new().build().unwrap_err();
    assert_eq!(errors.key_count(), 3);
    expect_missing(&errors, "username");
    expect_missing(&errors, "password");
    expect_missing(&errors, "email");
    assert!(errors.messages_for("full_name").is_none());
    assert!(errors.messages_for("profile_pic").is_none());
}

#[test]
fn builder_missing_username_reports_only_username() {
    let errors = InsertableUserBuilder::new()
        .with_password("12345".to_string())
        .with_email_id(ResourceId { value: 9 })
        .with_full_name("John Doe".to_string())
        .build()
        .unwrap_err();
    assert_eq!(errors.key_count(), 1);
    expect_missing(&errors, "username");
}

#[test]
fn builder_missing_password_and_email_reports_both() {
    let errors = InsertableUserBuilder::new()
        .with_username("johndoe".to_string())
        .with_profile_pic_id(ResourceId { value: 3 })
        .build()
        .unwrap_err();
    assert_eq!(errors.key_count(), 2);
    expect_missing(&errors, "password");
    expect_missing(&errors, "email");
    assert!(errors.messages_for("username").is_none());
}

#[test]
fn builder_with_all_required_fields_succeeds() {
    let user = InsertableUserBuilder::new()
        .with_username("johndoe".to_string())
        .with_password("12345".to_string())
        .with_email_id(ResourceId { value: 11 })
        .build()
        .unwrap();
    assert_eq!(user.username(), "johndoe");
    assert_eq!(user.passwd_hash(), "12345");
    assert_eq!(user.email_id(), ResourceId { value: 11 });
    assert_eq!(user.full_name(), None);
    assert_eq!(user.profile_pic_id(), None);
}

#[test]
fn builder_keeps_optional_fields() {
    let user = InsertableUserBuilder::new()
        .with_username("johndoe".to_string())
        .with_full_name("John Doe".to_string())
        .with_password("12345".to_string())
        .with_email_id(ResourceId { value: 11 })
        .with_profile_pic_id(ResourceId { value: 12 })
        .build()
        .unwrap();
    assert_eq!(user.username(), "johndoe");
    assert_eq!(user.full_name(), Some("John Doe".to_string()));
    assert_eq!(user.profile_pic_id(), Some(ResourceId { value: 12 }));
    assert_eq!(user.email_id(), ResourceId { value: 11 });
}

#[test]
fn later_setter_call_wins() {
    let user = InsertableUserBuilder::new()
        .with_username("first".to_string())
        .with_username("second".to_string())
        .with_password("12345".to_string())
        .with_email_id(ResourceId { value: 1 })
        .build()
        .unwrap();
    assert_eq!(user.username(), "second");
}

#[test]
fn default_builder_is_empty() {
    let errors = InsertableUserBuilder::default().build().unwrap_err();
    assert_eq!(errors.key_count(), 3);
}
