use registration::configuration::Environment;
use registration::register::classify_field;
use registration::register::parse_image_part;
use registration::register::parse_text_part;
use registration::register::register_parts;
use registration::register::FieldKind;
use registration::register::PartValue;
use registration::register::Registration;
use registration::users::ResourceId;

fn text(s: &str) -> PartValue {
    PartValue::Text(s.to_string())
}

fn reference(value: u128) -> PartValue {
    PartValue::Reference(ResourceId { value })
}

fn part(name: &str, value: PartValue) -> (String, PartValue) {
    (name.to_string(), value)
}

#[test]
fn classify_recognizes_the_five_field_names() {
    assert_eq!(classify_field("username"), FieldKind::Username);
    assert_eq!(classify_field("password"), FieldKind::Password);
    assert_eq!(classify_field("full_name"), FieldKind::FullName);
    assert_eq!(classify_field("email"), FieldKind::Email);
    assert_eq!(classify_field("profile_pic"), FieldKind::ProfilePic);
    assert_eq!(classify_field("foo"), FieldKind::Unknown);
    assert_eq!(classify_field("Username"), FieldKind::Unknown);
    assert_eq!(classify_field(""), FieldKind::Unknown);
}

#[test]
fn parse_text_part_decodes_utf8() {
    let parsed = parse_text_part("username", b"johndoe".to_vec()).unwrap();
    assert_eq!(parsed, "johndoe");
    let parsed = parse_text_part("full_name", "Jöhn Døe".as_bytes().to_vec()).unwrap();
    assert_eq!(parsed, "Jöhn Døe");
}

#[test]
fn parse_text_part_rejects_bad_utf8() {
    let err = parse_text_part("username", vec![0xff, 0xfe]).unwrap_err();
    assert_eq!(err.field, "username");
    assert_eq!(err.cause, "invalid utf-8 text");
}

#[test]
fn parse_image_part_needs_a_content_type() {
    let (mime, bytes) =
        parse_image_part("profile_pic", Some("image/png".to_string()), vec![1, 2, 3]).unwrap();
    assert_eq!(mime, "image/png");
    assert_eq!(bytes, vec![1, 2, 3]);

    let err = parse_image_part("profile_pic", None, vec![1, 2, 3]).unwrap_err();
    assert_eq!(err.field, "profile_pic");
    assert_eq!(err.cause, "missing image content type");
}

#[test]
fn register_with_valid_data_returns_the_new_user() {
    let email_record = 42;
    let parts = vec![
        part("username", text("johndoe")),
        part("password", text("12345")),
        part("full_name", text("John Doe")),
        part("email", reference(email_record)),
    ];
    let user = register_parts(parts).unwrap();
    assert_eq!(user.username(), "johndoe");
    assert_eq!(user.full_name(), Some("John Doe".to_string()));
    assert_eq!(user.passwd_hash(), "12345");
    assert_eq!(user.email_id(), ResourceId { value: email_record });
    assert_eq!(user.profile_pic_id(), None);
}

#[test]
fn register_with_missing_username_is_unprocessable() {
    let parts = vec![
        part("password", text("12345")),
        part("email", reference(7)),
    ];
    let errors = register_parts(parts).unwrap_err();
    assert_eq!(
        errors.messages_for("username"),
        Some(vec!["Missing field".to_string()])
    );
    assert_eq!(errors.key_count(), 1);
}

#[test]
fn unknown_field_is_recorded_and_fails_the_request() {
    let parts = vec![
        part("username", text("johndoe")),
        part("password", text("12345")),
        part("email", reference(7)),
        part("foo", text("bar")),
    ];
    let errors = register_parts(parts).unwrap_err();
    assert_eq!(
        errors.messages_for("foo"),
        Some(vec!["Invalid field".to_string()])
    );
    assert_eq!(errors.key_count(), 1);
}

#[test]
fn apply_part_routes_by_name_and_finish_validates() {
    let reg = Registration::new()
        .apply_part("username", text("johndoe"))
        .apply_part("password", text("12345"))
        .apply_part("email", reference(3));
    let user = reg.finish().unwrap();
    assert_eq!(user.username(), "johndoe");

    let reg = Registration::new().apply_part("bar", text("whatever"));
    let errors = reg.finish().unwrap_err();
    assert_eq!(
        errors.messages_for("bar"),
        Some(vec!["Invalid field".to_string()])
    );
}

#[test]
fn environment_names_round_trip() {
    assert_eq!(Environment::Local.as_str(), "local");
    assert_eq!(Environment::Production.as_str(), "production");
    assert!(matches!(
        Environment::try_from("LOCAL".to_string()),
        Ok(Environment::Local)
    ));
    assert!(matches!(
        Environment::try_from("Production".to_string()),
        Ok(Environment::Production)
    ));
    let err = Environment::try_from("staging".to_string()).unwrap_err();
    assert_eq!(err, "staging");
}
