use registration::erro::add_error;
use registration::erro::merge_errors;
use registration::erro::ErrorMap;

fn from_pairs(pairs: &[(&str, &str)]) -> ErrorMap {
    let mut m = ErrorMap::new();
    for (field, message) in pairs {
        m = add_error(m, field.to_string(), message.to_string());
    }
    m
}

#[test]
fn new_accumulator_is_empty() {
    let m = ErrorMap::new();
    assert!(m.is_empty());
    assert_eq!(m.key_count(), 0);
    assert!(m.messages_for("username").is_none());
}

#[test]
fn add_error_creates_the_list() {
    let m = from_pairs(&[("username", "Missing field")]);
    assert!(!m.is_empty());
    assert_eq!(m.key_count(), 1);
    assert_eq!(
        m.messages_for("username"),
        Some(vec!["Missing field".to_string()])
    );
}

#[test]
fn add_error_appends_in_order() {
    let m = from_pairs(&[("username", "too short"), ("username", "taken")]);
    assert_eq!(m.key_count(), 1);
    assert_eq!(
        m.messages_for("username"),
        Some(vec!["too short".to_string(), "taken".to_string()])
    );
}

#[test]
fn merge_concatenates_shared_keys_left_first() {
    let a = from_pairs(&[("username", "from a"), ("email", "only a")]);
    let b = from_pairs(&[("username", "from b"), ("foo", "only b")]);
    let m = merge_errors(a, b);
    assert_eq!(m.key_count(), 3);
    assert_eq!(
        m.messages_for("username"),
        Some(vec!["from a".to_string(), "from b".to_string()])
    );
    assert_eq!(m.messages_for("email"), Some(vec!["only a".to_string()]));
    assert_eq!(m.messages_for("foo"), Some(vec!["only b".to_string()]));
}

#[test]
fn merge_with_empty_is_identity() {
    let a = from_pairs(&[("username", "x"), ("email", "y")]);
    let m = merge_errors(a, ErrorMap::new());
    assert_eq!(m.key_count(), 2);
    assert_eq!(m.messages_for("username"), Some(vec!["x".to_string()]));
    assert_eq!(m.messages_for("email"), Some(vec!["y".to_string()]));

    let a = from_pairs(&[("username", "x"), ("email", "y")]);
    let m = merge_errors(ErrorMap::new(), a);
    assert_eq!(m.key_count(), 2);
    assert_eq!(m.messages_for("username"), Some(vec!["x".to_string()]));
    assert_eq!(m.messages_for("email"), Some(vec!["y".to_string()]));
}

#[test]
fn merge_is_associative_on_concrete_values() {
    let make = || {
        (
            from_pairs(&[("k", "a1"), ("x", "a2")]),
            from_pairs(&[("k", "b1")]),
            from_pairs(&[("k", "c1"), ("y", "c2")]),
        )
    };
    let (a, b, c) = make();
    let left = merge_errors(merge_errors(a, b), c);
    let (a, b, c) = make();
    let right = merge_errors(a, merge_errors(b, c));
    for key in ["k", "x", "y"] {
        assert_eq!(left.messages_for(key), right.messages_for(key));
    }
    assert_eq!(left.key_count(), right.key_count());
}

#[test]
fn merge_commutes_on_disjoint_keys() {
    let ab = merge_errors(
        from_pairs(&[("username", "u")]),
        from_pairs(&[("email", "e")]),
    );
    let ba = merge_errors(
        from_pairs(&[("email", "e")]),
        from_pairs(&[("username", "u")]),
    );
    for key in ["username", "email"] {
        assert_eq!(ab.messages_for(key), ba.messages_for(key));
    }
    assert_eq!(ab.key_count(), ba.key_count());
}

#[test]
fn merge_keeps_every_message_of_both_sides() {
    let a = from_pairs(&[("k", "a1"), ("k", "a2"), ("x", "a3")]);
    let b = from_pairs(&[("k", "b1"), ("y", "b2")]);
    let m = merge_errors(a, b);
    let k = m.messages_for("k").unwrap();
    for msg in ["a1", "a2", "b1"] {
        assert!(k.iter().any(|s| s == msg));
    }
    assert!(m.messages_for("x").unwrap().iter().any(|s| s == "a3"));
    assert!(m.messages_for("y").unwrap().iter().any(|s| s == "b2"));
}
