use telescope::fields::FieldVisitor;

#[test]
fn a_new_visitor_has_seen_nothing() {
    let visitor = FieldVisitor::new();
    assert_eq!(visitor.get("message"), None);
    assert_eq!(visitor.get(""), None);
}

#[test]
fn a_visited_field_is_found_by_its_name() {
    let mut visitor = FieldVisitor::new();
    visitor.record_debug("message", "hello".to_string());
    visitor.record_debug("user", "\"ann\"".to_string());
    assert_eq!(visitor.get("message"), Some(&"hello".to_string()));
    assert_eq!(visitor.get("user"), Some(&"\"ann\"".to_string()));
    assert_eq!(visitor.get("other"), None);
    assert_eq!(visitor.get("Message"), None);
}

#[test]
fn a_later_visit_replaces_an_earlier_one() {
    let mut visitor = FieldVisitor::new();
    visitor.record_debug("message", "first".to_string());
    visitor.record_debug("count", "1".to_string());
    visitor.record_debug("message", "second".to_string());
    assert_eq!(visitor.get("message"), Some(&"second".to_string()));
    assert_eq!(visitor.get("count"), Some(&"1".to_string()));
}
