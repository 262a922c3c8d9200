use push_notifier::catalog::{NotificationInformation, NotificationsRule};

fn template(title: &str, body: &str) -> NotificationInformation {
    NotificationInformation {
        title: title.to_string(),
        body: body.to_string(),
        params: None,
    }
}

fn pairs(items: &[(&str, &str)]) -> Vec<(String, String)> {
    items.iter().map(|(k, v)| (k.to_string(), v.to_string())).collect()
}

#[test]
fn substitute_with_absent_map_leaves_template_unchanged() {
    let mut info = template("Hi %name%", "Bye");
    info.parse_with_template_data(&None);
    assert_eq!(info.title, "Hi %name%");
    assert_eq!(info.body, "Bye");
}

#[test]
fn substitute_with_empty_map_leaves_template_unchanged() {
    let mut info = template("Hi %name%", "Bye %name%");
    info.parse_with_template_data(&Some(Vec::new()));
    assert_eq!(info.title, "Hi %name%");
    assert_eq!(info.body, "Bye %name%");
}

#[test]
fn substitute_replaces_every_occurrence() {
    let mut info = template("%who% and %who%", "hello %who%");
    info.parse_with_template_data(&Some(pairs(&[("who", "Ada")])));
    assert_eq!(info.title, "Ada and Ada");
    assert_eq!(info.body, "hello Ada");
}

#[test]
fn substitute_ignores_keys_without_placeholder() {
    let mut info = template("Hi %name%", "Bye");
    info.parse_with_template_data(&Some(pairs(&[("name", "Bob"), ("unused", "x")])));
    assert_eq!(info.title, "Hi Bob");
    assert_eq!(info.body, "Bye");
}

#[test]
fn substitute_leaves_unmatched_placeholders_verbatim() {
    let mut info = template("Hi %name%, it is %day%", "Bye");
    info.parse_with_template_data(&Some(pairs(&[("name", "Bob")])));
    assert_eq!(info.title, "Hi Bob, it is %day%");
}

#[test]
fn substitute_applies_pairs_in_order() {
    let mut info = template("%a%", "");
    info.parse_with_template_data(&Some(pairs(&[("a", "%b%"), ("b", "two")])));
    assert_eq!(info.title, "two");
}

#[test]
fn catalog_lookup_finds_stored_kind() {
    let catalog = NotificationsRule(vec![
        ("Test".to_string(), template("Hi %name%", "Bye")),
        ("TestWithTemplate".to_string(), template("T %x%", "B %x%")),
    ]);
    let hit = catalog.get_by_key("TestWithTemplate").expect("stored kind");
    assert_eq!(hit.title, "T %x%");
    assert!(catalog.get_by_key("Missing").is_none());
}
