use push_notifier::catalog::{NotificationInformation, NotificationsRule};
use push_notifier::enums::DeviceType;
use push_notifier::errors::Error;
use push_notifier::messages::get_message;
use push_notifier::record::NotificationRow;
use push_notifier::types::FirebaseToken;

fn catalog_with_test_entry() -> NotificationsRule {
    NotificationsRule(vec![(
        "Test".to_string(),
        NotificationInformation {
            title: "Hi %name%".to_string(),
            body: "Bye".to_string(),
            params: None,
        },
    )])
}

fn record(extra: Option<Vec<(String, String)>>, template: Option<Vec<(String, String)>>) -> NotificationRow {
    NotificationRow {
        user_id: 42,
        notification_type: "Test".to_string(),
        number_of_tries: 0,
        extra_data: extra,
        template_data: template,
    }
}

fn token() -> FirebaseToken {
    FirebaseToken("tok-1".to_string())
}

#[test]
fn title_is_verbatim_when_template_data_is_absent() {
    let catalog = catalog_with_test_entry();
    let row = record(None, None);
    let m = get_message(&row, &DeviceType::Android, &token(), &catalog).expect("built");
    assert_eq!(m.notification.title, "Hi %name%");
    assert_eq!(m.notification.body, "Bye");
}

#[test]
fn android_message_carries_data_map_and_platform_notification() {
    let catalog = catalog_with_test_entry();
    let extra = vec![("k".to_string(), "v".to_string())];
    let row = record(Some(extra.clone()), None);
    let m = get_message(&row, &DeviceType::Android, &token(), &catalog).expect("built");
    assert_eq!(m.data, Some(extra.clone()));
    let android = m.android.expect("android block");
    assert_eq!(android.data, Some(extra));
    assert!(android.priority_high);
    assert_eq!(android.notification.title, "Hi %name%");
    assert!(m.apns.is_none());
    assert!(m.webpush.is_none());
    assert_eq!(m.target_token, "tok-1");
}

#[test]
fn ios_message_carries_extra_data_only_in_apns_payload() {
    let catalog = catalog_with_test_entry();
    let extra = vec![("k".to_string(), "v".to_string())];
    let row = record(Some(extra.clone()), None);
    let m = get_message(&row, &DeviceType::IOS, &token(), &catalog).expect("built");
    assert!(m.data.is_none());
    assert!(m.android.is_none());
    assert!(m.webpush.is_none());
    assert_eq!(m.apns.expect("apns block").payload, Some(extra));
}

#[test]
fn web_message_carries_extra_data_only_in_webpush_block() {
    let catalog = catalog_with_test_entry();
    let extra = vec![("k".to_string(), "v".to_string())];
    let row = record(Some(extra.clone()), None);
    let m = get_message(&row, &DeviceType::Web, &token(), &catalog).expect("built");
    assert!(m.data.is_none());
    assert!(m.android.is_none());
    assert!(m.apns.is_none());
    assert_eq!(m.webpush.expect("webpush block").data, Some(extra));
}

#[test]
fn unknown_kind_yields_missing_data_error() {
    let catalog = catalog_with_test_entry();
    let mut row = record(None, None);
    row.notification_type = "TestWithTemplate".to_string();
    let err = get_message(&row, &DeviceType::Android, &token(), &catalog).unwrap_err();
    match err {
        Error::MissingDataError(text) => {
            assert_eq!(text, "Missing key for notifications: TestWithTemplate");
        }
        other => panic!("expected MissingDataError, got {:?}", other),
    }
}

#[test]
fn template_data_is_substituted_into_built_message() {
    let catalog = catalog_with_test_entry();
    let row = record(None, Some(vec![("name".to_string(), "Bob".to_string())]));
    let m = get_message(&row, &DeviceType::IOS, &token(), &catalog).expect("built");
    assert_eq!(m.notification.title, "Hi Bob");
    assert_eq!(m.notification.body, "Bye");
}
