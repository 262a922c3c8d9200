use push_notifier::config::Config;
use push_notifier::enums::{DeviceType, NotificationStatus, NotificationType};
use push_notifier::errors::Error;
use push_notifier::record::{build_notification_row, NotificationRow};
use push_notifier::types::{FirebaseToken, Identifier};

#[test]
fn device_type_round_trips_its_text() {
    assert_eq!(DeviceType::Android.as_str(), "Android");
    assert_eq!(DeviceType::IOS.as_str(), "iOS");
    assert_eq!(DeviceType::Web.as_str(), "Web");
    assert_eq!(DeviceType::from_str("Android"), Ok(DeviceType::Android));
    assert_eq!(DeviceType::from_str("iOS"), Ok(DeviceType::IOS));
    assert_eq!(DeviceType::from_str("Web"), Err(()));
    assert_eq!(DeviceType::from_str("android"), Err(()));
}

#[test]
fn notification_type_round_trips_its_text() {
    assert_eq!(NotificationType::Test.text(), "Test");
    assert_eq!(NotificationType::TestWithTemplate.text(), "TestWithTemplate");
    assert_eq!(NotificationType::from_str("Test"), Ok(NotificationType::Test));
    assert_eq!(
        NotificationType::from_str("TestWithTemplate"),
        Ok(NotificationType::TestWithTemplate)
    );
    assert_eq!(NotificationType::from_str("Nope"), Err(()));
}

#[test]
fn notification_status_round_trips_its_text() {
    assert_eq!(NotificationStatus::Sent.as_str(), "Sent");
    assert_eq!(NotificationStatus::Failed.as_str(), "Failed");
    assert_eq!(NotificationStatus::InProgress.as_str(), "InProgress");
    assert_eq!(NotificationStatus::Canceled.as_str(), "Canceled");
    assert_eq!(NotificationStatus::from_str("Sent"), Ok(NotificationStatus::Sent));
    assert_eq!(NotificationStatus::from_str("gone"), Err(()));
}

#[test]
fn identifier_parses_and_prints_decimals() {
    assert_eq!(Identifier::from_str("42"), Ok(Identifier(42)));
    assert_eq!(Identifier::from_str("-7"), Ok(Identifier(-7)));
    assert_eq!(Identifier::from_str("+8"), Ok(Identifier(8)));
    assert_eq!(Identifier::from_str("0007"), Ok(Identifier(7)));
    assert_eq!(Identifier::from_str(""), Err(()));
    assert_eq!(Identifier::from_str("4x"), Err(()));
    assert_eq!(Identifier::from_str("2147483647"), Ok(Identifier(i32::MAX)));
    assert_eq!(Identifier::from_str("2147483648"), Err(()));
    assert_eq!(Identifier::from_str("-2147483648"), Ok(Identifier(i32::MIN)));
    assert_eq!(Identifier::from_str("-2147483649"), Err(()));
    assert_eq!(Identifier(105).text(), "105");
    assert_eq!(Identifier(0).text(), "0");
    assert_eq!(Identifier(-31).text(), "-31");
    assert_eq!(Identifier(i32::MIN).text(), "-2147483648");
    assert_eq!(Identifier::from(9), Identifier(9));
    assert_eq!(Identifier(9).value(), 9);
}

#[test]
fn firebase_token_wraps_its_text() {
    let token = FirebaseToken::from("tok".to_string());
    assert_eq!(token.text(), "tok");
}

#[test]
fn error_carries_text_status_and_masked_response() {
    let validation = Error::ValidationError("bad limit".to_string());
    assert_eq!(validation.http_status(), 400);
    assert_eq!(validation.response_text(), "bad limit");
    let header = Error::HeaderError("no header".to_string());
    assert_eq!(header.http_status(), 400);
    let missing = Error::NotFoundError("no user".to_string());
    assert_eq!(missing.http_status(), 404);
    assert_eq!(missing.response_text(), "no user");
    let provider = Error::ProviderError("socket closed".to_string());
    assert_eq!(provider.http_status(), 500);
    assert_eq!(provider.response_text(), "Internal Server Error");
    assert_eq!(provider.message(), "socket closed");
    let config = Error::ConfigError("missing var".to_string());
    assert_eq!(config.http_status(), 500);
    assert_eq!(config.response_text(), "Internal Server Error");
    let data = Error::MissingDataError("no template".to_string());
    assert_eq!(data.http_status(), 500);
    assert_eq!(data.response_text(), "no template");
    assert_eq!(data.message(), "no template");
}

#[test]
fn history_rows_carry_status_and_owner() {
    let row: NotificationRow =
        build_notification_row(Identifier(5), NotificationType::Test, None, None);
    let sent = row.as_sent_notification();
    // A real wall-clock reading: any date this side of September 2020.
    assert!(sent.creation_date.0 > 1_600_000_000_000);
    assert_eq!(sent.user_id, Identifier(5));
    assert_eq!(sent.notification_type, NotificationType::Test);
    assert_eq!(sent.notification_status, NotificationStatus::Sent);
    assert_eq!(sent.creation_date.0, sent.update_date.0);
    let failed = row.as_failed_notification();
    assert_eq!(failed.notification_status, NotificationStatus::Failed);
    let dated = row.history_with(NotificationStatus::Sent, 77);
    assert_eq!(dated.creation_date.0, 77);
    assert_eq!(dated.update_date.0, 77);
}

#[test]
fn notification_resources_path_is_fixed() {
    assert_eq!(
        Config::get_notification_resources_path(),
        "../resources/notifications.yml"
    );
}
