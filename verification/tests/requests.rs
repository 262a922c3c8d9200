use push_notifier::dtos::{
    get_user_context, SendUsersNotificationDto, UserIdPathParameterDto,
};
use push_notifier::enums::DeviceType;
use push_notifier::errors::Error;
use push_notifier::pagination::{build_paginated_users, PaginationDto, UserDto};
use push_notifier::types::{UserFromRow, UsersWithExtraDataDto};

fn pagination(page: &str, limit: &str) -> PaginationDto {
    PaginationDto { page: page.to_string(), limit: limit.to_string() }
}

fn expect_validation(r: Result<(), Error>, text: &str) {
    match r {
        Err(Error::ValidationError(t)) => assert_eq!(t, text),
        other => panic!("expected ValidationError, got {:?}", other),
    }
}

#[test]
fn pagination_accepts_page_and_limit_in_range() {
    let dto = pagination("2", "50");
    assert!(dto.validate().is_ok());
    assert_eq!(dto.get_offset(), 1);
    assert_eq!(dto.get_limit(), 50);
}

#[test]
fn pagination_rejects_limit_out_of_range() {
    expect_validation(
        pagination("1", "101").validate(),
        "limit must be inferior or equal than 100",
    );
    expect_validation(
        pagination("1", "9").validate(),
        "limit must be superior or equal than 10",
    );
    expect_validation(pagination("1", "ten").validate(), "limit must be int");
}

#[test]
fn pagination_rejects_bad_page() {
    expect_validation(pagination("0", "10").validate(), "page must be superior than 0");
    expect_validation(pagination("-3", "10").validate(), "page must be superior than 0");
    expect_validation(pagination("one", "10").validate(), "page must be int");
}

#[test]
fn pagination_checks_the_page_first() {
    expect_validation(pagination("zero", "3").validate(), "page must be int");
}

#[test]
fn paginated_listing_carries_the_paging_arithmetic() {
    let rows = vec![UserFromRow {
        id: 7,
        device_id: "dev".to_string(),
        device_type: "Android".to_string(),
        token: None,
    }];
    let users: Vec<UserDto> = rows.iter().map(|r| r.into()).collect();
    let page = build_paginated_users(95, 10, 1, users);
    assert_eq!(page.total_count, 95);
    assert_eq!(page.total_page, 9);
    assert_eq!(page.next_page, Some(3));
    assert_eq!(page.previous_page, Some(1));
    assert_eq!(page.users.len(), 1);
    assert_eq!(page.users[0].id, 7);
    assert_eq!(page.users[0].device_id, "dev");

    let first = build_paginated_users(20, 10, 0, Vec::new());
    assert_eq!(first.total_page, 2);
    assert_eq!(first.next_page, None);
    assert_eq!(first.previous_page, None);
}

#[test]
fn bulk_send_rejects_empty_user_list() {
    let dto = SendUsersNotificationDto { notification_type: "Test".to_string(), users: vec![] };
    expect_validation(dto.validate(), "ids cannot be empty");
}

#[test]
fn bulk_send_rejects_unknown_kind() {
    let dto = SendUsersNotificationDto {
        notification_type: "Mystery".to_string(),
        users: vec![UsersWithExtraDataDto { id: 1, extra_data: None, template_data: None }],
    };
    expect_validation(dto.validate(), "Bad notification type given");
}

#[test]
fn bulk_send_accepts_known_kind_and_users() {
    let dto = SendUsersNotificationDto {
        notification_type: "TestWithTemplate".to_string(),
        users: vec![UsersWithExtraDataDto { id: 1, extra_data: None, template_data: None }],
    };
    assert!(dto.validate().is_ok());
}

#[test]
fn path_parameter_parses_or_rejects() {
    let good = UserIdPathParameterDto { user_id: "31".to_string() };
    assert_eq!(good.get_id_or_error().unwrap(), 31);
    let bad = UserIdPathParameterDto { user_id: "x31".to_string() };
    match bad.get_id_or_error() {
        Err(Error::ValidationError(t)) => assert_eq!(t, "user_id must be integer"),
        other => panic!("expected ValidationError, got {:?}", other),
    }
}

#[test]
fn user_context_requires_both_headers_and_a_known_platform() {
    match get_user_context(None, Some("Android".to_string())) {
        Err(Error::HeaderError(t)) => assert_eq!(t, "Missing X-DEVICE-ID header"),
        other => panic!("expected HeaderError, got {:?}", other),
    }
    match get_user_context(Some("dev".to_string()), None) {
        Err(Error::HeaderError(t)) => assert_eq!(t, "Missing X-DEVICE-TYPE header"),
        other => panic!("expected HeaderError, got {:?}", other),
    }
    match get_user_context(Some("dev".to_string()), Some("Palm".to_string())) {
        Err(Error::HeaderError(t)) => assert_eq!(t, "Bad Device Type given"),
        other => panic!("expected HeaderError, got {:?}", other),
    }
    let ctx = get_user_context(Some("dev".to_string()), Some("iOS".to_string())).expect("context");
    assert_eq!(ctx.device_id.0, "dev");
    assert_eq!(ctx.device_type, DeviceType::IOS);
}
