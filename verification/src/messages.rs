//! The message builder: resolves a record and a platform into the
//! platform-specific push envelope. Building is a pure function of the
//! record, the platform, and the resolved template.

use vstd::prelude::*;

verus! {

use crate::catalog::{catalog_lookup, opt_subst, NotificationsRule};
use crate::enums::DeviceType;
use crate::errors::Error;
use crate::record::NotificationRow;
use crate::types::{clone_opt_pairs, FirebaseToken};
use vstd::string::StringExecFns;

/// The title and body shown to the user.
#[derive(Debug)]
pub struct MessageNotification {
    pub title: String,
    pub body: String,
}

/// The Android-specific block: its own copy of the data map, a high
/// delivery priority, and its own notification block.
#[derive(Debug)]
pub struct AndroidSection {
    pub data: Option<Vec<(String, String)>>,
    pub priority_high: bool,
    pub notification: MessageNotification,
}

/// The iOS-specific block: the extra data as the platform payload.
#[derive(Debug)]
pub struct ApnsSection {
    pub payload: Option<Vec<(String, String)>>,
}

/// The web-push-specific block: the extra data as its data map.
#[derive(Debug)]
pub struct WebpushSection {
    pub data: Option<Vec<(String, String)>>,
}

/// A built push message: one platform block is present, the others are
/// absent, and the envelope is keyed by the device token.
#[derive(Debug)]
pub struct PushMessage {
    pub data: Option<Vec<(String, String)>>,
    pub notification: MessageNotification,
    pub android: Option<AndroidSection>,
    pub apns: Option<ApnsSection>,
    pub webpush: Option<WebpushSection>,
    pub target_token: String,
}

/// The text of the error reported when a kind has no catalog entry.
pub open spec fn missing_key_text(kind: Seq<char>) -> Seq<char> {
    "Missing key for notifications: "@ + kind
}

/// What a correctly built message looks like, given the record, the
/// platform, the token, and the catalog: the title and body are the
/// resolved template with the record's template data substituted in,
/// and the extra data sits exactly where the platform wants it.
pub open spec fn message_built(
    m: PushMessage,
    row: NotificationRow,
    device_type: DeviceType,
    token: FirebaseToken,
    catalog: Seq<(Seq<char>, crate::catalog::InfoView)>,
) -> bool {
    &&& catalog_lookup(catalog, row.notification_type@) matches Some(info) && {
        &&& m.target_token@ == token.0@
        &&& m.notification.title@ == opt_subst(info.title, row@.template_data)
        &&& m.notification.body@ == opt_subst(info.body, row@.template_data)
        &&& match device_type {
            DeviceType::Android => {
                &&& m.data.deep_view() == row@.extra_data
                &&& m.android matches Some(a) && {
                    &&& a.data.deep_view() == row@.extra_data
                    &&& a.priority_high
                    &&& a.notification.title@ == m.notification.title@
                    &&& a.notification.body@ == m.notification.body@
                }
                &&& m.apns is None
                &&& m.webpush is None
            },
            DeviceType::IOS => {
                &&& m.data is None
                &&& m.apns matches Some(ap) && ap.payload.deep_view() == row@.extra_data
                &&& m.android is None
                &&& m.webpush is None
            },
            DeviceType::Web => {
                &&& m.data is None
                &&& m.webpush matches Some(w) && w.data.deep_view() == row@.extra_data
                &&& m.android is None
                &&& m.apns is None
            },
        }
    }
}

/// Resolves the record's kind in the catalog and builds the platform
/// message. A kind with no catalog entry is a `MissingDataError` at
/// dispatch time, never a silent skip.
pub fn get_message(
    row: &NotificationRow,
    device_type: &DeviceType,
    token: &FirebaseToken,
    catalog: &NotificationsRule,
) -> (r: Result<PushMessage, Error>)
    ensures
        match r {
            Ok(m) => catalog_lookup(catalog@, row.notification_type@) is Some && message_built(
                m,
                *row,
                *device_type,
                *token,
                catalog@,
            ),
            Err(e) => catalog_lookup(catalog@, row.notification_type@) is None && (e matches Error::MissingDataError(t)
                && t@ == missing_key_text(row.notification_type@)),
        },
{
    let info_opt = catalog.get_by_key(row.notification_type.as_str());
    let mut info = match info_opt {
        None => {
            let text = String::from_str("Missing key for notifications: ").concat(
                row.notification_type.as_str(),
            );
            return Err(Error::MissingDataError(text));
        },
        Some(info) => info,
    };
    info.parse_with_template_data(&row.template_data);
    let notification = MessageNotification { title: info.title, body: info.body };
    match device_type {
        DeviceType::Android => Ok(PushMessage {
            data: clone_opt_pairs(&row.extra_data),
            android: Some(
                AndroidSection {
                    data: clone_opt_pairs(&row.extra_data),
                    priority_high: true,
                    notification: MessageNotification {
                        title: notification.title.clone(),
                        body: notification.body.clone(),
                    },
                },
            ),
            notification,
            apns: None,
            webpush: None,
            target_token: token.0.clone(),
        }),
        DeviceType::IOS => Ok(PushMessage {
            data: None,
            notification,
            android: None,
            apns: Some(ApnsSection { payload: clone_opt_pairs(&row.extra_data) }),
            webpush: None,
            target_token: token.0.clone(),
        }),
        DeviceType::Web => Ok(PushMessage {
            data: None,
            notification,
            android: None,
            apns: None,
            webpush: Some(WebpushSection { data: clone_opt_pairs(&row.extra_data) }),
            target_token: token.0.clone(),
        }),
    }
}

} // verus!
