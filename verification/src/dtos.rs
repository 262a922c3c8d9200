//! The request shapes of the producer side: token updates, single and
//! bulk notification sends, path parameters, and the device context
//! taken from request headers.

use vstd::prelude::*;

verus! {

use crate::enums::{device_type_of_chars, notification_type_of_chars, DeviceType};
use crate::errors::Error;
use crate::numbers::{is_i32_string, i32_string_val, parse_i32};
use crate::types::{DeviceId, UserContext, UsersWithExtraDataDto};
use vstd::string::StringExecFns;

/// The body of a token update request.
#[derive(Debug)]
pub struct UpdateUserTokenDto {
    pub token: String,
}

/// The body of a single-user notification request.
#[derive(Debug)]
pub struct SendUserNotificationDto {
    pub notification_type: String,
    pub extra_data: Option<Vec<(String, String)>>,
    pub template_data: Option<Vec<(String, String)>>,
}

/// The body of a bulk notification request: one kind, many users.
#[derive(Debug)]
pub struct SendUsersNotificationDto {
    pub notification_type: String,
    pub users: Vec<UsersWithExtraDataDto>,
}

impl SendUsersNotificationDto {
    /// Accepts a bulk request only with at least one target user and a
    /// known notification kind: unknown kinds are rejected before any
    /// record reaches the queue.
    pub fn validate(&self) -> (r: Result<(), Error>)
        ensures
            match r {
                Ok(_) => self.users@.len() > 0 && notification_type_of_chars(
                    self.notification_type@,
                ) is Some,
                Err(e) => (self.users@.len() == 0 || notification_type_of_chars(
                    self.notification_type@,
                ) is None) && e is ValidationError,
            },
    {
        if self.users.len() == 0 {
            return Err(Error::ValidationError(String::from_str("ids cannot be empty")));
        }
        match crate::enums::NotificationType::from_str(self.notification_type.as_str()) {
            Ok(_) => Ok(()),
            Err(_) => Err(
                Error::ValidationError(String::from_str("Bad notification type given")),
            ),
        }
    }
}

/// The user id as it stands in a request path, still as text.
#[derive(Debug)]
pub struct UserIdPathParameterDto {
    pub user_id: String,
}

impl UserIdPathParameterDto {
    /// The numeric user id, or a `ValidationError` when the text is not
    /// an integer a 32-bit parse accepts.
    pub fn get_id_or_error(&self) -> (r: Result<i32, Error>)
        ensures
            match r {
                Ok(id) => is_i32_string(self.user_id@) && id == i32_string_val(self.user_id@),
                Err(e) => !is_i32_string(self.user_id@) && e is ValidationError,
            },
    {
        match parse_i32(self.user_id.as_str()) {
            Some(id) => Ok(id),
            None => Err(Error::ValidationError(String::from_str("user_id must be integer"))),
        }
    }
}

/// Builds the device context from the two request headers, if both are
/// there and the platform text is known; each missing or unusable piece
/// is its own `HeaderError`.
pub fn get_user_context(device_id: Option<String>, device_type: Option<String>) -> (r: Result<
    UserContext,
    Error,
>)
    ensures
        match r {
            Ok(ctx) => device_id matches Some(id) && (device_type matches Some(dt)
                && (device_type_of_chars(dt@) matches Some(parsed) && ctx.device_id.0@ == id@
                && ctx.device_type == parsed)),
            Err(e) => match device_id {
                None => e matches Error::HeaderError(t) && t@ == "Missing X-DEVICE-ID header"@,
                Some(_) => match device_type {
                    None => e matches Error::HeaderError(t) && t@
                        == "Missing X-DEVICE-TYPE header"@,
                    Some(dt) => device_type_of_chars(dt@) is None && (e matches Error::HeaderError(t)
                        && t@ == "Bad Device Type given"@),
                },
            },
        },
{
    let id = match device_id {
        None => {
            return Err(Error::HeaderError(String::from_str("Missing X-DEVICE-ID header")));
        },
        Some(id) => id,
    };
    let dt_text = match device_type {
        None => {
            return Err(Error::HeaderError(String::from_str("Missing X-DEVICE-TYPE header")));
        },
        Some(dt) => dt,
    };
    match DeviceType::from_str(dt_text.as_str()) {
        Err(_) => Err(Error::HeaderError(String::from_str("Bad Device Type given"))),
        Ok(device_type) => Ok(UserContext { device_id: DeviceId(id), device_type }),
    }
}

} // verus!
