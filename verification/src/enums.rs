//! The enumerated kinds of the pipeline: device platform, notification
//! kind, and audit status, each with its exact text round-trip.

use vstd::prelude::*;

verus! {

use crate::text::str_eq;
use vstd::string::StringExecFns;

/// The platform a push message is built for.
#[derive(Debug, PartialEq, Eq, Clone, Copy, Structural)]
pub enum DeviceType {
    Android,
    IOS,
    Web,
}

/// The kind of a notification; unknown kinds are rejected when a record
/// is created, not when it is dispatched.
#[derive(Debug, PartialEq, Eq, Clone, Copy, Structural)]
pub enum NotificationType {
    Test,
    TestWithTemplate,
}

/// The outcome recorded in a history row. The dispatch loop only ever
/// produces `Sent` and `Failed`.
#[derive(Debug, PartialEq, Eq, Clone, Copy, Structural)]
pub enum NotificationStatus {
    InProgress,
    Canceled,
    Failed,
    Sent,
}

/// The text of a platform.
pub open spec fn device_type_chars(d: DeviceType) -> Seq<char> {
    match d {
        DeviceType::Android => "Android"@,
        DeviceType::IOS => "iOS"@,
        DeviceType::Web => "Web"@,
    }
}

/// The platform a text names, if any. Only the two phone platforms have
/// a stored text form.
pub open spec fn device_type_of_chars(s: Seq<char>) -> Option<DeviceType> {
    if s == "Android"@ {
        Some(DeviceType::Android)
    } else if s == "iOS"@ {
        Some(DeviceType::IOS)
    } else {
        None
    }
}

/// The text of a notification kind.
pub open spec fn notification_type_chars(k: NotificationType) -> Seq<char> {
    match k {
        NotificationType::Test => "Test"@,
        NotificationType::TestWithTemplate => "TestWithTemplate"@,
    }
}

/// The notification kind a text names, if any.
pub open spec fn notification_type_of_chars(s: Seq<char>) -> Option<NotificationType> {
    if s == "Test"@ {
        Some(NotificationType::Test)
    } else if s == "TestWithTemplate"@ {
        Some(NotificationType::TestWithTemplate)
    } else {
        None
    }
}

/// The text of a status.
pub open spec fn status_chars(s: NotificationStatus) -> Seq<char> {
    match s {
        NotificationStatus::InProgress => "InProgress"@,
        NotificationStatus::Canceled => "Canceled"@,
        NotificationStatus::Failed => "Failed"@,
        NotificationStatus::Sent => "Sent"@,
    }
}

/// The status a text names, if any.
pub open spec fn status_of_chars(s: Seq<char>) -> Option<NotificationStatus> {
    if s == "Sent"@ {
        Some(NotificationStatus::Sent)
    } else if s == "Canceled"@ {
        Some(NotificationStatus::Canceled)
    } else if s == "Failed"@ {
        Some(NotificationStatus::Failed)
    } else if s == "InProgress"@ {
        Some(NotificationStatus::InProgress)
    } else {
        None
    }
}

impl DeviceType {
    /// The stored text of this platform.
    pub fn as_str(&self) -> (r: &'static str)
        ensures
            r@ == device_type_chars(*self),
    {
        match self {
            DeviceType::Android => "Android",
            DeviceType::IOS => "iOS",
            DeviceType::Web => "Web",
        }
    }

    /// The stored text of this platform as an owned string.
    pub fn text(&self) -> (r: String)
        ensures
            r@ == device_type_chars(*self),
    {
        String::from_str(self.as_str())
    }

    /// Parses a stored platform text, rejecting anything unknown.
    pub fn from_str(s: &str) -> (r: Result<DeviceType, ()>)
        ensures
            match r {
                Ok(d) => device_type_of_chars(s@) == Some(d),
                Err(_) => device_type_of_chars(s@) is None,
            },
    {
        if str_eq(s, "Android") {
            Ok(DeviceType::Android)
        } else if str_eq(s, "iOS") {
            Ok(DeviceType::IOS)
        } else {
            Err(())
        }
    }
}

impl NotificationType {
    /// The stored text of this kind.
    pub fn as_str(&self) -> (r: &'static str)
        ensures
            r@ == notification_type_chars(*self),
    {
        match self {
            NotificationType::Test => "Test",
            NotificationType::TestWithTemplate => "TestWithTemplate",
        }
    }

    /// The stored text of this kind as an owned string.
    pub fn text(&self) -> (r: String)
        ensures
            r@ == notification_type_chars(*self),
    {
        String::from_str(self.as_str())
    }

    /// Parses a stored kind text, failing closed on unknown kinds.
    pub fn from_str(s: &str) -> (r: Result<NotificationType, ()>)
        ensures
            match r {
                Ok(k) => notification_type_of_chars(s@) == Some(k),
                Err(_) => notification_type_of_chars(s@) is None,
            },
    {
        if str_eq(s, "Test") {
            Ok(NotificationType::Test)
        } else if str_eq(s, "TestWithTemplate") {
            Ok(NotificationType::TestWithTemplate)
        } else {
            Err(())
        }
    }
}

impl NotificationStatus {
    /// The stored text of this status.
    pub fn as_str(&self) -> (r: &'static str)
        ensures
            r@ == status_chars(*self),
    {
        match self {
            NotificationStatus::InProgress => "InProgress",
            NotificationStatus::Canceled => "Canceled",
            NotificationStatus::Failed => "Failed",
            NotificationStatus::Sent => "Sent",
        }
    }

    /// The stored text of this status as an owned string.
    pub fn text(&self) -> (r: String)
        ensures
            r@ == status_chars(*self),
    {
        String::from_str(self.as_str())
    }

    /// Parses a stored status text, rejecting anything unknown.
    pub fn from_str(s: &str) -> (r: Result<NotificationStatus, ()>)
        ensures
            match r {
                Ok(st) => status_of_chars(s@) == Some(st),
                Err(_) => status_of_chars(s@) is None,
            },
    {
        if str_eq(s, "Sent") {
            Ok(NotificationStatus::Sent)
        } else if str_eq(s, "Canceled") {
            Ok(NotificationStatus::Canceled)
        } else if str_eq(s, "Failed") {
            Ok(NotificationStatus::Failed)
        } else if str_eq(s, "InProgress") {
            Ok(NotificationStatus::InProgress)
        } else {
            Err(())
        }
    }
}

/// Parsing the stored text of a kind gives that kind back: the text
/// round-trip is exact.
pub proof fn lemma_notification_type_round_trip(k: NotificationType)
    ensures
        notification_type_of_chars(notification_type_chars(k)) == Some(k),
{
    reveal_strlit("Test");
    reveal_strlit("TestWithTemplate");
    assert("TestWithTemplate"@.len() == 16);
    assert("Test"@.len() == 4);
}

/// Parsing the stored text of a status gives that status back.
pub proof fn lemma_status_round_trip(s: NotificationStatus)
    ensures
        status_of_chars(status_chars(s)) == Some(s),
{
    reveal_strlit("InProgress");
    reveal_strlit("Canceled");
    reveal_strlit("Failed");
    reveal_strlit("Sent");
    assert("InProgress"@.len() == 10);
    assert("Canceled"@.len() == 8);
    assert("Failed"@.len() == 6);
    assert("Sent"@.len() == 4);
}

/// Parsing the stored text of a phone platform gives that platform
/// back. The web platform has no stored text form, so it stands apart.
pub proof fn lemma_device_type_round_trip(d: DeviceType)
    requires
        d != DeviceType::Web,
    ensures
        device_type_of_chars(device_type_chars(d)) == Some(d),
{
    reveal_strlit("Android");
    reveal_strlit("iOS");
    assert("Android"@.len() == 7);
    assert("iOS"@.len() == 3);
}

} // verus!
