//! The unit of dispatch work and its permanent successor: the
//! notification record, the audit history row, and the append-only
//! history recorder.

use vstd::prelude::*;

verus! {

use crate::enums::{
    notification_type_chars, notification_type_of_chars, NotificationStatus, NotificationType,
};
use crate::types::{clone_opt_pairs, Identifier};

/// The creation timestamp of a history row, in milliseconds since the
/// epoch.
#[derive(Clone, Copy, Debug, PartialEq, Eq, Structural)]
pub struct CreationDate(pub i64);

/// The update timestamp of a history row, in milliseconds since the
/// epoch.
#[derive(Clone, Copy, Debug, PartialEq, Eq, Structural)]
pub struct UpdateDate(pub i64);

/// Relies on chrono's `Utc::now` and `DateTime::timestamp_millis`: the
/// wall-clock time of the call. Nothing can be promised of the value.
#[verifier::external_body]
fn utc_now_millis() -> i64 {
    chrono::Utc::now().timestamp_millis()
}

/// The mathematical shape of a notification record.
#[verifier::ext_equal]
pub struct RowView {
    pub user_id: int,
    pub notification_type: Seq<char>,
    pub number_of_tries: int,
    pub extra_data: Option<Seq<(Seq<char>, Seq<char>)>>,
    pub template_data: Option<Seq<(Seq<char>, Seq<char>)>>,
}

/// The unit of dispatch work. A record is immutable once enqueued; the
/// attempt counter is carried but never consulted, since a record is
/// processed exactly once.
#[derive(Debug)]
pub struct NotificationRow {
    pub user_id: i32,
    pub notification_type: String,
    pub number_of_tries: i32,
    pub extra_data: Option<Vec<(String, String)>>,
    pub template_data: Option<Vec<(String, String)>>,
}

impl View for NotificationRow {
    type V = RowView;

    open spec fn view(&self) -> RowView {
        RowView {
            user_id: self.user_id as int,
            notification_type: self.notification_type@,
            number_of_tries: self.number_of_tries as int,
            extra_data: self.extra_data.deep_view(),
            template_data: self.template_data.deep_view(),
        }
    }
}

impl Clone for NotificationRow {
    fn clone(&self) -> (r: Self)
        ensures
            r@ == self@,
    {
        NotificationRow {
            user_id: self.user_id,
            notification_type: self.notification_type.clone(),
            number_of_tries: self.number_of_tries,
            extra_data: clone_opt_pairs(&self.extra_data),
            template_data: clone_opt_pairs(&self.template_data),
        }
    }
}

impl NotificationRow {
    /// The notification kind this record's stored text names, if it
    /// names one. Records built by the library always do, because
    /// unknown kinds are rejected at creation time.
    pub open spec fn kind_spec(&self) -> Option<NotificationType> {
        notification_type_of_chars(self.notification_type@)
    }

    /// The history row this record leaves behind, with the given status
    /// and the given timestamp for both dates.
    pub fn history_with(&self, status: NotificationStatus, now_millis: i64) -> (r:
        NotificationHistory)
        requires
            self.kind_spec() is Some,
        ensures
            self.kind_spec() matches Some(kind) && r == (NotificationHistory {
                user_id: Identifier(self.user_id),
                notification_type: kind,
                notification_status: status,
                creation_date: CreationDate(now_millis),
                update_date: UpdateDate(now_millis),
            }),
    {
        match NotificationType::from_str(self.notification_type.as_str()) {
            Ok(kind) => NotificationHistory {
                user_id: Identifier(self.user_id),
                notification_type: kind,
                notification_status: status,
                creation_date: CreationDate(now_millis),
                update_date: UpdateDate(now_millis),
            },
            Err(_) => vstd::pervasive::unreached(),
        }
    }

    /// The history row of a delivered record: status `Sent`, dated now.
    pub fn as_sent_notification(&self) -> (r: NotificationHistory)
        requires
            self.kind_spec() is Some,
        ensures
            self.kind_spec() matches Some(kind) && r.user_id == Identifier(self.user_id)
                && r.notification_type == kind && r.notification_status
                == NotificationStatus::Sent && r.creation_date.0 == r.update_date.0,
    {
        let now = utc_now_millis();
        self.history_with(NotificationStatus::Sent, now)
    }

    /// The history row of a permanently failed record: status `Failed`,
    /// dated now.
    pub fn as_failed_notification(&self) -> (r: NotificationHistory)
        requires
            self.kind_spec() is Some,
        ensures
            self.kind_spec() matches Some(kind) && r.user_id == Identifier(self.user_id)
                && r.notification_type == kind && r.notification_status
                == NotificationStatus::Failed && r.creation_date.0 == r.update_date.0,
    {
        let now = utc_now_millis();
        self.history_with(NotificationStatus::Failed, now)
    }
}

/// Builds the record that a producer enqueues: zero attempts so far, the
/// payload maps carried as given.
pub fn build_notification_row(
    user_id: Identifier,
    notification_type: NotificationType,
    extra_data: Option<Vec<(String, String)>>,
    template_data: Option<Vec<(String, String)>>,
) -> (r: NotificationRow)
    ensures
        r.user_id == user_id.0,
        r.notification_type@ == notification_type_chars(notification_type),
        r.number_of_tries == 0,
        r.extra_data == extra_data,
        r.template_data == template_data,
        r.kind_spec() == Some(notification_type),
{
    proof {
        crate::enums::lemma_notification_type_round_trip(notification_type);
    }
    NotificationRow {
        user_id: user_id.0,
        notification_type: notification_type.text(),
        number_of_tries: 0,
        extra_data,
        template_data,
    }
}

/// The permanent audit row a processed record leaves behind.
#[derive(Clone, Copy, Debug, PartialEq, Eq, Structural)]
pub struct NotificationHistory {
    pub user_id: Identifier,
    pub notification_type: NotificationType,
    pub notification_status: NotificationStatus,
    pub creation_date: CreationDate,
    pub update_date: UpdateDate,
}

/// The append-only audit log: one row per processed notification, never
/// mutated or deleted.
#[derive(Debug)]
pub struct NotificationHistoryService {
    rows: Vec<NotificationHistory>,
}

impl View for NotificationHistoryService {
    type V = Seq<NotificationHistory>;

    closed spec fn view(&self) -> Seq<NotificationHistory> {
        self.rows@
    }
}

impl NotificationHistoryService {
    /// An empty audit log.
    pub fn new() -> (r: Self)
        ensures
            r@ == Seq::<NotificationHistory>::empty(),
    {
        NotificationHistoryService { rows: Vec::new() }
    }

    /// Appends exactly one row; nothing already recorded changes.
    pub fn create(&mut self, notification: NotificationHistory)
        ensures
            final(self)@ == old(self)@.push(notification),
    {
        self.rows.push(notification);
    }

    /// The rows recorded so far, oldest first.
    pub fn rows(&self) -> (r: &Vec<NotificationHistory>)
        ensures
            r@ == self@,
    {
        &self.rows
    }
}

} // verus!
