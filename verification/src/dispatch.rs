//! The dispatch decisions of one poll cycle: resolve each fetched
//! record against the user directory's answer, build and send where a
//! token exists, bucket the outcomes, and say exactly which entries to
//! acknowledge and which history rows to write. The transports that
//! fetch, look up, send and store run outside the library and hand
//! their answers in as plain values.

use vstd::prelude::*;

verus! {

use crate::catalog::{catalog_lookup, NotificationsRule};
use crate::enums::{notification_type_of_chars, DeviceType, NotificationStatus};
use crate::errors::Error;
use crate::messages::{get_message, message_built, missing_key_text, PushMessage};
use crate::numbers::dec_string;
use crate::queue::QueueEntry;
use crate::record::{CreationDate, NotificationHistory, NotificationRow, UpdateDate};
use crate::types::{FirebaseToken, Identifier, UserFromRow};
use vstd::string::StringExecFns;

/// What the user directory answered for one record's target user.
#[derive(Debug)]
pub enum LookupResult {
    /// The user exists; it may or may not have a stored push token.
    Found { token: Option<FirebaseToken>, device_type: DeviceType },
    /// The user does not exist; the message explains which.
    NotFound { message: String },
    /// The directory itself failed.
    Unavailable { message: String },
}

/// What the push provider answered for one built message.
#[derive(Debug)]
pub enum SendOutcome {
    Delivered,
    Rejected { message: String },
}

/// The per-entry decision: bucket as permanently failed without a send,
/// or send the built message.
#[derive(Debug)]
pub enum EntryDecision {
    Fail,
    Send(PushMessage),
}

/// The text of the error reported when a looked-up user is absent.
pub open spec fn user_not_found_text(user_id: int) -> Seq<char> {
    "User with id "@ + dec_string(user_id) + " does not exists"@
}

/// Turns the directory's raw answer for a user id into the user or the
/// exact error the pipeline reports: an absent user is `NotFoundError`,
/// a failed query is `ProviderError` with the transport's text.
pub fn user_found_or_error(user_id: i32, row: Option<UserFromRow>) -> (r: Result<
    UserFromRow,
    Error,
>)
    ensures
        match row {
            Some(u) => r == Ok::<UserFromRow, Error>(u),
            None => r matches Err(e) && (e matches Error::NotFoundError(t) && t@
                == user_not_found_text(user_id as int)),
        },
{
    match row {
        Some(u) => Ok(u),
        None => {
            let text = String::from_str("User with id ").concat(
                crate::numbers::i32_to_string(user_id).as_str(),
            ).concat(" does not exists");
            Err(Error::NotFoundError(text))
        },
    }
}

/// Decides one entry: a missing user or a failed lookup aborts the
/// cycle, a user without a token is bucketed as failed without a send,
/// and a user with a token gets a built message — or a
/// `MissingDataError` when the record's kind has no catalog entry.
pub fn decide_entry(
    row: &NotificationRow,
    lookup: &LookupResult,
    catalog: &NotificationsRule,
) -> (r: Result<EntryDecision, Error>)
    ensures
        match lookup {
            LookupResult::Unavailable { message } => r matches Err(e) && (e matches Error::ProviderError(t)
                && t@ == message@),
            LookupResult::NotFound { message } => r matches Err(e) && (e matches Error::NotFoundError(t)
                && t@ == message@),
            LookupResult::Found { token, device_type } => match token {
                None => r == Ok::<EntryDecision, Error>(EntryDecision::Fail),
                Some(tok) => match catalog_lookup(catalog@, row.notification_type@) {
                    None => r matches Err(e) && (e matches Error::MissingDataError(t) && t@
                        == missing_key_text(row.notification_type@)),
                    Some(_) => r matches Ok(d) && (d matches EntryDecision::Send(m)
                        && message_built(m, *row, *device_type, *tok, catalog@)),
                },
            },
        },
{
    match lookup {
        LookupResult::Unavailable { message } => Err(Error::ProviderError(message.clone())),
        LookupResult::NotFound { message } => Err(Error::NotFoundError(message.clone())),
        LookupResult::Found { token, device_type } => match token {
            None => Ok(EntryDecision::Fail),
            Some(tok) => match get_message(row, device_type, tok, catalog) {
                Ok(m) => Ok(EntryDecision::Send(m)),
                Err(e) => Err(e),
            },
        },
    }
}

/// The abstract shape of the error that aborted a cycle.
pub enum AbortModel {
    Provider(Seq<char>),
    NotFound(Seq<char>),
    MissingData(Seq<char>),
}

/// Whether an error value has the abstract shape the model predicts.
pub open spec fn error_matches(e: Error, m: AbortModel) -> bool {
    match m {
        AbortModel::Provider(s) => e matches Error::ProviderError(t) && t@ == s,
        AbortModel::NotFound(s) => e matches Error::NotFoundError(t) && t@ == s,
        AbortModel::MissingData(s) => e matches Error::MissingDataError(t) && t@ == s,
    }
}

/// The history row a record leaves in the model, dated `now` for both
/// timestamps.
pub open spec fn history_model(
    row: NotificationRow,
    status: NotificationStatus,
    now: i64,
) -> NotificationHistory {
    NotificationHistory {
        user_id: Identifier(row.user_id),
        notification_type: notification_type_of_chars(row.notification_type@)->0,
        notification_status: status,
        creation_date: CreationDate(now),
        update_date: UpdateDate(now),
    }
}

/// The abstract outcome of one poll cycle.
#[verifier::ext_equal]
pub struct CycleModel {
    /// `Sent` rows written while the cycle ran, in entry order.
    pub sent_rows: Seq<NotificationHistory>,
    /// Entry ids acknowledged because send and history both succeeded.
    pub acked: Seq<u64>,
    /// Entry ids acknowledged because the user had no token.
    pub failed: Seq<u64>,
    /// `Failed` rows written for the token-less entries, in entry order.
    pub failed_rows: Seq<NotificationHistory>,
    /// The error that aborted the cycle, if one did. An abort leaves
    /// every acknowledgement and every `Failed` row unwritten; the
    /// `Sent` rows written before the abort stand, and the entries
    /// stay queued for the next run.
    pub abort: Option<AbortModel>,
}

/// The model of a cycle that aborts at the entry under view.
pub open spec fn abort_model(a: AbortModel) -> CycleModel {
    CycleModel {
        sent_rows: Seq::<NotificationHistory>::empty(),
        acked: Seq::<u64>::empty(),
        failed: Seq::<u64>::empty(),
        failed_rows: Seq::<NotificationHistory>::empty(),
        abort: Some(a),
    }
}

/// The model of a whole cycle, entry by entry: the directory's answer
/// decides each entry's bucket, the catalog decides whether a message
/// can be built, and the provider's answer decides delivery. Any abort
/// cancels every acknowledgement of the cycle.
pub open spec fn cycle_model(
    entries: Seq<QueueEntry>,
    lookups: Seq<LookupResult>,
    sends: Seq<SendOutcome>,
    catalog: Seq<(Seq<char>, crate::catalog::InfoView)>,
    now: i64,
) -> CycleModel
    decreases entries.len(),
{
    if entries.len() == 0 {
        CycleModel {
            sent_rows: Seq::<NotificationHistory>::empty(),
            acked: Seq::<u64>::empty(),
            failed: Seq::<u64>::empty(),
            failed_rows: Seq::<NotificationHistory>::empty(),
            abort: None,
        }
    } else {
        let e = entries[0];
        let rest = cycle_model(
            entries.drop_first(),
            lookups.drop_first(),
            sends.drop_first(),
            catalog,
            now,
        );
        match lookups[0] {
            LookupResult::Unavailable { message } => abort_model(AbortModel::Provider(message@)),
            LookupResult::NotFound { message } => abort_model(AbortModel::NotFound(message@)),
            LookupResult::Found { token, device_type } => {
                if token is None {
                    CycleModel {
                        sent_rows: rest.sent_rows,
                        acked: if rest.abort is None {
                            rest.acked
                        } else {
                            Seq::<u64>::empty()
                        },
                        failed: if rest.abort is None {
                            seq![e.entry_id] + rest.failed
                        } else {
                            Seq::<u64>::empty()
                        },
                        failed_rows: if rest.abort is None {
                            seq![
                                history_model(e.row, NotificationStatus::Failed, now),
                            ] + rest.failed_rows
                        } else {
                            Seq::<NotificationHistory>::empty()
                        },
                        abort: rest.abort,
                    }
                } else if catalog_lookup(catalog, e.row.notification_type@) is None {
                    abort_model(
                        AbortModel::MissingData(missing_key_text(e.row.notification_type@)),
                    )
                } else {
                    match sends[0] {
                        SendOutcome::Rejected { message } => abort_model(
                            AbortModel::Provider(message@),
                        ),
                        SendOutcome::Delivered => CycleModel {
                            sent_rows: seq![
                                history_model(e.row, NotificationStatus::Sent, now),
                            ] + rest.sent_rows,
                            acked: if rest.abort is None {
                                seq![e.entry_id] + rest.acked
                            } else {
                                Seq::<u64>::empty()
                            },
                            failed: if rest.abort is None {
                                rest.failed
                            } else {
                                Seq::<u64>::empty()
                            },
                            failed_rows: if rest.abort is None {
                                rest.failed_rows
                            } else {
                                Seq::<NotificationHistory>::empty()
                            },
                            abort: rest.abort,
                        },
                    }
                }
            },
        }
    }
}

/// A cycle that does not abort accounts for every fetched entry: each
/// entry's id lands in exactly one of the two acknowledged buckets, one
/// `Sent` row exists per acknowledged success, and one `Failed` row per
/// token-less entry — so the queue is drained of exactly the batch and
/// the audit log gains one row per record.
pub proof fn lemma_cycle_accounts_for_every_entry(
    entries: Seq<QueueEntry>,
    lookups: Seq<LookupResult>,
    sends: Seq<SendOutcome>,
    catalog: Seq<(Seq<char>, crate::catalog::InfoView)>,
    now: i64,
)
    requires
        lookups.len() == entries.len(),
        sends.len() == entries.len(),
        cycle_model(entries, lookups, sends, catalog, now).abort is None,
    ensures
        ({
            let m = cycle_model(entries, lookups, sends, catalog, now);
            &&& m.acked.len() + m.failed.len() == entries.len()
            &&& m.sent_rows.len() == m.acked.len()
            &&& m.failed_rows.len() == m.failed.len()
            &&& forall|i: int|
                0 <= i < entries.len() ==> m.acked.contains(#[trigger] entries[i].entry_id)
                    || m.failed.contains(entries[i].entry_id)
        }),
    decreases entries.len(),
{
    let m = cycle_model(entries, lookups, sends, catalog, now);
    if entries.len() > 0 {
        let e = entries[0];
        let rest = cycle_model(
            entries.drop_first(),
            lookups.drop_first(),
            sends.drop_first(),
            catalog,
            now,
        );
        assert(rest.abort is None);
        lemma_cycle_accounts_for_every_entry(
            entries.drop_first(),
            lookups.drop_first(),
            sends.drop_first(),
            catalog,
            now,
        );
        assert(m.acked == seq![e.entry_id] + rest.acked || m.acked == rest.acked);
        assert(m.failed == seq![e.entry_id] + rest.failed || m.failed == rest.failed);
        assert(m.acked.contains(e.entry_id) || m.failed.contains(e.entry_id)) by {
            if m.acked == seq![e.entry_id] + rest.acked {
                assert(m.acked[0] == e.entry_id);
            } else {
                assert(m.failed[0] == e.entry_id);
            }
        }
        assert forall|i: int| 1 <= i < entries.len() implies m.acked.contains(
            #[trigger] entries[i].entry_id,
        ) || m.failed.contains(entries[i].entry_id) by {
            let id = entries[i].entry_id;
            assert(entries.drop_first()[i - 1] == entries[i]);
            assert(rest.acked.contains(id) || rest.failed.contains(id));
            if rest.acked.contains(id) {
                let j = choose|j: int| 0 <= j < rest.acked.len() && rest.acked[j] == id;
                if m.acked == seq![e.entry_id] + rest.acked {
                    assert(m.acked[j + 1] == id);
                } else {
                    assert(m.acked[j] == id);
                }
            } else {
                let j = choose|j: int| 0 <= j < rest.failed.len() && rest.failed[j] == id;
                if m.failed == seq![e.entry_id] + rest.failed {
                    assert(m.failed[j + 1] == id);
                } else {
                    assert(m.failed[j] == id);
                }
            }
        }
    }
}

/// The concrete outcome of one poll cycle, as the loop hands it back.
#[derive(Debug)]
pub struct CycleReport {
    pub sent_history: Vec<NotificationHistory>,
    pub acked_ids: Vec<u64>,
    pub failed_ids: Vec<u64>,
    pub failed_history: Vec<NotificationHistory>,
    pub abort: Option<Error>,
}

/// Whether a concrete report is exactly what the model predicts.
pub open spec fn report_matches(r: CycleReport, m: CycleModel) -> bool {
    &&& r.sent_history@ == m.sent_rows
    &&& r.acked_ids@ == m.acked
    &&& r.failed_ids@ == m.failed
    &&& r.failed_history@ == m.failed_rows
    &&& match (r.abort, m.abort) {
        (None, None) => true,
        (Some(e), Some(am)) => error_matches(e, am),
        _ => false,
    }
}

/// Glues what a partial run accumulated onto the model of the entries
/// still to process.
spec fn glue(
    sent: Seq<NotificationHistory>,
    acked: Seq<u64>,
    failed: Seq<u64>,
    failed_rows: Seq<NotificationHistory>,
    m: CycleModel,
) -> CycleModel {
    CycleModel {
        sent_rows: sent + m.sent_rows,
        acked: if m.abort is None {
            acked + m.acked
        } else {
            Seq::<u64>::empty()
        },
        failed: if m.abort is None {
            failed + m.failed
        } else {
            Seq::<u64>::empty()
        },
        failed_rows: if m.abort is None {
            failed_rows + m.failed_rows
        } else {
            Seq::<NotificationHistory>::empty()
        },
        abort: m.abort,
    }
}

/// Runs the decisions of one cycle over a fetched batch, given the
/// directory's answer and the provider's answer for each entry: buckets
/// every entry, dates every history row `now_millis`, and reports
/// exactly which entry ids to acknowledge, which history rows to write,
/// and whether the cycle aborted. On an abort nothing is acknowledged:
/// the queue keeps every entry for the next run.
pub fn run_cycle(
    entries: &Vec<QueueEntry>,
    lookups: &Vec<LookupResult>,
    sends: &Vec<SendOutcome>,
    catalog: &NotificationsRule,
    now_millis: i64,
) -> (r: CycleReport)
    requires
        lookups@.len() == entries@.len(),
        sends@.len() == entries@.len(),
        forall|k: int|
            0 <= k < entries@.len() ==> (#[trigger] entries@[k]).row.kind_spec() is Some,
    ensures
        report_matches(r, cycle_model(entries@, lookups@, sends@, catalog@, now_millis)),
{
    let ghost full = cycle_model(entries@, lookups@, sends@, catalog@, now_millis);
    let mut sent_history: Vec<NotificationHistory> = Vec::new();
    let mut acked_ids: Vec<u64> = Vec::new();
    let mut failed_ids: Vec<u64> = Vec::new();
    let mut failed_history: Vec<NotificationHistory> = Vec::new();
    let mut i: usize = 0;
    proof {
        assert(entries@.skip(0) =~= entries@);
        assert(lookups@.skip(0) =~= lookups@);
        assert(sends@.skip(0) =~= sends@);
        assert(full =~~= glue(
            sent_history@,
            acked_ids@,
            failed_ids@,
            failed_history@,
            cycle_model(entries@.skip(0), lookups@.skip(0), sends@.skip(0), catalog@, now_millis),
        ));
    }
    while i < entries.len()
        invariant
            i <= entries@.len(),
            lookups@.len() == entries@.len(),
            sends@.len() == entries@.len(),
            forall|k: int|
                0 <= k < entries@.len() ==> (#[trigger] entries@[k]).row.kind_spec() is Some,
            full == cycle_model(entries@, lookups@, sends@, catalog@, now_millis),
            full == glue(
                sent_history@,
                acked_ids@,
                failed_ids@,
                failed_history@,
                cycle_model(
                    entries@.skip(i as int),
                    lookups@.skip(i as int),
                    sends@.skip(i as int),
                    catalog@,
                    now_millis,
                ),
            ),
        decreases entries@.len() - i,
    {
        let ghost suffix_model = cycle_model(
            entries@.skip(i as int),
            lookups@.skip(i as int),
            sends@.skip(i as int),
            catalog@,
            now_millis,
        );
        let ghost next_model = cycle_model(
            entries@.skip(i + 1),
            lookups@.skip(i + 1),
            sends@.skip(i + 1),
            catalog@,
            now_millis,
        );
        proof {
            assert(entries@.skip(i as int)[0] == entries@[i as int]);
            assert(lookups@.skip(i as int)[0] == lookups@[i as int]);
            assert(sends@.skip(i as int)[0] == sends@[i as int]);
            assert(entries@.skip(i as int).drop_first() =~= entries@.skip(i + 1));
            assert(lookups@.skip(i as int).drop_first() =~= lookups@.skip(i + 1));
            assert(sends@.skip(i as int).drop_first() =~= sends@.skip(i + 1));
        }
        let entry = &entries[i];
        match decide_entry(&entry.row, &lookups[i], catalog) {
            Err(e) => {
                proof {
                    assert(suffix_model.abort is Some);
                    assert(full.acked =~= Seq::<u64>::empty());
                    assert(full.failed =~= Seq::<u64>::empty());
                    assert(full.failed_rows =~= Seq::<NotificationHistory>::empty());
                    assert(full.sent_rows =~= sent_history@);
                }
                return CycleReport {
                    sent_history,
                    acked_ids: Vec::new(),
                    failed_ids: Vec::new(),
                    failed_history: Vec::new(),
                    abort: Some(e),
                };
            },
            Ok(EntryDecision::Fail) => {
                failed_ids.push(entry.entry_id);
                let row = entry.row.history_with(NotificationStatus::Failed, now_millis);
                failed_history.push(row);
                proof {
                    assert(suffix_model.failed == if next_model.abort is None {
                        seq![entries@[i as int].entry_id] + next_model.failed
                    } else {
                        Seq::<u64>::empty()
                    });
                    assert(full =~~= glue(
                        sent_history@,
                        acked_ids@,
                        failed_ids@,
                        failed_history@,
                        next_model,
                    ));
                }
            },
            Ok(EntryDecision::Send(_message)) => {
                match &sends[i] {
                    SendOutcome::Rejected { message } => {
                        let e = Error::ProviderError(message.clone());
                        proof {
                            assert(suffix_model.abort is Some);
                            assert(full.acked =~= Seq::<u64>::empty());
                            assert(full.failed =~= Seq::<u64>::empty());
                            assert(full.failed_rows =~= Seq::<NotificationHistory>::empty());
                            assert(full.sent_rows =~= sent_history@);
                        }
                        return CycleReport {
                            sent_history,
                            acked_ids: Vec::new(),
                            failed_ids: Vec::new(),
                            failed_history: Vec::new(),
                            abort: Some(e),
                        };
                    },
                    SendOutcome::Delivered => {
                        let row = entry.row.history_with(NotificationStatus::Sent, now_millis);
                        sent_history.push(row);
                        acked_ids.push(entry.entry_id);
                        proof {
                            assert(full =~~= glue(
                                sent_history@,
                                acked_ids@,
                                failed_ids@,
                                failed_history@,
                                next_model,
                            ));
                        }
                    },
                }
            },
        }
        i = i + 1;
    }
    proof {
        assert(entries@.skip(i as int) =~= Seq::<QueueEntry>::empty());
        let empty_model = cycle_model(
            entries@.skip(i as int),
            lookups@.skip(i as int),
            sends@.skip(i as int),
            catalog@,
            now_millis,
        );
        assert(empty_model.abort is None);
        assert(full.sent_rows =~= sent_history@);
        assert(full.acked =~= acked_ids@);
        assert(full.failed =~= failed_ids@);
        assert(full.failed_rows =~= failed_history@);
    }
    CycleReport { sent_history, acked_ids, failed_ids, failed_history, abort: None }
}

} // verus!
