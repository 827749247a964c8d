//! User reports: who may report what, and how a report's status moves.
use vstd::prelude::*;
use vstd::string::*;
use crate::codec::{new_uuid_v4, uuid_text_shape};
use crate::error::{
    RepositoryError, owned, is_validation, is_unauthorized, is_conflict, is_forbidden, is_not_found,
    validation, unauthorized, conflict, forbidden, not_found,
};
use crate::membership::MembershipRepository;
use crate::room::RoomRepository;
use crate::text::str_eq;

verus! {

/// The repositories that authorizing a report consults; `E` is the event
/// store.
pub struct ReportRepositories<'a, D, E> {
    pub membership_repo: &'a MembershipRepository<D>,
    pub room_repo: &'a RoomRepository<D>,
    pub event_repo: &'a E,
}

/// What a report is checked against.
#[derive(Debug)]
pub struct ValidateReportParams<'a> {
    pub reporter_id: &'a str,
    pub reported_user_id: &'a str,
    pub room_id: Option<&'a str>,
    pub event_id: Option<&'a str>,
    pub reason: &'a str,
}

/// What the store knows that authorizing a report needs: whether the
/// reporter is active (none when it has no row or no flag), whether the
/// reported user exists, whether the reported event exists, whether the
/// reporter is a member of the room, the room's history visibility, and
/// how many reports the reporter made in the last hour.
#[derive(Debug)]
pub struct ReportFacts {
    pub reporter_active: Option<bool>,
    pub reported_exists: bool,
    pub event_exists: bool,
    pub reporter_is_member: bool,
    pub room_history_visibility: String,
    pub recent_reports: Option<i64>,
}

/// Where a report stands.
#[derive(Debug, Clone, Copy, PartialEq, Eq, Structural)]
pub enum ReportStatus {
    Pending,
    Investigating,
    Escalated,
    Resolved,
    Dismissed,
}

impl ReportStatus {
    /// The stored name of the status.
    pub fn as_str(&self) -> (r: &'static str)
        ensures
            r@ == match *self {
                ReportStatus::Pending => "pending"@,
                ReportStatus::Investigating => "investigating"@,
                ReportStatus::Escalated => "escalated"@,
                ReportStatus::Resolved => "resolved"@,
                ReportStatus::Dismissed => "dismissed"@,
            },
    {
        match self {
            ReportStatus::Pending => "pending",
            ReportStatus::Investigating => "investigating",
            ReportStatus::Escalated => "escalated",
            ReportStatus::Resolved => "resolved",
            ReportStatus::Dismissed => "dismissed",
        }
    }
}

/// A report of a user; its content is JSON text and times are milliseconds
/// since the UNIX epoch.
#[derive(Debug)]
pub struct Report {
    pub report_id: String,
    pub reporter_id: String,
    pub reported_user_id: String,
    pub reason: String,
    pub content: Option<String>,
    pub status: ReportStatus,
    pub admin_notes: Option<String>,
    pub created_at: i64,
    pub updated_at: i64,
}

/// A report can still change status until it is resolved or dismissed.
pub open spec fn can_be_updated(s: ReportStatus) -> bool {
    s != ReportStatus::Resolved && s != ReportStatus::Dismissed
}

/// The reports a user may make per hour.
pub const REPORTS_PER_HOUR: i64 = 10;

/// The longest report reason, in bytes.
pub const MAX_REASON_BYTES: usize = 256;

/// The outcome of authorizing a report (see `validate_report_authorization`).
pub open spec fn report_authorization(p: ValidateReportParams, f: ReportFacts, r: Result<bool, RepositoryError>) -> bool {
    if f.reporter_active != Some(true) || !f.reported_exists {
        r == Ok::<bool, RepositoryError>(false)
    } else if p.reason@.len() == 0 {
        r.is_err() && is_validation(r->Err_0, "reason"@, "Report reason is required"@)
    } else if p.reason.len() > MAX_REASON_BYTES {
        r.is_err() && is_validation(r->Err_0, "reason"@, "Report reason too long (max 256 chars)"@)
    } else if p.event_id.is_some() && !f.event_exists {
        r.is_err() && is_not_found(r->Err_0, "event"@, p.event_id.unwrap()@)
    } else if p.event_id.is_some() && p.room_id.is_some() && !f.reporter_is_member
        && f.room_history_visibility@ != "world_readable"@ {
        r.is_err() && is_forbidden(r->Err_0, "Cannot report content in room you cannot access"@)
    } else if f.recent_reports.is_some() && f.recent_reports.unwrap() >= REPORTS_PER_HOUR {
        r.is_err() && is_forbidden(r->Err_0, "Too many reports, please try again later"@)
    } else {
        r == Ok::<bool, RepositoryError>(true)
    }
}

/// User reports; the handle `D` is what the caller reads and writes the
/// store with.
pub struct ReportsRepository<D> {
    db: D,
}

impl<D> ReportsRepository<D> {
    /// The store handle this repository was made with.
    pub closed spec fn handle(&self) -> D {
        self.db
    }

    pub fn new(db: D) -> (r: Self)
        ensures
            r.handle() == db,
    {
        ReportsRepository { db }
    }

    /// The store handle.
    pub fn db(&self) -> (r: &D)
        ensures
            *r == self.handle(),
    {
        &self.db
    }

    /// Whether a report may be made: not (false) when the reporter is
    /// missing or inactive or the reported user is missing; an error for a
    /// missing or over-long reason (over 256 bytes), a missing reported
    /// event, content in a room the reporter cannot see (a non-member of a
    /// room that is not world readable), or ten reports in the last hour.
    pub fn validate_report_authorization(&self, params: ValidateReportParams, facts: ReportFacts) -> (r: Result<bool, RepositoryError>)
        ensures
            report_authorization(params, facts, r),
    {
        match facts.reporter_active {
            Some(true) => {},
            _ => { return Ok(false); },
        }
        if !facts.reported_exists {
            return Ok(false);
        }
        if params.reason.unicode_len() == 0 {
            return Err(validation("reason", "Report reason is required"));
        }
        if params.reason.len() > MAX_REASON_BYTES {
            return Err(validation("reason", "Report reason too long (max 256 chars)"));
        }
        if let Some(event_id) = params.event_id {
            if !facts.event_exists {
                return Err(not_found("event", event_id));
            }
            if params.room_id.is_some() && !facts.reporter_is_member {
                if !str_eq(facts.room_history_visibility.as_str(), "world_readable") {
                    return Err(forbidden("Cannot report content in room you cannot access"));
                }
            }
        }
        match facts.recent_reports {
            Some(c) => {
                if c >= REPORTS_PER_HOUR {
                    return Err(forbidden("Too many reports, please try again later"));
                }
            },
            None => {},
        }
        Ok(true)
    }

    /// The report to store at `now_millis`, or why not: an empty reason, a
    /// self-report, a report that authorization refused (or its error), or
    /// an active report between the same users.
    pub fn create_user_report(
        &self,
        reporter_id: &str,
        reported_user_id: &str,
        reason: &str,
        content: Option<String>,
        authorization: Result<bool, RepositoryError>,
        active_report_exists: bool,
        now_millis: i64,
    ) -> (r: Result<Report, RepositoryError>)
        ensures
            reason@.len() == 0 ==> r.is_err() && is_validation(r->Err_0, "reason"@, "Report reason cannot be empty"@),
            reason@.len() > 0 && reporter_id@ == reported_user_id@ ==> r.is_err() && is_validation(
                r->Err_0,
                "reported_user_id"@,
                "User cannot report themselves"@,
            ),
            reason@.len() > 0 && reporter_id@ != reported_user_id@ ==> match authorization {
                Err(e) => r == Err::<Report, RepositoryError>(e),
                Ok(false) => r.is_err() && is_unauthorized(
                    r->Err_0,
                    "User does not have permission to report this content"@,
                ),
                Ok(true) => if active_report_exists {
                    r.is_err() && is_conflict(r->Err_0, "An active report already exists for this user"@)
                } else {
                    r.is_ok() && ({
                        let rep = r->Ok_0;
                        &&& uuid_text_shape(rep.report_id@)
                        &&& rep.reporter_id@ == reporter_id@
                        &&& rep.reported_user_id@ == reported_user_id@
                        &&& rep.reason@ == reason@
                        &&& rep.content == content
                        &&& rep.status == ReportStatus::Pending
                        &&& rep.admin_notes.is_none()
                        &&& rep.created_at == now_millis
                        &&& rep.updated_at == now_millis
                    })
                },
            },
    {
        if reason.unicode_len() == 0 {
            return Err(validation("reason", "Report reason cannot be empty"));
        }
        if str_eq(reporter_id, reported_user_id) {
            return Err(validation("reported_user_id", "User cannot report themselves"));
        }
        match authorization {
            Err(e) => { return Err(e); },
            Ok(false) => {
                return Err(unauthorized(owned("User does not have permission to report this content")));
            },
            Ok(true) => {},
        }
        if active_report_exists {
            return Err(conflict("An active report already exists for this user"));
        }
        Ok(Report {
            report_id: new_uuid_v4(),
            reporter_id: owned(reporter_id),
            reported_user_id: owned(reported_user_id),
            reason: owned(reason),
            content,
            status: ReportStatus::Pending,
            admin_notes: None,
            created_at: now_millis,
            updated_at: now_millis,
        })
    }

    /// Whether a report may change status: it must exist and be neither
    /// resolved nor dismissed.
    pub fn update_report_status(&self, report_id: &str, existing: Option<&Report>) -> (r: Result<(), RepositoryError>)
        ensures
            match existing {
                None => r.is_err() && is_not_found(r->Err_0, "Report"@, report_id@),
                Some(rep) => if can_be_updated(rep.status) {
                    r.is_ok()
                } else {
                    r.is_err() && is_validation(
                        r->Err_0,
                        "status"@,
                        "Report cannot be updated - already resolved or dismissed"@,
                    )
                },
            },
    {
        match existing {
            None => Err(not_found("Report", report_id)),
            Some(rep) => {
                if rep.status == ReportStatus::Resolved || rep.status == ReportStatus::Dismissed {
                    Err(validation("status", "Report cannot be updated - already resolved or dismissed"))
                } else {
                    Ok(())
                }
            },
        }
    }

    /// Whether an active report exists, from the store's count (absent: 0).
    pub fn check_existing_report(&self, count: Option<i64>) -> (r: bool)
        ensures
            r == (match count {
                Some(c) => c > 0,
                None => false,
            }),
    {
        match count {
            Some(c) => c > 0,
            None => false,
        }
    }
}

} // verus!
