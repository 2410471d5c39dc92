//! Suspicious-activity reports: what is recorded for each kind of failure, and
//! how a recorded activity is marked resolved.
use vstd::prelude::*;
use crate::error::ServiceError;

verus! {

/// The severities of the activities this library reports itself; a report
/// handed in by a caller may carry any severity text.
#[derive(Clone, Copy, Debug, PartialEq, Eq, Structural)]
pub enum Severity {
    Medium,
    High,
}

impl Severity {
    /// The text stored for the severity.
    pub open spec fn spec_text(self) -> Seq<char> {
        match self {
            Severity::Medium => "medium"@,
            Severity::High => "high"@,
        }
    }

    /// The text stored for the severity.
    pub fn as_str(&self) -> (r: &'static str)
        ensures
            r@ == self.spec_text(),
    {
        match self {
            Severity::Medium => "medium",
            Severity::High => "high",
        }
    }
}

/// The text of named detail fields, in order.
pub open spec fn fields_text(fields: Seq<(String, String)>) -> Seq<(Seq<char>, Seq<char>)> {
    fields.map_values(|f: (String, String)| (f.0@, f.1@))
}

/// A suspicious activity to be recorded: whose it is, what happened, how
/// serious it is (any text; see `Severity` for the ones reported here), and
/// its details (`D`: named text fields, or a JSON value handed in by the caller).
#[derive(Debug)]
pub struct ActivityReport<D> {
    pub user_id: String,
    pub activity_type: String,
    pub severity: String,
    pub details: D,
}

/// One named detail field.
fn field(name: &str, value: &str) -> (r: (String, String))
    ensures
        r.0@ == name@,
        r.1@ == value@,
{
    (name.to_owned(), value.to_owned())
}

impl ActivityReport<Vec<(String, String)>> {
    /// A failed login, of medium severity, with the reason as its one detail.
    pub fn failed_login(user_id: String, reason: &str) -> (r: Self)
        ensures
            r.user_id@ == user_id@,
            r.activity_type@ == "failed_login"@,
            r.severity@ == Severity::Medium.spec_text(),
            fields_text(r.details@) == seq![("reason"@, reason@)],
    {
        let mut details: Vec<(String, String)> = Vec::new();
        details.push(field("reason", reason));
        let r = ActivityReport {
            user_id,
            activity_type: "failed_login".to_owned(),
            severity: Severity::Medium.as_str().to_owned(),
            details,
        };
        assert(fields_text(r.details@) =~= seq![("reason"@, reason@)]);
        r
    }

    /// A failed deposit, of high severity, with the transaction hash and the
    /// reason as details.
    pub fn failed_deposit(user_id: &str, tx_hash: &str, reason: &str) -> (r: Self)
        ensures
            r.user_id@ == user_id@,
            r.activity_type@ == "failed_deposit"@,
            r.severity@ == Severity::High.spec_text(),
            fields_text(r.details@) == seq![("tx_hash"@, tx_hash@), ("reason"@, reason@)],
    {
        let mut details: Vec<(String, String)> = Vec::new();
        details.push(field("tx_hash", tx_hash));
        details.push(field("reason", reason));
        let r = ActivityReport {
            user_id: user_id.to_owned(),
            activity_type: "failed_deposit".to_owned(),
            severity: Severity::High.as_str().to_owned(),
            details,
        };
        assert(fields_text(r.details@) =~= seq![("tx_hash"@, tx_hash@), ("reason"@, reason@)]);
        r
    }

    /// A failed withdrawal, of high severity, with the amount, the token and
    /// the reason as details.
    pub fn failed_withdrawal(user_id: &str, amount: &str, token: &str, reason: &str) -> (r: Self)
        ensures
            r.user_id@ == user_id@,
            r.activity_type@ == "failed_withdrawal"@,
            r.severity@ == Severity::High.spec_text(),
            fields_text(r.details@) == seq![
                ("amount"@, amount@),
                ("token"@, token@),
                ("reason"@, reason@),
            ],
    {
        let mut details: Vec<(String, String)> = Vec::new();
        details.push(field("amount", amount));
        details.push(field("token", token));
        details.push(field("reason", reason));
        let r = ActivityReport {
            user_id: user_id.to_owned(),
            activity_type: "failed_withdrawal".to_owned(),
            severity: Severity::High.as_str().to_owned(),
            details,
        };
        assert(fields_text(r.details@) =~= seq![
            ("amount"@, amount@),
            ("token"@, token@),
            ("reason"@, reason@),
        ]);
        r
    }
}

impl<D> ActivityReport<D> {
    /// A report with exactly the given user, type, severity and details; the
    /// severity is any text and is kept as it is.
    pub fn new(user_id: String, activity_type: String, severity: String, details: D) -> (r: Self)
        ensures
            r.user_id == user_id,
            r.activity_type == activity_type,
            r.severity == severity,
            r.details == details,
    {
        ActivityReport { user_id, activity_type, severity, details }
    }

    /// Any other unusual activity, of medium severity, with the caller's type
    /// and details.
    pub fn unusual_activity(user_id: String, activity_type: &str, details: D) -> (r: Self)
        ensures
            r.user_id@ == user_id@,
            r.activity_type@ == activity_type@,
            r.severity@ == Severity::Medium.spec_text(),
            r.details == details,
    {
        ActivityReport { user_id, activity_type: activity_type.to_owned(), severity: Severity::Medium.as_str().to_owned(), details }
    }
}

/// An instant, as seconds and nanoseconds since the Unix epoch (UTC).
#[derive(Clone, Copy, Debug, PartialEq, Eq, Structural)]
pub struct Timestamp {
    pub secs: i64,
    pub nanos: u32,
}

/// Whether a recorded activity has been resolved, and when.
#[derive(Clone, Copy, Debug, PartialEq, Eq, Structural)]
pub struct Resolution {
    pub resolved: bool,
    pub resolved_at: Option<Timestamp>,
}

impl Resolution {
    /// A freshly recorded activity: not resolved, no resolution time.
    pub fn unresolved() -> (r: Resolution)
        ensures
            !r.resolved,
            r.resolved_at is None,
    {
        Resolution { resolved: false, resolved_at: None }
    }
}

/// A recorded activity: the report and its resolution.
#[derive(Debug)]
pub struct ActivityRecord<D> {
    pub report: ActivityReport<D>,
    pub resolution: Resolution,
}

impl<D> ActivityRecord<D> {
    /// The record stored for a new report: unresolved.
    pub fn unresolved(report: ActivityReport<D>) -> (r: ActivityRecord<D>)
        ensures
            r.report == report,
            !r.resolution.resolved,
            r.resolution.resolved_at is None,
    {
        ActivityRecord { report, resolution: Resolution::unresolved() }
    }
}

/// The resolution of the activity that was looked up (`None` where it does
/// not exist) once it is marked resolved at `now`; a missing activity is a bad
/// request ("Activity not found").
pub fn resolve_at(found: Option<Resolution>, now: Timestamp) -> (r: Result<Resolution, ServiceError>)
    ensures
        found is None <==> r is Err,
        r matches Ok(res) ==> res == (Resolution { resolved: true, resolved_at: Some(now) }),
        r matches Err(e) ==> e.is_bad_request("Activity not found"@),
{
    match found {
        Some(_) => Ok(Resolution { resolved: true, resolved_at: Some(now) }),
        None => Err(ServiceError::activity_not_found()),
    }
}

/// `chrono::Utc::now()`: the current UTC time as whole seconds and the
/// nanoseconds past them. It reads the system clock as a duration since the
/// Unix epoch, so the seconds are not negative and the nanoseconds lie below
/// one second; which instant it is, is not claimed.
#[verifier::external_body]
fn clock_now() -> (r: Timestamp)
    ensures
        r.secs >= 0,
        r.nanos < 1_000_000_000,
{
    let now = chrono::Utc::now();
    Timestamp { secs: now.timestamp(), nanos: now.timestamp_subsec_nanos() }
}

/// Marks the activity that was looked up as resolved now (the clock is read
/// only when the activity exists); a missing activity is a bad request
/// ("Activity not found").
pub fn resolve(found: Option<Resolution>) -> (r: Result<Resolution, ServiceError>)
    ensures
        found is None <==> r is Err,
        r matches Ok(res) ==> res.resolved && (res.resolved_at matches Some(t) && t.secs >= 0
            && t.nanos < 1_000_000_000),
        r matches Err(e) ==> e.is_bad_request("Activity not found"@),
{
    match found {
        Some(_) => {
            let now = clock_now();
            resolve_at(found, now)
        },
        None => Err(ServiceError::activity_not_found()),
    }
}

} // verus!
