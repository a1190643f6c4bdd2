use vstd::prelude::*;
use crate::reason::{spec_reason_of, reason_code_of, CrlReasonCode};
use crate::record::{spec_opt_record_view, CertRecord, CertRecordView};
use crate::strutil::str_eq;
use crate::timestamp::{epoch, spec_epoch, Timestamp};

verus! {

/// The status decision returned for a lookup: Good and Unknown carry no
/// further data; Revoked carries the resolved revocation time and reason.
#[derive(Clone, Copy, Debug, PartialEq, Eq, Structural)]
pub enum CertStatus {
    Good,
    Unknown,
    Revoked { time: Timestamp, reason: CrlReasonCode },
}

/// Resolved revocation time: the stored time when present and well formed,
/// otherwise the current wall-clock time at evaluation.
pub open spec fn spec_resolve_time(stored: Option<Timestamp>, now: Timestamp) -> Timestamp {
    match stored {
        Some(t) => if t.wf() {
            t
        } else {
            now
        },
        None => now,
    }
}

/// The status-resolution policy, shared by both backends.
///
/// No record: Unknown, unless the caller asked for absent records to be
/// assumed revoked, in which case Revoked with the epoch as sentinel time
/// and reason "certificate hold" (a policy marker, not a real event time).
/// A record whose status is exactly "Revoked": Revoked with resolved time
/// and reason. Any other record, whatever its other fields hold: Good.
pub open spec fn spec_resolve(
    rec: Option<CertRecordView>,
    assume_revoked: bool,
    now: Timestamp,
) -> CertStatus {
    match rec {
        None => if assume_revoked {
            CertStatus::Revoked { time: spec_epoch(), reason: CrlReasonCode::CertificateHold }
        } else {
            CertStatus::Unknown
        },
        Some(r) => if r.status == "Revoked"@ {
            CertStatus::Revoked {
                time: spec_resolve_time(r.revocation_time, now),
                reason: spec_reason_of(r.revocation_reason),
            }
        } else {
            CertStatus::Good
        },
    }
}

/// True exactly when the decision for `rec` depends on the wall clock:
/// a record that is "Revoked" with an absent or malformed stored time.
pub open spec fn spec_needs_clock(rec: Option<CertRecordView>) -> bool {
    match rec {
        None => false,
        Some(r) => r.status == "Revoked"@ && (match r.revocation_time {
            Some(t) => !t.wf(),
            None => true,
        }),
    }
}

/// Bounds that hold of every reading of the wall clock.
pub open spec fn spec_clock_ranges(t: Timestamp) -> bool {
    &&& 1 <= t.month <= 12
    &&& 1 <= t.day <= 31
    &&& t.hour <= 23
    &&& t.minute <= 59
    &&& t.second <= 59
}

/// The resolution algorithm, with the wall-clock reading passed in
/// explicitly so the decision is a function of its arguments alone.
pub fn resolve_status(rec: &Option<CertRecord>, assume_revoked: bool, now: Timestamp) -> (st:
    CertStatus)
    ensures
        st == spec_resolve(spec_opt_record_view(*rec), assume_revoked, now),
{
    match rec {
        None => {
            if assume_revoked {
                CertStatus::Revoked { time: epoch(), reason: CrlReasonCode::CertificateHold }
            } else {
                CertStatus::Unknown
            }
        },
        Some(r) => {
            if str_eq(r.status.as_str(), "Revoked") {
                let time = match &r.revocation_time {
                    Some(t) => if t.is_well_formed() {
                        *t
                    } else {
                        now
                    },
                    None => now,
                };
                let reason = match &r.revocation_reason {
                    Some(s) => reason_code_of(s.as_str()),
                    None => CrlReasonCode::Unspecified,
                };
                CertStatus::Revoked { time, reason }
            } else {
                CertStatus::Good
            }
        },
    }
}

/// Relies on chrono::Utc::now (via NaiveDateTime and the Datelike/Timelike
/// accessors) for the current UTC wall-clock time; chrono documents the
/// accessor ranges stated in the contract. Nothing more can be promised of
/// a clock reading.
#[verifier::external_body]
fn now_timestamp() -> (t: Timestamp)
    ensures
        spec_clock_ranges(t),
{
    let now = chrono::Utc::now().naive_utc();
    Timestamp {
        year: chrono::Datelike::year(&now),
        month: chrono::Datelike::month(&now),
        day: chrono::Datelike::day(&now),
        hour: chrono::Timelike::hour(&now),
        minute: chrono::Timelike::minute(&now),
        second: chrono::Timelike::second(&now),
    }
}

/// Resolves a lookup result into a status decision, reading the wall clock
/// for the fallback revocation time. The result is the resolution policy
/// applied at some clock reading; by `lemma_resolve_clock_independent` the
/// clock can only influence the malformed-or-absent-time branch.
pub fn check_cert_decision(rec: &Option<CertRecord>, assume_revoked: bool) -> (st: CertStatus)
    ensures
        exists|now: Timestamp|
            #[trigger] spec_clock_ranges(now) && st == spec_resolve(
                spec_opt_record_view(*rec),
                assume_revoked,
                now,
            ),
{
    let now = now_timestamp();
    let st = resolve_status(rec, assume_revoked, now);
    proof {
        assert(spec_clock_ranges(now) && st == spec_resolve(
            spec_opt_record_view(*rec),
            assume_revoked,
            now,
        ));
    }
    st
}

/// Unless the record is "Revoked" with an absent or malformed stored time,
/// the decision does not depend on the wall clock.
pub proof fn lemma_resolve_clock_independent(
    rec: Option<CertRecordView>,
    assume_revoked: bool,
    now1: Timestamp,
    now2: Timestamp,
)
    requires
        !spec_needs_clock(rec),
    ensures
        spec_resolve(rec, assume_revoked, now1) == spec_resolve(rec, assume_revoked, now2),
{
}

/// Absent record, policy flag off: the decision is Unknown.
pub proof fn lemma_absent_not_assumed(now: Timestamp)
    ensures
        spec_resolve(None, false, now) == CertStatus::Unknown,
{
}

/// Absent record, policy flag on: the decision is Revoked with the epoch
/// sentinel time and reason "certificate hold", whatever the clock reads.
pub proof fn lemma_absent_assumed_revoked(now: Timestamp)
    ensures
        spec_resolve(None, true, now) == (CertStatus::Revoked {
            time: spec_epoch(),
            reason: CrlReasonCode::CertificateHold,
        }),
{
}

/// A record whose status is not exactly "Revoked" — in particular "Valid" —
/// resolves to Good, whatever its revocation fields hold.
pub proof fn lemma_non_revoked_is_good(
    r: CertRecordView,
    assume_revoked: bool,
    now: Timestamp,
)
    requires
        r.status != "Revoked"@,
    ensures
        spec_resolve(Some(r), assume_revoked, now) == CertStatus::Good,
{
}

/// A "Valid" record resolves to Good: "Valid" is not "Revoked".
pub proof fn lemma_valid_is_good(r: CertRecordView, assume_revoked: bool, now: Timestamp)
    requires
        r.status == "Valid"@,
    ensures
        spec_resolve(Some(r), assume_revoked, now) == CertStatus::Good,
{
    reveal_strlit("Valid");
    reveal_strlit("Revoked");
    assert("Valid"@.len() == 5);
    assert("Revoked"@.len() == 7);
    lemma_non_revoked_is_good(r, assume_revoked, now);
}

/// A "Revoked" record with a well-formed stored time resolves to Revoked
/// carrying exactly that stored time.
pub proof fn lemma_revoked_wellformed_time(
    r: CertRecordView,
    assume_revoked: bool,
    now: Timestamp,
    t: Timestamp,
)
    requires
        r.status == "Revoked"@,
        r.revocation_time == Some(t),
        t.wf(),
    ensures
        spec_resolve(Some(r), assume_revoked, now) == (CertStatus::Revoked {
            time: t,
            reason: spec_reason_of(r.revocation_reason),
        }),
{
}

/// A "Revoked" record with an absent or malformed stored time resolves to
/// Revoked carrying the wall-clock reading made at evaluation.
pub proof fn lemma_revoked_fallback_time(
    r: CertRecordView,
    assume_revoked: bool,
    now: Timestamp,
)
    requires
        spec_needs_clock(Some(r)),
    ensures
        spec_resolve(Some(r), assume_revoked, now) == (CertStatus::Revoked {
            time: now,
            reason: spec_reason_of(r.revocation_reason),
        }),
{
}

} // verus!
