use vstd::prelude::*;
use crate::timestamp::Timestamp;

verus! {

/// One stored certificate row, as handed to the resolution algorithm: the
/// raw status string, the nullable revocation time (already brought into
/// plain year/month/day/hour/minute/second form, possibly malformed), and
/// the nullable raw reason string.
pub struct CertRecord {
    pub status: String,
    pub revocation_time: Option<Timestamp>,
    pub revocation_reason: Option<String>,
}

/// Mathematical view of a stored row: strings become character sequences.
pub ghost struct CertRecordView {
    pub status: Seq<char>,
    pub revocation_time: Option<Timestamp>,
    pub revocation_reason: Option<Seq<char>>,
}

impl View for CertRecord {
    type V = CertRecordView;

    open spec fn view(&self) -> CertRecordView {
        CertRecordView {
            status: self.status@,
            revocation_time: self.revocation_time,
            revocation_reason: match self.revocation_reason {
                Some(r) => Some(r@),
                None => None,
            },
        }
    }
}

/// View of a zero-or-one row lookup result.
pub open spec fn spec_opt_record_view(rec: Option<CertRecord>) -> Option<CertRecordView> {
    match rec {
        Some(r) => Some(r@),
        None => None,
    }
}

} // verus!
