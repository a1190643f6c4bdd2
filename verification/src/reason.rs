use vstd::prelude::*;
use crate::strutil::str_eq;

verus! {

/// Protocol-level revocation reason codes: the fixed taxonomy a stored
/// reason string is mapped into, with `Unspecified` as the default for any
/// string outside the eight named ones and for an absent reason.
#[derive(Clone, Copy, Debug, PartialEq, Eq, Structural)]
pub enum CrlReasonCode {
    Unspecified,
    KeyCompromise,
    CaCompromise,
    AffiliationChanged,
    Superseded,
    CessationOfOperation,
    CertificateHold,
    PrivilegeWithdrawn,
    AaCompromise,
}

/// The reason taxonomy: exact, case-sensitive match of a stored reason
/// string; anything else maps to `Unspecified`.
pub open spec fn spec_reason_code(s: Seq<char>) -> CrlReasonCode {
    if s == "key_compromise"@ {
        CrlReasonCode::KeyCompromise
    } else if s == "ca_compromise"@ {
        CrlReasonCode::CaCompromise
    } else if s == "affiliation_changed"@ {
        CrlReasonCode::AffiliationChanged
    } else if s == "superseded"@ {
        CrlReasonCode::Superseded
    } else if s == "cessation_of_operation"@ {
        CrlReasonCode::CessationOfOperation
    } else if s == "certificate_hold"@ {
        CrlReasonCode::CertificateHold
    } else if s == "privilege_withdrawn"@ {
        CrlReasonCode::PrivilegeWithdrawn
    } else if s == "aa_compromise"@ {
        CrlReasonCode::AaCompromise
    } else {
        CrlReasonCode::Unspecified
    }
}

/// A nullable stored reason: absence maps to `Unspecified`.
pub open spec fn spec_reason_of(stored: Option<Seq<char>>) -> CrlReasonCode {
    match stored {
        Some(s) => spec_reason_code(s),
        None => CrlReasonCode::Unspecified,
    }
}

pub fn reason_code_of(s: &str) -> (r: CrlReasonCode)
    ensures
        r == spec_reason_code(s@),
{
    if str_eq(s, "key_compromise") {
        CrlReasonCode::KeyCompromise
    } else if str_eq(s, "ca_compromise") {
        CrlReasonCode::CaCompromise
    } else if str_eq(s, "affiliation_changed") {
        CrlReasonCode::AffiliationChanged
    } else if str_eq(s, "superseded") {
        CrlReasonCode::Superseded
    } else if str_eq(s, "cessation_of_operation") {
        CrlReasonCode::CessationOfOperation
    } else if str_eq(s, "certificate_hold") {
        CrlReasonCode::CertificateHold
    } else if str_eq(s, "privilege_withdrawn") {
        CrlReasonCode::PrivilegeWithdrawn
    } else if str_eq(s, "aa_compromise") {
        CrlReasonCode::AaCompromise
    } else {
        CrlReasonCode::Unspecified
    }
}

/// The reason mapping is total: each of the eight named strings maps to its
/// own code, and every other string (and an absent reason) maps to
/// `Unspecified`.
pub proof fn lemma_reason_mapping_total(s: Seq<char>)
    ensures
        s == "key_compromise"@ ==> spec_reason_code(s) == CrlReasonCode::KeyCompromise,
        s == "ca_compromise"@ ==> spec_reason_code(s) == CrlReasonCode::CaCompromise,
        s == "affiliation_changed"@ ==> spec_reason_code(s) == CrlReasonCode::AffiliationChanged,
        s == "superseded"@ ==> spec_reason_code(s) == CrlReasonCode::Superseded,
        s == "cessation_of_operation"@ ==> spec_reason_code(s)
            == CrlReasonCode::CessationOfOperation,
        s == "certificate_hold"@ ==> spec_reason_code(s) == CrlReasonCode::CertificateHold,
        s == "privilege_withdrawn"@ ==> spec_reason_code(s) == CrlReasonCode::PrivilegeWithdrawn,
        s == "aa_compromise"@ ==> spec_reason_code(s) == CrlReasonCode::AaCompromise,
        (s != "key_compromise"@ && s != "ca_compromise"@ && s != "affiliation_changed"@ && s
            != "superseded"@ && s != "cessation_of_operation"@ && s != "certificate_hold"@ && s
            != "privilege_withdrawn"@ && s != "aa_compromise"@) ==> spec_reason_code(s)
            == CrlReasonCode::Unspecified,
        spec_reason_of(None) == CrlReasonCode::Unspecified,
{
    // The eight named strings are pairwise distinct, so at most one
    // taxonomy branch can apply to a given string.
    reveal_strlit("key_compromise");
    reveal_strlit("ca_compromise");
    reveal_strlit("affiliation_changed");
    reveal_strlit("superseded");
    reveal_strlit("cessation_of_operation");
    reveal_strlit("certificate_hold");
    reveal_strlit("privilege_withdrawn");
    reveal_strlit("aa_compromise");
    // Most pairs differ in length; the two same-length pairs differ in
    // their first character.
    assert("key_compromise"@.len() == 14);
    assert("ca_compromise"@.len() == 13);
    assert("affiliation_changed"@.len() == 19);
    assert("superseded"@.len() == 10);
    assert("cessation_of_operation"@.len() == 22);
    assert("certificate_hold"@.len() == 16);
    assert("privilege_withdrawn"@.len() == 19);
    assert("aa_compromise"@.len() == 13);
    assert("aa_compromise"@[0] != "ca_compromise"@[0]);
    assert("privilege_withdrawn"@[0] != "affiliation_changed"@[0]);
    assert("ca_compromise"@ != "key_compromise"@);
    assert("affiliation_changed"@ != "key_compromise"@);
    assert("affiliation_changed"@ != "ca_compromise"@);
    assert("superseded"@ != "key_compromise"@);
    assert("superseded"@ != "ca_compromise"@);
    assert("superseded"@ != "affiliation_changed"@);
    assert("cessation_of_operation"@ != "key_compromise"@);
    assert("cessation_of_operation"@ != "ca_compromise"@);
    assert("cessation_of_operation"@ != "affiliation_changed"@);
    assert("cessation_of_operation"@ != "superseded"@);
    assert("certificate_hold"@ != "key_compromise"@);
    assert("certificate_hold"@ != "ca_compromise"@);
    assert("certificate_hold"@ != "affiliation_changed"@);
    assert("certificate_hold"@ != "superseded"@);
    assert("certificate_hold"@ != "cessation_of_operation"@);
    assert("privilege_withdrawn"@ != "key_compromise"@);
    assert("privilege_withdrawn"@ != "ca_compromise"@);
    assert("privilege_withdrawn"@ != "affiliation_changed"@);
    assert("privilege_withdrawn"@ != "superseded"@);
    assert("privilege_withdrawn"@ != "cessation_of_operation"@);
    assert("privilege_withdrawn"@ != "certificate_hold"@);
    assert("aa_compromise"@ != "key_compromise"@);
    assert("aa_compromise"@ != "ca_compromise"@);
    assert("aa_compromise"@ != "affiliation_changed"@);
    assert("aa_compromise"@ != "superseded"@);
    assert("aa_compromise"@ != "cessation_of_operation"@);
    assert("aa_compromise"@ != "certificate_hold"@);
    assert("aa_compromise"@ != "privilege_withdrawn"@);
}

} // verus!
