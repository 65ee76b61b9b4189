//! The ways in which an export can fail.

use vstd::prelude::*;

verus! {

/// Why a voucher, or a whole run, could not be exported.
#[derive(Clone, Copy, Debug, PartialEq, Eq, Structural)]
pub enum ExportError {
    /// An account type code outside the known set.
    UnknownAccountType,
    /// A voucher type code outside the known set.
    UnknownVoucherType,
    /// A leg names an account id that the account directory does not hold.
    UnknownAccount,
    /// A voucher whose party rule needs a leg, and no leg qualifies.
    NoPartyCandidate,
    /// An alias table that cannot be read as rows of source and target name.
    MalformedAliasTable,
    /// A voucher whose party ledger is not among its own entries.
    ConsistencyViolation,
}

impl ExportError {
    /// A short name for the error, for run summaries.
    pub fn kind(&self) -> (name: &'static str)
        ensures
            name@ == match *self {
                ExportError::UnknownAccountType => "UnknownAccountType"@,
                ExportError::UnknownVoucherType => "UnknownVoucherType"@,
                ExportError::UnknownAccount => "UnknownAccount"@,
                ExportError::NoPartyCandidate => "NoPartyCandidate"@,
                ExportError::MalformedAliasTable => "MalformedAliasTable"@,
                ExportError::ConsistencyViolation => "ConsistencyViolation"@,
            },
    {
        match self {
            ExportError::UnknownAccountType => "UnknownAccountType",
            ExportError::UnknownVoucherType => "UnknownVoucherType",
            ExportError::UnknownAccount => "UnknownAccount",
            ExportError::NoPartyCandidate => "NoPartyCandidate",
            ExportError::MalformedAliasTable => "MalformedAliasTable",
            ExportError::ConsistencyViolation => "ConsistencyViolation",
        }
    }
}

} // verus!
