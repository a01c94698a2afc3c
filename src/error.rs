//! Failure kinds of every operation.
use vstd::prelude::*;

verus! {

/// The broad class of a failure: who may act, in which state, within which bound.
#[derive(Clone, Copy, Debug, PartialEq, Eq, Structural)]
pub enum ErrorKind {
    /// The caller is not the recorded owner, or an identity does not match.
    Authorization,
    /// A vault, record or organization is not in a state that allows the operation.
    State,
    /// A list or a counter is at its maximum.
    Capacity,
    /// No matching grant, or no matching reverse-index entry.
    NotFound,
    /// An input exceeds its bound.
    Validation,
}

/// Every way in which an operation can be refused.
#[derive(Clone, Copy, Debug, PartialEq, Eq, Structural)]
pub enum ErrorCode {
    RecordTooLarge,
    DescriptionTooLong,
    FileTypeTooLong,
    TitleTooLong,
    AccessAlreadyGranted,
    AccessNotFound,
    UnauthorizedAccess,
    VaultDeactivated,
    VaultAlreadyRegistered,
    RecordDeactivated,
    RecordAlreadyDeactivated,
    MaxRecordsReached,
    MaxAccessReached,
    CounterExhausted,
    InvalidRecordId,
    InvalidDuration,
    NameTooLong,
    ContactInfoTooLong,
    OrganizationDeactivated,
    OrganizationAlreadyRegistered,
    InvalidOrganization,
    ReverseIndexMismatch,
    NodeAlreadyRegistered,
}

impl ErrorCode {
    pub open spec fn spec_kind(self) -> ErrorKind {
        match self {
            ErrorCode::UnauthorizedAccess | ErrorCode::InvalidOrganization
            | ErrorCode::InvalidRecordId => ErrorKind::Authorization,
            ErrorCode::VaultDeactivated | ErrorCode::VaultAlreadyRegistered
            | ErrorCode::RecordDeactivated | ErrorCode::RecordAlreadyDeactivated
            | ErrorCode::OrganizationDeactivated | ErrorCode::OrganizationAlreadyRegistered
            | ErrorCode::AccessAlreadyGranted | ErrorCode::NodeAlreadyRegistered => ErrorKind::State,
            ErrorCode::MaxRecordsReached | ErrorCode::MaxAccessReached
            | ErrorCode::CounterExhausted => ErrorKind::Capacity,
            ErrorCode::AccessNotFound | ErrorCode::ReverseIndexMismatch => ErrorKind::NotFound,
            ErrorCode::RecordTooLarge | ErrorCode::DescriptionTooLong
            | ErrorCode::FileTypeTooLong | ErrorCode::TitleTooLong
            | ErrorCode::InvalidDuration | ErrorCode::NameTooLong
            | ErrorCode::ContactInfoTooLong => ErrorKind::Validation,
        }
    }

    /// The class this failure belongs to.
    pub fn kind(&self) -> (r: ErrorKind)
        ensures
            r == self.spec_kind(),
    {
        match self {
            ErrorCode::UnauthorizedAccess | ErrorCode::InvalidOrganization
            | ErrorCode::InvalidRecordId => ErrorKind::Authorization,
            ErrorCode::VaultDeactivated | ErrorCode::VaultAlreadyRegistered
            | ErrorCode::RecordDeactivated | ErrorCode::RecordAlreadyDeactivated
            | ErrorCode::OrganizationDeactivated | ErrorCode::OrganizationAlreadyRegistered
            | ErrorCode::AccessAlreadyGranted | ErrorCode::NodeAlreadyRegistered => ErrorKind::State,
            ErrorCode::MaxRecordsReached | ErrorCode::MaxAccessReached
            | ErrorCode::CounterExhausted => ErrorKind::Capacity,
            ErrorCode::AccessNotFound | ErrorCode::ReverseIndexMismatch => ErrorKind::NotFound,
            ErrorCode::RecordTooLarge | ErrorCode::DescriptionTooLong
            | ErrorCode::FileTypeTooLong | ErrorCode::TitleTooLong
            | ErrorCode::InvalidDuration | ErrorCode::NameTooLong
            | ErrorCode::ContactInfoTooLong => ErrorKind::Validation,
        }
    }
}

} // verus!
