//! The reasons for which the ledger rejects an operation.

use vstd::prelude::*;
use vstd::string::*;

verus! {

/// Every rejection the ledger can return.
#[derive(Clone, Copy, Debug, PartialEq, Eq, Structural)]
pub enum AeternaError {
    /// The caller is not the principal this operation is reserved for.
    Unauthorized,
    /// The invite code presented at initialization is not the accepted one.
    InvalidInviteCode,
    /// The requested stage needs more experience than the asset has.
    NotEnoughXp,
    /// The requested stage is not a stage above the current one.
    InvalidStage,
    /// The asset is still Dormant and cannot earn through quests.
    NotActivated,
    /// The quest's event is not open.
    EventInactive,
    /// This asset has already been rewarded for this quest.
    DuplicateCompletion,
    /// The asset's recorded owner could not be read or is not the claimed one.
    OwnershipMismatch,
}

impl AeternaError {
    /// Position of this rejection in the declaration order.
    pub open spec fn index(self) -> nat {
        match self {
            AeternaError::Unauthorized => 0,
            AeternaError::InvalidInviteCode => 1,
            AeternaError::NotEnoughXp => 2,
            AeternaError::InvalidStage => 3,
            AeternaError::NotActivated => 4,
            AeternaError::EventInactive => 5,
            AeternaError::DuplicateCompletion => 6,
            AeternaError::OwnershipMismatch => 7,
        }
    }

    /// The text shown to a caller for this rejection.
    pub open spec fn message_text(self) -> Seq<char> {
        match self {
            AeternaError::Unauthorized => "You are not the owner of this asset."@,
            AeternaError::InvalidInviteCode => "Invalid Invite Code. Access Denied."@,
            AeternaError::NotEnoughXp => "Not enough XP to evolve. Keep grinding."@,
            AeternaError::InvalidStage => "Invalid evolution stage target."@,
            AeternaError::NotActivated => "This Soul is Dormant and cannot earn XP. Activate it first."@,
            AeternaError::EventInactive => "This Event is not active."@,
            AeternaError::DuplicateCompletion => "This quest has already been completed by this asset."@,
            AeternaError::OwnershipMismatch => "The asset is not owned by the claimed owner."@,
        }
    }

    /// Numeric code of the rejection: custom codes start at 6000 and follow
    /// declaration order.
    pub fn code(&self) -> (code: u32)
        ensures
            code == 6000 + self.index(),
    {
        match self {
            AeternaError::Unauthorized => 6000,
            AeternaError::InvalidInviteCode => 6001,
            AeternaError::NotEnoughXp => 6002,
            AeternaError::InvalidStage => 6003,
            AeternaError::NotActivated => 6004,
            AeternaError::EventInactive => 6005,
            AeternaError::DuplicateCompletion => 6006,
            AeternaError::OwnershipMismatch => 6007,
        }
    }

    /// The human-readable message of the rejection.
    pub fn message(&self) -> (text: String)
        ensures
            text@ == self.message_text(),
    {
        match self {
            AeternaError::Unauthorized => String::from_str("You are not the owner of this asset."),
            AeternaError::InvalidInviteCode => String::from_str("Invalid Invite Code. Access Denied."),
            AeternaError::NotEnoughXp => String::from_str("Not enough XP to evolve. Keep grinding."),
            AeternaError::InvalidStage => String::from_str("Invalid evolution stage target."),
            AeternaError::NotActivated => String::from_str("This Soul is Dormant and cannot earn XP. Activate it first."),
            AeternaError::EventInactive => String::from_str("This Event is not active."),
            AeternaError::DuplicateCompletion => String::from_str("This quest has already been completed by this asset."),
            AeternaError::OwnershipMismatch => String::from_str("The asset is not owned by the claimed owner."),
        }
    }
}

} // verus!
