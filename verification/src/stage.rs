//! Evolution stages and the rule that decides whether a stage may be entered.

use vstd::prelude::*;
use vstd::string::*;
use crate::error::AeternaError;

verus! {

/// Experience needed to become Active.
pub const THRESHOLD_ACTIVE: u64 = 100;

/// Experience needed to become Ascended.
pub const THRESHOLD_ASCENDED: u64 = 1000;

/// The discrete evolution level of an asset.
#[derive(Clone, Copy, Debug, PartialEq, Eq, Structural)]
pub enum Stage {
    Dormant,
    Active,
    Ascended,
}

impl Stage {
    /// The number a stage is stored and requested by.
    pub open spec fn rank(self) -> nat {
        match self {
            Stage::Dormant => 0,
            Stage::Active => 1,
            Stage::Ascended => 2,
        }
    }

    /// Experience that must have been reached to enter the stage.
    pub open spec fn required_xp(self) -> nat {
        match self {
            Stage::Dormant => 0,
            Stage::Active => 100,
            Stage::Ascended => 1000,
        }
    }

    /// The status label mirrored for the stage.
    pub open spec fn label_text(self) -> Seq<char> {
        match self {
            Stage::Dormant => "Dormant"@,
            Stage::Active => "Active"@,
            Stage::Ascended => "Ascended"@,
        }
    }

    /// The stage's number: 0, 1 or 2.
    pub fn as_u8(&self) -> (n: u8)
        ensures
            n == self.rank(),
    {
        match self {
            Stage::Dormant => 0,
            Stage::Active => 1,
            Stage::Ascended => 2,
        }
    }

    /// The stage with the given number, if there is one.
    pub fn from_u8(n: u8) -> (stage: Option<Stage>)
        ensures
            stage is Some <==> n <= 2,
            stage matches Some(s) ==> s.rank() == n,
    {
        match n {
            0 => Some(Stage::Dormant),
            1 => Some(Stage::Active),
            2 => Some(Stage::Ascended),
            _ => None,
        }
    }

    /// Experience that must have been reached to enter the stage.
    pub fn threshold(&self) -> (xp: u64)
        ensures
            xp == self.required_xp(),
    {
        match self {
            Stage::Dormant => 0,
            Stage::Active => THRESHOLD_ACTIVE,
            Stage::Ascended => THRESHOLD_ASCENDED,
        }
    }

    /// The status label mirrored for the stage.
    pub fn label(&self) -> (text: String)
        ensures
            text@ == self.label_text(),
    {
        match self {
            Stage::Dormant => String::from_str("Dormant"),
            Stage::Active => String::from_str("Active"),
            Stage::Ascended => String::from_str("Ascended"),
        }
    }
}

/// The stage a request number names as a target: Active for 1, Ascended
/// for 2. Dormant is never a target.
pub open spec fn requested_target(requested: u8) -> Option<Stage> {
    if requested == 1 {
        Some(Stage::Active)
    } else if requested == 2 {
        Some(Stage::Ascended)
    } else {
        None
    }
}

/// What the evolution rule answers for a request, given the stage and
/// experience the asset has now. A request is refused as an invalid stage
/// unless it names a target strictly above the current stage; a valid
/// request is refused for want of experience below the target's
/// threshold; otherwise the target is granted.
pub open spec fn gate(current: Stage, requested: u8, xp: u64) -> Result<Stage, AeternaError> {
    match requested_target(requested) {
        None => Err(AeternaError::InvalidStage),
        Some(target) => if target.rank() <= current.rank() {
            Err(AeternaError::InvalidStage)
        } else if xp < target.required_xp() {
            Err(AeternaError::NotEnoughXp)
        } else {
            Ok(target)
        },
    }
}

/// Decides whether an asset at `current` with `xp` experience may move to
/// the stage numbered `requested`. Changes nothing.
pub fn evaluate(current: Stage, requested: u8, xp: u64) -> (verdict: Result<Stage, AeternaError>)
    ensures
        verdict == gate(current, requested, xp),
        verdict matches Ok(target) ==> target.rank() == requested && target.rank() > current.rank()
            && xp >= target.required_xp(),
        verdict == Err::<Stage, AeternaError>(AeternaError::InvalidStage) <==> !(1 <= requested <= 2
            && requested > current.rank()),
        verdict == Err::<Stage, AeternaError>(AeternaError::NotEnoughXp) <==> (1 <= requested <= 2
            && requested > current.rank() && ((requested == 1 && xp < 100) || (requested == 2 && xp
            < 1000))),
{
    let target = match requested {
        1 => Stage::Active,
        2 => Stage::Ascended,
        _ => {
            return Err(AeternaError::InvalidStage);
        },
    };
    if target.as_u8() <= current.as_u8() {
        return Err(AeternaError::InvalidStage);
    }
    if xp < target.threshold() {
        return Err(AeternaError::NotEnoughXp);
    }
    Ok(target)
}

/// A request for a stage that is not above the current one is always
/// refused as an invalid stage, whatever the experience.
pub proof fn lemma_no_downgrade(current: Stage, requested: u8, xp: u64)
    requires
        requested <= current.rank(),
    ensures
        gate(current, requested, xp) == Err::<Stage, AeternaError>(AeternaError::InvalidStage),
{
}

/// The threshold rule. A request for Active is accepted exactly when the
/// asset is below Active and has at least 100 experience; a request for
/// Ascended exactly when it is below Ascended and has at least 1000. A
/// request for a higher stage that falls short is refused for want of
/// experience, from whichever stage it is made.
pub proof fn lemma_threshold_gate(current: Stage, xp: u64)
    ensures
        gate(current, 1, xp) is Ok <==> current.rank() < 1 && xp >= 100,
        gate(current, 2, xp) is Ok <==> current.rank() < 2 && xp >= 1000,
        current.rank() < 1 && xp < 100 ==> gate(current, 1, xp) == Err::<Stage, AeternaError>(
            AeternaError::NotEnoughXp,
        ),
        current.rank() < 2 && xp < 1000 ==> gate(current, 2, xp) == Err::<Stage, AeternaError>(
            AeternaError::NotEnoughXp,
        ),
        gate(current, 1, xp) is Ok ==> gate(current, 1, xp) == Ok::<Stage, AeternaError>(
            Stage::Active,
        ),
        gate(current, 2, xp) is Ok ==> gate(current, 2, xp) == Ok::<Stage, AeternaError>(
            Stage::Ascended,
        ),
{
}

/// The evolution rule never grants a stage at or below the current one, and never
/// one whose threshold the experience has not reached.
pub proof fn lemma_gate_only_raises(current: Stage, requested: u8, xp: u64)
    ensures
        gate(current, requested, xp) matches Ok(target) ==> target.rank() > current.rank() && xp
            >= target.required_xp() && target.rank() == requested,
{
}

} // verus!
