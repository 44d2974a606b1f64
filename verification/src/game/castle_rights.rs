use vstd::prelude::*;

verus! {

/// Which castling options a side still holds.
///
/// Rights are monotonically revocable and never restorable: `revoke_right`
/// only removes options.
#[derive(PartialEq, Eq, Structural, Clone, Copy, Debug)]
pub enum CastleRights {
    QueenSide,
    KingSide,
    Both,
    Neither,
}

impl CastleRights {
    /// The rights left after removing `right` from the held rights.
    /// Revoking an absent right is a no-op; revoking `Both` removes
    /// whatever is held; revoking `Neither` removes nothing.
    pub open spec fn spec_revoke(self, right: CastleRights) -> CastleRights {
        match right {
            CastleRights::Neither => self,
            CastleRights::Both => CastleRights::Neither,
            CastleRights::KingSide => match self {
                CastleRights::Both => CastleRights::QueenSide,
                CastleRights::KingSide => CastleRights::Neither,
                CastleRights::QueenSide => CastleRights::QueenSide,
                CastleRights::Neither => CastleRights::Neither,
            },
            CastleRights::QueenSide => match self {
                CastleRights::Both => CastleRights::KingSide,
                CastleRights::KingSide => CastleRights::KingSide,
                CastleRights::QueenSide => CastleRights::Neither,
                CastleRights::Neither => CastleRights::Neither,
            },
        }
    }

    /// Total, pure transition over all 16 `(state, right)` pairs.
    pub fn revoke_right(&self, right: CastleRights) -> (r: CastleRights)
        ensures
            r == self.spec_revoke(right),
    {
        match right {
            CastleRights::Neither => *self,
            CastleRights::Both => CastleRights::Neither,
            CastleRights::KingSide => match self {
                CastleRights::Both => CastleRights::QueenSide,
                CastleRights::KingSide => CastleRights::Neither,
                CastleRights::QueenSide => CastleRights::QueenSide,
                CastleRights::Neither => CastleRights::Neither,
            },
            CastleRights::QueenSide => match self {
                CastleRights::Both => CastleRights::KingSide,
                CastleRights::KingSide => CastleRights::KingSide,
                CastleRights::QueenSide => CastleRights::Neither,
                CastleRights::Neither => CastleRights::Neither,
            },
        }
    }

    /// Whether holding these rights permits castling on the side `right`.
    /// Holding `Neither` permits nothing; holding `Both` permits either side.
    pub open spec fn spec_permits(self, right: CastleRights) -> bool {
        if self == CastleRights::Neither {
            false
        } else {
            self == right || self == CastleRights::Both
        }
    }

    /// The subset order on rights: `self` holds no option that `other`
    /// lacks.
    pub open spec fn spec_le(self, other: CastleRights) -> bool {
        match self {
            CastleRights::Neither => true,
            CastleRights::KingSide => other == CastleRights::KingSide || other == CastleRights::Both,
            CastleRights::QueenSide => other == CastleRights::QueenSide || other
                == CastleRights::Both,
            CastleRights::Both => other == CastleRights::Both,
        }
    }
}

/// Revocation only removes options: the rights left after any revocation
/// are a subset of the rights held before.
pub proof fn lemma_revoke_decreases(held: CastleRights, right: CastleRights)
    ensures
        held.spec_revoke(right).spec_le(held),
{
}

} // verus!
