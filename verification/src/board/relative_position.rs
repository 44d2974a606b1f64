use vstd::prelude::*;

use crate::board::position::Position;
use crate::error::Error;

verus! {

/// A bounded displacement between two squares: a file delta and a rank
/// delta, each in `-7..=7`.  All movement geometry is expressed in these
/// displacement terms.
#[derive(PartialEq, Eq, Structural, Clone, Copy, Debug)]
pub struct RelativePosition {
    pub file: i8,
    pub rank: i8,
}

impl RelativePosition {
    /// A displacement is well formed when both deltas lie in `-7..=7`.
    pub open spec fn wf(self) -> bool {
        -7 <= self.file <= 7 && -7 <= self.rank <= 7
    }

    /// What `new` returns: a displacement for in-range deltas, an
    /// out-of-bounds error otherwise.
    pub open spec fn spec_new(file: i8, rank: i8) -> Result<RelativePosition, Error> {
        if -7 <= file <= 7 && -7 <= rank <= 7 {
            Ok(RelativePosition { file, rank })
        } else {
            Err(Error::OutOfBounds)
        }
    }

    /// Constructs a displacement, failing if and only if either delta falls
    /// outside `-7..=7`.
    pub fn new(file: i8, rank: i8) -> (r: Result<RelativePosition, Error>)
        ensures
            r == Self::spec_new(file, rank),
            r is Ok <==> (-7 <= file <= 7 && -7 <= rank <= 7),
            r matches Ok(p) ==> p.wf() && p == (RelativePosition { file, rank }),
    {
        if file > 7 || file < -7 {
            return Err(Error::OutOfBounds);
        }
        if rank > 7 || rank < -7 {
            return Err(Error::OutOfBounds);
        }
        Ok(RelativePosition { file, rank })
    }

    /// The file delta.
    pub fn file(&self) -> (r: i8)
        ensures
            r == self.file,
    {
        self.file
    }

    /// The rank delta.
    pub fn rank(&self) -> (r: i8)
        ensures
            r == self.rank,
    {
        self.rank
    }

    /// What `from_absolute` returns: the displacement `to - from` when both
    /// deltas lie in `-7..=7`, an out-of-bounds error otherwise.
    pub open spec fn spec_from_absolute(from: Position, to: Position) -> Result<
        RelativePosition,
        Error,
    > {
        Self::spec_new((to.file - from.file) as i8, (to.rank - from.rank) as i8)
    }

    /// Derives the displacement `to - from`.  Never fails when both squares
    /// are well formed.
    pub fn from_absolute(from: &Position, to: &Position) -> (r: Result<RelativePosition, Error>)
        requires
            from.wf(),
            to.wf(),
        ensures
            r == Self::spec_from_absolute(*from, *to),
            r matches Ok(d) ==> d.wf() && d.file == to.file - from.file && d.rank == to.rank
                - from.rank,
            r is Ok,
    {
        let file: i8 = to.file as i8 - from.file as i8;
        let rank: i8 = to.rank as i8 - from.rank as i8;
        RelativePosition::new(file, rank)
    }
}

} // verus!
