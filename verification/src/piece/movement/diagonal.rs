use vstd::prelude::*;

use crate::board::relative_position::RelativePosition;
use crate::piece::movement::linear::lemma_push_keeps_no_duplicates;

verus! {

/// A displacement is diagonal when its deltas have equal magnitude and are
/// nonzero.
pub open spec fn is_diagonal(d: RelativePosition) -> bool {
    (d.file == d.rank || d.file == -d.rank) && d.file != 0
}

/// Returns whether the displacement is a valid diagonal move at any
/// distance.
pub fn is_valid_diagonal_move(position: &RelativePosition) -> (r: bool)
    ensures
        r == is_diagonal(*position),
{
    let f: i16 = position.file as i16;
    let r: i16 = position.rank as i16;
    (f == r || f == -r) && f != 0
}

/// Enumerates the complete, obstruction-blind set of diagonal
/// displacements: the 28 displacements at distances 1..=7 along the 4
/// diagonal directions, without duplicates.
pub fn diagonal_moves() -> (r: Vec<RelativePosition>)
    ensures
        forall|i: int| 0 <= i < r@.len() ==> (#[trigger] r@[i]).wf() && is_diagonal(r@[i]),
        forall|d: RelativePosition| d.wf() && is_diagonal(d) ==> r@.contains(d),
        r@.no_duplicates(),
        r@.len() == 28,
{
    let mut moves: Vec<RelativePosition> = Vec::new();
    let mut dist: i8 = 1;
    while dist <= 7
        invariant
            1 <= dist <= 8,
            moves@.len() == 4 * (dist - 1),
            forall|i: int|
                0 <= i < moves@.len() ==> (#[trigger] moves@[i]).wf() && is_diagonal(moves@[i])
                    && -dist < moves@[i].file < dist && -dist < moves@[i].rank < dist,
            forall|d: RelativePosition|
                d.wf() && is_diagonal(d) && -dist < d.file < dist && -dist < d.rank < dist
                    ==> moves@.contains(d),
            moves@.no_duplicates(),
        decreases 8 - dist,
    {
        let ghost prior = moves@;
        moves.push(RelativePosition { file: dist, rank: dist });
        moves.push(RelativePosition { file: dist, rank: -dist });
        moves.push(RelativePosition { file: -dist, rank: dist });
        moves.push(RelativePosition { file: -dist, rank: -dist });
        proof {
            let a = RelativePosition { file: dist, rank: dist };
            let b = RelativePosition { file: dist, rank: (-dist) as i8 };
            let c = RelativePosition { file: (-dist) as i8, rank: dist };
            let d = RelativePosition { file: (-dist) as i8, rank: (-dist) as i8 };
            assert(moves@ =~= prior.push(a).push(b).push(c).push(d));
            assert(!prior.contains(a)) by {
                if prior.contains(a) {
                    let k = choose|k: int| 0 <= k < prior.len() && prior[k] == a;
                    assert(prior[k].file < dist);
                }
            }
            lemma_push_keeps_no_duplicates(prior, a);
            let p1 = prior.push(a);
            assert(!p1.contains(b)) by {
                if p1.contains(b) {
                    let k = choose|k: int| 0 <= k < p1.len() && p1[k] == b;
                    if k < prior.len() {
                        assert(prior[k].file < dist);
                    }
                }
            }
            lemma_push_keeps_no_duplicates(p1, b);
            let p2 = p1.push(b);
            assert(!p2.contains(c)) by {
                if p2.contains(c) {
                    let k = choose|k: int| 0 <= k < p2.len() && p2[k] == c;
                    if k < prior.len() {
                        assert(-dist < prior[k].file);
                    }
                }
            }
            lemma_push_keeps_no_duplicates(p2, c);
            let p3 = p2.push(c);
            assert(!p3.contains(d)) by {
                if p3.contains(d) {
                    let k = choose|k: int| 0 <= k < p3.len() && p3[k] == d;
                    if k < prior.len() {
                        assert(-dist < prior[k].file);
                    }
                }
            }
            lemma_push_keeps_no_duplicates(p3, d);
            assert(moves@.no_duplicates());
            assert forall|e: RelativePosition|
                e.wf() && is_diagonal(e) && -(dist + 1) < e.file < dist + 1 && -(dist + 1) < e.rank
                    < dist + 1 implies moves@.contains(e) by {
                if -dist < e.file < dist && -dist < e.rank < dist {
                    let k = choose|k: int| 0 <= k < prior.len() && prior[k] == e;
                    assert(moves@[k] == e);
                } else if e == a {
                    assert(moves@[prior.len() as int] == e);
                } else if e == b {
                    assert(moves@[prior.len() as int + 1] == e);
                } else if e == c {
                    assert(moves@[prior.len() as int + 2] == e);
                } else {
                    assert(e == d);
                    assert(moves@[prior.len() as int + 3] == e);
                }
            }
        }
        dist = dist + 1;
    }
    moves
}

} // verus!
