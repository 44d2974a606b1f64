use vstd::prelude::*;

use crate::board::relative_position::RelativePosition;

verus! {

/// A displacement is linear when exactly one of its axes is nonzero: it
/// runs along a file or along a rank.
pub open spec fn is_linear(d: RelativePosition) -> bool {
    (d.file == 0 && d.rank != 0) || (d.file != 0 && d.rank == 0)
}

/// Returns whether the displacement is a valid linear move at any distance.
pub fn is_valid_linear_move(position: &RelativePosition) -> (r: bool)
    ensures
        r == is_linear(*position),
{
    (position.file == 0 && position.rank != 0) || (position.file != 0 && position.rank == 0)
}

/// Extending a duplicate-free sequence with a fresh element keeps it
/// duplicate-free.
pub proof fn lemma_push_keeps_no_duplicates<A>(s: Seq<A>, e: A)
    requires
        s.no_duplicates(),
        !s.contains(e),
    ensures
        s.push(e).no_duplicates(),
{
    assert forall|i: int, j: int|
        0 <= i < s.push(e).len() && 0 <= j < s.push(e).len() && i != j implies s.push(e)[i] != s
        .push(e)[j] by {
        if i == s.len() {
            if s[j] == e {
                assert(s.contains(e));
            }
        } else if j == s.len() {
            if s[i] == e {
                assert(s.contains(e));
            }
        }
    }
}

/// Enumerates the complete, obstruction-blind set of linear displacements:
/// the 28 displacements at distances 1..=7 along the 4 axis directions,
/// without duplicates.
pub fn linear_moves() -> (r: Vec<RelativePosition>)
    ensures
        forall|i: int| 0 <= i < r@.len() ==> (#[trigger] r@[i]).wf() && is_linear(r@[i]),
        forall|d: RelativePosition| d.wf() && is_linear(d) ==> r@.contains(d),
        r@.no_duplicates(),
        r@.len() == 28,
{
    let mut moves: Vec<RelativePosition> = Vec::new();
    let mut dist: i8 = 1;
    while dist <= 7
        invariant
            1 <= dist <= 8,
            moves@.len() == 4 * (dist - 1),
            forall|i: int|
                0 <= i < moves@.len() ==> (#[trigger] moves@[i]).wf() && is_linear(moves@[i])
                    && -dist < moves@[i].file < dist && -dist < moves@[i].rank < dist,
            forall|d: RelativePosition|
                d.wf() && is_linear(d) && -dist < d.file < dist && -dist < d.rank < dist
                    ==> moves@.contains(d),
            moves@.no_duplicates(),
        decreases 8 - dist,
    {
        let ghost prior = moves@;
        moves.push(RelativePosition { file: dist, rank: 0 });
        moves.push(RelativePosition { file: -dist, rank: 0 });
        moves.push(RelativePosition { file: 0, rank: dist });
        moves.push(RelativePosition { file: 0, rank: -dist });
        proof {
            let a = RelativePosition { file: dist, rank: 0i8 };
            let b = RelativePosition { file: (-dist) as i8, rank: 0i8 };
            let c = RelativePosition { file: 0i8, rank: dist };
            let d = RelativePosition { file: 0i8, rank: (-dist) as i8 };
            assert(moves@ =~= prior.push(a).push(b).push(c).push(d));
            assert(!prior.contains(a)) by {
                if prior.contains(a) {
                    let k = choose|k: int| 0 <= k < prior.len() && prior[k] == a;
                    assert(prior[k].file < dist);
                }
            }
            lemma_push_keeps_no_duplicates(prior, a);
            let p1 = prior.push(a);
            assert(!p1.contains(b)) by {
                if p1.contains(b) {
                    let k = choose|k: int| 0 <= k < p1.len() && p1[k] == b;
                    if k < prior.len() {
                        assert(-dist < prior[k].file);
                    }
                }
            }
            lemma_push_keeps_no_duplicates(p1, b);
            let p2 = p1.push(b);
            assert(!p2.contains(c)) by {
                if p2.contains(c) {
                    let k = choose|k: int| 0 <= k < p2.len() && p2[k] == c;
                    if k < prior.len() {
                        assert(prior[k].rank < dist);
                    }
                }
            }
            lemma_push_keeps_no_duplicates(p2, c);
            let p3 = p2.push(c);
            assert(!p3.contains(d)) by {
                if p3.contains(d) {
                    let k = choose|k: int| 0 <= k < p3.len() && p3[k] == d;
                    if k < prior.len() {
                        assert(-dist < prior[k].rank);
                    }
                }
            }
            lemma_push_keeps_no_duplicates(p3, d);
            assert(moves@.no_duplicates());
            assert forall|e: RelativePosition|
                e.wf() && is_linear(e) && -(dist + 1) < e.file < dist + 1 && -(dist + 1) < e.rank
                    < dist + 1 implies moves@.contains(e) by {
                if -dist < e.file < dist && -dist < e.rank < dist {
                    let k = choose|k: int| 0 <= k < prior.len() && prior[k] == e;
                    assert(moves@[k] == e);
                } else if e == a {
                    assert(moves@[prior.len() as int] == e);
                } else if e == b {
                    assert(moves@[prior.len() as int + 1] == e);
                } else if e == c {
                    assert(moves@[prior.len() as int + 2] == e);
                } else {
                    assert(e == d);
                    assert(moves@[prior.len() as int + 3] == e);
                }
            }
        }
        dist = dist + 1;
    }
    moves
}

} // verus!
