use vstd::prelude::*;

verus! {

/// A curve's samples without its first one, which repeats the end of the
/// curve before it.
pub open spec fn tail<Q>(s: Seq<Q>) -> Seq<Q> {
    if s.len() == 0 {
        s
    } else {
        s.drop_first()
    }
}

/// The samples of consecutive curves, each without its first sample.
pub open spec fn joined_tails<Q>(curves: Seq<Seq<Q>>) -> Seq<Q>
    decreases curves.len(),
{
    if curves.len() == 0 {
        seq![]
    } else {
        joined_tails(curves.drop_last()) + tail(curves.last())
    }
}

pub open spec fn curve_views<Q>(curves: Seq<Vec<Q>>) -> Seq<Seq<Q>> {
    curves.map_values(|c: Vec<Q>| c@)
}

/// One point sequence from the start point through consecutive curves, each
/// curve's first sample dropped since it repeats the previous end.
pub fn join_curves<Q: Copy>(start: Q, curves: &Vec<Vec<Q>>) -> (r: Vec<Q>)
    ensures
        r@ == seq![start] + joined_tails(curve_views(curves@)),
        r@[0] == start,
        curves@.len() > 0 && curves@.last()@.len() >= 2 ==> r@.last() == curves@.last()@.last(),
{
    let mut out: Vec<Q> = Vec::new();
    out.push(start);
    let mut i: usize = 0;
    while i < curves.len()
        invariant
            i <= curves@.len(),
            out@ == seq![start] + joined_tails(curve_views(curves@).take(i as int)),
        decreases curves@.len() - i,
    {
        let c = &curves[i];
        let ghost before = out@;
        if c.len() > 0 {
            let mut j: usize = 1;
            assert(before + c@.subrange(1, 1) =~= before);
            while j < c.len()
                invariant
                    i < curves@.len(),
                    c@ == curves@[i as int]@,
                    1 <= j <= c@.len(),
                    out@ == before + c@.subrange(1, j as int),
                decreases c@.len() - j,
            {
                proof {
                    assert(c@.subrange(1, j as int + 1) =~= c@.subrange(1, j as int).push(
                        c@[j as int],
                    ));
                }
                out.push(c[j]);
                j = j + 1;
            }
            assert(c@.subrange(1, c@.len() as int) =~= c@.drop_first());
        }
        proof {
            let views = curve_views(curves@);
            assert(views.take(i as int + 1).drop_last() =~= views.take(i as int));
            assert(views.take(i as int + 1).last() == c@);
            assert(before + tail(c@) =~= out@);
        }
        i = i + 1;
    }
    proof {
        let views = curve_views(curves@);
        assert(views.take(curves@.len() as int) =~= views);
        if curves@.len() > 0 && curves@.last()@.len() >= 2 {
            assert(views.last() == curves@.last()@);
            assert(tail(views.last()).last() == views.last().last());
        }
    }
    out
}

} // verus!
