//! The midpoint circle algorithm: the points of a circle around the origin
//! with a given radius, computed in exact integer arithmetic. The classic
//! midpoint test `(x + 1)^2 + (y - 1/2)^2 > r^2` is used in the equivalent
//! integer form `4(x + 1)^2 + 4y^2 - 4y + 1 > 4r^2`.

use vstd::prelude::*;

use crate::seq_util::{dedup_first, lemma_dedup_first_membership};

verus! {

/// The `y` of the next column: step down one pixel when the midpoint after
/// `(x, y)` falls outside the circle.
pub open spec fn spec_next_y(r: int, x: int, y: int) -> int {
    if 4 * (x + 1) * (x + 1) + 4 * y * y - 4 * y + 1 > 4 * r * r {
        y - 1
    } else {
        y
    }
}

/// The circle segment in the 90°-to-45° slice, from the point `(x, y)` on:
/// walk right, stepping down by the midpoint rule, while still above the
/// diagonal.
pub open spec fn spec_circle_segment_from(r: int, x: int, y: int) -> Seq<(int, int)>
    decreases y - x,
    when x <= y
{
    let y2 = spec_next_y(r, x, y);
    if x + 1 > y2 {
        seq![(x, y)]
    } else {
        seq![(x, y)] + spec_circle_segment_from(r, x + 1, y2)
    }
}

/// The circle segment of radius `r` in the 90°-to-45° slice, starting at the
/// top of the circle.
pub open spec fn spec_circle_segment(r: int) -> Seq<(int, int)> {
    spec_circle_segment_from(r, 0, r)
}

/// A point of the first slice projected to all eight slices of the circle.
pub open spec fn spec_projections(p: (int, int)) -> Seq<(int, int)> {
    let (x, y) = p;
    seq![(x, y), (y, x), (y, -x), (x, -y), (-x, -y), (-y, -x), (-y, x), (-x, y)]
}

/// All eight projections of every segment point, in segment order.
pub open spec fn spec_flat_projections(s: Seq<(int, int)>) -> Seq<(int, int)>
    decreases s.len(),
{
    if s.len() == 0 {
        Seq::empty()
    } else {
        spec_flat_projections(s.drop_last()) + spec_projections(s.last())
    }
}

/// The points of the circle of radius `r`: the segment projected eight ways,
/// each point once, in first-occurrence order.
pub open spec fn spec_circle_points(r: int) -> Seq<(int, int)> {
    dedup_first(spec_flat_projections(spec_circle_segment(r)))
}

/// Both coordinates of `p` lie within the radius.
pub open spec fn in_circle_range(r: int, p: (int, int)) -> bool {
    &&& -r <= p.0 <= r
    &&& -r <= p.1 <= r
}

/// One step of the midpoint walk: the next candidate point right of
/// `(x, y)`, stepped down when the midpoint falls outside the circle.
fn next_circle_point(radius: u32, x: i64, y: i64) -> (r: (i64, i64))
    requires
        radius <= i32::MAX,
        0 <= x <= y <= radius,
    ensures
        r.0 == x + 1,
        r.1 == spec_next_y(radius as int, x as int, y as int),
{
    let mx = x as i128 + 1;
    let my2 = 2 * (y as i128) - 1;
    let rr = radius as i128;
    proof {
        assert(1 <= mx <= 0x1_0000_0000 && -1 <= my2 <= 0x2_0000_0000 && 0 <= rr <= 0x8000_0000);
        assert(0 <= mx * mx <= 0x1_0000_0000 * 0x1_0000_0000) by (nonlinear_arith)
            requires
                1 <= mx <= 0x1_0000_0000,
        ;
        assert(0 <= my2 * my2 <= 0x2_0000_0000 * 0x2_0000_0000) by (nonlinear_arith)
            requires
                -1 <= my2 <= 0x2_0000_0000,
        ;
        assert(0 <= rr * rr <= 0x8000_0000 * 0x8000_0000) by (nonlinear_arith)
            requires
                0 <= rr <= 0x8000_0000,
        ;
    }
    let mxx = mx * mx;
    let myy = my2 * my2;
    let rrr = rr * rr;
    let next_y = if 4 * mxx + myy > 4 * rrr {
        y - 1
    } else {
        y
    };
    proof {
        let xi = x as int;
        let yi = y as int;
        assert(4 * (xi + 1) * (xi + 1) + 4 * yi * yi - 4 * yi + 1 == 4 * ((xi + 1) * (xi + 1)) + (2
            * yi - 1) * (2 * yi - 1)) by (nonlinear_arith);
        assert(mxx == (xi + 1) * (xi + 1));
        assert(myy == (2 * yi - 1) * (2 * yi - 1));
        assert(rrr == (radius as int) * (radius as int));
        assert(4 * (radius as int) * (radius as int) == 4 * ((radius as int) * (radius as int)))
            by (nonlinear_arith);
        assert(next_y as int == spec_next_y(radius as int, xi, yi));
    }
    (x + 1, next_y)
}

/// Gives the circle segment that lies in the 90° to 45° slice.
#[verifier::loop_isolation(false)]
pub fn circle_segment(radius: u32) -> (r: Vec<(i32, i32)>)
    requires
        radius <= i32::MAX,
    ensures
        ({
            let seg = spec_circle_segment(radius as int);
            &&& r@.len() == seg.len()
            &&& forall|i: int|
                0 <= i < seg.len() ==> (#[trigger] r@[i]).0 == seg[i].0 && r@[i].1 == seg[i].1
            &&& forall|i: int|
                0 <= i < seg.len() ==> 0 <= (#[trigger] seg[i]).0 <= seg[i].1 <= radius
        }),
{
    let ghost rad = radius as int;
    let ghost full = spec_circle_segment(rad);
    // add the initial point at 90°
    let mut segment: Vec<(i32, i32)> = Vec::new();
    segment.push((0, radius as i32));

    // walk the remaining points of the 90° to 45° slice
    let mut point_x: i64 = 0;
    let mut point_y: i64 = radius as i64;
    let step = next_circle_point(radius, point_x, point_y);
    let mut next_x = step.0;
    let mut next_y = step.1;
    while next_x <= next_y
        invariant
            0 <= point_x <= point_y <= rad,
            next_x == point_x + 1,
            next_y == spec_next_y(rad, point_x as int, point_y as int),
            segment@.len() >= 1,
            segment@.last().0 == point_x && segment@.last().1 == point_y,
            ({
                let done = Seq::new(
                    segment@.len(),
                    |i: int| (segment@[i].0 as int, segment@[i].1 as int),
                );
                full == done + spec_circle_segment_from(rad, point_x as int, point_y as int).skip(
                    1,
                )
            }),
            forall|i: int|
                0 <= i < segment@.len() ==> 0 <= (#[trigger] segment@[i]).0 <= segment@[i].1
                    <= rad,
        decreases point_y - point_x,
    {
        proof {
            assert(spec_circle_segment_from(rad, point_x as int, point_y as int) == seq![
                (point_x as int, point_y as int),
            ] + spec_circle_segment_from(rad, next_x as int, next_y as int));
        }
        let ghost prev = segment@;
        segment.push((next_x as i32, next_y as i32));
        proof {
            let done = Seq::new(
                segment@.len(),
                |i: int| (segment@[i].0 as int, segment@[i].1 as int),
            );
            let done_prev = Seq::new(prev.len(), |i: int| (prev[i].0 as int, prev[i].1 as int));
            assert(done =~= done_prev.push((next_x as int, next_y as int)));
            let suffix = spec_circle_segment_from(rad, next_x as int, next_y as int);
            assert(suffix == seq![(next_x as int, next_y as int)] + suffix.skip(1));
            assert(full =~= done + suffix.skip(1));
        }
        point_x = next_x;
        point_y = next_y;
        let step = next_circle_point(radius, point_x, point_y);
        next_x = step.0;
        next_y = step.1;
    }
    proof {
        assert(spec_circle_segment_from(rad, point_x as int, point_y as int) =~= seq![
            (point_x as int, point_y as int),
        ]);
        let done = Seq::new(segment@.len(), |i: int| (segment@[i].0 as int, segment@[i].1 as int));
        assert(full =~= done);
        assert forall|i: int|
            0 <= i < full.len() implies (#[trigger] segment@[i]).0 == full[i].0 && segment@[i].1
            == full[i].1 by {
            assert(full[i] == done[i]);
        }
        assert forall|i: int|
            0 <= i < full.len() implies 0 <= (#[trigger] full[i]).0 <= full[i].1 <= rad by {
            assert(full[i] == done[i]);
            assert(0 <= segment@[i].0 <= segment@[i].1 <= rad);
        }
    }
    segment
}

/// Takes a point in the 90° to 45° slice and projects it to the other eight
/// slices.
pub fn project_point_eight_ways(p: (i32, i32)) -> (r: [(i32, i32); 8])
    requires
        0 <= p.0 <= p.1,
    ensures
        ({
            let proj = spec_projections((p.0 as int, p.1 as int));
            &&& r@.len() == 8
            &&& forall|i: int|
                0 <= i < 8 ==> (#[trigger] r@[i]).0 == proj[i].0 && r@[i].1 == proj[i].1
        }),
{
    let (x, y) = p;
    [(x, y), (y, x), (y, -x), (x, -y), (-x, -y), (-y, -x), (-y, x), (-x, y)]
}

/// Computes all the points of a circle at the origin with a given radius:
/// each point once, in first-occurrence order of the eight-way projections of
/// the circle segment.
#[verifier::loop_isolation(false)]
pub fn circle_points(radius: u32) -> (r: Vec<(i32, i32)>)
    requires
        radius <= i32::MAX,
    ensures
        ({
            let pts = spec_circle_points(radius as int);
            &&& r@.len() == pts.len()
            &&& forall|i: int|
                0 <= i < pts.len() ==> (#[trigger] r@[i]).0 == pts[i].0 && r@[i].1 == pts[i].1
            &&& forall|i: int| 0 <= i < pts.len() ==> in_circle_range(radius as int, pts[i])
        }),
{
    let ghost rad = radius as int;
    let segment = circle_segment(radius);
    let ghost seg = spec_circle_segment(rad);

    // project every segment point to all eight slices
    let mut flat: Vec<(i32, i32)> = Vec::new();
    let mut i: usize = 0;
    while i < segment.len()
        invariant
            segment@.len() == seg.len(),
            forall|k: int|
                0 <= k < seg.len() ==> (#[trigger] segment@[k]).0 == seg[k].0 && segment@[k].1
                    == seg[k].1,
            forall|k: int|
                0 <= k < seg.len() ==> 0 <= (#[trigger] seg[k]).0 <= seg[k].1 <= rad,
            i <= seg.len(),
            ({
                let flat_spec = spec_flat_projections(seg.take(i as int));
                &&& flat@.len() == flat_spec.len()
                &&& forall|k: int|
                    0 <= k < flat_spec.len() ==> (#[trigger] flat@[k]).0 == flat_spec[k].0
                        && flat@[k].1 == flat_spec[k].1
            }),
        decreases seg.len() - i,
    {
        let p = segment[i];
        let projected = project_point_eight_ways(p);
        let mut j: usize = 0;
        let ghost flat_before = flat@;
        while j < 8
            invariant
                j <= 8,
                0 <= p.0 <= p.1,
                projected@.len() == 8,
                ({
                    let proj = spec_projections((p.0 as int, p.1 as int));
                    &&& (forall|k: int|
                        0 <= k < 8 ==> (#[trigger] projected@[k]).0 == proj[k].0
                            && projected@[k].1 == proj[k].1)
                    &&& flat@ == flat_before + projected@.take(j as int)
                }),
            decreases 8 - j,
        {
            flat.push(projected[j]);
            proof {
                assert(projected@.take(j as int + 1) =~= projected@.take(j as int).push(
                    projected@[j as int],
                ));
                assert(flat@ =~= flat_before + projected@.take(j as int + 1));
            }
            j += 1;
        }
        proof {
            assert(seg.take(i as int + 1).drop_last() =~= seg.take(i as int));
            assert(seg.take(i as int + 1).last() == seg[i as int]);
            assert(projected@.take(8) =~= projected@);
            let flat_spec = spec_flat_projections(seg.take(i as int + 1));
            assert(flat_spec == spec_flat_projections(seg.take(i as int)) + spec_projections(
                seg[i as int],
            ));
            assert forall|k: int|
                0 <= k < flat_spec.len() implies (#[trigger] flat@[k]).0 == flat_spec[k].0
                && flat@[k].1 == flat_spec[k].1 by {
                let prev = spec_flat_projections(seg.take(i as int));
                if k < prev.len() {
                    assert(flat@[k] == flat_before[k]);
                } else {
                    let proj = spec_projections((p.0 as int, p.1 as int));
                    assert(flat@[k] == projected@[k - prev.len()]);
                    assert(flat_spec[k] == proj[k - prev.len()]);
                }
            }
        }
        i += 1;
    }
    proof {
        assert(seg.take(seg.len() as int) =~= seg);
    }

    // keep every point once, in first-occurrence order
    let ghost flat_spec = spec_flat_projections(seg);
    let mut out: Vec<(i32, i32)> = Vec::new();
    let mut k: usize = 0;
    while k < flat.len()
        invariant
            flat@.len() == flat_spec.len(),
            forall|q: int|
                0 <= q < flat_spec.len() ==> (#[trigger] flat@[q]).0 == flat_spec[q].0
                    && flat@[q].1 == flat_spec[q].1,
            k <= flat_spec.len(),
            ({
                let ded = dedup_first(flat_spec.take(k as int));
                &&& out@.len() == ded.len()
                &&& forall|q: int|
                    0 <= q < ded.len() ==> (#[trigger] out@[q]).0 == ded[q].0 && out@[q].1
                        == ded[q].1
            }),
        decreases flat_spec.len() - k,
    {
        let ghost ded = dedup_first(flat_spec.take(k as int));
        let p = flat[k];
        let mut found: bool = false;
        let mut j: usize = 0;
        while j < out.len()
            invariant
                j <= out@.len(),
                out@.len() == ded.len(),
                forall|q: int|
                    0 <= q < ded.len() ==> (#[trigger] out@[q]).0 == ded[q].0 && out@[q].1
                        == ded[q].1,
                found <==> exists|q: int| 0 <= q < j && out@[q] == p,
            decreases out@.len() - j,
        {
            if out[j].0 == p.0 && out[j].1 == p.1 {
                found = true;
            }
            j += 1;
        }
        proof {
            assert(flat_spec.take(k as int + 1).drop_last() =~= flat_spec.take(k as int));
            assert(flat_spec.take(k as int + 1).last() == flat_spec[k as int]);
            assert(found <==> ded.contains((p.0 as int, p.1 as int))) by {
                if found {
                    let q = choose|q: int| 0 <= q < out@.len() && out@[q] == p;
                    assert(ded[q] == (p.0 as int, p.1 as int));
                }
                if ded.contains((p.0 as int, p.1 as int)) {
                    let q = choose|q: int| 0 <= q < ded.len() && ded[q] == (p.0 as int, p.1 as int);
                    assert(out@[q] == p);
                }
            }
            assert((p.0 as int, p.1 as int) == flat_spec[k as int]);
        }
        if !found {
            out.push(p);
        }
        proof {
            let ded2 = dedup_first(flat_spec.take(k as int + 1));
            if found {
                assert(ded2 == ded);
            } else {
                assert(ded2 == ded.push(flat_spec[k as int]));
            }
        }
        k += 1;
    }
    proof {
        assert(flat_spec.take(flat_spec.len() as int) =~= flat_spec);
        lemma_segment_in_range(rad, 0, rad);
        lemma_flat_in_range(rad, seg);
        assert forall|q: int|
            0 <= q < spec_circle_points(rad).len() implies in_circle_range(
            rad,
            #[trigger] spec_circle_points(rad)[q],
        ) by {
            lemma_dedup_first_membership(flat_spec, spec_circle_points(rad)[q]);
        }
    }
    out
}

/// Every point of the segment walk stays between the diagonal and the radius.
proof fn lemma_segment_in_range(r: int, x: int, y: int)
    requires
        0 <= x <= y <= r,
    ensures
        forall|i: int|
            0 <= i < spec_circle_segment_from(r, x, y).len() ==> {
                let p = #[trigger] spec_circle_segment_from(r, x, y)[i];
                0 <= p.0 <= p.1 <= r
            },
    decreases y - x,
{
    let s = spec_circle_segment_from(r, x, y);
    let y2 = spec_next_y(r, x, y);
    if x + 1 > y2 {
        assert(s =~= seq![(x, y)]);
    } else {
        lemma_segment_in_range(r, x + 1, y2);
        let rest = spec_circle_segment_from(r, x + 1, y2);
        assert forall|i: int| 0 <= i < s.len() implies {
            let p = #[trigger] s[i];
            0 <= p.0 <= p.1 <= r
        } by {
            if i > 0 {
                assert(s[i] == rest[i - 1]);
            }
        }
    }
}

/// All eight projections of in-range segment points stay within the radius.
proof fn lemma_flat_in_range(r: int, s: Seq<(int, int)>)
    requires
        forall|i: int|
            0 <= i < s.len() ==> {
                let p = #[trigger] s[i];
                0 <= p.0 <= p.1 <= r
            },
    ensures
        forall|i: int|
            0 <= i < spec_flat_projections(s).len() ==> in_circle_range(
                r,
                #[trigger] spec_flat_projections(s)[i],
            ),
    decreases s.len(),
{
    if s.len() > 0 {
        lemma_flat_in_range(r, s.drop_last());
        let prev = spec_flat_projections(s.drop_last());
        let proj = spec_projections(s.last());
        assert forall|i: int|
            0 <= i < spec_flat_projections(s).len() implies in_circle_range(
            r,
            #[trigger] spec_flat_projections(s)[i],
        ) by {
            if i >= prev.len() {
                assert(spec_flat_projections(s)[i] == proj[i - prev.len()]);
            }
        }
    }
}

} // verus!
