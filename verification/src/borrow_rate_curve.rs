//! Piecewise-linear borrow-rate curves: the borrow rate as a function of a
//! reserve's utilization rate.

use crate::error::LendingError;
use crate::fraction::{bps_val, round_int, scale, Fraction};
use vstd::arithmetic::div_mod::lemma_div_is_ordered;
use vstd::prelude::*;

verus! {

/// Utilization of 100%, in basis points.
pub const MAX_UTILIZATION_RATE_BPS: u32 = 10000;

/// A point of the curve: at this utilization, this borrow rate.
#[derive(Clone, Copy, Debug, PartialEq, Eq, Structural)]
pub struct CurvePoint {
    pub utilization_rate_bps: u32,
    pub borrow_rate_bps: u32,
}

/// The straight line between two consecutive points.
#[derive(Clone, Copy, Debug, PartialEq, Eq, Structural)]
pub struct CurveSegment {
    pub slope_nom: u32,
    pub slope_denom: u32,
    pub start_point: CurvePoint,
}

/// Eleven points; the unused tail repeats the point at 100% utilization.
#[derive(Clone, Copy, Debug)]
pub struct BorrowRateCurve {
    pub points: [CurvePoint; 11],
}

/// A well-formed curve starts at 0% utilization, ends at 100%, is strictly
/// increasing in utilization until it reaches 100% and stays there, and never
/// decreases in borrow rate.
pub open spec fn valid_points(pts: Seq<CurvePoint>) -> bool {
    &&& pts.len() == 11
    &&& pts[0].utilization_rate_bps == 0
    &&& pts[10].utilization_rate_bps == MAX_UTILIZATION_RATE_BPS
    &&& forall|i: int|
        1 <= i < 11 ==> {
            &&& (#[trigger] pts[i - 1]).utilization_rate_bps == MAX_UTILIZATION_RATE_BPS
                ==> pts[i].utilization_rate_bps == MAX_UTILIZATION_RATE_BPS
            &&& pts[i - 1].utilization_rate_bps != MAX_UTILIZATION_RATE_BPS
                ==> pts[i].utilization_rate_bps > pts[i - 1].utilization_rate_bps
            &&& pts[i].borrow_rate_bps >= pts[i - 1].borrow_rate_bps
        }
}

/// The given points followed by copies of the last one, eleven in all.
pub open spec fn padded_points(pts: Seq<CurvePoint>) -> Seq<CurvePoint> {
    Seq::new(11, |i: int| if i < pts.len() { pts[i] } else { pts.last() })
}

/// What `BorrowRateCurve::from_points` decides on a list of points.
pub open spec fn from_points_ok(pts: Seq<CurvePoint>) -> bool {
    &&& 2 <= pts.len() <= 11
    &&& pts.last().utilization_rate_bps == MAX_UTILIZATION_RATE_BPS
    &&& valid_points(padded_points(pts))
}

/// Whether the segment starting at point `i` covers `bps`.
pub open spec fn segment_covers(pts: Seq<CurvePoint>, i: int, bps: int) -> bool {
    pts[i].utilization_rate_bps <= bps <= pts[i + 1].utilization_rate_bps
}

/// The first segment, at or after `i`, that covers `bps`.
pub open spec fn first_segment_from(pts: Seq<CurvePoint>, bps: int, i: int) -> int
    decreases 10 - i,
{
    if i >= 9 || segment_covers(pts, i, bps) {
        i
    } else {
        first_segment_from(pts, bps, i + 1)
    }
}

/// Utilization in basis points after clamping the rate to 100%.
pub open spec fn clamped_utilization_bps(utilization: int) -> int {
    round_int(if utilization > scale() { scale() } else { utilization } * 10000)
}

/// The borrow rate read off a segment at a utilization strictly inside it.
pub open spec fn segment_rate(start: CurvePoint, end: CurvePoint, utilization: int) -> Result<
    int,
    LendingError,
> {
    let coef = utilization - bps_val(start.utilization_rate_bps as int);
    if coef < 0 {
        Err(LendingError::InvalidUtilizationRate)
    } else {
        Ok(
            coef * (end.borrow_rate_bps - start.borrow_rate_bps) / (end.utilization_rate_bps
                - start.utilization_rate_bps) + bps_val(start.borrow_rate_bps as int),
        )
    }
}

/// The borrow rate of a well-formed curve at a utilization rate.
pub open spec fn spec_borrow_rate(pts: Seq<CurvePoint>, utilization: int) -> Result<
    int,
    LendingError,
> {
    let u = if utilization > scale() {
        scale()
    } else {
        utilization
    };
    let bps = clamped_utilization_bps(utilization);
    let i = first_segment_from(pts, bps, 0);
    if bps == pts[i].utilization_rate_bps {
        Ok(bps_val(pts[i].borrow_rate_bps as int))
    } else if bps == pts[i + 1].utilization_rate_bps {
        Ok(bps_val(pts[i + 1].borrow_rate_bps as int))
    } else {
        segment_rate(pts[i], pts[i + 1], u)
    }
}

impl CurvePoint {
    pub fn new(utilization_rate_bps: u32, borrow_rate_bps: u32) -> (r: Self)
        ensures
            r.utilization_rate_bps == utilization_rate_bps,
            r.borrow_rate_bps == borrow_rate_bps,
    {
        CurvePoint { utilization_rate_bps, borrow_rate_bps }
    }
}

impl CurveSegment {
    /// The segment between two points; an error unless the borrow rate does
    /// not decrease and the utilization strictly increases.
    pub fn from_points(start: CurvePoint, end: CurvePoint) -> (r: Result<Self, LendingError>)
        ensures
            end.borrow_rate_bps < start.borrow_rate_bps ==> r == Err::<CurveSegment, LendingError>(
                LendingError::InvalidBorrowRateCurvePoint,
            ),
            end.borrow_rate_bps >= start.borrow_rate_bps && end.utilization_rate_bps
                <= start.utilization_rate_bps ==> r == Err::<CurveSegment, LendingError>(
                LendingError::InvalidBorrowRateCurvePoint,
            ),
            end.borrow_rate_bps >= start.borrow_rate_bps && end.utilization_rate_bps
                > start.utilization_rate_bps ==> r == Ok::<CurveSegment, LendingError>(
                CurveSegment {
                    slope_nom: (end.borrow_rate_bps - start.borrow_rate_bps) as u32,
                    slope_denom: (end.utilization_rate_bps - start.utilization_rate_bps) as u32,
                    start_point: start,
                },
            ),
    {
        if end.borrow_rate_bps < start.borrow_rate_bps {
            return Err(LendingError::InvalidBorrowRateCurvePoint);
        }
        let slope_nom = end.borrow_rate_bps - start.borrow_rate_bps;
        if end.utilization_rate_bps <= start.utilization_rate_bps {
            return Err(LendingError::InvalidBorrowRateCurvePoint);
        }
        let slope_denom = end.utilization_rate_bps - start.utilization_rate_bps;
        Ok(CurveSegment { slope_nom, slope_denom, start_point: start })
    }

    /// The rate on this segment's line at a utilization of at most 100%; an
    /// error when the utilization lies before the segment's start.
    pub fn get_borrow_rate(&self, utilization_rate: Fraction) -> (r: Result<Fraction, LendingError>)
        requires
            utilization_rate.val() <= scale(),
            self.slope_denom > 0,
        ensures
            utilization_rate.val() < bps_val(self.start_point.utilization_rate_bps as int) ==> r
                == Err::<Fraction, LendingError>(LendingError::InvalidUtilizationRate),
            utilization_rate.val() >= bps_val(self.start_point.utilization_rate_bps as int) ==> (
            match r {
                Ok(f) => f.val() == (utilization_rate.val() - bps_val(
                    self.start_point.utilization_rate_bps as int,
                )) * self.slope_nom / (self.slope_denom as int) + bps_val(
                    self.start_point.borrow_rate_bps as int,
                ),
                Err(_) => false,
            }),
    {
        let start_utilization_rate = Fraction::from_bps(
            self.start_point.utilization_rate_bps as u64,
        );
        let coef = match utilization_rate.checked_sub(start_utilization_rate) {
            Some(c) => c,
            None => return Err(LendingError::InvalidUtilizationRate),
        };
        proof {
            assert(coef.val() * self.slope_nom <= scale() * 4294967295) by (nonlinear_arith)
                requires
                    0 <= coef.val() <= scale(),
                    0 <= self.slope_nom <= 4294967295,
            ;
        }
        let nom = coef.mul_int(self.slope_nom as u128);
        let base_rate = nom.div_int(self.slope_denom as u128);
        let offset = Fraction::from_bps(self.start_point.borrow_rate_bps as u64);
        proof {
            assert(base_rate.val() <= nom.val()) by (nonlinear_arith)
                requires
                    base_rate.val() == nom.val() / (self.slope_denom as int),
                    nom.val() >= 0,
                    self.slope_denom >= 1,
            ;
            assert(offset.val() <= 4294967295 * scale()) by (nonlinear_arith)
                requires
                    offset.val() == self.start_point.borrow_rate_bps * scale() / 10000,
                    self.start_point.borrow_rate_bps <= 4294967295,
            ;
        }
        Ok(base_rate.add(offset))
    }
}

proof fn lemma_first_segment_bounds(pts: Seq<CurvePoint>, bps: int, i: int)
    requires
        0 <= i <= 9,
    ensures
        i <= first_segment_from(pts, bps, i) <= 9,
    decreases 10 - i,
{
    if !(i >= 9 || segment_covers(pts, i, bps)) {
        lemma_first_segment_bounds(pts, bps, i + 1);
    }
}

impl BorrowRateCurve {
    /// Checks that the curve is well formed.
    pub fn validate(&self) -> (r: Result<(), LendingError>)
        ensures
            r is Ok <==> valid_points(self.points@),
            r is Err ==> r == Err::<(), LendingError>(LendingError::InvalidBorrowRateCurvePoint),
    {
        let pts = &self.points;
        if pts[0].utilization_rate_bps != 0 {
            return Err(LendingError::InvalidBorrowRateCurvePoint);
        }
        if pts[10].utilization_rate_bps != MAX_UTILIZATION_RATE_BPS {
            return Err(LendingError::InvalidBorrowRateCurvePoint);
        }
        let mut last_pt = pts[0];
        let mut i: usize = 1;
        while i < 11
            invariant
                1 <= i <= 11,
                pts@ == self.points@,
                pts@.len() == 11,
                last_pt == pts@[i - 1],
                pts@[0].utilization_rate_bps == 0,
                pts@[10].utilization_rate_bps == MAX_UTILIZATION_RATE_BPS,
                forall|j: int|
                    1 <= j < i ==> {
                        &&& (#[trigger] pts@[j - 1]).utilization_rate_bps
                            == MAX_UTILIZATION_RATE_BPS ==> pts@[j].utilization_rate_bps
                            == MAX_UTILIZATION_RATE_BPS
                        &&& pts@[j - 1].utilization_rate_bps != MAX_UTILIZATION_RATE_BPS
                            ==> pts@[j].utilization_rate_bps > pts@[j - 1].utilization_rate_bps
                        &&& pts@[j].borrow_rate_bps >= pts@[j - 1].borrow_rate_bps
                    },
            decreases 11 - i,
        {
            let pt = pts[i];
            if last_pt.utilization_rate_bps == MAX_UTILIZATION_RATE_BPS {
                if pt.utilization_rate_bps != MAX_UTILIZATION_RATE_BPS {
                    proof {
                        assert(!valid_points(self.points@)) by {
                            let k = i as int;
                            assert(pts@[k - 1] == last_pt);
                        }
                    }
                    return Err(LendingError::InvalidBorrowRateCurvePoint);
                }
            } else if pt.utilization_rate_bps <= last_pt.utilization_rate_bps {
                proof {
                    assert(!valid_points(self.points@)) by {
                        let k = i as int;
                        assert(pts@[k - 1] == last_pt);
                    }
                }
                return Err(LendingError::InvalidBorrowRateCurvePoint);
            }
            if pt.borrow_rate_bps < last_pt.borrow_rate_bps {
                proof {
                    assert(!valid_points(self.points@)) by {
                        let k = i as int;
                        assert(pts@[k - 1] == last_pt);
                    }
                }
                return Err(LendingError::InvalidBorrowRateCurvePoint);
            }
            last_pt = pt;
            i = i + 1;
        }
        Ok(())
    }

    /// Builds a curve from 2 to 11 points, the last at 100% utilization, and
    /// checks that it is well formed.
    pub fn from_points(pts: &[CurvePoint]) -> (r: Result<Self, LendingError>)
        ensures
            from_points_ok(pts@) <==> r is Ok,
            r is Ok ==> r->Ok_0.points@ == padded_points(pts@),
            !from_points_ok(pts@) ==> r == Err::<BorrowRateCurve, LendingError>(
                LendingError::InvalidBorrowRateCurvePoint,
            ),
    {
        if pts.len() < 2 {
            return Err(LendingError::InvalidBorrowRateCurvePoint);
        }
        if pts.len() > 11 {
            return Err(LendingError::InvalidBorrowRateCurvePoint);
        }
        let last = pts[pts.len() - 1];
        if last.utilization_rate_bps != MAX_UTILIZATION_RATE_BPS {
            return Err(LendingError::InvalidBorrowRateCurvePoint);
        }
        let mut points = [last;11];
        let mut i: usize = 0;
        while i < pts.len()
            invariant
                0 <= i <= pts@.len() <= 11,
                pts@.len() >= 2,
                last == pts@.last(),
                points@.len() == 11,
                forall|j: int| 0 <= j < i ==> points@[j] == pts@[j],
                forall|j: int| i <= j < 11 ==> points@[j] == last,
            decreases pts@.len() - i,
        {
            points[i] = pts[i];
            i = i + 1;
        }
        assert(points@ =~= padded_points(pts@));
        let curve = BorrowRateCurve { points };
        curve.validate()?;
        Ok(curve)
    }

    /// A curve with the same borrow rate at every utilization.
    pub fn new_flat(borrow_rate_bps: u32) -> (r: Self)
        ensures
            valid_points(r.points@),
            forall|i: int|
                0 <= i < 11 ==> (#[trigger] r.points@[i]).borrow_rate_bps == borrow_rate_bps,
            r.points@[0].utilization_rate_bps == 0,
            forall|i: int|
                1 <= i < 11 ==> (#[trigger] r.points@[i]).utilization_rate_bps
                    == MAX_UTILIZATION_RATE_BPS,
    {
        let points = [
            CurvePoint { utilization_rate_bps: 0, borrow_rate_bps },
            CurvePoint { utilization_rate_bps: MAX_UTILIZATION_RATE_BPS, borrow_rate_bps },
        ];
        let ghost p = padded_points(points@);
        assert(from_points_ok(points@)) by {
            assert forall|i: int| 1 <= i < 11 implies {
                &&& (#[trigger] p[i - 1]).utilization_rate_bps == MAX_UTILIZATION_RATE_BPS
                    ==> p[i].utilization_rate_bps == MAX_UTILIZATION_RATE_BPS
                &&& p[i - 1].utilization_rate_bps != MAX_UTILIZATION_RATE_BPS
                    ==> p[i].utilization_rate_bps > p[i - 1].utilization_rate_bps
                &&& p[i].borrow_rate_bps >= p[i - 1].borrow_rate_bps
            } by {}
        }
        let r = Self::from_points(&points);
        r.unwrap()
    }

    /// The curve described by the legacy three-segment parameters, all in
    /// percent; the rates must not decrease along the curve.
    pub fn from_legacy_parameters(
        optimal_utilization_rate_pct: u8,
        base_rate_pct: u8,
        optimal_rate_pct: u8,
        max_rate_pct: u8,
    ) -> (r: Self)
        requires
            optimal_utilization_rate_pct == 0 ==> optimal_rate_pct <= max_rate_pct,
            optimal_utilization_rate_pct == 100 ==> base_rate_pct <= optimal_rate_pct,
            optimal_utilization_rate_pct != 0 && optimal_utilization_rate_pct != 100 ==> {
                &&& base_rate_pct <= optimal_rate_pct <= max_rate_pct
                &&& optimal_utilization_rate_pct < 100
            },
        ensures
            valid_points(r.points@),
            optimal_utilization_rate_pct == 0 ==> r.points@ == padded_points(
                seq![
                    CurvePoint { utilization_rate_bps: 0, borrow_rate_bps: (optimal_rate_pct * 100) as u32 },
                    CurvePoint { utilization_rate_bps: 10000, borrow_rate_bps: (max_rate_pct * 100) as u32 },
                ],
            ),
            optimal_utilization_rate_pct == 100 ==> r.points@ == padded_points(
                seq![
                    CurvePoint { utilization_rate_bps: 0, borrow_rate_bps: (base_rate_pct * 100) as u32 },
                    CurvePoint { utilization_rate_bps: 10000, borrow_rate_bps: (optimal_rate_pct * 100) as u32 },
                ],
            ),
            optimal_utilization_rate_pct != 0 && optimal_utilization_rate_pct != 100 ==> r.points@
                == padded_points(
                seq![
                    CurvePoint { utilization_rate_bps: 0, borrow_rate_bps: (base_rate_pct * 100) as u32 },
                    CurvePoint {
                        utilization_rate_bps: (optimal_utilization_rate_pct * 100) as u32,
                        borrow_rate_bps: (optimal_rate_pct * 100) as u32,
                    },
                    CurvePoint { utilization_rate_bps: 10000, borrow_rate_bps: (max_rate_pct * 100) as u32 },
                ],
            ),
    {
        let optimal_utilization_rate = optimal_utilization_rate_pct as u32 * 100;
        let base_rate = base_rate_pct as u32 * 100;
        let optimal_rate = optimal_rate_pct as u32 * 100;
        let max_rate = max_rate_pct as u32 * 100;
        if optimal_utilization_rate == 0 {
            let points = [
                CurvePoint { utilization_rate_bps: 0, borrow_rate_bps: optimal_rate },
                CurvePoint { utilization_rate_bps: MAX_UTILIZATION_RATE_BPS, borrow_rate_bps: max_rate },
            ];
            let ghost p = padded_points(points@);
            assert(from_points_ok(points@)) by {
                assert forall|i: int| 1 <= i < 11 implies {
                    &&& (#[trigger] p[i - 1]).utilization_rate_bps == MAX_UTILIZATION_RATE_BPS
                        ==> p[i].utilization_rate_bps == MAX_UTILIZATION_RATE_BPS
                    &&& p[i - 1].utilization_rate_bps != MAX_UTILIZATION_RATE_BPS
                        ==> p[i].utilization_rate_bps > p[i - 1].utilization_rate_bps
                    &&& p[i].borrow_rate_bps >= p[i - 1].borrow_rate_bps
                } by {}
            }
            Self::from_points(&points).unwrap()
        } else if optimal_utilization_rate == MAX_UTILIZATION_RATE_BPS {
            let points = [
                CurvePoint { utilization_rate_bps: 0, borrow_rate_bps: base_rate },
                CurvePoint { utilization_rate_bps: MAX_UTILIZATION_RATE_BPS, borrow_rate_bps: optimal_rate },
            ];
            let ghost p = padded_points(points@);
            assert(from_points_ok(points@)) by {
                assert forall|i: int| 1 <= i < 11 implies {
                    &&& (#[trigger] p[i - 1]).utilization_rate_bps == MAX_UTILIZATION_RATE_BPS
                        ==> p[i].utilization_rate_bps == MAX_UTILIZATION_RATE_BPS
                    &&& p[i - 1].utilization_rate_bps != MAX_UTILIZATION_RATE_BPS
                        ==> p[i].utilization_rate_bps > p[i - 1].utilization_rate_bps
                    &&& p[i].borrow_rate_bps >= p[i - 1].borrow_rate_bps
                } by {}
            }
            Self::from_points(&points).unwrap()
        } else {
            let points = [
                CurvePoint { utilization_rate_bps: 0, borrow_rate_bps: base_rate },
                CurvePoint { utilization_rate_bps: optimal_utilization_rate, borrow_rate_bps: optimal_rate },
                CurvePoint { utilization_rate_bps: MAX_UTILIZATION_RATE_BPS, borrow_rate_bps: max_rate },
            ];
            let ghost p = padded_points(points@);
            assert(from_points_ok(points@)) by {
                assert forall|i: int| 1 <= i < 11 implies {
                    &&& (#[trigger] p[i - 1]).utilization_rate_bps == MAX_UTILIZATION_RATE_BPS
                        ==> p[i].utilization_rate_bps == MAX_UTILIZATION_RATE_BPS
                    &&& p[i - 1].utilization_rate_bps != MAX_UTILIZATION_RATE_BPS
                        ==> p[i].utilization_rate_bps > p[i - 1].utilization_rate_bps
                    &&& p[i].borrow_rate_bps >= p[i - 1].borrow_rate_bps
                } by {}
            }
            Self::from_points(&points).unwrap()
        }
    }

    /// The borrow rate of a well-formed curve at a utilization rate, which is
    /// clamped to 100% first.
    pub fn get_borrow_rate(&self, utilization_rate: Fraction) -> (r: Result<Fraction, LendingError>)
        requires
            valid_points(self.points@),
        ensures
            match spec_borrow_rate(self.points@, utilization_rate.val()) {
                Ok(v) => r matches Ok(f) && f.val() == v,
                Err(e) => r == Err::<Fraction, LendingError>(e),
            },
    {
        let utilization_rate = if utilization_rate.bits > Fraction::one().bits {
            Fraction::one()
        } else {
            utilization_rate
        };
        proof {
            assert(utilization_rate.val() * 10000 <= scale() * 10000);
            assert(round_int(utilization_rate.val() * 10000) <= 10000);
        }
        let utilization_rate_bps_u64 = utilization_rate.to_bps().unwrap();
        let utilization_rate_bps = utilization_rate_bps_u64 as u32;
        let ghost bps = utilization_rate_bps as int;
        let ghost pts = self.points@;
        proof {
            lemma_first_segment_bounds(pts, bps, 0);
        }
        let mut i: usize = 0;
        while i < 9 && utilization_rate_bps > self.points[i + 1].utilization_rate_bps
            invariant
                0 <= i <= 9,
                pts == self.points@,
                valid_points(pts),
                bps == utilization_rate_bps,
                bps <= 10000,
                pts[i as int].utilization_rate_bps <= bps,
                first_segment_from(pts, bps, 0) == first_segment_from(pts, bps, i as int),
            decreases 9 - i,
        {
            assert(!segment_covers(pts, i as int, bps));
            i = i + 1;
        }
        let ghost k = i as int;
        assert(first_segment_from(pts, bps, k) == k) by {
            if k < 9 {
                assert(segment_covers(pts, k, bps) || pts[k + 1].utilization_rate_bps < bps);
            }
        }
        let start_pt = self.points[i];
        let end_pt = self.points[i + 1];
        if utilization_rate_bps == start_pt.utilization_rate_bps {
            return Ok(Fraction::from_bps(start_pt.borrow_rate_bps as u64));
        } else if utilization_rate_bps == end_pt.utilization_rate_bps {
            return Ok(Fraction::from_bps(end_pt.borrow_rate_bps as u64));
        }
        assert(pts[k + 1].utilization_rate_bps > bps);
        assert(pts[(k + 1) - 1] == pts[k]);
        assert(pts[k + 1].borrow_rate_bps >= pts[k].borrow_rate_bps);
        let segment = CurveSegment::from_points(start_pt, end_pt)?;
        segment.get_borrow_rate(utilization_rate)
    }
}

/// On a well-formed curve, utilization and rate never decrease from a point
/// to a later one.
pub(crate) proof fn lemma_points_ordered(pts: Seq<CurvePoint>, j: int, k: int)
    requires
        valid_points(pts),
        0 <= j <= k < 11,
    ensures
        pts[j].utilization_rate_bps <= pts[k].utilization_rate_bps,
        pts[j].borrow_rate_bps <= pts[k].borrow_rate_bps,
    decreases k - j,
{
    if j < k {
        lemma_points_ordered(pts, j, k - 1);
        assert(pts[k - 1].utilization_rate_bps <= pts[k].utilization_rate_bps);
    }
}

/// From a point at or below `bps`, the segment search finds a segment that
/// covers `bps`, and passes over only segments that do not.
pub(crate) proof fn lemma_first_segment_covers(pts: Seq<CurvePoint>, bps: int, k: int)
    requires
        valid_points(pts),
        0 <= k <= 9,
        pts[k].utilization_rate_bps <= bps <= MAX_UTILIZATION_RATE_BPS,
    ensures
        k <= first_segment_from(pts, bps, k) <= 9,
        segment_covers(pts, first_segment_from(pts, bps, k), bps),
        forall|j: int| k <= j < first_segment_from(pts, bps, k) ==> !segment_covers(pts, j, bps),
    decreases 10 - k,
{
    if k < 9 && !segment_covers(pts, k, bps) {
        lemma_first_segment_covers(pts, bps, k + 1);
    }
}

/// Rounding a scaled value to an integer never decreases it when the value
/// grows.
pub(crate) proof fn lemma_round_monotone(a: int, b: int)
    requires
        0 <= a <= b,
    ensures
        round_int(a) <= round_int(b),
{
    let s = scale();
    assert(round_int(a) == (a + s / 2) / s) by (nonlinear_arith)
        requires
            s == 1152921504606846976,
            a >= 0,
            round_int(a) == if a % s >= s / 2 {
                a / s + 1
            } else {
                a / s
            },
    ;
    assert(round_int(b) == (b + s / 2) / s) by (nonlinear_arith)
        requires
            s == 1152921504606846976,
            b >= 0,
            round_int(b) == if b % s >= s / 2 {
                b / s + 1
            } else {
                b / s
            },
    ;
    lemma_div_is_ordered(a + s / 2, b + s / 2, s);
}

/// A point's rate as a scaled value grows with the rate.
pub(crate) proof fn lemma_bps_val_monotone(x: int, y: int)
    requires
        0 <= x <= y,
    ensures
        bps_val(x) <= bps_val(y),
{
    assert(x * scale() <= y * scale()) by (nonlinear_arith)
        requires
            0 <= x <= y,
            scale() > 0,
    ;
    lemma_div_is_ordered(x * scale(), y * scale(), 10000);
}

/// Inside a segment, the interpolated rate stays below the rate of the
/// segment's end point.
proof fn lemma_interior_rate_below_end(uc: int, su: int, eu: int, sr: int, er: int)
    requires
        0 <= su < eu <= 10000,
        0 <= sr <= er <= 4294967295,
        uc >= 0,
        uc * 10000 < eu * scale() - scale() / 2,
        uc - bps_val(su) >= 0,
    ensures
        (uc - bps_val(su)) * (er - sr) / (eu - su) + bps_val(sr) <= bps_val(er),
{
    let s = scale();
    let coef = uc - bps_val(su);
    let d = eu - su;
    let r = er - sr;
    if r == 0 {
        assert(coef * 0 / d == 0) by (nonlinear_arith)
            requires
                d > 0,
        ;
    } else {
        assert(10000 * bps_val(su) >= su * s - 9999) by (nonlinear_arith)
            requires
                bps_val(su) == su * s / 10000,
                su >= 0,
                s > 0,
        ;
        assert(coef * 10000 < d * s - s / 2 + 9999);
        let x = coef * r;
        let q1 = x / d;
        assert(10000 * (q1 + 1) < r * s) by (nonlinear_arith)
            requires
                coef * 10000 < d * s - s / 2 + 9999,
                coef >= 0,
                x == coef * r,
                q1 == x / d,
                1 <= r <= 4294967295,
                1 <= d <= 10000,
                s == 1152921504606846976,
        {
            assert(x * 10000 < r * (d * s - s / 2 + 9999));
            assert(r * (d * s - s / 2 + 9999) <= d * (r * s - 10000));
            assert(q1 * d <= x);
        }
        assert(10000 * bps_val(sr) <= sr * s) by (nonlinear_arith)
            requires
                bps_val(sr) == sr * s / 10000,
                sr >= 0,
                s > 0,
        ;
        assert(10000 * (q1 + bps_val(sr) + 1) <= er * s);
        assert(q1 + bps_val(sr) <= bps_val(er)) by (nonlinear_arith)
            requires
                10000 * (q1 + bps_val(sr) + 1) <= er * s,
                bps_val(er) == er * s / 10000,
                er >= 0,
                s > 0,
        ;
    }
}

/// Where a utilization falls on a well-formed curve: the segment found
/// covers its rounded basis points, and the rate is defined and lies
/// between the rates of the segment's two points.
pub(crate) proof fn lemma_rate_in_segment(pts: Seq<CurvePoint>, u: int)
    requires
        valid_points(pts),
        u >= 0,
    ensures
        ({
            let uc = if u > scale() { scale() } else { u };
            let bps = clamped_utilization_bps(u);
            let i = first_segment_from(pts, bps, 0);
            &&& 0 <= bps <= 10000
            &&& 0 <= i <= 9
            &&& segment_covers(pts, i, bps)
            &&& spec_borrow_rate(pts, u) is Ok
            &&& bps_val(pts[i].borrow_rate_bps as int) <= spec_borrow_rate(pts, u)->Ok_0
            &&& spec_borrow_rate(pts, u)->Ok_0 <= bps_val(pts[i + 1].borrow_rate_bps as int)
            &&& (bps != pts[i].utilization_rate_bps && bps != pts[i + 1].utilization_rate_bps)
                ==> (uc * 10000 < pts[i + 1].utilization_rate_bps * scale() - scale() / 2
                && uc - bps_val(pts[i].utilization_rate_bps as int) >= 0)
        }),
{
    let s = scale();
    let uc = if u > s { s } else { u };
    let a = uc * 10000;
    assert(0 <= a <= s * 10000);
    let bps = round_int(a);
    lemma_round_monotone(a, s * 10000);
    lemma_round_monotone(0, a);
    assert((s * 10000) % s == 0 && (s * 10000) / s == 10000) by (nonlinear_arith)
        requires
            s == 1152921504606846976,
    ;
    assert(round_int(0) == 0);
    assert(bps == clamped_utilization_bps(u));
    lemma_first_segment_covers(pts, bps, 0);
    let i = first_segment_from(pts, bps, 0);
    let st = pts[i];
    let en = pts[i + 1];
    lemma_points_ordered(pts, i, i + 1);
    lemma_points_ordered(pts, i + 1, 10);
    lemma_bps_val_monotone(st.borrow_rate_bps as int, en.borrow_rate_bps as int);
    if bps != st.utilization_rate_bps && bps != en.utilization_rate_bps {
        let su = st.utilization_rate_bps as int;
        let eu = en.utilization_rate_bps as int;
        assert(a >= su * s + s / 2 && a < eu * s - s / 2) by (nonlinear_arith)
            requires
                s == 1152921504606846976,
                a >= 0,
                bps == if a % s >= s / 2 {
                    a / s + 1
                } else {
                    a / s
                },
                su + 1 <= bps <= eu - 1,
        ;
        assert(uc - bps_val(su) >= 0) by (nonlinear_arith)
            requires
                uc * 10000 >= su * s + s / 2,
                bps_val(su) == su * s / 10000,
                su >= 0,
                s > 0,
        ;
        lemma_interior_rate_below_end(
            uc,
            su,
            eu,
            st.borrow_rate_bps as int,
            en.borrow_rate_bps as int,
        );
        let coef = uc - bps_val(su);
        assert(coef * (en.borrow_rate_bps - st.borrow_rate_bps) / (eu - su) >= 0) by (
        nonlinear_arith)
            requires
                coef >= 0,
                en.borrow_rate_bps - st.borrow_rate_bps >= 0,
                eu - su > 0,
        ;
    }
}

} // verus!
