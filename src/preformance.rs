use vstd::prelude::*;

verus! {

/// A raw athletic performance, in thousandths of its unit.
#[derive(Clone, Copy, Debug, PartialEq, Eq, Structural)]
pub enum Preformance {
    /// A distance in millimetres (high jump, long jump, throws).
    Distance(i64),
    /// A time in milliseconds (track, road and walking events).
    Time(u64),
    /// A points total (decathlon, heptathlon).
    Points(u16),
}

/// The number a performance is compared by, in thousandths of its unit:
/// millimetres, milliseconds, or thousandths of a point.
pub open spec fn performance_value(p: Preformance) -> int {
    match p {
        Preformance::Distance(d) => d as int,
        Preformance::Time(t) => t as int,
        Preformance::Points(n) => n as int * 1000,
    }
}

impl Preformance {
    /// The performance as one comparable number, in thousandths of its unit.
    pub fn to_number(&self) -> (r: i128)
        ensures
            r == performance_value(*self),
    {
        match self {
            Preformance::Distance(distance) => *distance as i128,
            Preformance::Time(millis) => *millis as i128,
            Preformance::Points(points) => *points as i128 * 1000,
        }
    }
}

} // verus!
