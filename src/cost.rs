//! The cost model. Amounts are kept exactly, in salary-seconds: an attendee
//! with a daily salary of `s` costs `s` salary-seconds per second, and a
//! salary-second is worth `1 / SECONDS_PER_WORKDAY` currency units.
use vstd::prelude::*;
use crate::meeting::{Attendee, AttendeeView, roster};
use crate::role::{Roles, daily_salary};

verus! {

/// Length of a working day in seconds: eight hours.
pub const SECONDS_PER_WORKDAY: i128 = 28800;

/// Sum of the daily salaries of a roster.
pub open spec fn salary_total(attendees: Seq<AttendeeView>) -> int
    decreases attendees.len(),
{
    if attendees.len() == 0 {
        0
    } else {
        salary_total(attendees.drop_last()) + attendees.last().salary
    }
}

/// Cost of a roster after `seconds` seconds, in salary-seconds.
pub open spec fn total_cost(attendees: Seq<AttendeeView>, seconds: int) -> int {
    salary_total(attendees) * seconds
}

/// Whether a value fits in an `i128`.
pub open spec fn fits_i128(v: int) -> bool {
    i128::MIN <= v <= i128::MAX
}

/// Cost of one attendee after `seconds` seconds, in salary-seconds.
pub fn attendee_cost(attendee: &Attendee, seconds: i64) -> (r: i128)
    ensures
        r == attendee.salary * seconds,
{
    proof {
        let s = attendee.salary as int;
        let t = seconds as int;
        assert(-0x8000_0000 <= s <= 0x7fff_ffff);
        assert(-0x8000_0000_0000_0000 <= t <= 0x7fff_ffff_ffff_ffff);
        assert(-0x4000_0000_0000_0000_0000_0000 <= s * t <= 0x4000_0000_0000_0000_0000_0000)
            by (nonlinear_arith)
            requires
                -0x8000_0000 <= s <= 0x7fff_ffff,
                -0x8000_0000_0000_0000 <= t <= 0x7fff_ffff_ffff_ffff,
        ;
    }
    (attendee.salary as i128) * (seconds as i128)
}

/// Sum of the daily salaries of a roster: its cost per second, in salary-seconds.
pub fn salary_sum(attendees: &Vec<Attendee>) -> (r: i128)
    ensures
        r == salary_total(roster(attendees@)),
{
    let mut sum: i128 = 0;
    let mut i: usize = 0;
    while i < attendees.len()
        invariant
            i <= attendees@.len(),
            sum == salary_total(roster(attendees@.take(i as int))),
            -0x8000_0000 * i <= sum <= 0x8000_0000 * i,
        decreases attendees@.len() - i,
    {
        assert(roster(attendees@.take(i + 1)).drop_last() =~= roster(attendees@.take(i as int)));
        assert(i < 0x1_0000_0000_0000_0000);
        sum = sum + attendees[i].salary as i128;
        i = i + 1;
    }
    assert(attendees@.take(i as int) =~= attendees@);
    sum
}

/// Cost of a roster after `seconds` seconds, in salary-seconds; `None` only when
/// the amount does not fit in an `i128`.
pub fn calculate_total(attendees: &Vec<Attendee>, seconds: i64) -> (r: Option<i128>)
    ensures
        fits_i128(total_cost(roster(attendees@), seconds as int)) ==> r == Some(
            total_cost(roster(attendees@), seconds as int) as i128,
        ),
        !fits_i128(total_cost(roster(attendees@), seconds as int)) ==> r.is_none(),
{
    salary_sum(attendees).checked_mul(seconds as i128)
}

/// The cost of any roster grows in proportion to time: it is zero at the start,
/// and the cost over two spans of time together is the sum of their costs.
pub proof fn lemma_cost_linear_in_time(attendees: Seq<AttendeeView>, t1: int, t2: int)
    ensures
        total_cost(attendees, 0) == 0,
        total_cost(attendees, t1 + t2) == total_cost(attendees, t1) + total_cost(attendees, t2),
        total_cost(attendees, t1) == t1 * salary_total(attendees),
{
    let s = salary_total(attendees);
    assert(s * (t1 + t2) == s * t1 + s * t2) by (nonlinear_arith);
}

/// A roster whose salaries are all non-negative has a total salary that is
/// non-negative.
pub proof fn lemma_salary_total_nonneg(attendees: Seq<AttendeeView>)
    requires
        forall|k: int| 0 <= k < attendees.len() ==> attendees[k].salary >= 0,
    ensures
        salary_total(attendees) >= 0,
    decreases attendees.len(),
{
    if attendees.len() > 0 {
        lemma_salary_total_nonneg(attendees.drop_last());
    }
}

/// With non-negative salaries, cost never decreases as time goes on.
pub proof fn lemma_cost_monotone_in_time(attendees: Seq<AttendeeView>, t1: int, t2: int)
    requires
        forall|k: int| 0 <= k < attendees.len() ==> attendees[k].salary >= 0,
        0 <= t1 <= t2,
    ensures
        total_cost(attendees, t1) <= total_cost(attendees, t2),
{
    lemma_salary_total_nonneg(attendees);
    let s = salary_total(attendees);
    assert(s * t1 <= s * t2) by (nonlinear_arith)
        requires
            s >= 0,
            t1 <= t2,
    ;
}

/// An attendee costs its daily salary in salary-seconds each second, that is its
/// daily salary divided by `SECONDS_PER_WORKDAY` in currency units; one created
/// for a role costs that role's daily salary.
pub proof fn lemma_rate_of_attendee(a: AttendeeView, role: Roles)
    requires
        a.salary == daily_salary(role),
    ensures
        total_cost(seq![a], 1) == daily_salary(role),
{
    let one = seq![a];
    assert(one.drop_last() =~= Seq::<AttendeeView>::empty());
    assert(salary_total(one.drop_last()) == 0);
    assert(one.last() == a);
    assert(salary_total(one) == a.salary);
}

/// An empty roster costs nothing, however long the meeting runs.
pub proof fn lemma_empty_roster_costs_nothing(attendees: Seq<AttendeeView>, seconds: int)
    requires
        attendees.len() == 0,
    ensures
        total_cost(attendees, seconds) == 0,
{
}

} // verus!
