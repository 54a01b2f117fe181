//! Meetings and their attendee rosters.
use vstd::prelude::*;
use crate::role::{Roles, daily_salary};
use crate::text::{decimal, push_decimal};

verus! {

/// A participant: a name, the daily salary taken from the role when the
/// attendee was created, and the role.
#[derive(Debug)]
pub struct Attendee {
    pub name: String,
    pub salary: i32,
    pub role: Roles,
}

/// A meeting: its id and name, how many seconds it has run, and its roster in
/// display order.
#[derive(Debug)]
pub struct Meeting {
    pub id: i64,
    pub name: String,
    pub duration_seconds: i64,
    pub attendees: Vec<Attendee>,
}

/// What an attendee holds, as plain values.
pub struct AttendeeView {
    pub name: Seq<char>,
    pub salary: int,
    pub role: Roles,
}

impl View for Attendee {
    type V = AttendeeView;

    open spec fn view(&self) -> AttendeeView {
        AttendeeView { name: self.name@, salary: self.salary as int, role: self.role }
    }
}

/// What a meeting holds, as plain values.
pub struct MeetingView {
    pub id: int,
    pub name: Seq<char>,
    pub duration_seconds: int,
    pub attendees: Seq<AttendeeView>,
}

impl View for Meeting {
    type V = MeetingView;

    open spec fn view(&self) -> MeetingView {
        MeetingView {
            id: self.id as int,
            name: self.name@,
            duration_seconds: self.duration_seconds as int,
            attendees: roster(self.attendees@),
        }
    }
}

/// The roster as a sequence of plain values.
pub open spec fn roster(attendees: Seq<Attendee>) -> Seq<AttendeeView> {
    attendees.map_values(|a: Attendee| a@)
}

/// The placeholder name of the attendee added as the `n`-th one.
pub open spec fn placeholder_name(n: nat) -> Seq<char> {
    "Attendant "@ + decimal(n)
}

/// The roster with a new attendee of `role` appended: named after its place in
/// the roster, with the role's salary.
pub open spec fn with_attendee(attendees: Seq<AttendeeView>, role: Roles) -> Seq<AttendeeView> {
    attendees.push(
        AttendeeView {
            name: placeholder_name(attendees.len() + 1),
            salary: daily_salary(role),
            role: role,
        },
    )
}

/// Adding an attendee and then removing the last one gives back the roster as
/// it was.
pub proof fn lemma_add_then_remove_last(attendees: Seq<AttendeeView>, role: Roles)
    ensures
        with_attendee(attendees, role).remove(attendees.len() as int) == attendees,
{
    assert(with_attendee(attendees, role).remove(attendees.len() as int) =~= attendees);
}

/// The roster without the attendee at `index`, the others keeping their order;
/// an index outside the roster leaves it as it is.
pub open spec fn without_attendee(attendees: Seq<AttendeeView>, index: int) -> Seq<AttendeeView> {
    if 0 <= index < attendees.len() {
        attendees.remove(index)
    } else {
        attendees
    }
}

/// Why a roster change was refused.
#[derive(Debug, Clone, Copy, PartialEq, Eq, Structural)]
pub enum RosterError {
    /// The index names no attendee.
    OutOfRange,
}

impl Attendee {
    /// An attendee of the given role, with the role's salary as of now.
    pub fn new(name: String, role: Roles) -> (r: Attendee)
        ensures
            r.name@ == name@,
            r.salary == daily_salary(role),
            r.role == role,
    {
        Attendee { name: name, salary: role.salary(), role: role }
    }
}

impl Meeting {
    /// A fresh meeting with an empty roster. The clock starts at the given number
    /// of seconds, or at zero when none is given; a negative start counts as zero.
    pub fn new(meeting_id: i64, name: String, ellapsed: Option<i64>) -> (r: Meeting)
        ensures
            r.id == meeting_id,
            r.name@ == name@,
            r.duration_seconds == match ellapsed {
                Some(e) => if e < 0 { 0 } else { e },
                None => 0,
            },
            r.attendees@.len() == 0,
    {
        let start: i64 = match ellapsed {
            Some(e) => if e < 0 { 0 } else { e },
            None => 0,
        };
        Meeting { id: meeting_id, name: name, duration_seconds: start, attendees: Vec::new() }
    }

    /// Appends an attendee of the given role, named "Attendant N" where N is the
    /// new roster length.
    pub fn add_attendee(&mut self, role: Roles)
        ensures
            final(self).id == old(self).id,
            final(self).name@ == old(self).name@,
            final(self).duration_seconds == old(self).duration_seconds,
            roster(final(self).attendees@) == with_attendee(roster(old(self).attendees@), role),
    {
        let next_id: u128 = self.attendees.len() as u128 + 1;
        let mut name = String::new();
        name.append("Attendant ");
        push_decimal(&mut name, next_id);
        let new_attendee = Attendee::new(name, role);
        self.attendees.push(new_attendee);
        proof {
            reveal_strlit("Attendant ");
        }
        assert(roster(self.attendees@) =~= roster(old(self).attendees@).push(new_attendee@));
    }

    /// Removes the attendee at `index`, counted from 0 in display order. An index
    /// past the end changes nothing and is reported as out of range.
    pub fn remove_attendee(&mut self, index: usize) -> (r: Result<(), RosterError>)
        ensures
            final(self).id == old(self).id,
            final(self).name@ == old(self).name@,
            final(self).duration_seconds == old(self).duration_seconds,
            roster(final(self).attendees@) == without_attendee(
                roster(old(self).attendees@),
                index as int,
            ),
            index < old(self).attendees@.len() ==> r is Ok,
            index >= old(self).attendees@.len() ==> r == Err::<(), RosterError>(
                RosterError::OutOfRange,
            ),
    {
        if index < self.attendees.len() {
            self.attendees.remove(index);
            assert(roster(self.attendees@) =~= roster(old(self).attendees@).remove(index as int));
            Ok(())
        } else {
            Err(RosterError::OutOfRange)
        }
    }
}

} // verus!
