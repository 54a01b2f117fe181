//! A fixed sample roster, for trying the dashboard without a stored meeting.
use vstd::prelude::*;
use vstd::string::StringExecFns;
use crate::meeting::{Attendee, AttendeeView, roster};
use crate::role::Roles;

verus! {

/// The sample roster: seven attendees named `A` to `G`.
pub open spec fn sample_roster() -> Seq<AttendeeView> {
    seq![
        AttendeeView { name: "A"@, salary: 1000, role: Roles::FrontendDeveloperSenior },
        AttendeeView { name: "B"@, salary: 1000, role: Roles::FrontendDeveloperSenior },
        AttendeeView { name: "C"@, salary: 700, role: Roles::FrontendDeveloperSpecial },
        AttendeeView { name: "D"@, salary: 1000, role: Roles::BackendDeveloperSenior },
        AttendeeView { name: "E"@, salary: 700, role: Roles::BackendDeveloperSpecial },
        AttendeeView { name: "F"@, salary: 1200, role: Roles::ProjectManager },
        AttendeeView { name: "G"@, salary: 1500, role: Roles::Director },
    ]
}

/// The sample roster.
pub fn get_attendees() -> (r: Vec<Attendee>)
    ensures
        roster(r@) == sample_roster(),
{
    let attendees = vec![
        Attendee { name: String::from_str("A"), salary: 1000, role: Roles::FrontendDeveloperSenior },
        Attendee { name: String::from_str("B"), salary: 1000, role: Roles::FrontendDeveloperSenior },
        Attendee { name: String::from_str("C"), salary: 700, role: Roles::FrontendDeveloperSpecial },
        Attendee { name: String::from_str("D"), salary: 1000, role: Roles::BackendDeveloperSenior },
        Attendee { name: String::from_str("E"), salary: 700, role: Roles::BackendDeveloperSpecial },
        Attendee { name: String::from_str("F"), salary: 1200, role: Roles::ProjectManager },
        Attendee { name: String::from_str("G"), salary: 1500, role: Roles::Director },
    ];
    assert(roster(attendees@) =~= sample_roster());
    attendees
}

} // verus!
