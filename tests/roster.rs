use meeting_cost::attendees::get_attendees;
use meeting_cost::meeting::{Attendee, Meeting, RosterError};
use meeting_cost::role::Roles;
use meeting_cost::startup::{time_exists, MeetingSource, Opts, TimeOfDay};

fn all_roles() -> Vec<Roles> {
    vec![
        Roles::BackendDeveloperSpecial,
        Roles::BackendDeveloperSenior,
        Roles::FrontendDeveloperSpecial,
        Roles::FrontendDeveloperSenior,
        Roles::ProjectManager,
        Roles::Director,
    ]
}

#[test]
fn role_salaries() {
    assert_eq!(Roles::BackendDeveloperSpecial.salary(), 700);
    assert_eq!(Roles::BackendDeveloperSenior.salary(), 1000);
    assert_eq!(Roles::FrontendDeveloperSpecial.salary(), 700);
    assert_eq!(Roles::FrontendDeveloperSenior.salary(), 1000);
    assert_eq!(Roles::ProjectManager.salary(), 1200);
    assert_eq!(Roles::Director.salary(), 1500);
}

#[test]
fn role_menu_order() {
    assert_eq!(Roles::Iterator(), all_roles());
    for (i, role) in all_roles().into_iter().enumerate() {
        assert_eq!(Roles::at(i), Some(role));
    }
    assert_eq!(Roles::at(6), None);
    assert_eq!(Roles::at(usize::MAX), None);
}

#[test]
fn role_titles() {
    assert_eq!(Roles::BackendDeveloperSenior.title(), "Senior Backend Developer");
    assert_eq!(Roles::BackendDeveloperSpecial.title(), "Specialist Backend Developer");
    assert_eq!(Roles::FrontendDeveloperSenior.title(), "Senior Frontend Developer");
    assert_eq!(Roles::FrontendDeveloperSpecial.title(), "Specialist Frontend Developer");
    assert_eq!(Roles::ProjectManager.title(), "Projekt Manager");
    assert_eq!(Roles::Director.title(), "Technical Director");
}

#[test]
fn new_attendee_snapshots_role_salary() {
    for role in all_roles() {
        let a = Attendee::new("X".to_string(), role);
        assert_eq!(a.salary, role.salary());
        assert_eq!(a.role, role);
        assert_eq!(a.name, "X");
        let rate = a.salary as f64 / 28800.0;
        assert_eq!(rate, role.salary() as f64 / 28800.0);
    }
}

#[test]
fn new_meeting_starts_empty() {
    let m = Meeting::new(7, "Standup".to_string(), None);
    assert_eq!(m.id, 7);
    assert_eq!(m.name, "Standup");
    assert_eq!(m.duration_seconds, 0);
    assert!(m.attendees.is_empty());
    let m = Meeting::new(7, "Standup".to_string(), Some(90));
    assert_eq!(m.duration_seconds, 90);
    let m = Meeting::new(7, "Standup".to_string(), Some(-5));
    assert_eq!(m.duration_seconds, 0);
}

#[test]
fn add_director_to_empty_roster() {
    let mut m = Meeting::new(1, "M".to_string(), None);
    m.add_attendee(Roles::Director);
    assert_eq!(m.attendees.len(), 1);
    assert_eq!(m.attendees[0].salary, 1500);
    assert_eq!(m.attendees[0].name, "Attendant 1");
    assert_eq!(m.attendees[0].role, Roles::Director);
}

#[test]
fn added_attendees_are_numbered_in_order() {
    let mut m = Meeting::new(1, "M".to_string(), Some(12));
    for _ in 0..11 {
        m.add_attendee(Roles::ProjectManager);
    }
    assert_eq!(m.attendees[9].name, "Attendant 10");
    assert_eq!(m.attendees[10].name, "Attendant 11");
    assert_eq!(m.duration_seconds, 12);
}

#[test]
fn add_then_remove_last_restores_roster() {
    let mut m = Meeting::new(1, "M".to_string(), None);
    m.add_attendee(Roles::BackendDeveloperSenior);
    m.add_attendee(Roles::FrontendDeveloperSpecial);
    let before: Vec<(String, i32, Roles)> =
        m.attendees.iter().map(|a| (a.name.clone(), a.salary, a.role)).collect();
    m.add_attendee(Roles::Director);
    let last = m.attendees.len() - 1;
    assert_eq!(m.remove_attendee(last), Ok(()));
    let after: Vec<(String, i32, Roles)> =
        m.attendees.iter().map(|a| (a.name.clone(), a.salary, a.role)).collect();
    assert_eq!(before, after);
}

#[test]
fn remove_out_of_range_changes_nothing() {
    let mut m = Meeting::new(1, "M".to_string(), None);
    assert_eq!(m.remove_attendee(0), Err(RosterError::OutOfRange));
    m.add_attendee(Roles::Director);
    assert_eq!(m.remove_attendee(1), Err(RosterError::OutOfRange));
    assert_eq!(m.remove_attendee(usize::MAX), Err(RosterError::OutOfRange));
    assert_eq!(m.attendees.len(), 1);
    assert_eq!(m.attendees[0].name, "Attendant 1");
}

#[test]
fn remove_keeps_order_of_others() {
    let mut m = Meeting::new(1, "M".to_string(), None);
    m.add_attendee(Roles::Director);
    m.add_attendee(Roles::ProjectManager);
    m.add_attendee(Roles::BackendDeveloperSpecial);
    assert_eq!(m.remove_attendee(1), Ok(()));
    assert_eq!(m.attendees.len(), 2);
    assert_eq!(m.attendees[0].role, Roles::Director);
    assert_eq!(m.attendees[1].role, Roles::BackendDeveloperSpecial);
    assert_eq!(m.attendees[1].name, "Attendant 3");
}

#[test]
fn sample_roster() {
    let r = get_attendees();
    let got: Vec<(&str, i32, Roles)> =
        r.iter().map(|a| (a.name.as_str(), a.salary, a.role)).collect();
    assert_eq!(
        got,
        vec![
            ("A", 1000, Roles::FrontendDeveloperSenior),
            ("B", 1000, Roles::FrontendDeveloperSenior),
            ("C", 700, Roles::FrontendDeveloperSpecial),
            ("D", 1000, Roles::BackendDeveloperSenior),
            ("E", 700, Roles::BackendDeveloperSpecial),
            ("F", 1200, Roles::ProjectManager),
            ("G", 1500, Roles::Director),
        ]
    );
}

#[test]
fn meeting_source_by_id() {
    let remote = Opts { meeting_id: 10_000_001, ellapsed: None };
    assert_eq!(remote.source(), MeetingSource::Remote);
    let local = Opts { meeting_id: 10_000_000, ellapsed: None };
    assert_eq!(local.source(), MeetingSource::Local);
    let local = Opts { meeting_id: 3, ellapsed: Some(60) };
    assert_eq!(local.source(), MeetingSource::Local);
}

#[test]
fn fresh_meeting_from_options() {
    let opts = Opts { meeting_id: 42, ellapsed: Some(600) };
    let m = opts.fresh_meeting();
    assert_eq!(m.id, 42);
    assert_eq!(m.name, "MEETING");
    assert_eq!(m.duration_seconds, 600);
    assert!(m.attendees.is_empty());
    let m = Opts { meeting_id: 42, ellapsed: None }.fresh_meeting();
    assert_eq!(m.duration_seconds, 0);
}

#[test]
fn remote_meeting_runs_since_creation() {
    let created = TimeOfDay { seconds: 10 * 3600, nanos: 500_000_000 };
    let now = TimeOfDay { seconds: 11 * 3600, nanos: 200_000_000 };
    let m = Meeting::from_remote(12_345_678_901, "Planning".to_string(), created, now).unwrap();
    assert_eq!(m.id, 12_345_678_901);
    assert_eq!(m.name, "Planning");
    assert_eq!(m.duration_seconds, 3599);
    assert!(m.attendees.is_empty());
    let same = Meeting::from_remote(1, "x".to_string(), now, now).unwrap();
    assert_eq!(same.duration_seconds, 0);
    let before = Meeting::from_remote(1, "x".to_string(), now, created).unwrap();
    assert_eq!(before.duration_seconds, 0);
}

#[test]
fn remote_meeting_needs_existing_times() {
    let ok = TimeOfDay { seconds: 0, nanos: 0 };
    let late = TimeOfDay { seconds: 86_400, nanos: 0 };
    let bad_leap = TimeOfDay { seconds: 100, nanos: 1_500_000_000 };
    let leap = TimeOfDay { seconds: 119, nanos: 1_500_000_000 };
    assert!(Meeting::from_remote(1, "x".to_string(), ok, late).is_none());
    assert!(Meeting::from_remote(1, "x".to_string(), bad_leap, ok).is_none());
    let to_leap = Meeting::from_remote(1, "x".to_string(), ok, leap).unwrap();
    assert_eq!(to_leap.duration_seconds, 120);
    let after = TimeOfDay { seconds: 130, nanos: 0 };
    let from_leap = Meeting::from_remote(1, "x".to_string(), leap, after).unwrap();
    assert_eq!(from_leap.duration_seconds, 10);
    assert!(time_exists(leap));
    assert!(!time_exists(bad_leap));
}
