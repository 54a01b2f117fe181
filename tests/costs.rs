use meeting_cost::cost::{attendee_cost, calculate_total, salary_sum, SECONDS_PER_WORKDAY};
use meeting_cost::meeting::{Attendee, Meeting};
use meeting_cost::role::Roles;
use meeting_cost::text::cost_text;

fn person(name: &str, salary: i32) -> Attendee {
    Attendee { name: name.to_string(), salary: salary, role: Roles::FrontendDeveloperSenior }
}

#[test]
fn two_attendees_for_one_hour() {
    let roster = vec![person("A", 1000), person("B", 700)];
    let total = calculate_total(&roster, 3600).unwrap();
    assert_eq!(total, 1700 * 3600);
    assert_eq!(total as f64 / SECONDS_PER_WORKDAY as f64, 212.5);
    assert_eq!(attendee_cost(&roster[0], 3600) as f64 / 28800.0, 125.0);
    assert_eq!(attendee_cost(&roster[1], 3600) as f64 / 28800.0, 87.5);
    assert_eq!(cost_text(total), "212.50");
}

#[test]
fn empty_roster_costs_nothing() {
    let roster: Vec<Attendee> = Vec::new();
    for t in [0i64, 1, 3600, 1_000_000, i64::MAX] {
        assert_eq!(calculate_total(&roster, t), Some(0));
    }
    assert_eq!(salary_sum(&roster), 0);
    assert_eq!(cost_text(0), "0.00");
}

#[test]
fn total_grows_linearly_with_time() {
    let roster = vec![person("A", 1000), person("B", 700), person("C", 1500)];
    let t10 = calculate_total(&roster, 10).unwrap();
    let t20 = calculate_total(&roster, 20).unwrap();
    let t30 = calculate_total(&roster, 30).unwrap();
    assert_eq!(t10 + t20, t30);
    assert!(t10 <= t20 && t20 <= t30);
    assert_eq!(calculate_total(&roster, 0), Some(0));
    assert_eq!(salary_sum(&roster), 3200);
}

#[test]
fn total_at_extreme_values() {
    let roster = vec![person("A", i32::MAX), person("B", i32::MAX), person("C", i32::MAX)];
    assert_eq!(salary_sum(&roster), 3 * i32::MAX as i128);
    assert_eq!(
        calculate_total(&roster, i64::MAX),
        Some(3 * i32::MAX as i128 * i64::MAX as i128)
    );
    let many: Vec<Attendee> = (0..5).map(|_| person("X", i32::MIN)).collect();
    assert_eq!(calculate_total(&many, i64::MIN), Some(5 * i32::MIN as i128 * i64::MIN as i128));
}

#[test]
fn attendee_cost_extremes() {
    let a = person("A", i32::MIN);
    assert_eq!(attendee_cost(&a, i64::MIN), i32::MIN as i128 * i64::MIN as i128);
    assert_eq!(attendee_cost(&a, 0), 0);
}

#[test]
fn meeting_total_follows_roster() {
    let mut m = Meeting::new(1, "M".to_string(), Some(7200));
    m.add_attendee(Roles::Director);
    m.add_attendee(Roles::ProjectManager);
    let total = calculate_total(&m.attendees, m.duration_seconds).unwrap();
    assert_eq!(total, (1500 + 1200) * 7200);
    assert_eq!(cost_text(total), "675.00");
}
