use gambatee::config::Stats;
use gambatee::cron::{
    build_stats_report, report_title, schedule_for, tenths_to_string, u64_to_string,
    REPORT_USER_LIMIT,
};
use gambatee::voice_stats::{get_stats, StatsPeriod, UserStats};

fn row(username: &str, total_seconds: u64, total_sessions: u32) -> UserStats {
    UserStats { username: username.to_string(), total_seconds, total_sessions }
}

#[test]
fn numbers_render_in_decimal() {
    assert_eq!(u64_to_string(0), "0");
    assert_eq!(u64_to_string(7), "7");
    assert_eq!(u64_to_string(10), "10");
    assert_eq!(u64_to_string(1234), "1234");
    assert_eq!(u64_to_string(9_000_000_000), "9000000000");
}

#[test]
fn tenths_render_with_one_decimal_place() {
    assert_eq!(tenths_to_string(0), "0.0");
    assert_eq!(tenths_to_string(25), "2.5");
    assert_eq!(tenths_to_string(120), "12.0");
}

#[test]
fn titles_follow_the_period() {
    assert_eq!(report_title(StatsPeriod::Weekly), "Les puants de la semaine");
    assert_eq!(report_title(StatsPeriod::Monthly), "Les puants du mois");
}

#[test]
fn schedules_follow_the_period() {
    let settings = Stats {
        weekly_schedule: "0 0 18 * * Fri".to_string(),
        monthly_schedule: "0 0 18 1 * *".to_string(),
        channel_id: 500,
    };
    assert_eq!(schedule_for(StatsPeriod::Weekly, &settings), "0 0 18 * * Fri");
    assert_eq!(schedule_for(StatsPeriod::Monthly, &settings), "0 0 18 1 * *");
}

#[test]
fn report_fields_carry_rank_hours_and_averages() {
    // 9000 seconds are 2.5 hours; 3 sessions of 3000 seconds average 0.8
    // hours each (0.833 hours, rounded to the nearest tenth).
    let users = vec![row("alice", 9_000, 3), row("bob", 3_600, 1)];
    let report = build_stats_report(StatsPeriod::Weekly, &users);
    assert_eq!(report.title, "Les puants de la semaine");
    assert!(report.description.is_none());
    assert_eq!(report.fields.len(), 2);
    assert_eq!(report.fields[0].name, "1 - alice");
    assert_eq!(report.fields[0].value, "2.5h - 3 sessions (0.8h avg)");
    assert_eq!(report.fields[1].name, "2 - bob");
    assert_eq!(report.fields[1].value, "1.0h - 1 sessions (1.0h avg)");
}

#[test]
fn report_hours_round_to_the_nearest_tenth() {
    // 3599 seconds are 0.9997 hours: they show as 1.0, not 0.9. 3380
    // seconds are 0.938 hours and show as 0.9. 180 seconds are 0.05 hours,
    // a half that rounds upward to 0.1.
    let users = vec![row("near", 3_599, 1), row("low", 3_380, 1), row("half", 180, 1)];
    let report = build_stats_report(StatsPeriod::Weekly, &users);
    assert_eq!(report.fields[0].value, "1.0h - 1 sessions (1.0h avg)");
    assert_eq!(report.fields[1].value, "0.9h - 1 sessions (0.9h avg)");
    assert_eq!(report.fields[2].value, "0.1h - 1 sessions (0.1h avg)");
}

#[test]
fn report_average_rounds_independently_of_the_total() {
    // 5430 seconds over 2 sessions: the total is 1.508 hours, shown as
    // 1.5; the average is 0.754 hours, shown as 0.8.
    let users = vec![row("alice", 5_430, 2)];
    let report = build_stats_report(StatsPeriod::Weekly, &users);
    assert_eq!(report.fields[0].value, "1.5h - 2 sessions (0.8h avg)");
}

#[test]
fn empty_report_says_so() {
    let report = build_stats_report(StatsPeriod::Monthly, &vec![]);
    assert_eq!(report.title, "Les puants du mois");
    assert_eq!(report.fields.len(), 0);
    assert_eq!(
        report.description.as_deref(),
        Some("Aucune statistique disponible")
    );
}

#[test]
fn ranking_orders_by_total_time_descending() {
    let rows = vec![
        row("carol", 100, 1),
        row("alice", 900, 2),
        row("bob", 400, 1),
    ];
    let top = get_stats(rows, REPORT_USER_LIMIT);
    assert_eq!(top.len(), 3);
    assert_eq!(top[0].username, "alice");
    assert_eq!(top[1].username, "bob");
    assert_eq!(top[2].username, "carol");
}

#[test]
fn ranking_keeps_at_most_the_limit() {
    let rows = vec![
        row("a", 10, 1),
        row("b", 50, 1),
        row("c", 30, 1),
        row("d", 40, 1),
    ];
    let top = get_stats(rows, 2);
    assert_eq!(top.len(), 2);
    assert_eq!(top[0].username, "b");
    assert_eq!(top[0].total_seconds, 50);
    assert_eq!(top[1].username, "d");
    assert_eq!(top[1].total_seconds, 40);
}

#[test]
fn ranking_keeps_ties_together() {
    let rows = vec![row("a", 10, 1), row("b", 10, 2)];
    let top = get_stats(rows, 10);
    assert_eq!(top.len(), 2);
    assert_eq!(top[0].total_seconds, 10);
    assert_eq!(top[1].total_seconds, 10);
}
