use vstd::prelude::*;

use crate::config::Stats;
use crate::voice_stats::{StatsPeriod, UserStats};
use vstd::string::StringExecFns;

verus! {

/// How many ranked users a period report shows at most.
pub const REPORT_USER_LIMIT: usize = 10;

/// The decimal digit character for one digit value.
pub open spec fn spec_digit_char(d: int) -> char {
    if d == 0 {
        '0'
    } else if d == 1 {
        '1'
    } else if d == 2 {
        '2'
    } else if d == 3 {
        '3'
    } else if d == 4 {
        '4'
    } else if d == 5 {
        '5'
    } else if d == 6 {
        '6'
    } else if d == 7 {
        '7'
    } else if d == 8 {
        '8'
    } else {
        '9'
    }
}

/// The decimal rendering of a number, most significant digit first.
pub open spec fn spec_dec(n: int) -> Seq<char>
    decreases n,
{
    if n < 10 {
        seq![spec_digit_char(n)]
    } else {
        spec_dec(n / 10).push(spec_digit_char(n % 10))
    }
}

/// A quantity counted in tenths, rendered with one decimal place.
pub open spec fn spec_tenths(tenths: int) -> Seq<char> {
    spec_dec(tenths / 10) + "."@ + spec_dec(tenths % 10)
}

/// One digit as a string slice.
fn digit_str(d: u64) -> (s: &'static str)
    requires
        d < 10,
    ensures
        s@ == seq![spec_digit_char(d as int)],
{
    let s: &'static str = match d {
        0 => "0",
        1 => "1",
        2 => "2",
        3 => "3",
        4 => "4",
        5 => "5",
        6 => "6",
        7 => "7",
        8 => "8",
        _ => "9",
    };
    proof {
        reveal_strlit("0");
        reveal_strlit("1");
        reveal_strlit("2");
        reveal_strlit("3");
        reveal_strlit("4");
        reveal_strlit("5");
        reveal_strlit("6");
        reveal_strlit("7");
        reveal_strlit("8");
        reveal_strlit("9");
        assert(s@ =~= seq![spec_digit_char(d as int)]);
    }
    s
}

/// Renders a number in decimal.
pub fn u64_to_string(n: u64) -> (s: String)
    ensures
        s@ == spec_dec(n as int),
{
    let mut s = String::new();
    let mut m = n;
    proof {
        assert(spec_dec(n as int) =~= spec_dec(m as int) + s@);
    }
    loop
        invariant_except_break
            spec_dec(n as int) == spec_dec(m as int) + s@,
        ensures
            s@ == spec_dec(n as int),
        decreases m,
    {
        let ghost m_before = m as int;
        let ghost s_before = s@;
        let d = m % 10;
        let digit = digit_str(d);
        s = String::from_str(digit).concat(s.as_str());
        m = m / 10;
        proof {
            if m_before < 10 {
                assert(spec_dec(m_before) =~= seq![spec_digit_char(d as int)]);
                assert(s@ =~= spec_dec(m_before) + s_before);
            } else {
                assert(spec_dec(m_before) =~= spec_dec(m as int) + seq![spec_digit_char(d as int)]);
                assert(spec_dec(m as int) + s@ =~= (spec_dec(m as int) + seq![
                    spec_digit_char(d as int),
                ]) + s_before);
                assert(spec_dec(m as int) + s@ =~= spec_dec(m_before) + s_before);
            }
        }
        if m == 0 {
            proof {
                assert(m_before < 10);
                assert(s@ =~= spec_dec(n as int));
            }
            break;
        }
    }
    s
}

/// Renders a quantity counted in tenths with one decimal place.
pub fn tenths_to_string(tenths: u64) -> (s: String)
    ensures
        s@ == spec_tenths(tenths as int),
{
    let whole = u64_to_string(tenths / 10);
    let frac = digit_str(tenths % 10);
    let s = whole.concat(".").concat(frac);
    proof {
        assert(spec_dec((tenths % 10) as int) =~= seq![spec_digit_char((tenths % 10) as int)]);
        assert(s@ =~= spec_tenths(tenths as int));
    }
    s
}

/// One ranked entry of a published report.
#[derive(Debug)]
pub struct ReportField {
    pub name: String,
    pub value: String,
}

/// A rendered period report, ready to be published: a title, one field per
/// ranked user, and a note shown instead when there is nothing to rank.
#[derive(Debug)]
pub struct StatsReport {
    pub title: String,
    pub fields: Vec<ReportField>,
    pub description: Option<String>,
}

/// The title a period's report carries.
pub open spec fn spec_title(period: StatsPeriod) -> Seq<char> {
    match period {
        StatsPeriod::Weekly => "Les puants de la semaine"@,
        StatsPeriod::Monthly => "Les puants du mois"@,
    }
}

/// The field name of one entry: its one-based rank, then the username.
pub open spec fn spec_field_name(rank: int, username: Seq<char>) -> Seq<char> {
    spec_dec(rank) + " - "@ + username
}

/// Hours as tenths, rounded to the nearest tenth, halves upward: a tenth of
/// an hour is 360 seconds, so 3599 seconds are 1.0 hours, not 0.9.
pub open spec fn spec_hours_tenths(total_seconds: int) -> int {
    (total_seconds + 180) / 360
}

/// Average hours per session as tenths, rounded to the nearest tenth,
/// halves upward; zero sessions average to zero.
pub open spec fn spec_avg_tenths(total_seconds: int, total_sessions: int) -> int {
    if total_sessions > 0 {
        (10 * total_seconds + 1800 * total_sessions) / (3600 * total_sessions)
    } else {
        0
    }
}

/// The field value of one entry: hours with one decimal, the session count,
/// and the average hours per session with one decimal, both rounded to the
/// nearest tenth.
pub open spec fn spec_field_value(total_seconds: int, total_sessions: int) -> Seq<char> {
    spec_tenths(spec_hours_tenths(total_seconds)) + "h - "@ + spec_dec(total_sessions)
        + " sessions ("@ + spec_tenths(spec_avg_tenths(total_seconds, total_sessions)) + "h avg)"@
}

/// Renders one ranked entry.
fn render_field(rank: u64, stat: &UserStats) -> (field: ReportField)
    ensures
        field.name@ == spec_field_name(rank as int, stat.username@),
        field.value@ == spec_field_value(stat.total_seconds as int, stat.total_sessions as int),
{
    let name = u64_to_string(rank).concat(" - ").concat(stat.username.as_str());
    let seconds_wide = stat.total_seconds as u128;
    let hours_wide = (seconds_wide + 180) / 360;
    proof {
        vstd::arithmetic::div_mod::lemma_div_is_ordered(
            seconds_wide + 180,
            u64::MAX + 180,
            360,
        );
        assert(hours_wide <= u64::MAX);
    }
    let hours_tenths = hours_wide as u64;
    let avg_tenths: u64 = if stat.total_sessions > 0 {
        let sessions_wide = stat.total_sessions as u128;
        let avg_wide = (10 * seconds_wide + 1800 * sessions_wide) / (3600 * sessions_wide);
        proof {
            vstd::arithmetic::div_mod::lemma_div_is_ordered_by_denominator(
                10 * seconds_wide + 1800 * sessions_wide,
                3600,
                3600 * sessions_wide,
            );
            vstd::arithmetic::div_mod::lemma_div_is_ordered(
                10 * seconds_wide + 1800 * sessions_wide,
                10 * u64::MAX + 1800 * u32::MAX,
                3600,
            );
            assert(avg_wide <= u64::MAX);
        }
        avg_wide as u64
    } else {
        0
    };
    let value = tenths_to_string(hours_tenths).concat("h - ").concat(
        u64_to_string(stat.total_sessions as u64).as_str(),
    ).concat(" sessions (").concat(tenths_to_string(avg_tenths).as_str()).concat("h avg)");
    proof {
        assert(name@ =~= spec_field_name(rank as int, stat.username@));
        assert(value@ =~= spec_field_value(
            stat.total_seconds as int,
            stat.total_sessions as int,
        ));
    }
    ReportField { name, value }
}

/// The title a period's report carries.
pub fn report_title(period: StatsPeriod) -> (title: &'static str)
    ensures
        title@ == spec_title(period),
{
    match period {
        StatsPeriod::Weekly => "Les puants de la semaine",
        StatsPeriod::Monthly => "Les puants du mois",
    }
}

/// The cron expression a period fires on.
pub fn schedule_for<'a>(period: StatsPeriod, settings: &'a Stats) -> (schedule: &'a String)
    ensures
        match period {
            StatsPeriod::Weekly => schedule == &settings.weekly_schedule,
            StatsPeriod::Monthly => schedule == &settings.monthly_schedule,
        },
{
    match period {
        StatsPeriod::Weekly => &settings.weekly_schedule,
        StatsPeriod::Monthly => &settings.monthly_schedule,
    }
}

/// Renders a whole period report from ranked rows: the period's title, one
/// field per row in the given order with one-based ranks, and, exactly when
/// there are no rows, a note saying so.
pub fn build_stats_report(period: StatsPeriod, users: &Vec<UserStats>) -> (report: StatsReport)
    ensures
        report.title@ == spec_title(period),
        report.fields@.len() == users@.len(),
        forall|i: int|
            0 <= i < users@.len() ==> #[trigger] report.fields@[i].name@ == spec_field_name(
                i + 1,
                users@[i].username@,
            ) && report.fields@[i].value@ == spec_field_value(
                users@[i].total_seconds as int,
                users@[i].total_sessions as int,
            ),
        report.description is Some <==> users@.len() == 0,
        report.description matches Some(note) ==> note@ == "Aucune statistique disponible"@,
{
    let title = String::from_str(report_title(period));
    let mut fields: Vec<ReportField> = Vec::new();
    let mut i: usize = 0;
    while i < users.len()
        invariant
            i <= users.len(),
            fields@.len() == i,
            forall|j: int|
                0 <= j < i ==> #[trigger] fields@[j].name@ == spec_field_name(
                    j + 1,
                    users@[j].username@,
                ) && fields@[j].value@ == spec_field_value(
                    users@[j].total_seconds as int,
                    users@[j].total_sessions as int,
                ),
        decreases users.len() - i,
    {
        let rank = (i as u64) + 1;
        let field = render_field(rank, &users[i]);
        fields.push(field);
        i += 1;
    }
    let description = if users.len() == 0 {
        Some("Aucune statistique disponible".to_owned())
    } else {
        None
    };
    StatsReport { title, fields, description }
}

} // verus!
