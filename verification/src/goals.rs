//! Time goals: which goals are checked today, when one is reached, the
//! notification it raises, and the period a reached goal is notified for.

use vstd::prelude::*;
use crate::duration::{decimal, two_digits, push_decimal, push_two_digits};
use crate::clock::{UTC_MIN_SECS, UTC_MAX_SECS};
use crate::text::{to_lowercase, lowercase_of, str_eq, from_chars, clone_strings};

verus! {

/// A day of the week.
#[derive(Debug, Clone, Copy, PartialEq, Eq, Structural)]
pub enum Weekday {
    Mon,
    Tue,
    Wed,
    Thu,
    Fri,
    Sat,
    Sun,
}

/// The lowercase English name of a day.
pub open spec fn weekday_name(d: Weekday) -> Seq<char> {
    match d {
        Weekday::Mon => "monday"@,
        Weekday::Tue => "tuesday"@,
        Weekday::Wed => "wednesday"@,
        Weekday::Thu => "thursday"@,
        Weekday::Fri => "friday"@,
        Weekday::Sat => "saturday"@,
        Weekday::Sun => "sunday"@,
    }
}

/// The lowercase English name of a day.
pub fn weekday_to_str(day: Weekday) -> (r: &'static str)
    ensures
        r@ == weekday_name(day),
{
    match day {
        Weekday::Mon => "monday",
        Weekday::Tue => "tuesday",
        Weekday::Wed => "wednesday",
        Weekday::Thu => "thursday",
        Weekday::Fri => "friday",
        Weekday::Sat => "saturday",
        Weekday::Sun => "sunday",
    }
}

/// Whether `today` is among the excluded days (compared lowercased).
pub open spec fn is_excluded(excluded_days: Seq<String>, today: Weekday) -> bool {
    exists|i: int| 0 <= i < excluded_days.len() && lowercase_of((#[trigger] excluded_days[i])@) == weekday_name(today)
}

/// Whether the goal is not checked on `today` (the local weekday).
pub fn is_today_excluded(excluded_days: &Vec<String>, today: Weekday) -> (r: bool)
    ensures
        r == is_excluded(excluded_days@, today),
{
    let name = weekday_to_str(today);
    let mut i: usize = 0;
    while i < excluded_days.len()
        invariant
            i <= excluded_days@.len(),
            name@ == weekday_name(today),
            forall|j: int| 0 <= j < i ==> lowercase_of((#[trigger] excluded_days@[j])@) != weekday_name(today),
        decreases excluded_days@.len() - i,
    {
        let lower = to_lowercase(excluded_days[i].as_str());
        if str_eq(lower.as_str(), name) {
            return true;
        }
        i += 1;
    }
    false
}

/// The days go by their English names in lowercase (Monday "monday" through
/// Sunday "sunday"), no two days share a name, and a goal is skipped on a
/// day exactly when one of its excluded days lowercases to that day's own
/// name.
pub proof fn lemma_weekday_names(excluded_days: Seq<String>)
    ensures
        weekday_name(Weekday::Mon) == "monday"@,
        weekday_name(Weekday::Tue) == "tuesday"@,
        weekday_name(Weekday::Wed) == "wednesday"@,
        weekday_name(Weekday::Thu) == "thursday"@,
        weekday_name(Weekday::Fri) == "friday"@,
        weekday_name(Weekday::Sat) == "saturday"@,
        weekday_name(Weekday::Sun) == "sunday"@,
        forall|a: Weekday, b: Weekday| a != b ==> #[trigger] weekday_name(a) != #[trigger] weekday_name(b),
        is_excluded(excluded_days, Weekday::Mon) <==> exists|i: int|
            0 <= i < excluded_days.len() && lowercase_of((#[trigger] excluded_days[i])@) == "monday"@,
        is_excluded(excluded_days, Weekday::Tue) <==> exists|i: int|
            0 <= i < excluded_days.len() && lowercase_of((#[trigger] excluded_days[i])@) == "tuesday"@,
        is_excluded(excluded_days, Weekday::Wed) <==> exists|i: int|
            0 <= i < excluded_days.len() && lowercase_of((#[trigger] excluded_days[i])@) == "wednesday"@,
        is_excluded(excluded_days, Weekday::Thu) <==> exists|i: int|
            0 <= i < excluded_days.len() && lowercase_of((#[trigger] excluded_days[i])@) == "thursday"@,
        is_excluded(excluded_days, Weekday::Fri) <==> exists|i: int|
            0 <= i < excluded_days.len() && lowercase_of((#[trigger] excluded_days[i])@) == "friday"@,
        is_excluded(excluded_days, Weekday::Sat) <==> exists|i: int|
            0 <= i < excluded_days.len() && lowercase_of((#[trigger] excluded_days[i])@) == "saturday"@,
        is_excluded(excluded_days, Weekday::Sun) <==> exists|i: int|
            0 <= i < excluded_days.len() && lowercase_of((#[trigger] excluded_days[i])@) == "sunday"@,
{
    reveal_strlit("monday");
    reveal_strlit("tuesday");
    reveal_strlit("wednesday");
    reveal_strlit("thursday");
    reveal_strlit("friday");
    reveal_strlit("saturday");
    reveal_strlit("sunday");
    assert forall|a: Weekday, b: Weekday| a != b implies #[trigger] weekday_name(a) != #[trigger] weekday_name(b) by {
        let x = weekday_name(a);
        let y = weekday_name(b);
        if x.len() == y.len() {
            assert(x[0] != y[0] || x[1] != y[1]);
        }
    }
}

/// The span a goal's target applies to.
#[derive(Debug, Clone, Copy, PartialEq, Eq, Structural)]
pub enum TimeSpan {
    Day,
    Week,
    Month,
    Year,
}

/// A time goal.
#[derive(Debug)]
pub struct Goal {
    pub id: i64,
    pub name: String,
    pub target_seconds: i64,
    pub time_span: TimeSpan,
    pub excluded_days: Vec<String>,
    pub use_apps: bool,
    pub apps: Vec<String>,
    pub use_categories: bool,
    pub categories: Vec<String>,
}

/// Whether the tracked time reaches the goal's target.
pub fn goal_reached(goal: &Goal, total_tracked: i64) -> (r: bool)
    ensures
        r == (total_tracked >= goal.target_seconds),
{
    total_tracked >= goal.target_seconds
}

/// The filters of the time query for a goal: its apps and categories
/// when it uses them.
pub fn goal_filters(goal: &Goal) -> (r: (Option<Vec<String>>, Option<Vec<String>>))
    ensures
        r.0.deep_view() == (if goal.use_apps { Some(goal.apps.deep_view()) } else { None }),
        r.1.deep_view() == (if goal.use_categories { Some(goal.categories.deep_view()) } else { None }),
{
    let apps = if goal.use_apps { Some(clone_strings(&goal.apps)) } else { None };
    let categories = if goal.use_categories { Some(clone_strings(&goal.categories)) } else { None };
    (apps, categories)
}

/// The notification shown for a reached goal.
#[derive(Debug)]
pub struct NotificationPayload {
    pub title: String,
    pub duration_ms: u64,
    pub message: Option<String>,
    pub sound_file: Option<String>,
}

/// The notification for reaching `goal`.
pub fn goal_notification(goal: &Goal) -> (r: NotificationPayload)
    ensures
        r.title@ == "Goal completed!"@,
        r.duration_ms == 7000,
        r.message == Some(goal.name),
        r.sound_file.deep_view() == Some("goal_success.mp3"@),
{
    NotificationPayload {
        title: String::from_str("Goal completed!"),
        duration_ms: 7000,
        message: Some(goal.name.clone()),
        sound_file: Some(String::from_str("goal_success.mp3")),
    }
}

/// The calendar date of a Unix instant (UTC) as `chrono` gives it: year,
/// month, day, and ISO week-numbering year and week.
pub uninterp spec fn utc_date_of(secs: i64) -> Option<(i32, u32, u32, i32, u32)>;

/// Calls `chrono::Utc.timestamp_opt(secs, 0).single()` and reads the
/// date's `year()`, `month()`, `day()` and `iso_week()`. Claims the result
/// is the named date, and that there is one exactly for the instants
/// chrono represents (the years -262143 to 262142).
#[verifier::external_body]
fn utc_date(secs: i64) -> (r: Option<(i32, u32, u32, i32, u32)>)
    ensures
        r == utc_date_of(secs),
        r is Some <==> UTC_MIN_SECS <= secs <= UTC_MAX_SECS,
{
    match <chrono::Utc as chrono::TimeZone>::timestamp_opt(&chrono::Utc, secs, 0).single() {
        Some(t) => Some((
            chrono::Datelike::year(&t),
            chrono::Datelike::month(&t),
            chrono::Datelike::day(&t),
            chrono::Datelike::iso_week(&t).year(),
            chrono::Datelike::iso_week(&t).week(),
        )),
        None => None,
    }
}

/// The year as `%Y` writes it: four digits with leading zeros for the
/// years 0 to 9999, otherwise a sign followed by at least four digits.
pub open spec fn year_text(y: int) -> Seq<char> {
    if 0 <= y <= 9999 {
        four_digits(y as nat)
    } else if y < 0 {
        seq!['-'] + four_digits((-y) as nat)
    } else {
        seq!['+'] + four_digits(y as nat)
    }
}

/// `n` with at least four digits.
pub open spec fn four_digits(n: nat) -> Seq<char> {
    if n < 10 {
        seq!['0', '0', '0'] + decimal(n)
    } else if n < 100 {
        seq!['0', '0'] + decimal(n)
    } else if n < 1000 {
        seq!['0'] + decimal(n)
    } else {
        decimal(n)
    }
}

/// A signed integer in decimal, as `{}` writes it.
pub open spec fn signed_decimal(n: int) -> Seq<char> {
    if n < 0 { seq!['-'] + decimal((-n) as nat) } else { decimal(n as nat) }
}

/// The key of the period of `span` containing the date: `YYYY-MM-DD`,
/// `{iso year}-W{iso week}`, `YYYY-MM` or `YYYY`.
pub open spec fn period_key_of(span: TimeSpan, d: (i32, u32, u32, i32, u32)) -> Seq<char> {
    match span {
        TimeSpan::Day => year_text(d.0 as int) + seq!['-'] + two_digits(d.1 as nat) + seq!['-'] + two_digits(d.2 as nat),
        TimeSpan::Week => signed_decimal(d.3 as int) + seq!['-', 'W'] + decimal(d.4 as nat),
        TimeSpan::Month => year_text(d.0 as int) + seq!['-'] + two_digits(d.1 as nat),
        TimeSpan::Year => year_text(d.0 as int),
    }
}

fn push_four_digits(out: &mut Vec<char>, n: u64)
    ensures
        final(out)@ == old(out)@ + four_digits(n as nat),
{
    if n < 10 {
        out.push('0');
        out.push('0');
        out.push('0');
    } else if n < 100 {
        out.push('0');
        out.push('0');
    } else if n < 1000 {
        out.push('0');
    }
    push_decimal(out, n);
}

fn push_year(out: &mut Vec<char>, y: i32)
    ensures
        final(out)@ == old(out)@ + year_text(y as int),
{
    if 0 <= y && y <= 9999 {
        push_four_digits(out, y as u64);
    } else if y < 0 {
        out.push('-');
        push_four_digits(out, (-(y as i64)) as u64);
    } else {
        out.push('+');
        push_four_digits(out, y as u64);
    }
}

fn push_signed(out: &mut Vec<char>, n: i32)
    ensures
        final(out)@ == old(out)@ + signed_decimal(n as int),
{
    if n < 0 {
        out.push('-');
        push_decimal(out, (-(n as i64)) as u64);
    } else {
        push_decimal(out, n as u64);
    }
}

/// The key of the period of `span` that contains the date `d` (year,
/// month, day, ISO year, ISO week).
pub fn period_key(span: TimeSpan, d: (i32, u32, u32, i32, u32)) -> (r: String)
    ensures
        r@ == period_key_of(span, d),
{
    let mut v: Vec<char> = Vec::new();
    match span {
        TimeSpan::Day => {
            push_year(&mut v, d.0);
            v.push('-');
            push_two_digits(&mut v, d.1 as u64);
            v.push('-');
            push_two_digits(&mut v, d.2 as u64);
        },
        TimeSpan::Week => {
            push_signed(&mut v, d.3);
            v.push('-');
            v.push('W');
            push_decimal(&mut v, d.4 as u64);
        },
        TimeSpan::Month => {
            push_year(&mut v, d.0);
            v.push('-');
            push_two_digits(&mut v, d.1 as u64);
        },
        TimeSpan::Year => {
            push_year(&mut v, d.0);
        },
    }
    from_chars(&v)
}

/// The key of the current period of `span` at the Unix instant
/// `now_secs`, when the instant has a calendar date.
pub fn current_period_key(span: TimeSpan, now_secs: i64) -> (r: Option<String>)
    ensures
        match utc_date_of(now_secs) {
            Some(d) => r matches Some(k) && k@ == period_key_of(span, d),
            None => r is None,
        },
        r is Some <==> UTC_MIN_SECS <= now_secs <= UTC_MAX_SECS,
{
    match utc_date(now_secs) {
        Some(d) => Some(period_key(span, d)),
        None => None,
    }
}

/// What checking one goal asks for next.
#[derive(Debug)]
pub enum GoalStep {
    /// Nothing to do for this goal now.
    Skip,
    /// Fetch the time tracked in the goal's span, then call
    /// [`goal_step_total`].
    FetchTotal,
    /// Ask whether the notification for this period was shown, then call
    /// [`goal_step_shown`].
    CheckShown { period_key: String },
    /// Show the notification and record it as shown for the period.
    Notify { payload: NotificationPayload, period_key: String },
}

/// The first step of checking `goal` on the local weekday `today`: goals
/// excluded today are skipped, the others need their tracked time.
pub fn goal_step_start(goal: &Goal, today: Weekday) -> (r: GoalStep)
    ensures
        is_excluded(goal.excluded_days@, today) ==> r is Skip,
        !is_excluded(goal.excluded_days@, today) ==> r is FetchTotal,
{
    if is_today_excluded(&goal.excluded_days, today) {
        GoalStep::Skip
    } else {
        GoalStep::FetchTotal
    }
}

/// After the tracked time `total` came back at the Unix instant
/// `now_secs`: a goal not reached is skipped; a reached one needs to know
/// whether it was notified for the current period.
pub fn goal_step_total(goal: &Goal, total: i64, now_secs: i64) -> (r: GoalStep)
    requires
        UTC_MIN_SECS <= now_secs <= UTC_MAX_SECS,
    ensures
        total < goal.target_seconds ==> r is Skip,
        total >= goal.target_seconds ==> (r matches GoalStep::CheckShown { period_key } && match utc_date_of(now_secs) {
            Some(d) => period_key@ == period_key_of(goal.time_span, d),
            None => false,
        }),
{
    if !goal_reached(goal, total) {
        return GoalStep::Skip;
    }
    match current_period_key(goal.time_span, now_secs) {
        Some(k) => GoalStep::CheckShown { period_key: k },
        None => GoalStep::Skip,
    }
}

/// After learning whether the notification for `period_key` was shown:
/// shown ones are skipped, others are shown now.
pub fn goal_step_shown(goal: &Goal, period_key: String, already_shown: bool) -> (r: GoalStep)
    ensures
        already_shown ==> r is Skip,
        !already_shown ==> (r matches GoalStep::Notify { payload, period_key: k } && k == period_key
            && payload.title@ == "Goal completed!"@ && payload.duration_ms == 7000
            && payload.message == Some(goal.name)
            && payload.sound_file.deep_view() == Some("goal_success.mp3"@)),
{
    if already_shown {
        GoalStep::Skip
    } else {
        GoalStep::Notify { payload: goal_notification(goal), period_key }
    }
}

/// The period keys a goal is notified for over rounds of checks, given
/// the keys already recorded as shown: a round is `(due, key)`, where
/// `due` says the goal is checked today and reached (see
/// [`goal_step_start`] and [`goal_step_total`]) and `key` is the current
/// period's key; a due round notifies unless its key was shown, and
/// records it (see [`goal_step_shown`]).
pub open spec fn notified_keys(shown: Set<Seq<char>>, rounds: Seq<(bool, Seq<char>)>) -> Seq<Seq<char>>
    decreases rounds.len(),
{
    if rounds.len() == 0 {
        Seq::empty()
    } else {
        let (due, key) = rounds[0];
        if due && !shown.contains(key) {
            seq![key] + notified_keys(shown.insert(key), rounds.drop_first())
        } else {
            notified_keys(shown, rounds.drop_first())
        }
    }
}

/// A goal is notified at most once per period, across any number of
/// checks: the keys notified are all different, and none was shown
/// before.
pub proof fn lemma_notified_once_per_period(shown: Set<Seq<char>>, rounds: Seq<(bool, Seq<char>)>)
    ensures
        forall|i: int| 0 <= i < notified_keys(shown, rounds).len() ==> !shown.contains(
            #[trigger] notified_keys(shown, rounds)[i],
        ),
        forall|i: int, j: int| 0 <= i < j < notified_keys(shown, rounds).len() ==> #[trigger] notified_keys(
            shown,
            rounds,
        )[i] != #[trigger] notified_keys(shown, rounds)[j],
    decreases rounds.len(),
{
    if rounds.len() > 0 {
        let (due, key) = rounds[0];
        let rest = rounds.drop_first();
        if due && !shown.contains(key) {
            let s2 = shown.insert(key);
            lemma_notified_once_per_period(s2, rest);
            let n = notified_keys(s2, rest);
            assert(notified_keys(shown, rounds) == seq![key] + n);
            assert forall|i: int| 0 <= i < notified_keys(shown, rounds).len() implies !shown.contains(
                #[trigger] notified_keys(shown, rounds)[i],
            ) by {
                if i > 0 {
                    assert(notified_keys(shown, rounds)[i] == n[i - 1]);
                    assert(!s2.contains(n[i - 1]));
                } else {
                    assert(notified_keys(shown, rounds)[0] == key);
                }
            }
            assert forall|i: int, j: int| 0 <= i < j < notified_keys(shown, rounds).len() implies #[trigger] notified_keys(
                shown,
                rounds,
            )[i] != #[trigger] notified_keys(shown, rounds)[j] by {
                assert(notified_keys(shown, rounds)[j] == n[j - 1]);
                if i == 0 {
                    assert(notified_keys(shown, rounds)[0] == key);
                    assert(!s2.contains(n[j - 1]));
                } else {
                    assert(notified_keys(shown, rounds)[i] == n[i - 1]);
                }
            }
        } else {
            lemma_notified_once_per_period(shown, rest);
            assert(notified_keys(shown, rounds) == notified_keys(shown, rest));
        }
    }
}

} // verus!
