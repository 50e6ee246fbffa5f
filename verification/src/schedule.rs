//! Scheduled tasks: names, commands and six-field cron expressions
//! (`sec min hour day-of-month month day-of-week`).
use vstd::prelude::*;
use vstd::string::*;
use crate::text::{decimal, u64_to_decimal};

verus! {

/// Why a task could not be scheduled.
#[derive(Debug)]
pub enum SchedulerError {
    InvalidCronExpression(String),
    InvalidTime(String),
}

/// An instant: whole seconds since the Unix epoch and the nanoseconds past them
/// (more than a second's worth during a leap second).
#[derive(Debug, Clone, Copy, PartialEq, Eq)]
pub struct Moment {
    pub secs: i64,
    pub nanos: u32,
}

impl Moment {
    /// Whether `self` comes strictly before `other`.
    pub open spec fn before(self, other: Moment) -> bool {
        self.secs < other.secs || (self.secs == other.secs && self.nanos < other.nanos)
    }

    /// Whether `self` comes strictly before `other`.
    pub fn is_before(self, other: Moment) -> (b: bool)
        ensures
            b == self.before(other),
    {
        self.secs < other.secs || (self.secs == other.secs && self.nanos < other.nanos)
    }
}

/// The system clock read by `std::time::SystemTime::now` and measured from
/// `UNIX_EPOCH` by `duration_since`: whole seconds and the nanoseconds past them, or
/// `None` when the clock reads before the epoch. Which time the clock shows is not
/// stated; of the nanoseconds, `Duration::subsec_nanos` documents that they stay
/// under one billion.
#[verifier::external_body]
fn time_since_epoch() -> (r: Option<(u64, u32)>)
    ensures
        r matches Some((secs, nanos)) ==> nanos < 1_000_000_000,
{
    match std::time::SystemTime::now().duration_since(std::time::UNIX_EPOCH) {
        Ok(d) => Some((d.as_secs(), d.subsec_nanos())),
        Err(_) => None,
    }
}

/// The current time by the system clock, if it reads at or after the Unix epoch and
/// its seconds fit an `i64`.
pub fn current_moment() -> (m: Option<Moment>)
    ensures
        m matches Some(m) ==> m.secs >= 0 && m.nanos < 1_000_000_000,
{
    match time_since_epoch() {
        Some((secs, nanos)) => {
            if secs <= 0x7fff_ffff_ffff_ffffu64 {
                Some(Moment { secs: secs as i64, nanos })
            } else {
                None
            }
        },
        None => None,
    }
}

/// A time of day, to the minute.
#[derive(Debug, Clone, Copy, PartialEq, Eq)]
pub struct TimeOfDay {
    hour: u32,
    minute: u32,
}

impl TimeOfDay {
    pub closed spec fn spec_hour(&self) -> u32 {
        self.hour
    }

    pub closed spec fn spec_minute(&self) -> u32 {
        self.minute
    }

    /// The time `hour:minute`, if it exists on a 24-hour clock.
    pub fn from_hm(hour: u32, minute: u32) -> (t: Option<Self>)
        ensures
            t is Some <==> hour < 24 && minute < 60,
            t matches Some(t) ==> t.spec_hour() == hour && t.spec_minute() == minute,
    {
        if hour < 24 && minute < 60 {
            Some(TimeOfDay { hour, minute })
        } else {
            None
        }
    }

    /// The hour.
    pub fn hour(&self) -> (h: u32)
        ensures
            h == self.spec_hour(),
    {
        self.hour
    }

    /// The minute.
    pub fn minute(&self) -> (m: u32)
        ensures
            m == self.spec_minute(),
    {
        self.minute
    }
}

/// The cron expression of a task at second 0 of the given minute, hour, day of month
/// and day of week fields.
pub open spec fn cron(minute: Seq<char>, hour: Seq<char>, day: Seq<char>, month: Seq<char>, weekday: Seq<char>) -> Seq<char> {
    "0 "@ + minute + " "@ + hour + " "@ + day + " "@ + month + " "@ + weekday
}

/// A task being described: its name, its command and its time zone.
pub struct TaskBuilder<C> {
    name: String,
    command: C,
    timezone: String,
}

/// A task with its schedule.
pub struct Task<C> {
    name: String,
    command: C,
    cron_expression: String,
    next_run: Option<Moment>,
    last_run: Option<Moment>,
}

/// Whether a task whose next run is planned at `next` is due at `now`: it is due once
/// that moment has come; a task with no planned run is never due.
pub open spec fn due_at(next: Option<Moment>, now: Moment) -> bool {
    match next {
        Some(t) => !now.before(t),
        None => false,
    }
}

impl<C> Task<C> {
    pub closed spec fn spec_name(&self) -> Seq<char> {
        self.name@
    }

    pub closed spec fn spec_cron(&self) -> Seq<char> {
        self.cron_expression@
    }

    pub closed spec fn spec_command(&self) -> C {
        self.command
    }

    pub closed spec fn spec_next_run(&self) -> Option<Moment> {
        self.next_run
    }

    pub closed spec fn spec_last_run(&self) -> Option<Moment> {
        self.last_run
    }

    /// A task that has never run and has no next run planned.
    pub fn new(name: &str, cron_expression: &str, command: C) -> (r: Result<Self, SchedulerError>)
        ensures
            r matches Ok(t) && t.spec_name() == name@ && t.spec_cron() == cron_expression@
                && t.spec_command() == command && t.spec_next_run() is None && t.spec_last_run() is None,
    {
        Ok(Task {
            name: String::from_str(name),
            command,
            cron_expression: String::from_str(cron_expression),
            next_run: None,
            last_run: None,
        })
    }

    /// The task's name.
    pub fn name(&self) -> (s: &str)
        ensures
            s@ == self.spec_name(),
    {
        self.name.as_str()
    }

    /// The task's cron expression.
    pub fn cron_expression(&self) -> (s: &str)
        ensures
            s@ == self.spec_cron(),
    {
        self.cron_expression.as_str()
    }

    /// The task's command.
    pub fn command(&self) -> (c: &C)
        ensures
            *c == self.spec_command(),
    {
        &self.command
    }

    /// Whether the task is due at `now`: only a planned next run can be due.
    pub fn should_run_at(&self, now: Moment) -> (b: bool)
        ensures
            b == due_at(self.spec_next_run(), now),
    {
        match self.next_run {
            Some(next_run) => !now.is_before(next_run),
            None => false,
        }
    }

    /// Whether the task is due now, by the system clock: whether it is due at the
    /// moment the clock read, whatever that moment was; not due when the clock reads
    /// before the Unix epoch.
    pub fn should_run(&self) -> (b: bool)
        ensures
            b ==> exists|now: Moment| now.secs >= 0 && #[trigger] due_at(self.spec_next_run(), now),
            self.spec_next_run() is None ==> !b,
    {
        match current_moment() {
            Some(now) => self.should_run_at(now),
            None => false,
        }
    }

    /// Records that the task ran at time `at`.
    pub fn record_run(&mut self, at: Moment)
        ensures
            final(self).spec_last_run() == Some(at),
            final(self).spec_next_run() == old(self).spec_next_run(),
            final(self).spec_name() == old(self).spec_name(),
            final(self).spec_cron() == old(self).spec_cron(),
            final(self).spec_command() == old(self).spec_command(),
    {
        self.last_run = Some(at);
    }
}

impl<C> TaskBuilder<C> {
    pub closed spec fn spec_name(&self) -> Seq<char> {
        self.name@
    }

    pub closed spec fn spec_command(&self) -> C {
        self.command
    }

    pub closed spec fn spec_timezone(&self) -> Seq<char> {
        self.timezone@
    }

    /// A task called `name` running `command`, in the time zone `UTC`.
    pub fn new(name: &str, command: C) -> (b: Self)
        ensures
            b.spec_name() == name@,
            b.spec_command() == command,
            b.spec_timezone() == "UTC"@,
    {
        TaskBuilder { name: String::from_str(name), command, timezone: String::from_str("UTC") }
    }

    /// Sets the time zone.
    pub fn timezone(self, tz: &str) -> (b: Self)
        ensures
            b.spec_name() == self.spec_name(),
            b.spec_command() == self.spec_command(),
            b.spec_timezone() == tz@,
    {
        let mut b = self;
        b.timezone = String::from_str(tz);
        b
    }

    /// The task on the schedule `expression`.
    pub fn cron(self, expression: &str) -> (r: Result<Task<C>, SchedulerError>)
        ensures
            r matches Ok(t) && t.spec_name() == self.spec_name() && t.spec_cron() == expression@
                && t.spec_command() == self.spec_command() && t.spec_next_run() is None
                && t.spec_last_run() is None,
    {
        let TaskBuilder { name, command, timezone: _ } = self;
        Task::new(name.as_str(), expression, command)
    }

    /// Every minute.
    #[allow(non_snake_case)]
    pub fn everyMinute(self) -> (r: Result<Task<C>, SchedulerError>)
        ensures
            r matches Ok(t) && t.spec_name() == self.spec_name() && t.spec_command() == self.spec_command()
                && t.spec_cron() == "0 * * * * *"@,
    {
        self.cron("0 * * * * *")
    }

    /// Every two minutes.
    #[allow(non_snake_case)]
    pub fn everyTwoMinutes(self) -> (r: Result<Task<C>, SchedulerError>)
        ensures
            r matches Ok(t) && t.spec_name() == self.spec_name() && t.spec_command() == self.spec_command()
                && t.spec_cron() == "0 */2 * * * *"@,
    {
        self.cron("0 */2 * * * *")
    }

    /// Every three minutes.
    #[allow(non_snake_case)]
    pub fn everyThreeMinutes(self) -> (r: Result<Task<C>, SchedulerError>)
        ensures
            r matches Ok(t) && t.spec_name() == self.spec_name() && t.spec_command() == self.spec_command()
                && t.spec_cron() == "0 */3 * * * *"@,
    {
        self.cron("0 */3 * * * *")
    }

    /// Every five minutes.
    #[allow(non_snake_case)]
    pub fn everyFiveMinutes(self) -> (r: Result<Task<C>, SchedulerError>)
        ensures
            r matches Ok(t) && t.spec_name() == self.spec_name() && t.spec_command() == self.spec_command()
                && t.spec_cron() == "0 */5 * * * *"@,
    {
        self.cron("0 */5 * * * *")
    }

    /// Every ten minutes.
    #[allow(non_snake_case)]
    pub fn everyTenMinutes(self) -> (r: Result<Task<C>, SchedulerError>)
        ensures
            r matches Ok(t) && t.spec_name() == self.spec_name() && t.spec_command() == self.spec_command()
                && t.spec_cron() == "0 */10 * * * *"@,
    {
        self.cron("0 */10 * * * *")
    }

    /// Every fifteen minutes.
    #[allow(non_snake_case)]
    pub fn everyFifteenMinutes(self) -> (r: Result<Task<C>, SchedulerError>)
        ensures
            r matches Ok(t) && t.spec_name() == self.spec_name() && t.spec_command() == self.spec_command()
                && t.spec_cron() == "0 */15 * * * *"@,
    {
        self.cron("0 */15 * * * *")
    }

    /// Every thirty minutes.
    #[allow(non_snake_case)]
    pub fn everyThirtyMinutes(self) -> (r: Result<Task<C>, SchedulerError>)
        ensures
            r matches Ok(t) && t.spec_name() == self.spec_name() && t.spec_command() == self.spec_command()
                && t.spec_cron() == "0 */30 * * * *"@,
    {
        self.cron("0 */30 * * * *")
    }

    /// At the start of every hour.
    pub fn hourly(self) -> (r: Result<Task<C>, SchedulerError>)
        ensures
            r matches Ok(t) && t.spec_name() == self.spec_name() && t.spec_command() == self.spec_command()
                && t.spec_cron() == "0 0 * * * *"@,
    {
        self.cron("0 0 * * * *")
    }

    /// Every hour at `minute`.
    #[allow(non_snake_case)]
    pub fn hourlyAt(self, minute: u32) -> (r: Result<Task<C>, SchedulerError>)
        ensures
            r matches Ok(t) && t.spec_name() == self.spec_name() && t.spec_command() == self.spec_command()
                && t.spec_cron() == cron(decimal(minute as nat), "*"@, "*"@, "*"@, "*"@),
    {
        let expr = cron_expression(u64_to_decimal(minute as u64).as_str(), "*", "*", "*", "*");
        self.cron(expr.as_str())
    }

    /// Every day at midnight.
    pub fn daily(self) -> (r: Result<Task<C>, SchedulerError>)
        ensures
            r matches Ok(t) && t.spec_name() == self.spec_name() && t.spec_command() == self.spec_command()
                && t.spec_cron() == "0 0 0 * * *"@,
    {
        self.cron("0 0 0 * * *")
    }

    /// Every day at `time`.
    #[allow(non_snake_case)]
    pub fn dailyAt(self, time: TimeOfDay) -> (r: Result<Task<C>, SchedulerError>)
        ensures
            r matches Ok(t) && t.spec_name() == self.spec_name() && t.spec_command() == self.spec_command()
                && t.spec_cron() == cron(decimal(time.spec_minute() as nat), decimal(time.spec_hour() as nat), "*"@, "*"@, "*"@),
    {
        let m = u64_to_decimal(time.minute() as u64);
        let h = u64_to_decimal(time.hour() as u64);
        let expr = cron_expression(m.as_str(), h.as_str(), "*", "*", "*");
        self.cron(expr.as_str())
    }

    /// Every Sunday at midnight.
    pub fn weekly(self) -> (r: Result<Task<C>, SchedulerError>)
        ensures
            r matches Ok(t) && t.spec_name() == self.spec_name() && t.spec_command() == self.spec_command()
                && t.spec_cron() == "0 0 0 * * 0"@,
    {
        self.cron("0 0 0 * * 0")
    }

    /// Every week on day `day` (0 is Sunday) at `time`.
    #[allow(non_snake_case)]
    pub fn weeklyOn(self, day: u32, time: TimeOfDay) -> (r: Result<Task<C>, SchedulerError>)
        ensures
            r matches Ok(t) && t.spec_name() == self.spec_name() && t.spec_command() == self.spec_command()
                && t.spec_cron() == cron(decimal(time.spec_minute() as nat), decimal(time.spec_hour() as nat), "*"@, "*"@, decimal(day as nat)),
    {
        let m = u64_to_decimal(time.minute() as u64);
        let h = u64_to_decimal(time.hour() as u64);
        let d = u64_to_decimal(day as u64);
        let expr = cron_expression(m.as_str(), h.as_str(), "*", "*", d.as_str());
        self.cron(expr.as_str())
    }

    /// On the first of every month at midnight.
    pub fn monthly(self) -> (r: Result<Task<C>, SchedulerError>)
        ensures
            r matches Ok(t) && t.spec_name() == self.spec_name() && t.spec_command() == self.spec_command()
                && t.spec_cron() == "0 0 0 1 * *"@,
    {
        self.cron("0 0 0 1 * *")
    }

    /// Every month on day `day` at `time`.
    #[allow(non_snake_case)]
    pub fn monthlyOn(self, day: u32, time: TimeOfDay) -> (r: Result<Task<C>, SchedulerError>)
        ensures
            r matches Ok(t) && t.spec_name() == self.spec_name() && t.spec_command() == self.spec_command()
                && t.spec_cron() == cron(decimal(time.spec_minute() as nat), decimal(time.spec_hour() as nat), decimal(day as nat), "*"@, "*"@),
    {
        let m = u64_to_decimal(time.minute() as u64);
        let h = u64_to_decimal(time.hour() as u64);
        let d = u64_to_decimal(day as u64);
        let expr = cron_expression(m.as_str(), h.as_str(), d.as_str(), "*", "*");
        self.cron(expr.as_str())
    }

    /// On the first of January, April, July and October at midnight.
    pub fn quarterly(self) -> (r: Result<Task<C>, SchedulerError>)
        ensures
            r matches Ok(t) && t.spec_name() == self.spec_name() && t.spec_command() == self.spec_command()
                && t.spec_cron() == "0 0 0 1 */3 *"@,
    {
        self.cron("0 0 0 1 */3 *")
    }

    /// On the first of January at midnight.
    pub fn yearly(self) -> (r: Result<Task<C>, SchedulerError>)
        ensures
            r matches Ok(t) && t.spec_name() == self.spec_name() && t.spec_command() == self.spec_command()
                && t.spec_cron() == "0 0 0 1 1 *"@,
    {
        self.cron("0 0 0 1 1 *")
    }
}

/// Builds `0 minute hour day month weekday`.
pub fn cron_expression(minute: &str, hour: &str, day: &str, month: &str, weekday: &str) -> (s: String)
    ensures
        s@ == cron(minute@, hour@, day@, month@, weekday@),
{
    let mut s = String::from_str("0 ");
    s.append(minute);
    s.append(" ");
    s.append(hour);
    s.append(" ");
    s.append(day);
    s.append(" ");
    s.append(month);
    s.append(" ");
    s.append(weekday);
    s
}

} // verus!
