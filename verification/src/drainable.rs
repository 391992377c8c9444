//! The drainable HTTP service: what it reports of itself, how long it keeps
//! serving after it was told to stop, and how it slows requests down.
//!
//! Endpoints are `/`, `/metrics`, `/healthz`, `/readyz` and `/drainez`. The
//! service answers `/readyz` with 200 at all times: readiness during shutdown is
//! owned by the controller, through its readiness gate.

use vstd::prelude::*;

use crate::settings::{flag_enabled, u32_or, u64_or};
use crate::timestamp::{NANOS_PER_SEC, Timestamp, TimestampView, utc_now};

verus! {

/// How the service was set up.
#[derive(Clone, Copy, Debug, PartialEq, Eq, Structural)]
pub struct ServiceSettings {
    /// Delay of every request, in milliseconds.
    pub sleep_ms: u64,
    /// Share of requests that take long, in percent.
    pub long_requests_pct: u32,
    /// Whether to keep serving in-flight requests after SIGTERM.
    pub graceful_drain: bool,
    /// Upper bound on how long to keep serving after SIGTERM. It should be a few
    /// seconds less than the grace period of the pod.
    pub drain_max_secs: u64,
}

impl ServiceSettings {
    /// Reads the settings from the values of `SLEEP_MS`, `LONG_REQUESTS_PCT`,
    /// `DAT6_GRACEFUL_DRAIN` and `DAT6_DRAIN_MAX_SECS`.
    pub fn from_env(
        sleep_ms: &Option<String>,
        long_requests_pct: &Option<String>,
        graceful_drain: &Option<String>,
        drain_max_secs: &Option<String>,
    ) -> (settings: ServiceSettings)
        ensures
            settings.sleep_ms == crate::settings::number_or(
                crate::pod::optional_text(*sleep_ms),
                u64::MAX as nat,
                0,
            ),
            settings.long_requests_pct == crate::settings::number_or(
                crate::pod::optional_text(*long_requests_pct),
                u32::MAX as nat,
                0,
            ),
            settings.graceful_drain == crate::settings::switched_on(
                crate::pod::optional_text(*graceful_drain),
            ),
            settings.drain_max_secs == crate::settings::number_or(
                crate::pod::optional_text(*drain_max_secs),
                u64::MAX as nat,
                28,
            ),
    {
        ServiceSettings {
            sleep_ms: u64_or(sleep_ms, 0),
            long_requests_pct: u32_or(long_requests_pct, 0),
            graceful_drain: flag_enabled(graceful_drain),
            drain_max_secs: u64_or(drain_max_secs, 28),
        }
    }
}

/// What the service answers on `/drainez`.
#[derive(Clone, Copy, Debug, PartialEq, Eq, Structural)]
pub struct DrainezStatus {
    /// Requests in flight.
    pub active_connections: u64,
    /// Whether the process was told to stop.
    pub draining: bool,
    /// Whether the controller may remove its finalizer.
    pub ready_to_delete: bool,
}

/// What the service reports. It is ready to be deleted only once it has entered
/// the draining phase: a healthy pod that happens to be idle is not.
pub open spec fn drainez_status(active_connections: u64, draining: bool) -> DrainezStatus {
    DrainezStatus {
        active_connections,
        draining,
        ready_to_delete: draining && active_connections == 0,
    }
}

/// What the service reports on `/drainez`.
pub fn drainez(active_connections: u64, draining: bool) -> (status: DrainezStatus)
    ensures
        status == drainez_status(active_connections, draining),
{
    DrainezStatus {
        active_connections,
        draining,
        ready_to_delete: draining && active_connections == 0,
    }
}

/// What the controller makes of the service's answer: it takes the pod for
/// drained exactly when the service was told to stop and has no request in
/// flight, and waits for it otherwise.
pub proof fn service_and_controller_agree(active_connections: u64, draining: bool)
    ensures
        crate::controller::outcome_of(
            crate::controller::DrainezReply::Payload {
                ready_to_delete: drainez_status(active_connections, draining).ready_to_delete,
            },
        ) == if draining && active_connections == 0 {
            crate::controller::DrainezPollOutcome::ReadyToDelete
        } else {
            crate::controller::DrainezPollOutcome::NotYet
        },
{
}

/// What to do next while the service is being stopped.
#[derive(Clone, Copy, Debug, PartialEq, Eq, Structural)]
pub enum ShutdownStep {
    /// No request is in flight: stop after a pause of this many milliseconds, in
    /// which the controller can still see that the service is drained.
    Drained { pause_millis: u64 },
    /// The time is up with requests in flight: stop now.
    TimedOut,
    /// Requests are in flight: look again after this many milliseconds.
    Wait { millis: u64 },
}

/// The time that the service has to stop, in nanoseconds after the signal.
pub open spec fn limit_nanos(drain_max_secs: int) -> int {
    drain_max_secs * NANOS_PER_SEC
}

/// The whole milliseconds that are left `elapsed_nanos` after the signal to stop;
/// none once the time is up.
pub open spec fn millis_left(elapsed_nanos: int, drain_max_secs: int) -> int {
    if elapsed_nanos < limit_nanos(drain_max_secs) {
        (limit_nanos(drain_max_secs) - elapsed_nanos) / 1_000_000
    } else {
        0
    }
}

/// How long a drained service goes on answering: two seconds, or what is left of
/// its time if that is less.
pub open spec fn pause_of(elapsed_nanos: int, drain_max_secs: int) -> int {
    if millis_left(elapsed_nanos, drain_max_secs) < 2000 {
        millis_left(elapsed_nanos, drain_max_secs)
    } else {
        2000
    }
}

/// What to do with `in_flight` requests in flight, `elapsed_nanos` after the
/// signal to stop: an idle service is drained and pauses as long as its time
/// allows, and a busy one is waited for until the time is up.
pub open spec fn shutdown_step_of(
    in_flight: int,
    elapsed_nanos: int,
    drain_max_secs: int,
) -> ShutdownStep {
    if in_flight == 0 {
        ShutdownStep::Drained { pause_millis: pause_of(elapsed_nanos, drain_max_secs) as u64 }
    } else if elapsed_nanos >= limit_nanos(drain_max_secs) {
        ShutdownStep::TimedOut
    } else {
        ShutdownStep::Wait { millis: 200 }
    }
}

/// The whole milliseconds that the service has left before it must have stopped,
/// as far as 64 bits can count them.
pub fn time_left_millis(elapsed_nanos: u128, drain_max_secs: u64) -> (millis: u64)
    ensures
        millis == if millis_left(elapsed_nanos as int, drain_max_secs as int) <= u64::MAX {
            millis_left(elapsed_nanos as int, drain_max_secs as int)
        } else {
            u64::MAX as int
        },
{
    let limit: u128 = drain_max_secs as u128 * 1_000_000_000u128;
    if elapsed_nanos >= limit {
        return 0;
    }
    let millis: u128 = (limit - elapsed_nanos) / 1_000_000u128;
    if millis <= u64::MAX as u128 {
        millis as u64
    } else {
        u64::MAX
    }
}

/// What to do next while the service is being stopped.
pub fn shutdown_step(in_flight: u64, elapsed_nanos: u128, drain_max_secs: u64) -> (step:
    ShutdownStep)
    ensures
        step == shutdown_step_of(in_flight as int, elapsed_nanos as int, drain_max_secs as int),
{
    if in_flight == 0 {
        let left: u64 = time_left_millis(elapsed_nanos, drain_max_secs);
        ShutdownStep::Drained {
            pause_millis: if left < 2000 {
                left
            } else {
                2000
            },
        }
    } else if elapsed_nanos >= drain_max_secs as u128 * 1_000_000_000u128 {
        ShutdownStep::TimedOut
    } else {
        ShutdownStep::Wait { millis: 200 }
    }
}

/// A look at the service while it is being stopped.
pub struct Look {
    pub in_flight: nat,
    pub elapsed_nanos: nat,
}

/// What to do after a look.
pub open spec fn step_at(look: Look, drain_max_secs: nat) -> ShutdownStep {
    shutdown_step_of(look.in_flight as int, look.elapsed_nanos as int, drain_max_secs as int)
}

/// When the step after a look is over, in nanoseconds after the signal to stop.
pub open spec fn step_ends_at(look: Look, drain_max_secs: nat) -> int {
    match step_at(look, drain_max_secs) {
        ShutdownStep::Drained { pause_millis } => look.elapsed_nanos + pause_millis * 1_000_000,
        ShutdownStep::TimedOut => look.elapsed_nanos as int,
        ShutdownStep::Wait { millis } => look.elapsed_nanos + millis * 1_000_000,
    }
}

/// The looks of a shutdown up to now, where the machine is at most `delay_nanos`
/// late for each of them: the first comes with the signal to stop, and another one
/// after every wait.
pub open spec fn looks_of_shutdown(
    looks: Seq<Look>,
    drain_max_secs: nat,
    delay_nanos: nat,
) -> bool
    decreases looks.len(),
{
    if looks.len() == 0 {
        false
    } else if looks.len() == 1 {
        looks.last().elapsed_nanos <= delay_nanos
    } else {
        let before = looks.drop_last();
        &&& looks_of_shutdown(before, drain_max_secs, delay_nanos)
        &&& step_at(before.last(), drain_max_secs) is Wait
        &&& step_ends_at(before.last(), drain_max_secs) <= looks.last().elapsed_nanos
            <= step_ends_at(before.last(), drain_max_secs) + delay_nanos
    }
}

/// The limit bounds every step: a pause is over by the time that the service must
/// have stopped, and a wait begins only before that time and takes 200 milliseconds.
pub proof fn pauses_and_waits_keep_to_the_limit(
    in_flight: u64,
    elapsed_nanos: u128,
    drain_max_secs: u64,
)
    ensures
        match shutdown_step_of(in_flight as int, elapsed_nanos as int, drain_max_secs as int) {
            ShutdownStep::Drained { pause_millis } => pause_millis == 0 || elapsed_nanos
                + pause_millis * 1_000_000 <= limit_nanos(drain_max_secs as int),
            ShutdownStep::TimedOut => elapsed_nanos >= limit_nanos(drain_max_secs as int),
            ShutdownStep::Wait { millis } => millis == 200 && elapsed_nanos < limit_nanos(
                drain_max_secs as int,
            ),
        },
{
}

/// A service that is drained early enough pauses for two seconds.
pub proof fn pause_is_full_where_time_allows(elapsed_nanos: u128, drain_max_secs: u64)
    requires
        elapsed_nanos + 2 * NANOS_PER_SEC <= limit_nanos(drain_max_secs as int),
    ensures
        shutdown_step_of(0, elapsed_nanos as int, drain_max_secs as int)
            == (ShutdownStep::Drained { pause_millis: 2000 }),
{
}

/// `drain_max_secs` bounds the shutdown, even if requests stay in flight for ever: it
/// takes at most five looks for each second and one more, and once it waits no
/// longer it is over by the limit, or at most one wait of 200 milliseconds later,
/// apart from how late the machine is.
pub proof fn shutdown_ends_in_time(looks: Seq<Look>, drain_max_secs: nat, delay_nanos: nat)
    requires
        looks_of_shutdown(looks, drain_max_secs, delay_nanos),
    ensures
        looks.len() <= 5 * drain_max_secs + 1,
        looks.last().elapsed_nanos >= (looks.len() - 1) * 200_000_000,
        !(step_at(looks.last(), drain_max_secs) is Wait) ==> step_ends_at(
            looks.last(),
            drain_max_secs,
        ) <= limit_nanos(drain_max_secs as int) + 200_000_000 + delay_nanos,
    decreases looks.len(),
{
    if looks.len() > 1 {
        shutdown_ends_in_time(looks.drop_last(), drain_max_secs, delay_nanos);
    }
}

/// The service is never stopped under its requests before the time is up: as long
/// as some are in flight, it stops only once `drain_max_secs` have passed.
pub proof fn requests_in_flight_are_kept_until_time_is_up(
    in_flight: u64,
    elapsed_nanos: u128,
    drain_max_secs: u64,
)
    requires
        in_flight > 0,
        !(shutdown_step_of(
            in_flight as int,
            elapsed_nanos as int,
            drain_max_secs as int,
        ) is Wait),
    ensures
        elapsed_nanos >= drain_max_secs * NANOS_PER_SEC,
{
}

/// The last two digits of the nanoseconds since 1970.
pub open spec fn last_digits(now: TimestampView) -> int {
    (now.secs * NANOS_PER_SEC + now.nanos) % 100
}

/// A number below 100 that is taken from a point in time.
pub fn rand_at(now: &Timestamp) -> (number: u32)
    ensures
        number == last_digits(now@),
{
    assert((now@.secs * NANOS_PER_SEC + now@.nanos) % 100 == now@.nanos % 100);
    now.nanos() % 100
}

/// A number below 100, from the clock.
pub fn rand_simple() -> (number: u32)
    ensures
        number < 100,
        exists|now: TimestampView| #[trigger]
            crate::controller::on_the_clock(now) && number == last_digits(now),
{
    let now: Timestamp = utc_now();
    assert(crate::controller::on_the_clock(now@));
    rand_at(&now)
}

/// How long a request takes, in milliseconds: the fixed delay if there is one;
/// else, where the first number falls into the share of long requests, from two
/// to ten seconds by the second number; else no time at all.
pub open spec fn delay_of(sleep_ms: int, long_requests_pct: int, roll: int, length: int) -> int {
    if sleep_ms > 0 {
        sleep_ms
    } else if roll % 100 < long_requests_pct {
        (2 + length % 9) * 1000
    } else {
        0
    }
}

/// How long a request takes, given the two numbers that decide it.
pub fn delay_ms(sleep_ms: u64, long_requests_pct: u32, roll: u32, length: u32) -> (millis: u64)
    ensures
        millis == delay_of(
            sleep_ms as int,
            long_requests_pct as int,
            roll as int,
            length as int,
        ),
{
    if sleep_ms > 0 {
        sleep_ms
    } else if long_requests_pct > 0 && roll % 100 < long_requests_pct {
        (2 + (length % 9) as u64) * 1000
    } else {
        0
    }
}

/// How long a request takes, in milliseconds. A fixed delay holds for every
/// request; without one, and with a share of long requests in `LONG_REQUESTS_PCT`,
/// the clock decides.
pub fn request_delay_ms(sleep_ms: u64, long_requests_pct: &Option<String>) -> (millis: u64)
    ensures
        exists|roll: u32, length: u32|
            roll < 100 && length < 100 && millis == #[trigger] delay_of(
                sleep_ms as int,
                crate::settings::number_or(
                    crate::pod::optional_text(*long_requests_pct),
                    u32::MAX as nat,
                    0,
                ) as int,
                roll as int,
                length as int,
            ),
{
    let pct: u32 = u32_or(long_requests_pct, 0);
    let mut roll: u32 = 0;
    let mut length: u32 = 0;
    if sleep_ms == 0 && pct > 0 {
        roll = rand_simple();
        if roll < pct {
            length = rand_simple();
        }
    }
    delay_ms(sleep_ms, pct, roll, length)
}

/// Long requests take from two to ten seconds.
pub proof fn long_requests_take_two_to_ten_seconds(
    long_requests_pct: u32,
    roll: u32,
    length: u32,
)
    ensures
        delay_of(0, long_requests_pct as int, roll as int, length as int) == 0 || 2000 <= delay_of(
            0,
            long_requests_pct as int,
            roll as int,
            length as int,
        ) <= 10000,
{
}

/// Without a fixed delay and without a share of long requests, no request waits.
pub proof fn requests_are_not_slowed_by_default(roll: u32, length: u32)
    ensures
        delay_of(0, 0, roll as int, length as int) == 0,
{
}

/// What `/drainez` says: the number of requests and whether the service is stopping, as
/// they are, and that it may be deleted exactly if it is stopping with no request left.
pub proof fn drainez_reports_the_service(active_connections: u64, draining: bool)
    ensures
        drainez_status(active_connections, draining).active_connections == active_connections,
        drainez_status(active_connections, draining).draining == draining,
        drainez_status(active_connections, draining).ready_to_delete <==> draining
            && active_connections == 0,
{
}

/// When each step of a shutdown comes: the service is drained exactly if it is idle; with
/// requests in flight it is out of time exactly from `drain_max_secs` on, and waits 200
/// milliseconds before that.
pub proof fn shutdown_steps_come_when_due(in_flight: u64, elapsed_nanos: u128, drain_max_secs: u64)
    ensures
        shutdown_step_of(in_flight as int, elapsed_nanos as int, drain_max_secs as int) is Drained
            <==> in_flight == 0,
        shutdown_step_of(in_flight as int, elapsed_nanos as int, drain_max_secs as int) is TimedOut
            <==> in_flight > 0 && elapsed_nanos >= drain_max_secs * 1_000_000_000,
        shutdown_step_of(in_flight as int, elapsed_nanos as int, drain_max_secs as int)
            == (ShutdownStep::Wait { millis: 200 }) <==> in_flight > 0 && elapsed_nanos
            < drain_max_secs * 1_000_000_000,
{
}

/// The pause of a drained service is the longest that fits: two seconds if they end by
/// the limit, else as many whole milliseconds as end by it, and none past it.
pub proof fn pause_is_the_longest_that_fits(elapsed_nanos: u128, drain_max_secs: u64)
    ensures
        match shutdown_step_of(0, elapsed_nanos as int, drain_max_secs as int) {
            ShutdownStep::Drained { pause_millis } => {
                &&& pause_millis <= 2000
                &&& pause_millis > 0 ==> elapsed_nanos + pause_millis * 1_000_000 <= drain_max_secs
                    * 1_000_000_000
                &&& pause_millis < 2000 ==> elapsed_nanos + (pause_millis + 1) * 1_000_000
                    > drain_max_secs * 1_000_000_000
            },
            _ => false,
        },
{
}

/// The milliseconds that are left are as many whole ones as end by the limit, and none
/// past it.
pub proof fn time_left_ends_at_the_limit(elapsed_nanos: u128, drain_max_secs: u64)
    ensures
        ({
            let left = millis_left(elapsed_nanos as int, drain_max_secs as int);
            &&& left >= 0
            &&& left > 0 ==> elapsed_nanos + left * 1_000_000 <= drain_max_secs * 1_000_000_000
            &&& elapsed_nanos + (left + 1) * 1_000_000 > drain_max_secs * 1_000_000_000
        }),
{
}

/// The number that the clock gives is what the nanoseconds since 1970 leave when they
/// are divided by a hundred: two points give the same number exactly when they lie a
/// multiple of a hundred nanoseconds apart.
pub proof fn clock_numbers_repeat_every_hundred(one: TimestampView, other: TimestampView)
    ensures
        0 <= last_digits(one) < 100,
        (one.nanos - last_digits(one)) % 100 == 0,
        last_digits(one) == last_digits(other) <==> (one.nanos - other.nanos) % 100 == 0,
{
    assert((one.secs * NANOS_PER_SEC + one.nanos) % 100 == one.nanos % 100);
    assert((other.secs * NANOS_PER_SEC + other.nanos) % 100 == other.nanos % 100);
}

/// How long a request takes: a fixed delay holds whatever the numbers are; without one,
/// exactly the numbers whose last two digits lie below the share make a request long, and
/// a long one takes two seconds and one more for each that the second number leaves when
/// it is divided by nine.
pub proof fn delays_follow_the_share(
    sleep_ms: u64,
    long_requests_pct: u32,
    roll: u32,
    length: u32,
)
    ensures
        sleep_ms > 0 ==> delay_of(
            sleep_ms as int,
            long_requests_pct as int,
            roll as int,
            length as int,
        ) == sleep_ms,
        delay_of(0, long_requests_pct as int, roll as int, length as int) > 0 <==> roll % 100
            < long_requests_pct,
        delay_of(0, long_requests_pct as int, roll as int, length as int) > 0 ==> delay_of(
            0,
            long_requests_pct as int,
            roll as int,
            length as int,
        ) == 2000 + 1000 * (length % 9),
        delay_of(0, long_requests_pct as int, roll as int, length as int) >= 0,
{
}

} // verus!
