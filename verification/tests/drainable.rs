use dat6_kubernetes_controller::controller::{drainez_outcome, DrainezPollOutcome, DrainezReply};
use dat6_kubernetes_controller::drainable::{
    delay_ms, drainez, rand_at, rand_simple, request_delay_ms, shutdown_step, time_left_millis,
    ServiceSettings, ShutdownStep,
};
use dat6_kubernetes_controller::timestamp::Timestamp;

fn set(value: &str) -> Option<String> {
    Some(value.to_string())
}

#[test]
fn settings_have_defaults() {
    assert_eq!(
        ServiceSettings::from_env(&None, &None, &None, &None),
        ServiceSettings {
            sleep_ms: 0,
            long_requests_pct: 0,
            graceful_drain: false,
            drain_max_secs: 28,
        }
    );
    assert_eq!(
        ServiceSettings::from_env(&set("15"), &set("5"), &set("True"), &set("40")),
        ServiceSettings {
            sleep_ms: 15,
            long_requests_pct: 5,
            graceful_drain: true,
            drain_max_secs: 40,
        }
    );
    assert_eq!(
        ServiceSettings::from_env(&set("-1"), &set("4294967296"), &set("no"), &set("soon")),
        ServiceSettings::from_env(&None, &None, &None, &None)
    );
}

#[test]
fn idle_service_is_not_ready_before_it_drains() {
    let status = drainez(0, false);
    assert_eq!(status.active_connections, 0);
    assert!(!status.draining);
    assert!(!status.ready_to_delete);
}

#[test]
fn service_is_ready_once_drained() {
    assert!(!drainez(3, true).ready_to_delete);
    assert_eq!(drainez(3, true).active_connections, 3);
    assert!(drainez(0, true).ready_to_delete);
    assert!(!drainez(3, false).ready_to_delete);
}

#[test]
fn controller_reads_the_service_right() {
    for active in [0, 1, u64::MAX] {
        for draining in [false, true] {
            let status = drainez(active, draining);
            let outcome = drainez_outcome(DrainezReply::Payload {
                ready_to_delete: status.ready_to_delete,
            });
            assert_eq!(
                outcome == DrainezPollOutcome::ReadyToDelete,
                draining && active == 0
            );
        }
    }
}

#[test]
fn shutdown_waits_for_requests() {
    let second: u128 = 1_000_000_000;
    assert_eq!(shutdown_step(0, 0, 28), ShutdownStep::Drained { pause_millis: 2_000 });
    assert_eq!(shutdown_step(1, 28 * second - 1, 28), ShutdownStep::Wait { millis: 200 });
    assert_eq!(shutdown_step(1, 28 * second, 28), ShutdownStep::TimedOut);
    assert_eq!(shutdown_step(1, 0, 0), ShutdownStep::TimedOut);
    assert_eq!(shutdown_step(1, u128::MAX, u64::MAX), ShutdownStep::TimedOut);
    assert_eq!(shutdown_step(9, 0, u64::MAX), ShutdownStep::Wait { millis: 200 });
}

#[test]
fn pause_is_cut_to_what_is_left() {
    let second: u128 = 1_000_000_000;
    let pause = |elapsed_nanos: u128| match shutdown_step(0, elapsed_nanos, 28) {
        ShutdownStep::Drained { pause_millis } => pause_millis,
        step => panic!("{step:?}"),
    };
    assert_eq!(pause(26 * second), 2_000);
    assert_eq!(pause(26 * second + 1), 1_999);
    assert_eq!(pause(27 * second), 1_000);
    assert_eq!(pause(28 * second - 1_000_000), 1);
    assert_eq!(pause(28 * second - 1), 0);
    assert_eq!(pause(28 * second), 0);
    assert_eq!(pause(99 * second), 0);
    assert_eq!(shutdown_step(0, 0, 0), ShutdownStep::Drained { pause_millis: 0 });
    assert_eq!(shutdown_step(0, u128::MAX, u64::MAX), ShutdownStep::Drained { pause_millis: 0 });
    assert_eq!(shutdown_step(0, 0, u64::MAX), ShutdownStep::Drained { pause_millis: 2_000 });
}

#[test]
fn time_left_runs_out() {
    let second: u128 = 1_000_000_000;
    assert_eq!(time_left_millis(0, 28), 28_000);
    assert_eq!(time_left_millis(27 * second + 1, 28), 999);
    assert_eq!(time_left_millis(28 * second, 28), 0);
    assert_eq!(time_left_millis(u128::MAX, 28), 0);
    assert_eq!(time_left_millis(0, u64::MAX), u64::MAX);
}

#[test]
fn busy_shutdown_ends_at_the_limit() {
    let mut elapsed_nanos: u128 = 0;
    let mut looks: u64 = 1;
    while let ShutdownStep::Wait { millis } = shutdown_step(1, elapsed_nanos, 28) {
        elapsed_nanos += u128::from(millis) * 1_000_000;
        looks += 1;
    }
    assert_eq!(shutdown_step(1, elapsed_nanos, 28), ShutdownStep::TimedOut);
    assert_eq!(elapsed_nanos, 28_000_000_000);
    assert_eq!(looks, 5 * 28 + 1);
}

#[test]
fn numbers_come_from_the_clock() {
    assert_eq!(rand_at(&Timestamp::new(12, 345_678_942).unwrap()), 42);
    assert_eq!(rand_at(&Timestamp::new(-12, 345_678_900).unwrap()), 0);
    for _ in 0..100 {
        assert!(rand_simple() < 100);
    }
}

#[test]
fn delay_follows_the_numbers() {
    assert_eq!(delay_ms(15, 100, 0, 0), 15);
    assert_eq!(delay_ms(u64::MAX, 0, 0, 0), u64::MAX);
    assert_eq!(delay_ms(0, 0, 0, 0), 0);
    assert_eq!(delay_ms(0, 5, 4, 0), 2_000);
    assert_eq!(delay_ms(0, 5, 5, 0), 0);
    assert_eq!(delay_ms(0, 5, 104, 8), 10_000);
    assert_eq!(delay_ms(0, 100, 99, 9), 2_000);
}

#[test]
fn request_delay_by_the_clock() {
    assert_eq!(request_delay_ms(7, &set("100")), 7);
    assert_eq!(request_delay_ms(0, &None), 0);
    assert_eq!(request_delay_ms(0, &set("none")), 0);
    for _ in 0..50 {
        let millis = request_delay_ms(0, &set("100"));
        assert!(millis >= 2_000 && millis <= 10_000 && millis % 1_000 == 0);
    }
}
