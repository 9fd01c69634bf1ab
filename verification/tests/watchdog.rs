use dink_bridge::watchdog::{
    health_port, health_report, BridgeAction, DinkLiveness, WaitDecision, Watchdog,
    WatchdogAction, WatchdogConfig, WatchdogEvent, WatchdogPhase, DEFAULT_HEALTH_PORT,
};

#[test]
fn initial_state_is_alive() {
    let l = DinkLiveness::new();
    assert!(l.is_alive());
}

#[test]
fn mark_dead_flips_state() {
    let mut l = DinkLiveness::new();
    l.mark_dead();
    assert!(!l.is_alive());
}

#[test]
fn mark_alive_restores_state() {
    let mut l = DinkLiveness::new();
    l.mark_dead();
    assert!(!l.is_alive());
    l.mark_alive();
    assert!(l.is_alive());
}

#[test]
fn waiter_parks_while_alive_and_returns_once_dead() {
    let mut l = DinkLiveness::new();
    assert_eq!(l.wait_until_dead(), WaitDecision::Park);
    l.mark_dead();
    assert_eq!(l.wait_until_dead(), WaitDecision::Return);
    l.mark_alive();
    assert_eq!(l.wait_until_dead(), WaitDecision::Park);
}

#[test]
fn default_config_is_two_minutes_and_exits() {
    let c = WatchdogConfig::default();
    assert_eq!(c.grace_period, 120);
    assert!(c.exit_on_timeout);
}

/// Runs a watchdog against a timeline: `alive_at(t)` is the flag at the
/// instant `t`. Returns the instant of the terminal action, if it comes by
/// `horizon`, and the action.
fn run(
    config: WatchdogConfig,
    alive_at: &dyn Fn(u64) -> bool,
    horizon: u64,
) -> Option<(u64, WatchdogAction)> {
    let mut w = Watchdog::new(config);
    let mut liveness = DinkLiveness::new();
    let mut now = 0u64;
    let mut action = WatchdogAction::AwaitDead;
    loop {
        match action {
            WatchdogAction::AwaitDead => {
                while now <= horizon && alive_at(now) {
                    now += 1;
                }
                if now > horizon {
                    return None;
                }
                liveness.mark_dead();
                assert_eq!(liveness.wait_until_dead(), WaitDecision::Return);
                action = w.step(WatchdogEvent::Woken, &liveness);
            }
            WatchdogAction::Sleep { units } => {
                now += units;
                if now > horizon {
                    return None;
                }
                if alive_at(now) {
                    liveness.mark_alive();
                } else {
                    liveness.mark_dead();
                }
                action = w.step(WatchdogEvent::Slept, &liveness);
            }
            WatchdogAction::Exit | WatchdogAction::ReportTriggered => {
                assert!(w.has_triggered());
                return Some((now, action));
            }
            WatchdogAction::Ignore => panic!("the driver reported an event out of turn"),
        }
    }
}

#[test]
fn watchdog_does_not_trigger_when_alive() {
    let config = WatchdogConfig { grace_period: 50, exit_on_timeout: false };
    assert_eq!(run(config, &|_| true, 150), None);
}

#[test]
fn watchdog_triggers_after_grace_period() {
    let config = WatchdogConfig { grace_period: 100, exit_on_timeout: false };
    let result = run(config, &|_| false, 1000);
    assert_eq!(result, Some((100, WatchdogAction::ReportTriggered)));
}

#[test]
fn watchdog_cancels_if_recovered_during_grace() {
    let config = WatchdogConfig { grace_period: 500, exit_on_timeout: false };
    // Dead from the start, alive again from 100 on.
    assert_eq!(run(config, &|t| t >= 100, 600), None);
    assert_eq!(run(config, &|t| t >= 100, 100_000), None);
}

#[test]
fn watchdog_triggers_one_grace_period_after_a_late_death() {
    let config = WatchdogConfig { grace_period: 120, exit_on_timeout: true };
    let result = run(config, &|t| t < 40, 1000);
    assert_eq!(result, Some((160, WatchdogAction::Exit)));
}

#[test]
fn watchdog_ignores_churn_during_the_sleep() {
    let config = WatchdogConfig { grace_period: 10, exit_on_timeout: false };
    // Dead at 0, alive from 1 to 9, dead again at 10: only 0 and 10 are seen.
    let result = run(config, &|t| t != 0 && t < 10, 100);
    assert_eq!(result, Some((10, WatchdogAction::ReportTriggered)));
}

#[test]
fn watchdog_restarts_the_grace_period_after_a_recovery() {
    let config = WatchdogConfig { grace_period: 10, exit_on_timeout: false };
    // Dead at 0..5, alive 5..20, dead from 20 on.
    let result = run(config, &|t| (5..20).contains(&t), 100);
    assert_eq!(result, Some((30, WatchdogAction::ReportTriggered)));
}

#[test]
fn zero_grace_period_triggers_at_once() {
    let config = WatchdogConfig { grace_period: 0, exit_on_timeout: false };
    assert_eq!(run(config, &|t| t < 7, 100), Some((7, WatchdogAction::ReportTriggered)));
}

#[test]
fn step_by_step_phases() {
    let config = WatchdogConfig { grace_period: 120, exit_on_timeout: true };
    let mut w = Watchdog::new(config);
    let mut l = DinkLiveness::new();
    assert_eq!(w.current_phase(), WatchdogPhase::Watching);
    assert!(!w.has_triggered());
    // A sleep that nobody asked for is ignored.
    assert_eq!(w.step(WatchdogEvent::Slept, &l), WatchdogAction::Ignore);
    assert_eq!(w.current_phase(), WatchdogPhase::Watching);
    l.mark_dead();
    assert_eq!(w.step(WatchdogEvent::Woken, &l), WatchdogAction::Sleep { units: 120 });
    assert_eq!(w.current_phase(), WatchdogPhase::Grace);
    assert_eq!(w.step(WatchdogEvent::Woken, &l), WatchdogAction::Ignore);
    l.mark_alive();
    assert_eq!(w.step(WatchdogEvent::Slept, &l), WatchdogAction::AwaitDead);
    assert_eq!(w.current_phase(), WatchdogPhase::Watching);
    l.mark_dead();
    assert_eq!(w.step(WatchdogEvent::Woken, &l), WatchdogAction::Sleep { units: 120 });
    assert_eq!(w.step(WatchdogEvent::Slept, &l), WatchdogAction::Exit);
    assert_eq!(w.current_phase(), WatchdogPhase::Stopped);
    assert!(w.has_triggered());
    assert_eq!(w.step(WatchdogEvent::Woken, &l), WatchdogAction::Ignore);
    assert_eq!(w.step(WatchdogEvent::Slept, &l), WatchdogAction::Ignore);
    assert_eq!(w.current_phase(), WatchdogPhase::Stopped);
}

#[test]
fn lost_connection_marks_dead_and_waits_for_reconnect() {
    let mut l = DinkLiveness::new();
    assert_eq!(l.observe_connection(true), BridgeAction::PollAgain { after_secs: 1 });
    assert!(l.is_alive());
    assert_eq!(l.observe_connection(false), BridgeAction::AwaitReconnect);
    assert!(!l.is_alive());
    // A connection that is up does not by itself revive the tracker.
    assert_eq!(l.observe_connection(true), BridgeAction::PollAgain { after_secs: 1 });
    assert!(!l.is_alive());
    l.mark_alive();
    assert!(l.is_alive());
}

#[test]
fn health_probe_follows_liveness() {
    let mut l = DinkLiveness::new();
    let r = health_report(Some(&l));
    assert_eq!((r.status_code, r.status, r.reason), (200, "ok", None));
    l.mark_dead();
    let r = health_report(Some(&l));
    assert_eq!((r.status_code, r.status, r.reason), (503, "unhealthy", Some("nats_disconnected")));
    let r = health_report(None);
    assert_eq!((r.status_code, r.status, r.reason), (200, "ok", None));
}

#[test]
fn health_port_falls_back_to_the_default() {
    assert_eq!(DEFAULT_HEALTH_PORT, 9468);
    assert_eq!(health_port(None), 9468);
    assert_eq!(health_port(Some("8080")), 8080);
    assert_eq!(health_port(Some("+80")), 80);
    assert_eq!(health_port(Some("65535")), 65535);
    assert_eq!(health_port(Some("65536")), 9468);
    assert_eq!(health_port(Some("")), 9468);
    assert_eq!(health_port(Some(" 80")), 9468);
    assert_eq!(health_port(Some("-1")), 9468);
    assert_eq!(health_port(Some("http")), 9468);
    assert_eq!(health_port(Some("0")), 0);
}
