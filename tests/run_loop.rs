use std::time::Duration;

use fruitbasket::{LoopAction, LoopEvent, PumpStep, RunLoop, RunPeriod, POOL_RECYCLE_PASSES};

fn pass(l: &mut RunLoop) -> PumpStep {
    match l.step(LoopEvent::StopChecked(false)) {
        LoopAction::Pump(p) => p,
        other => panic!("expected a pump, got {:?}", other),
    }
}

#[test]
fn once_pumps_exactly_one_event() {
    let mut l = RunLoop::new();
    assert_eq!(l.step(LoopEvent::Start(RunPeriod::Once)), LoopAction::CheckStop);
    let p = pass(&mut l);
    assert_eq!(p, PumpStep { finish_launching: true, new_pool: true, drain_old_pool: false });
    assert_eq!(l.step(LoopEvent::Pumped), LoopAction::Finish(false));
}

#[test]
fn stop_ends_forever_run_as_stopped() {
    let mut l = RunLoop::new();
    assert_eq!(l.step(LoopEvent::Start(RunPeriod::Forever)), LoopAction::CheckStop);
    for _ in 0..5 {
        pass(&mut l);
        assert_eq!(l.step(LoopEvent::Pumped), LoopAction::Sleep);
        assert_eq!(l.step(LoopEvent::Slept(u128::MAX)), LoopAction::CheckStop);
    }
    assert_eq!(l.step(LoopEvent::StopChecked(true)), LoopAction::Finish(true));
}

#[test]
fn stop_before_first_pass_pumps_nothing() {
    let mut l = RunLoop::new();
    l.step(LoopEvent::Start(RunPeriod::Once));
    assert_eq!(l.step(LoopEvent::StopChecked(true)), LoopAction::Finish(true));
    l.step(LoopEvent::Start(RunPeriod::Once));
    let p = pass(&mut l);
    assert!(p.finish_launching);
}

#[test]
fn timed_run_ends_once_period_elapsed() {
    let mut l = RunLoop::new();
    let d = Duration::from_millis(120);
    l.step(LoopEvent::Start(RunPeriod::Time(d)));
    pass(&mut l);
    assert_eq!(l.step(LoopEvent::Pumped), LoopAction::Sleep);
    assert_eq!(l.step(LoopEvent::Slept(50_000_000)), LoopAction::CheckStop);
    pass(&mut l);
    assert_eq!(l.step(LoopEvent::Pumped), LoopAction::Sleep);
    assert_eq!(l.step(LoopEvent::Slept(119_999_999)), LoopAction::CheckStop);
    pass(&mut l);
    assert_eq!(l.step(LoopEvent::Pumped), LoopAction::Sleep);
    assert_eq!(l.step(LoopEvent::Slept(120_000_000)), LoopAction::Finish(false));
}

#[test]
fn period_checks() {
    assert!(RunPeriod::Once.is_over(0));
    assert!(!RunPeriod::Forever.is_over(u128::MAX));
    assert!(!RunPeriod::Time(Duration::from_secs(2)).is_over(1_999_999_999));
    assert!(RunPeriod::Time(Duration::from_secs(2)).is_over(2_000_000_000));
    assert!(fruitbasket::time_is_up(10, 10));
    assert!(!fruitbasket::time_is_up(10, 9));
}

#[test]
fn launch_happens_once_and_pool_recycles_every_hundred_passes() {
    let mut l = RunLoop::new();
    let mut launches = 0;
    let mut drains = 0;
    let mut pools = 0;
    for i in 0..(2 * POOL_RECYCLE_PASSES + 1) {
        l.step(LoopEvent::Start(RunPeriod::Once));
        let p = pass(&mut l);
        assert_eq!(l.step(LoopEvent::Pumped), LoopAction::Finish(false));
        if p.finish_launching {
            launches += 1;
        }
        if p.new_pool {
            pools += 1;
            assert_eq!(i % POOL_RECYCLE_PASSES, 0);
        }
        if p.drain_old_pool {
            drains += 1;
            assert!(i > 0);
        }
    }
    assert_eq!(launches, 1);
    assert_eq!(pools, 3);
    assert_eq!(drains, 2);
}

#[test]
fn events_out_of_order_are_refused() {
    let l = RunLoop::new();
    assert!(l.accepts(&LoopEvent::Start(RunPeriod::Forever)));
    assert!(!l.accepts(&LoopEvent::Pumped));
    assert!(!l.accepts(&LoopEvent::StopChecked(false)));
    assert!(!l.accepts(&LoopEvent::Slept(0)));
}
