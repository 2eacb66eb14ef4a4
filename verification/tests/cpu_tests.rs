use occupier_r::cpu::{busy_plan, BusyPlan, CPUOccupyConfig, CYCLE_NANOS};

#[test]
fn new_sets_rate_only() {
    let c = CPUOccupyConfig::new(30);
    assert_eq!(c.rate, 30);
    assert_eq!(c.cpu_num, 0);
    assert_eq!(c.loop_time, 0);
}

#[test]
fn plan_for_zero_ratio_is_none() {
    assert_eq!(busy_plan(0, 10), None);
}

#[test]
fn plan_caps_work_at_one_cycle() {
    let p = busy_plan(50, 10).unwrap();
    assert_eq!(
        p,
        BusyPlan { work_nanos: 10_000_000, cycle_nanos: CYCLE_NANOS, run_nanos: 10_000_000 }
    );
    assert_eq!(busy_plan(1, 3).unwrap().work_nanos, CYCLE_NANOS);
}

#[test]
fn cycle_decisions() {
    let p = busy_plan(100, 10).unwrap();
    assert!(p.keep_working(9_999_999));
    assert!(!p.keep_working(10_000_000));
    assert_eq!(p.sleep_nanos(3_000_000), 7_000_000);
    assert_eq!(p.sleep_nanos(10_000_000), 0);
    assert_eq!(p.sleep_nanos(12_000_000), 0);
    assert!(!p.finished(10_000_000));
    assert!(p.finished(10_000_001));
}
