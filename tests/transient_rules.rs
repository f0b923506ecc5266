use eki::events::last_started;
use eki::history::{record, repeat_last, reset_to_steady};
use eki::switching::next_open;
use eki::SwitchRule;

fn run(rule: SwitchRule, initial: bool, triggers: &[bool]) -> Vec<bool> {
    let mut states = vec![initial];
    for t in triggers {
        let last = *states.last().unwrap();
        states.push(next_open(rule, last, *t));
    }
    states
}

#[test]
fn bursting_disk_opens_once_and_stays_open() {
    // Pressure difference across the disk at each step, against a burst value of 10 kPa.
    let dp = [0.0, 0.0, 0.0, 0.0, 10000.0, 20000.0, 10000.0, 0.0, -10000.0, -10000.0];
    let triggers: Vec<bool> = dp.iter().map(|d| *d > 1.0e4).collect();
    let states = run(SwitchRule::Burst, false, &triggers);
    let open: Vec<f64> = states.iter().map(|s| if *s { 1.0 } else { 0.0 }).collect();
    assert_eq!(open, vec![0.0, 0.0, 0.0, 0.0, 0.0, 0.0, 1.0, 1.0, 1.0, 1.0, 1.0]);
}

#[test]
fn safety_valve_follows_trigger() {
    let states = run(SwitchRule::Safety, false, &[false, true, true, false]);
    assert_eq!(states, vec![false, false, true, true, false]);
}

#[test]
fn check_valve_shuts_and_stays_shut() {
    let states = run(SwitchRule::Check, true, &[true, false, true]);
    assert_eq!(states, vec![true, true, false, false]);
}

#[test]
fn last_started_event_wins() {
    assert_eq!(last_started(&vec![true, false, true, false]), Some(2));
    assert_eq!(last_started(&vec![false, false]), None);
    assert_eq!(last_started(&vec![]), None);
}

#[test]
fn history_reset_keeps_steady_value() {
    let mut h = vec![101325.0];
    record(&mut h, 111325.0);
    repeat_last(&mut h);
    assert_eq!(h, vec![101325.0, 111325.0, 111325.0]);
    reset_to_steady(&mut h);
    assert_eq!(h, vec![101325.0]);
}

#[test]
fn every_history_grows_by_one_per_step() {
    let mut pressure = vec![1.0];
    let mut flow = vec![2.0];
    for step in 0..5 {
        record(&mut pressure, step as f64);
        repeat_last(&mut flow);
        assert_eq!(pressure.len(), step + 2);
        assert_eq!(flow.len(), step + 2);
    }
    assert_eq!(flow, vec![2.0; 6]);
}
