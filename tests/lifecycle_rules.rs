use orbit_decay::lifecycle::{plan_step, Lifecycle, StepAction};
use orbit_decay::records::{record_dir, record_header, record_path};
use orbit_decay::roster::Roster;

#[test]
fn active_body_above_surface_is_integrated() {
    let (next, action) = plan_step(Lifecycle::Active, false);
    assert_eq!(next, Lifecycle::Active);
    assert_eq!(action, StepAction::Integrate);
    assert!(action.moves_body());
    assert!(action.writes_record());
}

#[test]
fn body_on_surface_is_frozen_without_integration() {
    let (next, action) = plan_step(Lifecycle::Active, true);
    assert_eq!(next, Lifecycle::Deorbited);
    assert_eq!(action, StepAction::Freeze);
    assert!(!action.moves_body());
    assert!(action.writes_record());
}

#[test]
fn deorbited_body_is_skipped_whatever_is_observed() {
    for below in [false, true] {
        let (next, action) = plan_step(Lifecycle::Deorbited, below);
        assert_eq!(next, Lifecycle::Deorbited);
        assert_eq!(action, StepAction::Skip);
        assert!(!action.moves_body());
        assert!(!action.writes_record());
    }
}

#[test]
fn lifecycle_from_flag() {
    assert_eq!(Lifecycle::from_flag(true), Lifecycle::Deorbited);
    assert_eq!(Lifecycle::from_flag(false), Lifecycle::Active);
    assert!(Lifecycle::Deorbited.is_deorbited());
    assert!(!Lifecycle::Active.is_deorbited());
}

#[test]
fn new_roster_is_all_active() {
    let roster = Roster::new(4);
    assert_eq!(roster.len(), 4);
    assert_eq!(roster.active_count(), 4);
    for i in 0..4 {
        assert_eq!(roster.lifecycle(i), Lifecycle::Active);
    }
}

#[test]
fn empty_roster() {
    let mut roster = Roster::new(0);
    assert_eq!(roster.len(), 0);
    assert_eq!(roster.active_count(), 0);
    let actions = roster.plan_round(&Vec::new());
    assert!(actions.is_empty());
}

#[test]
fn round_plans_each_body_in_order() {
    let mut roster = Roster::new(3);
    let actions = roster.plan_round(&vec![false, true, false]);
    assert_eq!(
        actions,
        vec![StepAction::Integrate, StepAction::Freeze, StepAction::Integrate]
    );
    assert_eq!(roster.lifecycle(0), Lifecycle::Active);
    assert_eq!(roster.lifecycle(1), Lifecycle::Deorbited);
    assert_eq!(roster.lifecycle(2), Lifecycle::Active);
    assert_eq!(roster.active_count(), 2);
}

#[test]
fn deorbited_body_stays_frozen_over_later_rounds() {
    let mut roster = Roster::new(2);
    roster.plan_round(&vec![true, false]);
    let mut previous = roster.active_count();
    for below in [[false, false], [true, false], [false, true], [false, false]] {
        let actions = roster.plan_round(&below.to_vec());
        assert_eq!(actions[0], StepAction::Skip);
        assert_eq!(roster.lifecycle(0), Lifecycle::Deorbited);
        assert!(roster.active_count() <= previous);
        previous = roster.active_count();
    }
    assert_eq!(roster.lifecycle(1), Lifecycle::Deorbited);
    assert_eq!(roster.active_count(), 0);
}

#[test]
fn record_path_is_keyed_by_name() {
    assert_eq!(record_path("particle 7"), "results/data/particle 7.csv");
    assert_eq!(record_path("Earth"), "results/data/Earth.csv");
    assert_eq!(record_path(""), "results/data/.csv");
    assert_eq!(record_dir(), "results/data");
}

#[test]
fn record_header_lists_columns() {
    assert_eq!(record_header(), "t,x,y,z,v_x,v_y,v_z,mass\n");
}
