use fmu_runner::lifecycle::{
    advance, InstanceNameFactory, InstanceState, InstanceTracker, LifecycleEvent,
};

#[test]
fn instance_names_are_unique_and_ordered() {
    let mut factory = InstanceNameFactory::new("bouncing_ball".to_string());
    let first = factory.next();
    let second = factory.next();
    let third = factory.next();
    assert_eq!(first, "bouncing_ball_0");
    assert_eq!(second, "bouncing_ball_1");
    assert_eq!(third, "bouncing_ball_2");
    assert_ne!(first, second);
    assert_ne!(second, third);
    assert_ne!(first, third);
}

#[test]
fn independent_factories_do_not_share_counters() {
    let mut a = InstanceNameFactory::new("m".to_string());
    let mut b = InstanceNameFactory::new("m".to_string());
    assert_eq!(a.next(), "m_0");
    assert_eq!(a.next(), "m_1");
    // A second library's factory starts over: counters are scoped to the
    // loaded library, not to the process.
    assert_eq!(b.next(), "m_0");
}

#[test]
fn large_ordinals_render_in_decimal() {
    let mut f = InstanceNameFactory::new("m".to_string());
    for _ in 0..12 {
        f.next();
    }
    assert_eq!(f.next(), "m_12");
}

#[test]
fn mandated_order_is_accepted() {
    let mut t = InstanceTracker::new();
    assert_eq!(t.state, InstanceState::Configured);
    assert!(t.take(LifecycleEvent::SetupExperiment));
    assert_eq!(t.state, InstanceState::Configured);
    assert!(t.take(LifecycleEvent::EnterInitialization));
    assert_eq!(t.state, InstanceState::Initializing);
    assert!(t.take(LifecycleEvent::ExitInitialization));
    assert_eq!(t.state, InstanceState::Stepping);
    assert!(t.take(LifecycleEvent::DoStep));
    assert!(t.take(LifecycleEvent::DoStep));
    assert_eq!(t.state, InstanceState::Stepping);
    assert!(t.take(LifecycleEvent::Terminate));
    assert_eq!(t.state, InstanceState::Terminated);
}

#[test]
fn skipping_a_stage_is_refused() {
    let mut t = InstanceTracker::new();
    // Stepping before initialization is not allowed.
    assert!(!t.take(LifecycleEvent::DoStep));
    assert_eq!(t.state, InstanceState::Configured);
    // Leaving initialization before entering it is not allowed.
    assert!(!t.take(LifecycleEvent::ExitInitialization));
    assert_eq!(t.state, InstanceState::Configured);
    // Setting up the experiment after initialization began is not allowed.
    assert!(t.take(LifecycleEvent::EnterInitialization));
    assert!(!t.take(LifecycleEvent::SetupExperiment));
    assert_eq!(t.state, InstanceState::Initializing);
}

#[test]
fn termination_is_final_and_allowed_from_every_live_state() {
    for reach in 0..3 {
        let mut t = InstanceTracker::new();
        if reach >= 1 {
            assert!(t.take(LifecycleEvent::EnterInitialization));
        }
        if reach >= 2 {
            assert!(t.take(LifecycleEvent::ExitInitialization));
        }
        assert!(t.take(LifecycleEvent::Terminate));
        assert_eq!(t.state, InstanceState::Terminated);
        // Nothing is legal on a terminated instance, so the native handle
        // can never be released twice.
        assert!(!t.take(LifecycleEvent::Terminate));
        assert!(!t.take(LifecycleEvent::DoStep));
        assert_eq!(t.state, InstanceState::Terminated);
    }
    assert_eq!(
        advance(InstanceState::Terminated, LifecycleEvent::SetupExperiment),
        None
    );
}

#[test]
fn restore_obliges_the_next_step() {
    let mut t = InstanceTracker::new();
    assert!(t.take(LifecycleEvent::EnterInitialization));
    assert!(t.take(LifecycleEvent::ExitInitialization));
    assert!(t.no_set_state_prior());
    // After a snapshot restore the next step must tell the native side
    // that state was externally set.
    t.record_restore();
    assert!(!t.no_set_state_prior());
    assert!(t.take(LifecycleEvent::DoStep));
    // Once a step was taken the obligation is discharged.
    assert!(t.no_set_state_prior());
}
