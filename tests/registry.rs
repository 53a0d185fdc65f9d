use constructum::registry::SupervisorRegistry;

#[test]
fn recovery_picks_one_per_tick() {
    let mut reg = SupervisorRegistry::new();
    reg.insert(1);
    let unfinished = vec![1u128, 2, 3];
    assert_eq!(reg.recovery_tick(&unfinished), Some(2));
    assert!(reg.contains(2));
    assert!(!reg.contains(3));
    assert_eq!(reg.recovery_tick(&unfinished), Some(3));
    assert_eq!(reg.recovery_tick(&unfinished), None);
}

#[test]
fn recovery_second_tick_is_noop_for_same_pipeline() {
    let mut reg = SupervisorRegistry::new();
    let unfinished = vec![9u128];
    assert_eq!(reg.recovery_tick(&unfinished), Some(9));
    assert_eq!(reg.recovery_tick(&unfinished), None);
    assert_eq!(reg.recovery_candidate(&unfinished), None);
}

#[test]
fn registry_insert_remove() {
    let mut reg = SupervisorRegistry::new();
    reg.insert(5);
    reg.insert(5);
    assert!(reg.contains(5));
    reg.remove(5);
    assert!(!reg.contains(5));
    assert_eq!(reg.recovery_candidate(&vec![5]), Some(5));
}
