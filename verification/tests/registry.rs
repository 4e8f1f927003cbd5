use applets::registry::{Applet, AppletRegistryState};

fn fresh() -> AppletRegistryState {
    match AppletRegistryState::new() {
        Ok(state) => state,
        Err(message) => panic!("construction failed: {}", message),
    }
}

fn register(state: &mut AppletRegistryState, name: &str, price: u64) -> u32 {
    state.register_applet(
        name.to_string(),
        "d".to_string(),
        price,
        "in".to_string(),
        "out".to_string(),
    )
}

fn ids_of(applets: &[Applet]) -> Vec<u32> {
    applets.iter().map(|a| a.id).collect()
}

#[test]
fn new_registry_is_empty() {
    let state = fresh();
    assert_eq!(state.get_applet_count(), 0);
    assert!(state.get_applets().is_empty());
    assert!(state.get_applet_by_id(1).is_none());
    assert!(state.get_applet_by_id(0).is_none());
}

#[test]
fn first_registered_id_is_one() {
    let mut state = fresh();
    assert_eq!(register(&mut state, "A", 100), 1);
}

#[test]
fn registered_ids_count_up_without_gaps() {
    let mut state = fresh();
    for expected in 1..=50u32 {
        assert_eq!(register(&mut state, "x", 1), expected);
        assert_eq!(state.get_applet_count(), expected);
    }
}

#[test]
fn toggles_do_not_disturb_id_allocation() {
    let mut state = fresh();
    assert_eq!(register(&mut state, "A", 1), 1);
    state.toggle_applet_status(1);
    assert_eq!(register(&mut state, "B", 2), 2);
    state.toggle_applet_status(7);
    state.toggle_applet_status(2);
    assert_eq!(register(&mut state, "C", 3), 3);
    assert_eq!(state.get_applet_count(), 3);
}

#[test]
fn registered_record_holds_the_given_fields() {
    let mut state = fresh();
    let id = state.register_applet(
        "Resize".to_string(),
        "scales an image".to_string(),
        250,
        "{\"w\":1}".to_string(),
        "png".to_string(),
    );
    let applet = state.get_applet_by_id(id).expect("registered applet");
    assert_eq!(applet.id, 1);
    assert_eq!(applet.name, "Resize");
    assert_eq!(applet.description, "scales an image");
    assert_eq!(applet.price, 250);
    assert_eq!(applet.owner, "caller");
    assert_eq!(applet.input_schema, "{\"w\":1}");
    assert_eq!(applet.output_schema, "png");
    assert!(applet.is_active);
}

#[test]
fn lookup_finds_exactly_the_issued_ids() {
    let mut state = fresh();
    for _ in 0..5 {
        register(&mut state, "x", 1);
    }
    assert!(state.get_applet_by_id(0).is_none());
    for id in 1..=5u32 {
        let applet = state.get_applet_by_id(id).expect("issued id");
        assert_eq!(applet.id, id);
    }
    assert!(state.get_applet_by_id(6).is_none());
    assert!(state.get_applet_by_id(u32::MAX).is_none());
}

#[test]
fn lookup_returns_a_copy() {
    let mut state = fresh();
    register(&mut state, "A", 1);
    let mut copy = state.get_applet_by_id(1).expect("applet 1");
    copy.is_active = false;
    copy.name = "changed".to_string();
    let again = state.get_applet_by_id(1).expect("applet 1");
    assert!(again.is_active);
    assert_eq!(again.name, "A");
}

#[test]
fn get_applets_keeps_registration_order() {
    let mut state = fresh();
    for name in ["a", "b", "c", "d", "e"] {
        register(&mut state, name, 1);
    }
    state.toggle_applet_status(2);
    state.toggle_applet_status(4);
    let active = state.get_applets();
    assert_eq!(ids_of(&active), vec![1, 3, 5]);
    let names: Vec<&str> = active.iter().map(|a| a.name.as_str()).collect();
    assert_eq!(names, vec!["a", "c", "e"]);
    assert!(active.iter().all(|a| a.is_active));
}

#[test]
fn toggle_hides_and_second_toggle_restores() {
    let mut state = fresh();
    register(&mut state, "A", 1);
    register(&mut state, "B", 2);
    register(&mut state, "C", 3);
    state.toggle_applet_status(2);
    assert_eq!(ids_of(&state.get_applets()), vec![1, 3]);
    assert!(!state.get_applet_by_id(2).expect("applet 2").is_active);
    state.toggle_applet_status(2);
    assert_eq!(ids_of(&state.get_applets()), vec![1, 2, 3]);
    assert!(state.get_applet_by_id(2).expect("applet 2").is_active);
}

#[test]
fn toggle_changes_only_the_flag() {
    let mut state = fresh();
    register(&mut state, "A", 10);
    let before = state.get_applet_by_id(1).expect("applet 1");
    state.toggle_applet_status(1);
    let after = state.get_applet_by_id(1).expect("applet 1");
    assert_eq!(after.id, before.id);
    assert_eq!(after.name, before.name);
    assert_eq!(after.description, before.description);
    assert_eq!(after.price, before.price);
    assert_eq!(after.owner, before.owner);
    assert_eq!(after.input_schema, before.input_schema);
    assert_eq!(after.output_schema, before.output_schema);
    assert_ne!(after.is_active, before.is_active);
}

#[test]
fn toggle_on_unknown_id_changes_nothing() {
    let mut state = fresh();
    register(&mut state, "A", 1);
    register(&mut state, "B", 2);
    state.toggle_applet_status(0);
    state.toggle_applet_status(3);
    state.toggle_applet_status(99);
    assert_eq!(state.get_applet_count(), 2);
    assert_eq!(ids_of(&state.get_applets()), vec![1, 2]);
    assert!(state.get_applet_by_id(99).is_none());
}

#[test]
fn toggle_on_empty_registry_changes_nothing() {
    let mut state = fresh();
    state.toggle_applet_status(1);
    assert_eq!(state.get_applet_count(), 0);
    assert!(state.get_applets().is_empty());
}

#[test]
fn count_ignores_the_activity_flag() {
    let mut state = fresh();
    register(&mut state, "A", 1);
    register(&mut state, "B", 2);
    state.toggle_applet_status(1);
    state.toggle_applet_status(2);
    assert_eq!(state.get_applet_count(), 2);
    assert!(state.get_applets().is_empty());
}

#[test]
fn end_to_end_registry() {
    let mut state = fresh();
    assert_eq!(register(&mut state, "A", 100), 1);
    assert_eq!(register(&mut state, "B", 200), 2);
    assert_eq!(state.get_applet_count(), 2);
    state.toggle_applet_status(1);
    let active = state.get_applets();
    assert_eq!(active.len(), 1);
    assert_eq!(active[0].id, 2);
    assert_eq!(active[0].name, "B");
    assert_eq!(active[0].price, 200);
    let first = state.get_applet_by_id(1).expect("applet 1");
    assert_eq!(first.id, 1);
    assert_eq!(first.name, "A");
    assert_eq!(first.price, 100);
    assert!(!first.is_active);
    state.toggle_applet_status(99);
    assert_eq!(state.get_applet_count(), 2);
    assert_eq!(ids_of(&state.get_applets()), vec![2]);
    assert!(!state.get_applet_by_id(1).expect("applet 1").is_active);
    assert!(state.get_applet_by_id(2).expect("applet 2").is_active);
}

fn applet(id: u32, name: &str, is_active: bool) -> Applet {
    Applet {
        id,
        name: name.to_string(),
        description: "d".to_string(),
        price: 7,
        owner: "caller".to_string(),
        input_schema: "in".to_string(),
        output_schema: "out".to_string(),
        is_active,
    }
}

#[test]
fn registry_parts_round_trip() {
    let mut state = fresh();
    register(&mut state, "A", 100);
    register(&mut state, "B", 200);
    state.toggle_applet_status(1);
    let (applets, next_id) = state.into_parts();
    assert_eq!(next_id, 3);
    assert_eq!(ids_of(&applets), vec![1, 2]);
    assert!(!applets[0].is_active);
    assert!(applets[1].is_active);
    assert_eq!(applets[1].price, 200);
    let mut restored = AppletRegistryState::from_parts(applets, next_id).expect("stored state");
    assert_eq!(restored.get_applet_count(), 2);
    assert_eq!(ids_of(&restored.get_applets()), vec![2]);
    assert_eq!(register(&mut restored, "C", 1), 3);
}

#[test]
fn fresh_registry_parts_are_empty_with_counter_one() {
    let (applets, next_id) = fresh().into_parts();
    assert!(applets.is_empty());
    assert_eq!(next_id, 1);
    assert!(AppletRegistryState::from_parts(Vec::new(), 1).is_some());
}

#[test]
fn registry_parts_with_wrong_counter_are_refused() {
    assert!(AppletRegistryState::from_parts(Vec::new(), 0).is_none());
    assert!(AppletRegistryState::from_parts(Vec::new(), 2).is_none());
    let one = vec![applet(1, "A", true)];
    assert!(AppletRegistryState::from_parts(one, 1).is_none());
    let one = vec![applet(1, "A", true)];
    assert!(AppletRegistryState::from_parts(one, 3).is_none());
    let one = vec![applet(1, "A", true)];
    assert!(AppletRegistryState::from_parts(one, 2).is_some());
}

#[test]
fn registry_parts_with_wrong_ids_are_refused() {
    let gap = vec![applet(1, "A", true), applet(3, "B", true)];
    assert!(AppletRegistryState::from_parts(gap, 3).is_none());
    let repeat = vec![applet(1, "A", true), applet(1, "B", true)];
    assert!(AppletRegistryState::from_parts(repeat, 3).is_none());
    let swapped = vec![applet(2, "A", true), applet(1, "B", true)];
    assert!(AppletRegistryState::from_parts(swapped, 3).is_none());
    let from_zero = vec![applet(0, "A", true), applet(1, "B", true)];
    assert!(AppletRegistryState::from_parts(from_zero, 3).is_none());
    let good = vec![applet(1, "A", false), applet(2, "B", true)];
    assert!(AppletRegistryState::from_parts(good, 3).is_some());
}
