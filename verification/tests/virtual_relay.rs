use growbe_mainboard::modulestate::relay::physical_relay::RelayHandle;
use growbe_mainboard::modulestate::relay::virtual_relay::{
    create_virtual_relay, get_missing_required_module, is_virtual_relay_required_module, missing_message,
    VirtualRelay, VirtualRelayEvent, VirtualRelayStore,
};
use growbe_mainboard::modulestate::state_manager::{MainboardConnectedModule, MainboardModuleStateManager};
use growbe_mainboard::protos::module::{
    Actor, ManualConfig, RelayOutletConfig, VirtualRelay as VirtualRelayDefinition, VirtualRelayItem,
    VirtualRelayItemPin,
};

fn item(pins: &[i32]) -> VirtualRelayItem {
    VirtualRelayItem { properties: pins.iter().map(|p| VirtualRelayItemPin { property: *p }).collect() }
}

fn definition(name: &str, entries: &[(&str, &[i32])]) -> VirtualRelayDefinition {
    VirtualRelayDefinition {
        name: name.to_string(),
        relays: entries.iter().map(|(id, pins)| (id.to_string(), item(pins))).collect(),
    }
}

fn module(id: &str, port: i32) -> MainboardConnectedModule {
    MainboardConnectedModule { port, id: id.to_string(), board: "board".to_string(), board_addr: "addr".to_string() }
}

fn manager(modules: &[(&str, i32)]) -> MainboardModuleStateManager {
    let mut m = MainboardModuleStateManager::new();
    for (id, port) in modules {
        m.insert_module(module(id, *port));
    }
    m
}

#[test]
fn required_modules_and_missing_ones() {
    let vr = definition("vr", &[("AAP0000001", &[0]), ("AAB0000002", &[1, 2])]);
    let all = vec!["AAB0000002".to_string(), "AAP0000001".to_string()];
    assert!(is_virtual_relay_required_module(&all, &vr));
    assert!(get_missing_required_module(&all, &vr).is_empty());

    let some = vec!["AAP0000001".to_string()];
    assert!(!is_virtual_relay_required_module(&some, &vr));
    assert_eq!(get_missing_required_module(&some, &vr), vec!["AAB0000002".to_string()]);
    assert_eq!(missing_message(&get_missing_required_module(&vec![], &vr)), "[missing] AAP0000001 AAB0000002");
}

#[test]
fn a_definition_names_each_module_once() {
    let unique = definition("vr", &[("AAP0000001", &[0]), ("AAB0000002", &[1])]);
    assert!(unique.has_unique_keys());
    let twice = definition("vr", &[("AAP0000001", &[0]), ("AAB0000002", &[1]), ("AAP0000001", &[2])]);
    assert!(!twice.has_unique_keys());
    assert!(definition("vr", &[]).has_unique_keys());
}

#[test]
fn each_missing_module_is_listed_once() {
    let vr = definition("vr", &[("AAP0000001", &[0]), ("AAB0000002", &[1]), ("PPO0000003", &[2])]);
    let present = vec!["AAB0000002".to_string()];
    assert_eq!(
        get_missing_required_module(&present, &vr),
        vec!["AAP0000001".to_string(), "PPO0000003".to_string()]
    );
    let all = vec!["PPO0000003".to_string(), "AAB0000002".to_string(), "AAP0000001".to_string()];
    assert!(get_missing_required_module(&all, &vr).is_empty());
    assert!(is_virtual_relay_required_module(&all, &vr));
}

#[test]
fn group_drives_one_relay_per_module() {
    let m = manager(&[("AAP0000001", 2), ("AAB0000002", 5)]);
    let vr = definition("vr", &[("AAP0000001", &[3]), ("AAB0000002", &[1, 2])]);
    let mut group = create_virtual_relay(&vr, &m).unwrap();
    assert_eq!(group.id(), "vr");
    assert_eq!(group.relays.len(), 2);
    assert!(matches!(&group.relays[0], RelayHandle::Physical(p) if p.port == 2 && p.action_port == 3));
    assert!(matches!(&group.relays[1], RelayHandle::Batch(b) if b.port == 5));

    let (frames, data) = group.set_state(1, 42);
    assert_eq!(frames.len(), 2);
    assert_eq!(frames[0].port, 2);
    assert_eq!(frames[0].data, vec![255, 255, 255, 1, 255, 255, 255, 255]);
    assert_eq!(frames[1].port, 5);
    assert_eq!(frames[1].data, vec![255, 1, 1, 255, 255, 255, 255, 255]);
    assert!(data.data.state);
    assert_eq!(data.timestamp, 42);

    let copy = group.clone_me();
    assert_eq!(copy.name, "vr");
    assert_eq!(copy.relays.len(), 2);
}

#[test]
fn group_over_missing_module_or_unset_pin_is_refused() {
    let m = manager(&[("AAP0000001", 2)]);
    let missing = definition("vr", &[("AAP0000001", &[3]), ("AAB0000002", &[1])]);
    assert_eq!(create_virtual_relay(&missing, &m).err().unwrap().message, "virtual_relay not found: AAB0000002");
    let unset = definition("vr", &[("AAP0000001", &[-1])]);
    assert_eq!(
        create_virtual_relay(&unset, &m).err().unwrap().message,
        "failed to configure virtual relay receive property with index -1"
    );
}

#[test]
fn store_starts_and_stops_relays_by_name() {
    let m = manager(&[("AAP0000001", 2)]);
    let mut store = VirtualRelayStore::new();
    assert!(!store.is_created("vr"));
    let replaced = store.initialize_virtual_relay(&definition("vr", &[("AAP0000001", &[0])]), &m).unwrap();
    assert!(replaced.is_none());
    assert!(store.is_created("vr"));
    let replaced = store.initialize_virtual_relay(&definition("vr", &[("AAP0000001", &[1])]), &m).unwrap();
    assert!(replaced.is_some());
    assert_eq!(store.virtual_relay_maps.len(), 1);
    assert!(store.stop_virtual_relay("vr").is_some());
    assert!(!store.is_created("vr"));
    assert!(store.stop_virtual_relay("vr").is_none());
    store.insert_relay(VirtualRelay::new("other"));
    assert!(store.is_created("other"));
}

#[test]
fn config_applies_to_running_relay_only() {
    let m = manager(&[("AAP0000001", 2)]);
    let mut store = VirtualRelayStore::new();
    let mut config = RelayOutletConfig::new();
    let mut manual = ManualConfig::new();
    manual.state = true;
    config.set_manual(manual);
    let mut actor = Actor::new();
    actor.id = "user".to_string();
    let err = store.apply_config_virtual_relay("vr", &config, &actor).err().unwrap();
    assert_eq!(err.message, "virtual_relay not found: vr");
    store.initialize_virtual_relay(&definition("vr", &[("AAP0000001", &[0])]), &m).unwrap();
    let decision = store.apply_config_virtual_relay("vr", &config, &actor).unwrap();
    assert_eq!(decision.state, Some(1));
    assert!(decision.cancel_previous);
    assert_eq!(decision.config.actor_owner_id, "user");
}

#[test]
fn relays_follow_module_connections() {
    let stored = vec![
        (definition("a", &[("AAP0000001", &[0])]), None),
        (definition("b", &[("AAP0000001", &[1]), ("AAB0000002", &[2])]), None),
    ];
    let mut actor = Actor::new();
    actor.id = "handle_state".to_string();
    let mut store = VirtualRelayStore::new();

    let m = manager(&[("AAP0000001", 2)]);
    let events = store.on_module_state_changed_virtual_relays(true, &stored, &m, &actor);
    assert_eq!(events.len(), 2);
    assert!(matches!(&events[0], VirtualRelayEvent::Created(n, None) if n == "a"));
    assert!(matches!(&events[1], VirtualRelayEvent::Missing(n, missing) if n == "b" && missing == &vec!["AAB0000002".to_string()]));
    assert!(store.is_created("a"));
    assert!(!store.is_created("b"));

    let m = manager(&[("AAP0000001", 2), ("AAB0000002", 3)]);
    let events = store.on_module_state_changed_virtual_relays(true, &stored, &m, &actor);
    assert_eq!(events.len(), 1);
    assert!(matches!(&events[0], VirtualRelayEvent::Created(n, None) if n == "b"));

    let m = manager(&[("AAB0000002", 3)]);
    let events = store.on_module_state_changed_virtual_relays(false, &stored, &m, &actor);
    assert_eq!(events.len(), 2);
    assert!(matches!(&events[0], VirtualRelayEvent::Stopped(n, _) if n == "a"));
    assert!(matches!(&events[1], VirtualRelayEvent::Stopped(n, missing) if n == "b" && missing == &vec!["AAP0000001".to_string()]));
    assert!(!store.is_created("a"));
    assert!(!store.is_created("b"));
}

#[test]
fn starting_then_stopping_a_relay_leaves_the_others_running() {
    let m = manager(&[("AAP0000001", 2)]);
    let mut store = VirtualRelayStore::new();
    store.initialize_virtual_relay(&definition("a", &[("AAP0000001", &[0])]), &m).unwrap();
    store.initialize_virtual_relay(&definition("b", &[("AAP0000001", &[1])]), &m).unwrap();
    assert!(store.stop_virtual_relay("b").is_some());
    assert!(store.is_created("a"));
    assert!(!store.is_created("b"));
    assert_eq!(store.virtual_relay_maps.len(), 1);
    // a definition that cannot be built does not start, and the others keep running
    assert!(store.initialize_virtual_relay(&definition("c", &[("AAB0000009", &[1])]), &m).is_err());
    assert!(!store.is_created("c"));
    assert!(store.is_created("a"));
}
