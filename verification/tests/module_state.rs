use growbe_mainboard::comboard::ModuleStateChangeEvent;
use growbe_mainboard::modulestate::cmd::handle_sync_request;
use growbe_mainboard::modulestate::handle_state::{handle_module_state, send_module_state, valid_module_id, ModuleStateOutcome};
use growbe_mainboard::modulestate::handle_value::handle_module_value;
use growbe_mainboard::modulestate::modules::ModuleValidator;
use growbe_mainboard::modulestate::state_manager::{MainboardConnectedModule, MainboardModuleStateManager};

fn event(id: &str, state: bool) -> ModuleStateChangeEvent {
    ModuleStateChangeEvent { board: "i2c".to_string(), board_addr: "0x20".to_string(), port: 3, id: id.to_string(), state }
}

#[test]
fn module_ids_are_checked_by_pattern() {
    assert!(valid_module_id(&"AAP0000000A3".to_string()));
    assert!(valid_module_id(&"xxAAS123456789yy".to_string()));
    assert!(!valid_module_id(&"AAP0000003".to_string()));
    assert!(!valid_module_id(&"aap000000003".to_string()));
}

#[test]
fn module_state_message() {
    let (topic, data) = send_module_state("AAP000000001", 4, true, &"i2c".to_string(), &"0x20".to_string());
    assert_eq!(topic, "/m/AAP000000001/state");
    assert_eq!(data.id, "AAP000000001");
    assert!(data.plug);
    assert_eq!(data.atIndex, 4);
    assert_eq!(data.board, "i2c");
    assert_eq!(data.boardAddr, "0x20");
}

#[test]
fn plugged_module_is_registered_and_pulled_one_forgotten() {
    let mut manager = MainboardModuleStateManager::new();
    match handle_module_state(&mut manager, &event("AAS000000001", true)).unwrap() {
        ModuleStateOutcome::Connected(ModuleValidator::AAS(_), (topic, data)) => {
            assert_eq!(topic, "/m/AAS000000001/state");
            assert!(data.plug);
        }
        _ => panic!("expected a soil module"),
    }
    assert_eq!(manager.get_connected_modules(), vec!["AAS000000001".to_string()]);
    assert_eq!(manager.get_module_at_index(&"i2c".to_string(), &"0x20".to_string(), 3).unwrap().id, "AAS000000001");

    match handle_module_state(&mut manager, &event("AAS000000001", false)).unwrap() {
        ModuleStateOutcome::Disconnected(m, (_, data)) => {
            assert_eq!(m.id, "AAS000000001");
            assert!(!data.plug);
        }
        _ => panic!("expected a disconnection"),
    }
    assert!(manager.get_connected_modules().is_empty());
    assert!(matches!(handle_module_state(&mut manager, &event("AAS000000001", false)).unwrap(), ModuleStateOutcome::Unknown));
}

#[test]
fn invalid_or_unknown_modules_are_refused() {
    let mut manager = MainboardModuleStateManager::new();
    let err = handle_module_state(&mut manager, &event("bad", true)).err().unwrap();
    assert_eq!(err.message, "id receive is invalid bad");
    let err = handle_module_state(&mut manager, &event("ZZZ000000001", true)).err().unwrap();
    assert_eq!(err.message, "cannot find validator for module type");
    assert!(manager.get_connected_modules().is_empty());
}

#[test]
fn readings_are_routed_to_the_module_topic() {
    let mut manager = MainboardModuleStateManager::new();
    manager.insert_module(MainboardConnectedModule { port: 3, id: "AAS000000001".to_string(), board: "i2c".to_string(), board_addr: "0x20".to_string() });
    let first = handle_module_value(&manager, &"i2c".to_string(), &"0x20".to_string(), 3, None).unwrap();
    assert_eq!(first.topic, "/m/AAS000000001/data");
    assert!(first.publish);
    assert!(!first.forward_to_alarms);
    let changed = handle_module_value(&manager, &"i2c".to_string(), &"0x20".to_string(), 3, Some((true, 2))).unwrap();
    assert!(changed.publish && changed.forward_to_alarms);
    let same = handle_module_value(&manager, &"i2c".to_string(), &"0x20".to_string(), 3, Some((false, 0))).unwrap();
    assert!(!same.publish);
    let err = handle_module_value(&manager, &"i2c".to_string(), &"0x20".to_string(), 4, None).err().unwrap();
    assert_eq!(err.message, "module_port not found: ");
}

#[test]
fn sync_announces_every_connected_module() {
    let mut manager = MainboardModuleStateManager::new();
    manager.insert_module(MainboardConnectedModule { port: 1, id: "AAP000000001".to_string(), board: "b".to_string(), board_addr: "a".to_string() });
    manager.insert_module(MainboardConnectedModule { port: 2, id: "AAB000000002".to_string(), board: "b".to_string(), board_addr: "a".to_string() });
    let messages = handle_sync_request(&manager);
    assert_eq!(messages.len(), 2);
    assert_eq!(messages[0].0, "/m/AAP000000001/state");
    assert_eq!(messages[1].1.atIndex, 2);
}

#[test]
fn module_at_index_can_be_changed_in_place() {
    let mut manager = MainboardModuleStateManager::new();
    handle_module_state(&mut manager, &event("AAP000000001", true)).unwrap();
    assert!(manager.get_module_at_index_mut(&"i2c".to_string(), &"0x20".to_string(), 4).is_none());
    let module = manager.get_module_at_index_mut(&"i2c".to_string(), &"0x20".to_string(), 3).unwrap();
    assert_eq!(module.id, "AAP000000001");
    module.board_addr = "0x21".to_string();
    assert!(manager.get_module_at_index(&"i2c".to_string(), &"0x20".to_string(), 3).is_none());
    assert_eq!(manager.get_module_at_index(&"i2c".to_string(), &"0x21".to_string(), 3).unwrap().id, "AAP000000001");
}

#[test]
fn plugging_then_pulling_a_module_leaves_the_registry_as_it_was() {
    let mut manager = MainboardModuleStateManager::new();
    handle_module_state(&mut manager, &event("AAP000000001", true)).unwrap();
    let mut other = event("AAS000000002", true);
    other.port = 5;
    handle_module_state(&mut manager, &other).unwrap();
    assert_eq!(manager.get_connected_modules(), vec!["AAP000000001".to_string(), "AAS000000002".to_string()]);
    other.state = false;
    handle_module_state(&mut manager, &other).unwrap();
    assert_eq!(manager.get_connected_modules(), vec!["AAP000000001".to_string()]);
    assert_eq!(manager.get_module_at_index(&"i2c".to_string(), &"0x20".to_string(), 3).unwrap().id, "AAP000000001");
}
