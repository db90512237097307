use growbe_mainboard::modulestate::aas::AASValidator;
use growbe_mainboard::modulestate::cmd::{
    command_response, config_type_tag, config_update_announcement, ownership_announcement, parse_module_command, property_target,
    ModuleCommand,
};
use growbe_mainboard::modulestate::modules::aab::AABValidator;
use growbe_mainboard::modulestate::modules::aap::AAPValidator;
use growbe_mainboard::modulestate::modules::aaa::AAAValidator;
use growbe_mainboard::modulestate::modules::ccs::CCSValidator;
use growbe_mainboard::modulestate::modules::ppo::PPOValidator;
use growbe_mainboard::modulestate::modules::{get_module_validator, parse_config_target, ConfigTarget, ConfigUpdate, ModuleValidator};
use growbe_mainboard::modulestate::store::{check_store_module_config, extract_module_id, is_supported};
use growbe_mainboard::mainboardstate::error::MainboardError;
use growbe_mainboard::modulestate::relay::configure::{authorize_relay_change, configure_relay_is_ready, RelayCommand};
use growbe_mainboard::protos::text_format::outlet_to_text;
use growbe_mainboard::protos::module::{
    Actor, ActorType, AlarmConfig, CronItem, CycleConfig, ManualConfig, RelayModuleConfig, RelayModuleData, RelayOutletConfig,
    RelayOutletData, RelayOutletMode, WCModuleConfig,
};

fn new_actor(id: &str, field_type: ActorType) -> Actor {
    let mut actor = Actor::new();
    actor.id = id.to_string();
    actor.field_type = field_type;
    actor
}

#[test]
fn module_aap_apply_full_config() {
    let mut validator = AAPValidator::new();
    let config = RelayModuleConfig::new();
    let actor = new_actor("a", ActorType::MANUAL_USER_ACTOR);

    validator.apply_parse_config(0, ConfigUpdate::Whole(config), actor, 1000).unwrap();
}

#[test]
fn module_aab_apply_full_config() {
    let mut validator = AABValidator::new();
    let mut config = WCModuleConfig::new();
    let mut p0 = RelayOutletConfig::new();
    let mut manual = ManualConfig::new();
    manual.state = true;
    p0.set_manual(manual);
    config.p0 = Some(p0);

    let actor = new_actor("a", ActorType::MANUAL_USER_ACTOR);

    let new_config = validator.apply_parse_config(0, ConfigUpdate::Whole(config), actor, 1000).unwrap().0;

    assert_ne!(new_config.p0.as_ref().unwrap().timestamp, 0);
    assert_eq!(new_config.p1.map(|c| c.timestamp).unwrap_or(0), 0);
}

#[test]
fn aap_manual_config_sets_the_relay_and_records_its_owner() {
    let mut validator = AAPValidator::new();
    let mut config = RelayModuleConfig::new();
    let mut p2 = RelayOutletConfig::new();
    let mut manual = ManualConfig::new();
    manual.state = true;
    p2.set_manual(manual);
    config.p2 = Some(p2);
    let actor = new_actor("user", ActorType::MANUAL_USER_ACTOR);
    let (applied, frame, _commands) = validator.apply_parse_config(4, ConfigUpdate::Whole(config), actor, 77).unwrap();
    assert_eq!(frame.port, 4);
    assert_eq!(frame.data, vec![255u8; 8]);
    let p2 = applied.p2.unwrap();
    assert_eq!(p2.actor_owner_id, "user");
    assert_eq!(p2.timestamp, 77);
}

#[test]
fn aap_partial_config_of_outlet_owned_by_other_actor_is_refused() {
    let mut validator = AAPValidator::new();
    let mut outlet = RelayOutletConfig::new();
    let mut manual = ManualConfig::new();
    manual.state = true;
    outlet.set_manual(manual);
    let controller = new_actor("controller", ActorType::ENV_CONTROLLER_ACTOR);
    validator
        .apply_parse_config(0, ConfigUpdate::Property("p0".to_string(), outlet.clone()), controller, 10)
        .unwrap();

    let mut other = RelayOutletConfig::new();
    let mut off = ManualConfig::new();
    off.state = false;
    other.set_manual(off);
    let someone = new_actor("someone", ActorType::ENV_CONTROLLER_ACTOR);
    assert!(validator.apply_parse_config(0, ConfigUpdate::Property("p0".to_string(), other), someone, 20).is_err());
}

#[test]
fn validators_by_module_type() {
    assert!(matches!(get_module_validator("AAS"), Ok(ModuleValidator::AAS(_))));
    assert!(matches!(get_module_validator("AAP"), Ok(ModuleValidator::AAP(_))));
    assert!(matches!(get_module_validator("AAB"), Ok(ModuleValidator::AAB(_))));
    assert!(matches!(get_module_validator("AAA"), Ok(ModuleValidator::AAA(_))));
    assert!(matches!(get_module_validator("CSS"), Ok(ModuleValidator::CSS)));
    let err = get_module_validator("XYZ").err().unwrap();
    assert_eq!(err.message, "cannot find validator for module type");
}

#[test]
fn relay_validators_start_with_no_previous_configuration() {
    match get_module_validator("AAP") {
        Ok(ModuleValidator::AAP(v)) => {
            assert!(v.actors_property.is_empty() && !v.clear_actor);
            let c = &v.previous_config;
            assert!([&c.p0, &c.p1, &c.p2, &c.p3, &c.p4, &c.p5, &c.p6, &c.p7].iter().all(|o| o.is_none()));
            let d = &v.previous_value;
            assert!([&d.p0, &d.p1, &d.p2, &d.p3, &d.p4, &d.p5, &d.p6, &d.p7].iter().all(|o| o.is_none()));
            assert_eq!(d.timestamp, 0);
        }
        _ => panic!("expected a relay validator"),
    }
    match get_module_validator("AAB") {
        Ok(ModuleValidator::AAB(v)) => {
            assert!(v.actors_property.is_empty() && !v.clear_actor);
            let c = &v.previous_config;
            assert!([&c.p0, &c.p1, &c.p2, &c.drain, &c.pump0, &c.pump1, &c.pump2, &c.pump3].iter().all(|o| o.is_none()));
            let d = &v.previous_value;
            assert!([&d.p0, &d.p1, &d.p2, &d.drain, &d.pump0, &d.pump1, &d.pump2, &d.pump3].iter().all(|o| o.is_none()));
            assert_eq!(d.timestamp, 0);
        }
        _ => panic!("expected a water control validator"),
    }
}

#[test]
fn air_module_needs_both_readings_in_its_frame() {
    let v = AAAValidator::new();
    assert!(v.check_frame(&vec![0u8; 105]).is_ok());
    let err = v.check_frame(&vec![0u8; 104]).err().unwrap();
    assert_eq!(err.message, "could not parse value from buffer");
}

#[test]
fn streaming_config_is_passed_on_unchanged() {
    let mut v = CCSValidator::new();
    let data = vec![1u8, 2, 3];
    let frame = v.apply_parse_config(5, &data, Ok(())).unwrap();
    assert_eq!(frame.port, 5);
    assert_eq!(frame.data, data);
    let err = v.apply_parse_config(5, &data, Err("bad wire type".to_string())).err().unwrap();
    assert_eq!(err.message, "bad wire type");
    assert_eq!(v.convert_to_value::<u32>(Err("truncated".to_string())).err().unwrap().message, "truncated");
}

#[test]
fn position_module_refuses_configuration() {
    let mut v = PPOValidator::new();
    assert!(v.apply_parse_config(1).is_err());
    assert_eq!(v.convert_to_value(Some(3u8)).unwrap(), 3u8);
    assert!(v.convert_to_value::<u8>(None).is_err());
    let _ = AASValidator::new();
}

#[test]
fn supported_modules_store_their_config() {
    assert!(is_supported(&"AAP0000003".to_string()));
    assert!(is_supported(&"CCS0000001".to_string()));
    assert!(!is_supported(&"KKK0000001".to_string()));
    assert!(!is_supported(&"AAP".to_string()));
    let err = check_store_module_config(&"KKK0000001".to_string()).err().unwrap();
    assert_eq!(err.message, "module is not supported to save config");
}

#[test]
fn module_id_is_the_last_part_of_the_topic() {
    assert_eq!(extract_module_id(&"/growbe/board/mconfig/AAP0000003".to_string()), "AAP0000003");
    assert_eq!(extract_module_id(&"AAP0000003".to_string()), "AAP0000003");
}

#[test]
fn module_commands_by_name() {
    assert_eq!(parse_module_command("sync"), ModuleCommand::Sync);
    assert_eq!(parse_module_command("mconfig"), ModuleCommand::ModuleConfig);
    assert_eq!(parse_module_command("rmVr"), ModuleCommand::RemoveVirtualRelay);
    assert_eq!(parse_module_command("startCalibration"), ModuleCommand::Validator);
}

#[test]
fn command_answers() {
    assert_eq!(command_response(&Ok(())), (0, String::new()));
    let err = MainboardError::from_error("boom".to_string());
    assert_eq!(command_response(&Err(err)), (500, "boom".to_string()));
}

#[test]
fn config_tags_round_trip() {
    let whole = config_type_tag("AAP0000003", "");
    assert_eq!(whole, "AAP");
    assert!(matches!(parse_config_target(whole.as_str(), "AAP"), ConfigTarget::Whole));
    let prop = config_type_tag("AAP0000003", "p4");
    assert_eq!(prop, "AAP:p4");
    match parse_config_target(prop.as_str(), "AAP") {
        ConfigTarget::Property(p) => assert_eq!(p, "p4"),
        _ => panic!("expected a property"),
    }
}

#[test]
fn applied_config_is_announced_unless_replayed() {
    let actor = new_actor("actor", ActorType::ENV_CONTROLLER_ACTOR);
    assert_eq!(config_update_announcement("AAP0000003", &actor), Some("/m/AAP0000003/config_updated".to_string()));
    let replay = new_actor("handle_state", ActorType::MANUAL_USER_ACTOR);
    assert_eq!(config_update_announcement("AAP0000003", &replay), None);
}

#[test]
fn ownership_change_is_announced_unless_asked_by_hand() {
    let controller = new_actor("ctrl", ActorType::ENV_CONTROLLER_ACTOR);
    assert_eq!(ownership_announcement("AAB0000001", &controller), Some("/m/AAB0000001/config_updated".to_string()));
    let user = new_actor("user", ActorType::MANUAL_USER_ACTOR);
    assert_eq!(ownership_announcement("AAB0000001", &user), None);
}

#[test]
fn refused_change_names_owner_actor_and_both_configs() {
    let mut prev = manual_config(true);
    prev.actor_owner_id = "controller".to_string();
    prev.actor_owner_type = ActorType::ENV_CONTROLLER_ACTOR;
    let config = manual_config(false);
    let someone = new_actor("someone", ActorType::ENV_CONTROLLER_ACTOR);
    let err = authorize_relay_change(Some(&config), Some(&prev), &someone).err().unwrap();
    assert_eq!(
        err.message,
        "cant change property already owned by other actor : controller -> someone , manual {} manual {state: true} actor_owner_id: \"controller\" actor_owner_type: ENV_CONTROLLER_ACTOR"
    );
    assert!(authorize_relay_change(Some(&config), Some(&prev), &new_actor("controller", ActorType::ENV_CONTROLLER_ACTOR)).is_ok());
    assert!(authorize_relay_change(Some(&prev), Some(&prev), &someone).is_ok());
}

fn manual_config(state: bool) -> RelayOutletConfig {
    let mut c = RelayOutletConfig::new();
    let mut manual = ManualConfig::new();
    manual.state = state;
    c.set_manual(manual);
    c
}

fn manual_outlet(state: bool) -> RelayOutletConfig {
    let mut outlet = RelayOutletConfig::new();
    let mut manual = ManualConfig::new();
    manual.state = state;
    outlet.set_manual(manual);
    outlet
}

fn first_sent_frame(commands: &[RelayCommand]) -> Vec<u8> {
    for command in commands {
        if let RelayCommand::Send(frame) = command {
            return frame.data.clone();
        }
    }
    panic!("no frame sent to the module");
}

#[test]
fn module_aap_apply_partial_config() {
    let mut validator = AAPValidator::new();
    let actor = new_actor("a", ActorType::MANUAL_USER_ACTOR);

    let (c, _, commands) = validator
        .apply_parse_config(0, ConfigUpdate::Property("p0".to_string(), manual_outlet(true)), actor, 1000)
        .unwrap();

    assert_eq!(c.p0.as_ref().unwrap().manual.as_ref().unwrap().state, true);

    let sended_config = first_sent_frame(&commands);
    assert_eq!(sended_config[0], 1);
    assert_eq!(sended_config[1], 255);
}

#[test]
fn module_aap_apply_partial_config_same_owner() {
    let mut validator = AAPValidator::new();
    let actor = new_actor("a", ActorType::MANUAL_USER_ACTOR);

    let (_, _, first_commands) = validator
        .apply_parse_config(0, ConfigUpdate::Property("p0".to_string(), manual_outlet(true)), actor.clone_value(), 1000)
        .unwrap();
    let (c, _, _) = validator
        .apply_parse_config(0, ConfigUpdate::Property("p0".to_string(), manual_outlet(true)), actor.clone_value(), 1001)
        .unwrap();

    assert_eq!(c.p0.as_ref().unwrap().manual.as_ref().unwrap().state, true);

    // the first frame sent to the module
    let sended_config = first_sent_frame(&first_commands);
    assert_eq!(sended_config[0], 1);
    assert_eq!(sended_config[1], 255);
}

#[test]
fn module_aap_apply_partial_already_owned() {
    let mut validator = AAPValidator::new();
    let actor = new_actor("a", ActorType::ENV_CONTROLLER_ACTOR);

    validator
        .apply_parse_config(0, ConfigUpdate::Property("p0".to_string(), manual_outlet(true)), actor.clone_value(), 1000)
        .unwrap();

    // switch actor but dont send property is ok
    let new_actor = new_actor("ab", ActorType::MANUAL_USER_ACTOR);
    let result = validator.apply_parse_config(0, ConfigUpdate::Property("p0".to_string(), manual_outlet(false)), new_actor, 1001);

    assert_eq!(result.is_err(), true);
}

#[test]
fn module_aab_apply_partial_config() {
    let mut validator = AABValidator::new();
    let actor = new_actor("a", ActorType::MANUAL_USER_ACTOR);

    let (c, _, commands) = validator
        .apply_parse_config(0, ConfigUpdate::Property("p0".to_string(), manual_outlet(true)), actor, 1000)
        .unwrap();

    assert_eq!(c.p0.as_ref().unwrap().manual.as_ref().unwrap().state, true);
    assert_ne!(c.p0.as_ref().unwrap().timestamp, 0);

    let sended_config = first_sent_frame(&commands);
    assert_eq!(sended_config[0], 1);
    assert_eq!(sended_config[1], 255);
}

#[test]
fn apply_module_config_from_system_send_config_cloud() {
    let mut validator = AAPValidator::new();
    let actor = new_actor("actor", ActorType::ENV_CONTROLLER_ACTOR);

    let result = validator.apply_parse_config(3, ConfigUpdate::Whole(RelayModuleConfig::new()), actor.clone_value(), 1000);

    assert_eq!(result.is_ok(), true);
    assert_eq!(config_update_announcement("AAP0000003", &actor).unwrap().as_str(), "/m/AAP0000003/config_updated");
}

#[test]
fn apply_module_config_from_handle_state_dont_send_config_cloud() {
    let mut validator = AAPValidator::new();
    let actor = new_actor("handle_state", ActorType::MANUAL_USER_ACTOR);

    let result = validator.apply_parse_config(3, ConfigUpdate::Whole(RelayModuleConfig::new()), actor.clone_value(), 1000);

    assert_eq!(result.is_ok(), true);
    assert_eq!(config_update_announcement("AAP0000003", &actor).is_none(), true);
}

#[test]
fn property_commands_name_the_module_and_the_property() {
    let (id, property) = property_target(&"/growbe/B1/board/pmconfig/AAP0000003/p4".to_string()).unwrap();
    assert_eq!(id, "AAP0000003");
    assert_eq!(property, "p4");
    let (id, property) = property_target(&"AAP0000003/p1".to_string()).unwrap();
    assert_eq!((id.as_str(), property.as_str()), ("AAP0000003", "p1"));
    assert!(property_target(&"p1".to_string()).is_none());
}

#[test]
fn same_relay_reading_is_unchanged() {
    let validator = AAPValidator::new();
    let mut reading = RelayModuleData::new();
    let outlet = |state: bool| Some(RelayOutletData { state, timestamp: 5 });
    reading.p0 = outlet(true);
    reading.p1 = outlet(false);
    reading.p2 = outlet(false);
    reading.p3 = outlet(true);
    reading.p4 = outlet(false);
    reading.p5 = outlet(false);
    reading.p6 = outlet(false);
    reading.p7 = outlet(false);
    let (changed, changes) = validator.have_data_change(&reading, &reading);
    assert!(!changed);
    assert!(changes.is_empty());
    let mut other = reading;
    other.p7 = outlet(true);
    assert!(validator.have_data_change(&other, &reading).0);
}

#[test]
fn outlet_configurations_are_written_in_text_format() {
    assert_eq!(outlet_to_text(&RelayOutletConfig::new()), "");
    let mut alarm = RelayOutletConfig::new();
    alarm.mode = RelayOutletMode::ALARM;
    alarm.alarm = Some(AlarmConfig { begining: Some(CronItem { hour: 6, minute: 0 }), end: Some(CronItem { hour: 0, minute: 0 }) });
    alarm.timestamp = -5;
    assert_eq!(outlet_to_text(&alarm), "mode: ALARM alarm {begining {hour: 6} end {}} timestamp: -5");
    let mut cycle = RelayOutletConfig::new();
    cycle.mode = RelayOutletMode::CYCLE;
    cycle.cycle = Some(CycleConfig { waitingTime: 30, runningTime: 2147483647 });
    cycle.actor_owner_id = "a\"\u{e9}\n\\'\u{1}".to_string();
    assert_eq!(
        outlet_to_text(&cycle),
        "mode: CYCLE cycle {waitingTime: 30 runningTime: 2147483647} actor_owner_id: \"a\\\"\\303\\251\\n\\\\\\'\\001\""
    );
    let mut manual = manual_config(true);
    manual.manual.as_mut().unwrap().duration = i32::MIN;
    assert_eq!(outlet_to_text(&manual), "manual {state: true duration: -2147483648}");
    let mut far = RelayOutletConfig::new();
    far.actor_owner_id = "\u{1F600}\u{800}".to_string();
    assert_eq!(outlet_to_text(&far), "actor_owner_id: \"\\360\\237\\230\\200\\340\\240\\200\"");
}

#[test]
fn a_configuration_is_ready_when_its_schedule_is_there() {
    let mut validator = AAPValidator::new();
    let mut alarm = RelayOutletConfig::new();
    alarm.mode = RelayOutletMode::ALARM;
    assert!(!validator.update_ready(&ConfigUpdate::Property("p0".to_string(), alarm.clone()), 10));
    assert!(!configure_relay_is_ready(Some(&alarm), None));
    alarm.alarm = Some(AlarmConfig { begining: None, end: None });
    assert!(validator.update_ready(&ConfigUpdate::Property("p0".to_string(), alarm.clone()), 10));

    let mut whole = RelayModuleConfig::new();
    let mut cycle = RelayOutletConfig::new();
    cycle.mode = RelayOutletMode::CYCLE;
    whole.p3 = Some(cycle.clone());
    assert!(!validator.update_ready(&ConfigUpdate::Whole(whole), 10));
    assert!(validator.update_ready(&ConfigUpdate::Whole(RelayModuleConfig::new()), 10));

    // An alarm outlet that repeats the window already applied is kept, not applied, so it
    // needs no window of its own.
    let actor = new_actor("a", ActorType::MANUAL_USER_ACTOR);
    validator.apply_parse_config(0, ConfigUpdate::Property("p0".to_string(), alarm.clone()), actor, 10).unwrap();
    let mut bare = RelayOutletConfig::new();
    bare.mode = RelayOutletMode::ALARM;
    assert!(validator.update_ready(&ConfigUpdate::Property("p0".to_string(), bare.clone()), 11));
    assert!(configure_relay_is_ready(Some(&bare), Some(&alarm)));
    assert!(!validator.update_ready(&ConfigUpdate::Property("p1".to_string(), bare), 11));
}
