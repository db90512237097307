use growbe_mainboard::modulestate::controller::{
    can_be_initialize, get_config_for_event, EnvControllerStore, EnvironmentControllerConfiguration, MActor, MObserver,
    RessourceType, SCActorAction, SCConditionActor, StaticControllerConfig, StaticControllerImplementation,
};
use growbe_mainboard::protos::alarm::AlarmZone;
use growbe_mainboard::protos::module::{ManualConfig, RelayOutletConfig};

fn actor(name: &str, id: &str, property: &str) -> MActor {
    MActor { name: name.to_string(), id: id.to_string(), property: property.to_string(), field_type: RessourceType::ACTOR_MODULE }
}

fn manual(state: bool) -> RelayOutletConfig {
    let mut c = RelayOutletConfig::new();
    let mut m = ManualConfig::new();
    m.state = state;
    c.set_manual(m);
    c
}

#[test]
fn zone_change_sends_configured_relays() {
    let _ = StaticControllerImplementation::new();
    let actors = vec![actor("heater", "AAP000000003", "p0"), actor("fan", "AAP000000003", "p1")];
    let condition = SCConditionActor {
        actions: vec![
            ("heater".to_string(), SCActorAction { config: vec![(AlarmZone::LOW.value(), manual(true)), (AlarmZone::HIGH.value(), manual(false))] }),
            ("fan".to_string(), SCActorAction { config: vec![(AlarmZone::HIGH.value(), manual(true))] }),
            ("ghost".to_string(), SCActorAction { config: vec![(AlarmZone::LOW.value(), manual(true))] }),
        ],
    };
    let low = get_config_for_event(&actors, AlarmZone::LOW, &condition);
    assert_eq!(low.len(), 1);
    assert_eq!(low[0].0, "AAP000000003");
    assert_eq!(low[0].1, "p0");
    assert!(low[0].2.manual.unwrap().state);

    let high = get_config_for_event(&actors, AlarmZone::HIGH, &condition);
    assert_eq!(high.len(), 2);
    assert_eq!(high[1].1, "p1");

    assert!(get_config_for_event(&actors, AlarmZone::MIDDLE, &condition).is_empty());
}

fn config_with_observer(id: &str, module: &str, property: &str) -> EnvironmentControllerConfiguration {
    EnvironmentControllerConfiguration {
        id: id.to_string(),
        observers: vec![MObserver {
            name: "obs".to_string(),
            id: module.to_string(),
            property: property.to_string(),
            field_type: RessourceType::ACTOR_MODULE,
        }],
        actors: vec![],
        implementation: Some(StaticControllerConfig { conditions: vec![SCConditionActor { actions: vec![] }] }),
    }
}

#[test]
fn env_controller_module_not_connected() {
    let mut ecs = EnvControllerStore::new();
    let config = config_with_observer("test", "AAA0000003", "airTemperature");

    let is_starting = ecs.register_controller(false, &config, &vec![], &vec![]).unwrap();

    assert_eq!(is_starting, false);
    assert_eq!(ecs.register_controller(true, &config, &vec![], &vec![]).err().unwrap().message, "already existing");
    assert_eq!(ecs.tasks.contains(&config.id), false);
}

#[test]
fn env_controller_runs_once_module_and_alarm_are_there() {
    let mut ecs = EnvControllerStore::new();
    let config = config_with_observer("test", "AAA0000003", "airTemperature");
    let connected = vec!["AAA0000003".to_string()];
    let alarms = vec![("AAA0000003".to_string(), "airTemperature".to_string())];
    assert!(!can_be_initialize(&config, &connected, &vec![]));
    assert!(can_be_initialize(&config, &connected, &alarms));

    ecs.on_module_connected("AAA0000003").unwrap();
    assert_eq!(ecs.on_module_connected("AAA0000003").err().unwrap().message, "on_module_connected already exists : AAA0000003");
    ecs.on_alarm_created("AAA0000003", "airTemperature").unwrap();
    assert_eq!(
        ecs.on_alarm_created("AAA0000003", "airTemperature").err().unwrap().message,
        "on_alarm_created already exists : AAA0000003:airTemperature"
    );

    assert_eq!(ecs.register_controller(false, &config, &connected, &alarms).unwrap(), true);
    assert!(ecs.tasks.contains(&"test".to_string()));

    let stored = vec![config];
    ecs.on_alarm_deleted("AAA0000003", "airTemperature");
    let removed = ecs.validate_removale(&stored, &connected, &vec![]);
    assert_eq!(removed, vec!["test".to_string()]);
    assert!(ecs.tasks.is_empty());

    ecs.on_alarm_created("AAA0000003", "airTemperature").unwrap();
    ecs.validate_creation(&stored, &connected, &alarms).unwrap();
    assert!(ecs.tasks.contains(&"test".to_string()));
    assert!(ecs.unregister_controller("test"));
    assert!(!ecs.unregister_controller("test"));
    ecs.on_module_disconnected("AAA0000003");
    assert!(ecs.value_senders.is_empty());
}

fn alarm(module: &str, property: &str) -> (String, String) {
    (module.to_string(), property.to_string())
}

#[test]
fn env_controller_module_connected_no_alarm() {
    let mut ecs = EnvControllerStore::new();
    let connected = vec!["AAA0000003".to_string()];
    ecs.on_module_connected("AAA0000003").unwrap();

    let config = config_with_observer("test", "AAA0000003", "airTemperature");

    let is_starting = ecs.register_controller(false, &config, &connected, &vec![]).unwrap();

    assert_eq!(is_starting, false);
    assert_eq!(ecs.register_controller(true, &config, &connected, &vec![]).err().unwrap().message, "already existing");
    assert_eq!(ecs.tasks.contains(&config.id), false);
}

#[test]
fn env_controller_module_connected() {
    let mut ecs = EnvControllerStore::new();
    let connected = vec!["AAA0000003".to_string()];
    ecs.on_module_connected("AAA0000003").unwrap();
    let alarms = vec![alarm("AAA0000003", "airTemperature")];
    ecs.on_alarm_created("AAA0000003", "airTemperature").unwrap();

    let config = config_with_observer("test", "AAA0000003", "airTemperature");

    let is_starting = ecs.register_controller(false, &config, &connected, &alarms).unwrap();

    assert_eq!(is_starting, true);
    assert_eq!(ecs.register_controller(true, &config, &connected, &alarms).err().unwrap().message, "already existing");
    assert_eq!(ecs.tasks.contains(&config.id), true);

    assert_eq!(ecs.unregister_controller(&config.id), true);
    assert_eq!(ecs.tasks.contains(&config.id), false);
}

#[test]
fn env_controller_start_after_module_alarm_added() {
    let mut ecs = EnvControllerStore::new();
    let config = config_with_observer("test", "AAA0000003", "airTemperature");

    let is_starting = ecs.register_controller(false, &config, &vec![], &vec![]).unwrap();

    assert_eq!(is_starting, false);
    let stored = vec![config];

    let connected = vec!["AAA0000003".to_string()];
    ecs.on_module_connected("AAA0000003").unwrap();
    ecs.validate_creation(&stored, &connected, &vec![]).unwrap();

    // start should not be started stil
    let is_starting = ecs.tasks.contains(&stored[0].id);

    assert_eq!(is_starting, false);

    let alarms = vec![alarm("AAA0000003", "airTemperature")];
    ecs.on_alarm_created("AAA0000003", "airTemperature").unwrap();
    ecs.validate_creation(&stored, &connected, &alarms).unwrap();

    let is_starting = ecs.tasks.contains(&stored[0].id);

    assert_eq!(is_starting, true);
}

#[test]
fn env_controller_stop_after_module_or_alarm_removed() {
    let mut ecs = EnvControllerStore::new();
    let mut connected = vec!["AAA0000003".to_string()];
    ecs.on_module_connected("AAA0000003").unwrap();
    let mut alarms = vec![alarm("AAA0000003", "airTemperature"), alarm("AAA0000003", "humidity")];
    ecs.on_alarm_created("AAA0000003", "airTemperature").unwrap();
    ecs.on_alarm_created("AAA0000003", "humidity").unwrap();

    let config = config_with_observer("test", "AAA0000003", "airTemperature");

    let is_starting = ecs.register_controller(false, &config, &connected, &alarms).unwrap();
    assert_eq!(is_starting, true);
    let stored = vec![config];

    connected.clear();
    ecs.on_module_disconnected("AAA0000003");
    ecs.validate_removale(&stored, &connected, &alarms);

    let is_starting = ecs.tasks.contains(&stored[0].id);
    assert_eq!(is_starting, false);

    connected.push("AAA0000003".to_string());
    ecs.on_module_connected("AAA0000003").unwrap();
    ecs.validate_creation(&stored, &connected, &alarms).unwrap();
    let is_starting = ecs.tasks.contains(&stored[0].id);
    assert_eq!(is_starting, true);

    alarms.pop();
    ecs.on_alarm_deleted("AAA0000003", "humidity");
    ecs.validate_removale(&stored, &connected, &alarms);
    let is_starting = ecs.tasks.contains(&stored[0].id);
    assert_eq!(is_starting, true);

    alarms.pop();
    ecs.on_alarm_deleted("AAA0000003", "airTemperature");
    ecs.validate_removale(&stored, &connected, &alarms);
    let is_starting = ecs.tasks.contains(&stored[0].id);
    assert_eq!(is_starting, false);
}

#[test]
fn env_controller_unregister_config() {
    let mut ecs = EnvControllerStore::new();
    let connected = vec!["AAA0000003".to_string()];
    ecs.on_module_connected("AAA0000003").unwrap();
    let alarms = vec![alarm("AAA0000003", "airTemperature")];
    ecs.on_alarm_created("AAA0000003", "airTemperature").unwrap();

    let config = config_with_observer("test", "AAA0000003", "airTemperature");

    let is_starting = ecs.register_controller(false, &config, &connected, &alarms).unwrap();
    assert_eq!(is_starting, true);

    ecs.unregister_controller(&config.id);

    let is_starting = ecs.tasks.contains(&config.id);
    assert_eq!(is_starting, false);
}

fn static_config(actions: Vec<(String, SCActorAction)>) -> EnvironmentControllerConfiguration {
    let mut config = config_with_observer("test", "AAA0000003", "airTemperature");
    config.actors = vec![actor("test_actor", "AAP0000003", "p0")];
    config.implementation = Some(StaticControllerConfig { conditions: vec![SCConditionActor { actions }] });
    config
}

#[test]
fn env_controller_static_reat_alarm_undefined_zone_dont_send() {
    let imple = StaticControllerImplementation::new();
    let config = static_config(vec![]);

    assert_eq!(imple.configs_on_alarm(&config, AlarmZone::UNKNOW).is_empty(), true);
    assert_eq!(imple.configs_on_alarm(&config, AlarmZone::HIGH).is_empty(), true);
}

#[test]
fn env_controller_static_reat_alarm_defined_zone_send() {
    let imple = StaticControllerImplementation::new();
    let config = static_config(vec![(
        "test_actor".to_string(),
        SCActorAction { config: vec![(0, manual(true))] },
    )]);

    // sent at the start, the alarm being in its unknown zone
    let sent = imple.configs_on_alarm(&config, AlarmZone::UNKNOW);
    assert_eq!(sent.len(), 1);
    assert_eq!(sent[0].0, "AAP0000003");
    assert_eq!(sent[0].1, "p0");
    assert_eq!(sent[0].2.manual.unwrap().state, true);

    // and again when the alarm changes to that zone
    let sent = imple.configs_on_alarm(&config, AlarmZone::UNKNOW);
    assert_eq!(sent[0].2.manual.unwrap().state, true);

    // a zone without a configuration sends nothing
    assert_eq!(imple.configs_on_alarm(&config, AlarmZone::LOW).is_empty(), true);
}

#[test]
fn creation_pass_fails_on_a_runnable_controller_without_channels() {
    let mut ecs = EnvControllerStore::new();
    let connected = vec!["AAA0000003".to_string()];
    let alarms = vec![alarm("AAA0000003", "airTemperature")];
    let stored = vec![config_with_observer("test", "AAA0000003", "airTemperature")];

    // the alarm exists but its channel was never opened
    let err = ecs.validate_creation(&stored, &connected, &alarms).err().unwrap();
    assert_eq!(err.message, "failed to get field alarm event receive");
    assert!(ecs.tasks.is_empty());

    // a controller that cannot run yet is no failure
    assert!(ecs.validate_creation(&stored, &connected, &vec![]).is_ok());
    assert!(ecs.validate_creation(&vec![], &connected, &alarms).is_ok());
}
