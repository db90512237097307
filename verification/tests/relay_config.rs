use growbe_mainboard::modulestate::relay::configure::{configure_relay, RelayTask};
use growbe_mainboard::protos::alarm::AlarmZone;
use growbe_mainboard::protos::module::{Actor, ActorType, CycleConfig, ManualConfig, RelayOutletConfig, RelayOutletMode};

fn actor(id: &str) -> Actor {
    let mut a = Actor::new();
    a.id = id.to_string();
    a.field_type = ActorType::MANUAL_USER_ACTOR;
    a
}

fn manual(state: bool, duration: i32) -> RelayOutletConfig {
    let mut c = RelayOutletConfig::new();
    c.set_manual(ManualConfig { state, duration });
    c
}

#[test]
fn replaying_a_config_leaves_the_relay_alone() {
    let stored = manual(true, 0);
    let d = configure_relay(Some(&stored), Some(&stored), &actor("user"), false).unwrap();
    assert!(!d.cancel_previous);
    assert!(d.state.is_none());
    assert!(d.task.is_none());
}

#[test]
fn manual_config_sets_state_and_duration_job() {
    let d = configure_relay(Some(&manual(true, 30)), None, &actor("user"), false).unwrap();
    assert!(d.cancel_previous);
    assert_eq!(d.state, Some(1));
    assert_eq!(d.task, Some(RelayTask::Duration(30)));
    assert_eq!(d.config.actor_owner_id, "user");

    let replay = configure_relay(Some(&manual(false, 0)), None, &actor("handle_state"), false).unwrap();
    assert_eq!(replay.state, Some(0));
    assert_eq!(replay.config.actor_owner_id, "");
}

#[test]
fn cycle_config_starts_cycle_job() {
    let mut c = RelayOutletConfig::new();
    c.mode = RelayOutletMode::CYCLE;
    c.cycle = Some(CycleConfig { waitingTime: 5, runningTime: 2 });
    let d = configure_relay(Some(&c), None, &actor("user"), true).unwrap();
    assert_eq!(d.task, Some(RelayTask::Cycle(CycleConfig { waitingTime: 5, runningTime: 2 })));
    assert_eq!(d.config.actor_owner_id, "");
}

#[test]
fn no_config_keeps_the_previous_one() {
    let prev = manual(true, 0);
    let d = configure_relay(None, Some(&prev), &actor("user"), false).unwrap();
    assert!(!d.cancel_previous);
    assert_eq!(d.config.manual, Some(ManualConfig { state: true, duration: 0 }));
}

#[test]
fn alarm_zone_numbers_round_trip() {
    for z in AlarmZone::values() {
        assert_eq!(AlarmZone::from_i32(z.value()), Some(z));
    }
    assert_eq!(AlarmZone::from_i32(6), None);
    assert_eq!(AlarmZone::from_i32(-1), None);
    assert_eq!(AlarmZone::HIGH.value(), 4);
}
