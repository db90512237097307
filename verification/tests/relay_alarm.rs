use growbe_mainboard::modulestate::relay::alarm::get_timeout_alarm;

#[test]
fn valid_alarm_values() {
    let values: Vec<(i32, i32, i32, i32, bool)> = vec![
        // OPEN , CLOSE , CURRENT , EXPECTED SLEEP , IS_DAY
        (600, 800, 700, 100, true),
        (360, 0, 800, 700, true),
        (360, 0, 100, 260, false),
        (360, 100, 800, 800, true),
    ];

    for value in values.iter() {
        let (timeout, day) = get_timeout_alarm(value.2, value.0, value.1);

        assert_eq!(timeout, value.3);
        assert_eq!(day, value.4);
    }
}

use growbe_mainboard::modulestate::relay::alarm::{alarm_step, alarm_window_minutes};
use growbe_mainboard::modulestate::relay::cycle::cycle_step;
use growbe_mainboard::modulestate::relay::duration::duration_step;
use growbe_mainboard::modulestate::relay::physical_relay::{ActionPortUnion, BatchPhysicalRelay, PhysicalRelay};
use growbe_mainboard::modulestate::relay::{get_outlet_data, BatchRelay, Relay, State};
use growbe_mainboard::protos::module::{AlarmConfig, CronItem, CycleConfig, RelayOutletData};

#[test]
fn alarm_round_sets_state_and_sleeps_in_seconds() {
    assert_eq!(alarm_step(700, 600, 800), (1, 6000));
    assert_eq!(alarm_step(100, 360, 0), (0, 260 * 60));
}

#[test]
fn alarm_window_in_minutes() {
    let config = AlarmConfig { begining: Some(CronItem { hour: 6, minute: 30 }), end: Some(CronItem { hour: 20, minute: 0 }) };
    assert_eq!(alarm_window_minutes(&config), (390, 1200));
}

#[test]
fn cycle_alternates_on_and_off() {
    let cycle = CycleConfig { waitingTime: 30, runningTime: 10 };
    let (s1, sleep1, next) = cycle_step(&cycle, false);
    assert_eq!((s1, sleep1, next), (1, 30, true));
    let (s2, sleep2, next2) = cycle_step(&cycle, next);
    assert_eq!((s2, sleep2, next2), (0, 30, false));
}

#[test]
fn duration_job_switches_off_after_the_delay() {
    assert_eq!(duration_step(90), (90, 0));
}

#[test]
fn outlet_state_from_port_byte() {
    let prev = RelayOutletData { state: false, timestamp: 5 };
    assert_eq!(get_outlet_data(1, &prev, 100), Some(RelayOutletData { state: true, timestamp: 100 }));
    assert_eq!(get_outlet_data(0, &prev, 100), Some(RelayOutletData { state: false, timestamp: 5 }));
    assert_eq!(get_outlet_data(7, &prev, 100), Some(RelayOutletData { state: false, timestamp: 5 }));
}

#[test]
fn relays_through_their_traits() {
    let mut single = PhysicalRelay { port: 2, action_port: 5 };
    let frames = State::set_state(&mut single, 1);
    assert_eq!(frames.len(), 1);
    assert_eq!(frames[0].data, vec![255, 255, 255, 255, 255, 1, 255, 255]);
    assert_eq!(Relay::id(&single), "5");

    let mut batch = BatchPhysicalRelay { buffer: vec![255; 8], port: 4, auto_send: false, action_port: ActionPortUnion::new_ports(vec![0, 7]) };
    assert!(State::set_state(&mut batch, 0).is_empty());
    let pending = BatchRelay::execute(&batch);
    assert_eq!(pending.port, 4);
    assert_eq!(pending.data, vec![0, 255, 255, 255, 255, 255, 255, 0]);
    assert_eq!(Relay::id(&batch), "[0, 7]");
}
