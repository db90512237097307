use growbe_mainboard::modulestate::aas::calibration::CalibrationProcess;
use growbe_mainboard::modulestate::aas::{two_u8_to_u16, AASValidator, CalibrationOutcome};
use growbe_mainboard::protos::module::{
    CalibrationError, CalibrationStep, SOILCalibrationStep, SOILModuleConfig, SOILModuleData,
    SOILProbeConfig,
};

fn from_tuple(values: &[i32; 8]) -> SOILModuleData {
    let mut data = SOILModuleData::new();
    data.p0 = values[0];
    data.p1 = values[1];
    data.p2 = values[2];
    data.p3 = values[3];
    data.p4 = values[4];
    data.p5 = values[5];
    data.p6 = values[6];
    data.p7 = values[7];
    data
}

#[test]
fn calibration_process_succesful() {
    let values_low: Vec<SOILModuleData> = vec![[24, 24, 24, 24, 0, 0, 0, 0]].iter().map(from_tuple).collect();

    let values_high: Vec<SOILModuleData> = vec![[300, 300, 300, 300, 0, 0, 0, 0]].iter().map(from_tuple).collect();

    let mut process = CalibrationProcess::new();

    assert_eq!(process.current_step, CalibrationStep::READY_CALIBRATION);

    process.start_record(CalibrationStep::LOW_CALIBRATION);

    values_low.iter().for_each(|x| {
        process.on_value(x.clone_value());
    });

    process.stop_record();

    assert_eq!(process.current_step, CalibrationStep::READY_CALIBRATION);

    process.start_record(CalibrationStep::HIGH_CALIBRATION);

    values_high.iter().for_each(|x| {
        process.on_value(x.clone_value());
    });

    process.stop_record();

    assert_eq!(process.current_step, CalibrationStep::WAITING_CONFIRMATION_CALIBRATION);

    let _config_result = process.terminate().unwrap();
}

fn record(process: &mut CalibrationProcess, step: CalibrationStep, readings: &[[i32; 8]]) {
    process.start_record(step);
    for r in readings {
        process.on_value(from_tuple(r));
    }
    process.stop_record();
}

#[test]
fn calibration_averages_each_probe_toward_zero() {
    let mut process = CalibrationProcess::new();
    record(&mut process, CalibrationStep::LOW_CALIBRATION, &[[10, 11, -3, 0, 0, 0, 0, 7], [20, 12, -4, 0, 0, 0, 0, 8]]);
    record(&mut process, CalibrationStep::HIGH_CALIBRATION, &[[100, 200, 300, 400, 500, 600, 700, 800]]);
    let config = process.terminate().unwrap();
    assert_eq!(config.p0, Some(SOILProbeConfig { low: 15, high: 100 }));
    assert_eq!(config.p1, Some(SOILProbeConfig { low: 11, high: 200 }));
    // -7 / 2 rounds toward zero
    assert_eq!(config.p2, Some(SOILProbeConfig { low: -3, high: 300 }));
    assert_eq!(config.p7, Some(SOILProbeConfig { low: 7, high: 800 }));
}

#[test]
fn calibration_stop_without_both_steps_is_ready_again() {
    let mut process = CalibrationProcess::new();
    record(&mut process, CalibrationStep::LOW_CALIBRATION, &[[1, 1, 1, 1, 1, 1, 1, 1]]);
    assert_eq!(process.current_step, CalibrationStep::READY_CALIBRATION);
    assert_eq!(process.previous_step, CalibrationStep::LOW_CALIBRATION);
    assert!(process.terminate().is_err());
}

#[test]
fn calibration_readings_outside_recording_are_ignored() {
    let mut process = CalibrationProcess::new();
    process.on_value(from_tuple(&[5, 5, 5, 5, 5, 5, 5, 5]));
    assert_eq!(process.values_low.len(), 0);
    assert_eq!(process.values_high.len(), 0);
    process.start_record(CalibrationStep::HIGH_CALIBRATION);
    process.on_value(from_tuple(&[5, 5, 5, 5, 5, 5, 5, 5]));
    assert_eq!(process.values_high.len(), 1);
    let status = process.get_status();
    assert_eq!(status.step, CalibrationStep::HIGH_CALIBRATION);
    assert_eq!(status.high.len(), 1);
    assert_eq!(status.low.len(), 0);
}

#[test]
fn word_from_two_bytes_is_little_endian() {
    assert_eq!(two_u8_to_u16(0x34, 0x12), 0x1234);
    assert_eq!(two_u8_to_u16(255, 0), 255);
    assert_eq!(two_u8_to_u16(0, 1), 256);
}

#[test]
fn soil_reading_from_raw_frame() {
    let mut validator = AASValidator::new();
    let mut buffer = vec![0u8; 400];
    buffer[0] = 1;
    buffer[1] = 2;
    buffer[70] = 0xff;
    buffer[71] = 0x01;
    let (data, cal) = validator.convert_to_value(&buffer, 1234).unwrap();
    assert_eq!(data.p0, 0x0201);
    assert_eq!(data.p7, 0x01ff);
    assert_eq!(data.p3, 0);
    assert_eq!(data.timestamp, 1234);
    assert_eq!(data.valuetype, "raw");
    assert!(cal.is_none());
}

#[test]
fn soil_reading_from_short_frame_is_empty() {
    let mut validator = AASValidator::new();
    let buffer = vec![9u8; 350];
    let (data, _) = validator.convert_to_value(&buffer, 1234).unwrap();
    assert_eq!(data.p0, 0);
    assert_eq!(data.timestamp, 0);
    assert_eq!(data.valuetype, "");
}

#[test]
fn soil_reading_carries_calibration_in_force() {
    let mut validator = AASValidator::new();
    let mut config = SOILModuleConfig::new();
    config.p0 = Some(SOILProbeConfig { low: 10, high: 20 });
    let (_, frame) = validator.apply_parse_config(3, config).unwrap();
    assert_eq!(frame.port, 3);
    assert_eq!(frame.data, vec![255u8; 8]);
    let (_, cal) = validator.convert_to_value(&vec![0u8; 400], 1).unwrap();
    assert_eq!(cal, Some(config));
    validator.remove_config().unwrap();
    let (_, cal) = validator.convert_to_value(&vec![0u8; 400], 1).unwrap();
    assert!(cal.is_none());
}

#[test]
fn soil_change_reports_moved_probes() {
    let validator = AASValidator::new();
    let mut current = from_tuple(&[10, 20, 30, 40, 50, 60, 70, 80]);
    let mut last = from_tuple(&[10, 21, 30, 40, 50, 60, 70, 75]);
    current.timestamp = 100;
    last.timestamp = 90;
    let (changed, changes) = validator.have_data_change(&current, &last);
    assert!(changed);
    assert_eq!(changes.len(), 2);
    assert_eq!(changes[0].property, "p1");
    assert_eq!(changes[0].current_value, 20);
    assert_eq!(changes[0].previous_value, 21);
    assert_eq!(changes[1].property, "p7");

    let mut same = from_tuple(&[10, 20, 30, 40, 50, 60, 70, 80]);
    same.timestamp = 60;
    let (changed, changes) = validator.have_data_change(&current, &same);
    assert!(!changed);
    assert!(changes.is_empty());

    let mut later = from_tuple(&[10, 20, 30, 40, 50, 60, 70, 80]);
    later.timestamp = 160;
    let (changed, changes) = validator.have_data_change(&later, &current);
    assert!(changed);
    assert!(changes.is_empty());
}

#[test]
fn soil_calibration_commands() {
    let mut validator = AASValidator::new();

    match validator.handle_command_validator("statusCalibration", None).unwrap() {
        CalibrationOutcome::Event(e) => assert_eq!(e.step, CalibrationStep::READY_CALIBRATION),
        _ => panic!("expected an event"),
    }

    match validator.handle_command_validator("startCalibration", None).unwrap() {
        CalibrationOutcome::Event(e) => assert_eq!(e.erro, CalibrationError::NONE_ERROR),
        _ => panic!("expected an event"),
    }
    match validator.handle_command_validator("startCalibration", None).unwrap() {
        CalibrationOutcome::Event(e) => assert_eq!(e.erro, CalibrationError::ALREADY_STARTED_ERROR),
        _ => panic!("expected an event"),
    }

    let low = SOILCalibrationStep { requested_step: CalibrationStep::LOW_CALIBRATION };
    match validator.handle_command_validator("setCalibration", Some(low)).unwrap() {
        CalibrationOutcome::Event(e) => assert_eq!(e.step, CalibrationStep::LOW_CALIBRATION),
        _ => panic!("expected an event"),
    }
    let mut buffer = vec![0u8; 400];
    buffer[0] = 40;
    validator.convert_to_value(&buffer, 5).unwrap();

    let high = SOILCalibrationStep { requested_step: CalibrationStep::HIGH_CALIBRATION };
    validator.handle_command_validator("setCalibration", Some(high)).unwrap();
    buffer[0] = 200;
    validator.convert_to_value(&buffer, 6).unwrap();

    let ready = SOILCalibrationStep { requested_step: CalibrationStep::READY_CALIBRATION };
    match validator.handle_command_validator("setCalibration", Some(ready)).unwrap() {
        CalibrationOutcome::Event(e) => {
            assert_eq!(e.step, CalibrationStep::WAITING_CONFIRMATION_CALIBRATION);
            assert_eq!(e.low.len(), 1);
            assert_eq!(e.high.len(), 1);
        }
        _ => panic!("expected an event"),
    }

    match validator.handle_command_validator("terminateCalibration", None).unwrap() {
        CalibrationOutcome::Terminated(config) => {
            assert_eq!(config.p0, Some(SOILProbeConfig { low: 40, high: 200 }));
        }
        _ => panic!("expected the calibration"),
    }
    assert!(validator.calibration_process.is_none());

    match validator.handle_command_validator("cancelCalibration", None).unwrap() {
        CalibrationOutcome::Silent => {}
        _ => panic!("expected nothing"),
    }

    let err = validator.handle_command_validator("dance", None).err().unwrap();
    assert_eq!(err.status, 400);
}
