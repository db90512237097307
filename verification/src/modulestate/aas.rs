//! The soil module (type AAS): eight moisture probes, read raw and turned into percentages
//! by a calibration that the module records in dry and in wet soil.
pub mod calibration;

use crate::comboard::ModuleConfig;
use crate::modulestate::alarm::model::ValueChange;
use crate::modulestate::interface::{ModuleError, CMD_NOT_SUPPORTED};
use crate::modulestate::relay::physical_relay::{blank_buffer, blank_frame};
use crate::protos::module::{
    CalibrationError, CalibrationStep, SOILCalibrationStep, SOILCalibrationStepEvent,
    SOILModuleConfig, SOILModuleData, SOILModuleDataView,
};
use crate::utils::{difference_of, differs_by};
use calibration::{
    averaged_config, event_of, event_view, idle_event, recorded, started, stopped, CalibrationProcess,
};
use vstd::prelude::*;

verus! {

/// The names of the probes, in order.
pub open spec fn probe_names() -> Seq<Seq<char>> {
    seq!["p0"@, "p1"@, "p2"@, "p3"@, "p4"@, "p5"@, "p6"@, "p7"@]
}

fn probe_name(k: usize) -> (r: String)
    requires
        k < 8,
    ensures
        r@ == probe_names()[k as int],
{
    proof {
        reveal_strlit("p0");
        reveal_strlit("p1");
        reveal_strlit("p2");
        reveal_strlit("p3");
        reveal_strlit("p4");
        reveal_strlit("p5");
        reveal_strlit("p6");
        reveal_strlit("p7");
    }
    let s = if k == 0 { "p0" } else if k == 1 { "p1" } else if k == 2 { "p2" } else if k == 3 { "p3" }
        else if k == 4 { "p4" } else if k == 5 { "p5" } else if k == 6 { "p6" } else { "p7" };
    String::from_str(s)
}

/// The little-endian 16-bit word made of two bytes.
pub fn two_u8_to_u16(b1: u8, b2: u8) -> (r: u16)
    ensures
        r == b1 + 256 * b2,
{
    let r = ((b2 as u16) << 8u16) | (b1 as u16);
    assert(((b2 as u16) << 8u16) | (b1 as u16) == b1 + 256 * b2) by (bit_vector);
    r
}

/// Probe `k` of a raw frame: the word at byte `10 * k`.
pub open spec fn raw_probe(buffer: Seq<u8>, k: int) -> int {
    buffer[10 * k] + 256 * buffer[10 * k + 1]
}

/// The reading a raw frame gives at time `now`: a frame longer than 350 bytes carries the
/// eight probes, stamped with `now` and typed "raw"; a shorter one gives an empty reading.
pub open spec fn raw_reading(buffer: Seq<u8>, now: i32) -> SOILModuleDataView {
    if buffer.len() > 350 {
        SOILModuleDataView { probes: Seq::new(8, |k: int| raw_probe(buffer, k) as i32), timestamp: now, valuetype: "raw"@ }
    } else {
        SOILModuleDataView { probes: Seq::new(8, |_k: int| 0i32), timestamp: 0, valuetype: Seq::empty() }
    }
}

/// A change of one probe: its name, the new value and the previous one.
pub open spec fn change_view(c: ValueChange<i32>) -> (Seq<char>, i32, i32) {
    (c.property@, c.current_value, c.previous_value)
}

pub open spec fn changes_view(s: Seq<ValueChange<i32>>) -> Seq<(Seq<char>, i32, i32)> {
    s.map_values(|c: ValueChange<i32>| change_view(c))
}

/// The probes among the first `n` that moved by at least one, in order.
pub open spec fn probe_changes(current: SOILModuleDataView, last: SOILModuleDataView, n: int) -> Seq<(Seq<char>, i32, i32)>
    decreases n,
{
    if n <= 0 {
        Seq::empty()
    } else {
        let rest = probe_changes(current, last, n - 1);
        if differs_by(current.probes[n - 1] as int, last.probes[n - 1] as int, 1) {
            rest.push((probe_names()[n - 1], current.probes[n - 1], last.probes[n - 1]))
        } else {
            rest
        }
    }
}

/// What a command of the calibration asks the caller to do next.
pub enum CalibrationOutcome {
    /// Publish this event on the module's calibration topic.
    Event(SOILCalibrationStepEvent),
    /// The calibration ended: this configuration becomes the module's, to be published
    /// and applied.
    Terminated(SOILModuleConfig),
    /// Nothing to publish.
    Silent,
}

/// The state kept for a soil module: the calibration it applies, and the calibration being
/// recorded, if any.
pub struct AASValidator {
    pub option_config: Option<SOILModuleConfig>,
    pub calibration_process: Option<CalibrationProcess>,
}

impl AASValidator {
    pub fn new() -> (r: AASValidator)
        ensures
            r.option_config is None,
            r.calibration_process is None,
    {
        AASValidator { option_config: None, calibration_process: None }
    }

    /// Reads the probes from a raw frame read at time `now`. While a calibration records,
    /// the reading goes into it and is returned raw; otherwise the calibration in force, if
    /// any, is returned beside the raw reading, to turn it into percentages.
    pub fn convert_to_value(&mut self, buffer: &Vec<u8>, now: i32)
        -> (r: Result<(SOILModuleData, Option<SOILModuleConfig>), ModuleError>)
        ensures
            r matches Ok((d, cal)) && d@ == raw_reading(buffer@, now) && ({
                match old(self).calibration_process {
                    Some(p) => {
                        &&& cal is None
                        &&& final(self).calibration_process matches Some(q) && recorded(p, q, d@)
                    },
                    None => cal == old(self).option_config && final(self).calibration_process is None,
                }
            }),
            final(self).option_config == old(self).option_config,
    {
        let mut data = SOILModuleData::new();
        if buffer.len() > 350 {
            let mut probes: Vec<i32> = Vec::new();
            let mut k: usize = 0;
            while k < 8
                invariant
                    k <= 8,
                    buffer@.len() > 350,
                    probes@.len() == k,
                    forall|j: int| 0 <= j < k ==> probes@[j] == raw_probe(buffer@, j) as i32,
                decreases 8 - k,
            {
                let w = two_u8_to_u16(buffer[10 * k], buffer[10 * k + 1]);
                probes.push(w as i32);
                k = k + 1;
            }
            proof {
                reveal_strlit("raw");
            }
            data = SOILModuleData::from_probes(&probes, now, String::from_str("raw"));
            assert(data@.probes =~= raw_reading(buffer@, now).probes);
        } else {
            assert(data@.probes =~= raw_reading(buffer@, now).probes);
            proof {
                reveal_strlit("");
            }
        }
        let taken = self.calibration_process.take();
        match taken {
            Some(mut process) => {
                process.on_value(data.clone_value());
                self.calibration_process = Some(process);
                Ok((data, None))
            },
            None => {
                Ok((data, self.option_config))
            },
        }
    }

    /// Drops the calibration in force.
    pub fn remove_config(&mut self) -> (r: Result<(), ModuleError>)
        ensures
            r is Ok,
            final(self).option_config is None,
            final(self).calibration_process == old(self).calibration_process,
    {
        self.option_config = None;
        Ok(())
    }

    /// Takes `config` as the calibration in force for the module at `port`; the module
    /// itself gets an all-blank frame.
    pub fn apply_parse_config(&mut self, port: i32, config: SOILModuleConfig)
        -> (r: Result<(SOILModuleConfig, ModuleConfig), ModuleError>)
        ensures
            r matches Ok((c, m)) && c == config && m.port == port && m.data@ == blank_frame(),
            final(self).option_config == Some(config),
            final(self).calibration_process == old(self).calibration_process,
    {
        self.option_config = Some(config);
        Ok((config, ModuleConfig { port: port, data: blank_buffer() }))
    }

    /// The probes that moved by at least one since the last reading, in order; the reading
    /// counts as changed when one did or when a minute or more separates the two readings.
    pub fn have_data_change(&self, current: &SOILModuleData, last: &SOILModuleData) -> (r: (bool, Vec<ValueChange<i32>>))
        ensures
            changes_view(r.1@) == probe_changes(current@, last@, 8),
            r.0 == (r.1@.len() > 0 || differs_by(current.timestamp as int, last.timestamp as int, 60)),
    {
        let mut changes: Vec<ValueChange<i32>> = Vec::new();
        let mut k: usize = 0;
        while k < 8
            invariant
                k <= 8,
                changes_view(changes@) == probe_changes(current@, last@, k as int),
            decreases 8 - k,
        {
            let c = current.probe(k);
            let l = last.probe(k);
            if difference_of(c, l, 1) {
                let change = ValueChange { property: probe_name(k), current_value: c, previous_value: l };
                proof {
                    assert(changes_view(changes@.push(change)) =~= changes_view(changes@).push(change_view(change)));
                }
                changes.push(change);
            }
            k = k + 1;
        }
        if difference_of(current.timestamp, last.timestamp, 60) {
            return (true, changes);
        }
        let changed = changes.len() > 0;
        (changed, changes)
    }

    /// Runs a calibration command: "startCalibration", "setCalibration" (with the requested
    /// step), "terminateCalibration", "cancelCalibration" or "statusCalibration". Any other
    /// command is refused as not supported.
    pub fn handle_command_validator(&mut self, cmd: &str, request: Option<SOILCalibrationStep>)
        -> (r: Result<CalibrationOutcome, ModuleError>)
        requires
            cmd@ == "setCalibration"@ ==> request is Some,
            cmd@ == "terminateCalibration"@ && old(self).calibration_process is Some
                ==> old(self).calibration_process->0.can_terminate(),
        ensures
            final(self).option_config == old(self).option_config,
            cmd@ == "startCalibration"@ ==> match old(self).calibration_process {
                None => {
                    &&& final(self).calibration_process matches Some(p) && event_of(p) == idle_event()
                        && p.previous_step == CalibrationStep::READY_CALIBRATION
                    &&& r matches Ok(CalibrationOutcome::Event(e)) && event_view(e) == idle_event()
                },
                Some(p0) => {
                    &&& final(self).calibration_process == Some(CalibrationProcess { ex: CalibrationError::ALREADY_STARTED_ERROR, ..p0 })
                    &&& r matches Ok(CalibrationOutcome::Event(e))
                        && event_view(e) == event_of(CalibrationProcess { ex: CalibrationError::ALREADY_STARTED_ERROR, ..p0 })
                },
            },
            cmd@ == "setCalibration"@ ==> match old(self).calibration_process {
                None => {
                    &&& final(self).calibration_process is None
                    &&& r matches Ok(CalibrationOutcome::Event(e)) && event_view(e) == idle_event()
                },
                Some(p0) => {
                    &&& final(self).calibration_process matches Some(p) && (if request->0.requested_step == CalibrationStep::READY_CALIBRATION {
                        stopped(p0, p)
                    } else {
                        started(p0, p, request->0.requested_step)
                    }) && (r matches Ok(CalibrationOutcome::Event(e)) && event_view(e) == event_of(p))
                },
            },
            cmd@ == "terminateCalibration"@ ==> match old(self).calibration_process {
                Some(p0) => if p0.current_step == CalibrationStep::WAITING_CONFIRMATION_CALIBRATION {
                    &&& final(self).calibration_process is None
                    &&& r matches Ok(CalibrationOutcome::Terminated(c)) && averaged_config(p0, c)
                } else {
                    &&& final(self).calibration_process == old(self).calibration_process
                    &&& r matches Ok(CalibrationOutcome::Event(e)) && event_view(e) == idle_event()
                },
                None => {
                    &&& final(self).calibration_process is None
                    &&& r matches Ok(CalibrationOutcome::Event(e)) && event_view(e) == idle_event()
                },
            },
            cmd@ == "cancelCalibration"@ ==> {
                &&& final(self).calibration_process is None
                &&& r matches Ok(CalibrationOutcome::Silent)
            },
            cmd@ == "statusCalibration"@ ==> {
                &&& final(self).calibration_process == old(self).calibration_process
                &&& r matches Ok(CalibrationOutcome::Event(e)) && event_view(e) == match old(self).calibration_process {
                    Some(p) => event_of(p),
                    None => idle_event(),
                }
            },
            cmd@ != "startCalibration"@ && cmd@ != "setCalibration"@ && cmd@ != "terminateCalibration"@
                && cmd@ != "cancelCalibration"@ && cmd@ != "statusCalibration"@ ==> {
                &&& final(self).calibration_process == old(self).calibration_process
                &&& r matches Err(e) && e.status == CMD_NOT_SUPPORTED
            },
    {
        proof {
            lemma_commands_distinct();
        }
        if crate::text::str_eq(cmd, "startCalibration") {
            Ok(CalibrationOutcome::Event(self.start_calibration()))
        } else if crate::text::str_eq(cmd, "setCalibration") {
            let step = match request {
                Some(req) => req.requested_step,
                None => CalibrationStep::READY_CALIBRATION,
            };
            Ok(CalibrationOutcome::Event(self.set_calibration(step)))
        } else if crate::text::str_eq(cmd, "terminateCalibration") {
            match self.terminate_calibration() {
                Ok(config) => Ok(CalibrationOutcome::Terminated(config)),
                Err(event) => Ok(CalibrationOutcome::Event(event)),
            }
        } else if crate::text::str_eq(cmd, "cancelCalibration") {
            self.calibration_process = None;
            Ok(CalibrationOutcome::Silent)
        } else if crate::text::str_eq(cmd, "statusCalibration") {
            Ok(CalibrationOutcome::Event(self.status_calibration()))
        } else {
            Err(ModuleError::new().status(CMD_NOT_SUPPORTED))
        }
    }

    fn start_calibration(&mut self) -> (e: SOILCalibrationStepEvent)
        ensures
            final(self).option_config == old(self).option_config,
            match old(self).calibration_process {
                None => {
                    &&& final(self).calibration_process matches Some(p) && event_of(p) == idle_event()
                        && p.previous_step == CalibrationStep::READY_CALIBRATION
                    &&& event_view(e) == idle_event()
                },
                Some(p0) => {
                    &&& final(self).calibration_process == Some(CalibrationProcess { ex: CalibrationError::ALREADY_STARTED_ERROR, ..p0 })
                    &&& event_view(e) == event_of(CalibrationProcess { ex: CalibrationError::ALREADY_STARTED_ERROR, ..p0 })
                },
            },
    {
        let taken = self.calibration_process.take();
        match taken {
            None => {
                let process = CalibrationProcess::new();
                let event = process.get_status();
                proof {
                    data_views_empty(process);
                }
                self.calibration_process = Some(process);
                event
            },
            Some(mut process) => {
                process.ex = CalibrationError::ALREADY_STARTED_ERROR;
                let event = process.get_status();
                self.calibration_process = Some(process);
                event
            },
        }
    }

    fn set_calibration(&mut self, step: CalibrationStep) -> (e: SOILCalibrationStepEvent)
        ensures
            final(self).option_config == old(self).option_config,
            match old(self).calibration_process {
                None => final(self).calibration_process is None && event_view(e) == idle_event(),
                Some(p0) => final(self).calibration_process matches Some(p) && (if step == CalibrationStep::READY_CALIBRATION {
                    stopped(p0, p)
                } else {
                    started(p0, p, step)
                }) && event_view(e) == event_of(p),
            },
    {
        let taken = self.calibration_process.take();
        match taken {
            Some(mut process) => {
                if step == CalibrationStep::READY_CALIBRATION {
                    process.stop_record();
                } else {
                    process.start_record(step);
                }
                let event = process.get_status();
                self.calibration_process = Some(process);
                event
            },
            None => {
                let event = SOILCalibrationStepEvent::new();
                assert(event_view(event) =~= idle_event());
                event
            },
        }
    }

    fn terminate_calibration(&mut self) -> (r: Result<SOILModuleConfig, SOILCalibrationStepEvent>)
        requires
            old(self).calibration_process is Some ==> old(self).calibration_process->0.can_terminate(),
        ensures
            final(self).option_config == old(self).option_config,
            match old(self).calibration_process {
                Some(p0) => if p0.current_step == CalibrationStep::WAITING_CONFIRMATION_CALIBRATION {
                    &&& final(self).calibration_process is None
                    &&& r matches Ok(c) && averaged_config(p0, c)
                } else {
                    &&& final(self).calibration_process == old(self).calibration_process
                    &&& r matches Err(e) && event_view(e) == idle_event()
                },
                None => {
                    &&& final(self).calibration_process is None
                    &&& r matches Err(e) && event_view(e) == idle_event()
                },
            },
    {
        let event = SOILCalibrationStepEvent::new();
        assert(event_view(event) =~= idle_event());
        let taken = self.calibration_process.take();
        match taken {
            Some(process) => {
                match process.terminate() {
                    Ok(config) => Ok(config),
                    Err(_) => {
                        self.calibration_process = Some(process);
                        Err(event)
                    },
                }
            },
            None => Err(event),
        }
    }

    fn status_calibration(&self) -> (e: SOILCalibrationStepEvent)
        ensures
            event_view(e) == match self.calibration_process {
                Some(p) => event_of(p),
                None => idle_event(),
            },
    {
        match &self.calibration_process {
            Some(process) => process.get_status(),
            None => {
                let event = SOILCalibrationStepEvent::new();
                assert(event_view(event) =~= idle_event());
                event
            },
        }
    }
}

/// The five calibration commands are distinct words.
proof fn lemma_commands_distinct()
    ensures
        "startCalibration"@ != "setCalibration"@,
        "startCalibration"@ != "terminateCalibration"@,
        "startCalibration"@ != "cancelCalibration"@,
        "startCalibration"@ != "statusCalibration"@,
        "setCalibration"@ != "terminateCalibration"@,
        "setCalibration"@ != "cancelCalibration"@,
        "setCalibration"@ != "statusCalibration"@,
        "terminateCalibration"@ != "cancelCalibration"@,
        "terminateCalibration"@ != "statusCalibration"@,
        "cancelCalibration"@ != "statusCalibration"@,
{
    reveal_strlit("startCalibration");
    reveal_strlit("setCalibration");
    reveal_strlit("terminateCalibration");
    reveal_strlit("cancelCalibration");
    reveal_strlit("statusCalibration");
    assert("startCalibration"@.len() == 16);
    assert("setCalibration"@.len() == 14);
    assert("terminateCalibration"@.len() == 20);
    assert("cancelCalibration"@.len() == 17);
    assert("statusCalibration"@.len() == 17);
    assert("cancelCalibration"@[0] != "statusCalibration"@[0]);
}

/// A fresh calibration reports nothing recorded.
proof fn data_views_empty(p: CalibrationProcess)
    requires
        p.values_low@.len() == 0,
        p.values_high@.len() == 0,
    ensures
        calibration::data_views(p.values_low@) == Seq::<SOILModuleDataView>::empty(),
        calibration::data_views(p.values_high@) == Seq::<SOILModuleDataView>::empty(),
{
    assert(calibration::data_views(p.values_low@) =~= Seq::<SOILModuleDataView>::empty());
    assert(calibration::data_views(p.values_high@) =~= Seq::<SOILModuleDataView>::empty());
}

/// Probe `k` of a raw soil frame (longer than 350 bytes) is the little-endian word at its
/// own offset: its low byte is byte `10 * k` of the frame and its high byte the next one;
/// and a frame that agrees on those two bytes gives the same value for probe `k`,
/// whatever its other bytes hold.
pub proof fn lemma_raw_probe_is_own_word(a: Seq<u8>, b: Seq<u8>, now: i32, later: i32, k: int)
    requires
        a.len() > 350,
        0 <= k < 8,
    ensures
        0 <= raw_reading(a, now).probes[k] < 65536,
        raw_reading(a, now).probes[k] % 256 == a[10 * k],
        raw_reading(a, now).probes[k] / 256 == a[10 * k + 1],
        (b.len() > 350 && b[10 * k] == a[10 * k] && b[10 * k + 1] == a[10 * k + 1])
            ==> raw_reading(b, later).probes[k] == raw_reading(a, now).probes[k],
{
    let lo = a[10 * k] as int;
    let hi = a[10 * k + 1] as int;
    let v = raw_reading(a, now).probes[k];
    assert(v == raw_probe(a, k) as i32);
    assert(raw_probe(a, k) == lo + 256 * hi);
    assert(0 <= lo + 256 * hi < 65536);
    assert(v == lo + 256 * hi);
    assert((lo + 256 * hi) % 256 == lo && (lo + 256 * hi) / 256 == hi) by (nonlinear_arith)
        requires
            0 <= lo < 256,
            0 <= hi < 256,
    ;
}

} // verus!
