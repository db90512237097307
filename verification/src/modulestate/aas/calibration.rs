//! The calibration of a soil module's probes: readings are recorded in dry soil (low)
//! and in wet soil (high), and their averages become the calibration of each probe.
use crate::protos::module::{
    CalibrationError, CalibrationStep, CalibrationStepStatus, SOILCalibrationStepEvent,
    SOILModuleConfig, SOILModuleData, SOILModuleDataView, SOILProbeConfig,
};
use vstd::prelude::*;

verus! {

/// The error of a calibration that cannot end yet.
#[derive(Debug, Clone)]
pub struct CalibrationEx {}

impl CalibrationEx {
    fn new() -> (r: CalibrationEx) {
        CalibrationEx {}
    }
}

pub open spec fn data_views(s: Seq<SOILModuleData>) -> Seq<SOILModuleDataView> {
    s.map_values(|d: SOILModuleData| d@)
}

/// The sum of probe `k` over the readings.
pub open spec fn probe_sum(values: Seq<SOILModuleDataView>, k: int) -> int
    decreases values.len(),
{
    if values.len() == 0 {
        0
    } else {
        probe_sum(values.drop_last(), k) + values.last().probes[k]
    }
}

/// Division rounding toward zero, as Rust divides integers.
pub open spec fn trunc_div(a: int, b: int) -> int {
    if a >= 0 { a / b } else { -((-a) / b) }
}

pub open spec fn fits_i32(x: int) -> bool {
    i32::MIN <= x <= i32::MAX
}

/// Adding the readings up probe by probe, in order, never leaves `i32`, and their count
/// fits in `i32`.
pub open spec fn sums_fit(values: Seq<SOILModuleDataView>) -> bool {
    &&& values.len() <= i32::MAX
    &&& forall|n: int, k: int| 0 <= n <= values.len() && 0 <= k < 8 ==> fits_i32(#[trigger] probe_sum(values.take(n), k))
}

/// The average of probe `k` over the readings, rounded toward zero.
pub open spec fn average_probe(values: Seq<SOILModuleDataView>, k: int) -> int {
    trunc_div(probe_sum(values, k), values.len() as int)
}

/// What a calibration reports: status, step, error, and the dry and wet readings.
pub type CalibrationReport = (CalibrationStepStatus, CalibrationStep, CalibrationError, Seq<SOILModuleDataView>, Seq<SOILModuleDataView>);

/// The report carried by a calibration event.
pub open spec fn event_view(e: SOILCalibrationStepEvent) -> CalibrationReport {
    (e.status, e.step, e.erro, data_views(e.low@), data_views(e.high@))
}

/// The report of a calibration.
pub open spec fn event_of(p: CalibrationProcess) -> CalibrationReport {
    (p.state, p.current_step, p.ex, data_views(p.values_low@), data_views(p.values_high@))
}

/// The report of an event with nothing in it.
pub open spec fn idle_event() -> CalibrationReport {
    (CalibrationStepStatus::AWAITING_STEP_STATUS, CalibrationStep::READY_CALIBRATION, CalibrationError::NONE_ERROR,
        Seq::empty(), Seq::empty())
}

/// `after` is `before` with reading `d` added to the readings of the step being recorded.
pub open spec fn recorded(before: CalibrationProcess, after: CalibrationProcess, d: SOILModuleDataView) -> bool {
    &&& after.previous_step == before.previous_step
    &&& after.current_step == before.current_step
    &&& after.state == before.state
    &&& after.ex == before.ex
    &&& data_views(after.values_low@) == (if before.current_step == CalibrationStep::LOW_CALIBRATION {
        data_views(before.values_low@).push(d) } else { data_views(before.values_low@) })
    &&& data_views(after.values_high@) == (if before.current_step == CalibrationStep::HIGH_CALIBRATION {
        data_views(before.values_high@).push(d) } else { data_views(before.values_high@) })
}

/// `after` is `before` recording `step` from scratch.
pub open spec fn started(before: CalibrationProcess, after: CalibrationProcess, step: CalibrationStep) -> bool {
    &&& after.previous_step == before.current_step
    &&& after.current_step == step
    &&& after.state == before.state
    &&& after.ex == before.ex
    &&& after.values_low@ == (if step == CalibrationStep::LOW_CALIBRATION { Seq::empty() } else { before.values_low@ })
    &&& after.values_high@ == (if step == CalibrationStep::HIGH_CALIBRATION { Seq::empty() } else { before.values_high@ })
}

/// `after` is `before` done recording: waiting for confirmation when both steps have
/// readings, ready again otherwise.
pub open spec fn stopped(before: CalibrationProcess, after: CalibrationProcess) -> bool {
    &&& after.previous_step == before.current_step
    &&& after.current_step == (if before.values_high@.len() > 0 && before.values_low@.len() > 0 {
        CalibrationStep::WAITING_CONFIRMATION_CALIBRATION
    } else {
        CalibrationStep::READY_CALIBRATION
    })
    &&& after.values_low@ == before.values_low@
    &&& after.values_high@ == before.values_high@
    &&& after.state == before.state
    &&& after.ex == before.ex
}

/// `c` calibrates each probe with the average of its dry readings as low and of its wet
/// readings as high.
pub open spec fn averaged_config(p: CalibrationProcess, c: SOILModuleConfig) -> bool {
    forall|k: int| 0 <= k < 8 ==> (#[trigger] c.probes()[k]) == Some(SOILProbeConfig {
        low: average_probe(data_views(p.values_low@), k) as i32,
        high: average_probe(data_views(p.values_high@), k) as i32,
    })
}

/// A running calibration.
pub struct CalibrationProcess {
    pub previous_step: CalibrationStep,
    pub current_step: CalibrationStep,
    pub state: CalibrationStepStatus,
    pub ex: CalibrationError,
    pub values_low: Vec<SOILModuleData>,
    pub values_high: Vec<SOILModuleData>,
}

impl CalibrationProcess {
    /// A calibration waiting for confirmation has readings for both steps.
    pub open spec fn well_formed(&self) -> bool {
        self.current_step == CalibrationStep::WAITING_CONFIRMATION_CALIBRATION ==> (self.values_low@.len() > 0
            && self.values_high@.len() > 0)
    }

    /// The calibration can end: waiting for confirmation, with readings for both steps
    /// whose sums stay within `i32`.
    pub open spec fn can_terminate(&self) -> bool {
        self.current_step == CalibrationStep::WAITING_CONFIRMATION_CALIBRATION ==> {
            &&& self.values_low@.len() > 0
            &&& self.values_high@.len() > 0
            &&& sums_fit(data_views(self.values_low@))
            &&& sums_fit(data_views(self.values_high@))
        }
    }

    pub fn new() -> (r: Self)
        ensures
            r.previous_step == CalibrationStep::READY_CALIBRATION,
            r.current_step == CalibrationStep::READY_CALIBRATION,
            r.state == CalibrationStepStatus::AWAITING_STEP_STATUS,
            r.ex == CalibrationError::NONE_ERROR,
            r.values_low@.len() == 0,
            r.values_high@.len() == 0,
            r.well_formed(),
    {
        CalibrationProcess {
            previous_step: CalibrationStep::READY_CALIBRATION,
            current_step: CalibrationStep::READY_CALIBRATION,
            state: CalibrationStepStatus::AWAITING_STEP_STATUS,
            ex: CalibrationError::NONE_ERROR,
            values_low: Vec::new(),
            values_high: Vec::new(),
        }
    }

    /// Records a reading in the list of the step being recorded, if one is.
    pub fn on_value(&mut self, data: SOILModuleData)
        ensures
            recorded(*old(self), *final(self), data@),
            old(self).well_formed() ==> final(self).well_formed(),
    {
        proof {
            assert(data_views(self.values_low@.push(data)) =~= data_views(self.values_low@).push(data@));
            assert(data_views(self.values_high@.push(data)) =~= data_views(self.values_high@).push(data@));
        }
        if self.current_step == CalibrationStep::LOW_CALIBRATION {
            self.values_low.push(data);
        } else if self.current_step == CalibrationStep::HIGH_CALIBRATION {
            self.values_high.push(data);
        }
    }

    /// Starts recording `step`: the readings of that step start over, and it becomes the
    /// current step.
    pub fn start_record(&mut self, step: CalibrationStep)
        ensures
            started(*old(self), *final(self), step),
            step != CalibrationStep::WAITING_CONFIRMATION_CALIBRATION ==> final(self).well_formed(),
    {
        if step == CalibrationStep::LOW_CALIBRATION {
            self.values_low.clear();
        } else if step == CalibrationStep::HIGH_CALIBRATION {
            self.values_high.clear();
        }
        self.previous_step = self.current_step;
        self.current_step = step;
    }

    /// What the calibration reports: its status, step and error and the recorded readings.
    pub fn get_status(&self) -> (r: SOILCalibrationStepEvent)
        ensures
            event_view(r) == event_of(*self),
    {
        let mut event = SOILCalibrationStepEvent::new();
        event.status = self.state;
        event.step = self.current_step;
        event.erro = self.ex;
        event.low = copy_readings(&self.values_low);
        event.high = copy_readings(&self.values_high);
        event
    }

    /// Stops recording: the calibration waits for confirmation when both steps have
    /// readings, and is ready again otherwise.
    pub fn stop_record(&mut self)
        ensures
            stopped(*old(self), *final(self)),
            final(self).well_formed(),
    {
        self.previous_step = self.current_step;
        if self.values_high.len() > 0 && self.values_low.len() > 0 {
            self.current_step = CalibrationStep::WAITING_CONFIRMATION_CALIBRATION;
        } else {
            self.current_step = CalibrationStep::READY_CALIBRATION;
        }
    }

    /// Ends the calibration: while it waits for confirmation, each probe is calibrated
    /// with the average of its dry readings as low and of its wet readings as high.
    pub fn terminate(&self) -> (r: Result<SOILModuleConfig, CalibrationEx>)
        requires
            self.can_terminate(),
        ensures
            self.current_step != CalibrationStep::WAITING_CONFIRMATION_CALIBRATION ==> r is Err,
            self.current_step == CalibrationStep::WAITING_CONFIRMATION_CALIBRATION ==> (r matches Ok(c)
                && averaged_config(*self, c)),
    {
        if self.current_step == CalibrationStep::WAITING_CONFIRMATION_CALIBRATION {
            let value_low = self.average_values(&self.values_low);
            let value_high = self.average_values(&self.values_high);
            let mut probes: Vec<Option<SOILProbeConfig>> = Vec::new();
            let mut k: usize = 0;
            while k < 8
                invariant
                    k <= 8,
                    probes@.len() == k,
                    value_low@.probes.len() == 8,
                    value_high@.probes.len() == 8,
                    forall|j: int| 0 <= j < 8 ==> value_low@.probes[j] == average_probe(data_views(self.values_low@), j),
                    forall|j: int| 0 <= j < 8 ==> value_high@.probes[j] == average_probe(data_views(self.values_high@), j),
                    forall|j: int| 0 <= j < k ==> (#[trigger] probes@[j]) == Some(SOILProbeConfig {
                        low: average_probe(data_views(self.values_low@), j) as i32,
                        high: average_probe(data_views(self.values_high@), j) as i32,
                    }),
                decreases 8 - k,
            {
                let mut property = SOILProbeConfig { low: 0, high: 0 };
                self.handle_property_config(&mut property, value_low.probe(k), value_high.probe(k));
                probes.push(Some(property));
                k = k + 1;
            }
            let config = SOILModuleConfig::from_probes(&probes);
            return Ok(config);
        }
        Err(CalibrationEx::new())
    }

    fn handle_property_config(&self, property: &mut SOILProbeConfig, value_low: i32, value_high: i32)
        ensures
            *final(property) == (SOILProbeConfig { low: value_low, high: value_high }),
    {
        property.low = value_low;
        property.high = value_high;
    }

    /// The reading whose probes are the averages of the readings.
    fn average_values(&self, values: &Vec<SOILModuleData>) -> (r: SOILModuleData)
        requires
            values@.len() > 0,
            sums_fit(data_views(values@)),
        ensures
            r@.probes.len() == 8,
            forall|k: int| 0 <= k < 8 ==> r@.probes[k] == average_probe(data_views(values@), k),
    {
        let ghost vs = data_views(values@);
        let mut sums: Vec<i32> = vec![0, 0, 0, 0, 0, 0, 0, 0];
        let len = values.len() as i32;
        let mut i: usize = 0;
        proof {
            assert(vs.take(0) =~= Seq::<SOILModuleDataView>::empty());
        }
        while i < values.len()
            invariant
                i <= values@.len(),
                vs == data_views(values@),
                sums_fit(vs),
                sums@.len() == 8,
                forall|k: int| 0 <= k < 8 ==> sums@[k] == probe_sum(vs.take(i as int), k),
            decreases values@.len() - i,
        {
            let ghost pre = vs.take(i as int);
            let ghost nxt = vs.take(i + 1);
            proof {
                assert(nxt.drop_last() =~= pre);
                assert(nxt.last() == values@[i as int]@);
            }
            let mut k: usize = 0;
            while k < 8
                invariant
                    k <= 8,
                    i < values@.len(),
                    vs == data_views(values@),
                    sums_fit(vs),
                    nxt == vs.take(i + 1),
                    pre == vs.take(i as int),
                    nxt.drop_last() == pre,
                    nxt.last() == values@[i as int]@,
                    sums@.len() == 8,
                    forall|j: int| 0 <= j < k ==> sums@[j] == probe_sum(nxt, j),
                    forall|j: int| k <= j < 8 ==> sums@[j] == probe_sum(pre, j),
                decreases 8 - k,
            {
                let v = values[i].probe(k);
                proof {
                    assert(nxt.len() == i + 1);
                    assert(probe_sum(nxt, k as int) == probe_sum(pre, k as int) + v);
                    assert(fits_i32(probe_sum(vs.take(i + 1), k as int)));
                }
                let s = sums[k] + v;
                sums.set(k, s);
                k = k + 1;
            }
            i = i + 1;
        }
        proof {
            assert(vs.take(values@.len() as int) =~= vs);
        }
        let mut averages: Vec<i32> = Vec::new();
        let mut k: usize = 0;
        while k < 8
            invariant
                k <= 8,
                len as int == values@.len(),
                len > 0,
                vs == data_views(values@),
                sums@.len() == 8,
                forall|j: int| 0 <= j < 8 ==> sums@[j] == probe_sum(vs, j),
                averages@.len() == k,
                forall|j: int| 0 <= j < k ==> averages@[j] == average_probe(vs, j),
            decreases 8 - k,
        {
            averages.push(sums[k] / len);
            k = k + 1;
        }
        SOILModuleData::from_probes(&averages, 0, String::new())
    }
}

/// Copies a list of readings.
pub fn copy_readings(v: &Vec<SOILModuleData>) -> (r: Vec<SOILModuleData>)
    ensures
        data_views(r@) == data_views(v@),
{
    let mut r: Vec<SOILModuleData> = Vec::new();
    let mut i: usize = 0;
    while i < v.len()
        invariant
            i <= v@.len(),
            r@.len() == i,
            forall|j: int| 0 <= j < i ==> (#[trigger] r@[j])@ == v@[j]@,
        decreases v@.len() - i,
    {
        r.push(v[i].clone_value());
        i = i + 1;
    }
    assert(data_views(r@) =~= data_views(v@));
    r
}

} // verus!
