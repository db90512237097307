//! The message types the module state machine reads and writes. Each optional
//! sub-message reads as its default value when it is absent, as protobuf's
//! getters do.
use vstd::prelude::*;

verus! {

/// Who owns a relay property.
#[derive(Clone, Copy, Debug, PartialEq, Eq, Structural)]
#[allow(non_camel_case_types)]
pub enum ActorType {
    MANUAL_USER_ACTOR,
    ENV_CONTROLLER_ACTOR,
}

/// The identity of whoever issues a configuration.
#[derive(Clone, Debug)]
pub struct Actor {
    pub id: String,
    pub field_type: ActorType,
}

impl Actor {
    pub fn new() -> (r: Actor)
        ensures
            r.id@ == Seq::<char>::empty(),
            r.field_type == ActorType::MANUAL_USER_ACTOR,
    {
        Actor { id: String::new(), field_type: ActorType::MANUAL_USER_ACTOR }
    }

    pub fn get_id(&self) -> (r: &str)
        ensures
            r@ == self.id@,
    {
        self.id.as_str()
    }

    pub fn clone_value(&self) -> (r: Actor)
        ensures
            r.id@ == self.id@,
            r.field_type == self.field_type,
    {
        Actor { id: self.id.clone(), field_type: self.field_type }
    }
}

/// How a relay outlet is driven.
#[derive(Clone, Copy, Debug, PartialEq, Eq, Structural)]
#[allow(non_camel_case_types)]
pub enum RelayOutletMode {
    MANUAL,
    ALARM,
    CYCLE,
    VIRTUAL,
}

/// A fixed on/off state, held for `duration` seconds when it is positive.
#[derive(Clone, Copy, Debug, PartialEq, Eq, Structural)]
pub struct ManualConfig {
    pub state: bool,
    pub duration: i32,
}

impl ManualConfig {
    pub open spec fn spec_default() -> ManualConfig {
        ManualConfig { state: false, duration: 0 }
    }

    pub fn new() -> (r: ManualConfig)
        ensures
            r == ManualConfig::spec_default(),
    {
        ManualConfig { state: false, duration: 0 }
    }
}

/// A time of day.
#[derive(Clone, Copy, Debug, PartialEq, Eq, Structural)]
pub struct CronItem {
    pub hour: i32,
    pub minute: i32,
}

impl CronItem {
    pub open spec fn spec_default() -> CronItem {
        CronItem { hour: 0, minute: 0 }
    }
}

/// The day window of an alarm relay: on from `begining`, off from `end`.
#[derive(Clone, Copy, Debug, PartialEq, Eq, Structural)]
pub struct AlarmConfig {
    pub begining: Option<CronItem>,
    pub end: Option<CronItem>,
}

impl AlarmConfig {
    pub open spec fn spec_default() -> AlarmConfig {
        AlarmConfig { begining: None, end: None }
    }

    pub open spec fn begining_or_default(self) -> CronItem {
        match self.begining {
            Some(c) => c,
            None => CronItem::spec_default(),
        }
    }

    pub open spec fn end_or_default(self) -> CronItem {
        match self.end {
            Some(c) => c,
            None => CronItem::spec_default(),
        }
    }

    pub fn get_begining(&self) -> (r: CronItem)
        ensures
            r == self.begining_or_default(),
    {
        match self.begining {
            Some(c) => c,
            None => CronItem { hour: 0, minute: 0 },
        }
    }

    pub fn get_end(&self) -> (r: CronItem)
        ensures
            r == self.end_or_default(),
    {
        match self.end {
            Some(c) => c,
            None => CronItem { hour: 0, minute: 0 },
        }
    }
}

/// A cycling relay: on for `runningTime` seconds, off for `waitingTime` seconds.
#[derive(Clone, Copy, Debug, PartialEq, Eq, Structural)]
#[allow(non_snake_case)]
pub struct CycleConfig {
    pub waitingTime: i32,
    pub runningTime: i32,
}

impl CycleConfig {
    pub open spec fn spec_default() -> CycleConfig {
        CycleConfig { waitingTime: 0, runningTime: 0 }
    }
}

/// The configuration of one relay outlet, with the actor that owns it.
#[derive(Clone, Debug)]
pub struct RelayOutletConfig {
    pub mode: RelayOutletMode,
    pub manual: Option<ManualConfig>,
    pub alarm: Option<AlarmConfig>,
    pub cycle: Option<CycleConfig>,
    pub actor_owner_id: String,
    pub actor_owner_type: ActorType,
    pub timestamp: i32,
}

/// The abstract value of a relay outlet configuration.
pub struct RelayOutletConfigView {
    pub mode: RelayOutletMode,
    pub manual: Option<ManualConfig>,
    pub alarm: Option<AlarmConfig>,
    pub cycle: Option<CycleConfig>,
    pub actor_owner_id: Seq<char>,
    pub actor_owner_type: ActorType,
    pub timestamp: i32,
}

impl View for RelayOutletConfig {
    type V = RelayOutletConfigView;

    open spec fn view(&self) -> RelayOutletConfigView {
        RelayOutletConfigView {
            mode: self.mode,
            manual: self.manual,
            alarm: self.alarm,
            cycle: self.cycle,
            actor_owner_id: self.actor_owner_id@,
            actor_owner_type: self.actor_owner_type,
            timestamp: self.timestamp,
        }
    }
}

impl RelayOutletConfigView {
    pub open spec fn spec_default() -> RelayOutletConfigView {
        RelayOutletConfigView {
            mode: RelayOutletMode::MANUAL,
            manual: None,
            alarm: None,
            cycle: None,
            actor_owner_id: Seq::empty(),
            actor_owner_type: ActorType::MANUAL_USER_ACTOR,
            timestamp: 0,
        }
    }

    pub open spec fn manual_or_default(self) -> ManualConfig {
        match self.manual {
            Some(m) => m,
            None => ManualConfig::spec_default(),
        }
    }

    pub open spec fn alarm_or_default(self) -> AlarmConfig {
        match self.alarm {
            Some(a) => a,
            None => AlarmConfig::spec_default(),
        }
    }

    pub open spec fn cycle_or_default(self) -> CycleConfig {
        match self.cycle {
            Some(c) => c,
            None => CycleConfig::spec_default(),
        }
    }
}

impl RelayOutletConfig {
    pub fn new() -> (r: RelayOutletConfig)
        ensures
            r@ == RelayOutletConfigView::spec_default(),
    {
        RelayOutletConfig {
            mode: RelayOutletMode::MANUAL,
            manual: None,
            alarm: None,
            cycle: None,
            actor_owner_id: String::new(),
            actor_owner_type: ActorType::MANUAL_USER_ACTOR,
            timestamp: 0,
        }
    }

    pub fn clone_value(&self) -> (r: RelayOutletConfig)
        ensures
            r@ == self@,
    {
        RelayOutletConfig {
            mode: self.mode,
            manual: self.manual,
            alarm: self.alarm,
            cycle: self.cycle,
            actor_owner_id: self.actor_owner_id.clone(),
            actor_owner_type: self.actor_owner_type,
            timestamp: self.timestamp,
        }
    }

    pub fn get_manual(&self) -> (r: ManualConfig)
        ensures
            r == self@.manual_or_default(),
    {
        match self.manual {
            Some(m) => m,
            None => ManualConfig { state: false, duration: 0 },
        }
    }

    pub fn get_alarm(&self) -> (r: AlarmConfig)
        ensures
            r == self@.alarm_or_default(),
    {
        match self.alarm {
            Some(a) => a,
            None => AlarmConfig { begining: None, end: None },
        }
    }

    pub fn get_cycle(&self) -> (r: CycleConfig)
        ensures
            r == self@.cycle_or_default(),
    {
        match self.cycle {
            Some(c) => c,
            None => CycleConfig { waitingTime: 0, runningTime: 0 },
        }
    }

    pub fn set_manual(&mut self, manual: ManualConfig)
        ensures
            final(self)@ == (RelayOutletConfigView { manual: Some(manual), ..old(self)@ }),
    {
        self.manual = Some(manual);
    }

    pub fn get_actor_owner_id(&self) -> (r: &str)
        ensures
            r@ == self.actor_owner_id@,
    {
        self.actor_owner_id.as_str()
    }

    pub fn get_actor_owner_type(&self) -> (r: ActorType)
        ensures
            r == self.actor_owner_type,
    {
        self.actor_owner_type
    }
}

/// The observed state of a relay outlet and the time it last changed.
#[derive(Clone, Copy, Debug, PartialEq, Eq, Structural)]
pub struct RelayOutletData {
    pub state: bool,
    pub timestamp: i32,
}

impl RelayOutletData {
    pub open spec fn spec_default() -> RelayOutletData {
        RelayOutletData { state: false, timestamp: 0 }
    }

    pub fn new() -> (r: RelayOutletData)
        ensures
            r == RelayOutletData::spec_default(),
    {
        RelayOutletData { state: false, timestamp: 0 }
    }
}

} // verus!

verus! {

/// The view of an optional outlet configuration.
pub open spec fn outlet_view(o: Option<RelayOutletConfig>) -> Option<RelayOutletConfigView> {
    match o {
        Some(c) => Some(c@),
        None => None,
    }
}

/// Copies an optional outlet configuration.
pub fn clone_outlet(o: &Option<RelayOutletConfig>) -> (r: Option<RelayOutletConfig>)
    ensures
        outlet_view(r) == outlet_view(*o),
{
    match o {
        Some(c) => Some(c.clone_value()),
        None => None,
    }
}

/// The configuration of an eight-outlet relay module.
#[derive(Clone, Debug)]
pub struct RelayModuleConfig {
    pub p0: Option<RelayOutletConfig>,
    pub p1: Option<RelayOutletConfig>,
    pub p2: Option<RelayOutletConfig>,
    pub p3: Option<RelayOutletConfig>,
    pub p4: Option<RelayOutletConfig>,
    pub p5: Option<RelayOutletConfig>,
    pub p6: Option<RelayOutletConfig>,
    pub p7: Option<RelayOutletConfig>,
}

impl RelayModuleConfig {
    pub fn new() -> (r: RelayModuleConfig)
        ensures
            r.slots() == Seq::new(8, |_i: int| None::<RelayOutletConfigView>),
    {
        let r = RelayModuleConfig { p0: None, p1: None, p2: None, p3: None, p4: None, p5: None, p6: None, p7: None };
        assert(r.slots() =~= Seq::new(8, |_i: int| None::<RelayOutletConfigView>));
        r
    }

    /// The outlets in port order.
    pub open spec fn slots(&self) -> Seq<Option<RelayOutletConfigView>> {
        seq![outlet_view(self.p0), outlet_view(self.p1), outlet_view(self.p2), outlet_view(self.p3),
             outlet_view(self.p4), outlet_view(self.p5), outlet_view(self.p6), outlet_view(self.p7)]
    }

    /// The outlets in port order.
    pub fn to_slots(&self) -> (r: Vec<Option<RelayOutletConfig>>)
        ensures
            r@.len() == 8,
            forall|i: int| 0 <= i < 8 ==> outlet_view(#[trigger] r@[i]) == self.slots()[i],
    {
        let mut v = Vec::new();
        v.push(clone_outlet(&self.p0));
        v.push(clone_outlet(&self.p1));
        v.push(clone_outlet(&self.p2));
        v.push(clone_outlet(&self.p3));
        v.push(clone_outlet(&self.p4));
        v.push(clone_outlet(&self.p5));
        v.push(clone_outlet(&self.p6));
        v.push(clone_outlet(&self.p7));
        v
    }

    /// The configuration holding these outlets in port order.
    pub fn from_slots(v: Vec<Option<RelayOutletConfig>>) -> (r: RelayModuleConfig)
        requires
            v@.len() == 8,
        ensures
            forall|i: int| 0 <= i < 8 ==> r.slots()[i] == outlet_view(#[trigger] v@[i]),
    {
        let mut v = v;
        let p7 = v.pop().unwrap();
        let p6 = v.pop().unwrap();
        let p5 = v.pop().unwrap();
        let p4 = v.pop().unwrap();
        let p3 = v.pop().unwrap();
        let p2 = v.pop().unwrap();
        let p1 = v.pop().unwrap();
        let p0 = v.pop().unwrap();
        RelayModuleConfig { p0, p1, p2, p3, p4, p5, p6, p7 }
    }

    pub fn clone_value(&self) -> (r: RelayModuleConfig)
        ensures
            r.slots() == self.slots(),
    {
        RelayModuleConfig {
            p0: clone_outlet(&self.p0), p1: clone_outlet(&self.p1), p2: clone_outlet(&self.p2),
            p3: clone_outlet(&self.p3), p4: clone_outlet(&self.p4), p5: clone_outlet(&self.p5),
            p6: clone_outlet(&self.p6), p7: clone_outlet(&self.p7),
        }
    }
}

/// The configuration of a water-control module: three outlets, a drain and four pumps.
#[derive(Clone, Debug)]
pub struct WCModuleConfig {
    pub p0: Option<RelayOutletConfig>,
    pub p1: Option<RelayOutletConfig>,
    pub p2: Option<RelayOutletConfig>,
    pub drain: Option<RelayOutletConfig>,
    pub pump0: Option<RelayOutletConfig>,
    pub pump1: Option<RelayOutletConfig>,
    pub pump2: Option<RelayOutletConfig>,
    pub pump3: Option<RelayOutletConfig>,
}

impl WCModuleConfig {
    pub fn new() -> (r: WCModuleConfig)
        ensures
            r.slots() == Seq::new(8, |_i: int| None::<RelayOutletConfigView>),
    {
        let r = WCModuleConfig { p0: None, p1: None, p2: None, drain: None, pump0: None, pump1: None, pump2: None, pump3: None };
        assert(r.slots() =~= Seq::new(8, |_i: int| None::<RelayOutletConfigView>));
        r
    }

    /// The outlets in port order.
    pub open spec fn slots(&self) -> Seq<Option<RelayOutletConfigView>> {
        seq![outlet_view(self.p0), outlet_view(self.p1), outlet_view(self.p2), outlet_view(self.drain),
             outlet_view(self.pump0), outlet_view(self.pump1), outlet_view(self.pump2), outlet_view(self.pump3)]
    }

    /// The outlets in port order.
    pub fn to_slots(&self) -> (r: Vec<Option<RelayOutletConfig>>)
        ensures
            r@.len() == 8,
            forall|i: int| 0 <= i < 8 ==> outlet_view(#[trigger] r@[i]) == self.slots()[i],
    {
        let mut v = Vec::new();
        v.push(clone_outlet(&self.p0));
        v.push(clone_outlet(&self.p1));
        v.push(clone_outlet(&self.p2));
        v.push(clone_outlet(&self.drain));
        v.push(clone_outlet(&self.pump0));
        v.push(clone_outlet(&self.pump1));
        v.push(clone_outlet(&self.pump2));
        v.push(clone_outlet(&self.pump3));
        v
    }

    /// The configuration holding these outlets in port order.
    pub fn from_slots(v: Vec<Option<RelayOutletConfig>>) -> (r: WCModuleConfig)
        requires
            v@.len() == 8,
        ensures
            forall|i: int| 0 <= i < 8 ==> r.slots()[i] == outlet_view(#[trigger] v@[i]),
    {
        let mut v = v;
        let pump3 = v.pop().unwrap();
        let pump2 = v.pop().unwrap();
        let pump1 = v.pop().unwrap();
        let pump0 = v.pop().unwrap();
        let drain = v.pop().unwrap();
        let p2 = v.pop().unwrap();
        let p1 = v.pop().unwrap();
        let p0 = v.pop().unwrap();
        WCModuleConfig { p0, p1, p2, drain, pump0, pump1, pump2, pump3 }
    }

    pub fn clone_value(&self) -> (r: WCModuleConfig)
        ensures
            r.slots() == self.slots(),
    {
        WCModuleConfig {
            p0: clone_outlet(&self.p0), p1: clone_outlet(&self.p1), p2: clone_outlet(&self.p2),
            drain: clone_outlet(&self.drain), pump0: clone_outlet(&self.pump0), pump1: clone_outlet(&self.pump1),
            pump2: clone_outlet(&self.pump2), pump3: clone_outlet(&self.pump3),
        }
    }
}

/// What an eight-outlet relay module reports: the state of each outlet and when it was read.
#[derive(Clone, Copy, Debug, PartialEq, Eq, Structural)]
pub struct RelayModuleData {
    pub p0: Option<RelayOutletData>,
    pub p1: Option<RelayOutletData>,
    pub p2: Option<RelayOutletData>,
    pub p3: Option<RelayOutletData>,
    pub p4: Option<RelayOutletData>,
    pub p5: Option<RelayOutletData>,
    pub p6: Option<RelayOutletData>,
    pub p7: Option<RelayOutletData>,
    pub timestamp: i32,
}

/// What a water-control module reports.
#[derive(Clone, Copy, Debug, PartialEq, Eq, Structural)]
pub struct WCModuleData {
    pub p0: Option<RelayOutletData>,
    pub p1: Option<RelayOutletData>,
    pub p2: Option<RelayOutletData>,
    pub drain: Option<RelayOutletData>,
    pub pump0: Option<RelayOutletData>,
    pub pump1: Option<RelayOutletData>,
    pub pump2: Option<RelayOutletData>,
    pub pump3: Option<RelayOutletData>,
    pub timestamp: i32,
}

pub open spec fn data_or_default(o: Option<RelayOutletData>) -> RelayOutletData {
    match o {
        Some(d) => d,
        None => RelayOutletData::spec_default(),
    }
}

impl RelayModuleData {
    pub fn new() -> (r: RelayModuleData)
        ensures
            r.slots() == Seq::new(8, |_i: int| None::<RelayOutletData>),
            r.timestamp == 0,
    {
        let r = RelayModuleData { p0: None, p1: None, p2: None, p3: None, p4: None, p5: None, p6: None, p7: None, timestamp: 0 };
        assert(r.slots() =~= Seq::new(8, |_i: int| None::<RelayOutletData>));
        r
    }

    pub open spec fn slots(&self) -> Seq<Option<RelayOutletData>> {
        seq![self.p0, self.p1, self.p2, self.p3, self.p4, self.p5, self.p6, self.p7]
    }

    pub fn to_slots(&self) -> (r: Vec<Option<RelayOutletData>>)
        ensures
            r@ == self.slots(),
    {
        let r = vec![self.p0, self.p1, self.p2, self.p3, self.p4, self.p5, self.p6, self.p7];
        assert(r@ =~= self.slots());
        r
    }

    pub fn from_slots(v: &Vec<Option<RelayOutletData>>, timestamp: i32) -> (r: RelayModuleData)
        requires
            v@.len() == 8,
        ensures
            r.slots() == v@,
            r.timestamp == timestamp,
    {
        let r = RelayModuleData { p0: v[0], p1: v[1], p2: v[2], p3: v[3], p4: v[4], p5: v[5], p6: v[6], p7: v[7], timestamp };
        assert(r.slots() =~= v@);
        r
    }
}

impl WCModuleData {
    pub fn new() -> (r: WCModuleData)
        ensures
            r.slots() == Seq::new(8, |_i: int| None::<RelayOutletData>),
            r.timestamp == 0,
    {
        let r = WCModuleData { p0: None, p1: None, p2: None, drain: None, pump0: None, pump1: None, pump2: None, pump3: None, timestamp: 0 };
        assert(r.slots() =~= Seq::new(8, |_i: int| None::<RelayOutletData>));
        r
    }

    pub open spec fn slots(&self) -> Seq<Option<RelayOutletData>> {
        seq![self.p0, self.p1, self.p2, self.drain, self.pump0, self.pump1, self.pump2, self.pump3]
    }

    pub fn to_slots(&self) -> (r: Vec<Option<RelayOutletData>>)
        ensures
            r@ == self.slots(),
    {
        let r = vec![self.p0, self.p1, self.p2, self.drain, self.pump0, self.pump1, self.pump2, self.pump3];
        assert(r@ =~= self.slots());
        r
    }

    pub fn from_slots(v: &Vec<Option<RelayOutletData>>, timestamp: i32) -> (r: WCModuleData)
        requires
            v@.len() == 8,
        ensures
            r.slots() == v@,
            r.timestamp == timestamp,
    {
        let r = WCModuleData { p0: v[0], p1: v[1], p2: v[2], drain: v[3], pump0: v[4], pump1: v[5], pump2: v[6], pump3: v[7], timestamp };
        assert(r.slots() =~= v@);
        r
    }
}

/// A request to take or drop the ownership of named outlets.
#[derive(Clone, Debug)]
pub struct ModuleActorOwnershipRequest {
    pub property: Vec<(String, bool)>,
}

} // verus!

verus! {

/// The steps of a soil probe calibration.
#[derive(Clone, Copy, Debug, PartialEq, Eq, Structural)]
#[allow(non_camel_case_types)]
pub enum CalibrationStep {
    READY_CALIBRATION,
    LOW_CALIBRATION,
    HIGH_CALIBRATION,
    WAITING_CONFIRMATION_CALIBRATION,
}

/// The status of the current calibration step.
#[derive(Clone, Copy, Debug, PartialEq, Eq, Structural)]
#[allow(non_camel_case_types)]
pub enum CalibrationStepStatus {
    AWAITING_STEP_STATUS,
}

/// The error a calibration reports.
#[derive(Clone, Copy, Debug, PartialEq, Eq, Structural)]
#[allow(non_camel_case_types)]
pub enum CalibrationError {
    NONE_ERROR,
    ALREADY_STARTED_ERROR,
}

/// The eight probe readings of a soil module and when they were taken.
#[derive(Clone, Debug)]
pub struct SOILModuleData {
    pub p0: i32,
    pub p1: i32,
    pub p2: i32,
    pub p3: i32,
    pub p4: i32,
    pub p5: i32,
    pub p6: i32,
    pub p7: i32,
    pub timestamp: i32,
    pub valuetype: String,
}

pub struct SOILModuleDataView {
    pub probes: Seq<i32>,
    pub timestamp: i32,
    pub valuetype: Seq<char>,
}

impl View for SOILModuleData {
    type V = SOILModuleDataView;

    open spec fn view(&self) -> SOILModuleDataView {
        SOILModuleDataView {
            probes: seq![self.p0, self.p1, self.p2, self.p3, self.p4, self.p5, self.p6, self.p7],
            timestamp: self.timestamp,
            valuetype: self.valuetype@,
        }
    }
}

impl SOILModuleData {
    pub fn new() -> (r: SOILModuleData)
        ensures
            r@.probes == Seq::new(8, |_i: int| 0i32),
            r@.timestamp == 0,
            r@.valuetype == Seq::<char>::empty(),
    {
        let r = SOILModuleData { p0: 0, p1: 0, p2: 0, p3: 0, p4: 0, p5: 0, p6: 0, p7: 0, timestamp: 0, valuetype: String::new() };
        assert(r@.probes =~= Seq::new(8, |_i: int| 0i32));
        r
    }

    /// The reading holding these probe values.
    pub fn from_probes(v: &Vec<i32>, timestamp: i32, valuetype: String) -> (r: SOILModuleData)
        requires
            v@.len() == 8,
        ensures
            r@.probes == v@,
            r@.timestamp == timestamp,
            r@.valuetype == valuetype@,
    {
        let r = SOILModuleData { p0: v[0], p1: v[1], p2: v[2], p3: v[3], p4: v[4], p5: v[5], p6: v[6], p7: v[7], timestamp, valuetype };
        assert(r@.probes =~= v@);
        r
    }

    /// Probe `k` of the reading.
    pub fn probe(&self, k: usize) -> (r: i32)
        requires
            k < 8,
        ensures
            r == self@.probes[k as int],
    {
        if k == 0 { self.p0 } else if k == 1 { self.p1 } else if k == 2 { self.p2 } else if k == 3 { self.p3 }
        else if k == 4 { self.p4 } else if k == 5 { self.p5 } else if k == 6 { self.p6 } else { self.p7 }
    }

    pub fn clone_value(&self) -> (r: SOILModuleData)
        ensures
            r@ == self@,
    {
        SOILModuleData {
            p0: self.p0, p1: self.p1, p2: self.p2, p3: self.p3, p4: self.p4, p5: self.p5, p6: self.p6, p7: self.p7,
            timestamp: self.timestamp, valuetype: self.valuetype.clone(),
        }
    }
}

/// The readings of a probe in dry (low) and wet (high) soil.
#[derive(Clone, Copy, Debug, PartialEq, Eq, Structural)]
pub struct SOILProbeConfig {
    pub low: i32,
    pub high: i32,
}

/// The calibration of the eight probes of a soil module.
#[derive(Clone, Copy, Debug, PartialEq, Eq, Structural)]
pub struct SOILModuleConfig {
    pub p0: Option<SOILProbeConfig>,
    pub p1: Option<SOILProbeConfig>,
    pub p2: Option<SOILProbeConfig>,
    pub p3: Option<SOILProbeConfig>,
    pub p4: Option<SOILProbeConfig>,
    pub p5: Option<SOILProbeConfig>,
    pub p6: Option<SOILProbeConfig>,
    pub p7: Option<SOILProbeConfig>,
}

impl SOILModuleConfig {
    pub open spec fn probes(&self) -> Seq<Option<SOILProbeConfig>> {
        seq![self.p0, self.p1, self.p2, self.p3, self.p4, self.p5, self.p6, self.p7]
    }

    pub fn new() -> (r: SOILModuleConfig)
        ensures
            r.probes() == Seq::new(8, |_i: int| None::<SOILProbeConfig>),
    {
        let r = SOILModuleConfig { p0: None, p1: None, p2: None, p3: None, p4: None, p5: None, p6: None, p7: None };
        assert(r.probes() =~= Seq::new(8, |_i: int| None::<SOILProbeConfig>));
        r
    }

    /// The calibration holding these probe calibrations.
    pub fn from_probes(v: &Vec<Option<SOILProbeConfig>>) -> (r: SOILModuleConfig)
        requires
            v@.len() == 8,
        ensures
            r.probes() == v@,
    {
        let r = SOILModuleConfig { p0: v[0], p1: v[1], p2: v[2], p3: v[3], p4: v[4], p5: v[5], p6: v[6], p7: v[7] };
        assert(r.probes() =~= v@);
        r
    }
}

/// What a calibration reports: its status, step and error, and the readings recorded
/// for the dry and the wet step.
#[derive(Clone, Debug)]
pub struct SOILCalibrationStepEvent {
    pub status: CalibrationStepStatus,
    pub step: CalibrationStep,
    pub erro: CalibrationError,
    pub low: Vec<SOILModuleData>,
    pub high: Vec<SOILModuleData>,
}

impl SOILCalibrationStepEvent {
    pub fn new() -> (r: SOILCalibrationStepEvent)
        ensures
            r.status == CalibrationStepStatus::AWAITING_STEP_STATUS,
            r.step == CalibrationStep::READY_CALIBRATION,
            r.erro == CalibrationError::NONE_ERROR,
            r.low@.len() == 0,
            r.high@.len() == 0,
    {
        SOILCalibrationStepEvent {
            status: CalibrationStepStatus::AWAITING_STEP_STATUS,
            step: CalibrationStep::READY_CALIBRATION,
            erro: CalibrationError::NONE_ERROR,
            low: Vec::new(),
            high: Vec::new(),
        }
    }
}

/// A request to move a calibration to another step.
#[derive(Clone, Copy, Debug, PartialEq, Eq, Structural)]
pub struct SOILCalibrationStep {
    pub requested_step: CalibrationStep,
}

} // verus!

verus! {

/// A port of a module that a virtual relay drives (-1 stands for none).
#[derive(Clone, Copy, Debug, PartialEq, Eq, Structural)]
pub struct VirtualRelayItemPin {
    pub property: i32,
}

/// The ports a virtual relay drives on one module.
pub struct VirtualRelayItem {
    pub properties: Vec<VirtualRelayItemPin>,
}

/// The definition of a virtual relay: its name and, for each module by id, the ports it
/// drives there. A module id occurs once.
pub struct VirtualRelay {
    pub name: String,
    pub relays: Vec<(String, VirtualRelayItem)>,
}

/// The module ids of a virtual relay's definition, in order.
pub open spec fn relay_keys(relays: Seq<(String, VirtualRelayItem)>) -> Seq<Seq<char>> {
    relays.map_values(|e: (String, VirtualRelayItem)| e.0@)
}

impl VirtualRelay {
    pub open spec fn keys(&self) -> Seq<Seq<char>> {
        relay_keys(self.relays@)
    }

    /// A module id occurs once among the definition's entries.
    pub open spec fn well_formed(&self) -> bool {
        self.keys().no_duplicates()
    }

    /// Whether no module id occurs twice among the definition's entries.
    pub fn has_unique_keys(&self) -> (r: bool)
        ensures
            r == self.well_formed(),
    {
        let mut keys: Vec<&str> = Vec::new();
        let mut i: usize = 0;
        while i < self.relays.len()
            invariant
                i <= self.relays@.len(),
                keys@.len() == i,
                forall|j: int| 0 <= j < i ==> (#[trigger] keys@[j])@ == self.relays@[j].0@,
            decreases self.relays@.len() - i,
        {
            keys.push(self.relays[i].0.as_str());
            i = i + 1;
        }
        assert(keys@.map_values(|s: &str| s@) =~= self.keys());
        crate::text::texts_unique(&keys)
    }

    pub fn get_name(&self) -> (r: &str)
        ensures
            r@ == self.name@,
    {
        self.name.as_str()
    }
}

/// Whether a virtual relay runs, with a message on why it does not.
pub struct VirtualRelayState {
    pub id: String,
    pub state: bool,
    pub message: String,
}

/// A state change of a virtual relay, with its time.
#[derive(Clone, Copy, Debug, PartialEq, Eq, Structural)]
pub struct VirtualRelayData {
    pub data: RelayOutletData,
    pub timestamp: i32,
}

/// The state of a module plug as the cloud sees it.
#[allow(non_snake_case)]
pub struct ModuleData {
    pub id: String,
    pub plug: bool,
    pub atIndex: i32,
    pub board: String,
    pub boardAddr: String,
}

} // verus!
