//! Decisions taken when a relay outlet receives a new configuration: whether the change
//! is allowed, who owns the outlet afterwards, and what must happen to the relay.
use crate::modulestate::interface::ModuleError;
use crate::protos::module::{
    Actor, ActorType, AlarmConfig, CronItem, CycleConfig, ManualConfig, RelayOutletConfig,
    RelayOutletConfigView, RelayOutletMode,
};
use crate::protos::text_format::{outlet_text, outlet_to_text};
use crate::text::str_eq;
use vstd::prelude::*;

verus! {

/// The id of the actor that replays stored configurations when a module connects.
pub open spec fn handle_state_id() -> Seq<char> {
    "handle_state"@
}

pub open spec fn cron_eq(current: CronItem, previous: CronItem) -> bool {
    current.minute == previous.minute && current.hour == previous.hour
}

pub open spec fn alarm_eq(current: AlarmConfig, previous: AlarmConfig) -> bool {
    cron_eq(current.begining_or_default(), previous.begining_or_default())
        && cron_eq(current.end_or_default(), previous.end_or_default())
}

pub open spec fn cycle_eq(current: CycleConfig, previous: CycleConfig) -> bool {
    current.runningTime == previous.runningTime && current.waitingTime == previous.waitingTime
}

/// The new configuration drives the relay as the previous one does: same mode, and the
/// same manual state, the same alarm window or the same cycle. A virtual outlet never does.
pub open spec fn same_setting(config: RelayOutletConfigView, prev: RelayOutletConfigView) -> bool {
    prev.mode == config.mode && match config.mode {
        RelayOutletMode::MANUAL => config.manual_or_default().state == prev.manual_or_default().state,
        RelayOutletMode::ALARM => alarm_eq(config.alarm_or_default(), prev.alarm_or_default()),
        RelayOutletMode::CYCLE => cycle_eq(config.cycle_or_default(), prev.cycle_or_default()),
        RelayOutletMode::VIRTUAL => false,
    }
}

/// `prev` is owned by an actor other than `actor_id` who does not give way to a user.
pub open spec fn owned_by_other(prev: RelayOutletConfigView, actor_id: Seq<char>) -> bool {
    prev.actor_owner_id != Seq::<char>::empty()
        && prev.actor_owner_type != ActorType::MANUAL_USER_ACTOR
        && prev.actor_owner_id != actor_id
}

/// A change of an outlet's configuration by `actor_id` is refused: the stored configuration
/// is replayed by nobody but the state task, both configurations exist, the change alters
/// how the relay is driven, and another actor who does not give way owns the outlet.
pub open spec fn change_refused(config: Option<RelayOutletConfigView>, prev: Option<RelayOutletConfigView>, actor_id: Seq<char>) -> bool {
    actor_id != handle_state_id() && match (config, prev) {
        (Some(c), Some(p)) => !same_setting(c, p) && owned_by_other(p, actor_id),
        _ => false,
    }
}

fn compare_cron(current: &CronItem, previous: &CronItem) -> (r: bool)
    ensures
        r == cron_eq(*current, *previous),
{
    current.minute == previous.minute && current.hour == previous.hour
}

fn compare_alarm(current: &AlarmConfig, previous: &AlarmConfig) -> (r: bool)
    ensures
        r == alarm_eq(*current, *previous),
{
    compare_cron(&current.get_begining(), &previous.get_begining())
        && compare_cron(&current.get_end(), &previous.get_end())
}

fn compare_cycle(current: &CycleConfig, previous: &CycleConfig) -> (r: bool)
    ensures
        r == cycle_eq(*current, *previous),
{
    current.runningTime == previous.runningTime && current.waitingTime == previous.waitingTime
}

/// Whether `config` drives the relay otherwise than `prev_config`.
pub fn is_changing(config: &RelayOutletConfig, prev_config: &RelayOutletConfig) -> (r: bool)
    ensures
        r == !same_setting(config@, prev_config@),
{
    if prev_config.mode == config.mode {
        match config.mode {
            RelayOutletMode::MANUAL => {
                config.get_manual().state != prev_config.get_manual().state
            },
            RelayOutletMode::ALARM => {
                !compare_alarm(&config.get_alarm(), &prev_config.get_alarm())
            },
            RelayOutletMode::CYCLE => {
                !compare_cycle(&config.get_cycle(), &prev_config.get_cycle())
            },
            _ => true,
        }
    } else {
        true
    }
}

/// The message of a refused change: the owner, the actor, then the requested and the
/// current configuration in text form.
pub open spec fn refused_text(owner: Seq<char>, actor: Seq<char>, config: RelayOutletConfigView, prev: RelayOutletConfigView) -> Seq<char> {
    "cant change property already owned by other actor : "@ + owner + " -> "@ + actor + " , "@
        + outlet_text(config) + " "@ + outlet_text(prev)
}

pub open spec fn opt_view(o: Option<&RelayOutletConfig>) -> Option<RelayOutletConfigView> {
    match o {
        Some(c) => Some(c@),
        None => None,
    }
}

/// Refuses a change of an outlet's configuration that another actor, who does not give
/// way to users, owns.
pub fn authorize_relay_change(
    config: Option<&RelayOutletConfig>,
    prev_config: Option<&RelayOutletConfig>,
    actor: &Actor,
) -> (r: Result<(), ModuleError>)
    ensures
        r is Err <==> change_refused(opt_view(config), opt_view(prev_config), actor.id@),
        r matches Err(e) ==> (e.status == 0 && e.port == -1 && e.module_id@ == Seq::<char>::empty()
            && e.message@ == refused_text(prev_config.unwrap().actor_owner_id@, actor.id@, config.unwrap()@, prev_config.unwrap()@)),
{
    proof {
        reveal_strlit("");
        assert(""@ =~= Seq::<char>::empty());
    }
    if !str_eq(actor.id.as_str(), "handle_state") && config.is_some() && prev_config.is_some() {
        let config = config.unwrap();
        let prev_config = prev_config.unwrap();
        if is_changing(config, prev_config) {
            if !str_eq(prev_config.get_actor_owner_id(), "")
                && prev_config.get_actor_owner_type() != ActorType::MANUAL_USER_ACTOR
                && !str_eq(prev_config.get_actor_owner_id(), actor.id.as_str())
            {
                let mut msg = String::from_str("cant change property already owned by other actor : ");
                msg.append(prev_config.get_actor_owner_id());
                msg.append(" -> ");
                msg.append(actor.get_id());
                msg.append(" , ");
                msg.append(outlet_to_text(config).as_str());
                msg.append(" ");
                msg.append(outlet_to_text(prev_config).as_str());
                return Err(ModuleError::new().message(msg));
            }
        }
    }
    Ok(())
}

} // verus!

verus! {

/// The value kept under `key` in a list of (name, value) pairs: that of the first pair
/// with that name.
pub open spec fn lookup_flag(map: Seq<(String, bool)>, key: Seq<char>) -> Option<bool>
    decreases map.len(),
{
    if map.len() == 0 {
        None
    } else if map[0].0@ == key {
        Some(map[0].1)
    } else {
        lookup_flag(map.subrange(1, map.len() as int), key)
    }
}

/// Finds the value kept under `key` in a list of (name, value) pairs.
pub fn get_flag(map: &Vec<(String, bool)>, key: &str) -> (r: Option<bool>)
    ensures
        r == lookup_flag(map@, key@),
{
    let mut i: usize = 0;
    proof {
        assert(map@.subrange(0, map.len() as int) =~= map@);
    }
    while i < map.len()
        invariant
            i <= map.len(),
            lookup_flag(map@, key@) == lookup_flag(map@.subrange(i as int, map.len() as int), key@),
        decreases map.len() - i,
    {
        let ghost rest = map@.subrange(i as int, map.len() as int);
        proof {
            assert(rest[0] == map@[i as int]);
            assert(rest.subrange(1, rest.len() as int) =~= map@.subrange(i + 1, map.len() as int));
        }
        if str_eq(map[i].0.as_str(), key) {
            return Some(map[i].1);
        }
        i = i + 1;
    }
    proof {
        assert(map@.subrange(i as int, map.len() as int).len() == 0);
    }
    None
}

/// The outlet configuration after an ownership request of `actor` that sets (`true`) or
/// drops (`false`) the ownership of the outlet; the outlet is reset to "manual, off".
pub open spec fn ownership_changed(config: RelayOutletConfigView, take: bool, actor_id: Seq<char>, actor_type: ActorType) -> RelayOutletConfigView {
    RelayOutletConfigView {
        actor_owner_id: if take { actor_id } else { Seq::empty() },
        actor_owner_type: if take { actor_type } else { ActorType::MANUAL_USER_ACTOR },
        manual: Some(ManualConfig::spec_default()),
        ..config
    }
}

/// An ownership request on `property` is refused: the outlet belongs to another actor
/// who does not give way to users.
pub open spec fn ownership_refused(prev: RelayOutletConfigView, actor_id: Seq<char>) -> bool {
    prev.actor_owner_id != Seq::<char>::empty() && prev.actor_owner_id != actor_id
        && prev.actor_owner_type != ActorType::MANUAL_USER_ACTOR
}

/// Applies the ownership request `map` to the outlet named `property`: when the request
/// names it, `actor` takes or drops its ownership, unless another actor who does not give
/// way owns it already; outlets the request does not name are left as they are.
pub fn change_ownership_relay_property(
    property: &str,
    map: &Vec<(String, bool)>,
    config: Option<&RelayOutletConfig>,
    previous_config: Option<&RelayOutletConfig>,
    actor: &Actor,
) -> (r: Result<RelayOutletConfig, ModuleError>)
    requires
        config is Some,
        lookup_flag(map@, property@) is Some ==> previous_config is Some,
    ensures
        match lookup_flag(map@, property@) {
            None => r matches Ok(c) && c@ == config.unwrap()@,
            Some(take) => if ownership_refused(previous_config.unwrap()@, actor.id@) {
                r matches Err(e) && e.message@ == "unauthorized"@ && e.status == 0 && e.port == -1
                    && e.module_id@ == Seq::<char>::empty()
            } else {
                r matches Ok(c) && c@ == ownership_changed(config.unwrap()@, take, actor.id@, actor.field_type)
            },
        },
{
    proof {
        reveal_strlit("");
        assert(""@ =~= Seq::<char>::empty());
    }
    let mut config = config.unwrap().clone_value();
    if let Some(v) = get_flag(map, property) {
        let previous_config = previous_config.unwrap();
        if !str_eq(previous_config.get_actor_owner_id(), "")
            && !str_eq(previous_config.get_actor_owner_id(), actor.id.as_str())
        {
            if previous_config.get_actor_owner_type() != ActorType::MANUAL_USER_ACTOR {
                return Err(ModuleError::new().message(String::from_str("unauthorized")));
            }
        }
        if v {
            config.actor_owner_id = actor.id.clone();
            config.actor_owner_type = actor.field_type;
        } else {
            config.actor_owner_id = String::new();
            config.actor_owner_type = ActorType::MANUAL_USER_ACTOR;
        }
        let mut manual = ManualConfig::new();
        manual.state = false;
        config.set_manual(manual);
    }
    Ok(config)
}

} // verus!

verus! {

/// A background job that drives a relay after its configuration is applied.
#[derive(Clone, Copy, Debug, PartialEq, Eq, Structural)]
pub enum RelayTask {
    /// Switch the relay off after this many seconds.
    Duration(u64),
    /// Follow the day window of the alarm.
    Alarm(AlarmConfig),
    /// Alternate on and off as the cycle says.
    Cycle(CycleConfig),
}

/// What applying an outlet configuration decides: the configuration to keep, whether
/// the job running for the relay must be cancelled, the state to set the relay to, and
/// the job to start for it.
pub struct RelayConfiguration {
    pub config: RelayOutletConfig,
    pub cancel_previous: bool,
    pub state: Option<u8>,
    pub task: Option<RelayTask>,
}

pub struct RelayConfigurationView {
    pub config: RelayOutletConfigView,
    pub cancel_previous: bool,
    pub state: Option<u8>,
    pub task: Option<RelayTask>,
}

impl View for RelayConfiguration {
    type V = RelayConfigurationView;

    open spec fn view(&self) -> RelayConfigurationView {
        RelayConfigurationView {
            config: self.config@,
            cancel_previous: self.cancel_previous,
            state: self.state,
            task: self.task,
        }
    }
}

/// The configuration with `actor` recorded as its owner, unless ownership is being cleared
/// or the stored configuration is merely replayed.
pub open spec fn stamp_owner(c: RelayOutletConfigView, actor_id: Seq<char>, actor_type: ActorType, clear_actor: bool) -> RelayOutletConfigView {
    if !clear_actor && actor_id != handle_state_id() {
        RelayOutletConfigView { actor_owner_id: actor_id, actor_owner_type: actor_type, ..c }
    } else {
        c
    }
}

/// The new configuration will be applied rather than kept as the previous one.
pub open spec fn applies(config: Option<RelayOutletConfigView>, prev: Option<RelayOutletConfigView>) -> bool {
    match config {
        Some(c) => !(prev matches Some(p) && same_setting(c, p)),
        None => false,
    }
}

/// An alarm outlet carries its window and a cycle outlet its cycle, whenever the
/// configuration is applied.
pub open spec fn configure_relay_ready(config: Option<RelayOutletConfigView>, prev: Option<RelayOutletConfigView>) -> bool {
    applies(config, prev) ==> {
        let c = config.unwrap();
        &&& c.mode == RelayOutletMode::ALARM ==> c.alarm is Some
        &&& c.mode == RelayOutletMode::CYCLE ==> c.cycle is Some
    }
}

/// Whether `config` over `prev` is ready to be applied: an alarm outlet that will be
/// applied carries its window, and a cycle outlet its cycle.
pub fn configure_relay_is_ready(config: Option<&RelayOutletConfig>, prev: Option<&RelayOutletConfig>) -> (r: bool)
    ensures
        r == configure_relay_ready(opt_view(config), opt_view(prev)),
{
    match config {
        None => true,
        Some(c) => {
            let same = match prev {
                Some(p) => p.mode == c.mode && match c.mode {
                    RelayOutletMode::MANUAL => c.get_manual().state == p.get_manual().state,
                    RelayOutletMode::ALARM => compare_alarm(&c.get_alarm(), &p.get_alarm()),
                    RelayOutletMode::CYCLE => compare_cycle(&c.get_cycle(), &p.get_cycle()),
                    RelayOutletMode::VIRTUAL => false,
                },
                None => false,
            };
            same || match c.mode {
                RelayOutletMode::ALARM => c.alarm.is_some(),
                RelayOutletMode::CYCLE => c.cycle.is_some(),
                _ => true,
            }
        },
    }
}

/// What applying `config` over `prev` decides.
pub open spec fn configure_relay_spec(
    config: Option<RelayOutletConfigView>,
    prev: Option<RelayOutletConfigView>,
    actor_id: Seq<char>,
    actor_type: ActorType,
    clear_actor: bool,
) -> RelayConfigurationView {
    let keep = |c: RelayOutletConfigView| RelayConfigurationView { config: c, cancel_previous: false, state: None, task: None };
    match config {
        Some(c) => if !applies(config, prev) {
            keep(prev.unwrap())
        } else {
            let owned = stamp_owner(c, actor_id, actor_type, clear_actor);
            match c.mode {
                RelayOutletMode::MANUAL => match c.manual {
                    Some(m) => RelayConfigurationView {
                        config: owned,
                        cancel_previous: true,
                        state: Some(if m.state { 1u8 } else { 0u8 }),
                        task: if m.duration > 0 { Some(RelayTask::Duration(m.duration as u64)) } else { None },
                    },
                    None => RelayConfigurationView { config: owned, cancel_previous: true, state: None, task: None },
                },
                RelayOutletMode::ALARM => RelayConfigurationView {
                    config: owned, cancel_previous: true, state: None, task: Some(RelayTask::Alarm(c.alarm.unwrap())),
                },
                RelayOutletMode::CYCLE => RelayConfigurationView {
                    config: owned, cancel_previous: true, state: None, task: Some(RelayTask::Cycle(c.cycle.unwrap())),
                },
                RelayOutletMode::VIRTUAL => RelayConfigurationView {
                    config: RelayOutletConfigView::spec_default(), cancel_previous: true, state: None, task: None,
                },
            }
        },
        None => match prev {
            Some(p) => keep(p),
            None => keep(RelayOutletConfigView::spec_default()),
        },
    }
}

/// Decides how a relay outlet takes a new configuration `config` over `prev_config`. An
/// unchanged setting keeps the previous configuration and leaves the relay alone;
/// otherwise the relay's running job is cancelled, the owner is recorded, and the mode
/// says the state to set and the job to start.
pub fn configure_relay(
    config: Option<&RelayOutletConfig>,
    prev_config: Option<&RelayOutletConfig>,
    actor: &Actor,
    clear_actor: bool,
) -> (r: Result<RelayConfiguration, ModuleError>)
    requires
        configure_relay_ready(opt_view(config), opt_view(prev_config)),
    ensures
        r matches Ok(d) && d@ == configure_relay_spec(opt_view(config), opt_view(prev_config), actor.id@, actor.field_type, clear_actor),
{
    if config.is_some() {
        let mut config = config.unwrap().clone_value();

        if prev_config.is_some() {
            let prev_config = prev_config.unwrap();
            if prev_config.mode == config.mode {
                match config.mode {
                    RelayOutletMode::MANUAL => {
                        if config.get_manual().state == prev_config.get_manual().state {
                            return Ok(RelayConfiguration { config: prev_config.clone_value(), cancel_previous: false, state: None, task: None });
                        }
                    },
                    RelayOutletMode::ALARM => {
                        if compare_alarm(&config.get_alarm(), &prev_config.get_alarm()) {
                            return Ok(RelayConfiguration { config: prev_config.clone_value(), cancel_previous: false, state: None, task: None });
                        }
                    },
                    RelayOutletMode::CYCLE => {
                        if compare_cycle(&config.get_cycle(), &prev_config.get_cycle()) {
                            return Ok(RelayConfiguration { config: prev_config.clone_value(), cancel_previous: false, state: None, task: None });
                        }
                    },
                    _ => {},
                }
            }
        }

        if !clear_actor {
            if !str_eq(actor.id.as_str(), "handle_state") {
                config.actor_owner_id = actor.id.clone();
                config.actor_owner_type = actor.field_type;
            }
        }

        match config.mode {
            RelayOutletMode::MANUAL => {
                let mut state = None;
                let mut task = None;
                if let Some(manual_config) = config.manual {
                    if manual_config.state == true {
                        state = Some(1u8);
                    } else {
                        state = Some(0u8);
                    }
                    if manual_config.duration > 0 {
                        task = Some(RelayTask::Duration(manual_config.duration as u64));
                    }
                }
                return Ok(RelayConfiguration { config, cancel_previous: true, state, task });
            },
            RelayOutletMode::ALARM => {
                let aconfig = config.alarm.unwrap();
                return Ok(RelayConfiguration { config, cancel_previous: true, state: None, task: Some(RelayTask::Alarm(aconfig)) });
            },
            RelayOutletMode::CYCLE => {
                let rconfig = config.cycle.unwrap();
                return Ok(RelayConfiguration { config, cancel_previous: true, state: None, task: Some(RelayTask::Cycle(rconfig)) });
            },
            RelayOutletMode::VIRTUAL => {
                return Ok(RelayConfiguration { config: RelayOutletConfig::new(), cancel_previous: true, state: None, task: None });
            },
        }
    } else if prev_config.is_some() {
        return Ok(RelayConfiguration { config: prev_config.unwrap().clone_value(), cancel_previous: false, state: None, task: None });
    }
    Ok(RelayConfiguration { config: RelayOutletConfig::new(), cancel_previous: false, state: None, task: None })
}

} // verus!

verus! {

/// Replaying a stored configuration over itself leaves the relay alone: the configuration
/// is kept, no job is cancelled or started and no state is set (a virtual outlet excepted,
/// which is always re-applied).
pub proof fn lemma_replay_is_noop(p: RelayOutletConfigView, actor_id: Seq<char>, actor_type: ActorType, clear_actor: bool)
    requires
        p.mode != RelayOutletMode::VIRTUAL,
    ensures
        configure_relay_spec(Some(p), Some(p), actor_id, actor_type, clear_actor)
            == (RelayConfigurationView { config: p, cancel_previous: false, state: None, task: None }),
{
}

/// The state task, replaying stored configurations, is never refused; and a change that
/// does not alter how the relay is driven is never refused either.
pub proof fn lemma_refusal_needs_a_real_change(config: RelayOutletConfigView, prev: RelayOutletConfigView, actor_id: Seq<char>)
    ensures
        !change_refused(Some(config), Some(prev), handle_state_id()),
        same_setting(config, prev) ==> !change_refused(Some(config), Some(prev), actor_id),
        prev.actor_owner_id == actor_id ==> !change_refused(Some(config), Some(prev), actor_id),
{
}

/// An applied configuration of a physical outlet is owned by the actor who sent it, when
/// ownership is not being cleared and the actor is not the state task replaying it.
pub proof fn lemma_applied_config_is_owned(c: RelayOutletConfigView, prev: Option<RelayOutletConfigView>, actor_id: Seq<char>, actor_type: ActorType)
    requires
        applies(Some(c), prev),
        c.mode != RelayOutletMode::VIRTUAL,
        actor_id != handle_state_id(),
    ensures
        configure_relay_spec(Some(c), prev, actor_id, actor_type, false).config.actor_owner_id == actor_id,
        configure_relay_spec(Some(c), prev, actor_id, actor_type, false).config.actor_owner_type == actor_type,
        configure_relay_spec(Some(c), prev, actor_id, actor_type, false).cancel_previous,
{
}

} // verus!

verus! {

use crate::comboard::ModuleConfig;
use crate::modulestate::relay::physical_relay::{blank_buffer, blank_frame, PhysicalRelay};
use crate::protos::module::outlet_view;
use crate::text::{decimal, usize_to_decimal};

/// An effect that applying a module configuration asks of the task runner.
pub enum RelayCommand {
    /// Cancel the job registered under this relay key, if one is.
    Cancel(String),
    /// Start this job for the relay and register it under the key.
    Start(String, PhysicalRelay, RelayTask),
    /// Send this frame to the module's board.
    Send(ModuleConfig),
}

pub enum RelayCommandView {
    Cancel(Seq<char>),
    Start(Seq<char>, PhysicalRelay, RelayTask),
    Send(i32, Seq<u8>),
}

impl View for RelayCommand {
    type V = RelayCommandView;

    open spec fn view(&self) -> RelayCommandView {
        match self {
            RelayCommand::Cancel(k) => RelayCommandView::Cancel(k@),
            RelayCommand::Start(k, r, t) => RelayCommandView::Start(k@, *r, *t),
            RelayCommand::Send(m) => RelayCommandView::Send(m.port, m.data@),
        }
    }
}

pub open spec fn commands_view(s: Seq<RelayCommand>) -> Seq<RelayCommandView> {
    s.map_values(|c: RelayCommand| c@)
}

/// Refusal of the change at outlet `i` by `actor_id`.
pub open spec fn refused_at(config: Seq<Option<RelayOutletConfigView>>, prev: Seq<Option<RelayOutletConfigView>>, actor_id: Seq<char>, i: int) -> bool {
    change_refused(config[i], prev[i], actor_id)
}

/// Checks, outlet by outlet in port order, that `actor` may change each of them; the
/// first refusal is the error.
pub fn authorize_relays(
    config: &Vec<Option<RelayOutletConfig>>,
    prev: &Vec<Option<RelayOutletConfig>>,
    actor: &Actor,
) -> (r: Result<(), ModuleError>)
    requires
        config@.len() == prev@.len(),
    ensures
        ({
            let cs = config@.map_values(|o: Option<RelayOutletConfig>| outlet_view(o));
            let ps = prev@.map_values(|o: Option<RelayOutletConfig>| outlet_view(o));
            &&& r is Ok <==> forall|i: int| 0 <= i < cs.len() ==> !refused_at(cs, ps, actor.id@, i)
            &&& r matches Err(e) ==> exists|i: int| 0 <= i < cs.len() && refused_at(cs, ps, actor.id@, i)
                && (forall|j: int| 0 <= j < i ==> !refused_at(cs, ps, actor.id@, j))
                && e.message@ == refused_text(ps[i].unwrap().actor_owner_id, actor.id@, cs[i].unwrap(), ps[i].unwrap())
        }),
{
    let ghost cs = config@.map_values(|o: Option<RelayOutletConfig>| outlet_view(o));
    let ghost ps = prev@.map_values(|o: Option<RelayOutletConfig>| outlet_view(o));
    let mut i: usize = 0;
    while i < config.len()
        invariant
            i <= config@.len(),
            config@.len() == prev@.len(),
            cs == config@.map_values(|o: Option<RelayOutletConfig>| outlet_view(o)),
            ps == prev@.map_values(|o: Option<RelayOutletConfig>| outlet_view(o)),
            forall|j: int| 0 <= j < i ==> !refused_at(cs, ps, actor.id@, j),
        decreases config@.len() - i,
    {
        let c = match &config[i] { Some(c) => Some(c), None => None };
        let p = match &prev[i] { Some(p) => Some(p), None => None };
        proof {
            assert(opt_view(c) == cs[i as int]);
            assert(opt_view(p) == ps[i as int]);
        }
        let res = authorize_relay_change(c, p, actor);
        if let Err(e) = res {
            proof {
                assert(refused_at(cs, ps, actor.id@, i as int));
                assert(ps[i as int].unwrap() == p.unwrap()@);
                assert(cs[i as int].unwrap() == c.unwrap()@);
            }
            return Err(e);
        }
        i = i + 1;
    }
    Ok(())
}

/// The decision for outlet `i`.
pub open spec fn decision_at(cs: Seq<Option<RelayOutletConfigView>>, ps: Seq<Option<RelayOutletConfigView>>, actor_id: Seq<char>, actor_type: ActorType, clear_actor: bool, i: int) -> RelayConfigurationView {
    configure_relay_spec(cs[i], ps[i], actor_id, actor_type, clear_actor)
}

/// The frame that sets each outlet to the state its decision asks for.
pub open spec fn frame_of(ds: Seq<RelayConfigurationView>) -> Seq<u8> {
    Seq::new(8, |i: int| match ds[i].state { Some(s) => s, None => 255u8 })
}

/// The jobs to cancel and start for outlet `i` of the module at `port`.
pub open spec fn slot_commands(port: i32, i: int, d: RelayConfigurationView) -> Seq<RelayCommandView> {
    (if d.cancel_previous { seq![RelayCommandView::Cancel(decimal(i as nat))] } else { Seq::empty() })
    + match d.task {
        Some(t) => seq![RelayCommandView::Start(decimal(i as nat), PhysicalRelay { port, action_port: i as usize }, t)],
        None => Seq::empty(),
    }
}

/// The jobs to cancel and start for the first `n` outlets, in port order.
pub open spec fn commands_upto(port: i32, ds: Seq<RelayConfigurationView>, n: int) -> Seq<RelayCommandView>
    decreases n,
{
    if n <= 0 {
        Seq::empty()
    } else {
        commands_upto(port, ds, n - 1) + slot_commands(port, n - 1, ds[n - 1])
    }
}

/// Everything applying the decisions `ds` to the module at `port` asks for: the jobs of
/// each outlet in port order, then the frame with the new states.
pub open spec fn module_commands(port: i32, ds: Seq<RelayConfigurationView>) -> Seq<RelayCommandView> {
    commands_upto(port, ds, 8).push(RelayCommandView::Send(port, frame_of(ds)))
}

/// Applies each outlet configuration of the module at `port` over the previous one, in
/// port order: returns the outlets to keep and what the task runner must do.
pub fn configure_relays(
    port: i32,
    config: &Vec<Option<RelayOutletConfig>>,
    prev: &Vec<Option<RelayOutletConfig>>,
    actor: &Actor,
    clear_actor: bool,
) -> (r: (Vec<Option<RelayOutletConfig>>, Vec<RelayCommand>))
    requires
        config@.len() == 8,
        prev@.len() == 8,
        forall|i: int| 0 <= i < 8 ==> configure_relay_ready(outlet_view(#[trigger] config@[i]), outlet_view(prev@[i])),
    ensures
        ({
            let cs = config@.map_values(|o: Option<RelayOutletConfig>| outlet_view(o));
            let ps = prev@.map_values(|o: Option<RelayOutletConfig>| outlet_view(o));
            let ds = Seq::new(8, |i: int| decision_at(cs, ps, actor.id@, actor.field_type, clear_actor, i));
            &&& r.0@.len() == 8
            &&& forall|i: int| 0 <= i < 8 ==> outlet_view(#[trigger] r.0@[i]) == Some(ds[i].config)
            &&& commands_view(r.1@) == module_commands(port, ds)
        }),
{
    let ghost cs = config@.map_values(|o: Option<RelayOutletConfig>| outlet_view(o));
    let ghost ps = prev@.map_values(|o: Option<RelayOutletConfig>| outlet_view(o));
    let ghost ds = Seq::new(8, |i: int| decision_at(cs, ps, actor.id@, actor.field_type, clear_actor, i));
    let mut slots: Vec<Option<RelayOutletConfig>> = Vec::new();
    let mut commands: Vec<RelayCommand> = Vec::new();
    let mut buffer = blank_buffer();
    let mut i: usize = 0;
    while i < 8
        invariant
            i <= 8,
            config@.len() == 8,
            prev@.len() == 8,
            cs == config@.map_values(|o: Option<RelayOutletConfig>| outlet_view(o)),
            ps == prev@.map_values(|o: Option<RelayOutletConfig>| outlet_view(o)),
            ds == Seq::new(8, |i: int| decision_at(cs, ps, actor.id@, actor.field_type, clear_actor, i)),
            forall|k: int| 0 <= k < 8 ==> configure_relay_ready(outlet_view(#[trigger] config@[k]), outlet_view(prev@[k])),
            slots@.len() == i,
            forall|k: int| 0 <= k < i ==> outlet_view(#[trigger] slots@[k]) == Some(ds[k].config),
            buffer@.len() == 8,
            forall|k: int| 0 <= k < 8 ==> buffer@[k] == (if k < i { match ds[k].state { Some(s) => s, None => 255u8 } } else { 255u8 }),
            commands_view(commands@) == commands_upto(port, ds, i as int),
        decreases 8 - i,
    {
        let c = match &config[i] { Some(c) => Some(c), None => None };
        let p = match &prev[i] { Some(p) => Some(p), None => None };
        proof {
            assert(opt_view(c) == cs[i as int]);
            assert(opt_view(p) == ps[i as int]);
            assert(configure_relay_ready(outlet_view(config@[i as int]), outlet_view(prev@[i as int])));
        }
        let decision = configure_relay(c, p, actor, clear_actor).unwrap();
        proof {
            assert(decision@ == ds[i as int]);
        }
        let ghost cmds0 = commands_view(commands@);
        if decision.cancel_previous {
            commands.push(RelayCommand::Cancel(usize_to_decimal(i)));
        }
        if let Some(t) = decision.task {
            commands.push(RelayCommand::Start(usize_to_decimal(i), PhysicalRelay { port, action_port: i }, t));
        }
        proof {
            assert(commands_view(commands@) =~= cmds0 + slot_commands(port, i as int, ds[i as int]));
        }
        if let Some(s) = decision.state {
            buffer.set(i, s);
        }
        slots.push(Some(decision.config));
        i = i + 1;
    }
    let frame = ModuleConfig { port, data: buffer };
    proof {
        assert(frame.data@ =~= frame_of(ds));
    }
    let ghost cmds1 = commands_view(commands@);
    commands.push(RelayCommand::Send(frame));
    proof {
        assert(commands_view(commands@) =~= cmds1.push(RelayCommandView::Send(port, frame_of(ds))));
    }
    (slots, commands)
}

/// A new configuration is kept back in favour of the previous one only when it drives
/// the relay as the previous one does: the same mode, other than virtual, and the same
/// manual state, the same alarm window (begin and end, hour and minute) or the same cycle
/// (both its running and its waiting time).
pub proof fn lemma_kept_only_when_unchanged(
    c: RelayOutletConfigView,
    p: RelayOutletConfigView,
    actor_id: Seq<char>,
    actor_type: ActorType,
    clear_actor: bool,
)
    ensures
        ({
            let d = configure_relay_spec(Some(c), Some(p), actor_id, actor_type, clear_actor);
            !d.cancel_previous ==> {
                &&& d.config == p
                &&& d.task is None
                &&& d.state is None
                &&& c.mode == p.mode
                &&& c.mode != RelayOutletMode::VIRTUAL
                &&& c.mode == RelayOutletMode::MANUAL ==> c.manual_or_default().state == p.manual_or_default().state
                &&& c.mode == RelayOutletMode::ALARM ==> {
                    let (ca, pa) = (c.alarm_or_default(), p.alarm_or_default());
                    &&& ca.begining_or_default().hour == pa.begining_or_default().hour
                    &&& ca.begining_or_default().minute == pa.begining_or_default().minute
                    &&& ca.end_or_default().hour == pa.end_or_default().hour
                    &&& ca.end_or_default().minute == pa.end_or_default().minute
                }
                &&& c.mode == RelayOutletMode::CYCLE ==> {
                    &&& c.cycle_or_default().runningTime == p.cycle_or_default().runningTime
                    &&& c.cycle_or_default().waitingTime == p.cycle_or_default().waitingTime
                }
            }
        }),
{
}

/// A cycle outlet whose running or waiting time differs from the previous cycle's is
/// applied: the previous job is cancelled, the outlet passes to the actor unless owners
/// are being cleared or the state task replays it, and a cycle job starts with the new
/// cycle.
pub proof fn lemma_changed_cycle_applied(
    c: RelayOutletConfigView,
    p: RelayOutletConfigView,
    actor_id: Seq<char>,
    actor_type: ActorType,
    clear_actor: bool,
)
    requires
        c.mode == RelayOutletMode::CYCLE,
        c.cycle is Some,
        p.mode != RelayOutletMode::CYCLE
            || c.cycle.unwrap().runningTime != p.cycle_or_default().runningTime
            || c.cycle.unwrap().waitingTime != p.cycle_or_default().waitingTime,
    ensures
        ({
            let d = configure_relay_spec(Some(c), Some(p), actor_id, actor_type, clear_actor);
            &&& d.cancel_previous
            &&& d.state is None
            &&& d.task == Some(RelayTask::Cycle(c.cycle.unwrap()))
            &&& d.config.mode == RelayOutletMode::CYCLE
            &&& d.config.cycle == c.cycle
            &&& (!clear_actor && actor_id != handle_state_id()) ==> d.config.actor_owner_id == actor_id
        }),
{
}

} // verus!
