//! Environment controllers: rules that, when an alarm zone changes, send configurations
//! to the relays of other modules.
use crate::protos::alarm::{zone_number, AlarmZone};
use crate::protos::module::{RelayOutletConfig, RelayOutletConfigView};
use crate::mainboardstate::error::MainboardError;
use crate::text::{contains_str, str_eq, strs};
use vstd::prelude::*;

verus! {

/// What a controller's resource is.
#[derive(Clone, Copy, Debug, PartialEq, Eq, Structural)]
#[allow(non_camel_case_types)]
pub enum RessourceType {
    /// A property of a module.
    ACTOR_MODULE,
    /// A virtual relay.
    ACTOR_VIRTUAL_RELAY,
}

/// A module output that a controller drives: the controller's name for it, the module id
/// and the property.
#[derive(Clone)]
pub struct MActor {
    pub name: String,
    pub id: String,
    pub property: String,
    pub field_type: RessourceType,
}

/// A module value that a controller watches through its alarm.
#[derive(Clone)]
pub struct MObserver {
    pub name: String,
    pub id: String,
    pub property: String,
    pub field_type: RessourceType,
}

/// The conditions of a static controller.
#[derive(Clone)]
pub struct StaticControllerConfig {
    pub conditions: Vec<SCConditionActor>,
}

/// An environment controller: what it watches, what it drives, and how.
#[derive(Clone)]
pub struct EnvironmentControllerConfiguration {
    pub id: String,
    pub observers: Vec<MObserver>,
    pub actors: Vec<MActor>,
    pub implementation: Option<StaticControllerConfig>,
}

/// The configuration an actor takes in each alarm zone, by zone number.
#[derive(Clone)]
pub struct SCActorAction {
    pub config: Vec<(i32, RelayOutletConfig)>,
}

/// What a static controller does on a condition: for each actor, by name, its action.
#[derive(Clone)]
pub struct SCConditionActor {
    pub actions: Vec<(String, SCActorAction)>,
}

/// The static controller: a fixed configuration per alarm zone.
pub struct StaticControllerImplementation {}

impl StaticControllerImplementation {
    pub fn new() -> (r: StaticControllerImplementation) {
        StaticControllerImplementation {}
    }
}

/// The index of the first actor named `name` from index `k` on.
pub open spec fn actor_from(actors: Seq<MActor>, name: Seq<char>, k: int) -> Option<int>
    decreases actors.len() - k,
{
    if k < 0 || k >= actors.len() {
        None
    } else if actors[k].name@ == name {
        Some(k)
    } else {
        actor_from(actors, name, k + 1)
    }
}

/// The index of the first configuration for zone number `zone` from index `k` on.
pub open spec fn zone_from(config: Seq<(i32, RelayOutletConfig)>, zone: i32, k: int) -> Option<int>
    decreases config.len() - k,
{
    if k < 0 || k >= config.len() {
        None
    } else if config[k].0 == zone {
        Some(k)
    } else {
        zone_from(config, zone, k + 1)
    }
}

/// What one action of a condition sends in `zone`: the actor's module and property with
/// the configuration for that zone, when both the actor and the configuration exist.
pub open spec fn action_config(actors: Seq<MActor>, zone: AlarmZone, action: (String, SCActorAction))
    -> Option<(Seq<char>, Seq<char>, RelayOutletConfigView)> {
    match (actor_from(actors, action.0@, 0), zone_from(action.1.config@, zone_number(zone), 0)) {
        (Some(a), Some(c)) => Some((actors[a].id@, actors[a].property@, action.1.config@[c].1@)),
        _ => None,
    }
}

/// The configurations the first `n` actions of a condition send in `zone`, in order.
pub open spec fn configs_for_event(actors: Seq<MActor>, zone: AlarmZone, actions: Seq<(String, SCActorAction)>, n: int)
    -> Seq<(Seq<char>, Seq<char>, RelayOutletConfigView)>
    decreases n,
{
    if n <= 0 {
        Seq::empty()
    } else {
        let rest = configs_for_event(actors, zone, actions, n - 1);
        match action_config(actors, zone, actions[n - 1]) {
            Some(c) => rest.push(c),
            None => rest,
        }
    }
}

pub open spec fn sent_view(s: Seq<(String, String, RelayOutletConfig)>) -> Seq<(Seq<char>, Seq<char>, RelayOutletConfigView)> {
    s.map_values(|e: (String, String, RelayOutletConfig)| (e.0@, e.1@, e.2@))
}

fn find_actor(actors: &Vec<MActor>, name: &str) -> (r: Option<usize>)
    ensures
        match r {
            Some(i) => i < actors@.len() && actor_from(actors@, name@, 0) == Some(i as int),
            None => actor_from(actors@, name@, 0) is None,
        },
{
    let mut i: usize = 0;
    while i < actors.len()
        invariant
            i <= actors@.len(),
            actor_from(actors@, name@, 0) == actor_from(actors@, name@, i as int),
        decreases actors@.len() - i,
    {
        if str_eq(actors[i].name.as_str(), name) {
            return Some(i);
        }
        i = i + 1;
    }
    None
}

fn find_zone(config: &Vec<(i32, RelayOutletConfig)>, zone: i32) -> (r: Option<usize>)
    ensures
        match r {
            Some(i) => i < config@.len() && zone_from(config@, zone, 0) == Some(i as int),
            None => zone_from(config@, zone, 0) is None,
        },
{
    let mut i: usize = 0;
    while i < config.len()
        invariant
            i <= config@.len(),
            zone_from(config@, zone, 0) == zone_from(config@, zone, i as int),
        decreases config@.len() - i,
    {
        if config[i].0 == zone {
            return Some(i);
        }
        i = i + 1;
    }
    None
}

/// The configurations that a condition sends when its alarm enters `zone`: for each of
/// its actions in order, the actor's module and property with the configuration set for
/// that zone; an action whose actor or zone configuration is missing sends nothing.
pub fn get_config_for_event(actors: &Vec<MActor>, zone: AlarmZone, action: &SCConditionActor)
    -> (r: Vec<(String, String, RelayOutletConfig)>)
    ensures
        sent_view(r@) == configs_for_event(actors@, zone, action.actions@, action.actions@.len() as int),
{
    let index = zone.value();
    let mut r: Vec<(String, String, RelayOutletConfig)> = Vec::new();
    let mut i: usize = 0;
    while i < action.actions.len()
        invariant
            i <= action.actions@.len(),
            index == zone_number(zone),
            sent_view(r@) == configs_for_event(actors@, zone, action.actions@, i as int),
        decreases action.actions@.len() - i,
    {
        let entry = &action.actions[i];
        match find_actor(actors, entry.0.as_str()) {
            Some(a) => match find_zone(&entry.1.config, index) {
                Some(c) => {
                    let item = (actors[a].id.clone(), actors[a].property.clone(), entry.1.config[c].1.clone_value());
                    proof {
                        assert(sent_view(r@.push(item)) =~= sent_view(r@).push((item.0@, item.1@, item.2@)));
                    }
                    r.push(item);
                },
                None => {},
            },
            None => {},
        }
        i = i + 1;
    }
    r
}

/// What the conditions of a static controller send, the first `n` of them, in order.
pub open spec fn reaction(actors: Seq<MActor>, zone: AlarmZone, conditions: Seq<SCConditionActor>, n: int)
    -> Seq<(Seq<char>, Seq<char>, RelayOutletConfigView)>
    decreases n,
{
    if n <= 0 {
        Seq::empty()
    } else {
        reaction(actors, zone, conditions, n - 1)
            + configs_for_event(actors, zone, conditions[n - 1].actions@, conditions[n - 1].actions@.len() as int)
    }
}

impl StaticControllerImplementation {
    /// What a static controller sends when an alarm it watches is in `zone`, at its start
    /// and on each change: the configurations of each of its conditions in turn. A
    /// controller runs only with its static implementation.
    pub fn configs_on_alarm(&self, config: &EnvironmentControllerConfiguration, zone: AlarmZone)
        -> (r: Vec<(String, String, RelayOutletConfig)>)
        requires
            config.implementation is Some,
        ensures
            sent_view(r@) == reaction(config.actors@, zone, config.implementation->0.conditions@,
                config.implementation->0.conditions@.len() as int),
    {
        let conditions = match &config.implementation {
            Some(imple) => &imple.conditions,
            None => { return Vec::new(); },
        };
        let mut r: Vec<(String, String, RelayOutletConfig)> = Vec::new();
        let mut i: usize = 0;
        while i < conditions.len()
            invariant
                i <= conditions@.len(),
                config.implementation is Some,
                conditions@ == config.implementation->0.conditions@,
                sent_view(r@) == reaction(config.actors@, zone, conditions@, i as int),
            decreases conditions@.len() - i,
        {
            let mut sent = get_config_for_event(&config.actors, zone, &conditions[i]);
            let ghost before = r@;
            let ghost added = sent@;
            r.append(&mut sent);
            proof {
                assert(sent_view(r@) =~= sent_view(before) + sent_view(added));
            }
            i = i + 1;
        }
        r
    }
}

} // verus!

verus! {

/// The key of a module property's alarm: "module:property".
pub open spec fn alarm_key(module_id: Seq<char>, property: Seq<char>) -> Seq<char> {
    module_id + seq![':'] + property
}

pub fn make_alarm_key(module_id: &str, property: &str) -> (r: String)
    ensures
        r@ == alarm_key(module_id@, property@),
{
    proof {
        reveal_strlit(":");
    }
    String::from_str(module_id).concat(":").concat(property)
}

/// Whether the alarm of a module property exists among `alarms`.
pub open spec fn has_alarm(alarms: Seq<(String, String)>, module_id: Seq<char>, property: Seq<char>) -> bool {
    exists|i: int| 0 <= i < alarms.len() && (#[trigger] alarms[i]).0@ == module_id && alarms[i].1@ == property
}

fn find_alarm(alarms: &Vec<(String, String)>, module_id: &str, property: &str) -> (r: bool)
    ensures
        r == has_alarm(alarms@, module_id@, property@),
{
    let mut i: usize = 0;
    while i < alarms.len()
        invariant
            i <= alarms@.len(),
            forall|j: int| 0 <= j < i ==> !((#[trigger] alarms@[j]).0@ == module_id@ && alarms@[j].1@ == property@),
        decreases alarms@.len() - i,
    {
        if str_eq(alarms[i].0.as_str(), module_id) && str_eq(alarms[i].1.as_str(), property) {
            return true;
        }
        i = i + 1;
    }
    false
}

/// A controller can run: every module it watches is connected and has an alarm on the
/// watched property, and every module it drives is connected.
pub open spec fn initializable(config: EnvironmentControllerConfiguration, connected: Seq<Seq<char>>, alarms: Seq<(String, String)>) -> bool {
    &&& forall|i: int| 0 <= i < config.observers@.len() ==> {
        let o = #[trigger] config.observers@[i];
        connected.contains(o.id@) && has_alarm(alarms, o.id@, o.property@)
    }
    &&& forall|i: int| 0 <= i < config.actors@.len() ==> {
        let a = #[trigger] config.actors@[i];
        a.field_type == RessourceType::ACTOR_MODULE ==> connected.contains(a.id@)
    }
}

/// A controller can run exactly when every module it watches is connected and carries an
/// alarm on the watched property, and every module it drives is connected: a controller
/// that drives a module which is not connected never starts.
pub proof fn lemma_initializable_needs_its_modules(
    config: EnvironmentControllerConfiguration,
    connected: Seq<Seq<char>>,
    alarms: Seq<(String, String)>,
)
    ensures
        initializable(config, connected, alarms) ==> forall|i: int|
            0 <= i < config.actors@.len() && (#[trigger] config.actors@[i]).field_type == RessourceType::ACTOR_MODULE
            ==> connected.contains(config.actors@[i].id@),
        initializable(config, connected, alarms) ==> forall|i: int|
            0 <= i < config.observers@.len() ==> connected.contains((#[trigger] config.observers@[i]).id@),
        initializable(config, connected, alarms) ==> forall|i: int|
            0 <= i < config.observers@.len() ==> has_alarm(alarms, (#[trigger] config.observers@[i]).id@, config.observers@[i].property@),
        ({
            &&& forall|i: int| 0 <= i < config.actors@.len() && (#[trigger] config.actors@[i]).field_type == RessourceType::ACTOR_MODULE
                ==> connected.contains(config.actors@[i].id@)
            &&& forall|i: int| 0 <= i < config.observers@.len() ==> connected.contains((#[trigger] config.observers@[i]).id@)
            &&& forall|i: int| 0 <= i < config.observers@.len() ==> has_alarm(alarms, (#[trigger] config.observers@[i]).id@, config.observers@[i].property@)
        }) ==> initializable(config, connected, alarms),
{
}

/// Whether a controller can run with the modules connected and the alarms that exist.
pub fn can_be_initialize(config: &EnvironmentControllerConfiguration, connected: &Vec<String>, alarms: &Vec<(String, String)>) -> (r: bool)
    ensures
        r == initializable(*config, strs(connected@), alarms@),
{
    let mut i: usize = 0;
    while i < config.observers.len()
        invariant
            i <= config.observers@.len(),
            forall|j: int| 0 <= j < i ==> {
                let o = #[trigger] config.observers@[j];
                strs(connected@).contains(o.id@) && has_alarm(alarms@, o.id@, o.property@)
            },
        decreases config.observers@.len() - i,
    {
        let o = &config.observers[i];
        if !contains_str(connected, o.id.as_str()) {
            return false;
        }
        if !find_alarm(alarms, o.id.as_str(), o.property.as_str()) {
            return false;
        }
        i = i + 1;
    }
    let mut k: usize = 0;
    while k < config.actors.len()
        invariant
            k <= config.actors@.len(),
            forall|j: int| 0 <= j < config.observers@.len() ==> {
                let o = #[trigger] config.observers@[j];
                strs(connected@).contains(o.id@) && has_alarm(alarms@, o.id@, o.property@)
            },
            forall|j: int| 0 <= j < k ==> {
                let a = #[trigger] config.actors@[j];
                a.field_type == RessourceType::ACTOR_MODULE ==> strs(connected@).contains(a.id@)
            },
        decreases config.actors@.len() - k,
    {
        let a = &config.actors[k];
        if a.field_type == RessourceType::ACTOR_MODULE && !contains_str(connected, a.id.as_str()) {
            return false;
        }
        k = k + 1;
    }
    true
}

/// The controllers that run, and the alarm and value channels they can listen to.
pub struct EnvControllerStore {
    pub tasks: Vec<String>,
    pub alarm_senders: Vec<String>,
    pub value_senders: Vec<String>,
}

/// The message of a channel registered twice.
pub open spec fn already_text(what: Seq<char>, key: Seq<char>) -> Seq<char> {
    what + " already exists : "@ + key
}

/// Removes every occurrence of `key` from a list of keys.
fn remove_key(v: &mut Vec<String>, key: &str)
    ensures
        forall|n: Seq<char>| strs(final(v)@).contains(n) <==> (strs(old(v)@).contains(n) && n != key@),
{
    let mut out: Vec<String> = Vec::new();
    let mut i: usize = 0;
    while i < v.len()
        invariant
            i <= v@.len(),
            forall|n: Seq<char>| strs(out@).contains(n) <==> (strs(v@.subrange(0, i as int)).contains(n) && n != key@),
        decreases v@.len() - i,
    {
        let ghost before = strs(out@);
        let ghost prefix = strs(v@.subrange(0, i as int));
        let ghost next = strs(v@.subrange(0, i + 1));
        proof {
            assert(next =~= prefix.push(v@[i as int]@));
        }
        if !str_eq(v[i].as_str(), key) {
            let k = v[i].clone();
            proof {
                assert(strs(out@.push(k)) =~= before.push(k@));
            }
            out.push(k);
        } else {
            proof {
                assert(strs(out@) == before);
            }
        }
        proof {
            let now = strs(out@);
            assert(now == before || (now == before.push(v@[i as int]@) && v@[i as int]@ != key@));
            assert forall|n: Seq<char>| now.contains(n) implies (next.contains(n) && n != key@) by {
                let j = choose|j: int| 0 <= j < now.len() && now[j] == n;
                if j < before.len() {
                    assert(before[j] == n);
                    assert(before.contains(n));
                    let m = choose|m: int| 0 <= m < prefix.len() && prefix[m] == n;
                    assert(next[m] == n);
                } else {
                    assert(n == v@[i as int]@);
                    assert(next[i as int] == n);
                }
            }
            assert forall|n: Seq<char>| (next.contains(n) && n != key@) implies now.contains(n) by {
                let j = choose|j: int| 0 <= j < next.len() && next[j] == n;
                if j < prefix.len() {
                    assert(prefix[j] == n);
                    assert(prefix.contains(n));
                    assert(before.contains(n));
                    let m = choose|m: int| 0 <= m < before.len() && before[m] == n;
                    assert(now[m] == n);
                } else {
                    assert(n == v@[i as int]@);
                    assert(now[now.len() - 1] == n);
                }
            }
        }
        i = i + 1;
    }
    proof {
        assert(v@.subrange(0, v@.len() as int) =~= v@);
    }
    *v = out;
}

impl EnvControllerStore {
    pub fn new() -> (r: EnvControllerStore)
        ensures
            r.tasks@.len() == 0,
            r.alarm_senders@.len() == 0,
            r.value_senders@.len() == 0,
    {
        EnvControllerStore { tasks: Vec::new(), alarm_senders: Vec::new(), value_senders: Vec::new() }
    }

    /// Opens the alarm channel of a module property; one already open is an error.
    pub fn on_alarm_created(&mut self, module_id: &str, property: &str) -> (r: Result<(), MainboardError>)
        ensures
            final(self).tasks == old(self).tasks,
            final(self).value_senders == old(self).value_senders,
            strs(old(self).alarm_senders@).contains(alarm_key(module_id@, property@)) ==> {
                &&& r matches Err(e) && e.message@ == already_text("on_alarm_created"@, alarm_key(module_id@, property@))
                &&& final(self).alarm_senders == old(self).alarm_senders
            },
            !strs(old(self).alarm_senders@).contains(alarm_key(module_id@, property@)) ==> {
                &&& r is Ok
                &&& strs(final(self).alarm_senders@) == strs(old(self).alarm_senders@).push(alarm_key(module_id@, property@))
            },
    {
        let key = make_alarm_key(module_id, property);
        if contains_str(&self.alarm_senders, key.as_str()) {
            proof {
                reveal_strlit("on_alarm_created already exists : ");
                assert("on_alarm_created already exists : "@ =~= "on_alarm_created"@ + " already exists : "@) by {
                    reveal_strlit("on_alarm_created");
                    reveal_strlit(" already exists : ");
                }
            }
            return Err(MainboardError::from_error(String::from_str("on_alarm_created already exists : ").concat(key.as_str())));
        }
        proof {
            assert(strs(self.alarm_senders@.push(key)) =~= strs(self.alarm_senders@).push(key@));
        }
        self.alarm_senders.push(key);
        Ok(())
    }

    /// Closes the alarm channel of a module property.
    pub fn on_alarm_deleted(&mut self, module_id: &str, property: &str)
        ensures
            final(self).tasks == old(self).tasks,
            final(self).value_senders == old(self).value_senders,
            forall|n: Seq<char>| strs(final(self).alarm_senders@).contains(n)
                <==> (strs(old(self).alarm_senders@).contains(n) && n != alarm_key(module_id@, property@)),
    {
        let key = make_alarm_key(module_id, property);
        remove_key(&mut self.alarm_senders, key.as_str());
    }

    /// Opens the value channel of a module that connected; one already open is an error.
    pub fn on_module_connected(&mut self, module_id: &str) -> (r: Result<(), MainboardError>)
        ensures
            final(self).tasks == old(self).tasks,
            final(self).alarm_senders == old(self).alarm_senders,
            strs(old(self).value_senders@).contains(module_id@) ==> {
                &&& r matches Err(e) && e.message@ == already_text("on_module_connected"@, module_id@)
                &&& final(self).value_senders == old(self).value_senders
            },
            !strs(old(self).value_senders@).contains(module_id@) ==> {
                &&& r is Ok
                &&& strs(final(self).value_senders@) == strs(old(self).value_senders@).push(module_id@)
            },
    {
        if contains_str(&self.value_senders, module_id) {
            proof {
                reveal_strlit("on_module_connected already exists : ");
                assert("on_module_connected already exists : "@ =~= "on_module_connected"@ + " already exists : "@) by {
                    reveal_strlit("on_module_connected");
                    reveal_strlit(" already exists : ");
                }
            }
            return Err(MainboardError::from_error(String::from_str("on_module_connected already exists : ").concat(module_id)));
        }
        let k = String::from_str(module_id);
        proof {
            assert(strs(self.value_senders@.push(k)) =~= strs(self.value_senders@).push(k@));
        }
        self.value_senders.push(k);
        Ok(())
    }

    /// Closes the value channel of a module that disconnected.
    pub fn on_module_disconnected(&mut self, module_id: &str)
        ensures
            final(self).tasks == old(self).tasks,
            final(self).alarm_senders == old(self).alarm_senders,
            forall|n: Seq<char>| strs(final(self).value_senders@).contains(n)
                <==> (strs(old(self).value_senders@).contains(n) && n != module_id@),
    {
        remove_key(&mut self.value_senders, module_id);
    }

    /// Whether a controller's channels are all open: the alarm of each watched property
    /// and the values of each watched module.
    pub fn create_context(&self, config: &EnvironmentControllerConfiguration) -> (r: Result<(), MainboardError>)
        ensures
            r is Ok <==> forall|i: int| 0 <= i < config.observers@.len() ==> {
                let o = #[trigger] config.observers@[i];
                strs(self.alarm_senders@).contains(alarm_key(o.id@, o.property@)) && strs(self.value_senders@).contains(o.id@)
            },
    {
        let mut i: usize = 0;
        while i < config.observers.len()
            invariant
                i <= config.observers@.len(),
                forall|j: int| 0 <= j < i ==> {
                    let o = #[trigger] config.observers@[j];
                    strs(self.alarm_senders@).contains(alarm_key(o.id@, o.property@)) && strs(self.value_senders@).contains(o.id@)
                },
            decreases config.observers@.len() - i,
        {
            let o = &config.observers[i];
            let key = make_alarm_key(o.id.as_str(), o.property.as_str());
            if !contains_str(&self.alarm_senders, key.as_str()) {
                return Err(MainboardError::from_error(String::from_str("failed to get field alarm event receive")));
            }
            if !contains_str(&self.value_senders, o.id.as_str()) {
                return Err(MainboardError::from_error(String::from_str("failed to get field value event receive")));
            }
            i = i + 1;
        }
        Ok(())
    }
}


/// Among the first `k` stored controllers, one of id `n` can run now.
pub open spec fn can_start(stored: Seq<EnvironmentControllerConfiguration>, connected: Seq<Seq<char>>, alarms: Seq<(String, String)>, n: Seq<char>, k: int) -> bool {
    exists|i: int| 0 <= i < k && i < stored.len() && #[trigger] stored[i].id@ == n && initializable(stored[i], connected, alarms)
}

/// Among the first `k` stored controllers, one of id `n` can no longer run.
pub open spec fn must_stop(stored: Seq<EnvironmentControllerConfiguration>, connected: Seq<Seq<char>>, alarms: Seq<(String, String)>, n: Seq<char>, k: int) -> bool {
    exists|i: int| 0 <= i < k && i < stored.len() && #[trigger] stored[i].id@ == n && !initializable(stored[i], connected, alarms)
}

/// One of the first `k` stored controllers, of id `n`, starts in a creation pass over
/// `store`: it can run, and its channels and its implementation are there.
pub open spec fn started_in_pass(
    store: EnvControllerStore,
    stored: Seq<EnvironmentControllerConfiguration>,
    connected: Seq<Seq<char>>,
    alarms: Seq<(String, String)>,
    n: Seq<char>,
    k: int,
) -> bool {
    exists|j: int| 0 <= j < k && j < stored.len() && #[trigger] stored[j].id@ == n
        && initializable(stored[j], connected, alarms) && context_ready(store, stored[j]) && stored[j].implementation is Some
}

/// A creation pass over `store` fails at stored controller `i`: it can run and does not
/// run yet, but its channels or its implementation are missing.
pub open spec fn creation_fails_at(
    store: EnvControllerStore,
    stored: Seq<EnvironmentControllerConfiguration>,
    connected: Seq<Seq<char>>,
    alarms: Seq<(String, String)>,
    i: int,
) -> bool {
    &&& initializable(stored[i], connected, alarms)
    &&& !strs(store.tasks@).contains(stored[i].id@)
    &&& !started_in_pass(store, stored, connected, alarms, stored[i].id@, i)
    &&& !(context_ready(store, stored[i]) && stored[i].implementation is Some)
}

proof fn lemma_started_in_pass_step(
    store: EnvControllerStore,
    stored: Seq<EnvironmentControllerConfiguration>,
    connected: Seq<Seq<char>>,
    alarms: Seq<(String, String)>,
    n: Seq<char>,
    i: int,
)
    requires
        0 <= i < stored.len(),
    ensures
        started_in_pass(store, stored, connected, alarms, n, i + 1) == (started_in_pass(store, stored, connected, alarms, n, i)
            || (stored[i].id@ == n && initializable(stored[i], connected, alarms) && context_ready(store, stored[i])
                && stored[i].implementation is Some)),
{
    if started_in_pass(store, stored, connected, alarms, n, i + 1) {
        let j = choose|j: int| 0 <= j < i + 1 && j < stored.len() && #[trigger] stored[j].id@ == n
            && initializable(stored[j], connected, alarms) && context_ready(store, stored[j]) && stored[j].implementation is Some;
        if j < i {
            assert(started_in_pass(store, stored, connected, alarms, n, i));
        }
    }
    if started_in_pass(store, stored, connected, alarms, n, i) {
        let j = choose|j: int| 0 <= j < i && j < stored.len() && #[trigger] stored[j].id@ == n
            && initializable(stored[j], connected, alarms) && context_ready(store, stored[j]) && stored[j].implementation is Some;
        assert(started_in_pass(store, stored, connected, alarms, n, i + 1));
    }
    if stored[i].id@ == n && initializable(stored[i], connected, alarms) && context_ready(store, stored[i])
        && stored[i].implementation is Some {
        assert(started_in_pass(store, stored, connected, alarms, n, i + 1));
    }
}

/// A controller's channels are all open in `store`.
pub open spec fn context_ready(store: EnvControllerStore, config: EnvironmentControllerConfiguration) -> bool {
    forall|i: int| 0 <= i < config.observers@.len() ==> {
        let o = #[trigger] config.observers@[i];
        strs(store.alarm_senders@).contains(alarm_key(o.id@, o.property@)) && strs(store.value_senders@).contains(o.id@)
    }
}

impl EnvControllerStore {
    /// Starts the task of a controller: its channels must be open and it must have an
    /// implementation.
    fn create_task(&mut self, config: &EnvironmentControllerConfiguration) -> (r: Result<(), MainboardError>)
        ensures
            final(self).alarm_senders == old(self).alarm_senders,
            final(self).value_senders == old(self).value_senders,
            r is Ok <==> context_ready(*old(self), *config) && config.implementation is Some,
            r is Ok ==> strs(final(self).tasks@) == strs(old(self).tasks@).push(config.id@),
            r is Err ==> final(self).tasks == old(self).tasks,
    {
        match self.create_context(config) {
            Ok(()) => {},
            Err(e) => {
                return Err(e);
            },
        }
        if config.implementation.is_none() {
            return Err(MainboardError::from_error(String::from_str("implementation is missing")));
        }
        let id = config.id.clone();
        proof {
            assert(strs(self.tasks@.push(id)) =~= strs(self.tasks@).push(id@));
        }
        self.tasks.push(id);
        Ok(())
    }

    /// Registers a new controller (`existing` says whether one of that id is stored
    /// already, which is an error, as is a missing implementation) and starts it when it
    /// can run now; the result says whether it started.
    pub fn register_controller(
        &mut self,
        existing: bool,
        config: &EnvironmentControllerConfiguration,
        connected: &Vec<String>,
        alarms: &Vec<(String, String)>,
    ) -> (r: Result<bool, MainboardError>)
        ensures
            existing ==> (r matches Err(e) && e.message@ == "already existing"@),
            !existing && config.implementation is None ==> (r matches Err(e) && e.message@ == "implementaton missing"@),
            !existing && config.implementation is Some ==> {
                let run = initializable(*config, strs(connected@), alarms@);
                &&& run && context_ready(*old(self), *config) ==> r == Ok::<bool, MainboardError>(true)
                    && strs(final(self).tasks@) == strs(old(self).tasks@).push(config.id@)
                &&& run && !context_ready(*old(self), *config) ==> r is Err && final(self).tasks == old(self).tasks
                &&& !run ==> r == Ok::<bool, MainboardError>(false) && final(self).tasks == old(self).tasks
            },
            existing || config.implementation is None ==> final(self).tasks == old(self).tasks,
            final(self).alarm_senders == old(self).alarm_senders,
            final(self).value_senders == old(self).value_senders,
    {
        if existing {
            proof {
                reveal_strlit("already existing");
            }
            return Err(MainboardError::from_error(String::from_str("already existing")));
        }
        if config.implementation.is_none() {
            proof {
                reveal_strlit("implementaton missing");
            }
            return Err(MainboardError::from_error(String::from_str("implementaton missing")));
        }
        if can_be_initialize(config, connected, alarms) {
            match self.create_task(config) {
                Ok(()) => Ok(true),
                Err(e) => Err(e),
            }
        } else {
            Ok(false)
        }
    }

    /// Starts, in order, every stored controller that does not run and can run now; a
    /// controller that cannot start stops the pass with its error.
    pub fn validate_creation(
        &mut self,
        stored: &Vec<EnvironmentControllerConfiguration>,
        connected: &Vec<String>,
        alarms: &Vec<(String, String)>,
    ) -> (r: Result<(), MainboardError>)
        ensures
            final(self).alarm_senders == old(self).alarm_senders,
            final(self).value_senders == old(self).value_senders,
            forall|n: Seq<char>| strs(old(self).tasks@).contains(n) ==> strs(final(self).tasks@).contains(n),
            forall|n: Seq<char>| strs(final(self).tasks@).contains(n) ==> strs(old(self).tasks@).contains(n)
                || can_start(stored@, strs(connected@), alarms@, n, stored@.len() as int),
            r is Ok ==> forall|i: int| 0 <= i < stored@.len() && initializable(#[trigger] stored@[i], strs(connected@), alarms@)
                ==> strs(final(self).tasks@).contains(stored@[i].id@),
            r is Err <==> exists|i: int| 0 <= i < stored@.len()
                && #[trigger] creation_fails_at(*old(self), stored@, strs(connected@), alarms@, i),
            r is Ok ==> forall|n: Seq<char>| #[trigger] strs(final(self).tasks@).contains(n) <==> (strs(old(self).tasks@).contains(n)
                || started_in_pass(*old(self), stored@, strs(connected@), alarms@, n, stored@.len() as int)),
    {
        let ghost start = *self;
        let mut i: usize = 0;
        while i < stored.len()
            invariant
                i <= stored@.len(),
                self.alarm_senders == old(self).alarm_senders,
                self.value_senders == old(self).value_senders,
                forall|n: Seq<char>| strs(old(self).tasks@).contains(n) ==> strs(self.tasks@).contains(n),
                forall|n: Seq<char>| strs(self.tasks@).contains(n) ==> strs(old(self).tasks@).contains(n)
                    || can_start(stored@, strs(connected@), alarms@, n, i as int),
                forall|j: int| 0 <= j < i && initializable(#[trigger] stored@[j], strs(connected@), alarms@)
                    ==> strs(self.tasks@).contains(stored@[j].id@),
                start == *old(self),
                forall|n: Seq<char>| #[trigger] strs(self.tasks@).contains(n) <==> (strs(start.tasks@).contains(n)
                    || started_in_pass(start, stored@, strs(connected@), alarms@, n, i as int)),
                forall|j: int| 0 <= j < i ==> !#[trigger] creation_fails_at(start, stored@, strs(connected@), alarms@, j),
            decreases stored@.len() - i,
        {
            let c = &stored[i];
            let ghost before = strs(self.tasks@);
            let ghost ready = context_ready(*self, *c);
            proof {
                assert(context_ready(*self, *c) == context_ready(start, *c));
                assert forall|n: Seq<char>| true implies started_in_pass(start, stored@, strs(connected@), alarms@, n, i + 1)
                    == (started_in_pass(start, stored@, strs(connected@), alarms@, n, i as int)
                    || (stored@[i as int].id@ == n && initializable(stored@[i as int], strs(connected@), alarms@)
                        && context_ready(start, stored@[i as int]) && stored@[i as int].implementation is Some)) by {
                    lemma_started_in_pass_step(start, stored@, strs(connected@), alarms@, n, i as int);
                }
                assert(stored@[i as int] == *c);
            }
            if !contains_str(&self.tasks, c.id.as_str()) && can_be_initialize(c, connected, alarms) {
                match self.create_task(c) {
                    Ok(()) => {
                        proof {
                            assert(strs(self.tasks@)[before.len() as int] == c.id@);
                            assert(stored@[i as int].id@ == c.id@);
                            assert(can_start(stored@, strs(connected@), alarms@, c.id@, i + 1));
                            assert forall|n: Seq<char>| before.contains(n) implies strs(self.tasks@).contains(n) by {
                                let j = choose|j: int| 0 <= j < before.len() && before[j] == n;
                                assert(strs(self.tasks@)[j] == n);
                            }
                            assert forall|n: Seq<char>| strs(self.tasks@).contains(n) implies (before.contains(n) || n == c.id@) by {
                                let j = choose|j: int| 0 <= j < strs(self.tasks@).len() && strs(self.tasks@)[j] == n;
                                if j < before.len() {
                                    assert(before[j] == n);
                                }
                            }
                        }
                    },
                    Err(e) => {
                        proof {
                            assert(creation_fails_at(start, stored@, strs(connected@), alarms@, i as int));
                        }
                        return Err(e);
                    },
                }
            }
            i = i + 1;
        }
        Ok(())
    }

    /// Stops, and returns, the running controllers that can no longer run; a running
    /// controller is known by its stored configuration.
    pub fn validate_removale(
        &mut self,
        stored: &Vec<EnvironmentControllerConfiguration>,
        connected: &Vec<String>,
        alarms: &Vec<(String, String)>,
    ) -> (r: Vec<String>)
        ensures
            final(self).alarm_senders == old(self).alarm_senders,
            final(self).value_senders == old(self).value_senders,
            forall|n: Seq<char>| #[trigger] strs(final(self).tasks@).contains(n) <==> (strs(old(self).tasks@).contains(n)
                && !must_stop(stored@, strs(connected@), alarms@, n, stored@.len() as int)),
            forall|n: Seq<char>| strs(r@).contains(n) ==> strs(old(self).tasks@).contains(n) && !strs(final(self).tasks@).contains(n),
    {
        let mut removed: Vec<String> = Vec::new();
        let mut i: usize = 0;
        while i < stored.len()
            invariant
                i <= stored@.len(),
                self.alarm_senders == old(self).alarm_senders,
                self.value_senders == old(self).value_senders,
                forall|n: Seq<char>| #[trigger] strs(self.tasks@).contains(n) <==> (strs(old(self).tasks@).contains(n)
                    && !must_stop(stored@, strs(connected@), alarms@, n, i as int)),
                forall|n: Seq<char>| strs(removed@).contains(n) ==> strs(old(self).tasks@).contains(n) && !strs(self.tasks@).contains(n),
            decreases stored@.len() - i,
        {
            let c = &stored[i];
            if contains_str(&self.tasks, c.id.as_str()) && !can_be_initialize(c, connected, alarms) {
                let ghost before = strs(self.tasks@);
                let ghost removed_before = strs(removed@);
                remove_key(&mut self.tasks, c.id.as_str());
                let k = c.id.clone();
                proof {
                    assert(strs(removed@.push(k)) =~= removed_before.push(k@));
                    assert forall|n: Seq<char>| strs(removed@.push(k)).contains(n) implies
                        strs(old(self).tasks@).contains(n) && !strs(self.tasks@).contains(n) by {
                        let j = choose|j: int| 0 <= j < strs(removed@.push(k)).len() && strs(removed@.push(k))[j] == n;
                        if j < removed_before.len() {
                            assert(removed_before[j] == n);
                            assert(removed_before.contains(n));
                            assert(!before.contains(n));
                            if strs(self.tasks@).contains(n) {
                                assert(before.contains(n));
                            }
                        } else {
                            assert(n == c.id@);
                            assert(before.contains(n));
                        }
                    }
                }
                removed.push(k);
            }
            i = i + 1;
        }
        removed
    }

    /// Stops a controller, returning whether it ran.
    pub fn unregister_controller(&mut self, id: &str) -> (r: bool)
        ensures
            r == strs(old(self).tasks@).contains(id@),
            forall|n: Seq<char>| strs(final(self).tasks@).contains(n) <==> (strs(old(self).tasks@).contains(n) && n != id@),
            final(self).alarm_senders == old(self).alarm_senders,
            final(self).value_senders == old(self).value_senders,
    {
        let was = contains_str(&self.tasks, id);
        remove_key(&mut self.tasks, id);
        was
    }
}

} // verus!
