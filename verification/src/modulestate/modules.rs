pub mod aaa;
pub mod aab;
pub mod aap;
pub mod ccs;
pub mod pcs;
pub mod ppo;

use crate::mainboardstate::error::MainboardError;
use crate::modulestate::aas::AASValidator;
use crate::modulestate::interface::ModuleError;
use crate::modulestate::relay::configure::{
    authorize_relays, commands_view, configure_relay_is_ready, configure_relay_ready, configure_relays, decision_at,
    module_commands, opt_view, refused_at, RelayCommand,
};
use crate::protos::module::{outlet_view, Actor, RelayOutletConfig, RelayOutletConfigView, RelayOutletData};
use crate::modulestate::relay::{get_outlet_data, outlet_data};
use crate::text::{after_last, after_last_char, str_eq};
use vstd::prelude::*;

verus! {

/// What a configuration command carries: the whole configuration of the module, or one
/// outlet configuration for the outlet it names.
pub enum ConfigUpdate<W> {
    Whole(W),
    Property(String, RelayOutletConfig),
}

/// Which part of a module a configuration command targets.
pub enum ConfigTarget {
    Whole,
    Property(String),
}

/// Reads the target of a configuration command from its type tag `t`: the module type
/// alone targets the whole configuration, "TYPE:name" the outlet `name` (the text after
/// the last ':').
pub fn parse_config_target(t: &str, module_type: &str) -> (r: ConfigTarget)
    ensures
        t@ == module_type@ ==> r is Whole,
        t@ != module_type@ ==> (r matches ConfigTarget::Property(p) && p@ == after_last(t@, ':')),
{
    if str_eq(t, module_type) {
        ConfigTarget::Whole
    } else {
        ConfigTarget::Property(after_last_char(t, ':'))
    }
}

/// The index of the first name equal to `name`.
pub open spec fn index_of_name(names: Seq<Seq<char>>, name: Seq<char>) -> Option<int>
    decreases names.len(),
{
    if names.len() == 0 {
        None
    } else if names.last() == name {
        match index_of_name(names.drop_last(), name) {
            Some(i) => Some(i),
            None => Some(names.len() - 1),
        }
    } else {
        index_of_name(names.drop_last(), name)
    }
}

pub open spec fn names_view(names: Seq<&str>) -> Seq<Seq<char>> {
    names.map_values(|s: &str| s@)
}

/// Finds the position of `name` among `names`.
pub fn find_name(names: &Vec<&str>, name: &str) -> (r: Option<usize>)
    ensures
        r matches Some(i) ==> index_of_name(names_view(names@), name@) == Some(i as int),
        r is None ==> index_of_name(names_view(names@), name@) is None,
{
    let mut i: usize = 0;
    while i < names.len()
        invariant
            i <= names.len(),
            index_of_name(names_view(names@).subrange(0, i as int), name@) is None,
        decreases names.len() - i,
    {
        proof {
            let pre = names_view(names@).subrange(0, i as int);
            let nxt = names_view(names@).subrange(0, i + 1);
            assert(nxt.drop_last() =~= pre);
        }
        if str_eq(names[i], name) {
            proof {
                lemma_index_of_name_prefix(names_view(names@), name@, i as int);
            }
            return Some(i);
        }
        i = i + 1;
    }
    proof {
        assert(names_view(names@).subrange(0, names.len() as int) =~= names_view(names@));
    }
    None
}

/// When the name first occurs at `i`, every longer prefix finds it there.
proof fn lemma_index_of_name_prefix(names: Seq<Seq<char>>, name: Seq<char>, i: int)
    requires
        0 <= i < names.len(),
        names[i] == name,
        index_of_name(names.subrange(0, i), name) is None,
    ensures
        index_of_name(names, name) == Some(i),
    decreases names.len() - i,
{
    if names.len() == i + 1 {
        assert(names.drop_last() =~= names.subrange(0, i));
    } else {
        assert(names.subrange(0, names.len() - 1).subrange(0, i) =~= names.subrange(0, i));
        lemma_index_of_name_prefix(names.subrange(0, names.len() - 1), name, i);
        assert(names.subrange(0, names.len() - 1) =~= names.drop_last());
        assert(names.drop_last().subrange(0, i) =~= names.subrange(0, i));
    }
}

/// The outlets after one outlet configuration is set on the outlet `property`: it takes
/// over the owner recorded on that outlet and is stamped `now`; an unknown name changes
/// nothing.
pub open spec fn set_property_spec(
    slots: Seq<Option<RelayOutletConfigView>>,
    names: Seq<Seq<char>>,
    property: Seq<char>,
    outlet: RelayOutletConfigView,
    now: i32,
) -> Seq<Option<RelayOutletConfigView>> {
    match index_of_name(names, property) {
        Some(i) => {
            let owned = match slots[i] {
                Some(d) => RelayOutletConfigView { actor_owner_id: d.actor_owner_id, actor_owner_type: d.actor_owner_type, ..outlet },
                None => outlet,
            };
            slots.update(i, Some(RelayOutletConfigView { timestamp: now, ..owned }))
        },
        None => slots,
    }
}

/// The outlets of a whole configuration, each stamped `now`.
pub open spec fn stamp_all(slots: Seq<Option<RelayOutletConfigView>>, now: i32) -> Seq<Option<RelayOutletConfigView>> {
    slots.map_values(|o: Option<RelayOutletConfigView>| match o {
        Some(c) => Some(RelayOutletConfigView { timestamp: now, ..c }),
        None => None,
    })
}

/// Stamps every outlet of a whole configuration with the time `now` it is received.
pub fn stamp_slots(slots: Vec<Option<RelayOutletConfig>>, now: i32) -> (r: Vec<Option<RelayOutletConfig>>)
    ensures
        r@.map_values(|o: Option<RelayOutletConfig>| outlet_view(o))
            == stamp_all(slots@.map_values(|o: Option<RelayOutletConfig>| outlet_view(o)), now),
{
    let mut out: Vec<Option<RelayOutletConfig>> = Vec::new();
    let mut rest = slots;
    let ghost orig = rest@;
    let total = rest.len();
    let mut i: usize = 0;
    while rest.len() > 0
        invariant
            orig.len() == total,
            i + rest@.len() == total,
            rest@ == orig.subrange(i as int, total as int),
            out@.len() == i,
            forall|j: int| 0 <= j < i ==> outlet_view(#[trigger] out@[j]) == stamp_all(orig.map_values(|o: Option<RelayOutletConfig>| outlet_view(o)), now)[j],
        decreases rest@.len(),
    {
        let o = rest.remove(0);
        assert(o == orig[i as int]);
        let stamped = match o {
            Some(mut c) => {
                c.timestamp = now;
                Some(c)
            },
            None => None,
        };
        out.push(stamped);
        proof {
            assert(rest@ =~= orig.subrange(i + 1, total as int));
        }
        i = i + 1;
    }
    assert(out@.map_values(|o: Option<RelayOutletConfig>| outlet_view(o))
        =~= stamp_all(orig.map_values(|o: Option<RelayOutletConfig>| outlet_view(o)), now));
    out
}

/// Sets one outlet configuration on the outlet named `property`.
pub fn set_property(
    slots: Vec<Option<RelayOutletConfig>>,
    names: &Vec<&str>,
    property: &str,
    relay_outlet: RelayOutletConfig,
    now: i32,
) -> (r: Vec<Option<RelayOutletConfig>>)
    requires
        slots@.len() == names@.len(),
    ensures
        r@.len() == slots@.len(),
        forall|i: int| 0 <= i < r@.len() ==> outlet_view(#[trigger] r@[i]) == set_property_spec(
            slots@.map_values(|o: Option<RelayOutletConfig>| outlet_view(o)), names_view(names@), property@, relay_outlet@, now)[i],
{
    let ghost sv = slots@.map_values(|o: Option<RelayOutletConfig>| outlet_view(o));
    let mut slots = slots;
    let mut relay_outlet = relay_outlet;
    match find_name(names, property) {
        Some(i) => {
            proof {
                lemma_index_of_name_in_range(names_view(names@), property@);
                assert(names_view(names@).len() == names@.len());
                assert(index_of_name(names_view(names@), property@) == Some(i as int));
            }
            match &slots[i] {
                Some(d) => {
                    relay_outlet.actor_owner_id = d.actor_owner_id.clone();
                    relay_outlet.actor_owner_type = d.actor_owner_type;
                },
                None => {},
            }
            relay_outlet.timestamp = now;
            slots.set(i, Some(relay_outlet));
        },
        None => {},
    }
    slots
}

/// A name found among outlet names is found at a position it occupies.
pub(crate) proof fn lemma_index_of_name_in_range(names: Seq<Seq<char>>, name: Seq<char>)
    ensures
        index_of_name(names, name) matches Some(i) ==> 0 <= i < names.len() && names[i] == name,
    decreases names.len(),
{
    if names.len() > 0 {
        lemma_index_of_name_in_range(names.drop_last(), name);
    }
}

/// Whether each of eight outlets is ready to be applied over the previous one.
pub fn slots_ready(slots: &Vec<Option<RelayOutletConfig>>, prev: &Vec<Option<RelayOutletConfig>>) -> (r: bool)
    requires
        slots@.len() == 8,
        prev@.len() == 8,
    ensures
        r == forall|i: int| 0 <= i < 8 ==> configure_relay_ready(outlet_view(#[trigger] slots@[i]), outlet_view(prev@[i])),
{
    let mut i: usize = 0;
    while i < 8
        invariant
            i <= 8,
            slots@.len() == 8,
            prev@.len() == 8,
            forall|k: int| 0 <= k < i ==> configure_relay_ready(outlet_view(#[trigger] slots@[k]), outlet_view(prev@[k])),
        decreases 8 - i,
    {
        let c = match &slots[i] { Some(c) => Some(c), None => None };
        let p = match &prev[i] { Some(p) => Some(p), None => None };
        proof {
            assert(opt_view(c) == outlet_view(slots@[i as int]));
            assert(opt_view(p) == outlet_view(prev@[i as int]));
        }
        if !configure_relay_is_ready(c, p) {
            return false;
        }
        i = i + 1;
    }
    true
}

/// Applies new outlet configurations over the previous ones, once every change is
/// authorized: the outlets to keep and what the task runner must do.
pub fn apply_relay_config(
    port: i32,
    slots: &Vec<Option<RelayOutletConfig>>,
    prev: &Vec<Option<RelayOutletConfig>>,
    actor: &Actor,
    clear_actor: bool,
) -> (r: Result<(Vec<Option<RelayOutletConfig>>, Vec<RelayCommand>), ModuleError>)
    requires
        slots@.len() == 8,
        prev@.len() == 8,
        forall|i: int| 0 <= i < 8 ==> configure_relay_ready(outlet_view(#[trigger] slots@[i]), outlet_view(prev@[i])),
    ensures
        ({
            let cs = slots@.map_values(|o: Option<RelayOutletConfig>| outlet_view(o));
            let ps = prev@.map_values(|o: Option<RelayOutletConfig>| outlet_view(o));
            let ds = Seq::new(8, |i: int| decision_at(cs, ps, actor.id@, actor.field_type, clear_actor, i));
            &&& r is Err <==> exists|i: int| 0 <= i < 8 && refused_at(cs, ps, actor.id@, i)
            &&& r matches Ok(ok) ==> {
                &&& ok.0@.len() == 8
                &&& forall|i: int| 0 <= i < 8 ==> outlet_view(#[trigger] ok.0@[i]) == Some(ds[i].config)
                &&& commands_view(ok.1@) == module_commands(port, ds)
            }
        }),
{
    authorize_relays(slots, prev, actor)?;
    Ok(configure_relays(port, slots, prev, actor, clear_actor))
}

/// The states that a relay module's raw frame reports, given what it reported before.
pub open spec fn outlets_data(buffer: Seq<u8>, previous: Seq<Option<RelayOutletData>>, now: i32) -> Seq<Option<RelayOutletData>> {
    Seq::new(8, |i: int| Some(outlet_data(buffer[i], crate::protos::module::data_or_default(previous[i]), now)))
}

/// Reads the eight outlet states of a raw frame.
pub fn read_outlets(buffer: &Vec<u8>, previous: &Vec<Option<RelayOutletData>>, now: i32) -> (r: Vec<Option<RelayOutletData>>)
    requires
        buffer@.len() >= 8,
        previous@.len() == 8,
    ensures
        r@ == outlets_data(buffer@, previous@, now),
{
    let mut r = Vec::new();
    let mut i: usize = 0;
    while i < 8
        invariant
            i <= 8,
            buffer@.len() >= 8,
            previous@.len() == 8,
            r@ == outlets_data(buffer@, previous@, now).subrange(0, i as int),
        decreases 8 - i,
    {
        let prev = match previous[i] { Some(d) => d, None => RelayOutletData::new() };
        r.push(get_outlet_data(buffer[i], &prev, now));
        proof {
            assert(outlets_data(buffer@, previous@, now).subrange(0, i + 1)
                =~= outlets_data(buffer@, previous@, now).subrange(0, i as int).push(r@[i as int]));
        }
        i = i + 1;
    }
    proof {
        assert(outlets_data(buffer@, previous@, now).subrange(0, 8) =~= outlets_data(buffer@, previous@, now));
    }
    r
}

/// Two readings of a relay module differ: some outlet changed state.
pub open spec fn states_differ(current: Seq<Option<RelayOutletData>>, last: Seq<Option<RelayOutletData>>) -> bool {
    exists|i: int| 0 <= i < 8 && current[i].unwrap().state != last[i].unwrap().state
}

/// Whether some outlet of two readings differs in state.
pub fn outlet_states_differ(current: &Vec<Option<RelayOutletData>>, last: &Vec<Option<RelayOutletData>>) -> (r: bool)
    requires
        current@.len() == 8,
        last@.len() == 8,
        forall|i: int| 0 <= i < 8 ==> (#[trigger] current@[i]) is Some && last@[i] is Some,
    ensures
        r == states_differ(current@, last@),
{
    let mut i: usize = 0;
    while i < 8
        invariant
            i <= 8,
            current@.len() == 8,
            last@.len() == 8,
            forall|k: int| 0 <= k < 8 ==> (#[trigger] current@[k]) is Some && last@[k] is Some,
            forall|k: int| 0 <= k < i ==> current@[k].unwrap().state == last@[k].unwrap().state,
        decreases 8 - i,
    {
        let a = current[i].unwrap();
        let b = last[i].unwrap();
        if a.state != b.state {
            return true;
        }
        i = i + 1;
    }
    false
}

} // verus!

verus! {

use crate::modulestate::relay::configure::{change_ownership_relay_property, lookup_flag, ownership_changed, ownership_refused};

/// An outlet after an ownership request whose entry for it is `flag`.
pub open spec fn own_slot(c: Option<RelayOutletConfigView>, flag: Option<bool>, actor_id: Seq<char>, actor_type: crate::protos::module::ActorType) -> Option<RelayOutletConfigView> {
    match flag {
        None => c,
        Some(t) => Some(ownership_changed(c.unwrap(), t, actor_id, actor_type)),
    }
}

/// The ownership request on an outlet is refused.
pub open spec fn own_refused(p: Option<RelayOutletConfigView>, flag: Option<bool>, actor_id: Seq<char>) -> bool {
    flag is Some && ownership_refused(p.unwrap(), actor_id)
}

/// The indices in `listed` are distinct ports of the frame.
pub open spec fn listed_ok(listed: Seq<usize>) -> bool {
    &&& forall|j: int| 0 <= j < listed.len() ==> listed[j] < 8
    &&& forall|j: int, k: int| 0 <= j < k < listed.len() ==> listed[j] != listed[k]
}

/// Applies an ownership request to the outlets at the `listed` ports, in that order.
pub fn edit_ownership_slots(
    slots: Vec<Option<RelayOutletConfig>>,
    prev: &Vec<Option<RelayOutletConfig>>,
    names: &Vec<&str>,
    listed: &Vec<usize>,
    map: &Vec<(String, bool)>,
    actor: &Actor,
) -> (r: Result<Vec<Option<RelayOutletConfig>>, ModuleError>)
    requires
        slots@.len() == 8,
        prev@.len() == 8,
        names@.len() == 8,
        listed_ok(listed@),
        forall|j: int| 0 <= j < listed@.len() ==> (#[trigger] slots@[listed@[j] as int]) is Some,
        forall|j: int| 0 <= j < listed@.len() ==> (lookup_flag(map@, #[trigger] names@[listed@[j] as int]@) is Some ==> prev@[listed@[j] as int] is Some),
    ensures
        r is Err <==> exists|j: int| 0 <= j < listed@.len() && own_refused(outlet_view(prev@[listed@[j] as int]), lookup_flag(map@, names@[listed@[j] as int]@), actor.id@),
        r matches Err(e) ==> e.message@ == "unauthorized"@,
        r matches Ok(v) ==> v@.len() == 8 && forall|i: int| 0 <= i < 8 ==> outlet_view(#[trigger] v@[i]) == (
            if listed@.contains(i as usize) { own_slot(outlet_view(slots@[i]), lookup_flag(map@, names@[i]@), actor.id@, actor.field_type) }
            else { outlet_view(slots@[i]) }),
{
    let ghost s0 = slots@;
    let mut slots = slots;
    let mut j: usize = 0;
    while j < listed.len()
        invariant
            j <= listed@.len(),
            slots@.len() == 8,
            prev@.len() == 8,
            names@.len() == 8,
            s0.len() == 8,
            listed_ok(listed@),
            forall|k: int| 0 <= k < listed@.len() ==> (#[trigger] s0[listed@[k] as int]) is Some,
            forall|k: int| 0 <= k < listed@.len() ==> (lookup_flag(map@, #[trigger] names@[listed@[k] as int]@) is Some ==> prev@[listed@[k] as int] is Some),
            forall|k: int| 0 <= k < j ==> !own_refused(outlet_view(prev@[#[trigger] listed@[k] as int]), lookup_flag(map@, names@[listed@[k] as int]@), actor.id@),
            forall|i: int| 0 <= i < 8 ==> outlet_view(#[trigger] slots@[i]) == (
                if listed@.subrange(0, j as int).contains(i as usize) { own_slot(outlet_view(s0[i]), lookup_flag(map@, names@[i]@), actor.id@, actor.field_type) }
                else { outlet_view(s0[i]) }),
        decreases listed@.len() - j,
    {
        let idx = listed[j];
        proof {
            assert(s0[idx as int] is Some);
            assert(!listed@.subrange(0, j as int).contains(idx)) by {
                if listed@.subrange(0, j as int).contains(idx) {
                    let k = choose|k: int| 0 <= k < j && listed@.subrange(0, j as int)[k] == idx;
                    assert(listed@[k] == listed@[j as int]);
                }
            }
            assert(outlet_view(slots@[idx as int]) == outlet_view(s0[idx as int]));
        }
        let c = match &slots[idx] { Some(c) => Some(c), None => None };
        let p = match &prev[idx] { Some(p) => Some(p), None => None };
        let res = change_ownership_relay_property(names[idx], map, c, p, actor);
        match res {
            Ok(newc) => {
                slots.set(idx, Some(newc));
            },
            Err(e) => {
                proof {
                    assert(own_refused(outlet_view(prev@[listed@[j as int] as int]), lookup_flag(map@, names@[listed@[j as int] as int]@), actor.id@));
                }
                return Err(e);
            },
        }
        proof {
            let pre = listed@.subrange(0, j as int);
            let nxt = listed@.subrange(0, j + 1);
            assert(nxt =~= pre.push(idx));
            assert forall|i: int| 0 <= i < 8 implies outlet_view(#[trigger] slots@[i]) == (
                if nxt.contains(i as usize) { own_slot(outlet_view(s0[i]), lookup_flag(map@, names@[i]@), actor.id@, actor.field_type) }
                else { outlet_view(s0[i]) }) by {
                if i == idx as int {
                    assert(nxt[j as int] == idx);
                } else {
                    if nxt.contains(i as usize) {
                        let k = choose|k: int| 0 <= k < nxt.len() && nxt[k] == i as usize;
                        assert(k != j);
                        assert(pre[k] == i as usize);
                    }
                    if pre.contains(i as usize) {
                        let k = choose|k: int| 0 <= k < pre.len() && pre[k] == i as usize;
                        assert(nxt[k] == i as usize);
                    }
                }
            }
        }
        j = j + 1;
    }
    proof {
        assert(listed@.subrange(0, listed@.len() as int) =~= listed@);
    }
    Ok(slots)
}

} // verus!

verus! {

/// The validator of a connected module, by module type. The validators of types PAC,
/// PPR, PAL and CSS keep no state here.
pub enum ModuleValidator {
    AAA(aaa::AAAValidator),
    AAS(AASValidator),
    AAP(aap::AAPValidator),
    AAB(aab::AABValidator),
    PAC,
    PPO(ppo::PPOValidator),
    PPR,
    PAL,
    PCS(pcs::PCSValidator),
    CCS(ccs::CCSValidator),
    CSS,
}

/// The module types that have a validator.
pub open spec fn known_module_types() -> Seq<Seq<char>> {
    seq!["AAA"@, "AAS"@, "AAP"@, "AAB"@, "PAC"@, "PPO"@, "PPR"@, "PAL"@, "PCS"@, "CCS"@, "CSS"@]
}

/// `v` is a fresh validator of module type `t`.
pub open spec fn fresh_validator_for(t: Seq<char>, v: ModuleValidator) -> bool {
    if t == "AAA"@ {
        v is AAA
    } else if t == "AAS"@ {
        v matches ModuleValidator::AAS(a) && a.option_config is None && a.calibration_process is None
    } else if t == "AAP"@ {
        v matches ModuleValidator::AAP(a) && a.actors_property@.len() == 0 && !a.clear_actor
            && a.previous_config.slots() == Seq::new(8, |_i: int| None::<crate::protos::module::RelayOutletConfigView>)
            && a.previous_value.slots() == Seq::new(8, |_i: int| None::<crate::protos::module::RelayOutletData>)
            && a.previous_value.timestamp == 0
    } else if t == "AAB"@ {
        v matches ModuleValidator::AAB(a) && a.actors_property@.len() == 0 && !a.clear_actor
            && a.previous_config.slots() == Seq::new(8, |_i: int| None::<crate::protos::module::RelayOutletConfigView>)
            && a.previous_value.slots() == Seq::new(8, |_i: int| None::<crate::protos::module::RelayOutletData>)
            && a.previous_value.timestamp == 0
    } else if t == "PAC"@ {
        v is PAC
    } else if t == "PPO"@ {
        v is PPO
    } else if t == "PPR"@ {
        v is PPR
    } else if t == "PAL"@ {
        v is PAL
    } else if t == "PCS"@ {
        v is PCS
    } else if t == "CCS"@ {
        v is CCS
    } else {
        t == "CSS"@ && v is CSS
    }
}

/// The module types are distinct words.
proof fn lemma_module_types_distinct()
    ensures
        known_module_types().no_duplicates(),
{
    reveal_strlit("AAA");
    reveal_strlit("AAS");
    reveal_strlit("AAP");
    reveal_strlit("AAB");
    reveal_strlit("PAC");
    reveal_strlit("PPO");
    reveal_strlit("PPR");
    reveal_strlit("PAL");
    reveal_strlit("PCS");
    reveal_strlit("CCS");
    reveal_strlit("CSS");
    assert("AAA"@[2] != "AAS"@[2]);
    assert("AAA"@[2] != "AAP"@[2]);
    assert("AAA"@[2] != "AAB"@[2]);
    assert("AAA"@[0] != "PAC"@[0]);
    assert("AAA"@[0] != "PPO"@[0]);
    assert("AAA"@[0] != "PPR"@[0]);
    assert("AAA"@[0] != "PAL"@[0]);
    assert("AAA"@[0] != "PCS"@[0]);
    assert("AAA"@[0] != "CCS"@[0]);
    assert("AAA"@[0] != "CSS"@[0]);
    assert("AAS"@[2] != "AAP"@[2]);
    assert("AAS"@[2] != "AAB"@[2]);
    assert("AAS"@[0] != "PAC"@[0]);
    assert("AAS"@[0] != "PPO"@[0]);
    assert("AAS"@[0] != "PPR"@[0]);
    assert("AAS"@[0] != "PAL"@[0]);
    assert("AAS"@[0] != "PCS"@[0]);
    assert("AAS"@[0] != "CCS"@[0]);
    assert("AAS"@[0] != "CSS"@[0]);
    assert("AAP"@[2] != "AAB"@[2]);
    assert("AAP"@[0] != "PAC"@[0]);
    assert("AAP"@[0] != "PPO"@[0]);
    assert("AAP"@[0] != "PPR"@[0]);
    assert("AAP"@[0] != "PAL"@[0]);
    assert("AAP"@[0] != "PCS"@[0]);
    assert("AAP"@[0] != "CCS"@[0]);
    assert("AAP"@[0] != "CSS"@[0]);
    assert("AAB"@[0] != "PAC"@[0]);
    assert("AAB"@[0] != "PPO"@[0]);
    assert("AAB"@[0] != "PPR"@[0]);
    assert("AAB"@[0] != "PAL"@[0]);
    assert("AAB"@[0] != "PCS"@[0]);
    assert("AAB"@[0] != "CCS"@[0]);
    assert("AAB"@[0] != "CSS"@[0]);
    assert("PAC"@[1] != "PPO"@[1]);
    assert("PAC"@[1] != "PPR"@[1]);
    assert("PAC"@[2] != "PAL"@[2]);
    assert("PAC"@[1] != "PCS"@[1]);
    assert("PAC"@[0] != "CCS"@[0]);
    assert("PAC"@[0] != "CSS"@[0]);
    assert("PPO"@[2] != "PPR"@[2]);
    assert("PPO"@[1] != "PAL"@[1]);
    assert("PPO"@[1] != "PCS"@[1]);
    assert("PPO"@[0] != "CCS"@[0]);
    assert("PPO"@[0] != "CSS"@[0]);
    assert("PPR"@[1] != "PAL"@[1]);
    assert("PPR"@[1] != "PCS"@[1]);
    assert("PPR"@[0] != "CCS"@[0]);
    assert("PPR"@[0] != "CSS"@[0]);
    assert("PAL"@[1] != "PCS"@[1]);
    assert("PAL"@[0] != "CCS"@[0]);
    assert("PAL"@[0] != "CSS"@[0]);
    assert("PCS"@[0] != "CCS"@[0]);
    assert("PCS"@[0] != "CSS"@[0]);
    assert("CCS"@[1] != "CSS"@[1]);
}

/// The fresh validator for a module type (its first three letters of id). An unknown
/// type is refused.
pub fn get_module_validator(module_type: &str) -> (r: Result<ModuleValidator, MainboardError>)
    ensures
        r is Ok <==> known_module_types().contains(module_type@),
        r matches Ok(v) ==> fresh_validator_for(module_type@, v),
        r matches Err(e) ==> e.message@ == "cannot find validator for module type"@,
{
    proof {
        reveal_strlit("AAA");
        reveal_strlit("AAS");
        reveal_strlit("AAP");
        reveal_strlit("AAB");
        reveal_strlit("PAC");
        reveal_strlit("PPO");
        reveal_strlit("PPR");
        reveal_strlit("PAL");
        reveal_strlit("PCS");
        reveal_strlit("CCS");
        reveal_strlit("CSS");
        reveal_strlit("cannot find validator for module type");
        lemma_module_types_distinct();
    }
    if str_eq(module_type, "AAA") {
        Ok(ModuleValidator::AAA(aaa::AAAValidator::new()))
    } else if str_eq(module_type, "AAS") {
        Ok(ModuleValidator::AAS(AASValidator::new()))
    } else if str_eq(module_type, "AAP") {
        Ok(ModuleValidator::AAP(aap::AAPValidator::new()))
    } else if str_eq(module_type, "AAB") {
        Ok(ModuleValidator::AAB(aab::AABValidator::new()))
    } else if str_eq(module_type, "PAC") {
        Ok(ModuleValidator::PAC)
    } else if str_eq(module_type, "PPO") {
        Ok(ModuleValidator::PPO(ppo::PPOValidator::new()))
    } else if str_eq(module_type, "PPR") {
        Ok(ModuleValidator::PPR)
    } else if str_eq(module_type, "PAL") {
        Ok(ModuleValidator::PAL)
    } else if str_eq(module_type, "PCS") {
        Ok(ModuleValidator::PCS(pcs::PCSValidator::new()))
    } else if str_eq(module_type, "CCS") {
        Ok(ModuleValidator::CCS(ccs::CCSValidator::new()))
    } else if str_eq(module_type, "CSS") {
        Ok(ModuleValidator::CSS)
    } else {
        proof {
            assert(!known_module_types().contains(module_type@)) by {
                if known_module_types().contains(module_type@) {
                    let j = choose|j: int| 0 <= j < known_module_types().len() && known_module_types()[j] == module_type@;
                }
            }
        }
        Err(MainboardError::new().message(String::from_str("cannot find validator for module type")))
    }
}

} // verus!
