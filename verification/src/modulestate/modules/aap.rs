//! The relay module (type AAP): eight relay outlets p0..p7.
use crate::comboard::ModuleConfig;
use crate::modulestate::alarm::model::ValueChange;
use crate::modulestate::interface::{ModuleError, ModuleStateCmd};
use crate::modulestate::modules::{
    apply_relay_config, edit_ownership_slots, lemma_index_of_name_in_range, listed_ok, names_view, own_refused, own_slot, outlet_states_differ, outlets_data, read_outlets, set_property, slots_ready,
    set_property_spec, stamp_all, stamp_slots, states_differ, ConfigUpdate,
};
use crate::modulestate::relay::configure::{
    change_ownership_relay_property, commands_view, configure_relay_ready, decision_at, lookup_flag,
    module_commands, ownership_changed, ownership_refused, refused_at, RelayCommand,
};
use crate::modulestate::relay::physical_relay::{blank_buffer, blank_frame};
use crate::protos::module::{
    outlet_view, Actor, ModuleActorOwnershipRequest, RelayModuleConfig, RelayModuleData,
    RelayOutletConfig, RelayOutletConfigView,
};
use vstd::prelude::*;

verus! {

/// The names of the outlets, in port order.
pub open spec fn aap_names() -> Seq<Seq<char>> {
    seq!["p0"@, "p1"@, "p2"@, "p3"@, "p4"@, "p5"@, "p6"@, "p7"@]
}

/// The names of the outlets, in port order.
pub fn aap_property_names() -> (r: Vec<&'static str>)
    ensures
        names_view(r@) == aap_names(),
        r@.len() == 8,
{
    let r = vec!["p0", "p1", "p2", "p3", "p4", "p5", "p6", "p7"];
    assert(names_view(r@) =~= aap_names());
    r
}

/// The ports that an ownership request goes through, in order (all but p1).
pub open spec fn aap_ownership_listed() -> Seq<usize> {
    seq![0usize, 2, 3, 4, 5, 6, 7]
}

/// The ports that an ownership request goes through, in order.
pub fn aap_ownership_ports() -> (r: Vec<usize>)
    ensures
        r@ == aap_ownership_listed(),
        listed_ok(r@),
{
    let r = vec![0usize, 2, 3, 4, 5, 6, 7];
    assert(r@ =~= aap_ownership_listed());
    r
}

/// The state kept for a relay module: the configuration it runs, its last reading and
/// whether the next configuration clears the owners.
pub struct AAPValidator {
    pub actors_property: Vec<(String, Actor)>,
    pub previous_config: RelayModuleConfig,
    pub previous_value: RelayModuleData,
    pub clear_actor: bool,
}

/// The outlets a configuration command asks for, before it is applied.
pub open spec fn requested_slots(update: ConfigUpdate<RelayModuleConfig>, prev: Seq<Option<RelayOutletConfigView>>, now: i32) -> Seq<Option<RelayOutletConfigView>> {
    match update {
        ConfigUpdate::Whole(w) => stamp_all(w.slots(), now),
        ConfigUpdate::Property(name, outlet) => set_property_spec(prev, aap_names(), name@, outlet@, now),
    }
}

impl AAPValidator {
    /// Each property has at most one recorded owner.
    pub open spec fn well_formed(&self) -> bool {
        crate::modulestate::actor::owned_properties(self.actors_property@).no_duplicates()
    }

    pub fn new() -> (r: AAPValidator)
        ensures
            !r.clear_actor,
            r.actors_property@.len() == 0,
            r.well_formed(),
            r.previous_config.slots() == Seq::new(8, |_i: int| None::<RelayOutletConfigView>),
            r.previous_value.slots() == Seq::new(8, |_i: int| None::<crate::protos::module::RelayOutletData>),
            r.previous_value.timestamp == 0,
    {
        AAPValidator {
            clear_actor: false,
            actors_property: Vec::new(),
            previous_config: RelayModuleConfig::new(),
            previous_value: RelayModuleData::new(),
        }
    }

    /// Whether a configuration command can be applied at time `now`: each outlet that it
    /// will set carries the schedule its mode needs.
    pub fn update_ready(&self, update: &ConfigUpdate<RelayModuleConfig>, now: i32) -> (r: bool)
        ensures
            r == forall|i: int| 0 <= i < 8 ==> configure_relay_ready(
                #[trigger] requested_slots(*update, self.previous_config.slots(), now)[i], self.previous_config.slots()[i]),
    {
        let prev = self.previous_config.to_slots();
        let ghost ps = self.previous_config.slots();
        let ghost cs = requested_slots(*update, ps, now);
        let slots = match update {
            ConfigUpdate::Whole(config) => {
                let v = config.to_slots();
                proof {
                    assert(v@.map_values(|o: Option<RelayOutletConfig>| outlet_view(o)) =~= config.slots());
                }
                let w = stamp_slots(v, now);
                proof {
                    assert(w@.map_values(|o: Option<RelayOutletConfig>| outlet_view(o)) == cs);
                    assert(w@.len() == w@.map_values(|o: Option<RelayOutletConfig>| outlet_view(o)).len());
                }
                w
            },
            ConfigUpdate::Property(property, relay_outlet) => {
                let names = aap_property_names();
                let base = self.previous_config.to_slots();
                proof {
                    assert(base@.map_values(|o: Option<RelayOutletConfig>| outlet_view(o)) =~= ps);
                }
                let v = set_property(base, &names, property.as_str(), relay_outlet.clone_value(), now);
                proof {
                    assert(cs == set_property_spec(ps, aap_names(), property@, relay_outlet@, now));
                    lemma_index_of_name_in_range(aap_names(), property@);
                    assert(cs.len() == 8);
                    assert(v@.map_values(|o: Option<RelayOutletConfig>| outlet_view(o)) =~= cs);
                }
                v
            },
        };
        let r = slots_ready(&slots, &prev);
        proof {
            assert forall|i: int| 0 <= i < 8 implies outlet_view(#[trigger] slots@[i]) == cs[i] && outlet_view(prev@[i]) == ps[i] by {
                assert(slots@.map_values(|o: Option<RelayOutletConfig>| outlet_view(o))[i] == outlet_view(slots@[i]));
            }
            if r {
                assert forall|i: int| 0 <= i < 8 implies configure_relay_ready(#[trigger] cs[i], ps[i]) by {
                    assert(configure_relay_ready(outlet_view(slots@[i]), outlet_view(prev@[i])));
                }
            } else {
                let i = choose|i: int| 0 <= i < 8 && !configure_relay_ready(outlet_view(#[trigger] slots@[i]), outlet_view(prev@[i]));
                assert(!configure_relay_ready(cs[i], ps[i]));
            }
        }
        r
    }

    /// Reads the outlet states from a raw frame read at time `now`; the reading becomes the
    /// previous one. A frame shorter than eight bytes is refused.
    pub fn convert_to_value(&mut self, buffer: &Vec<u8>, now: i32) -> (r: Result<RelayModuleData, ModuleError>)
        ensures
            final(self).actors_property == old(self).actors_property,
            buffer@.len() >= 8 ==> (r matches Ok(d) && d.slots() == outlets_data(buffer@, old(self).previous_value.slots(), now)
                && d.timestamp == now && final(self).previous_value == d),
            buffer@.len() < 8 ==> (r matches Err(e) && e.message@ == "buffer not long enought"@
                && final(self).previous_value == old(self).previous_value),
            final(self).previous_config.slots() == old(self).previous_config.slots(),
            final(self).clear_actor == old(self).clear_actor,
    {
        if buffer.len() >= 8 {
            let prev = self.previous_value.to_slots();
            let slots = read_outlets(buffer, &prev, now);
            let data = RelayModuleData::from_slots(&slots, now);
            self.previous_value = data;
            Ok(data)
        } else {
            Err(ModuleError::new().message(String::from_str("buffer not long enought")))
        }
    }

    /// Whether a reading differs from the last one: some outlet changed state. Relay
    /// modules report no value changes for the alarms.
    pub fn have_data_change(&self, current: &RelayModuleData, last: &RelayModuleData) -> (r: (bool, Vec<ValueChange<i32>>))
        requires
            forall|i: int| 0 <= i < 8 ==> (#[trigger] current.slots()[i]) is Some && last.slots()[i] is Some,
        ensures
            r.0 == states_differ(current.slots(), last.slots()),
            r.1@.len() == 0,
    {
        let a = current.to_slots();
        let b = last.to_slots();
        (outlet_states_differ(&a, &b), Vec::new())
    }

    /// Applies a configuration command on the module plugged at `port`, sent by `actor` at
    /// time `now`. Every changed outlet must be free for the actor; then each outlet is
    /// configured in port order. The configuration becomes the running one, owners are no
    /// longer cleared, and the effects for the task runner are returned with an all-blank
    /// frame.
    pub fn apply_parse_config(&mut self, port: i32, update: ConfigUpdate<RelayModuleConfig>, actor: Actor, now: i32)
        -> (r: Result<(RelayModuleConfig, ModuleConfig, Vec<RelayCommand>), ModuleError>)
        requires
            forall|i: int| 0 <= i < 8 ==> configure_relay_ready(
                #[trigger] requested_slots(update, old(self).previous_config.slots(), now)[i], old(self).previous_config.slots()[i]),
        ensures
            final(self).actors_property == old(self).actors_property,
            ({
                let ps = old(self).previous_config.slots();
                let cs = requested_slots(update, ps, now);
                let ds = Seq::new(8, |i: int| decision_at(cs, ps, actor.id@, actor.field_type, old(self).clear_actor, i));
                &&& r is Err <==> exists|i: int| 0 <= i < 8 && refused_at(cs, ps, actor.id@, i)
                &&& r is Err ==> final(self).previous_config.slots() == ps && final(self).clear_actor == old(self).clear_actor
                &&& r matches Ok(ok) ==> {
                    &&& forall|i: int| 0 <= i < 8 ==> (#[trigger] ok.0.slots()[i]) == Some(ds[i].config)
                    &&& ok.1.port == port && ok.1.data@ == blank_frame()
                    &&& commands_view(ok.2@) == module_commands(port, ds)
                    &&& final(self).previous_config.slots() == ok.0.slots()
                    &&& !final(self).clear_actor
                }
                &&& final(self).previous_value == old(self).previous_value
            }),
    {
        let prev = self.previous_config.to_slots();
        let ghost ps = self.previous_config.slots();
        proof {
            assert(prev@.map_values(|o: Option<RelayOutletConfig>| outlet_view(o)) =~= ps);
        }
        let ghost cs = requested_slots(update, ps, now);
        let slots = match update {
            ConfigUpdate::Whole(config) => {
                let v = config.to_slots();
                proof {
                    assert(v@.map_values(|o: Option<RelayOutletConfig>| outlet_view(o)) =~= config.slots());
                }
                let w = stamp_slots(v, now);
                proof {
                    assert(w@.map_values(|o: Option<RelayOutletConfig>| outlet_view(o)) == cs);
                    assert(w@.len() == w@.map_values(|o: Option<RelayOutletConfig>| outlet_view(o)).len());
                }
                w
            },
            ConfigUpdate::Property(property, relay_outlet) => {
                let names = aap_property_names();
                let base = self.previous_config.to_slots();
                proof {
                    assert(base@.map_values(|o: Option<RelayOutletConfig>| outlet_view(o)) =~= ps);
                }
                let v = set_property(base, &names, property.as_str(), relay_outlet, now);
                proof {
                    assert(cs == set_property_spec(ps, aap_names(), property@, relay_outlet@, now));
                    lemma_index_of_name_in_range(aap_names(), property@);
                    assert(cs.len() == 8);
                    assert(v@.map_values(|o: Option<RelayOutletConfig>| outlet_view(o)) =~= cs);
                }
                v
            },
        };
        proof {
            assert forall|i: int| 0 <= i < 8 implies configure_relay_ready(outlet_view(#[trigger] slots@[i]), outlet_view(prev@[i])) by {
                assert(outlet_view(slots@[i]) == cs[i]);
                assert(outlet_view(prev@[i]) == ps[i]);
            }
        }
        let ghost ds = Seq::new(8, |i: int| decision_at(cs, ps, actor.id@, actor.field_type, self.clear_actor, i));
        let res = apply_relay_config(port, &slots, &prev, &actor, self.clear_actor);
        let (new_slots, commands) = match res {
            Ok(x) => x,
            Err(e) => {
                return Err(e);
            },
        };
        let config = RelayModuleConfig::from_slots(new_slots);
        proof {
            assert forall|i: int| 0 <= i < 8 implies (#[trigger] config.slots()[i]) == Some(ds[i].config) by {
                assert(config.slots()[i] == outlet_view(new_slots@[i]));
            }
        }
        self.previous_config = config.clone_value();
        self.clear_actor = false;
        let frame = ModuleConfig { port, data: blank_buffer() };
        Ok((config, frame, commands))
    }

    /// Applies an ownership request on a configuration: each outlet of the ownership list
    /// that the request names passes to or leaves `actor`, in order; afterwards the next
    /// configuration clears owners.
    pub fn edit_ownership(&mut self, config: RelayModuleConfig, request: ModuleActorOwnershipRequest, actor: &Actor)
        -> (r: Result<RelayModuleConfig, ModuleError>)
        requires
            forall|j: int| 0 <= j < 7 ==> (#[trigger] config.slots()[aap_ownership_listed()[j] as int]) is Some,
            forall|j: int| 0 <= j < 7 ==> (lookup_flag(request.property@, #[trigger] aap_names()[aap_ownership_listed()[j] as int]) is Some
                ==> old(self).previous_config.slots()[aap_ownership_listed()[j] as int] is Some),
        ensures
            final(self).actors_property == old(self).actors_property,
            r is Err <==> exists|j: int| 0 <= j < 7 && own_refused(old(self).previous_config.slots()[aap_ownership_listed()[j] as int],
                lookup_flag(request.property@, aap_names()[aap_ownership_listed()[j] as int]), actor.id@),
            r matches Err(e) ==> e.message@ == "unauthorized"@ && final(self).clear_actor == old(self).clear_actor,
            r matches Ok(c) ==> final(self).clear_actor && forall|i: int| 0 <= i < 8 ==> (#[trigger] c.slots()[i]) == (
                if aap_ownership_listed().contains(i as usize) {
                    own_slot(config.slots()[i], lookup_flag(request.property@, aap_names()[i]), actor.id@, actor.field_type)
                } else {
                    config.slots()[i]
                }),
            final(self).previous_config.slots() == old(self).previous_config.slots(),
            final(self).previous_value == old(self).previous_value,
    {
        let names = aap_property_names();
        let listed = aap_ownership_ports();
        let slots = config.to_slots();
        let prev = self.previous_config.to_slots();
        proof {
            assert(names@.len() == 8);
            assert forall|i: int| 0 <= i < 8 implies (#[trigger] names@[i])@ == aap_names()[i] by {
                assert(names_view(names@)[i] == names@[i]@);
            }
        }
        let res = edit_ownership_slots(slots, &prev, &names, &listed, &request.property, actor);
        match res {
            Ok(v) => {
                let c = RelayModuleConfig::from_slots(v);
                proof {
                    assert forall|i: int| 0 <= i < 8 implies (#[trigger] c.slots()[i]) == (
                        if aap_ownership_listed().contains(i as usize) {
                            own_slot(config.slots()[i], lookup_flag(request.property@, aap_names()[i]), actor.id@, actor.field_type)
                        } else {
                            config.slots()[i]
                        }) by {
                        assert(c.slots()[i] == outlet_view(v@[i]));
                    }
                }
                self.clear_actor = true;
                Ok(c)
            },
            Err(e) => Err(e),
        }
    }

    /// Removing the configuration of a relay module keeps its running state.
    pub fn remove_config(&mut self, _actor: Actor) -> (r: Result<(), ModuleError>)
        ensures
            final(self).actors_property == old(self).actors_property,
            r is Ok,
            *final(self) == *old(self),
    {
        Ok(())
    }

    /// A relay module answers no module command.
    pub fn handle_command_validator(&mut self, _cmd: &str, _module_id: &String, _data: &Vec<u8>, _actor: Actor)
        -> (r: Result<Option<Vec<ModuleStateCmd>>, ModuleError>)
        ensures
            final(self).actors_property == old(self).actors_property,
            r matches Ok(None),
            *final(self) == *old(self),
    {
        Ok(None)
    }
}

} // verus!
