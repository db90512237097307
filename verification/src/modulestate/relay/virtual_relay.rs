//! Virtual relays: named groups of relays, on one or several modules, driven as one relay.
//! A virtual relay runs only while every module it names is connected.
use crate::comboard::ModuleConfig;
use crate::mainboardstate::error::{not_found_text, MainboardError};
use crate::modulestate::relay::configure::{
    configure_relay, configure_relay_ready, configure_relay_spec, RelayConfiguration,
    RelayConfigurationView,
};
use crate::modulestate::relay::physical_relay::{
    blank_buffer, blank_frame, ActionPortUnion, BatchPhysicalRelay, PhysicalRelay, RelayHandle,
};
use crate::modulestate::state_manager::{MainboardConnectedModule, MainboardModuleStateManager};
use crate::protos::module::{
    relay_keys, Actor, ActorType, RelayOutletConfig, RelayOutletConfigView, RelayOutletData,
    VirtualRelay as VirtualRelayDefinition, VirtualRelayData, VirtualRelayItem,
};
use crate::text::{contains_str, join_strings, join_with, str_eq, strs};
use vstd::prelude::*;

verus! {

/// Every module named in `keys` is among `modules`.
pub open spec fn has_required_modules(modules: Seq<Seq<char>>, keys: Seq<Seq<char>>) -> bool {
    forall|i: int| 0 <= i < keys.len() ==> modules.contains(#[trigger] keys[i])
}

/// The modules named in `keys` that are not among `modules`, in order.
pub open spec fn missing_modules(modules: Seq<Seq<char>>, keys: Seq<Seq<char>>) -> Seq<Seq<char>>
    decreases keys.len(),
{
    if keys.len() == 0 {
        Seq::empty()
    } else if modules.contains(keys.last()) {
        missing_modules(modules, keys.drop_last())
    } else {
        missing_modules(modules, keys.drop_last()).push(keys.last())
    }
}

/// Whether every module that a virtual relay names is among `modules`.
pub fn is_virtual_relay_required_module(modules: &Vec<String>, virtual_relay: &VirtualRelayDefinition) -> (r: bool)
    ensures
        r == has_required_modules(strs(modules@), virtual_relay.keys()),
{
    let mut i: usize = 0;
    while i < virtual_relay.relays.len()
        invariant
            i <= virtual_relay.relays@.len(),
            forall|j: int| 0 <= j < i ==> strs(modules@).contains(#[trigger] virtual_relay.keys()[j]),
        decreases virtual_relay.relays@.len() - i,
    {
        if !contains_str(modules, virtual_relay.relays[i].0.as_str()) {
            assert(!strs(modules@).contains(virtual_relay.keys()[i as int]));
            return false;
        }
        i = i + 1;
    }
    true
}

/// The modules that a virtual relay names and that are not among `modules`, in the order
/// of its definition.
pub fn get_missing_required_module(modules: &Vec<String>, virtual_relay: &VirtualRelayDefinition) -> (r: Vec<String>)
    ensures
        strs(r@) == missing_modules(strs(modules@), virtual_relay.keys()),
        forall|k: Seq<char>| #[trigger] strs(r@).contains(k) <==> (virtual_relay.keys().contains(k) && !strs(modules@).contains(k)),
        virtual_relay.well_formed() ==> strs(r@).no_duplicates(),
        r@.len() == 0 <==> has_required_modules(strs(modules@), virtual_relay.keys()),
{
    proof {
        lemma_missing_listed_once(strs(modules@), virtual_relay.keys());
        lemma_required_iff_nothing_missing(strs(modules@), virtual_relay.keys());
    }
    let ghost keys = virtual_relay.keys();
    let mut r: Vec<String> = Vec::new();
    let mut i: usize = 0;
    while i < virtual_relay.relays.len()
        invariant
            i <= virtual_relay.relays@.len(),
            keys == virtual_relay.keys(),
            strs(r@) == missing_modules(strs(modules@), keys.subrange(0, i as int)),
        decreases virtual_relay.relays@.len() - i,
    {
        let key = &virtual_relay.relays[i].0;
        proof {
            assert(keys.subrange(0, i + 1).drop_last() =~= keys.subrange(0, i as int));
            assert(keys.subrange(0, i + 1).last() == key@);
        }
        if !contains_str(modules, key.as_str()) {
            let k = key.clone();
            proof {
                assert(strs(r@.push(k)) =~= strs(r@).push(k@));
            }
            r.push(k);
        }
        i = i + 1;
    }
    proof {
        assert(keys.subrange(0, keys.len() as int) =~= keys);
    }
    r
}

/// A virtual relay runs exactly when none of its modules is missing.
pub proof fn lemma_required_iff_nothing_missing(modules: Seq<Seq<char>>, keys: Seq<Seq<char>>)
    ensures
        has_required_modules(modules, keys) <==> missing_modules(modules, keys).len() == 0,
    decreases keys.len(),
{
    if keys.len() > 0 {
        lemma_required_iff_nothing_missing(modules, keys.drop_last());
        if has_required_modules(modules, keys) {
            assert(modules.contains(keys[keys.len() - 1]));
            assert forall|i: int| 0 <= i < keys.drop_last().len() implies modules.contains(#[trigger] keys.drop_last()[i]) by {
                assert(keys.drop_last()[i] == keys[i]);
            }
        } else {
            let i = choose|i: int| 0 <= i < keys.len() && !modules.contains(#[trigger] keys[i]);
            if i < keys.len() - 1 {
                assert(keys.drop_last()[i] == keys[i]);
            }
        }
    }
}

/// The missing modules of a definition are exactly the named modules that are not among
/// `modules`; when a module is named once, it is listed at most once.
pub proof fn lemma_missing_listed_once(modules: Seq<Seq<char>>, keys: Seq<Seq<char>>)
    ensures
        forall|k: Seq<char>| #[trigger] missing_modules(modules, keys).contains(k) <==> (keys.contains(k) && !modules.contains(k)),
        keys.no_duplicates() ==> missing_modules(modules, keys).no_duplicates(),
    decreases keys.len(),
{
    if keys.len() > 0 {
        let rest = keys.drop_last();
        lemma_missing_listed_once(modules, rest);
        let m0 = missing_modules(modules, rest);
        assert forall|k: Seq<char>| #[trigger] missing_modules(modules, keys).contains(k) <==> (keys.contains(k) && !modules.contains(k)) by {
            if keys.contains(k) {
                let i = choose|i: int| 0 <= i < keys.len() && keys[i] == k;
                if i < keys.len() - 1 {
                    assert(rest[i] == k);
                }
            }
            if rest.contains(k) {
                let i = choose|i: int| 0 <= i < rest.len() && rest[i] == k;
                assert(keys[i] == k);
            }
            if !modules.contains(keys.last()) {
                let m = m0.push(keys.last());
                if m.contains(k) {
                    let i = choose|i: int| 0 <= i < m.len() && m[i] == k;
                    if i < m0.len() {
                        assert(m0[i] == k);
                    }
                }
                if m0.contains(k) {
                    let i = choose|i: int| 0 <= i < m0.len() && m0[i] == k;
                    assert(m[i] == k);
                }
                assert(m[m0.len() as int] == keys.last());
            }
        }
        if keys.no_duplicates() && !modules.contains(keys.last()) {
            assert(rest.no_duplicates()) by {
                assert forall|i: int, j: int| 0 <= i < rest.len() && 0 <= j < rest.len() && i != j implies rest[i] != rest[j] by {
                    assert(rest[i] == keys[i] && rest[j] == keys[j]);
                }
            }
            assert(!rest.contains(keys.last())) by {
                if rest.contains(keys.last()) {
                    let i = choose|i: int| 0 <= i < rest.len() && rest[i] == keys.last();
                    assert(keys[i] == keys[keys.len() - 1]);
                }
            }
            assert(!m0.contains(keys.last()));
            let m = m0.push(keys.last());
            assert forall|i: int, j: int| 0 <= i < m.len() && 0 <= j < m.len() && i != j implies m[i] != m[j] by {
                if i < m0.len() && j < m0.len() {
                    assert(m[i] == m0[i] && m[j] == m0[j]);
                } else if i < m0.len() {
                    assert(m[i] == m0[i]);
                } else if j < m0.len() {
                    assert(m[j] == m0[j]);
                }
            }
        } else if keys.no_duplicates() {
            assert(rest.no_duplicates()) by {
                assert forall|i: int, j: int| 0 <= i < rest.len() && 0 <= j < rest.len() && i != j implies rest[i] != rest[j] by {
                    assert(rest[i] == keys[i] && rest[j] == keys[j]);
                }
            }
        }
    }
}

/// The message that says which modules a virtual relay misses.
pub open spec fn missing_text(missing: Seq<Seq<char>>) -> Seq<char> {
    "[missing] "@ + join_with(missing, " "@)
}

/// Writes which modules a virtual relay misses: "[missing] " and their ids, separated by
/// spaces.
pub fn missing_message(missing: &Vec<String>) -> (r: String)
    ensures
        r@ == missing_text(strs(missing@)),
{
    proof {
        reveal_strlit("[missing] ");
    }
    let joined = join_strings(missing, " ");
    String::from_str("[missing] ").concat(joined.as_str())
}

/// A relay that drives the relays of a group together.
pub struct VirtualRelay {
    pub name: String,
    pub relays: Vec<RelayHandle>,
}

impl VirtualRelay {
    /// Each relay of the group is ready to be set.
    pub open spec fn well_formed(&self) -> bool {
        forall|i: int| 0 <= i < self.relays@.len() ==> (#[trigger] self.relays@[i]).well_formed()
    }

    pub fn new(name: &str) -> (r: VirtualRelay)
        ensures
            r.name@ == name@,
            r.relays@.len() == 0,
            r.well_formed(),
    {
        VirtualRelay { name: String::from_str(name), relays: Vec::new() }
    }

    /// Sets every relay of the group to `state`, in order, at time `now`: the frames to
    /// send, one per relay, and the state change to report.
    pub fn set_state(&mut self, state: u8, now: i32) -> (r: (Vec<ModuleConfig>, VirtualRelayData))
        requires
            old(self).well_formed(),
        ensures
            final(self).well_formed(),
            final(self).name == old(self).name,
            final(self).relays@.len() == old(self).relays@.len(),
            forall|i: int, s: u8| 0 <= i < old(self).relays@.len()
                ==> #[trigger] final(self).relays@[i].frame_for(s) == old(self).relays@[i].frame_for(s),
            r.0@.len() == old(self).relays@.len(),
            forall|i: int| 0 <= i < r.0@.len() ==> ((#[trigger] r.0@[i]).port, r.0@[i].data@) == old(self).relays@[i].frame_for(state),
            r.1 == (VirtualRelayData { data: RelayOutletData { state: state != 0, timestamp: 0 }, timestamp: now }),
    {
        let mut pending: Vec<RelayHandle> = Vec::new();
        std::mem::swap(&mut pending, &mut self.relays);
        let ghost orig = pending@;
        let total = pending.len();
        let mut frames: Vec<ModuleConfig> = Vec::new();
        let mut i: usize = 0;
        while pending.len() > 0
            invariant
                self.name == old(self).name,
                orig.len() == total,
                i + pending@.len() == orig.len(),
                pending@ == orig.subrange(i as int, orig.len() as int),
                forall|j: int| 0 <= j < orig.len() ==> (#[trigger] orig[j]).well_formed(),
                self.relays@.len() == i,
                frames@.len() == i,
                forall|j: int| 0 <= j < i ==> (#[trigger] self.relays@[j]).well_formed(),
                forall|j: int, s: u8| 0 <= j < i ==> #[trigger] self.relays@[j].frame_for(s) == orig[j].frame_for(s),
                forall|j: int| 0 <= j < i ==> ((#[trigger] frames@[j]).port, frames@[j].data@) == orig[j].frame_for(state),
            decreases pending@.len(),
        {
            let mut h = pending.remove(0);
            assert(h == orig[i as int]);
            let f = h.set_state(state);
            frames.push(f);
            self.relays.push(h);
            proof {
                assert(pending@ =~= orig.subrange(i + 1, orig.len() as int));
            }
            i = i + 1;
        }
        let data = VirtualRelayData { data: RelayOutletData { state: state != 0, timestamp: 0 }, timestamp: now };
        (frames, data)
    }

    /// The key of the group: its name.
    pub fn id(&self) -> (r: String)
        ensures
            r@ == self.name@,
    {
        self.name.clone()
    }

    /// A group with the same name whose relays send the same frames.
    pub fn clone_me(&self) -> (r: VirtualRelay)
        requires
            self.well_formed(),
        ensures
            r.well_formed(),
            r.name@ == self.name@,
            r.relays@.len() == self.relays@.len(),
            forall|i: int, s: u8| 0 <= i < self.relays@.len() ==> #[trigger] r.relays@[i].frame_for(s) == self.relays@[i].frame_for(s),
    {
        let mut relays: Vec<RelayHandle> = Vec::new();
        let mut i: usize = 0;
        while i < self.relays.len()
            invariant
                self.well_formed(),
                i <= self.relays@.len(),
                relays@.len() == i,
                forall|j: int| 0 <= j < i ==> (#[trigger] relays@[j]).well_formed(),
                forall|j: int, s: u8| 0 <= j < i ==> #[trigger] relays@[j].frame_for(s) == self.relays@[j].frame_for(s),
            decreases self.relays@.len() - i,
        {
            relays.push(self.relays[i].clone_me());
            i = i + 1;
        }
        VirtualRelay { name: self.name.clone(), relays }
    }
}

/// The port indices of a module's pins.
pub open spec fn pin_ports(item: VirtualRelayItem) -> Seq<usize> {
    item.properties@.map_values(|p: crate::protos::module::VirtualRelayItemPin| p.property as usize)
}

/// No pin of the module stands for "none" (-1).
pub open spec fn pins_set(item: VirtualRelayItem) -> bool {
    forall|j: int| 0 <= j < item.properties@.len() ==> (#[trigger] item.properties@[j]).property != -1
}

/// `h` drives the pins `item` of the module plugged at `port`: one pin by a single relay,
/// any other number of pins by a self-sending batch.
pub open spec fn drives(h: RelayHandle, port: i32, item: VirtualRelayItem) -> bool {
    match h {
        RelayHandle::Physical(p) => item.properties@.len() == 1 && p.port == port
            && p.action_port == item.properties@[0].property as usize,
        RelayHandle::Batch(b) => item.properties@.len() != 1 && b.port == port && b.auto_send
            && b.buffer@ == blank_frame() && b.action_port.is_array && b.action_port.port == 0
            && b.action_port.ports@ == pin_ports(item),
    }
}

/// The module with this id is connected at `port`.
pub open spec fn connected_at(modules: Seq<MainboardConnectedModule>, id: Seq<char>, port: i32) -> bool {
    exists|j: int| 0 <= j < modules.len() && (#[trigger] modules[j]).id@ == id && modules[j].port == port
}

/// `h` drives the pins of entry `e` on its module, as connected.
pub open spec fn built_from(modules: Seq<MainboardConnectedModule>, e: (String, VirtualRelayItem), h: RelayHandle) -> bool {
    exists|port: i32| connected_at(modules, e.0@, port) && drives(h, port, e.1)
}

/// The entry of a definition can be built: its module is connected and every pin is set.
pub open spec fn entry_buildable(manager: MainboardModuleStateManager, e: (String, VirtualRelayItem)) -> bool {
    manager.ids().contains(e.0@) && pins_set(e.1)
}

/// The message of an entry that cannot be built.
pub open spec fn entry_error(manager: MainboardModuleStateManager, e: (String, VirtualRelayItem)) -> Seq<char> {
    if !manager.ids().contains(e.0@) {
        not_found_text("virtual_relay"@, e.0@)
    } else {
        "failed to configure virtual relay receive property with index -1"@
    }
}

fn pins_all_set(item: &VirtualRelayItem) -> (r: bool)
    ensures
        r == pins_set(*item),
{
    let mut j: usize = 0;
    while j < item.properties.len()
        invariant
            j <= item.properties@.len(),
            forall|k: int| 0 <= k < j ==> (#[trigger] item.properties@[k]).property != -1,
        decreases item.properties@.len() - j,
    {
        if item.properties[j].property == -1 {
            return false;
        }
        j = j + 1;
    }
    true
}

fn relay_for(port: i32, item: &VirtualRelayItem) -> (r: RelayHandle)
    ensures
        drives(r, port, *item),
{
    if item.properties.len() == 1 {
        RelayHandle::Physical(PhysicalRelay { port, action_port: item.properties[0].property as usize })
    } else {
        let mut ports: Vec<usize> = Vec::new();
        let mut j: usize = 0;
        while j < item.properties.len()
            invariant
                j <= item.properties@.len(),
                ports@ == pin_ports(*item).subrange(0, j as int),
            decreases item.properties@.len() - j,
        {
            ports.push(item.properties[j].property as usize);
            proof {
                assert(ports@ =~= pin_ports(*item).subrange(0, j + 1));
            }
            j = j + 1;
        }
        proof {
            assert(ports@ =~= pin_ports(*item));
        }
        RelayHandle::Batch(BatchPhysicalRelay {
            buffer: blank_buffer(),
            port,
            auto_send: true,
            action_port: ActionPortUnion::new_ports(ports),
        })
    }
}

/// Builds the group that a definition describes, over the connected modules: one relay
/// per module of the definition, in order. Fails on the first module that is not
/// connected or that has a pin standing for "none".
pub fn create_virtual_relay(relay_config: &VirtualRelayDefinition, manager: &MainboardModuleStateManager)
    -> (r: Result<VirtualRelay, MainboardError>)
    ensures
        r is Ok <==> forall|i: int| 0 <= i < relay_config.relays@.len() ==> entry_buildable(*manager, #[trigger] relay_config.relays@[i]),
        r matches Ok(v) ==> {
            &&& v.name@ == relay_config.name@
            &&& v.relays@.len() == relay_config.relays@.len()
            &&& forall|i: int| 0 <= i < v.relays@.len() ==> built_from(manager.connected_module@, relay_config.relays@[i], #[trigger] v.relays@[i])
        },
        r matches Err(e) ==> exists|i: int| 0 <= i < relay_config.relays@.len()
            && !entry_buildable(*manager, #[trigger] relay_config.relays@[i])
            && (forall|j: int| 0 <= j < i ==> entry_buildable(*manager, #[trigger] relay_config.relays@[j]))
            && e.message@ == entry_error(*manager, relay_config.relays@[i]),
{
    let mut virtual_relay = VirtualRelay::new(relay_config.get_name());
    let mut i: usize = 0;
    while i < relay_config.relays.len()
        invariant
            i <= relay_config.relays@.len(),
            virtual_relay.name@ == relay_config.name@,
            virtual_relay.relays@.len() == i,
            forall|j: int| 0 <= j < i ==> entry_buildable(*manager, #[trigger] relay_config.relays@[j]),
            forall|j: int| 0 <= j < i ==> built_from(manager.connected_module@, relay_config.relays@[j], #[trigger] virtual_relay.relays@[j]),
        decreases relay_config.relays@.len() - i,
    {
        let entry = &relay_config.relays[i];
        let module_ref = match manager.get_module(entry.0.as_str()) {
            Some(m) => m,
            None => {
                proof {
                    assert(!entry_buildable(*manager, relay_config.relays@[i as int]));
                }
                return Err(MainboardError::not_found("virtual_relay", entry.0.as_str()));
            },
        };
        proof {
            let k = choose|k: int| 0 <= k < manager.connected_module@.len() && manager.connected_module@[k] == *module_ref;
            assert(manager.ids()[k] == entry.0@);
        }
        if !pins_all_set(&entry.1) {
            proof {
                reveal_strlit("failed to configure virtual relay receive property with index -1");
                assert(!entry_buildable(*manager, relay_config.relays@[i as int]));
            }
            return Err(MainboardError::new().message(
                String::from_str("failed to configure virtual relay receive property with index -1"),
            ));
        }
        let h = relay_for(module_ref.port, &entry.1);
        proof {
            let k = choose|k: int| 0 <= k < manager.connected_module@.len() && manager.connected_module@[k] == *module_ref;
            assert(manager.connected_module@[k].id@ == entry.0@);
            assert(connected_at(manager.connected_module@, entry.0@, module_ref.port));
            assert(built_from(manager.connected_module@, *entry, h));
        }
        virtual_relay.relays.push(h);
        i = i + 1;
    }
    Ok(virtual_relay)
}

/// The names of a list of groups.
pub open spec fn relay_names(s: Seq<VirtualRelay>) -> Seq<Seq<char>> {
    s.map_values(|v: VirtualRelay| v.name@)
}

/// The virtual relays that run, by name; a name occurs once.
pub struct VirtualRelayStore {
    pub virtual_relay_maps: Vec<VirtualRelay>,
}

/// The running names `after` are those of `before` but `id`.
pub open spec fn without_relay(before: Seq<Seq<char>>, after: Seq<Seq<char>>, id: Seq<char>) -> bool {
    forall|n: Seq<char>| #[trigger] after.contains(n) <==> (before.contains(n) && n != id)
}

/// The running names `after` are those of `before`, with `name` running exactly when it
/// `started`.
pub open spec fn with_relay(before: Seq<Seq<char>>, after: Seq<Seq<char>>, name: Seq<char>, started: bool) -> bool {
    forall|n: Seq<char>| #[trigger] after.contains(n) <==> (if n == name { started } else { before.contains(n) })
}

/// A virtual relay that did not run, started and then stopped, leaves the same virtual
/// relays running as before.
pub proof fn lemma_start_then_stop(before: Seq<Seq<char>>, mid: Seq<Seq<char>>, after: Seq<Seq<char>>, name: Seq<char>, started: bool)
    requires
        !before.contains(name),
        with_relay(before, mid, name, started),
        without_relay(mid, after, name),
    ensures
        forall|n: Seq<char>| #[trigger] after.contains(n) <==> before.contains(n),
{
    assert forall|n: Seq<char>| #[trigger] after.contains(n) <==> before.contains(n) by {
        assert(after.contains(n) <==> (mid.contains(n) && n != name));
        assert(mid.contains(n) <==> (if n == name { started } else { before.contains(n) }));
    }
}

impl VirtualRelayStore {
    pub open spec fn well_formed(&self) -> bool {
        relay_names(self.virtual_relay_maps@).no_duplicates()
    }

    pub open spec fn names(&self) -> Seq<Seq<char>> {
        relay_names(self.virtual_relay_maps@)
    }

    pub fn new() -> (r: VirtualRelayStore)
        ensures
            r.well_formed(),
            r.names().len() == 0,
    {
        let r = VirtualRelayStore { virtual_relay_maps: Vec::new() };
        assert(r.names() =~= Seq::<Seq<char>>::empty());
        r
    }

    /// Whether no name occurs twice.
    pub fn has_unique_names(&self) -> (r: bool)
        ensures
            r == self.well_formed(),
    {
        let mut names: Vec<&str> = Vec::new();
        let mut i: usize = 0;
        while i < self.virtual_relay_maps.len()
            invariant
                i <= self.virtual_relay_maps@.len(),
                names@.len() == i,
                forall|j: int| 0 <= j < i ==> (#[trigger] names@[j])@ == self.virtual_relay_maps@[j].name@,
            decreases self.virtual_relay_maps@.len() - i,
        {
            names.push(self.virtual_relay_maps[i].name.as_str());
            i = i + 1;
        }
        assert(names@.map_values(|s: &str| s@) =~= self.names());
        crate::text::texts_unique(&names)
    }

    fn index_of(&self, id: &str) -> (r: Option<usize>)
        ensures
            match r {
                Some(i) => i < self.virtual_relay_maps@.len() && self.virtual_relay_maps@[i as int].name@ == id@,
                None => !self.names().contains(id@),
            },
    {
        let mut i: usize = 0;
        while i < self.virtual_relay_maps.len()
            invariant
                i <= self.virtual_relay_maps@.len(),
                forall|j: int| 0 <= j < i ==> self.virtual_relay_maps@[j].name@ != id@,
            decreases self.virtual_relay_maps@.len() - i,
        {
            if str_eq(self.virtual_relay_maps[i].name.as_str(), id) {
                return Some(i);
            }
            i = i + 1;
        }
        proof {
            if self.names().contains(id@) {
                let j = choose|j: int| 0 <= j < self.names().len() && self.names()[j] == id@;
                assert(self.virtual_relay_maps@[j].name@ == id@);
            }
        }
        None
    }

    /// Whether a virtual relay of that name runs.
    pub fn is_created(&self, virtual_relay_id: &str) -> (r: bool)
        ensures
            r == self.names().contains(virtual_relay_id@),
    {
        match self.index_of(virtual_relay_id) {
            Some(i) => {
                assert(self.names()[i as int] == virtual_relay_id@);
                true
            },
            None => false,
        }
    }

    /// Stops the virtual relay of that name, returning it if it ran; its definition stays
    /// stored so that it can start again.
    pub fn stop_virtual_relay(&mut self, id: &str) -> (r: Option<VirtualRelay>)
        requires
            old(self).well_formed(),
        ensures
            final(self).well_formed(),
            r is Some <==> old(self).names().contains(id@),
            r matches Some(v) ==> v.name@ == id@ && old(self).virtual_relay_maps@.contains(v),
            without_relay(old(self).names(), final(self).names(), id@),
    {
        let ghost old_names = self.names();
        match self.index_of(id) {
            Some(i) => {
                let v = self.virtual_relay_maps.remove(i);
                proof {
                    assert(self.names() =~= old_names.remove(i as int));
                    assert(old_names[i as int] == id@);
                    assert forall|n: Seq<char>| self.names().contains(n) <==> (old_names.contains(n) && n != id@) by {
                        if self.names().contains(n) {
                            let j = choose|j: int| 0 <= j < self.names().len() && self.names()[j] == n;
                            if j < i {
                                assert(old_names[j] == n);
                            } else {
                                assert(old_names[j + 1] == n);
                            }
                        }
                        if old_names.contains(n) && n != id@ {
                            let j = choose|j: int| 0 <= j < old_names.len() && old_names[j] == n;
                            if j < i {
                                assert(self.names()[j] == n);
                            } else {
                                assert(j != i);
                                assert(self.names()[j - 1] == n);
                            }
                        }
                    }
                }
                Some(v)
            },
            None => None,
        }
    }

    /// Starts a virtual relay; one running under the same name is replaced.
    pub fn insert_relay(&mut self, relay: VirtualRelay)
        requires
            old(self).well_formed(),
        ensures
            final(self).well_formed(),
            forall|n: Seq<char>| final(self).names().contains(n) <==> (old(self).names().contains(n) || n == relay.name@),
            final(self).virtual_relay_maps@.contains(relay),
            forall|j: int| 0 <= j < old(self).virtual_relay_maps@.len() && old(self).virtual_relay_maps@[j].name@ != relay.name@
                ==> final(self).virtual_relay_maps@.contains(#[trigger] old(self).virtual_relay_maps@[j]),
    {
        let ghost old_names = self.names();
        let ghost old_maps = self.virtual_relay_maps@;
        let ghost name = relay.name@;
        let ghost g = relay;
        match self.index_of(relay.name.as_str()) {
            Some(i) => {
                self.virtual_relay_maps.set(i, relay);
                proof {
                    assert(self.names() =~= old_names);
                    assert(old_names[i as int] == name);
                    assert(self.virtual_relay_maps@[i as int] == g);
                    assert forall|j: int| 0 <= j < old_maps.len() && old_maps[j].name@ != name
                        implies self.virtual_relay_maps@.contains(#[trigger] old_maps[j]) by {
                        assert(j != i);
                        assert(self.virtual_relay_maps@[j] == old_maps[j]);
                    }
                }
            },
            None => {
                self.virtual_relay_maps.push(relay);
                proof {
                    assert(self.virtual_relay_maps@[old_maps.len() as int] == g);
                    assert forall|j: int| 0 <= j < old_maps.len() && old_maps[j].name@ != name
                        implies self.virtual_relay_maps@.contains(#[trigger] old_maps[j]) by {
                        assert(self.virtual_relay_maps@[j] == old_maps[j]);
                    }
                    assert(self.names() =~= old_names.push(name));
                    assert(self.names()[old_names.len() as int] == name);
                    assert forall|n: Seq<char>| self.names().contains(n) implies (old_names.contains(n) || n == name) by {
                        let j = choose|j: int| 0 <= j < self.names().len() && self.names()[j] == n;
                        if j < old_names.len() {
                            assert(old_names[j] == n);
                        }
                    }
                    assert forall|n: Seq<char>| old_names.contains(n) implies self.names().contains(n) by {
                        let j = choose|j: int| 0 <= j < old_names.len() && old_names[j] == n;
                        assert(self.names()[j] == n);
                    }
                }
            },
        }
    }

    /// Starts the virtual relay that `relay_config` defines over the connected modules; one
    /// running under its name is stopped first and returned, its job to be cancelled. When
    /// the definition cannot be built, the error says why and nothing more starts.
    pub fn initialize_virtual_relay(&mut self, relay_config: &VirtualRelayDefinition, manager: &MainboardModuleStateManager)
        -> (r: Result<Option<VirtualRelay>, MainboardError>)
        requires
            old(self).well_formed(),
        ensures
            final(self).well_formed(),
            r is Ok <==> forall|i: int| 0 <= i < relay_config.relays@.len() ==> entry_buildable(*manager, #[trigger] relay_config.relays@[i]),
            r matches Ok(replaced) ==> (replaced is Some <==> old(self).names().contains(relay_config.name@)),
            r matches Ok(Some(g)) ==> g.name@ == relay_config.name@ && old(self).virtual_relay_maps@.contains(g),
            r is Ok ==> exists|g: VirtualRelay| #[trigger] final(self).virtual_relay_maps@.contains(g)
                && g.name@ == relay_config.name@ && g.relays@.len() == relay_config.relays@.len()
                && forall|i: int| 0 <= i < g.relays@.len() ==> built_from(manager.connected_module@, relay_config.relays@[i], #[trigger] g.relays@[i]),
            r matches Err(e) ==> exists|i: int| 0 <= i < relay_config.relays@.len()
                && !entry_buildable(*manager, #[trigger] relay_config.relays@[i])
                && (forall|j: int| 0 <= j < i ==> entry_buildable(*manager, #[trigger] relay_config.relays@[j]))
                && e.message@ == entry_error(*manager, relay_config.relays@[i]),
            with_relay(old(self).names(), final(self).names(), relay_config.name@, r is Ok),
    {
        let replaced = self.stop_virtual_relay(relay_config.get_name());
        match create_virtual_relay(relay_config, manager) {
            Ok(v) => {
                let ghost gv = v;
                self.insert_relay(v);
                proof {
                    assert(self.virtual_relay_maps@.contains(gv));
                }
                Ok(replaced)
            },
            Err(e) => Err(e),
        }
    }

    /// Decides how the running virtual relay `id` takes the outlet configuration `config`
    /// sent by `actor`, as a relay configured for the first time. Fails when no virtual
    /// relay of that name runs.
    pub fn apply_config_virtual_relay(&self, id: &str, config: &RelayOutletConfig, actor: &Actor)
        -> (r: Result<RelayConfiguration, MainboardError>)
        requires
            configure_relay_ready(Some(config@), None),
        ensures
            r is Ok <==> self.names().contains(id@),
            r matches Ok(d) ==> d@ == configure_relay_spec(Some(config@), None, actor.id@, actor.field_type, false),
            r matches Err(e) ==> e.message@ == not_found_text("virtual_relay"@, id@),
    {
        if self.is_created(id) {
            match configure_relay(Some(config), None, actor, false) {
                Ok(d) => Ok(d),
                Err(_) => Err(MainboardError::not_found("virtual_relay", id)),
            }
        } else {
            Err(MainboardError::not_found("virtual_relay", id))
        }
    }
}

} // verus!

verus! {

/// What reconciling the virtual relays with the connected modules did to one of them.
pub enum VirtualRelayEvent {
    /// It was created and runs; its stored outlet configuration, if any, gave this decision.
    Created(String, Option<RelayConfiguration>),
    /// It cannot run: these modules are missing.
    Missing(String, Vec<String>),
    /// It was stopped, these modules being missing; its job must be cancelled.
    Stopped(String, Vec<String>),
}

pub enum VirtualRelayEventView {
    Created(Seq<char>, Option<RelayConfigurationView>),
    Missing(Seq<char>, Seq<Seq<char>>),
    Stopped(Seq<char>, Seq<Seq<char>>),
}

impl View for VirtualRelayEvent {
    type V = VirtualRelayEventView;

    open spec fn view(&self) -> VirtualRelayEventView {
        match self {
            VirtualRelayEvent::Created(n, d) => VirtualRelayEventView::Created(n@, match d {
                Some(d) => Some(d@),
                None => None,
            }),
            VirtualRelayEvent::Missing(n, m) => VirtualRelayEventView::Missing(n@, strs(m@)),
            VirtualRelayEvent::Stopped(n, m) => VirtualRelayEventView::Stopped(n@, strs(m@)),
        }
    }
}

pub open spec fn events_view(s: Seq<VirtualRelayEvent>) -> Seq<VirtualRelayEventView> {
    s.map_values(|e: VirtualRelayEvent| e@)
}

/// A stored definition with its stored outlet configuration.
pub type StoredRelay = (VirtualRelayDefinition, Option<RelayOutletConfig>);

/// The names of stored definitions.
pub open spec fn stored_names(s: Seq<StoredRelay>) -> Seq<Seq<char>> {
    s.map_values(|d: StoredRelay| d.0.name@)
}

/// A stored virtual relay that does not run while all its modules are connected starts.
pub open spec fn starts(running: Seq<Seq<char>>, connected: Seq<Seq<char>>, d: StoredRelay) -> bool {
    !running.contains(d.0.name@) && has_required_modules(connected, d.0.keys())
}

/// A running virtual relay that misses a module stops.
pub open spec fn stops(running: Seq<Seq<char>>, connected: Seq<Seq<char>>, d: StoredRelay) -> bool {
    running.contains(d.0.name@) && !has_required_modules(connected, d.0.keys())
}

/// What the stored configuration decides for a virtual relay that starts.
pub open spec fn start_decision(d: StoredRelay, actor: Actor) -> Option<RelayConfigurationView> {
    match d.1 {
        Some(c) => Some(configure_relay_spec(Some(c@), None, actor.id@, actor.field_type, false)),
        None => None,
    }
}

/// The event that reconciling a stored virtual relay yields, if any: on a connection, a
/// relay that does not run starts when all its modules are there and is reported missing
/// modules otherwise; on a disconnection, a running relay that misses a module stops.
pub open spec fn reconcile_event(running: Seq<Seq<char>>, connected: Seq<Seq<char>>, state: bool, d: StoredRelay, actor: Actor)
    -> Option<VirtualRelayEventView> {
    let name = d.0.name@;
    let keys = d.0.keys();
    if state {
        if running.contains(name) {
            None
        } else if has_required_modules(connected, keys) {
            Some(VirtualRelayEventView::Created(name, start_decision(d, actor)))
        } else {
            Some(VirtualRelayEventView::Missing(name, missing_modules(connected, keys)))
        }
    } else if stops(running, connected, d) {
        Some(VirtualRelayEventView::Stopped(name, missing_modules(connected, keys)))
    } else {
        None
    }
}

/// The events of the first `n` stored virtual relays, in order.
pub open spec fn reconcile_events(running: Seq<Seq<char>>, connected: Seq<Seq<char>>, state: bool, stored: Seq<StoredRelay>, actor: Actor, n: int)
    -> Seq<VirtualRelayEventView>
    decreases n,
{
    if n <= 0 {
        Seq::empty()
    } else {
        let rest = reconcile_events(running, connected, state, stored, actor, n - 1);
        match reconcile_event(running, connected, state, stored[n - 1], actor) {
            Some(e) => rest.push(e),
            None => rest,
        }
    }
}

/// A virtual relay runs after reconciling: on a connection, when it ran or starts; on a
/// disconnection, when it ran and does not stop.
pub open spec fn runs_after(running: Seq<Seq<char>>, connected: Seq<Seq<char>>, state: bool, stored: Seq<StoredRelay>, n: Seq<char>) -> bool {
    if state {
        running.contains(n) || exists|i: int| 0 <= i < stored.len() && stored[i].0.name@ == n && starts(running, connected, #[trigger] stored[i])
    } else {
        running.contains(n) && !exists|i: int| 0 <= i < stored.len() && stored[i].0.name@ == n && stops(running, connected, #[trigger] stored[i])
    }
}

/// A virtual relay that would start can be built and its stored configuration applied.
pub open spec fn startable(d: StoredRelay) -> bool {
    &&& forall|k: int| 0 <= k < d.0.relays@.len() ==> pins_set((#[trigger] d.0.relays@[k]).1)
    &&& d.1 matches Some(c) ==> configure_relay_ready(Some(c@), None)
}

impl VirtualRelayStore {
    /// Reconciles the stored virtual relays with the modules connected after a module
    /// connected (`state`) or disconnected: relays start or stop as their modules come and
    /// go, and each change, or each relay that cannot start, is reported in the stored
    /// order. A relay that starts takes its stored configuration, applied by `actor`.
    pub fn on_module_state_changed_virtual_relays(
        &mut self,
        state: bool,
        stored: &Vec<StoredRelay>,
        manager: &MainboardModuleStateManager,
        actor: &Actor,
    ) -> (r: Vec<VirtualRelayEvent>)
        requires
            old(self).well_formed(),
            manager.well_formed(),
            stored_names(stored@).no_duplicates(),
            forall|i: int| 0 <= i < stored@.len() && starts(old(self).names(), manager.ids(), #[trigger] stored@[i])
                ==> startable(stored@[i]),
        ensures
            final(self).well_formed(),
            events_view(r@) == reconcile_events(old(self).names(), manager.ids(), state, stored@, *actor, stored@.len() as int),
            forall|n: Seq<char>| #[trigger] final(self).names().contains(n) <==> runs_after(old(self).names(), manager.ids(), state, stored@, n),
    {
        let ghost running = self.names();
        let connected = manager.get_connected_modules();
        let ghost conn = manager.ids();
        proof {
            assert(strs(connected@) =~= conn);
        }
        let mut events: Vec<VirtualRelayEvent> = Vec::new();
        let mut i: usize = 0;
        while i < stored.len()
            invariant
                i <= stored@.len(),
                self.well_formed(),
                manager.well_formed(),
                running == old(self).names(),
                conn == manager.ids(),
                strs(connected@) == conn,
                stored_names(stored@).no_duplicates(),
                forall|j: int| 0 <= j < stored@.len() && starts(running, conn, #[trigger] stored@[j]) ==> startable(stored@[j]),
                events_view(events@) == reconcile_events(running, conn, state, stored@, *actor, i as int),
                forall|n: Seq<char>| #[trigger] self.names().contains(n) <==> runs_after(running, conn, state, stored@.subrange(0, i as int), n),
            decreases stored@.len() - i,
        {
            let def = &stored[i].0;
            let ghost d = stored@[i as int];
            let ghost name = d.0.name@;
            let ghost before = self.names();
            proof {
                assert(stored@.subrange(0, i + 1).drop_last() =~= stored@.subrange(0, i as int));
                // no earlier definition shares this name, so it ran before iff it ran at first
                assert forall|j: int| 0 <= j < i implies stored@[j].0.name@ != name by {
                    assert(stored_names(stored@)[j] == stored@[j].0.name@);
                    assert(stored_names(stored@)[i as int] == name);
                }
            }
            let created = self.is_created(def.get_name());
            proof {
                assert(created == running.contains(name)) by {
                    if running.contains(name) != before.contains(name) {
                        if state {
                            let j = choose|j: int| 0 <= j < i && stored@.subrange(0, i as int)[j].0.name@ == name
                                && starts(running, conn, #[trigger] stored@.subrange(0, i as int)[j]);
                            assert(stored@[j].0.name@ == name);
                        } else {
                            let j = choose|j: int| 0 <= j < i && stored@.subrange(0, i as int)[j].0.name@ == name
                                && stops(running, conn, #[trigger] stored@.subrange(0, i as int)[j]);
                            assert(stored@[j].0.name@ == name);
                        }
                    }
                }
            }
            let ghost events_before = events_view(events@);
            if state {
                if !created {
                    if is_virtual_relay_required_module(&connected, def) {
                        proof {
                            assert(starts(running, conn, d));
                            assert forall|k: int| 0 <= k < def.relays@.len() implies entry_buildable(*manager, #[trigger] def.relays@[k]) by {
                                assert(def.keys()[k] == def.relays@[k].0@);
                            }
                        }
                        match create_virtual_relay(def, manager) {
                            Ok(v) => {
                                self.insert_relay(v);
                            },
                            Err(_) => {},
                        }
                        let decision = match &stored[i].1 {
                            Some(c) => match configure_relay(Some(c), None, actor, false) {
                                Ok(dec) => Some(dec),
                                Err(_) => None,
                            },
                            None => None,
                        };
                        let ev = VirtualRelayEvent::Created(def.name.clone(), decision);
                        proof {
                            assert(events_view(events@.push(ev)) =~= events_before.push(ev@));
                        }
                        events.push(ev);
                    } else {
                        let missing = get_missing_required_module(&connected, def);
                        let ev = VirtualRelayEvent::Missing(def.name.clone(), missing);
                        proof {
                            assert(events_view(events@.push(ev)) =~= events_before.push(ev@));
                        }
                        events.push(ev);
                    }
                }
            } else {
                if created && !is_virtual_relay_required_module(&connected, def) {
                    let _stopped = self.stop_virtual_relay(def.get_name());
                    let missing = get_missing_required_module(&connected, def);
                    let ev = VirtualRelayEvent::Stopped(def.name.clone(), missing);
                    proof {
                        assert(events_view(events@.push(ev)) =~= events_before.push(ev@));
                    }
                    events.push(ev);
                }
            }
            proof {
                let pre = stored@.subrange(0, i as int);
                let nxt = stored@.subrange(0, i + 1);
                assert(nxt[i as int] == d);
                assert forall|n: Seq<char>| #[trigger] self.names().contains(n) <==> runs_after(running, conn, state, nxt, n) by {
                    if state {
                        if runs_after(running, conn, state, pre, n) && !running.contains(n) {
                            let j = choose|j: int| 0 <= j < pre.len() && pre[j].0.name@ == n && starts(running, conn, #[trigger] pre[j]);
                            assert(nxt[j] == pre[j]);
                        }
                        if runs_after(running, conn, state, nxt, n) && !running.contains(n) {
                            let j = choose|j: int| 0 <= j < nxt.len() && nxt[j].0.name@ == n && starts(running, conn, #[trigger] nxt[j]);
                            if j < i {
                                assert(pre[j] == nxt[j]);
                            }
                        }
                    } else {
                        if runs_after(running, conn, state, pre, n) && !runs_after(running, conn, state, nxt, n) {
                            let j = choose|j: int| 0 <= j < nxt.len() && nxt[j].0.name@ == n && stops(running, conn, #[trigger] nxt[j]);
                            if j < i {
                                assert(pre[j] == nxt[j]);
                            }
                        }
                        if runs_after(running, conn, state, nxt, n) && !runs_after(running, conn, state, pre, n) && running.contains(n) {
                            let j = choose|j: int| 0 <= j < pre.len() && pre[j].0.name@ == n && stops(running, conn, #[trigger] pre[j]);
                            assert(nxt[j] == pre[j]);
                        }
                    }
                }
            }
            i = i + 1;
        }
        proof {
            assert(stored@.subrange(0, stored@.len() as int) =~= stored@);
        }
        events
    }
}

} // verus!
