//! The commands the module state task receives: which handler a command goes to, what
//! it answers, and the small rules its handlers share.
use crate::mainboardstate::error::MainboardError;
use crate::modulestate::handle_state::{send_module_state, state_topic};
use crate::modulestate::interface::ModuleError;
use crate::modulestate::modules::{parse_config_target, ConfigTarget};
use crate::modulestate::relay::configure::handle_state_id;
use crate::modulestate::state_manager::MainboardModuleStateManager;
use crate::protos::module::{Actor, ActorType, ModuleData};
use crate::text::{after_last, after_last_char, before_last, before_last_char, str_eq};
use vstd::prelude::*;

verus! {

/// The handler a module command goes to.
#[derive(Clone, Copy, Debug, PartialEq, Eq, Structural)]
pub enum ModuleCommand {
    Sync,
    PropertyConfig,
    Ownership,
    ModuleConfig,
    RemoveModuleConfig,
    RegisterEnvironmentController,
    UnregisterEnvironmentController,
    AddAlarm,
    RemoveAlarm,
    UpdateAlarm,
    AddVirtualRelay,
    VirtualRelayConfig,
    RemoveVirtualRelay,
    /// Any other command goes to the validator of the module the topic names.
    Validator,
}

/// The command names and their handlers.
pub open spec fn command_table() -> Seq<(Seq<char>, ModuleCommand)> {
    seq![
        ("sync"@, ModuleCommand::Sync),
        ("pmconfig"@, ModuleCommand::PropertyConfig),
        ("oconfig"@, ModuleCommand::Ownership),
        ("mconfig"@, ModuleCommand::ModuleConfig),
        ("rmconfig"@, ModuleCommand::RemoveModuleConfig),
        ("aEnv"@, ModuleCommand::RegisterEnvironmentController),
        ("rEnv"@, ModuleCommand::UnregisterEnvironmentController),
        ("aAl"@, ModuleCommand::AddAlarm),
        ("rAl"@, ModuleCommand::RemoveAlarm),
        ("uAl"@, ModuleCommand::UpdateAlarm),
        ("addVr"@, ModuleCommand::AddVirtualRelay),
        ("vrconfig"@, ModuleCommand::VirtualRelayConfig),
        ("rmVr"@, ModuleCommand::RemoveVirtualRelay),
    ]
}

/// The handler of a command name: the one the table names, the module's validator
/// otherwise.
pub open spec fn command_of(cmd: Seq<char>) -> ModuleCommand {
    if exists|i: int| 0 <= i < command_table().len() && (#[trigger] command_table()[i]).0 == cmd {
        command_table()[choose|i: int| 0 <= i < command_table().len() && (#[trigger] command_table()[i]).0 == cmd].1
    } else {
        ModuleCommand::Validator
    }
}

/// The command names are distinct.
proof fn lemma_command_names_distinct()
    ensures
        forall|i: int, j: int| 0 <= i < j < command_table().len() ==> (#[trigger] command_table()[i]).0 != (#[trigger] command_table()[j]).0,
{
    reveal_strlit("sync");
    reveal_strlit("pmconfig");
    reveal_strlit("oconfig");
    reveal_strlit("mconfig");
    reveal_strlit("rmconfig");
    reveal_strlit("aEnv");
    reveal_strlit("rEnv");
    reveal_strlit("aAl");
    reveal_strlit("rAl");
    reveal_strlit("uAl");
    reveal_strlit("addVr");
    reveal_strlit("vrconfig");
    reveal_strlit("rmVr");
    let t = command_table();
    assert forall|i: int, j: int| 0 <= i < j < t.len() implies (#[trigger] t[i]).0 != (#[trigger] t[j]).0 by {
        if t[i].0.len() == t[j].0.len() {
            assert(t[i].0[0] != t[j].0[0] || t[i].0[1] != t[j].0[1] || t[i].0[2] != t[j].0[2]
                || t[i].0[3] != t[j].0[3]);
        }
    }
}

/// The name under which each handler is called; the module's validator is reached by any
/// other name.
pub open spec fn command_name(c: ModuleCommand) -> Seq<char> {
    match c {
        ModuleCommand::Sync => "sync"@,
        ModuleCommand::PropertyConfig => "pmconfig"@,
        ModuleCommand::Ownership => "oconfig"@,
        ModuleCommand::ModuleConfig => "mconfig"@,
        ModuleCommand::RemoveModuleConfig => "rmconfig"@,
        ModuleCommand::RegisterEnvironmentController => "aEnv"@,
        ModuleCommand::UnregisterEnvironmentController => "rEnv"@,
        ModuleCommand::AddAlarm => "aAl"@,
        ModuleCommand::RemoveAlarm => "rAl"@,
        ModuleCommand::UpdateAlarm => "uAl"@,
        ModuleCommand::AddVirtualRelay => "addVr"@,
        ModuleCommand::VirtualRelayConfig => "vrconfig"@,
        ModuleCommand::RemoveVirtualRelay => "rmVr"@,
        ModuleCommand::Validator => Seq::empty(),
    }
}

/// Whether a command acts on the module, virtual relay or controller that the last
/// segment of its topic names.
pub open spec fn targets_topic_id(c: ModuleCommand) -> bool {
    match c {
        ModuleCommand::PropertyConfig | ModuleCommand::Ownership | ModuleCommand::ModuleConfig
        | ModuleCommand::RemoveModuleConfig | ModuleCommand::UnregisterEnvironmentController
        | ModuleCommand::VirtualRelayConfig | ModuleCommand::RemoveVirtualRelay
        | ModuleCommand::Validator => true,
        _ => false,
    }
}

/// The name of an entry of the table finds that entry's handler.
pub proof fn lemma_command_of_entry(i: int)
    requires
        0 <= i < command_table().len(),
    ensures
        command_of(command_table()[i].0) == command_table()[i].1,
{
    lemma_command_names_distinct();
    let t = command_table();
    assert(0 <= i < t.len() && (#[trigger] t[i]).0 == t[i].0);
    let j = choose|j: int| 0 <= j < t.len() && (#[trigger] t[j]).0 == t[i].0;
    if j != i {
        if j < i {
            assert(t[j].0 != t[i].0);
        } else {
            assert(t[i].0 != t[j].0);
        }
    }
}

/// A name longer than eight chars names no handler of the table: it goes to the module's
/// validator.
pub proof fn lemma_command_of_long_name(n: Seq<char>)
    requires
        n.len() > 8,
    ensures
        command_of(n) == ModuleCommand::Validator,
{
    reveal_strlit("sync");
    reveal_strlit("pmconfig");
    reveal_strlit("oconfig");
    reveal_strlit("mconfig");
    reveal_strlit("rmconfig");
    reveal_strlit("aEnv");
    reveal_strlit("rEnv");
    reveal_strlit("aAl");
    reveal_strlit("rAl");
    reveal_strlit("uAl");
    reveal_strlit("addVr");
    reveal_strlit("vrconfig");
    reveal_strlit("rmVr");
    let t = command_table();
    assert forall|j: int| 0 <= j < t.len() implies (#[trigger] t[j]).0 != n by {
        assert(t[j].0.len() <= 8);
    }
}

/// Each handler has a name of its own: the name of a handler finds that handler, and a
/// name that finds a handler other than the module's validator is that handler's name. So
/// no two names reach the same handler.
pub proof fn lemma_command_names_round_trip(c: ModuleCommand, n: Seq<char>)
    ensures
        c != ModuleCommand::Validator ==> command_of(command_name(c)) == c,
        command_of(n) != ModuleCommand::Validator ==> command_name(command_of(n)) == n,
{
    let t = command_table();
    match c {
        ModuleCommand::Sync => lemma_command_of_entry(0),
        ModuleCommand::PropertyConfig => lemma_command_of_entry(1),
        ModuleCommand::Ownership => lemma_command_of_entry(2),
        ModuleCommand::ModuleConfig => lemma_command_of_entry(3),
        ModuleCommand::RemoveModuleConfig => lemma_command_of_entry(4),
        ModuleCommand::RegisterEnvironmentController => lemma_command_of_entry(5),
        ModuleCommand::UnregisterEnvironmentController => lemma_command_of_entry(6),
        ModuleCommand::AddAlarm => lemma_command_of_entry(7),
        ModuleCommand::RemoveAlarm => lemma_command_of_entry(8),
        ModuleCommand::UpdateAlarm => lemma_command_of_entry(9),
        ModuleCommand::AddVirtualRelay => lemma_command_of_entry(10),
        ModuleCommand::VirtualRelayConfig => lemma_command_of_entry(11),
        ModuleCommand::RemoveVirtualRelay => lemma_command_of_entry(12),
        ModuleCommand::Validator => {},
    }
    if command_of(n) != ModuleCommand::Validator {
        let i = choose|i: int| 0 <= i < t.len() && (#[trigger] t[i]).0 == n;
        lemma_command_of_entry(i);
        assert(command_name(t[i].1) == t[i].0) by {
            assert(0 <= i < 13);
            if i == 0 {} else if i == 1 {} else if i == 2 {} else if i == 3 {} else if i == 4 {}
            else if i == 5 {} else if i == 6 {} else if i == 7 {} else if i == 8 {} else if i == 9 {}
            else if i == 10 {} else if i == 11 {} else {}
        }
    }
}

/// Finds the handler of a module command by its name.
#[verifier::spinoff_prover]
pub fn parse_module_command(cmd: &str) -> (r: ModuleCommand)
    ensures
        r == command_of(cmd@),
{
    proof {
        lemma_command_names_distinct();
    }
    let names = vec!["sync", "pmconfig", "oconfig", "mconfig", "rmconfig", "aEnv", "rEnv", "aAl", "rAl", "uAl", "addVr", "vrconfig", "rmVr"];
    let handlers = vec![
        ModuleCommand::Sync,
        ModuleCommand::PropertyConfig,
        ModuleCommand::Ownership,
        ModuleCommand::ModuleConfig,
        ModuleCommand::RemoveModuleConfig,
        ModuleCommand::RegisterEnvironmentController,
        ModuleCommand::UnregisterEnvironmentController,
        ModuleCommand::AddAlarm,
        ModuleCommand::RemoveAlarm,
        ModuleCommand::UpdateAlarm,
        ModuleCommand::AddVirtualRelay,
        ModuleCommand::VirtualRelayConfig,
        ModuleCommand::RemoveVirtualRelay,
    ];
    let ghost t = command_table();
    assert(names@.len() == t.len() && handlers@.len() == t.len());
    assert(forall|k: int| 0 <= k < t.len() ==> (#[trigger] names@[k])@ == t[k].0 && handlers@[k] == t[k].1);
    let mut i: usize = 0;
    while i < names.len()
        invariant
            i <= names@.len(),
            names@.len() == t.len(),
            handlers@.len() == t.len(),
            t == command_table(),
            forall|k: int| 0 <= k < t.len() ==> (#[trigger] names@[k])@ == t[k].0 && handlers@[k] == t[k].1,
            forall|k: int| 0 <= k < i ==> (#[trigger] t[k]).0 != cmd@,
            forall|i: int, j: int| 0 <= i < j < t.len() ==> (#[trigger] t[i]).0 != (#[trigger] t[j]).0,
        decreases names@.len() - i,
    {
        if str_eq(names[i], cmd) {
            proof {
                assert(t[i as int].0 == cmd@);
                let c = choose|c: int| 0 <= c < t.len() && (#[trigger] t[c]).0 == cmd@;
                assert(c == i);
            }
            return handlers[i];
        }
        i = i + 1;
    }
    ModuleCommand::Validator
}

/// The answer to a command: status 0 when it succeeded, 500 and the error's message when
/// it failed.
pub fn command_response(result: &Result<(), MainboardError>) -> (r: (u32, String))
    ensures
        match result {
            Ok(_) => r.0 == 0 && r.1@.len() == 0,
            Err(e) => r.0 == 500 && r.1@ == e.message@,
        },
{
    match result {
        Ok(_) => (0, String::new()),
        Err(e) => (500, e.message.clone()),
    }
}

/// The state of every connected module, announced again for the cloud, in order.
pub fn handle_sync_request(manager: &MainboardModuleStateManager) -> (r: Vec<(String, ModuleData)>)
    ensures
        r@.len() == manager.connected_module@.len(),
        forall|i: int| 0 <= i < r@.len() ==> {
            let m = manager.connected_module@[i];
            &&& (#[trigger] r@[i]).0@ == state_topic(m.id@)
            &&& r@[i].1.id@ == m.id@ && r@[i].1.plug && r@[i].1.atIndex == m.port
            &&& r@[i].1.board@ == m.board@ && r@[i].1.boardAddr@ == m.board_addr@
        },
{
    let mut r: Vec<(String, ModuleData)> = Vec::new();
    let mut i: usize = 0;
    while i < manager.connected_module.len()
        invariant
            i <= manager.connected_module@.len(),
            r@.len() == i,
            forall|j: int| 0 <= j < i ==> {
                let m = manager.connected_module@[j];
                &&& (#[trigger] r@[j]).0@ == state_topic(m.id@)
                &&& r@[j].1.id@ == m.id@ && r@[j].1.plug && r@[j].1.atIndex == m.port
                &&& r@[j].1.board@ == m.board@ && r@[j].1.boardAddr@ == m.board_addr@
            },
        decreases manager.connected_module@.len() - i,
    {
        let m = &manager.connected_module[i];
        r.push(send_module_state(m.id.as_str(), m.port, true, &m.board, &m.board_addr));
        i = i + 1;
    }
    r
}

/// The module and the property a property command is about: the last two parts of its
/// topic, split at '/'; `None` when the topic holds no '/'.
pub fn property_target(topic: &String) -> (r: Option<(String, String)>)
    ensures
        match before_last(topic@, '/') {
            None => r is None,
            Some(p) => r matches Some((id, property)) && id@ == after_last(p, '/') && property@ == after_last(topic@, '/'),
        },
{
    match before_last_char(topic.as_str(), '/') {
        None => None,
        Some(p) => Some((after_last_char(p.as_str(), '/'), after_last_char(topic.as_str(), '/'))),
    }
}

/// The type tag a configuration is applied with: the module type alone for the whole
/// configuration, "TYPE:property" for one property.
pub open spec fn type_tag(module_type: Seq<char>, suffix: Seq<char>) -> Seq<char> {
    if suffix.len() == 0 { module_type } else { module_type + seq![':'] + suffix }
}

/// Builds the type tag of a configuration command for the module `id`.
pub fn config_type_tag(id: &str, suffix: &str) -> (r: String)
    requires
        id@.len() >= 3,
    ensures
        r@ == type_tag(id@.subrange(0, 3), suffix@),
{
    let t = id.substring_char(0, 3);
    if suffix.unicode_len() == 0 {
        String::from_str(t)
    } else {
        proof {
            reveal_strlit(":");
        }
        String::from_str(t).concat(":").concat(suffix)
    }
}

/// The part after the last ':' of `a`, ':' and `b` is `b` when `b` holds no ':'.
proof fn lemma_after_last_of_tag(a: Seq<char>, b: Seq<char>)
    requires
        !b.contains(':'),
    ensures
        after_last(a + seq![':'] + b, ':') == b,
    decreases b.len(),
{
    let s = a + seq![':'] + b;
    if b.len() == 0 {
        assert(s.last() == ':');
    } else {
        assert(s.last() == b.last());
        assert(b.last() != ':') by {
            assert(b[b.len() - 1] == b.last());
        }
        assert(!b.drop_last().contains(':')) by {
            if b.drop_last().contains(':') {
                let k = choose|k: int| 0 <= k < b.drop_last().len() && b.drop_last()[k] == ':';
                assert(b[k] == ':');
            }
        }
        assert(s.drop_last() =~= a + seq![':'] + b.drop_last());
        lemma_after_last_of_tag(a, b.drop_last());
        assert(b.drop_last().push(b.last()) =~= b);
    }
}

/// A configuration tagged for a property, read back, targets that property, and one
/// tagged with the module type alone targets the whole configuration.
pub proof fn lemma_type_tag_round_trip(module_type: Seq<char>, suffix: Seq<char>)
    requires
        !suffix.contains(':'),
    ensures
        suffix.len() == 0 ==> type_tag(module_type, suffix) == module_type,
        suffix.len() > 0 ==> type_tag(module_type, suffix) != module_type
            && after_last(type_tag(module_type, suffix), ':') == suffix,
{
    if suffix.len() > 0 {
        lemma_after_last_of_tag(module_type, suffix);
        assert(type_tag(module_type, suffix).len() > module_type.len());
    }
}

/// The topic on which a module's new configuration is published.
pub open spec fn config_updated_topic(id: Seq<char>) -> Seq<char> {
    "/m/"@ + id + "/config_updated"@
}

/// Where a module's applied configuration is announced: nowhere when the stored
/// configuration is merely replayed, on the module's configuration topic otherwise.
pub fn config_update_announcement(id: &str, actor: &Actor) -> (r: Option<String>)
    ensures
        actor.id@ == handle_state_id() ==> r is None,
        actor.id@ != handle_state_id() ==> (r matches Some(t) && t@ == config_updated_topic(id@)),
{
    proof {
        reveal_strlit("/m/");
        reveal_strlit("/config_updated");
    }
    if str_eq(actor.id.as_str(), "handle_state") {
        None
    } else {
        Some(String::from_str("/m/").concat(id).concat("/config_updated"))
    }
}

/// Where a configuration changed by an ownership request is announced: nowhere when a
/// user asked for it by hand, on the module's configuration topic otherwise.
pub fn ownership_announcement(id: &str, actor: &Actor) -> (r: Option<String>)
    ensures
        actor.field_type == ActorType::MANUAL_USER_ACTOR ==> r is None,
        actor.field_type != ActorType::MANUAL_USER_ACTOR ==> (r matches Some(t) && t@ == config_updated_topic(id@)),
{
    proof {
        reveal_strlit("/m/");
        reveal_strlit("/config_updated");
    }
    match actor.field_type {
        ActorType::MANUAL_USER_ACTOR => None,
        _ => Some(String::from_str("/m/").concat(id).concat("/config_updated")),
    }
}

/// Checks that the module a validator command names is connected.
pub fn handle_validator_command(module_id: &String, manager: &MainboardModuleStateManager) -> (r: Result<(), ModuleError>)
    ensures
        r is Ok <==> manager.ids().contains(module_id@),
        r matches Err(e) ==> e.message@ == crate::modulestate::interface::not_found_text() && e.module_id@ == module_id@,
{
    match manager.get_module(module_id.as_str()) {
        Some(m) => {
            proof {
                let k = choose|k: int| 0 <= k < manager.connected_module@.len() && manager.connected_module@[k] == *m;
                assert(manager.ids()[k] == module_id@);
            }
            Ok(())
        },
        None => Err(ModuleError::not_found(module_id.as_str())),
    }
}

} // verus!
