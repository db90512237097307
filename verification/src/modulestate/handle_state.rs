//! What happens when a module is plugged into or pulled out of a board.
use crate::comboard::ModuleStateChangeEvent;
use crate::mainboardstate::error::MainboardError;
use crate::modulestate::modules::{fresh_validator_for, get_module_validator, known_module_types, ModuleValidator};
use crate::modulestate::state_manager::{module_ids, MainboardConnectedModule, MainboardModuleStateManager};
use crate::protos::module::ModuleData;
use vstd::prelude::*;

verus! {

pub open spec fn is_capital(c: char) -> bool {
    'A' <= c && c <= 'Z'
}

pub open spec fn is_capital_or_digit(c: char) -> bool {
    is_capital(c) || ('0' <= c && c <= '9')
}

/// Twelve chars of `s` from `i` on are three capitals followed by nine capitals or digits.
pub open spec fn module_id_at(s: Seq<char>, i: int) -> bool {
    &&& 0 <= i && i + 12 <= s.len()
    &&& forall|k: int| 0 <= k < 3 ==> is_capital(#[trigger] s[i + k])
    &&& forall|k: int| 3 <= k < 12 ==> is_capital_or_digit(#[trigger] s[i + k])
}

/// `s` holds a module id somewhere.
pub open spec fn has_module_id(s: Seq<char>) -> bool {
    exists|i: int| #[trigger] module_id_at(s, i)
}

/// Calls `regex::Regex::is_match` with the pattern `[A-Z]{3}[A-Z0-9]{9}`, which the
/// crate documents as true exactly when the pattern matches somewhere in the text: some
/// twelve consecutive chars are three ASCII capitals then nine ASCII capitals or digits.
#[verifier::external_body]
fn module_id_pattern_matches(id: &str) -> (r: bool)
    ensures
        r == has_module_id(id@),
{
    regex::Regex::new("[A-Z]{3}[A-Z0-9]{9}").unwrap().is_match(id)
}

/// Whether a module id is well formed: it holds three capitals followed by nine capitals
/// or digits.
pub fn valid_module_id(module_id: &String) -> (r: bool)
    ensures
        r == has_module_id(module_id@),
{
    module_id_pattern_matches(module_id.as_str())
}

/// The topic on which a module's plug state is published.
pub open spec fn state_topic(id: Seq<char>) -> Seq<char> {
    "/m/"@ + id + "/state"@
}

/// The message announcing that the module `id` is plugged (`state`) or not at `port` of
/// the board: its topic and its payload.
pub fn send_module_state(id: &str, port: i32, state: bool, board: &String, board_addr: &String) -> (r: (String, ModuleData))
    ensures
        r.0@ == state_topic(id@),
        r.1.id@ == id@,
        r.1.plug == state,
        r.1.atIndex == port,
        r.1.board@ == board@,
        r.1.boardAddr@ == board_addr@,
{
    proof {
        reveal_strlit("/m/");
        reveal_strlit("/state");
    }
    let topic = String::from_str("/m/").concat(id).concat("/state");
    let data = ModuleData {
        id: String::from_str(id),
        plug: state,
        atIndex: port,
        board: board.clone(),
        boardAddr: board_addr.clone(),
    };
    (topic, data)
}

/// The type of a module: the first three chars of its id.
pub fn module_type(id: &str) -> (r: &str)
    requires
        id@.len() >= 3,
    ensures
        r@ == id@.subrange(0, 3),
{
    id.substring_char(0, 3)
}

/// What handling a plug change did.
pub enum ModuleStateOutcome {
    /// The module is registered with this validator; the message announces it.
    Connected(ModuleValidator, (String, ModuleData)),
    /// The module is forgotten; the message announces it.
    Disconnected(MainboardConnectedModule, (String, ModuleData)),
    /// A module that was not registered was pulled out.
    Unknown,
}

/// The message of a plug change from an id that is not well formed.
pub open spec fn invalid_id_text(id: Seq<char>) -> Seq<char> {
    "id receive is invalid "@ + id
}

/// The module the event describes.
pub open spec fn event_module(m: MainboardConnectedModule, e: ModuleStateChangeEvent) -> bool {
    m.port == e.port && m.id@ == e.id@ && m.board@ == e.board@ && m.board_addr@ == e.board_addr@
}

/// The registry `after` is `before` with the module that `e` describes registered: in
/// place of the module of that id, or at the end when none had it.
pub open spec fn registered(before: Seq<MainboardConnectedModule>, after: Seq<MainboardConnectedModule>, e: ModuleStateChangeEvent) -> bool {
    exists|m: MainboardConnectedModule| #[trigger] event_module(m, e) && if module_ids(before).contains(e.id@) {
        exists|i: int| 0 <= i < before.len() && before[i].id@ == e.id@ && after == before.update(i, m)
    } else {
        after == before.push(m)
    }
}

/// The registry `after` is `before` without the module of id `id`, if it had one.
pub open spec fn unregistered(before: Seq<MainboardConnectedModule>, after: Seq<MainboardConnectedModule>, id: Seq<char>) -> bool {
    if module_ids(before).contains(id) {
        exists|i: int| 0 <= i < before.len() && before[i].id@ == id && after == before.remove(i)
    } else {
        after == before
    }
}

/// A module plugged in and then pulled out leaves the registry as it was before, when it
/// was not registered.
pub proof fn lemma_plug_then_unplug(
    before: Seq<MainboardConnectedModule>,
    mid: Seq<MainboardConnectedModule>,
    after: Seq<MainboardConnectedModule>,
    e: ModuleStateChangeEvent,
)
    requires
        !module_ids(before).contains(e.id@),
        module_ids(mid).no_duplicates(),
        registered(before, mid, e),
        unregistered(mid, after, e.id@),
    ensures
        after == before,
{
    let m = choose|m: MainboardConnectedModule| #[trigger] event_module(m, e) && mid == before.push(m);
    assert(module_ids(mid)[before.len() as int] == e.id@);
    assert(module_ids(mid).contains(e.id@));
    let i = choose|i: int| 0 <= i < mid.len() && mid[i].id@ == e.id@ && after == mid.remove(i);
    assert(module_ids(mid)[i] == e.id@);
    assert(i == before.len());
    assert(after =~= before);
}

/// Handles a module plugged in or pulled out. A plug change from an id that is not well
/// formed is refused. A plugged module is registered under its id, with the validator of
/// its type (an unknown type is refused); a pulled module is forgotten. Either change is
/// announced by the message returned.
pub fn handle_module_state(manager: &mut MainboardModuleStateManager, state: &ModuleStateChangeEvent)
    -> (r: Result<ModuleStateOutcome, MainboardError>)
    requires
        old(manager).well_formed(),
    ensures
        final(manager).well_formed(),
        !has_module_id(state.id@) ==> (r matches Err(e) && e.message@ == invalid_id_text(state.id@)
            && final(manager).connected_module@ == old(manager).connected_module@),
        has_module_id(state.id@) && state.state ==> {
            let t = state.id@.subrange(0, 3);
            &&& known_module_types().contains(t) ==> (r matches Ok(ModuleStateOutcome::Connected(v, msg))
                && fresh_validator_for(t, v)
                && msg.0@ == state_topic(state.id@) && msg.1.id@ == state.id@ && msg.1.plug && msg.1.atIndex == state.port
                && msg.1.board@ == state.board@ && msg.1.boardAddr@ == state.board_addr@
                && final(manager).ids().contains(state.id@)
                && registered(old(manager).connected_module@, final(manager).connected_module@, *state)
                && exists|i: int| 0 <= i < final(manager).connected_module@.len()
                    && event_module(#[trigger] final(manager).connected_module@[i], *state))
            &&& !known_module_types().contains(t) ==> (r matches Err(e) && e.message@ == "cannot find validator for module type"@
                && final(manager).connected_module@ == old(manager).connected_module@)
        },
        has_module_id(state.id@) && !state.state ==> {
            &&& !final(manager).ids().contains(state.id@)
            &&& unregistered(old(manager).connected_module@, final(manager).connected_module@, state.id@)
            &&& old(manager).ids().contains(state.id@) ==> (r matches Ok(ModuleStateOutcome::Disconnected(m, msg))
                && m.id@ == state.id@ && msg.0@ == state_topic(state.id@) && msg.1.id@ == state.id@ && !msg.1.plug
                && msg.1.atIndex == state.port && msg.1.board@ == state.board@ && msg.1.boardAddr@ == state.board_addr@)
            &&& !old(manager).ids().contains(state.id@) ==> r matches Ok(ModuleStateOutcome::Unknown)
        },
{
    if !valid_module_id(&state.id) {
        proof {
            reveal_strlit("id receive is invalid ");
        }
        return Err(MainboardError::from_error(String::from_str("id receive is invalid ").concat(state.id.as_str())));
    }
    proof {
        let i = choose|i: int| #[trigger] module_id_at(state.id@, i);
        assert(i + 12 <= state.id@.len());
    }
    if state.state {
        let t = module_type(state.id.as_str());
        let validator = match get_module_validator(t) {
            Ok(v) => v,
            Err(e) => {
                return Err(e);
            },
        };
        let m = MainboardConnectedModule {
            port: state.port,
            id: state.id.clone(),
            board: state.board.clone(),
            board_addr: state.board_addr.clone(),
        };
        let ghost gm = m;
        let ghost before = manager.connected_module@;
        manager.insert_module(m);
        proof {
            let after = manager.connected_module@;
            assert(event_module(gm, *state));
            if module_ids(before).contains(gm.id@) {
                let i = choose|i: int| 0 <= i < before.len() && before[i].id@ == gm.id@ && after == before.update(i, gm);
                assert(after[i] == gm);
                assert(manager.ids()[i] == gm.id@);
                assert(event_module(after[i], *state));
            } else {
                assert(after[before.len() as int] == gm);
                assert(manager.ids()[before.len() as int] == gm.id@);
                assert(event_module(after[before.len() as int], *state));
            }
            assert(registered(before, after, *state));
        }
        let msg = send_module_state(state.id.as_str(), state.port, true, &state.board, &state.board_addr);
        Ok(ModuleStateOutcome::Connected(validator, msg))
    } else {
        let ghost before = manager.connected_module@;
        match manager.remove_module(state.id.as_str()) {
            Some(m) => {
                proof {
                    let i = choose|i: int| 0 <= i < before.len() && before[i] == m
                        && manager.connected_module@ == before.remove(i);
                    assert(module_ids(before)[i] == state.id@);
                    assert(unregistered(before, manager.connected_module@, state.id@));
                }
                let msg = send_module_state(state.id.as_str(), state.port, false, &state.board, &state.board_addr);
                Ok(ModuleStateOutcome::Disconnected(m, msg))
            },
            None => Ok(ModuleStateOutcome::Unknown),
        }
    }
}

} // verus!
