//! What becomes of a reading that a board sends for one of its ports.
use crate::mainboardstate::error::{not_found_text, MainboardError};
use crate::modulestate::aas::probe_changes;
use crate::modulestate::modules::states_differ;
use crate::modulestate::state_manager::{sits_at, MainboardModuleStateManager};
use crate::protos::module::{RelayOutletData, SOILModuleDataView};
use crate::utils::differs_by;
use vstd::prelude::*;

verus! {

/// The topic on which a module's readings are published.
pub open spec fn data_topic(id: Seq<char>) -> Seq<char> {
    "/m/"@ + id + "/data"@
}

/// Where a reading goes: published on `topic` and kept as the module's last reading, or
/// dropped; its value changes, if published, go to the alarms when there are some.
pub struct ValueRouting {
    pub topic: String,
    pub publish: bool,
    pub forward_to_alarms: bool,
}

/// Routes a reading from port `port` of the given board. `change` is what the module's
/// validator says of it against the last reading (whether it changed, and how many value
/// changes it carries), or `None` when there is no last reading yet. The first reading
/// and every changed one are published; unchanged ones are dropped. A reading from a port
/// where no module is registered is refused.
pub fn handle_module_value(
    manager: &MainboardModuleStateManager,
    board: &String,
    board_addr: &String,
    port: i32,
    change: Option<(bool, usize)>,
) -> (r: Result<ValueRouting, MainboardError>)
    ensures
        r is Err <==> forall|j: int| 0 <= j < manager.connected_module@.len()
            ==> !sits_at(#[trigger] manager.connected_module@[j], board@, board_addr@, port),
        r matches Err(e) ==> e.message@ == not_found_text("module_port"@, ""@),
        r matches Ok(v) ==> {
            &&& exists|j: int| 0 <= j < manager.connected_module@.len()
                && sits_at(#[trigger] manager.connected_module@[j], board@, board_addr@, port)
                && v.topic@ == data_topic(manager.connected_module@[j].id@)
            &&& v.publish == match change {
                None => true,
                Some(c) => c.0,
            }
            &&& v.forward_to_alarms == match change {
                None => false,
                Some(c) => c.0 && c.1 > 0,
            }
        },
{
    match manager.get_module_at_index(board, board_addr, port) {
        None => Err(MainboardError::not_found("module_port", "")),
        Some(m) => {
            proof {
                reveal_strlit("/m/");
                reveal_strlit("/data");
                let j = choose|j: int| 0 <= j < manager.connected_module@.len() && manager.connected_module@[j] == *m;
            }
            let topic = String::from_str("/m/").concat(m.id.as_str()).concat("/data");
            let (publish, forward_to_alarms) = match change {
                None => (true, false),
                Some((changed, n)) => (changed, changed && n > 0),
            };
            Ok(ValueRouting { topic, publish, forward_to_alarms })
        },
    }
}

/// A reading equal to the last one is unchanged, whatever the module: no outlet of a relay
/// or water-control module changed state, no soil probe moved, and no time passed; so it
/// is not published.
pub proof fn lemma_same_reading_is_unchanged(outlets: Seq<Option<RelayOutletData>>, soil: SOILModuleDataView, n: int)
    ensures
        !states_differ(outlets, outlets),
        probe_changes(soil, soil, n).len() == 0,
        !differs_by(soil.timestamp as int, soil.timestamp as int, 60),
    decreases n,
{
    if n > 0 {
        lemma_same_reading_is_unchanged(outlets, soil, n - 1);
    }
}

} // verus!
