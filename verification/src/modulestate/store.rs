//! Which modules keep a stored configuration, and how a command topic names its module.
use crate::mainboardstate::error::MainboardError;
use crate::text::{after_last, after_last_char};
use vstd::prelude::*;

verus! {

/// The module types whose configuration is stored.
pub open spec fn supported_modules() -> Seq<Seq<char>> {
    seq!["AAP"@, "AAB"@, "AAS"@, "PCS"@, "CCS"@]
}

/// A module keeps a stored configuration when its id is longer than three chars and its
/// type, the first three, is supported.
pub open spec fn supported(id: Seq<char>) -> bool {
    id.len() > 3 && supported_modules().contains(id.subrange(0, 3))
}

/// Whether the module with this id keeps a stored configuration.
pub fn is_supported(module_id: &String) -> (r: bool)
    ensures
        r == supported(module_id@),
{
    if module_id.as_str().unicode_len() > 3 {
        let sub = module_id.as_str().substring_char(0, 3);
        let sups = vec!["AAP", "AAB", "AAS", "PCS", "CCS"];
        proof {
            reveal_strlit("AAP");
            reveal_strlit("AAB");
            reveal_strlit("AAS");
            reveal_strlit("PCS");
            reveal_strlit("CCS");
        }
        let mut i: usize = 0;
        while i < sups.len()
            invariant
                i <= sups@.len(),
                sups@.len() == 5,
                forall|k: int| 0 <= k < 5 ==> sups@[k]@ == supported_modules()[k],
                module_id@.len() > 3,
                sub@ == module_id@.subrange(0, 3),
                forall|j: int| 0 <= j < i ==> sub@ != supported_modules()[j],
            decreases sups@.len() - i,
        {
            if crate::text::str_eq(sub, sups[i]) {
                assert(supported_modules()[i as int] == sub@);
                return true;
            }
            i = i + 1;
        }
        proof {
            if supported_modules().contains(sub@) {
                let j = choose|j: int| 0 <= j < 5 && supported_modules()[j] == sub@;
            }
        }
        false
    } else {
        false
    }
}

/// Checks that the configuration of this module may be stored.
pub fn check_store_module_config(id: &String) -> (r: Result<(), MainboardError>)
    ensures
        r is Ok <==> supported(id@),
        r matches Err(e) ==> e.message@ == "module is not supported to save config"@,
{
    if is_supported(id) {
        Ok(())
    } else {
        proof {
            reveal_strlit("module is not supported to save config");
        }
        Err(MainboardError::from_error(String::from_str("module is not supported to save config")))
    }
}

/// The module a command topic is about: the part after its last '/'.
pub fn extract_module_id(topic_name: &String) -> (r: String)
    ensures
        r@ == after_last(topic_name@, '/'),
{
    after_last_char(topic_name.as_str(), '/')
}

} // verus!

verus! {

/// A module configuration as stored, by the kind of module it configures.
pub enum StoredModuleConfig {
    Relay(crate::protos::module::RelayModuleConfig),
    WaterControl(crate::protos::module::WCModuleConfig),
    Soil(crate::protos::module::SOILModuleConfig),
    /// The encoded configuration of a streaming module, passed on as it is.
    Streaming(Vec<u8>),
}

/// The configuration of a module: the stored one (`stored`, when one decodes), with
/// `false`; for a relay or water-control module without one, a fresh empty configuration,
/// with `true`; for other modules without one, none.
pub fn get_module_config(id: &String, stored: Option<StoredModuleConfig>) -> (r: Option<(StoredModuleConfig, bool)>)
    requires
        id@.len() >= 3,
    ensures
        stored is Some ==> (r matches Some((c, fresh)) && !fresh && Some(c) == stored),
        stored is None && id@.subrange(0, 3) == "AAP"@ ==> (r matches Some((StoredModuleConfig::Relay(c), fresh)) && fresh
            && c.slots() == Seq::new(8, |_i: int| None::<crate::protos::module::RelayOutletConfigView>)),
        stored is None && id@.subrange(0, 3) == "AAB"@ ==> (r matches Some((StoredModuleConfig::WaterControl(c), fresh)) && fresh
            && c.slots() == Seq::new(8, |_i: int| None::<crate::protos::module::RelayOutletConfigView>)),
        stored is None && id@.subrange(0, 3) != "AAP"@ && id@.subrange(0, 3) != "AAB"@ ==> r is None,
{
    match stored {
        Some(c) => Some((c, false)),
        None => {
            let t = id.as_str().substring_char(0, 3);
            proof {
                reveal_strlit("AAP");
                reveal_strlit("AAB");
                assert("AAP"@[2] != "AAB"@[2]);
            }
            if crate::text::str_eq(t, "AAP") {
                Some((StoredModuleConfig::Relay(crate::protos::module::RelayModuleConfig::new()), true))
            } else if crate::text::str_eq(t, "AAB") {
                Some((StoredModuleConfig::WaterControl(crate::protos::module::WCModuleConfig::new()), true))
            } else {
                None
            }
        },
    }
}

} // verus!
