use growbe_mainboard::modulestate::store::{check_store_module_config, get_module_config, StoredModuleConfig};
use growbe_mainboard::protos::module::SOILModuleConfig;

fn supported_modules() -> Vec<&'static str> {
    vec!["AAP", "AAB", "AAS", "PCS", "CCS"]
}

fn get_id() -> &'static str {
    "0000001"
}

fn get_modules() -> Vec<String> {
    supported_modules().into_iter().map(|x| format!("{}{}", x, get_id())).collect()
}

fn module_id() -> String {
    "AAP0000003".to_string()
}

#[test]
fn store_module_config_not_existing_create_new_one() {
    let config_opt = get_module_config(&module_id(), None);

    let config = config_opt.unwrap();

    assert_eq!(config.1, true);
}

#[test]
fn store_all_supported_type_are_working() {
    for module in get_modules() {
        check_store_module_config(&module).unwrap();
        let config = StoredModuleConfig::Soil(SOILModuleConfig::new());
        get_module_config(&module, Some(config)).unwrap();
    }
}

#[test]
fn store_unsupported_module_type() {
    let id = "KKK0000001".to_string();

    check_store_module_config(&id).unwrap_err();

    assert_eq!(get_module_config(&id, None).is_none(), true);
}

#[test]
fn stored_config_is_returned_as_stored() {
    let (config, fresh) = get_module_config(&"CCS0000001".to_string(), Some(StoredModuleConfig::Streaming(vec![1, 2]))).unwrap();
    assert!(!fresh);
    assert!(matches!(config, StoredModuleConfig::Streaming(ref b) if b == &vec![1u8, 2]));
    assert!(matches!(get_module_config(&"AAB0000001".to_string(), None), Some((StoredModuleConfig::WaterControl(_), true))));
    assert!(get_module_config(&"AAS0000001".to_string(), None).is_none());
}
