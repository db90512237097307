use growbe_mainboard::protos::virt::{VirtualScenarioItem, VirtualScenarioItems};

#[test]
fn scenario_item_fields() {
    let mut item = VirtualScenarioItem::new();
    assert_eq!(item.get_port(), 0);
    item.set_event_type("state".to_string());
    item.set_port(3);
    item.set_id("AAP000000001".to_string());
    item.set_state(true);
    item.set_buffer(vec![1, 2, 3]);
    item.set_timeout(10);
    assert_eq!(item.get_event_type(), "state");
    assert_eq!(item.get_port(), 3);
    assert_eq!(item.get_id(), "AAP000000001");
    assert!(item.get_state());
    assert_eq!(item.get_buffer(), &[1, 2, 3]);
    assert_eq!(item.get_timeout(), 10);

    item.mut_id().push_str("X");
    assert_eq!(item.get_id(), "AAP000000001X");
    assert_eq!(item.take_id(), "AAP000000001X");
    assert_eq!(item.get_id(), "");
    item.mut_buffer().push(4);
    assert_eq!(item.take_buffer(), vec![1, 2, 3, 4]);
    assert!(item.get_buffer().is_empty());
    item.mut_event_type().push('s');
    assert_eq!(item.take_event_type(), "states");
    item.clear_port();
    item.clear_state();
    item.clear_timeout();
    item.clear_event_type();
    item.clear_id();
    item.clear_buffer();
    assert_eq!(item.get_port(), 0);
    assert!(!item.get_state());
    assert_eq!(item.get_timeout(), 0);
}

#[test]
fn scenario_items() {
    let mut items = VirtualScenarioItems::new();
    assert!(items.get_items().is_empty());
    items.set_items(vec![VirtualScenarioItem::new(), VirtualScenarioItem::new()]);
    assert_eq!(items.get_items().len(), 2);
    items.mut_items().push(VirtualScenarioItem::new());
    assert_eq!(items.take_items().len(), 3);
    assert!(items.get_items().is_empty());
    items.set_items(vec![VirtualScenarioItem::new()]);
    items.clear_items();
    assert!(items.get_items().is_empty());
}
