use growbe_mainboard::server::get_default_server_config;
use growbe_mainboard::socket::http::{get_api_url, get_default_api_config};
use growbe_mainboard::socket::{
    board_response, board_subscriptions, find_board_handler, find_module_command, mapping_modules, module_response,
    module_subscriptions, mqtt_handles, on_set_rtc, response_action, response_topic, route_message, str_contains,
    unknown_response, ActionCode, BoardAction, Route, SocketMessagingError,
};

#[test]
fn default_addresses() {
    let server = get_default_server_config();
    assert_eq!(server.addr, "0.0.0.0");
    assert_eq!(server.port, 3030);
    let api = get_default_api_config();
    assert_eq!(api.url, "https://api.growbe.ca");
    assert_eq!(get_api_url(&api, "/board/register".to_string()), "https://api.growbe.ca/board/register");
}

#[test]
fn messaging_error_builder() {
    let e = SocketMessagingError::new();
    assert_eq!(e.status, 1);
    assert_eq!(e.msg, "");
    let e = e.status(400).message("operation not supported on device".to_string());
    assert_eq!(e.status, 400);
    assert_eq!(e.msg, "operation not supported on device");
}

#[test]
fn substring_search() {
    assert!(str_contains("/growbe/X/board/mconfig/AAP1", "mconfig"));
    assert!(str_contains("abc", ""));
    assert!(!str_contains("abc", "abcd"));
    assert!(!str_contains("/board/sync", "mconfig"));
}

#[test]
fn incoming_topic_finds_first_matching_command() {
    let mapping = mapping_modules();
    assert_eq!(mapping.len(), 16);
    // "rmconfig" holds "mconfig": the earlier entry wins
    let i = find_module_command(&mapping, "/growbe/X/board/rmconfig/AAP1").unwrap();
    assert_eq!(mapping[i].name, "mconfig");
    let i = find_module_command(&mapping, "/growbe/X/board/aAl").unwrap();
    assert_eq!(mapping[i].action_code, ActionCode::ADD_ALARM);
    assert!(find_module_command(&mapping, "/growbe/X/board/unknown").is_none());
}

#[test]
fn subscription_topics_for_module_commands() {
    let mapping = mapping_modules();
    let topics = module_subscriptions("BOARD1", &mapping);
    assert_eq!(topics[0], "/growbe/BOARD1/board/sync");
    assert_eq!(topics[1], "/growbe/BOARD1/board/mconfig/+");
    assert_eq!(topics.len(), mapping.len());
}

#[test]
fn responses() {
    assert_eq!(response_topic("/growbe/X/board/sync"), "/growbe/X/board/sync/response");
    assert_eq!(response_action(ActionCode::PARSING), ActionCode::SYNC_REQUEST);
    assert_eq!(response_action(ActionCode::RTC_SET), ActionCode::RTC_SET);
}

#[test]
fn board_messages_listen_under_the_board_prefix_but_updates() {
    let handlers = mqtt_handles();
    assert_eq!(handlers.len(), 10);
    let topics = board_subscriptions("B1", &handlers);
    assert_eq!(topics[0], "/growbe/B1/board/setTime");
    assert_eq!(topics[7], "/growbe/B1/board/virt/item");
    assert_eq!(topics[8], "/update");
    assert_eq!(topics[9], "/update/request");
}

#[test]
fn incoming_topics_are_routed_board_first() {
    let handlers = mqtt_handles();
    let mapping = mapping_modules();
    let i = find_board_handler(&handlers, "/growbe/B1/board/setTime").unwrap();
    assert_eq!(handlers[i].handler, BoardAction::SetTime);
    assert_eq!(handlers[i].action_code, ActionCode::RTC_SET);
    // the first text that occurs wins: an update request is taken for an update
    let i = find_board_handler(&handlers, "/update/request").unwrap();
    assert_eq!(handlers[i].handler, BoardAction::Update);
    assert!(matches!(route_message(&handlers, &mapping, "/growbe/B1/board/restart"), Route::Board(3)));
    match route_message(&handlers, &mapping, "/growbe/B1/board/rmconfig/AAP0000003") {
        Route::Module(i) => assert_eq!(mapping[i].name, "mconfig"),
        _ => panic!("expected a module command"),
    }
    assert!(matches!(route_message(&handlers, &mapping, "/growbe/B1/board/nothing"), Route::Unknown));
}

#[test]
fn responses_carry_the_outcome() {
    let ok = board_response(ActionCode::SYNC_REQUEST, None);
    assert_eq!((ok.action, ok.status, ok.msg.as_str()), (ActionCode::SYNC_REQUEST, 0, ""));
    let refused = board_response(ActionCode::RTC_SET, Some(on_set_rtc()));
    assert_eq!((refused.action, refused.status), (ActionCode::RTC_SET, 400));
    assert_eq!(refused.msg, "operation not supported on device");
    let replied = module_response(ActionCode::MODULE_CONFIG, Some((500, "unauthorized".to_string())));
    assert_eq!((replied.action, replied.status, replied.msg.as_str()), (ActionCode::MODULE_CONFIG, 500, "unauthorized"));
    let late = module_response(ActionCode::ADD_ALARM, None);
    assert_eq!((late.action, late.status, late.msg.as_str()), (ActionCode::ADD_ALARM, 405, "timeout waiting for cmd response"));
    let unknown = unknown_response();
    assert_eq!((unknown.action, unknown.status, unknown.msg.as_str()), (ActionCode::SYNC_REQUEST, 401, ""));
}
