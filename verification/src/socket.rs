//! The messaging link with the cloud: which topics the board listens to, how an
//! incoming topic finds its handler, and what the board answers.
pub mod http;

use crate::modulestate::cmd::{command_of, lemma_command_of_entry, lemma_command_of_long_name, targets_topic_id};
use crate::text::{str_eq, strs};
use vstd::prelude::*;

verus! {

/// The error a message handler answers with: a status and a message.
pub struct SocketMessagingError {
    pub status: u32,
    pub msg: String,
}

impl SocketMessagingError {
    /// The default error: status 1, no message.
    pub fn new() -> (r: SocketMessagingError)
        ensures
            r.status == 1,
            r.msg@.len() == 0,
    {
        SocketMessagingError { status: 1, msg: String::new() }
    }

    pub fn status(self, status: u32) -> (r: SocketMessagingError)
        ensures
            r.status == status,
            r.msg == self.msg,
    {
        SocketMessagingError { status, msg: self.msg }
    }

    pub fn message(self, msg: String) -> (r: SocketMessagingError)
        ensures
            r.status == self.status,
            r.msg == msg,
    {
        SocketMessagingError { status: self.status, msg }
    }
}

/// The kind of request a response answers.
#[derive(Clone, Copy, Debug, PartialEq, Eq, Structural)]
#[allow(non_camel_case_types)]
pub enum ActionCode {
    PARSING,
    SYNC_REQUEST,
    RTC_SET,
    MODULE_CONFIG,
    ADD_ALARM,
    REMOVE_ALARM,
}

/// A module command the board listens to: its name, whether the topic ends with the
/// module id, and the kind of request it answers.
pub struct MqttModuleHanlder {
    pub name: String,
    pub suffix: bool,
    pub action_code: ActionCode,
}

/// The MQTT broker of the cloud.
pub struct CloudMQTTConfig {
    pub url: String,
    pub port: u16,
}

/// The reverse proxy that relays the cloud's commands.
pub struct ReverseProxyConf {
    pub url: String,
}

/// The module commands, in the order they are looked up.
pub open spec fn module_commands() -> Seq<(Seq<char>, bool, ActionCode)> {
    seq![
        ("sync"@, false, ActionCode::SYNC_REQUEST),
        ("mconfig"@, true, ActionCode::MODULE_CONFIG),
        ("rmconfig"@, true, ActionCode::MODULE_CONFIG),
        ("aEnv"@, false, ActionCode::SYNC_REQUEST),
        ("rEnv"@, true, ActionCode::SYNC_REQUEST),
        ("aAl"@, false, ActionCode::ADD_ALARM),
        ("rAl"@, false, ActionCode::REMOVE_ALARM),
        ("uAl"@, false, ActionCode::SYNC_REQUEST),
        ("addVr"@, false, ActionCode::SYNC_REQUEST),
        ("vrconfig"@, true, ActionCode::SYNC_REQUEST),
        ("rmVr"@, true, ActionCode::SYNC_REQUEST),
        ("startCalibration"@, true, ActionCode::SYNC_REQUEST),
        ("setCalibration"@, true, ActionCode::SYNC_REQUEST),
        ("terminateCalibration"@, true, ActionCode::SYNC_REQUEST),
        ("cancelCalibration"@, true, ActionCode::SYNC_REQUEST),
        ("statusCalibration"@, true, ActionCode::SYNC_REQUEST),
    ]
}

/// A module command whose handler acts on the module, virtual relay or controller named
/// in the last segment of its topic is subscribed with a wildcard segment after its name;
/// the other commands are subscribed on their name alone.
pub proof fn lemma_subscription_suffix_follows_target(i: int)
    requires
        0 <= i < module_commands().len(),
    ensures
        module_commands()[i].1 == targets_topic_id(command_of(module_commands()[i].0)),
{
    reveal_strlit("startCalibration");
    reveal_strlit("setCalibration");
    reveal_strlit("terminateCalibration");
    reveal_strlit("cancelCalibration");
    reveal_strlit("statusCalibration");
    if i == 0 {
        lemma_command_of_entry(0);
    } else if i == 1 {
        lemma_command_of_entry(3);
    } else if i == 2 {
        lemma_command_of_entry(4);
    } else if i == 3 {
        lemma_command_of_entry(5);
    } else if i == 4 {
        lemma_command_of_entry(6);
    } else if i == 5 {
        lemma_command_of_entry(7);
    } else if i == 6 {
        lemma_command_of_entry(8);
    } else if i == 7 {
        lemma_command_of_entry(9);
    } else if i == 8 {
        lemma_command_of_entry(10);
    } else if i == 9 {
        lemma_command_of_entry(11);
    } else if i == 10 {
        lemma_command_of_entry(12);
    } else {
        lemma_command_of_long_name(module_commands()[i].0);
    }
}

pub open spec fn handler_view(h: MqttModuleHanlder) -> (Seq<char>, bool, ActionCode) {
    (h.name@, h.suffix, h.action_code)
}

pub open spec fn handlers_view(s: Seq<MqttModuleHanlder>) -> Seq<(Seq<char>, bool, ActionCode)> {
    s.map_values(|h: MqttModuleHanlder| handler_view(h))
}

fn handler(name: &str, suffix: bool, action_code: ActionCode) -> (r: MqttModuleHanlder)
    ensures
        handler_view(r) == (name@, suffix, action_code),
{
    MqttModuleHanlder { name: String::from_str(name), suffix, action_code }
}

/// The module commands the board listens to.
pub fn mapping_modules() -> (r: Vec<MqttModuleHanlder>)
    ensures
        handlers_view(r@) == module_commands(),
{
    let mut v: Vec<MqttModuleHanlder> = Vec::new();
    v.push(handler("sync", false, ActionCode::SYNC_REQUEST));
    v.push(handler("mconfig", true, ActionCode::MODULE_CONFIG));
    v.push(handler("rmconfig", true, ActionCode::MODULE_CONFIG));
    v.push(handler("aEnv", false, ActionCode::SYNC_REQUEST));
    v.push(handler("rEnv", true, ActionCode::SYNC_REQUEST));
    v.push(handler("aAl", false, ActionCode::ADD_ALARM));
    v.push(handler("rAl", false, ActionCode::REMOVE_ALARM));
    v.push(handler("uAl", false, ActionCode::SYNC_REQUEST));
    v.push(handler("addVr", false, ActionCode::SYNC_REQUEST));
    v.push(handler("vrconfig", true, ActionCode::SYNC_REQUEST));
    v.push(handler("rmVr", true, ActionCode::SYNC_REQUEST));
    v.push(handler("startCalibration", true, ActionCode::SYNC_REQUEST));
    v.push(handler("setCalibration", true, ActionCode::SYNC_REQUEST));
    v.push(handler("terminateCalibration", true, ActionCode::SYNC_REQUEST));
    v.push(handler("cancelCalibration", true, ActionCode::SYNC_REQUEST));
    v.push(handler("statusCalibration", true, ActionCode::SYNC_REQUEST));
    assert(handlers_view(v@) =~= module_commands());
    v
}

/// `sub` occurs in `s` at position `i`.
pub open spec fn occurs_at(s: Seq<char>, sub: Seq<char>, i: int) -> bool {
    0 <= i && i + sub.len() <= s.len() && s.subrange(i, i + sub.len()) == sub
}

/// `sub` occurs somewhere in `s`.
pub open spec fn has_substring(s: Seq<char>, sub: Seq<char>) -> bool {
    exists|i: int| #[trigger] occurs_at(s, sub, i)
}

/// Whether `sub` occurs in `s`.
pub fn str_contains(s: &str, sub: &str) -> (r: bool)
    ensures
        r == has_substring(s@, sub@),
{
    let n = s.unicode_len();
    let m = sub.unicode_len();
    if m > n {
        proof {
            assert forall|i: int| !#[trigger] occurs_at(s@, sub@, i) by {}
        }
        return false;
    }
    let mut i: usize = 0;
    while i <= n - m
        invariant
            n == s@.len(),
            m == sub@.len(),
            m <= n,
            i <= n - m + 1,
            forall|j: int| 0 <= j < i ==> !#[trigger] occurs_at(s@, sub@, j),
        decreases n - m + 1 - i,
    {
        let mut k: usize = 0;
        let mut same = true;
        while k < m
            invariant
                n == s@.len(),
                m == sub@.len(),
                i + m <= n,
                k <= m,
                same == forall|l: int| 0 <= l < k ==> s@[i + l] == sub@[l],
            decreases m - k,
        {
            if s.get_char(i + k) != sub.get_char(k) {
                same = false;
            }
            k = k + 1;
        }
        if same {
            proof {
                assert(s@.subrange(i as int, i + m) =~= sub@);
                assert(occurs_at(s@, sub@, i as int));
            }
            return true;
        }
        proof {
            let l = choose|l: int| 0 <= l < m && s@[i + l] != sub@[l];
            assert(s@.subrange(i as int, i + m)[l] != sub@[l]);
        }
        i = i + 1;
    }
    proof {
        assert forall|j: int| !#[trigger] occurs_at(s@, sub@, j) by {
            if occurs_at(s@, sub@, j) {
                assert(0 <= j < i);
            }
        }
    }
    false
}

/// The first module command whose name occurs in `topic`.
pub open spec fn command_for(handlers: Seq<(Seq<char>, bool, ActionCode)>, topic: Seq<char>, i: int) -> bool {
    0 <= i < handlers.len() && has_substring(topic, handlers[i].0)
        && forall|j: int| 0 <= j < i ==> !has_substring(topic, #[trigger] handlers[j].0)
}

/// The module command an incoming topic is for: the first whose name occurs in it.
pub fn find_module_command(mapping: &Vec<MqttModuleHanlder>, topic: &str) -> (r: Option<usize>)
    ensures
        match r {
            Some(i) => command_for(handlers_view(mapping@), topic@, i as int),
            None => forall|j: int| 0 <= j < mapping@.len() ==> !has_substring(topic@, #[trigger] mapping@[j].name@),
        },
{
    let mut i: usize = 0;
    while i < mapping.len()
        invariant
            i <= mapping@.len(),
            forall|j: int| 0 <= j < i ==> !has_substring(topic@, #[trigger] mapping@[j].name@),
        decreases mapping@.len() - i,
    {
        if str_contains(topic, mapping[i].name.as_str()) {
            proof {
                assert forall|j: int| 0 <= j < i implies !has_substring(topic@, #[trigger] handlers_view(mapping@)[j].0) by {
                    assert(handlers_view(mapping@)[j].0 == mapping@[j].name@);
                }
            }
            return Some(i);
        }
        i = i + 1;
    }
    None
}

/// The topic a module command listens on: "/growbe/<board>/board/<name>", with "/+"
/// after it when the module id follows.
pub open spec fn subscription_topic(board_id: Seq<char>, h: (Seq<char>, bool, ActionCode)) -> Seq<char> {
    "/growbe/"@ + board_id + "/board/"@ + h.0 + (if h.1 { "/+"@ } else { ""@ })
}

/// The topics the board listens on for module commands, in order.
pub fn module_subscriptions(board_id: &str, mapping: &Vec<MqttModuleHanlder>) -> (r: Vec<String>)
    ensures
        r@.len() == mapping@.len(),
        forall|i: int| 0 <= i < r@.len() ==> (#[trigger] r@[i])@ == subscription_topic(board_id@, handler_view(mapping@[i])),
{
    proof {
        reveal_strlit("/growbe/");
        reveal_strlit("/board/");
        reveal_strlit("/+");
        reveal_strlit("");
    }
    let mut r: Vec<String> = Vec::new();
    let mut i: usize = 0;
    while i < mapping.len()
        invariant
            i <= mapping@.len(),
            r@.len() == i,
            forall|j: int| 0 <= j < i ==> (#[trigger] r@[j])@ == subscription_topic(board_id@, handler_view(mapping@[j])),
        decreases mapping@.len() - i,
    {
        let h = &mapping[i];
        let suffix = if h.suffix { "/+" } else { "" };
        let topic = String::from_str("/growbe/").concat(board_id).concat("/board/").concat(h.name.as_str()).concat(suffix);
        r.push(topic);
        i = i + 1;
    }
    r
}

/// The topic a response goes to: the request's topic followed by "/response".
pub fn response_topic(topic: &str) -> (r: String)
    ensures
        r@ == topic@ + "/response"@,
{
    String::from_str(topic).concat("/response")
}

/// The action a response reports: a request still being parsed counts as a sync request.
pub fn response_action(action: ActionCode) -> (r: ActionCode)
    ensures
        r == (if action == ActionCode::PARSING { ActionCode::SYNC_REQUEST } else { action }),
{
    if action == ActionCode::PARSING {
        ActionCode::SYNC_REQUEST
    } else {
        action
    }
}

/// What a message for the board itself asks for.
#[derive(Clone, Copy, Debug, PartialEq, Eq, Structural)]
pub enum BoardAction {
    SetTime,
    HelloWorld,
    LocalConnection,
    Restart,
    Reboot,
    BoardConfig,
    CloudConfig,
    VirtItem,
    Update,
    UpdateRequest,
}

/// A message for the board itself: the topic it listens on, the text that picks it out of
/// an incoming topic, the kind of request it answers, what it asks for, and whether its
/// topic stands as it is rather than under the board's own prefix.
pub struct MqttHandler {
    pub subscription: String,
    pub regex: String,
    pub action_code: ActionCode,
    pub handler: BoardAction,
    pub not_prefix: bool,
}

pub open spec fn board_handler_view(h: MqttHandler) -> (Seq<char>, Seq<char>, ActionCode, BoardAction, bool) {
    (h.subscription@, h.regex@, h.action_code, h.handler, h.not_prefix)
}

pub open spec fn board_handlers_view(s: Seq<MqttHandler>) -> Seq<(Seq<char>, Seq<char>, ActionCode, BoardAction, bool)> {
    s.map_values(|h: MqttHandler| board_handler_view(h))
}

/// The messages for the board, in the order they are looked up.
pub open spec fn board_commands() -> Seq<(Seq<char>, Seq<char>, ActionCode, BoardAction, bool)> {
    seq![
        ("/board/setTime"@, "setTime"@, ActionCode::RTC_SET, BoardAction::SetTime, false),
        ("/board/helloworld"@, "helloworld"@, ActionCode::SYNC_REQUEST, BoardAction::HelloWorld, false),
        ("/board/localconnection"@, "localconnection"@, ActionCode::SYNC_REQUEST, BoardAction::LocalConnection, false),
        ("/board/restart"@, "restart"@, ActionCode::SYNC_REQUEST, BoardAction::Restart, false),
        ("/board/reboot"@, "reboot"@, ActionCode::SYNC_REQUEST, BoardAction::Reboot, false),
        ("/board/boardconfig"@, "boardconfig"@, ActionCode::SYNC_REQUEST, BoardAction::BoardConfig, false),
        ("/board/cloudconfig"@, "cloudconfig"@, ActionCode::SYNC_REQUEST, BoardAction::CloudConfig, false),
        ("/board/virt/item"@, "virt"@, ActionCode::SYNC_REQUEST, BoardAction::VirtItem, false),
        ("/update"@, "update"@, ActionCode::SYNC_REQUEST, BoardAction::Update, true),
        ("/update/request"@, "update/request"@, ActionCode::SYNC_REQUEST, BoardAction::UpdateRequest, true),
    ]
}

fn board_handler(subscription: &str, regex: &str, action_code: ActionCode, handler: BoardAction, not_prefix: bool) -> (r: MqttHandler)
    ensures
        board_handler_view(r) == (subscription@, regex@, action_code, handler, not_prefix),
{
    MqttHandler { subscription: String::from_str(subscription), regex: String::from_str(regex), action_code, handler, not_prefix }
}

/// The messages for the board itself that it listens to.
pub fn mqtt_handles() -> (r: Vec<MqttHandler>)
    ensures
        board_handlers_view(r@) == board_commands(),
{
    let mut v: Vec<MqttHandler> = Vec::new();
    v.push(board_handler("/board/setTime", "setTime", ActionCode::RTC_SET, BoardAction::SetTime, false));
    v.push(board_handler("/board/helloworld", "helloworld", ActionCode::SYNC_REQUEST, BoardAction::HelloWorld, false));
    v.push(board_handler("/board/localconnection", "localconnection", ActionCode::SYNC_REQUEST, BoardAction::LocalConnection, false));
    v.push(board_handler("/board/restart", "restart", ActionCode::SYNC_REQUEST, BoardAction::Restart, false));
    v.push(board_handler("/board/reboot", "reboot", ActionCode::SYNC_REQUEST, BoardAction::Reboot, false));
    v.push(board_handler("/board/boardconfig", "boardconfig", ActionCode::SYNC_REQUEST, BoardAction::BoardConfig, false));
    v.push(board_handler("/board/cloudconfig", "cloudconfig", ActionCode::SYNC_REQUEST, BoardAction::CloudConfig, false));
    v.push(board_handler("/board/virt/item", "virt", ActionCode::SYNC_REQUEST, BoardAction::VirtItem, false));
    v.push(board_handler("/update", "update", ActionCode::SYNC_REQUEST, BoardAction::Update, true));
    v.push(board_handler("/update/request", "update/request", ActionCode::SYNC_REQUEST, BoardAction::UpdateRequest, true));
    assert(board_handlers_view(v@) =~= board_commands());
    v
}

/// The topic a board message listens on: its own topic, or that topic under
/// "/growbe/<board>".
pub open spec fn board_subscription_topic(board_id: Seq<char>, h: (Seq<char>, Seq<char>, ActionCode, BoardAction, bool)) -> Seq<char> {
    if h.4 { h.0 } else { "/growbe/"@ + board_id + h.0 }
}

/// The topics the board listens on for its own messages, in order.
pub fn board_subscriptions(board_id: &str, handlers: &Vec<MqttHandler>) -> (r: Vec<String>)
    ensures
        r@.len() == handlers@.len(),
        forall|i: int| 0 <= i < r@.len() ==> (#[trigger] r@[i])@ == board_subscription_topic(board_id@, board_handler_view(handlers@[i])),
{
    proof {
        reveal_strlit("/growbe/");
    }
    let mut r: Vec<String> = Vec::new();
    let mut i: usize = 0;
    while i < handlers.len()
        invariant
            i <= handlers@.len(),
            r@.len() == i,
            forall|j: int| 0 <= j < i ==> (#[trigger] r@[j])@ == board_subscription_topic(board_id@, board_handler_view(handlers@[j])),
        decreases handlers@.len() - i,
    {
        let h = &handlers[i];
        let topic = if h.not_prefix {
            h.subscription.clone()
        } else {
            String::from_str("/growbe/").concat(board_id).concat(h.subscription.as_str())
        };
        r.push(topic);
        i = i + 1;
    }
    r
}

/// The first board message whose text occurs in `topic`.
pub open spec fn board_command_for(handlers: Seq<MqttHandler>, topic: Seq<char>, i: int) -> bool {
    0 <= i < handlers.len() && has_substring(topic, handlers[i].regex@)
        && forall|j: int| 0 <= j < i ==> !has_substring(topic, #[trigger] handlers[j].regex@)
}

/// The board message an incoming topic is for: the first whose text occurs in it.
pub fn find_board_handler(handlers: &Vec<MqttHandler>, topic: &str) -> (r: Option<usize>)
    ensures
        match r {
            Some(i) => board_command_for(handlers@, topic@, i as int),
            None => forall|j: int| 0 <= j < handlers@.len() ==> !has_substring(topic@, #[trigger] handlers@[j].regex@),
        },
{
    let mut i: usize = 0;
    while i < handlers.len()
        invariant
            i <= handlers@.len(),
            forall|j: int| 0 <= j < i ==> !has_substring(topic@, #[trigger] handlers@[j].regex@),
        decreases handlers@.len() - i,
    {
        if str_contains(topic, handlers[i].regex.as_str()) {
            return Some(i);
        }
        i = i + 1;
    }
    None
}

/// Where an incoming message goes: to a board message, else to a module command, else
/// nowhere.
pub enum Route {
    Board(usize),
    Module(usize),
    Unknown,
}

/// Routes an incoming topic: the board's own messages are looked up first, then the
/// module commands.
pub fn route_message(handlers: &Vec<MqttHandler>, mapping: &Vec<MqttModuleHanlder>, topic: &str) -> (r: Route)
    ensures
        match r {
            Route::Board(i) => board_command_for(handlers@, topic@, i as int),
            Route::Module(i) => (forall|j: int| 0 <= j < handlers@.len() ==> !has_substring(topic@, #[trigger] handlers@[j].regex@))
                && command_for(handlers_view(mapping@), topic@, i as int),
            Route::Unknown => (forall|j: int| 0 <= j < handlers@.len() ==> !has_substring(topic@, #[trigger] handlers@[j].regex@))
                && (forall|j: int| 0 <= j < mapping@.len() ==> !has_substring(topic@, #[trigger] mapping@[j].name@)),
        },
{
    match find_board_handler(handlers, topic) {
        Some(i) => Route::Board(i),
        None => match find_module_command(mapping, topic) {
            Some(i) => Route::Module(i),
            None => Route::Unknown,
        },
    }
}

/// The answer to an incoming message: the kind of request, a status (0 when it went
/// well) and a message.
pub struct ActionResponse {
    pub action: ActionCode,
    pub status: u32,
    pub msg: String,
}

/// The answer to a board message whose handler succeeded (`error` is `None`) or failed.
pub fn board_response(action_code: ActionCode, error: Option<SocketMessagingError>) -> (r: ActionResponse)
    ensures
        r.action == (if action_code == ActionCode::PARSING { ActionCode::SYNC_REQUEST } else { action_code }),
        match error {
            None => r.status == 0 && r.msg@.len() == 0,
            Some(e) => r.status == e.status && r.msg == e.msg,
        },
{
    let action = response_action(action_code);
    match error {
        None => ActionResponse { action, status: 0, msg: String::new() },
        Some(e) => ActionResponse { action, status: e.status, msg: e.msg },
    }
}

/// The answer to a module command: the status and message the module task replied, or
/// a timeout when it did not reply in time.
pub fn module_response(action_code: ActionCode, reply: Option<(u32, String)>) -> (r: ActionResponse)
    ensures
        r.action == (if action_code == ActionCode::PARSING { ActionCode::SYNC_REQUEST } else { action_code }),
        match reply {
            Some((status, msg)) => r.status == status && r.msg == msg,
            None => r.status == 405 && r.msg@ == "timeout waiting for cmd response"@,
        },
{
    let action = response_action(action_code);
    match reply {
        Some((status, msg)) => ActionResponse { action, status, msg },
        None => ActionResponse { action, status: 405, msg: String::from_str("timeout waiting for cmd response") },
    }
}

/// The answer to a message that nothing handles.
pub fn unknown_response() -> (r: ActionResponse)
    ensures
        r.action == ActionCode::SYNC_REQUEST,
        r.status == 401,
        r.msg@.len() == 0,
{
    ActionResponse { action: response_action(ActionCode::PARSING), status: 401, msg: String::new() }
}

/// The answer to a request to set the board's clock, which the board does not support.
pub fn on_set_rtc() -> (r: SocketMessagingError)
    ensures
        r.status == 400,
        r.msg@ == "operation not supported on device"@,
{
    SocketMessagingError::new().status(400).message(String::from_str("operation not supported on device"))
}

} // verus!
