//! What the tray shows: the application and session state it is built
//! from, and the menu model derived from them.

use vstd::prelude::*;

use crate::model::SpeakerDevice;
use crate::text::{decimal, push_decimal, push_str, str_eq};

verus! {

/// A marker that the desktop interaction layer is present.
pub const UI_PLACEHOLDER: &'static str = "ui-placeholder";

/// What the sender is doing with the selected receiver.
#[derive(Debug, Clone, PartialEq, Eq)]
pub enum SessionState {
    Idle,
    Discovering,
    Connecting { device_id: String },
    AwaitingPairing { device_id: String },
    Authenticating { device_id: String },
    Streaming { device_id: String },
}

/// The selected receiver and the session state.
#[derive(Debug, Clone, PartialEq, Eq)]
pub struct AppState {
    pub selected_device_id: Option<String>,
    pub active_session: SessionState,
}

impl Default for AppState {
    fn default() -> (r: Self)
        ensures
            r.selected_device_id is None,
            r.active_session == SessionState::Idle,
    {
        AppState { selected_device_id: None, active_session: SessionState::Idle }
    }
}

/// Everything the tray menu is built from.
#[derive(Debug, Clone, PartialEq, Eq)]
pub struct TrayAppState {
    pub app_state: AppState,
    pub devices: Vec<SpeakerDevice>,
    pub auto_reconnect: bool,
    pub launch_at_startup: bool,
    pub sender_volume_percent: u8,
    pub sender_muted: bool,
    pub last_error: Option<String>,
}

impl Default for TrayAppState {
    fn default() -> (r: Self)
        ensures
            r.app_state.selected_device_id is None,
            r.app_state.active_session == SessionState::Idle,
            r.devices@.len() == 0,
            r.auto_reconnect,
            !r.launch_at_startup,
            r.sender_volume_percent == 100,
            !r.sender_muted,
            r.last_error is None,
    {
        TrayAppState {
            app_state: AppState::default(),
            devices: Vec::new(),
            auto_reconnect: true,
            launch_at_startup: false,
            sender_volume_percent: 100,
            sender_muted: false,
            last_error: None,
        }
    }
}

/// One receiver in the menu.
#[derive(Debug, Clone, PartialEq, Eq)]
pub struct TrayDeviceMenuItem {
    pub device_id: String,
    pub label: String,
    pub enabled: bool,
    pub selected: bool,
}

/// One volume preset in the menu.
#[derive(Debug, Clone, PartialEq, Eq)]
pub struct TrayVolumeMenuItem {
    pub percent: u8,
    pub label: String,
    pub selected: bool,
}

/// The whole tray menu.
#[derive(Debug, Clone, PartialEq, Eq)]
pub struct TrayMenuModel {
    pub status_label: String,
    pub refresh_enabled: bool,
    pub auto_reconnect_label: String,
    pub launch_at_startup_label: String,
    pub mute_label: String,
    pub muted: bool,
    pub volume_items: Vec<TrayVolumeMenuItem>,
    pub device_items: Vec<TrayDeviceMenuItem>,
    pub empty_label: Option<String>,
}

/// The index of the first device with id `id`, at or after `i`.
pub open spec fn find_device_from(devices: Seq<SpeakerDevice>, id: Seq<char>, i: int) -> Option<int>
    decreases devices.len() - i,
{
    if i < 0 || i >= devices.len() {
        None
    } else if devices[i].id@ == id {
        Some(i)
    } else {
        find_device_from(devices, id, i + 1)
    }
}

/// What `find_device_from` finds is the first device with that id.
pub proof fn lemma_find_device_from(devices: Seq<SpeakerDevice>, id: Seq<char>, i: int)
    requires
        0 <= i,
    ensures
        match find_device_from(devices, id, i) {
            Some(k) => i <= k < devices.len() && devices[k].id@ == id,
            None => forall|j: int| i <= j < devices.len() ==> devices[j].id@ != id,
        },
    decreases devices.len() - i,
{
    if i < devices.len() && devices[i].id@ != id {
        lemma_find_device_from(devices, id, i + 1);
    }
}

/// The index of the first device with id `id`.
pub open spec fn find_device_index(devices: Seq<SpeakerDevice>, id: Seq<char>) -> Option<int> {
    find_device_from(devices, id, 0)
}

/// The name of the device with id `id`, or the id itself.
pub open spec fn device_name_or_id(devices: Seq<SpeakerDevice>, id: Seq<char>) -> Seq<char> {
    match find_device_index(devices, id) {
        Some(i) => devices[i].name@,
        None => id,
    }
}

/// The status line of the menu: the last error if there is one, otherwise
/// what the session is doing.
pub open spec fn status_label_text(s: TrayAppState) -> Seq<char> {
    match s.last_error {
        Some(e) => "Rairstream："@ + e@,
        None => match s.app_state.active_session {
            SessionState::Idle => match s.app_state.selected_device_id {
                Some(id) => match find_device_index(s.devices@, id@) {
                    Some(i) => "Rairstream：已选择 "@ + s.devices@[i].name@,
                    None => "Rairstream：空闲"@,
                },
                None => "Rairstream：空闲"@,
            },
            SessionState::Discovering => "Rairstream：正在刷新设备"@,
            SessionState::Connecting { device_id } => "Rairstream：正在连接 "@ + device_name_or_id(
                s.devices@,
                device_id@,
            ),
            SessionState::AwaitingPairing { device_id } => "Rairstream：等待配对 "@ + device_name_or_id(
                s.devices@,
                device_id@,
            ),
            SessionState::Authenticating { device_id } => "Rairstream：正在认证 "@ + device_name_or_id(
                s.devices@,
                device_id@,
            ),
            SessionState::Streaming { device_id } => "Rairstream：正在串流 "@ + device_name_or_id(
                s.devices@,
                device_id@,
            ),
        },
    }
}

/// What a device's entry says about the session on that device.
pub open spec fn session_suffix(session: SessionState, id: Seq<char>) -> Seq<char> {
    match session {
        SessionState::Connecting { device_id } => if device_id@ == id { "（连接中）"@ } else { Seq::empty() },
        SessionState::AwaitingPairing { device_id } => if device_id@ == id {
            "（等待配对）"@
        } else {
            Seq::empty()
        },
        SessionState::Authenticating { device_id } => if device_id@ == id { "（认证中）"@ } else { Seq::empty() },
        SessionState::Streaming { device_id } => if device_id@ == id { "（串流中）"@ } else { Seq::empty() },
        _ => Seq::empty(),
    }
}

/// Whether `d` is the selected device.
pub open spec fn device_selected(s: TrayAppState, d: SpeakerDevice) -> bool {
    s.app_state.selected_device_id matches Some(id) && id@ == d.id@
}

/// The menu entry of device `d`.
pub open spec fn device_item_for(item: TrayDeviceMenuItem, s: TrayAppState, d: SpeakerDevice) -> bool {
    &&& item.device_id@ == d.id@
    &&& item.label@ == (if device_selected(s, d) { "● "@ } else { Seq::empty() }) + d.name@ + session_suffix(
        s.app_state.active_session,
        d.id@,
    )
    &&& item.enabled == !(s.app_state.active_session is Discovering)
    &&& item.selected == device_selected(s, d)
}

/// The `i`-th volume preset: 0, 25, 50, 75, 100.
pub open spec fn volume_preset(i: int) -> u8 {
    (25 * i) as u8
}

/// The volume entry for preset `p` with `selected` the current volume.
pub open spec fn volume_item_for(item: TrayVolumeMenuItem, p: u8, selected: u8) -> bool {
    &&& item.percent == p
    &&& item.selected == (p == selected)
    &&& item.label@ == (if p == selected { "● "@ } else { Seq::empty() }) + decimal(p as nat) + "%"@
}

/// `title：开` or `title：关`.
pub open spec fn toggle_label(title: Seq<char>, enabled: bool) -> Seq<char> {
    title + if enabled { "：开"@ } else { "：关"@ }
}

/// Whether `m` is the menu built from `s`.
pub open spec fn menu_model_for(m: TrayMenuModel, s: TrayAppState) -> bool {
    &&& m.status_label@ == status_label_text(s)
    &&& m.refresh_enabled == !(s.app_state.active_session is Discovering)
    &&& m.auto_reconnect_label@ == toggle_label("自动重连"@, s.auto_reconnect)
    &&& m.launch_at_startup_label@ == toggle_label("开机启动"@, s.launch_at_startup)
    &&& m.mute_label@ == (if s.sender_muted { "取消静音"@ } else { "静音"@ })
    &&& m.muted == s.sender_muted
    &&& m.volume_items@.len() == 5
    &&& forall|i: int| 0 <= i < 5 ==> volume_item_for(#[trigger] m.volume_items@[i], volume_preset(i), s.sender_volume_percent)
    &&& m.device_items@.len() == s.devices@.len()
    &&& forall|i: int| 0 <= i < s.devices@.len() ==> device_item_for(#[trigger] m.device_items@[i], s, s.devices@[i])
    &&& if s.devices@.len() == 0 {
        m.empty_label matches Some(l) && l@ == "未发现可用设备"@
    } else {
        m.empty_label is None
    }
}

/// The name of the first device with id `device_id`.
pub fn resolve_device_name<'a>(devices: &'a Vec<SpeakerDevice>, device_id: &str) -> (r: Option<&'a str>)
    ensures
        match find_device_index(devices@, device_id@) {
            Some(i) => r matches Some(n) && n@ == devices@[i].name@,
            None => r is None,
        },
{
    let mut i: usize = 0;
    while i < devices.len()
        invariant
            i <= devices@.len(),
            find_device_index(devices@, device_id@) == find_device_from(devices@, device_id@, i as int),
        decreases devices@.len() - i,
    {
        if str_eq(devices[i].id.as_str(), device_id) {
            return Some(devices[i].name.as_str());
        }
        i = i + 1;
    }
    None
}

/// The name of the device with id `device_id`, or the id itself.
fn name_or_id<'a>(devices: &'a Vec<SpeakerDevice>, device_id: &'a str) -> (r: &'a str)
    ensures
        r@ == device_name_or_id(devices@, device_id@),
{
    match resolve_device_name(devices, device_id) {
        Some(name) => name,
        None => device_id,
    }
}

fn build_status_label(state: &TrayAppState) -> (r: String)
    ensures
        r@ == status_label_text(*state),
{
    if let Some(last_error) = &state.last_error {
        let mut r = String::from_str("Rairstream：");
        push_str(&mut r, last_error.as_str());
        return r;
    }
    let (prefix, device_id) = match &state.app_state.active_session {
        SessionState::Idle => {
            return match &state.app_state.selected_device_id {
                Some(device_id) => match resolve_device_name(&state.devices, device_id.as_str()) {
                    Some(name) => {
                        let mut r = String::from_str("Rairstream：已选择 ");
                        push_str(&mut r, name);
                        r
                    },
                    None => String::from_str("Rairstream：空闲"),
                },
                None => String::from_str("Rairstream：空闲"),
            };
        },
        SessionState::Discovering => {
            return String::from_str("Rairstream：正在刷新设备");
        },
        SessionState::Connecting { device_id } => ("Rairstream：正在连接 ", device_id),
        SessionState::AwaitingPairing { device_id } => ("Rairstream：等待配对 ", device_id),
        SessionState::Authenticating { device_id } => ("Rairstream：正在认证 ", device_id),
        SessionState::Streaming { device_id } => ("Rairstream：正在串流 ", device_id),
    };
    let mut r = String::from_str(prefix);
    push_str(&mut r, name_or_id(&state.devices, device_id.as_str()));
    r
}

fn build_toggle_label(title: &str, enabled: bool) -> (r: String)
    ensures
        r@ == toggle_label(title@, enabled),
{
    let mut r = String::from_str(title);
    if enabled {
        push_str(&mut r, "：开");
    } else {
        push_str(&mut r, "：关");
    }
    r
}

fn build_volume_menu_items(selected_percent: u8) -> (r: Vec<TrayVolumeMenuItem>)
    ensures
        r@.len() == 5,
        forall|i: int| 0 <= i < 5 ==> volume_item_for(#[trigger] r@[i], volume_preset(i), selected_percent),
{
    let mut items: Vec<TrayVolumeMenuItem> = Vec::new();
    let mut k: u8 = 0;
    while k < 5
        invariant
            k <= 5,
            items@.len() == k,
            forall|i: int| 0 <= i < k ==> volume_item_for(#[trigger] items@[i], volume_preset(i), selected_percent),
        decreases 5 - k,
    {
        let percent: u8 = 25 * k;
        let selected = percent == selected_percent;
        let mut label = if selected { String::from_str("● ") } else { String::new() };
        push_decimal(&mut label, percent as u64);
        push_str(&mut label, "%");
        items.push(TrayVolumeMenuItem { percent, label, selected });
        k = k + 1;
    }
    items
}

fn build_device_menu_item(state: &TrayAppState, device: &SpeakerDevice, refresh_enabled: bool) -> (r: TrayDeviceMenuItem)
    requires
        refresh_enabled == !(state.app_state.active_session is Discovering),
    ensures
        device_item_for(r, *state, *device),
{
    let selected = match &state.app_state.selected_device_id {
        Some(id) => str_eq(id.as_str(), device.id.as_str()),
        None => false,
    };
    let mut label = if selected { String::from_str("● ") } else { String::new() };
    push_str(&mut label, device.name.as_str());
    let suffix: &str = match &state.app_state.active_session {
        SessionState::Connecting { device_id } => if str_eq(device_id.as_str(), device.id.as_str()) {
            "（连接中）"
        } else {
            ""
        },
        SessionState::AwaitingPairing { device_id } => if str_eq(device_id.as_str(), device.id.as_str()) {
            "（等待配对）"
        } else {
            ""
        },
        SessionState::Authenticating { device_id } => if str_eq(device_id.as_str(), device.id.as_str()) {
            "（认证中）"
        } else {
            ""
        },
        SessionState::Streaming { device_id } => if str_eq(device_id.as_str(), device.id.as_str()) {
            "（串流中）"
        } else {
            ""
        },
        _ => "",
    };
    proof {
        reveal_strlit("");
    }
    push_str(&mut label, suffix);
    TrayDeviceMenuItem { device_id: device.id.clone(), label, enabled: refresh_enabled, selected }
}

/// The tray menu for `state`.
pub fn build_tray_menu_model(state: &TrayAppState) -> (r: TrayMenuModel)
    ensures
        menu_model_for(r, *state),
{
    let refresh_enabled = match state.app_state.active_session {
        SessionState::Discovering => false,
        _ => true,
    };
    let mut device_items: Vec<TrayDeviceMenuItem> = Vec::new();
    let mut i: usize = 0;
    while i < state.devices.len()
        invariant
            i <= state.devices@.len(),
            refresh_enabled == !(state.app_state.active_session is Discovering),
            device_items@.len() == i,
            forall|j: int| 0 <= j < i ==> device_item_for(#[trigger] device_items@[j], *state, state.devices@[j]),
        decreases state.devices@.len() - i,
    {
        let item = build_device_menu_item(state, &state.devices[i], refresh_enabled);
        device_items.push(item);
        i = i + 1;
    }
    let volume_items = build_volume_menu_items(state.sender_volume_percent);
    let empty_label = if device_items.len() == 0 {
        Some(String::from_str("未发现可用设备"))
    } else {
        None
    };
    TrayMenuModel {
        status_label: build_status_label(state),
        refresh_enabled,
        auto_reconnect_label: build_toggle_label("自动重连", state.auto_reconnect),
        launch_at_startup_label: build_toggle_label("开机启动", state.launch_at_startup),
        mute_label: if state.sender_muted {
            String::from_str("取消静音")
        } else {
            String::from_str("静音")
        },
        muted: state.sender_muted,
        volume_items,
        device_items,
        empty_label,
    }
}

} // verus!
