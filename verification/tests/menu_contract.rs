use rairstream::menu::{tray_menu_entries, TrayAction, TrayMenuEntry};
use rairstream::model::{AirPlayGeneration, DeviceSupport, ReceiverKind, SpeakerDevice};
use rairstream::ui_state::{build_tray_menu_model, AppState, SessionState, TrayAppState};

fn build_device(id: &str, name: &str) -> SpeakerDevice {
    SpeakerDevice {
        id: id.to_string(),
        name: name.to_string(),
        host: String::from("192.168.1.20"),
        port: 7000,
        generation: AirPlayGeneration::AirPlay1,
        pairing_id: None,
        receiver_public_key: None,
        receiver_kind: ReceiverKind::ClassicRaop,
        support: DeviceSupport::Supported,
    }
}

fn state_with(app_state: AppState, devices: Vec<SpeakerDevice>) -> TrayAppState {
    TrayAppState { app_state, devices, ..TrayAppState::default() }
}

#[test]
fn test_menu_model_without_devices_shows_placeholder() {
    let model = build_tray_menu_model(&TrayAppState::default());

    assert_eq!(model.status_label, "Rairstream：空闲");
    assert!(model.refresh_enabled);
    assert!(model.device_items.is_empty());
    assert_eq!(model.empty_label.as_deref(), Some("未发现可用设备"));
}

#[test]
fn test_menu_model_for_idle_selection_shows_selected_device_label() {
    let state = state_with(
        AppState { selected_device_id: Some(String::from("living-room")), active_session: SessionState::Idle },
        vec![build_device("living-room", "Living Room")],
    );

    let model = build_tray_menu_model(&state);

    assert_eq!(model.status_label, "Rairstream：已选择 Living Room");
    assert!(model.device_items[0].selected);
    assert_eq!(model.device_items[0].label, "● Living Room");
}

#[test]
fn test_menu_model_for_connection_related_states_marks_device_status() {
    let with_session = |active_session: SessionState| {
        state_with(
            AppState { selected_device_id: Some(String::from("bedroom")), active_session },
            vec![build_device("bedroom", "Bedroom")],
        )
    };
    let connecting_model =
        build_tray_menu_model(&with_session(SessionState::Connecting { device_id: String::from("bedroom") }));
    let pairing_model =
        build_tray_menu_model(&with_session(SessionState::AwaitingPairing { device_id: String::from("bedroom") }));
    let authenticating_model =
        build_tray_menu_model(&with_session(SessionState::Authenticating { device_id: String::from("bedroom") }));
    let streaming_model =
        build_tray_menu_model(&with_session(SessionState::Streaming { device_id: String::from("bedroom") }));

    assert_eq!(connecting_model.status_label, "Rairstream：正在连接 Bedroom");
    assert_eq!(connecting_model.device_items[0].label, "● Bedroom（连接中）");
    assert_eq!(pairing_model.status_label, "Rairstream：等待配对 Bedroom");
    assert_eq!(pairing_model.device_items[0].label, "● Bedroom（等待配对）");
    assert_eq!(authenticating_model.status_label, "Rairstream：正在认证 Bedroom");
    assert_eq!(authenticating_model.device_items[0].label, "● Bedroom（认证中）");
    assert_eq!(streaming_model.status_label, "Rairstream：正在串流 Bedroom");
    assert_eq!(streaming_model.device_items[0].label, "● Bedroom（串流中）");
}

#[test]
fn test_menu_model_for_discovering_disables_refresh_and_device_actions() {
    let state = state_with(
        AppState { selected_device_id: None, active_session: SessionState::Discovering },
        vec![build_device("office", "Office")],
    );

    let model = build_tray_menu_model(&state);

    assert_eq!(model.status_label, "Rairstream：正在刷新设备");
    assert!(!model.refresh_enabled);
    assert!(!model.device_items[0].enabled);
}

#[test]
fn menu_lines_follow_the_model() {
    let state = state_with(
        AppState {
            selected_device_id: Some(String::from("bedroom")),
            active_session: SessionState::Streaming { device_id: String::from("bedroom") },
        },
        vec![build_device("bedroom", "Bedroom")],
    );
    let model = build_tray_menu_model(&state);

    let entries = tray_menu_entries(&model, &state);

    assert_eq!(entries.len(), 18);
    assert_eq!(entries[0], TrayMenuEntry::Label { text: model.status_label.clone(), enabled: false });
    assert_eq!(entries[1], TrayMenuEntry::Separator);
    assert_eq!(
        entries[2],
        TrayMenuEntry::Action { text: String::from("刷新设备"), enabled: true, action: TrayAction::RefreshDevices }
    );
    assert_eq!(
        entries[5],
        TrayMenuEntry::Action { text: String::from("停止串流"), enabled: true, action: TrayAction::StopStreaming }
    );
    assert_eq!(entries[6], TrayMenuEntry::Label { text: String::from("发送音量"), enabled: false });
    assert!(matches!(&entries[8], TrayMenuEntry::Action { action: TrayAction::SetSenderVolume(_), .. }));
    assert!(matches!(
        &entries[14],
        TrayMenuEntry::Action { text, action: TrayAction::SelectDevice(id), .. }
            if text == "● Bedroom（串流中）" && id == "bedroom"
    ));
    assert_eq!(entries[17], TrayMenuEntry::Action { text: String::from("退出"), enabled: true, action: TrayAction::Quit });

    let idle = build_tray_menu_model(&TrayAppState::default());
    let entries = tray_menu_entries(&idle, &TrayAppState::default());
    assert_eq!(entries.len(), 17);
    assert_eq!(entries[13], TrayMenuEntry::Label { text: String::from("未发现可用设备"), enabled: false });
}
