use std::cell::RefCell;
use std::time::Duration;

use rairstream::config::{AppConfig, TrayLanguagePreference};
use rairstream::controller::{TrayController, TraySessionService};
use rairstream::error::{AirPlayError, RairstreamError};
use rairstream::model::{
    AirPlayGeneration, DeviceSupport, ReceiverAuthFlow, ReceiverCredentials, ReceiverKind, SpeakerDevice,
};
use rairstream::tray::{
    build_pair_label, build_target_label, format_about_message, format_status, icon_rgba, parse_menu_action,
    powershell_single_quoted, reconnect_delay, resolve_locale, run, snapshot_menu_flags, tray_receiver_label,
    MenuAction, QuitAction, TrayI18n, TrayLocale, TrayPhase, TrayReceiverEntry, TrayRuntimeState, TraySnapshot,
    TrayText,
};
use rairstream::ui_state::{build_tray_menu_model, AppState, SessionState, TrayAppState, UI_PLACEHOLDER};

fn build_device(id: &str, name: &str) -> SpeakerDevice {
    SpeakerDevice {
        id: id.to_string(),
        name: name.to_string(),
        host: String::from("192.168.1.10"),
        port: 7000,
        generation: AirPlayGeneration::AirPlay1,
        pairing_id: None,
        receiver_public_key: None,
        receiver_kind: ReceiverKind::ClassicRaop,
        support: DeviceSupport::Supported,
    }
}

fn tray_state(app_state: AppState, devices: Vec<SpeakerDevice>) -> TrayAppState {
    TrayAppState {
        app_state,
        devices,
        auto_reconnect: true,
        launch_at_startup: false,
        sender_volume_percent: 100,
        sender_muted: false,
        last_error: None,
    }
}

// ---------------------------------------------------------------------------
// menu model

#[test]
fn ui_placeholder_is_available() {
    assert_eq!(UI_PLACEHOLDER, "ui-placeholder");
}

#[test]
fn test_build_tray_menu_model_without_devices_shows_placeholder() {
    let model = build_tray_menu_model(&TrayAppState::default());

    assert_eq!(model.status_label, "Rairstream：空闲");
    assert!(model.refresh_enabled);
    assert_eq!(model.auto_reconnect_label, "自动重连：开");
    assert_eq!(model.launch_at_startup_label, "开机启动：关");
    assert_eq!(model.volume_items.len(), 5);
    assert!(model.volume_items[4].selected);
    assert!(model.device_items.is_empty());
    assert_eq!(model.empty_label.as_deref(), Some("未发现可用设备"));
}

#[test]
fn test_build_tray_menu_model_marks_selected_device() {
    let state = tray_state(
        AppState { selected_device_id: Some(String::from("living-room")), active_session: SessionState::Idle },
        vec![build_device("living-room", "Living Room")],
    );

    let model = build_tray_menu_model(&state);

    assert_eq!(model.status_label, "Rairstream：已选择 Living Room");
    assert_eq!(model.device_items.len(), 1);
    assert!(model.device_items[0].selected);
    assert_eq!(model.device_items[0].label, "● Living Room");
}

#[test]
fn test_build_tray_menu_model_shows_connecting_status() {
    let state = tray_state(
        AppState {
            selected_device_id: Some(String::from("kitchen")),
            active_session: SessionState::Connecting { device_id: String::from("kitchen") },
        },
        vec![build_device("kitchen", "Kitchen")],
    );

    let model = build_tray_menu_model(&state);

    assert_eq!(model.status_label, "Rairstream：正在连接 Kitchen");
    assert_eq!(model.device_items[0].label, "● Kitchen（连接中）");
}

#[test]
fn test_build_tray_menu_model_shows_pairing_and_authenticating_status() {
    let pairing_state = tray_state(
        AppState {
            selected_device_id: Some(String::from("kitchen")),
            active_session: SessionState::AwaitingPairing { device_id: String::from("kitchen") },
        },
        vec![build_device("kitchen", "Kitchen")],
    );
    let authenticating_state = tray_state(
        AppState {
            selected_device_id: Some(String::from("kitchen")),
            active_session: SessionState::Authenticating { device_id: String::from("kitchen") },
        },
        vec![build_device("kitchen", "Kitchen")],
    );

    let pairing_model = build_tray_menu_model(&pairing_state);
    let authenticating_model = build_tray_menu_model(&authenticating_state);

    assert_eq!(pairing_model.status_label, "Rairstream：等待配对 Kitchen");
    assert_eq!(pairing_model.device_items[0].label, "● Kitchen（等待配对）");
    assert_eq!(authenticating_model.status_label, "Rairstream：正在认证 Kitchen");
    assert_eq!(authenticating_model.device_items[0].label, "● Kitchen（认证中）");
}

#[test]
fn test_build_tray_menu_model_disables_actions_while_discovering() {
    let state = tray_state(
        AppState { selected_device_id: None, active_session: SessionState::Discovering },
        vec![build_device("office", "Office")],
    );

    let model = build_tray_menu_model(&state);

    assert_eq!(model.status_label, "Rairstream：正在刷新设备");
    assert!(!model.refresh_enabled);
    assert!(!model.device_items[0].enabled);
}

#[test]
fn test_build_tray_menu_model_prioritizes_last_error() {
    let mut state = tray_state(
        AppState {
            selected_device_id: Some(String::from("kitchen")),
            active_session: SessionState::Authenticating { device_id: String::from("kitchen") },
        },
        vec![build_device("kitchen", "Kitchen")],
    );
    state.last_error = Some(String::from("Kitchen 认证失败，请重新配对后再试"));

    let model = build_tray_menu_model(&state);

    assert_eq!(model.status_label, "Rairstream：Kitchen 认证失败，请重新配对后再试");
}

#[test]
fn test_build_tray_menu_model_marks_selected_volume_preset() {
    let mut state = tray_state(AppState::default(), Vec::new());
    state.sender_volume_percent = 50;

    let model = build_tray_menu_model(&state);

    assert_eq!(model.volume_items.len(), 5);
    assert_eq!(model.volume_items[2].percent, 50);
    assert!(model.volume_items[2].selected);
    assert_eq!(model.volume_items[2].label, "● 50%");
}

#[test]
fn menu_model_streaming_unknown_device_falls_back_to_id_and_labels_toggles() {
    let mut state = tray_state(
        AppState {
            selected_device_id: None,
            active_session: SessionState::Streaming { device_id: String::from("ghost") },
        },
        vec![build_device("office", "Office")],
    );
    state.sender_muted = true;
    state.auto_reconnect = false;
    state.launch_at_startup = true;
    state.sender_volume_percent = 30;

    let model = build_tray_menu_model(&state);

    assert_eq!(model.status_label, "Rairstream：正在串流 ghost");
    assert_eq!(model.device_items[0].label, "Office");
    assert!(!model.device_items[0].selected);
    assert_eq!(model.mute_label, "取消静音");
    assert!(model.muted);
    assert_eq!(model.auto_reconnect_label, "自动重连：关");
    assert_eq!(model.launch_at_startup_label, "开机启动：开");
    assert!(model.volume_items.iter().all(|item| !item.selected));
    assert_eq!(model.volume_items[1].label, "25%");
    assert!(model.empty_label.is_none());
}

// ---------------------------------------------------------------------------
// controller

#[derive(Debug, Clone, Copy)]
enum StartBehavior {
    Success,
    AwaitingPairing,
    Authenticating,
    Failure,
}

#[derive(Debug, Clone, Copy)]
enum PairBehavior {
    Success,
    Failure,
}

#[derive(Debug)]
struct StubSessionService {
    devices: Vec<SpeakerDevice>,
    start_behavior: StartBehavior,
    pair_behavior: PairBehavior,
    saved: RefCell<Vec<AppConfig>>,
}

fn stub(devices: Vec<SpeakerDevice>, start_behavior: StartBehavior, pair_behavior: PairBehavior) -> StubSessionService {
    StubSessionService { devices, start_behavior, pair_behavior, saved: RefCell::new(Vec::new()) }
}

impl TraySessionService for StubSessionService {
    fn discover(&self) -> Vec<SpeakerDevice> {
        self.devices.clone()
    }

    fn prepare_session(&self, device: SpeakerDevice) -> Result<AppState, RairstreamError> {
        Ok(AppState {
            selected_device_id: Some(device.id.clone()),
            active_session: SessionState::Connecting { device_id: device.id },
        })
    }

    fn pair_with_pin(&self, _device: SpeakerDevice, _pin: &str) -> Result<ReceiverCredentials, RairstreamError> {
        match self.pair_behavior {
            PairBehavior::Success => Ok(ReceiverCredentials {
                auth_flow: ReceiverAuthFlow::Modern,
                controller_pairing_id: String::from("controller-id"),
                controller_ltpk_hex: String::from("11"),
                controller_ltsk_hex: String::from("22"),
                receiver_pairing_id: String::from("receiver-id"),
                receiver_ltpk_hex: String::from("33"),
            }),
            PairBehavior::Failure => Err(RairstreamError::Transport(AirPlayError::AuthenticationFailed {
                message: String::from("stub pair failure"),
            })),
        }
    }

    fn store_receiver_credentials(
        &self,
        _device_id: String,
        _receiver_credentials: ReceiverCredentials,
    ) -> Result<(), RairstreamError> {
        Ok(())
    }

    fn start_streaming_session(&self, device: SpeakerDevice) -> Result<AppState, RairstreamError> {
        match self.start_behavior {
            StartBehavior::Success => Ok(AppState {
                selected_device_id: Some(device.id.clone()),
                active_session: SessionState::Streaming { device_id: device.id },
            }),
            StartBehavior::AwaitingPairing => Ok(AppState {
                selected_device_id: Some(device.id.clone()),
                active_session: SessionState::AwaitingPairing { device_id: device.id },
            }),
            StartBehavior::Authenticating => Ok(AppState {
                selected_device_id: Some(device.id.clone()),
                active_session: SessionState::Authenticating { device_id: device.id },
            }),
            StartBehavior::Failure => {
                Err(RairstreamError::InvalidConfiguration { message: String::from("stub start failure") })
            }
        }
    }

    fn stop_streaming_session(&self) -> Result<AppState, RairstreamError> {
        Ok(AppState { selected_device_id: None, active_session: SessionState::Idle })
    }

    fn save_config(&self, config: &AppConfig) -> Result<(), RairstreamError> {
        self.saved.borrow_mut().push(config.clone());
        Ok(())
    }
}

#[test]
fn test_refresh_devices_populates_menu_model() {
    let mut controller = TrayController::new(
        stub(vec![build_device("living-room", "Living Room")], StartBehavior::Success, PairBehavior::Success),
        AppConfig::default(),
    );

    let model = controller.refresh_devices();

    assert_eq!(controller.state().devices.len(), 1);
    assert_eq!(model.device_items.len(), 1);
    assert_eq!(model.device_items[0].device_id, "living-room");
}

#[test]
fn test_initialize_auto_reconnects_preferred_device() {
    let mut controller = TrayController::new(
        stub(vec![build_device("living-room", "Living Room")], StartBehavior::Success, PairBehavior::Success),
        AppConfig {
            auto_reconnect: true,
            preferred_device_id: Some(String::from("living-room")),
            ..AppConfig::default()
        },
    );

    let model = controller.initialize();

    assert_eq!(model.status_label, "Rairstream：正在串流 Living Room");
    assert!(matches!(controller.state().app_state.active_session, SessionState::Streaming { .. }));
}

#[test]
fn test_initialize_skips_auto_reconnect_when_disabled() {
    let mut controller = TrayController::new(
        stub(vec![build_device("living-room", "Living Room")], StartBehavior::Success, PairBehavior::Success),
        AppConfig {
            auto_reconnect: false,
            preferred_device_id: Some(String::from("living-room")),
            ..AppConfig::default()
        },
    );

    let model = controller.initialize();

    assert_eq!(model.status_label, "Rairstream：已选择 Living Room");
    assert_eq!(controller.state().app_state.active_session, SessionState::Idle);
}

#[test]
fn test_refresh_devices_preserves_existing_selection() {
    let mut controller = TrayController::new(
        stub(vec![build_device("kitchen", "Kitchen")], StartBehavior::Success, PairBehavior::Success),
        AppConfig { preferred_device_id: Some(String::from("kitchen")), ..AppConfig::default() },
    );

    controller.refresh_devices();

    assert_eq!(controller.state().app_state.selected_device_id.as_deref(), Some("kitchen"));
}

#[test]
fn test_refresh_devices_clears_missing_selection() {
    let mut controller = TrayController::new(
        stub(vec![build_device("office", "Office")], StartBehavior::Success, PairBehavior::Success),
        AppConfig { preferred_device_id: Some(String::from("missing-device")), ..AppConfig::default() },
    );

    controller.refresh_devices();

    assert!(controller.state().app_state.selected_device_id.is_none());
}

#[test]
fn test_select_device_enters_streaming_state() {
    let mut controller = TrayController::new(
        stub(vec![build_device("bedroom", "Bedroom")], StartBehavior::Success, PairBehavior::Success),
        AppConfig::default(),
    );

    controller.refresh_devices();
    let model = controller.select_device("bedroom").expect("stub selection should succeed");

    assert_eq!(model.status_label, "Rairstream：正在串流 Bedroom");
    assert_eq!(controller.state().app_state.selected_device_id.as_deref(), Some("bedroom"));
    assert_eq!(controller.config.preferred_device_id.as_deref(), Some("bedroom"));
    assert!(matches!(controller.state().app_state.active_session, SessionState::Streaming { .. }));
    assert_eq!(controller.session_service.saved.borrow().len(), 1);
}

#[test]
fn test_select_device_keeps_pairing_related_state() {
    let mut pairing_controller = TrayController::new(
        stub(vec![build_device("bedroom", "Bedroom")], StartBehavior::AwaitingPairing, PairBehavior::Success),
        AppConfig::default(),
    );
    pairing_controller.refresh_devices();
    let pairing_model = pairing_controller.select_device("bedroom").expect("stub pairing selection should succeed");
    assert_eq!(pairing_model.status_label, "Rairstream：等待配对 Bedroom");
    assert!(matches!(pairing_controller.state().app_state.active_session, SessionState::AwaitingPairing { .. }));

    let mut auth_controller = TrayController::new(
        stub(vec![build_device("den", "Den")], StartBehavior::Authenticating, PairBehavior::Success),
        AppConfig::default(),
    );
    auth_controller.refresh_devices();
    let auth_model = auth_controller.select_device("den").expect("stub auth selection should succeed");
    assert_eq!(auth_model.status_label, "Rairstream：正在认证 Den");
    assert!(matches!(auth_controller.state().app_state.active_session, SessionState::Authenticating { .. }));
}

#[test]
fn test_select_device_rejects_missing_device() {
    let mut controller = TrayController::new(
        stub(vec![build_device("studio", "Studio")], StartBehavior::Success, PairBehavior::Success),
        AppConfig::default(),
    );

    controller.refresh_devices();
    let result = controller.select_device("missing-device");

    assert!(matches!(result, Err(RairstreamError::InvalidConfiguration { .. })));
}

#[test]
fn test_select_device_preserves_state_on_start_failure() {
    let mut controller = TrayController::new(
        stub(vec![build_device("den", "Den")], StartBehavior::Failure, PairBehavior::Failure),
        AppConfig::default(),
    );

    controller.refresh_devices();
    let result = controller.select_device("den");

    assert!(result.is_err());
    assert!(controller.state().app_state.selected_device_id.is_none());
    assert_eq!(controller.state().app_state.active_session, SessionState::Idle);
}

#[test]
fn test_submit_pairing_pin_retries_same_device_and_enters_streaming() {
    let mut controller = TrayController::new(
        stub(vec![build_device("den", "Den")], StartBehavior::Success, PairBehavior::Success),
        AppConfig::default(),
    );

    controller.refresh_devices();
    controller.state.app_state = AppState {
        selected_device_id: Some(String::from("den")),
        active_session: SessionState::AwaitingPairing { device_id: String::from("den") },
    };

    let model = controller.submit_pairing_pin("den", "1234").unwrap();

    assert_eq!(model.status_label, "Rairstream：正在串流 Den");
    assert!(matches!(controller.state().app_state.active_session, SessionState::Streaming { .. }));
    assert_eq!(controller.config.paired_receiver("den").unwrap().controller_pairing_id, "controller-id");
}

#[test]
fn submit_pairing_pin_keeps_state_when_pairing_fails() {
    let mut controller = TrayController::new(
        stub(vec![build_device("den", "Den")], StartBehavior::Success, PairBehavior::Failure),
        AppConfig::default(),
    );
    controller.refresh_devices();
    let before = controller.state().clone();

    let result = controller.submit_pairing_pin("den", "1234");

    assert!(matches!(result, Err(RairstreamError::Transport(AirPlayError::AuthenticationFailed { .. }))));
    assert_eq!(controller.state(), &before);
    assert!(controller.config.paired_receiver("den").is_none());
}

#[test]
fn test_cancel_pairing_returns_idle_for_same_device() {
    let mut controller = TrayController::new(
        stub(vec![build_device("den", "Den")], StartBehavior::AwaitingPairing, PairBehavior::Success),
        AppConfig::default(),
    );

    controller.refresh_devices();
    controller.state.app_state = AppState {
        selected_device_id: Some(String::from("den")),
        active_session: SessionState::AwaitingPairing { device_id: String::from("den") },
    };

    let model = controller.cancel_pairing("den").unwrap();

    assert_eq!(model.status_label, "Rairstream：已选择 Den");
    assert_eq!(controller.state().app_state.active_session, SessionState::Idle);
}

#[test]
fn test_select_streaming_device_stops_session() {
    let mut controller = TrayController::new(
        stub(vec![build_device("den", "Den")], StartBehavior::Success, PairBehavior::Success),
        AppConfig::default(),
    );

    controller.refresh_devices();
    controller.select_device("den").unwrap();
    let model = controller.stop_streaming().unwrap();

    assert_eq!(model.status_label, "Rairstream：已选择 Den");
    assert_eq!(controller.config.preferred_device_id.as_deref(), Some("den"));
    assert_eq!(controller.state().app_state.active_session, SessionState::Idle);
}

#[test]
fn selecting_the_streaming_device_again_stops_it() {
    let mut controller = TrayController::new(
        stub(vec![build_device("den", "Den")], StartBehavior::Success, PairBehavior::Success),
        AppConfig::default(),
    );
    controller.refresh_devices();
    controller.select_device("den").unwrap();

    let model = controller.select_device("den").unwrap();

    assert_eq!(model.status_label, "Rairstream：已选择 Den");
    assert_eq!(controller.state().app_state.active_session, SessionState::Idle);
}

#[test]
fn test_handle_error_maps_authentication_recovery_message() {
    let mut controller = TrayController::new(
        stub(vec![build_device("den", "Den")], StartBehavior::Success, PairBehavior::Success),
        AppConfig::default(),
    );

    controller.refresh_devices();
    controller.handle_error(
        Some("den"),
        &RairstreamError::Transport(AirPlayError::AuthenticationFailed { message: String::from("forbidden") }),
    );

    assert_eq!(controller.state().last_error.as_deref(), Some("Den 认证失败，请重新配对后再试"));
    assert_eq!(controller.menu_model().status_label, "Rairstream：Den 认证失败，请重新配对后再试");
}

#[test]
fn test_handle_error_maps_missing_credentials_recovery_message() {
    let mut controller = TrayController::new(
        stub(vec![build_device("den", "Den")], StartBehavior::Success, PairBehavior::Success),
        AppConfig::default(),
    );

    controller.refresh_devices();
    controller.handle_error(Some("den"), &RairstreamError::Transport(AirPlayError::CredentialsMissing));

    assert_eq!(controller.state().last_error.as_deref(), Some("Den 缺少可用配对记录，请重新配对"));
}

#[test]
fn handle_error_without_device_and_for_other_errors() {
    let mut controller = TrayController::new(
        stub(vec![build_device("den", "Den")], StartBehavior::Success, PairBehavior::Success),
        AppConfig::default(),
    );
    controller.refresh_devices();

    controller.handle_error(None, &RairstreamError::Transport(AirPlayError::PairingRequired));
    assert_eq!(controller.state().last_error.as_deref(), Some("目标设备需要先完成首次配对，请重新选择并输入 PIN"));

    controller.handle_error(
        Some("den"),
        &RairstreamError::InvalidConfiguration { message: String::from("bad") },
    );
    assert_eq!(controller.state().last_error.as_deref(), Some("配置无效: bad"));
}

/// A session service shaped like the real coordinator on a platform where
/// streaming cannot start: discovery offers its stub receiver, starting a
/// stream is refused.
#[derive(Debug)]
struct RefusingCoordinator;

impl TraySessionService for RefusingCoordinator {
    fn discover(&self) -> Vec<SpeakerDevice> {
        vec![build_device("stub-speaker", "Stub Speaker")]
    }

    fn prepare_session(&self, _device: SpeakerDevice) -> Result<AppState, RairstreamError> {
        Err(RairstreamError::UnsupportedPlatform { os: String::from("test"), feature: String::from("audio capture") })
    }

    fn pair_with_pin(&self, _device: SpeakerDevice, _pin: &str) -> Result<ReceiverCredentials, RairstreamError> {
        Err(RairstreamError::Transport(AirPlayError::AuthenticationRequired))
    }

    fn store_receiver_credentials(&self, _id: String, _c: ReceiverCredentials) -> Result<(), RairstreamError> {
        Ok(())
    }

    fn start_streaming_session(&self, _device: SpeakerDevice) -> Result<AppState, RairstreamError> {
        Err(RairstreamError::UnsupportedPlatform { os: String::from("test"), feature: String::from("audio capture") })
    }

    fn stop_streaming_session(&self) -> Result<AppState, RairstreamError> {
        Ok(AppState::default())
    }

    fn save_config(&self, _config: &AppConfig) -> Result<(), RairstreamError> {
        Ok(())
    }
}

#[test]
fn test_controller_reuses_session_coordinator_runtime_constraints() {
    let mut controller = TrayController::new(RefusingCoordinator, AppConfig::default());

    controller.refresh_devices();
    let result = controller.select_device("stub-speaker");

    assert!(result.is_err());
}

// ---------------------------------------------------------------------------
// languages

#[test]
fn resolves_system_locale_with_english_fallback() {
    assert_eq!(resolve_locale(TrayLanguagePreference::System, Some("zh_CN.UTF-8")), TrayLocale::ZhCn);
    assert_eq!(resolve_locale(TrayLanguagePreference::System, Some("fr-FR")), TrayLocale::EnUs);
    assert_eq!(resolve_locale(TrayLanguagePreference::EnUs, Some("zh-CN")), TrayLocale::EnUs);
}

#[test]
fn maps_key_tray_texts_for_supported_languages() {
    let english = TrayI18n::with_system_locale(TrayLanguagePreference::EnUs, None);
    let chinese = TrayI18n::with_system_locale(TrayLanguagePreference::ZhCn, None);

    assert_eq!(english.text(TrayText::RefreshDevices), "Refresh Devices");
    assert_eq!(chinese.text(TrayText::RefreshDevices), "刷新设备");
    assert_eq!(chinese.status_waiting_for_pin("Living Room"), "状态：等待 PIN - Living Room");
}

#[test]
fn locale_tags_map_by_language_part() {
    assert_eq!(resolve_locale(TrayLanguagePreference::System, Some("zh-Hans-CN")), TrayLocale::ZhCn);
    assert_eq!(resolve_locale(TrayLanguagePreference::System, Some("en_GB.UTF-8")), TrayLocale::EnUs);
    assert_eq!(resolve_locale(TrayLanguagePreference::System, Some("zh_TW")), TrayLocale::EnUs);
    assert_eq!(resolve_locale(TrayLanguagePreference::System, None), TrayLocale::EnUs);
    assert_eq!(resolve_locale(TrayLanguagePreference::ZhCn, None), TrayLocale::ZhCn);
}

#[test]
fn formatted_tray_messages() {
    let english = TrayI18n::with_system_locale(TrayLanguagePreference::EnUs, None);

    assert_eq!(english.status_streaming_to_devices(2), "Status: Streaming to 2 device(s)");
    assert_eq!(english.saved_pairing_for("Den"), "saved pairing for Den");
    assert_eq!(english.removed_pairing_for("Den"), "removed pairing for Den");
    assert_eq!(english.enter_pin_shown_on("Den"), "Enter the PIN shown on Den:");
}

// ---------------------------------------------------------------------------
// run-time phases

#[test]
fn runtime_state_requests_stop_before_exit_while_streaming() {
    let mut state = TrayRuntimeState::default();
    state.start_streaming(vec![String::from("living-room")]);

    assert_eq!(state.request_quit(), QuitAction::StopStreamingFirst);
    assert!(state.stop_streaming());
    assert_eq!(state.phase(), &TrayPhase::Idle);
}

#[test]
fn runtime_state_requests_stop_before_exit_while_reconnecting() {
    let mut state = TrayRuntimeState::default();
    state.begin_reconnecting(vec![String::from("living-room")], 2);

    assert_eq!(state.request_quit(), QuitAction::StopStreamingFirst);
    assert!(state.stop_streaming());
    assert_eq!(state.phase(), &TrayPhase::Idle);
}

#[test]
fn runtime_state_tracks_reconnecting_attempt() {
    let mut state = TrayRuntimeState::default();
    state.begin_reconnecting(vec![String::from("living-room")], 3);

    assert_eq!(
        state.phase(),
        &TrayPhase::Reconnecting { receiver_ids: vec![String::from("living-room")], attempt: 3 }
    );
}

#[test]
fn reconnect_delay_uses_capped_backoff() {
    assert_eq!(Duration::from_secs(reconnect_delay(1)), Duration::ZERO);
    assert_eq!(Duration::from_secs(reconnect_delay(2)), Duration::from_secs(2));
    assert_eq!(Duration::from_secs(reconnect_delay(3)), Duration::from_secs(5));
    assert_eq!(Duration::from_secs(reconnect_delay(4)), Duration::from_secs(10));
    assert_eq!(Duration::from_secs(reconnect_delay(5)), Duration::from_secs(30));
    assert_eq!(Duration::from_secs(reconnect_delay(6)), Duration::from_secs(60));
    assert_eq!(Duration::from_secs(reconnect_delay(99)), Duration::from_secs(60));
}

#[test]
fn runtime_state_clears_waiting_pin_on_cancel() {
    let mut state = TrayRuntimeState::default();
    state.begin_waiting_for_pin("office");
    state.cancel_waiting_for_pin();

    assert_eq!(state.phase(), &TrayPhase::Idle);
}

#[test]
fn quit_when_idle_exits_now_and_stop_does_not_ask_to_exit() {
    let mut state = TrayRuntimeState::default();

    assert_eq!(state.request_quit(), QuitAction::ExitNow);
    assert!(!state.stop_streaming());

    state.start_streaming(vec![String::from("a")]);
    state.begin_waiting_for_pin("b");
    state.start_streaming(vec![String::from("a")]);
    state.cancel_waiting_for_pin();
    assert!(matches!(state.phase(), TrayPhase::Streaming { .. }));
}

// ---------------------------------------------------------------------------
// menu pieces

fn entry(id: &str, name: Option<&str>, host: &str, selected: bool, paired: bool) -> TrayReceiverEntry {
    TrayReceiverEntry {
        receiver_id: id.to_string(),
        display_name: name.map(str::to_string),
        host: host.to_string(),
        is_selected: selected,
        is_paired: paired,
    }
}

#[test]
fn receiver_labels_use_display_name_host_and_pairing_mark() {
    let english = TrayI18n::with_system_locale(TrayLanguagePreference::EnUs, None);
    let named = entry("den", Some("Den"), "10.0.0.2", false, true);
    let bare = entry("attic", None, "", false, false);

    assert_eq!(tray_receiver_label(&named), "Den");
    assert_eq!(tray_receiver_label(&bare), "attic");
    assert_eq!(build_target_label(&named), "Den (10.0.0.2)");
    assert_eq!(build_target_label(&bare), "attic");
    assert_eq!(build_pair_label(&named, english), "Den (paired)");
    assert_eq!(build_pair_label(&bare, english), "attic");
}

#[test]
fn tray_status_and_switches_follow_the_snapshot() {
    let english = TrayI18n::with_system_locale(TrayLanguagePreference::EnUs, None);
    let waiting = TraySnapshot {
        phase: TrayPhase::WaitingForPin { receiver_id: String::from("den") },
        receivers: vec![entry("den", Some("Den"), "", true, false)],
        language: TrayLanguagePreference::EnUs,
        auto_reconnect: false,
    };
    let streaming = TraySnapshot {
        phase: TrayPhase::Streaming { receiver_ids: vec![String::from("den"), String::from("attic")] },
        ..waiting.clone()
    };
    let idle_unselected = TraySnapshot {
        phase: TrayPhase::Idle,
        receivers: vec![entry("den", Some("Den"), "", false, false)],
        ..waiting.clone()
    };

    assert_eq!(format_status(&waiting, english), "Status: Waiting for PIN - Den");
    assert_eq!(format_status(&streaming, english), "Status: Streaming to 2 device(s)");
    assert_eq!(format_status(&idle_unselected, english), "Status: Idle");
    assert_eq!(snapshot_menu_flags(&waiting), (false, false, false));
    assert_eq!(snapshot_menu_flags(&streaming), (true, false, true));
    assert_eq!(snapshot_menu_flags(&idle_unselected), (true, false, false));
    let idle_selected = TraySnapshot { phase: TrayPhase::Idle, ..waiting.clone() };
    assert_eq!(snapshot_menu_flags(&idle_selected), (true, true, false));
}

#[test]
fn parse_menu_action_maps_static_items() {
    assert_eq!(parse_menu_action("refresh"), Some(MenuAction::Refresh));
    assert_eq!(parse_menu_action("start-streaming"), Some(MenuAction::StartStreaming));
    assert_eq!(parse_menu_action("quit"), Some(MenuAction::Quit));
    assert_eq!(parse_menu_action("start-at-login"), Some(MenuAction::ToggleStartAtLogin));
    assert_eq!(parse_menu_action("language:zh-cn"), Some(MenuAction::SetLanguage(TrayLanguagePreference::ZhCn)));
}

#[test]
fn parse_menu_action_maps_dynamic_receiver_items() {
    assert_eq!(
        parse_menu_action("target:living-room"),
        Some(MenuAction::ToggleReceiver { receiver_id: String::from("living-room") })
    );
    assert_eq!(
        parse_menu_action("pair:kitchen"),
        Some(MenuAction::RequestPairing { receiver_id: String::from("kitchen") })
    );
    assert_eq!(
        parse_menu_action("forget:office"),
        Some(MenuAction::ForgetPairing { receiver_id: String::from("office") })
    );
    assert_eq!(parse_menu_action("unknown"), None);
}

#[test]
fn powershell_quoting_doubles_single_quotes() {
    assert_eq!(powershell_single_quoted("Bob's TV"), "Bob''s TV");
    assert_eq!(powershell_single_quoted("plain"), "plain");
}

#[test]
fn test_format_about_message_contains_version_and_commit() {
    let message = format_about_message("0.1.0", "abc1234");

    assert_eq!(message, "Rairstream\n版本：0.1.0\n提交：abc1234");
}

#[test]
fn test_format_about_message_supports_unknown_commit() {
    let message = format_about_message("0.1.0", "unknown");

    assert_eq!(message, "Rairstream\n版本：0.1.0\n提交：unknown");
}

#[test]
fn icon_has_light_border_and_dark_inside() {
    let rgba = icon_rgba();

    assert_eq!(rgba.len(), 16 * 16 * 4);
    assert_eq!(&rgba[0..4], &[30, 144, 255, 255]);
    let inside = (5 * 16 + 5) * 4;
    assert_eq!(&rgba[inside..inside + 4], &[16, 78, 139, 255]);
}

#[test]
fn tray_run_reports_missing_tray_support() {
    assert_eq!(run("linux"), Err(String::from("功能尚未实现: system tray")));
}
