//! The tray controller: what each menu action does to the tray state, the
//! settings and the streaming session.

use vstd::prelude::*;

use crate::config::{paired_lookup, AppConfig};
use crate::error::{rairstream_error_text, AirPlayError, RairstreamError};
use crate::model::{copy_opt_string, ReceiverCredentials, SpeakerDevice};
use crate::text::push_str;
use crate::ui_state::{
    build_tray_menu_model, find_device_index, menu_model_for, resolve_device_name, AppState, SessionState,
    TrayAppState, TrayMenuModel,
};

verus! {

/// The session side the tray drives: discovery, pairing, streaming and the
/// saving of settings.
pub trait TraySessionService {
    fn discover(&self) -> Vec<SpeakerDevice>;

    fn prepare_session(&self, device: SpeakerDevice) -> Result<AppState, RairstreamError>;

    fn pair_with_pin(&self, device: SpeakerDevice, pin: &str) -> Result<ReceiverCredentials, RairstreamError>;

    fn store_receiver_credentials(
        &self,
        device_id: String,
        receiver_credentials: ReceiverCredentials,
    ) -> Result<(), RairstreamError>;

    fn start_streaming_session(&self, device: SpeakerDevice) -> Result<AppState, RairstreamError>;

    fn stop_streaming_session(&self) -> Result<AppState, RairstreamError>;

    fn save_config(&self, config: &AppConfig) -> Result<(), RairstreamError>;
}

/// The tray controller: the session service, the settings and what the
/// tray shows.
#[derive(Debug)]
pub struct TrayController<S> {
    pub session_service: S,
    pub config: AppConfig,
    pub state: TrayAppState,
}

/// The selection kept after a refresh: the selected id if a device with that
/// id is still there.
pub open spec fn retained_selection(selected: Option<String>, devices: Seq<SpeakerDevice>) -> Option<String> {
    match selected {
        Some(id) => if find_device_index(devices, id@) is Some { Some(id) } else { None },
        None => None,
    }
}

/// Whether `after` is `before` with a new device list, the selection kept
/// as far as it still exists, the session idle and no error.
pub open spec fn refreshed(before: TrayAppState, after: TrayAppState) -> bool {
    &&& after.app_state.selected_device_id == retained_selection(before.app_state.selected_device_id, after.devices@)
    &&& after.app_state.active_session == SessionState::Idle
    &&& after.last_error is None
    &&& after.auto_reconnect == before.auto_reconnect
    &&& after.launch_at_startup == before.launch_at_startup
    &&& after.sender_volume_percent == before.sender_volume_percent
    &&& after.sender_muted == before.sender_muted
}

/// Whether `after` shows the receivers `devices` a discovery found on top
/// of `before`: the selection kept as far as it still exists, the session
/// idle, no error, everything else as it was.
pub open spec fn shows_discovered(before: TrayAppState, after: TrayAppState, devices: Seq<SpeakerDevice>) -> bool {
    &&& after.devices@ == devices
    &&& after == (TrayAppState {
        app_state: AppState {
            selected_device_id: retained_selection(before.app_state.selected_device_id, devices),
            active_session: SessionState::Idle,
        },
        devices: after.devices,
        last_error: None,
        ..before
    })
}

/// Whether `after` is `before` with the session state `started` the
/// service gave on starting a stream, and no error.
pub open spec fn shows_started(before: TrayAppState, after: TrayAppState, started: AppState) -> bool {
    after == (TrayAppState { app_state: started, last_error: None, ..before })
}

/// Whether `after` is `before` with the session state `stopped` the service
/// gave on stopping, the selection kept, and no error.
pub open spec fn shows_stopped(before: TrayAppState, after: TrayAppState, stopped: AppState) -> bool {
    after == (TrayAppState {
        app_state: AppState {
            selected_device_id: before.app_state.selected_device_id,
            active_session: stopped.active_session,
        },
        last_error: None,
        ..before
    })
}

/// Whether `after` is the settings `before` with the pairing `c` stored for
/// `id`, replacing an earlier one, and nothing else changed.
pub open spec fn stores_pairing(before: AppConfig, after: AppConfig, id: Seq<char>, c: ReceiverCredentials) -> bool {
    &&& after.auto_reconnect == before.auto_reconnect
    &&& after.preferred_device_id == before.preferred_device_id
    &&& after.tray_language == before.tray_language
    &&& paired_lookup(after.paired_receivers@, id) == Some(c)
    &&& forall|k: Seq<char>| k != id ==> #[trigger] paired_lookup(after.paired_receivers@, k) == paired_lookup(
        before.paired_receivers@,
        k,
    )
}

/// The name of the device `device_id` names, if it names one.
pub open spec fn named_device(devices: Seq<SpeakerDevice>, device_id: Option<Seq<char>>) -> Option<Seq<char>> {
    match device_id {
        Some(id) => match find_device_index(devices, id) {
            Some(i) => Some(devices[i].name@),
            None => None,
        },
        None => None,
    }
}

/// The tray's message for an error: what to do next for the pairing and
/// authentication errors, the error's own text otherwise.
pub open spec fn error_recovery_text(name: Option<Seq<char>>, e: RairstreamError) -> Seq<char> {
    match e {
        RairstreamError::Transport(AirPlayError::PairingRequired) => match name {
            Some(n) => n + " 需要先完成首次配对，请重新选择并输入 PIN"@,
            None => "目标设备需要先完成首次配对，请重新选择并输入 PIN"@,
        },
        RairstreamError::Transport(AirPlayError::CredentialsMissing) => match name {
            Some(n) => n + " 缺少可用配对记录，请重新配对"@,
            None => "目标设备缺少可用配对记录，请重新配对"@,
        },
        RairstreamError::Transport(AirPlayError::AuthenticationFailed { .. }) => match name {
            Some(n) => n + " 认证失败，请重新配对后再试"@,
            None => "目标设备认证失败，请重新配对后再试"@,
        },
        _ => rairstream_error_text(e),
    }
}

/// Whether `e` is the error for a device id the tray does not know.
pub open spec fn is_unknown_device_error(e: RairstreamError, device_id: Seq<char>) -> bool {
    e matches RairstreamError::InvalidConfiguration { message } && message@ == "device id "@ + device_id
        + " not found in tray state"@
}

/// Whether choosing `device_id` in `state` names no known device: it is
/// not the receiver being streamed to and no device has that id.
pub open spec fn selects_unknown(state: TrayAppState, device_id: Seq<char>) -> bool {
    &&& !(state.app_state.active_session matches SessionState::Streaming { device_id: active } && active@
        == device_id)
    &&& find_device_index(state.devices@, device_id) is None
}

/// The tray's words for a device id it does not know.
pub open spec fn unknown_device_text(device_id: Seq<char>) -> Seq<char> {
    "配置无效: "@ + ("device id "@ + device_id + " not found in tray state"@)
}

/// The optional `&str` as an optional character sequence.
pub open spec fn opt_str_view(o: Option<&str>) -> Option<Seq<char>> {
    match o {
        Some(s) => Some(s@),
        None => None,
    }
}

impl<S: TraySessionService> TrayController<S> {
    /// A controller with the preferred receiver selected and no devices yet.
    pub fn new(session_service: S, config: AppConfig) -> (r: Self)
        ensures
            r.session_service == session_service,
            r.config == config,
            r.state.app_state.selected_device_id == config.preferred_device_id,
            r.state.app_state.active_session == SessionState::Idle,
            r.state.devices@.len() == 0,
            r.state.auto_reconnect == config.auto_reconnect,
            !r.state.launch_at_startup,
            r.state.sender_volume_percent == 100,
            !r.state.sender_muted,
            r.state.last_error is None,
    {
        let preferred_device_id = copy_opt_string(&config.preferred_device_id);
        let auto_reconnect = config.auto_reconnect;
        TrayController {
            session_service,
            config,
            state: TrayAppState {
                app_state: AppState { selected_device_id: preferred_device_id, active_session: SessionState::Idle },
                devices: Vec::new(),
                auto_reconnect,
                launch_at_startup: false,
                sender_volume_percent: 100,
                sender_muted: false,
                last_error: None,
            },
        }
    }

    /// The menu for the current state.
    pub fn menu_model(&self) -> (r: TrayMenuModel)
        ensures
            menu_model_for(r, self.state),
    {
        build_tray_menu_model(&self.state)
    }

    /// The current state.
    pub fn state(&self) -> (r: &TrayAppState)
        ensures
            *r == self.state,
    {
        &self.state
    }

    /// The selected id if the device is still in `devices`.
    fn retain_selected_device_id(&self, devices: &Vec<SpeakerDevice>) -> (r: Option<String>)
        ensures
            r == retained_selection(self.state.app_state.selected_device_id, devices@),
    {
        match &self.state.app_state.selected_device_id {
            Some(id) => match resolve_device_name(devices, id.as_str()) {
                Some(_) => Some(id.clone()),
                None => None,
            },
            None => None,
        }
    }

    /// Shows the receivers a discovery found: see `shows_discovered`.
    pub fn apply_discovered(&mut self, devices: Vec<SpeakerDevice>) -> (r: TrayMenuModel)
        ensures
            final(self).config == old(self).config,
            final(self).session_service == old(self).session_service,
            shows_discovered(old(self).state, final(self).state, devices@),
            menu_model_for(r, final(self).state),
    {
        let selected_device_id = self.retain_selected_device_id(&devices);
        self.state.devices = devices;
        self.state.app_state.selected_device_id = selected_device_id;
        self.state.app_state.active_session = SessionState::Idle;
        self.state.last_error = None;
        self.menu_model()
    }

    /// Shows the session state the service gave on starting a stream: see
    /// `shows_started`.
    pub fn apply_started_session(&mut self, started: AppState) -> (r: TrayMenuModel)
        ensures
            final(self).config == old(self).config,
            final(self).session_service == old(self).session_service,
            shows_started(old(self).state, final(self).state, started),
            menu_model_for(r, final(self).state),
    {
        self.state.app_state = started;
        self.state.last_error = None;
        self.menu_model()
    }

    /// Shows the session state the service gave on stopping a stream: see
    /// `shows_stopped`.
    pub fn apply_stopped_session(&mut self, stopped: AppState) -> (r: TrayMenuModel)
        ensures
            final(self).config == old(self).config,
            final(self).session_service == old(self).session_service,
            shows_stopped(old(self).state, final(self).state, stopped),
            menu_model_for(r, final(self).state),
    {
        let selected_device_id = copy_opt_string(&self.state.app_state.selected_device_id);
        self.state.app_state = AppState { selected_device_id, active_session: stopped.active_session };
        self.state.last_error = None;
        self.menu_model()
    }

    /// Asks the service for the receivers and shows them.
    pub fn refresh_devices(&mut self) -> (r: TrayMenuModel)
        ensures
            final(self).config == old(self).config,
            final(self).session_service == old(self).session_service,
            refreshed(old(self).state, final(self).state),
            exists|devices: Seq<SpeakerDevice>| #[trigger] shows_discovered(old(self).state, final(self).state, devices),
            menu_model_for(r, final(self).state),
    {
        self.state.app_state.active_session = SessionState::Discovering;
        let devices = self.session_service.discover();
        let ghost found = devices@;
        let model = self.apply_discovered(devices);
        assert(shows_discovered(old(self).state, self.state, found));
        model
    }

    /// Refreshes, then reconnects to the preferred receiver when the
    /// settings ask for it; a failed reconnect is shown as the last error.
    pub fn initialize(&mut self) -> (r: TrayMenuModel)
        ensures
            final(self).session_service == old(self).session_service,
            menu_model_for(r, final(self).state),
            !old(self).config.auto_reconnect ==> final(self).config == old(self).config && refreshed(
                old(self).state,
                final(self).state,
            ),
    {
        let model = self.refresh_devices();
        if !self.config.auto_reconnect {
            return model;
        }
        let device_id = match &self.state.app_state.selected_device_id {
            Some(id) => id.clone(),
            None => {
                return model;
            },
        };
        match self.select_device(device_id.as_str()) {
            Ok(model) => model,
            Err(error) => {
                self.handle_error(Some(device_id.as_str()), &error);
                self.menu_model()
            },
        }
    }

    /// Selects a receiver and starts streaming to it; selecting the receiver
    /// that is streaming stops the stream instead. An unknown id is a
    /// configuration error; a failure leaves the tray state as it was.
    pub fn select_device(&mut self, device_id: &str) -> (r: Result<TrayMenuModel, RairstreamError>)
        ensures
            final(self).session_service == old(self).session_service,
            r is Err ==> final(self).state == old(self).state,
            r matches Ok(m) ==> menu_model_for(m, final(self).state) && final(self).state.last_error is None
                && final(self).state.devices == old(self).state.devices,
            (old(self).state.app_state.active_session matches SessionState::Streaming { device_id: active }
                && active@ == device_id@) ==> (r is Ok ==> final(self).state.app_state.selected_device_id
                == old(self).state.app_state.selected_device_id && final(self).config == (AppConfig {
                preferred_device_id: old(self).state.app_state.selected_device_id,
                ..old(self).config
            }) && exists|stopped: AppState| #[trigger] shows_stopped(old(self).state, final(self).state, stopped)),
            !(old(self).state.app_state.active_session matches SessionState::Streaming { device_id: active }
                && active@ == device_id@) ==> match find_device_index(old(self).state.devices@, device_id@) {
                None => (r matches Err(e) && is_unknown_device_error(e, device_id@)) && *final(self) == *old(self),
                Some(i) => {
                    &&& r is Ok ==> final(self).config == (AppConfig {
                        preferred_device_id: Some(old(self).state.devices@[i].id),
                        ..old(self).config
                    })
                    &&& r is Ok ==> exists|started: AppState| #[trigger] shows_started(
                        old(self).state,
                        final(self).state,
                        started,
                    )
                    &&& r is Err ==> final(self).config == old(self).config || final(self).config == (AppConfig {
                        preferred_device_id: Some(old(self).state.devices@[i].id),
                        ..old(self).config
                    })
                },
            },
    {
        let streaming_same = match &self.state.app_state.active_session {
            SessionState::Streaming { device_id: active } => crate::text::str_eq(active.as_str(), device_id),
            _ => false,
        };
        if streaming_same {
            return self.stop_streaming();
        }
        let device = match self.find_device(device_id) {
            Ok(device) => device,
            Err(e) => {
                return Err(e);
            },
        };
        proof {
            crate::ui_state::lemma_find_device_from(self.state.devices@, device_id@, 0);
        }
        let started = self.session_service.start_streaming_session(device.duplicate());
        self.finish_selection(device.id, started)
    }

    /// Carries on the selection of the receiver `device_id` once the
    /// service answered the start of its stream with `started`: a refused
    /// start changes nothing and gives its error; otherwise the receiver
    /// becomes the preferred one, the settings are saved, and the tray shows
    /// the started session (a failed save leaves the tray state as it was).
    pub fn finish_selection(&mut self, device_id: String, started: Result<AppState, RairstreamError>) -> (r: Result<
        TrayMenuModel,
        RairstreamError,
    >)
        ensures
            final(self).session_service == old(self).session_service,
            match started {
                Err(e) => r == Err::<TrayMenuModel, RairstreamError>(e) && *final(self) == *old(self),
                Ok(a) => {
                    &&& final(self).config == (AppConfig { preferred_device_id: Some(device_id), ..old(self).config })
                    &&& r matches Ok(m) ==> shows_started(old(self).state, final(self).state, a) && menu_model_for(
                        m,
                        final(self).state,
                    )
                    &&& r is Err ==> final(self).state == old(self).state
                },
            },
    {
        let app_state = match started {
            Ok(a) => a,
            Err(e) => {
                return Err(e);
            },
        };
        self.config.set_preferred_device_id(Some(device_id));
        match self.session_service.save_config(&self.config) {
            Ok(()) => {},
            Err(e) => {
                return Err(e);
            },
        }
        Ok(self.apply_started_session(app_state))
    }

    /// Pairs with the receiver using `pin`, stores the pairing and starts
    /// streaming. An unknown id is a configuration error and changes
    /// nothing.
    pub fn submit_pairing_pin(&mut self, device_id: &str, pin: &str) -> (r: Result<TrayMenuModel, RairstreamError>)
        ensures
            final(self).session_service == old(self).session_service,
            final(self).state.devices == old(self).state.devices,
            r matches Ok(m) ==> menu_model_for(m, final(self).state) && final(self).state.last_error is None
                && paired_lookup(final(self).config.paired_receivers@, device_id@) is Some,
            r is Ok ==> exists|c: ReceiverCredentials| #[trigger] stores_pairing(
                old(self).config,
                final(self).config,
                device_id@,
                c,
            ),
            r is Ok ==> exists|started: AppState| #[trigger] shows_started(old(self).state, final(self).state, started),
            match find_device_index(old(self).state.devices@, device_id@) {
                None => (r matches Err(e) && is_unknown_device_error(e, device_id@)) && *final(self) == *old(self),
                Some(i) => r is Err ==> (final(self).state == old(self).state || final(self).state == (TrayAppState {
                    app_state: AppState {
                        selected_device_id: Some(old(self).state.devices@[i].id),
                        active_session: SessionState::Authenticating { device_id: old(self).state.devices@[i].id },
                    },
                    ..old(self).state
                })),
            },
    {
        let device = match self.find_device(device_id) {
            Ok(device) => device,
            Err(e) => {
                return Err(e);
            },
        };
        proof {
            crate::ui_state::lemma_find_device_from(self.state.devices@, device_id@, 0);
        }
        let receiver_credentials = match self.session_service.pair_with_pin(device.duplicate(), pin) {
            Ok(c) => c,
            Err(e) => {
                return Err(e);
            },
        };
        match self.session_service.store_receiver_credentials(device.id.clone(), receiver_credentials.duplicate()) {
            Ok(()) => {},
            Err(e) => {
                return Err(e);
            },
        }
        let ghost stored = receiver_credentials;
        self.config.upsert_paired_receiver(device.id.clone(), receiver_credentials);
        assert(stores_pairing(old(self).config, self.config, device_id@, stored));
        match self.session_service.save_config(&self.config) {
            Ok(()) => {},
            Err(e) => {
                return Err(e);
            },
        }
        self.state.app_state = AppState {
            selected_device_id: Some(device.id.clone()),
            active_session: SessionState::Authenticating { device_id: device.id.clone() },
        };
        let app_state = match self.session_service.start_streaming_session(device) {
            Ok(a) => a,
            Err(e) => {
                return Err(e);
            },
        };
        let ghost started = app_state;
        let model = self.apply_started_session(app_state);
        assert(shows_started(old(self).state, self.state, started));
        Ok(model)
    }

    /// Leaves the PIN prompt: the receiver stays selected and the session
    /// goes idle. An unknown id is a configuration error and changes nothing.
    pub fn cancel_pairing(&mut self, device_id: &str) -> (r: Result<TrayMenuModel, RairstreamError>)
        ensures
            final(self).session_service == old(self).session_service,
            final(self).config == old(self).config,
            match find_device_index(old(self).state.devices@, device_id@) {
                None => (r matches Err(e) && is_unknown_device_error(e, device_id@)) && *final(self) == *old(self),
                Some(i) => {
                    &&& final(self).state == (TrayAppState {
                        app_state: AppState {
                            selected_device_id: Some(old(self).state.devices@[i].id),
                            active_session: SessionState::Idle,
                        },
                        last_error: None,
                        ..old(self).state
                    })
                    &&& r matches Ok(m) && menu_model_for(m, final(self).state)
                },
            },
    {
        let device = match self.find_device(device_id) {
            Ok(device) => device,
            Err(e) => {
                return Err(e);
            },
        };
        self.state.app_state = AppState { selected_device_id: Some(device.id), active_session: SessionState::Idle };
        self.state.last_error = None;
        Ok(self.menu_model())
    }

    /// Stops the stream; the selection stays and becomes the preferred
    /// receiver. A failure leaves the tray state as it was.
    pub fn stop_streaming(&mut self) -> (r: Result<TrayMenuModel, RairstreamError>)
        ensures
            final(self).session_service == old(self).session_service,
            r is Err ==> final(self).state == old(self).state,
            r is Err ==> final(self).config == old(self).config || final(self).config == (AppConfig {
                preferred_device_id: old(self).state.app_state.selected_device_id,
                ..old(self).config
            }),
            r matches Ok(m) ==> {
                &&& menu_model_for(m, final(self).state)
                &&& final(self).state.last_error is None
                &&& final(self).state.devices == old(self).state.devices
                &&& final(self).state.app_state.selected_device_id == old(self).state.app_state.selected_device_id
                &&& final(self).config == (AppConfig {
                    preferred_device_id: old(self).state.app_state.selected_device_id,
                    ..old(self).config
                })
                &&& exists|stopped: AppState| #[trigger] shows_stopped(old(self).state, final(self).state, stopped)
            },
    {
        let stopped = match self.session_service.stop_streaming_session() {
            Ok(a) => a,
            Err(e) => {
                return Err(e);
            },
        };
        self.config.set_preferred_device_id(copy_opt_string(&self.state.app_state.selected_device_id));
        match self.session_service.save_config(&self.config) {
            Ok(()) => {},
            Err(e) => {
                return Err(e);
            },
        }
        let ghost reply = stopped;
        let model = self.apply_stopped_session(stopped);
        assert(shows_stopped(old(self).state, self.state, reply));
        Ok(model)
    }

    /// A receiver chosen from the menu: selects it and, when its session
    /// then waits for pairing, names it for a PIN prompt. A failure is shown
    /// as the last error and the menu stays as it was.
    pub fn handle_select_device(&mut self, device_id: &str) -> (r: (TrayMenuModel, Option<String>))
        ensures
            final(self).session_service == old(self).session_service,
            final(self).state.devices == old(self).state.devices,
            menu_model_for(r.0, final(self).state),
            r.1 matches Some(id) ==> final(self).state.app_state.active_session == (SessionState::AwaitingPairing {
                device_id: id,
            }),
            final(self).state.last_error is None ==> (r.1 is Some
                <==> final(self).state.app_state.active_session is AwaitingPairing),
            final(self).state.last_error is Some ==> r.1 is None && final(self).state == (TrayAppState {
                last_error: final(self).state.last_error,
                ..old(self).state
            }),
            selects_unknown(old(self).state, device_id@) ==> {
                &&& final(self).config == old(self).config
                &&& final(self).state.last_error matches Some(m) && m@ == unknown_device_text(device_id@)
            },
    {
        match self.select_device(device_id) {
            Ok(model) => {
                let awaiting = match &self.state.app_state.active_session {
                    SessionState::AwaitingPairing { device_id } => Some(device_id.clone()),
                    _ => None,
                };
                (model, awaiting)
            },
            Err(error) => {
                self.handle_error(Some(device_id), &error);
                (self.menu_model(), None)
            },
        }
    }

    /// The answer to a PIN prompt for `device_id`: a PIN pairs and starts
    /// streaming, no PIN leaves the prompt, and a prompt that could not be
    /// shown (its message in `Err`) counts as a configuration error. A
    /// failure is shown as the last error.
    pub fn handle_pairing_prompt(&mut self, device_id: &str, reply: Result<Option<String>, String>) -> (r:
        TrayMenuModel)
        ensures
            final(self).session_service == old(self).session_service,
            final(self).state.devices == old(self).state.devices,
            menu_model_for(r, final(self).state),
            match reply {
                Err(message) => {
                    &&& final(self).config == old(self).config
                    &&& final(self).state.last_error matches Some(m) && m@ == "配置无效: "@ + message@
                    &&& final(self).state == (TrayAppState { last_error: final(self).state.last_error, ..old(self).state })
                },
                Ok(answer) => match find_device_index(old(self).state.devices@, device_id@) {
                    None => {
                        &&& final(self).config == old(self).config
                        &&& final(self).state.last_error matches Some(m) && m@ == unknown_device_text(device_id@)
                        &&& final(self).state == (TrayAppState {
                            last_error: final(self).state.last_error,
                            ..old(self).state
                        })
                    },
                    Some(i) => match answer {
                        None => final(self).config == old(self).config && final(self).state == (TrayAppState {
                            app_state: AppState {
                                selected_device_id: Some(old(self).state.devices@[i].id),
                                active_session: SessionState::Idle,
                            },
                            last_error: None,
                            ..old(self).state
                        }),
                        Some(pin) => final(self).state.last_error is None ==> paired_lookup(
                            final(self).config.paired_receivers@,
                            device_id@,
                        ) is Some,
                    },
                },
            },
    {
        match reply {
            Ok(Some(pin)) => match self.submit_pairing_pin(device_id, pin.as_str()) {
                Ok(model) => model,
                Err(error) => {
                    self.handle_error(Some(device_id), &error);
                    self.menu_model()
                },
            },
            Ok(None) => match self.cancel_pairing(device_id) {
                Ok(model) => model,
                Err(error) => {
                    self.handle_error(Some(device_id), &error);
                    self.menu_model()
                },
            },
            Err(message) => {
                let error = RairstreamError::InvalidConfiguration { message };
                self.handle_error(Some(device_id), &error);
                assert(error_recovery_text(named_device(self.state.devices@, Some(device_id@)), error)
                    == rairstream_error_text(error));
                self.menu_model()
            },
        }
    }

    /// Shows `error` as the last error, in the words the tray uses for it.
    pub fn handle_error(&mut self, device_id: Option<&str>, error: &RairstreamError)
        ensures
            final(self).session_service == old(self).session_service,
            final(self).config == old(self).config,
            final(self).state.app_state == old(self).state.app_state,
            final(self).state.devices == old(self).state.devices,
            final(self).state.last_error matches Some(m) && m@ == error_recovery_text(
                named_device(old(self).state.devices@, opt_str_view(device_id)),
                *error,
            ),
            final(self).state == (TrayAppState { last_error: final(self).state.last_error, ..old(self).state }),
    {
        let text = self.describe_error(device_id, error);
        self.state.last_error = Some(text);
    }

    /// The tray's words for `error` about the device `device_id`.
    pub fn describe_error(&self, device_id: Option<&str>, error: &RairstreamError) -> (r: String)
        ensures
            r@ == error_recovery_text(named_device(self.state.devices@, opt_str_view(device_id)), *error),
    {
        let device_name: Option<&str> = match device_id {
            Some(id) => resolve_device_name(&self.state.devices, id),
            None => None,
        };
        let (suffix, fallback): (&str, &str) = match error {
            RairstreamError::Transport(AirPlayError::PairingRequired) => (
                " 需要先完成首次配对，请重新选择并输入 PIN",
                "目标设备需要先完成首次配对，请重新选择并输入 PIN",
            ),
            RairstreamError::Transport(AirPlayError::CredentialsMissing) => (
                " 缺少可用配对记录，请重新配对",
                "目标设备缺少可用配对记录，请重新配对",
            ),
            RairstreamError::Transport(AirPlayError::AuthenticationFailed { .. }) => (
                " 认证失败，请重新配对后再试",
                "目标设备认证失败，请重新配对后再试",
            ),
            _ => {
                return error.describe();
            },
        };
        match device_name {
            Some(name) => {
                let mut r = String::from_str(name);
                push_str(&mut r, suffix);
                r
            },
            None => String::from_str(fallback),
        }
    }

    /// The device with id `device_id`, or a configuration error.
    pub fn find_device(&self, device_id: &str) -> (r: Result<SpeakerDevice, RairstreamError>)
        ensures
            match find_device_index(self.state.devices@, device_id@) {
                Some(i) => r == Ok::<SpeakerDevice, RairstreamError>(self.state.devices@[i]),
                None => r matches Err(e) && is_unknown_device_error(e, device_id@),
            },
    {
        let mut i: usize = 0;
        while i < self.state.devices.len()
            invariant
                i <= self.state.devices@.len(),
                find_device_index(self.state.devices@, device_id@) == crate::ui_state::find_device_from(
                    self.state.devices@,
                    device_id@,
                    i as int,
                ),
            decreases self.state.devices@.len() - i,
        {
            if crate::text::str_eq(self.state.devices[i].id.as_str(), device_id) {
                return Ok(self.state.devices[i].duplicate());
            }
            i = i + 1;
        }
        let mut message = String::from_str("device id ");
        push_str(&mut message, device_id);
        push_str(&mut message, " not found in tray state");
        Err(RairstreamError::InvalidConfiguration { message })
    }
}

} // verus!
